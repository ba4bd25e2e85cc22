//! Backend-neutral model of a single file-system entry.
//!
//! A storage backend (local disk, SFTP, FTP, S3, ...) lists objects in its
//! own native format and translates each one into an [`Entry`]: either a
//! [`Directory`] or a [`File`], carrying a name, an absolute path and a
//! [`Metadata`]. Consumers read entries through uniform accessors and only
//! downcast when they need variant-specific fields. [`Metadata`] describes
//! an entry independently of its name and path; [`UnixPex`] encodes a
//! Unix-style permission aggregate that round-trips with its numeric mode.
//!
//! This crate performs no I/O of its own: every value is plain, immutable
//! after construction, and safe to copy across threads.

mod entry;
mod metadata;
mod permissions;

pub use entry::{Directory, Entry, File};
pub use metadata::Metadata;
pub use permissions::{UnixPex, UnixPexClass};
