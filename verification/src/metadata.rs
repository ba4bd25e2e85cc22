//! Descriptive attributes of a file-system entry.
//!
//! [`Metadata`] carries everything a backend can report about an entry
//! besides its name and path. Backends differ in what they can observe, so
//! every attribute that is not universally available is optional: `None`
//! means "not reported by this backend", never a zero observation. The one
//! deliberate exception is `size`, which defaults to `0` when unknown; that
//! conflates an empty file with an unreported size and is kept because the
//! entry model treats `0` as the documented fallback.

use crate::permissions::UnixPex;
use vstd::prelude::*;

verus! {

/// Attributes of one entry, independent of its name and path.
///
/// A backend fills every field it can observe once, at listing or stat
/// time; the value is read-only afterwards and owns no resource, so it may
/// be copied and shared freely. Timestamps are seconds since the Unix
/// epoch. Equality is field-wise.
#[derive(Clone, Debug, PartialEq, Eq, Hash)]
pub struct Metadata {
    /// Byte size of the entry; `0` when the backend cannot report it.
    pub size: u64,
    /// Last access time, if reported.
    pub accessed: Option<u64>,
    /// Creation time, if reported.
    pub created: Option<u64>,
    /// Last modification time, if reported.
    pub modified: Option<u64>,
    /// Numeric identifier of the owning user, if reported.
    pub uid: Option<u32>,
    /// Numeric identifier of the owning group, if reported.
    pub gid: Option<u32>,
    /// Permission aggregate; `None` when the backend cannot report one.
    pub mode: Option<UnixPex>,
    /// Target path of a symbolic link; `None` for anything but a symlink.
    pub symlink: Option<String>,
}

impl Metadata {
    /// The zeroed value: size `0` and every optional attribute unreported.
    pub open spec fn spec_default() -> Metadata {
        Metadata {
            size: 0,
            accessed: None,
            created: None,
            modified: None,
            uid: None,
            gid: None,
            mode: None,
            symlink: None,
        }
    }
}

impl Default for Metadata {
    /// The fallback for backends that can report nothing: size `0`, no
    /// timestamps, no ownership, no permission aggregate, no symlink target.
    fn default() -> (r: Metadata)
        ensures
            r == Metadata::spec_default(),
    {
        Metadata {
            size: 0,
            accessed: None,
            created: None,
            modified: None,
            uid: None,
            gid: None,
            mode: None,
            symlink: None,
        }
    }
}

} // verus!
