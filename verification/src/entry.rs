//! The closed tagged union a backend returns for one file-system object.
//!
//! [`Entry`] is either a [`Directory`] or a [`File`] — never a third kind:
//! an object the backend cannot classify must not become an entry at all.
//! Shared attributes (name, path, metadata) are read through uniform
//! accessors that dispatch on the variant; only callers that need
//! variant-specific data downcast, either totally with [`Entry::as_file`] /
//! [`Entry::as_directory`] or, when the variant is known for certain, with
//! [`Entry::unwrap_file`] / [`Entry::unwrap_dir`].

use crate::metadata::Metadata;
use vstd::pervasive::unreached;
use vstd::prelude::*;
use vstd::string::StrSliceExecFns;

verus! {

/// One entry of a directory listing: a directory or a file.
#[derive(Clone, Debug, PartialEq, Eq, Hash)]
pub enum Entry {
    Directory(Directory),
    File(File),
}

/// A file-system directory.
///
/// `name` is the base name: non-empty, with no path separator. `path` is
/// the absolute path of the directory; its final component equals `name`.
#[derive(Clone, Debug, PartialEq, Eq, Hash)]
pub struct Directory {
    /// Base name of the directory.
    pub name: String,
    /// Absolute path of the directory.
    pub path: String,
    /// Attributes reported by the backend.
    pub metadata: Metadata,
}

/// A file-system file.
///
/// `name` and `path` obey the same rules as for [`Directory`]. `extension`
/// is the suffix of `name` after its last `.`, without that `.`; a backend
/// leaves it `None` when the name has no such suffix.
#[derive(Clone, Debug, PartialEq, Eq, Hash)]
pub struct File {
    /// Base name of the file.
    pub name: String,
    /// Absolute path of the file.
    pub path: String,
    /// Extension derived from the name, if any.
    pub extension: Option<String>,
    /// Attributes reported by the backend.
    pub metadata: Metadata,
}

impl Directory {
    /// What a backend owes for every directory it publishes: a non-empty
    /// base name without a path separator, and an absolute path whose final
    /// component is that name.
    pub open spec fn well_formed(self) -> bool {
        &&& self.name@.len() > 0
        &&& (forall|i: int| 0 <= i < self.name@.len() ==> self.name@[i] != '/')
        &&& self.path@.len() > self.name@.len()
        &&& self.path@[0] == '/'
        &&& self.path@[self.path@.len() - self.name@.len() - 1] == '/'
        &&& self.path@.subrange(
            self.path@.len() - self.name@.len(),
            self.path@.len() as int,
        ) == self.name@
    }
}

impl File {
    /// What a backend owes for every file it publishes: the same name and
    /// path rules as for a directory. The extension is not constrained
    /// here: it is the backend's reading of the name's suffix, and a
    /// backend that derives none leaves it `None`.
    pub open spec fn well_formed(self) -> bool {
        &&& self.name@.len() > 0
        &&& (forall|i: int| 0 <= i < self.name@.len() ==> self.name@[i] != '/')
        &&& self.path@.len() > self.name@.len()
        &&& self.path@[0] == '/'
        &&& self.path@[self.path@.len() - self.name@.len() - 1] == '/'
        &&& self.path@.subrange(
            self.path@.len() - self.name@.len(),
            self.path@.len() as int,
        ) == self.name@
    }
}

impl Entry {
    /// What a backend owes for every entry it publishes, whichever the
    /// variant.
    pub open spec fn well_formed(self) -> bool {
        match self {
            Entry::Directory(dir) => dir.well_formed(),
            Entry::File(file) => file.well_formed(),
        }
    }

    /// The absolute path of the entry, whichever the variant.
    pub open spec fn spec_path(self) -> Seq<char> {
        match self {
            Entry::Directory(dir) => dir.path@,
            Entry::File(file) => file.path@,
        }
    }

    /// The base name of the entry, whichever the variant.
    pub open spec fn spec_name(self) -> Seq<char> {
        match self {
            Entry::Directory(dir) => dir.name@,
            Entry::File(file) => file.name@,
        }
    }

    /// The metadata of the entry, whichever the variant.
    pub open spec fn spec_metadata(self) -> Metadata {
        match self {
            Entry::Directory(dir) => dir.metadata,
            Entry::File(file) => file.metadata,
        }
    }

    /// The extension of the entry: always `None` for a directory, the
    /// file's extension field otherwise.
    pub open spec fn spec_extension(self) -> Option<Seq<char>> {
        match self {
            Entry::Directory(_) => None,
            Entry::File(file) => match file.extension {
                Some(ext) => Some(ext@),
                None => None,
            },
        }
    }

    /// Whether the entry is hidden: its name begins with `.`.
    pub open spec fn spec_is_hidden(self) -> bool {
        self.spec_name().len() > 0 && self.spec_name()[0] == '.'
    }

    /// The absolute path of the entry.
    pub fn path(&self) -> (r: &str)
        ensures
            r@ == self.spec_path(),
    {
        match self {
            Entry::Directory(dir) => dir.path.as_str(),
            Entry::File(file) => file.path.as_str(),
        }
    }

    /// The base name of the entry.
    pub fn name(&self) -> (r: &str)
        ensures
            r@ == self.spec_name(),
    {
        match self {
            Entry::Directory(dir) => dir.name.as_str(),
            Entry::File(file) => file.name.as_str(),
        }
    }

    /// The metadata of the entry.
    pub fn metadata(&self) -> (r: &Metadata)
        ensures
            *r == self.spec_metadata(),
    {
        match self {
            Entry::Directory(dir) => &dir.metadata,
            Entry::File(file) => &file.metadata,
        }
    }

    /// The extension of the entry: `None` for every directory, the file's
    /// extension, if any, otherwise.
    pub fn extension(&self) -> (r: Option<&str>)
        ensures
            (match (r, self.spec_extension()) {
                (Some(got), Some(want)) => got@ == want,
                (None, None) => true,
                _ => false,
            }),
            self is Directory ==> r is None,
    {
        match self {
            Entry::Directory(_) => None,
            Entry::File(file) => match &file.extension {
                Some(ext) => Some(ext.as_str()),
                None => None,
            },
        }
    }

    /// Whether the entry is a directory.
    pub fn is_dir(&self) -> (r: bool)
        ensures
            r == (self is Directory),
    {
        matches!(self, Entry::Directory(_))
    }

    /// Whether the entry is a file.
    pub fn is_file(&self) -> (r: bool)
        ensures
            r == (self is File),
    {
        matches!(self, Entry::File(_))
    }

    /// Whether the entry is hidden, that is, whether its name begins with
    /// `.` — the same rule for both variants.
    pub fn is_hidden(&self) -> (r: bool)
        ensures
            r == self.spec_is_hidden(),
    {
        let name = self.name();
        if name.unicode_len() == 0 {
            false
        } else {
            name.get_char(0) == '.'
        }
    }

    /// The inner [`File`] when the entry holds one, `None` when it holds a
    /// directory — the non-fatal downcast: a mismatch is an explicit `None`,
    /// never a default or wrong-variant value.
    pub fn as_file(&self) -> (r: Option<&File>)
        ensures
            (match r {
                Some(file) => *self == Entry::File(*file),
                None => self is Directory,
            }),
    {
        match self {
            Entry::File(file) => Some(file),
            Entry::Directory(_) => None,
        }
    }

    /// The inner [`Directory`] when the entry holds one, `None` when it
    /// holds a file — the non-fatal downcast, as [`Entry::as_file`].
    pub fn as_directory(&self) -> (r: Option<&Directory>)
        ensures
            (match r {
                Some(dir) => *self == Entry::Directory(*dir),
                None => self is File,
            }),
    {
        match self {
            Entry::Directory(dir) => Some(dir),
            Entry::File(_) => None,
        }
    }

    /// The inner [`File`] of an entry known to hold one.
    ///
    /// Calling this on a directory entry is a caller bug, not a runtime
    /// condition: verified callers are rejected unless the entry is a file,
    /// and an unverified caller that breaks the contract panics rather than
    /// receive a made-up value.
    pub fn unwrap_file(self) -> (r: File)
        requires
            self is File,
        ensures
            self == Entry::File(r),
    {
        match self {
            Entry::File(file) => file,
            Entry::Directory(_) => unreached(),
        }
    }

    /// The inner [`Directory`] of an entry known to hold one.
    ///
    /// The mirror of [`Entry::unwrap_file`]: a file entry is a contract
    /// violation, rejected when the caller is verified and a panic when it
    /// is not.
    pub fn unwrap_dir(self) -> (r: Directory)
        requires
            self is Directory,
        ensures
            self == Entry::Directory(r),
    {
        match self {
            Entry::Directory(dir) => dir,
            Entry::File(_) => unreached(),
        }
    }
}

/// Law: an entry is a directory or a file, never both and never neither.
pub proof fn lemma_variant_exclusive(entry: Entry)
    ensures
        (entry is Directory) != (entry is File),
{
}

/// Law: a name decides hiddenness alone: any two entries with the same
/// name, whatever their variants, paths and metadata, are hidden or not
/// hidden together.
pub proof fn lemma_hidden_by_name_alone(a: Entry, b: Entry)
    requires
        a.spec_name() == b.spec_name(),
    ensures
        a.spec_is_hidden() == b.spec_is_hidden(),
{
}

/// A well-formed entry is reachable by joining its parent directory with
/// its name: the path's final component, after a separator, is the name —
/// the path-consistency invariant read through the accessor
/// specifications.
pub proof fn lemma_name_is_path_suffix(entry: Entry)
    requires
        entry.well_formed(),
    ensures
        entry.spec_path().len() > entry.spec_name().len(),
        entry.spec_path().subrange(
            entry.spec_path().len() - entry.spec_name().len(),
            entry.spec_path().len() as int,
        ) == entry.spec_name(),
        entry.spec_path()[entry.spec_path().len() - entry.spec_name().len() - 1] == '/',
{
}

/// Law: a directory-backed entry never carries an extension.
pub proof fn lemma_directory_has_no_extension(entry: Entry)
    requires
        entry is Directory,
    ensures
        entry.spec_extension() is None,
{
}

} // verus!
