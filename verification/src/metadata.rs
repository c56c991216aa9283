//! The generic file-metadata model, and the translation of native SMB stat
//! structures into it.
//!
//! A native stat reports times as whole seconds since the Unix epoch, an
//! owner, a size, and a POSIX `st_mode` word that carries both the entry's
//! type and its permission bits. The generic model separates the two: the
//! type becomes a [`FileType`], and only the low nine permission bits are
//! kept as the mode.

use vstd::prelude::*;

verus! {

/// The bits of a POSIX `st_mode` word that encode the entry's type.
pub const FILE_TYPE_MASK: u32 = 0o170000;

/// The type bits of a directory.
pub const DIRECTORY_TYPE_BITS: u32 = 0o040000;

/// The type bits of a symbolic link.
pub const SYMLINK_TYPE_BITS: u32 = 0o120000;

/// The bits of a POSIX `st_mode` word that encode permissions.
pub const PERMISSION_MASK: u32 = 0o777;

/// The permission mode given to a file created without an explicit one.
pub const DEFAULT_CREATE_MODE: u32 = 0o644;

/// Whether an entry is a directory, a regular file, or a symbolic link.
#[derive(Debug, Clone, Copy, PartialEq, Eq, Structural)]
pub enum FileType {
    /// A directory.
    Directory,
    /// A regular file, and anything that is neither a directory nor a link.
    File,
    /// A symbolic link, whatever it points at.
    Symlink,
}

/// The entry type encoded in a POSIX `st_mode` word. Every type other than
/// directory and symbolic link — regular files, but also sockets, devices
/// and pipes — is reported as a file, which is all the generic model
/// distinguishes.
pub open spec fn spec_file_type_of_mode(mode: u32) -> FileType {
    if mode & FILE_TYPE_MASK == DIRECTORY_TYPE_BITS {
        FileType::Directory
    } else if mode & FILE_TYPE_MASK == SYMLINK_TYPE_BITS {
        FileType::Symlink
    } else {
        FileType::File
    }
}

/// The entry type encoded in a POSIX `st_mode` word.
#[verifier::when_used_as_spec(spec_file_type_of_mode)]
pub fn file_type_of_mode(mode: u32) -> (r: FileType)
    ensures
        r == spec_file_type_of_mode(mode),
{
    if mode & FILE_TYPE_MASK == DIRECTORY_TYPE_BITS {
        FileType::Directory
    } else if mode & FILE_TYPE_MASK == SYMLINK_TYPE_BITS {
        FileType::Symlink
    } else {
        FileType::File
    }
}

/// The nine permission bits of a POSIX `st_mode` word, without the type
/// bits.
pub fn permission_bits(mode: u32) -> (r: u32)
    ensures
        r == mode & PERMISSION_MASK,
{
    mode & PERMISSION_MASK
}

/// What a remote host reported about an entry. A field is `None` when the
/// protocol did not report it. Times are whole seconds since the Unix
/// epoch, as the native client reports them.
#[derive(Debug, PartialEq, Eq)]
pub struct Metadata {
    /// Last access time, in seconds since the Unix epoch.
    pub accessed: Option<u64>,
    /// Creation (or metadata-change) time, in seconds since the Unix epoch.
    pub created: Option<u64>,
    /// Owning group id.
    pub gid: Option<u32>,
    /// POSIX permission bits, in the low nine bits.
    pub mode: Option<u32>,
    /// Last modification time, in seconds since the Unix epoch.
    pub modified: Option<u64>,
    /// Size in bytes.
    pub size: Option<u64>,
    /// For a symbolic link, the path it points at.
    pub symlink: Option<String>,
    /// Whether the entry is a directory, a file, or a link.
    pub file_type: FileType,
    /// Owning user id.
    pub uid: Option<u32>,
}

impl Default for Metadata {
    /// Metadata with nothing reported: every optional field empty, and
    /// the entry taken for a regular file.
    fn default() -> (r: Self)
        ensures
            r.accessed is None,
            r.created is None,
            r.gid is None,
            r.mode is None,
            r.modified is None,
            r.size is None,
            r.symlink is None,
            r.file_type is File,
            r.uid is None,
    {
        Self {
            accessed: None,
            created: None,
            gid: None,
            mode: None,
            modified: None,
            size: None,
            symlink: None,
            file_type: FileType::File,
            uid: None,
        }
    }
}

impl Clone for Metadata {
    /// An identical copy of the metadata.
    fn clone(&self) -> (r: Self)
        ensures
            r == *self,
    {
        Self {
            accessed: self.accessed,
            created: self.created,
            gid: self.gid,
            mode: self.mode,
            modified: self.modified,
            size: self.size,
            symlink: match &self.symlink {
                Some(s) => Some(s.clone()),
                None => None,
            },
            file_type: self.file_type,
            uid: self.uid,
        }
    }
}

/// An entry on the remote host: its absolute path and its metadata.
#[derive(Debug, PartialEq, Eq)]
pub struct File {
    /// The absolute path of the entry on the remote host.
    pub path: String,
    /// What the remote host reported about the entry.
    pub metadata: Metadata,
}

impl File {
    /// Whether the entry is a directory.
    pub fn is_dir(&self) -> (r: bool)
        ensures
            r == (self.metadata.file_type is Directory),
    {
        match self.metadata.file_type {
            FileType::Directory => true,
            _ => false,
        }
    }
}

impl Clone for File {
    /// An identical copy of the entry.
    fn clone(&self) -> (r: Self)
        ensures
            r == *self,
    {
        Self { path: self.path.clone(), metadata: self.metadata.clone() }
    }
}

/// The fields of a native SMB stat structure that the generic model reads:
/// POSIX metadata with whole-second times and a full `st_mode` word.
#[derive(Debug, Clone, Copy, PartialEq, Eq, Structural)]
pub struct SmbStat {
    /// Last access time, in seconds since the Unix epoch.
    pub accessed: u64,
    /// Metadata-change time, in seconds since the Unix epoch.
    pub created: u64,
    /// Last modification time, in seconds since the Unix epoch.
    pub modified: u64,
    /// Owning group id.
    pub gid: u32,
    /// Owning user id.
    pub uid: u32,
    /// The POSIX `st_mode` word: type and permission bits.
    pub mode: u32,
    /// Size in bytes.
    pub size: u64,
}

/// Translate a native stat answer for the entry at `uri` into the generic
/// model: every reported field is kept, the mode is reduced to its
/// permission bits, and the entry type is read off the mode word.
pub fn smbstat_to_file(uri: &str, stat: &SmbStat) -> (r: File)
    ensures
        r.path@ == uri@,
        r.metadata.accessed == Some(stat.accessed),
        r.metadata.created == Some(stat.created),
        r.metadata.modified == Some(stat.modified),
        r.metadata.gid == Some(stat.gid),
        r.metadata.uid == Some(stat.uid),
        r.metadata.mode == Some(stat.mode & PERMISSION_MASK),
        r.metadata.size == Some(stat.size),
        r.metadata.symlink is None,
        r.metadata.file_type == spec_file_type_of_mode(stat.mode),
{
    File {
        path: String::from_str(uri),
        metadata: Metadata {
            accessed: Some(stat.accessed),
            created: Some(stat.created),
            gid: Some(stat.gid),
            mode: Some(permission_bits(stat.mode)),
            modified: Some(stat.modified),
            size: Some(stat.size),
            symlink: None,
            file_type: file_type_of_mode(stat.mode),
            uid: Some(stat.uid),
        },
    }
}

} // verus!
