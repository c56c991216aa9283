//! Directory entries as the native SMB browse operation reports them: a
//! name and the kind of resource it denotes.

use vstd::prelude::*;

verus! {

/// The resource category reported for an SMB directory entry.
#[derive(Debug, Clone, Copy, PartialEq, Eq, Structural)]
pub enum SmbDirentType {
    /// A Windows workgroup or domain.
    Workgroup,
    /// An SMB server.
    Server,
    /// A shared filesystem.
    FileShare,
    /// A shared printer.
    PrinterShare,
    /// A shared communications device.
    CommsShare,
    /// An inter-process communication share.
    IpcShare,
    /// A directory.
    Dir,
    /// A regular file.
    File,
    /// A symbolic link.
    Link,
}

/// A directory entry reported by the native SMB listing.
#[derive(Debug, PartialEq, Eq)]
pub struct SmbDirent {
    /// The entry name, without any directory part.
    pub name: String,
    /// The kind of resource the entry denotes.
    pub dtype: SmbDirentType,
}

impl SmbDirent {
    /// A directory entry with the given name and resource kind.
    pub fn new(name: String, dtype: SmbDirentType) -> (r: Self)
        ensures
            r.name == name,
            r.dtype == dtype,
    {
        Self { name, dtype }
    }
}

impl Clone for SmbDirent {
    /// An identical copy of the entry.
    fn clone(&self) -> (r: Self)
        ensures
            r == *self,
    {
        Self { name: self.name.clone(), dtype: self.dtype }
    }
}

} // verus!
