//! The working-directory state machine of the SMB client, and the
//! decisions each filesystem operation takes around its native calls.
//!
//! The native library owns the wire protocol; connecting, statting and
//! transferring bytes happen outside this crate. What is decided here, and
//! proved, is everything in between: which path a request resolves to,
//! when the tracked working directory changes, which entries of a listing
//! are kept, when an operation is refused before any native call is made,
//! and how each native failure is classified. Every function that depends
//! on a native answer takes that answer as an argument, so its contract
//! holds whatever the server replied.

use vstd::prelude::*;

use crate::dirent::{SmbDirent, SmbDirentType};
use crate::errors::{RemoteError, RemoteErrorType, SmbOperation, map_native_error};
use crate::metadata::{DEFAULT_CREATE_MODE, File, PERMISSION_MASK};
use crate::path::{absolutize, backslash_join, lemma_absolutize_absolute, spec_absolutize,
    spec_backslash_join, spec_is_absolute};

verus! {

/// The state an SMB session tracks on this side of the wire: the working
/// directory against which request paths are resolved.
#[derive(Debug)]
pub struct SmbFs {
    /// The tracked working directory; always an absolute path.
    pub wrkdir: String,
}

impl SmbFs {
    /// Well-formedness: the tracked working directory is absolute.
    pub open spec fn wf(&self) -> bool {
        spec_is_absolute(self.wrkdir@)
    }

    /// A fresh session state, with the working directory at the root.
    pub fn new() -> (r: Self)
        ensures
            r.wf(),
            r.wrkdir@ == seq!['/'],
    {
        proof {
            reveal_strlit("/");
        }
        let r = Self { wrkdir: String::from_str("/") };
        proof {
            assert(r.wrkdir@ =~= seq!['/']);
        }
        r
    }

    /// The current working directory.
    pub fn pwd(&self) -> (r: String)
        ensures
            r@ == self.wrkdir@,
    {
        self.wrkdir.clone()
    }

    /// The path sent to the server for the request path `p`: `p` itself
    /// when absolute, and `p` resolved under the working directory
    /// otherwise.
    pub fn get_uri(&self, p: &str) -> (r: String)
        ensures
            r@ == spec_absolutize(self.wrkdir@, p@),
    {
        absolutize(self.wrkdir.as_str(), p)
    }

    /// Enter a directory. `stat_result` is the native answer for the
    /// resolved path `self.get_uri(dir)`: the working directory moves
    /// there exactly when that answer reports a directory, the move is
    /// refused with [`RemoteErrorType::BadFile`] when it reports anything
    /// else, and a failed stat is returned unchanged.
    pub fn change_dir(&mut self, dir: &str, stat_result: Result<File, RemoteError>) -> (r: Result<
        String,
        RemoteError,
    >)
        requires
            old(self).wf(),
        ensures
            final(self).wf(),
            match stat_result {
                Ok(f) => if f.metadata.file_type is Directory {
                    &&& final(self).wrkdir@ == spec_absolutize(old(self).wrkdir@, dir@)
                    &&& r matches Ok(p) && p@ == spec_absolutize(old(self).wrkdir@, dir@)
                } else {
                    &&& final(self).wrkdir == old(self).wrkdir
                    &&& r matches Err(e) && e.kind == RemoteErrorType::BadFile && (
                    e.message matches Some(m) && m@ == "not a directory"@)
                },
                Err(e) => {
                    &&& final(self).wrkdir == old(self).wrkdir
                    &&& r == Result::<String, RemoteError>::Err(e)
                },
            },
    {
        match stat_result {
            Ok(f) => {
                if f.is_dir() {
                    proof {
                        lemma_absolutize_absolute(self.wrkdir@, dir@);
                    }
                    let new_dir = absolutize(self.wrkdir.as_str(), dir);
                    self.wrkdir = new_dir;
                    Ok(self.wrkdir.clone())
                } else {
                    Err(
                        RemoteError::with_message(
                            RemoteErrorType::BadFile,
                            String::from_str("not a directory"),
                        ),
                    )
                }
            },
            Err(e) => Err(e),
        }
    }

    /// Whether an entry exists, judged from the native stat answer for its
    /// path: any successful stat means it exists, a stat classified as
    /// [`RemoteErrorType::StatFailed`] means it does not, and any other
    /// failure is returned unchanged.
    pub fn entry_exists(stat_result: Result<File, RemoteError>) -> (r: Result<bool, RemoteError>)
        ensures
            match stat_result {
                Ok(_) => r == Result::<bool, RemoteError>::Ok(true),
                Err(e) => if e.kind == RemoteErrorType::StatFailed {
                    r == Result::<bool, RemoteError>::Ok(false)
                } else {
                    r == Result::<bool, RemoteError>::Err(e)
                },
            },
    {
        match stat_result {
            Ok(_) => Ok(true),
            Err(e) => {
                if e.kind == RemoteErrorType::StatFailed {
                    Ok(false)
                } else {
                    Err(e)
                }
            },
        }
    }

    /// Whether creating a directory may proceed, judged from the answer of
    /// [`SmbFs::entry_exists`] for its path: an entry already there refuses the
    /// creation with [`RemoteErrorType::AlreadyExists`] before any native
    /// call is made, and a failed existence check is returned unchanged.
    pub fn create_dir_guard(exists_result: Result<bool, RemoteError>) -> (r: Result<
        (),
        RemoteError,
    >)
        ensures
            match exists_result {
                Ok(true) => r matches Err(e) && e.kind == RemoteErrorType::AlreadyExists
                    && e.message is None,
                Ok(false) => r is Ok,
                Err(e) => r == Result::<(), RemoteError>::Err(e),
            },
    {
        match exists_result {
            Ok(true) => Err(RemoteError::new(RemoteErrorType::AlreadyExists)),
            Ok(false) => Ok(()),
            Err(e) => Err(e),
        }
    }

    /// Whether an operation may proceed on a session whose connection
    /// state is tracked as a flag: a disconnected session refuses it with
    /// [`RemoteErrorType::NotConnected`].
    pub fn connection_guard(is_connected: bool) -> (r: Result<(), RemoteError>)
        ensures
            is_connected ==> r is Ok,
            !is_connected ==> (r matches Err(e) && e.kind == RemoteErrorType::NotConnected
                && e.message is None),
    {
        if is_connected {
            Ok(())
        } else {
            Err(RemoteError::new(RemoteErrorType::NotConnected))
        }
    }

    /// The outcome of probing the connection by asking the server for the
    /// connected user: a native failure is classified as
    /// [`RemoteErrorType::ConnectionError`], keeping its text.
    pub fn check_connection(user_result: Result<String, String>) -> (r: Result<(), RemoteError>)
        ensures
            match user_result {
                Ok(_) => r is Ok,
                Err(m) => r matches Err(e) && e.kind == RemoteErrorType::ConnectionError
                    && e.message == Some(m),
            },
    {
        match user_result {
            Ok(_) => Ok(()),
            Err(m) => Err(map_native_error(SmbOperation::CheckUser, m)),
        }
    }
}

/// Whether a listing entry is kept: only files and directories are, while
/// shares, printers, workgroups and links are left out.
pub open spec fn spec_keeps_dirent(d: SmbDirent) -> bool {
    d.dtype is Dir || d.dtype is File
}

/// The paths to stat for a native listing of the directory `uri`: one for
/// each kept entry, in order, formed as the listed directory, a `/`, and
/// the entry name.
pub open spec fn spec_list_targets(uri: Seq<char>, ds: Seq<SmbDirent>) -> Seq<Seq<char>>
    decreases ds.len(),
{
    if ds.len() == 0 {
        Seq::empty()
    } else {
        let rest = spec_list_targets(uri, ds.drop_last());
        if spec_keeps_dirent(ds.last()) {
            rest.push(uri + seq!['/'] + ds.last().name@)
        } else {
            rest
        }
    }
}

/// The listed directory, a `/`, and the entry name.
fn slash_join(uri: &str, name: &str) -> (r: String)
    ensures
        r@ == uri@ + seq!['/'] + name@,
{
    proof {
        reveal_strlit("/");
    }
    let mut r = String::from_str(uri);
    r.append("/");
    r.append(name);
    proof {
        assert(r@ =~= uri@ + seq!['/'] + name@);
    }
    r
}

/// The paths to stat for a native listing of the directory `uri`: the
/// name of every file and directory entry, resolved under `uri`, in the
/// listed order. Entries of every other kind are dropped.
pub fn list_dir_targets(uri: &str, dirents: &Vec<SmbDirent>) -> (r: Vec<String>)
    ensures
        r.deep_view() == spec_list_targets(uri@, dirents@),
{
    let mut r: Vec<String> = Vec::new();
    let ghost all = dirents@;
    let mut i: usize = 0;
    while i < dirents.len()
        invariant
            i <= dirents.len(),
            all == dirents@,
            r.deep_view() == spec_list_targets(uri@, all.take(i as int)),
        decreases dirents.len() - i,
    {
        proof {
            assert(all.take(i + 1).drop_last() =~= all.take(i as int));
            assert(all.take(i + 1).last() == all[i as int]);
        }
        let d = &dirents[i];
        let keep = match d.dtype {
            SmbDirentType::Dir => true,
            SmbDirentType::File => true,
            _ => false,
        };
        if keep {
            let target = slash_join(uri, d.name.as_str());
            let ghost prev = r.deep_view();
            r.push(target);
            proof {
                assert(r.deep_view() =~= prev.push(uri@ + seq!['/'] + all[i as int].name@));
            }
        }
        i = i + 1;
    }
    proof {
        assert(all.take(dirents@.len() as int) =~= all);
    }
    r
}

/// The entries of a listing whose follow-up stat succeeded, in order: a
/// listing reports what it could stat and passes over what it could not.
pub open spec fn spec_ok_files(rs: Seq<Result<File, RemoteError>>) -> Seq<File>
    decreases rs.len(),
{
    if rs.len() == 0 {
        Seq::empty()
    } else {
        let rest = spec_ok_files(rs.drop_last());
        match rs.last() {
            Ok(f) => rest.push(f),
            Err(_) => rest,
        }
    }
}

/// Keep, in order, the entries whose follow-up stat succeeded.
pub fn keep_ok_files(results: Vec<Result<File, RemoteError>>) -> (r: Vec<File>)
    ensures
        r@ == spec_ok_files(results@),
{
    let mut r: Vec<File> = Vec::new();
    let ghost all = results@;
    let mut i: usize = 0;
    while i < results.len()
        invariant
            i <= results.len(),
            all == results@,
            r@ == spec_ok_files(all.take(i as int)),
        decreases results.len() - i,
    {
        proof {
            assert(all.take(i + 1).drop_last() =~= all.take(i as int));
            assert(all.take(i + 1).last() == all[i as int]);
        }
        match &results[i] {
            Ok(f) => {
                r.push(f.clone());
            },
            Err(_) => {},
        }
        i = i + 1;
    }
    proof {
        assert(all.take(results@.len() as int) =~= all);
    }
    r
}

/// One step of a recursive copy on a mapped network drive: what to do
/// with one source entry.
#[derive(Debug, PartialEq, Eq)]
pub enum CopyAction {
    /// The source is a directory: create the destination first when it is
    /// not there yet, then copy each listed entry under it in turn.
    RecurseInto {
        /// Whether the destination directory must be created first.
        create_dest: bool,
    },
    /// The source is a file: copy its bytes to this destination path.
    CopyFileTo {
        /// The path the bytes go to.
        dest: String,
    },
}

/// Decide one step of a recursive copy, from what is known of the source
/// and destination: a source directory is entered, creating the
/// destination when missing; a source file goes to the destination
/// itself, or under it when the destination is an existing directory.
pub fn copy_plan(
    src_is_dir: bool,
    dest_exists: bool,
    dest_is_dir: bool,
    dest: &str,
    src_file_name: &str,
) -> (r: CopyAction)
    ensures
        src_is_dir ==> (r matches CopyAction::RecurseInto { create_dest } && create_dest
            == !dest_exists),
        !src_is_dir && dest_is_dir ==> (r matches CopyAction::CopyFileTo { dest: d } && d@
            == spec_backslash_join(dest@, src_file_name@)),
        !src_is_dir && !dest_is_dir ==> (r matches CopyAction::CopyFileTo { dest: d } && d@
            == dest@),
{
    if src_is_dir {
        CopyAction::RecurseInto { create_dest: !dest_exists }
    } else if dest_is_dir {
        CopyAction::CopyFileTo { dest: backslash_join(dest, src_file_name) }
    } else {
        CopyAction::CopyFileTo { dest: String::from_str(dest) }
    }
}

/// How a native file handle is opened: the access requested of the server
/// and the permission mode a created file receives.
#[derive(Debug, Clone, Copy, PartialEq, Eq, Structural)]
pub struct SmbOpenOptions {
    /// Whether the handle permits reading.
    pub read: bool,
    /// Whether the handle permits writing.
    pub write: bool,
    /// Whether writes append to the end of the file.
    pub append: bool,
    /// Whether the file is created when it does not exist.
    pub create: bool,
    /// The POSIX permission mode used when the file is created.
    pub mode: u32,
}

/// The permission mode a created file receives: the mode the caller's
/// metadata carries, reduced to its permission bits, or the default when
/// the metadata carries none.
pub open spec fn spec_effective_mode(mode: Option<u32>) -> u32 {
    (match mode {
        Some(m) => m,
        None => DEFAULT_CREATE_MODE,
    }) & PERMISSION_MASK
}

/// The permission mode a created file receives.
#[verifier::when_used_as_spec(spec_effective_mode)]
pub fn effective_mode(mode: Option<u32>) -> (r: u32)
    ensures
        r == spec_effective_mode(mode),
{
    (match mode {
        Some(m) => m,
        None => DEFAULT_CREATE_MODE,
    }) & PERMISSION_MASK
}

/// How a file is opened to be written from scratch: created when missing
/// and writable, with the effective permission mode of the caller's
/// metadata.
pub fn open_options_for_create(mode: Option<u32>) -> (r: SmbOpenOptions)
    ensures
        r == (SmbOpenOptions {
            read: false,
            write: true,
            append: false,
            create: true,
            mode: spec_effective_mode(mode),
        }),
{
    SmbOpenOptions {
        read: false,
        write: true,
        append: false,
        create: true,
        mode: effective_mode(mode),
    }
}

/// How a file is opened to be appended to: created when missing, writable,
/// appending, with the effective permission mode of the caller's metadata.
pub fn open_options_for_append(mode: Option<u32>) -> (r: SmbOpenOptions)
    ensures
        r == (SmbOpenOptions {
            read: false,
            write: true,
            append: true,
            create: true,
            mode: spec_effective_mode(mode),
        }),
{
    SmbOpenOptions {
        read: false,
        write: true,
        append: true,
        create: true,
        mode: effective_mode(mode),
    }
}

/// How a file is opened to be read: read access only, and never created.
pub fn open_options_for_read() -> (r: SmbOpenOptions)
    ensures
        r == (SmbOpenOptions {
            read: true,
            write: false,
            append: false,
            create: false,
            mode: DEFAULT_CREATE_MODE,
        }),
{
    SmbOpenOptions {
        read: true,
        write: false,
        append: false,
        create: false,
        mode: DEFAULT_CREATE_MODE,
    }
}

} // verus!
