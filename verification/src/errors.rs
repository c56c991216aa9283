//! The generic error taxonomy, and the translation of native SMB failures
//! into it.
//!
//! Every fallible operation of this crate reports a [`RemoteError`]: a
//! protocol-agnostic classification, with the native error text kept as an
//! optional message. Which classification a native failure receives depends
//! only on the operation that was being attempted, and that mapping is
//! written down once, in [`kind_for`].

use vstd::prelude::*;

verus! {

/// The protocol-agnostic classification of a failure.
#[derive(Debug, Clone, Copy, PartialEq, Eq, Structural)]
pub enum RemoteErrorType {
    /// A connection was requested while one was already established.
    AlreadyConnected,
    /// The connection is not established.
    NotConnected,
    /// The server rejected the supplied credentials.
    AuthenticationFailed,
    /// The host address could not be parsed.
    BadAddress,
    /// The transport could not be established or was lost.
    ConnectionError,
    /// An entry already exists at the requested path.
    AlreadyExists,
    /// The entry exists but is not usable for the requested operation.
    BadFile,
    /// The file could not be opened.
    CouldNotOpenFile,
    /// The file could not be removed.
    CouldNotRemoveFile,
    /// A directory was removed while it still had entries.
    DirectoryNotEmpty,
    /// The server refused to create a file.
    FileCreateDenied,
    /// An input or output operation failed without a more specific category.
    IoError,
    /// No entry exists at the requested path.
    NoSuchFileOrDirectory,
    /// The server refused a metadata or permission operation.
    PermissionDenied,
    /// A path is relative or otherwise malformed for the operation.
    InvalidPath,
    /// A protocol requires a transfer size before opening it.
    SizeRequired,
    /// The metadata of an entry could not be read.
    StatFailed,
    /// The server answered in a way the protocol does not allow.
    ProtocolError,
    /// The protocol has no equivalent for the requested operation.
    UnsupportedFeature,
}

/// A classified failure, with the native error text when one was available.
#[derive(Debug, Clone, PartialEq, Eq)]
pub struct RemoteError {
    /// The protocol-agnostic classification of this error.
    pub kind: RemoteErrorType,
    /// The text of the native failure behind it, when one was reported.
    pub message: Option<String>,
}

impl RemoteError {
    /// An error without a native cause behind it.
    pub fn new(kind: RemoteErrorType) -> (r: Self)
        ensures
            r.kind == kind,
            r.message is None,
    {
        Self { kind, message: None }
    }

    /// An error keeping the text of the native failure that caused it.
    pub fn with_message(kind: RemoteErrorType, message: String) -> (r: Self)
        ensures
            r.kind == kind,
            r.message == Some(message),
    {
        Self { kind, message: Some(message) }
    }
}

/// The native SMB operations whose failures this crate classifies.
#[derive(Debug, Clone, Copy, PartialEq, Eq, Structural)]
pub enum SmbOperation {
    /// Instantiating the native client context.
    CreateContext,
    /// Asking the server for the connected user, to probe the connection.
    CheckUser,
    /// Reading the entries of a directory.
    ListDir,
    /// Reading the metadata of an entry.
    Stat,
    /// Removing a file.
    Unlink,
    /// Removing a directory.
    RemoveDir,
    /// Creating a directory.
    MakeDir,
    /// Renaming an entry.
    Rename,
    /// Opening a file handle.
    OpenFile,
    /// Moving bytes through an open handle.
    Transfer,
}

/// The classification that a failure of each native operation receives.
pub open spec fn spec_kind_for(op: SmbOperation) -> RemoteErrorType {
    match op {
        SmbOperation::CreateContext => RemoteErrorType::BadAddress,
        SmbOperation::CheckUser => RemoteErrorType::ConnectionError,
        SmbOperation::ListDir => RemoteErrorType::StatFailed,
        SmbOperation::Stat => RemoteErrorType::StatFailed,
        SmbOperation::Unlink => RemoteErrorType::CouldNotRemoveFile,
        SmbOperation::RemoveDir => RemoteErrorType::CouldNotRemoveFile,
        SmbOperation::MakeDir => RemoteErrorType::FileCreateDenied,
        SmbOperation::Rename => RemoteErrorType::ProtocolError,
        SmbOperation::OpenFile => RemoteErrorType::CouldNotOpenFile,
        SmbOperation::Transfer => RemoteErrorType::IoError,
    }
}

/// The classification that a failure of each native operation receives.
#[verifier::when_used_as_spec(spec_kind_for)]
pub fn kind_for(op: SmbOperation) -> (r: RemoteErrorType)
    ensures
        r == spec_kind_for(op),
{
    match op {
        SmbOperation::CreateContext => RemoteErrorType::BadAddress,
        SmbOperation::CheckUser => RemoteErrorType::ConnectionError,
        SmbOperation::ListDir => RemoteErrorType::StatFailed,
        SmbOperation::Stat => RemoteErrorType::StatFailed,
        SmbOperation::Unlink => RemoteErrorType::CouldNotRemoveFile,
        SmbOperation::RemoveDir => RemoteErrorType::CouldNotRemoveFile,
        SmbOperation::MakeDir => RemoteErrorType::FileCreateDenied,
        SmbOperation::Rename => RemoteErrorType::ProtocolError,
        SmbOperation::OpenFile => RemoteErrorType::CouldNotOpenFile,
        SmbOperation::Transfer => RemoteErrorType::IoError,
    }
}

/// Classify the failure of a native operation, keeping its error text.
pub fn map_native_error(op: SmbOperation, message: String) -> (r: RemoteError)
    ensures
        r.kind == spec_kind_for(op),
        r.message == Some(message),
{
    RemoteError::with_message(kind_for(op), message)
}

/// The error reported by every operation the SMB protocol cannot offer.
pub fn unsupported() -> (r: RemoteError)
    ensures
        r.kind == RemoteErrorType::UnsupportedFeature,
        r.message is None,
{
    RemoteError::new(RemoteErrorType::UnsupportedFeature)
}

} // verus!
