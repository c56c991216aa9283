//! SMB adapter for a generic remote-filesystem interface.
//!
//! The SMB wire protocol itself is owned by a native client library; what
//! this crate contributes, and what is verified here, is the logic around
//! it: absolutization of paths against a tracked working directory,
//! translation of native stat structures into a generic file-metadata
//! model, and translation of failures into a generic error taxonomy.

mod client;
mod credentials;
mod dirent;
mod errors;
mod fmt;
mod metadata;
mod path;

pub use client::{CopyAction, SmbFs, SmbOpenOptions, copy_plan, effective_mode, keep_ok_files,
    list_dir_targets, open_options_for_append, open_options_for_create, open_options_for_read};
pub use credentials::SmbCredentials;
pub use dirent::{SmbDirent, SmbDirentType};
pub use errors::{RemoteError, RemoteErrorType, SmbOperation, kind_for, map_native_error,
    unsupported};
pub use fmt::fmt_time_utc;
pub use metadata::{File, FileType, Metadata, SmbStat, file_type_of_mode, permission_bits,
    smbstat_to_file};
pub use path::{absolutize, backslash_join, full_path, is_absolute_path, join_path};
