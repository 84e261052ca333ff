use vstd::prelude::*;

use crate::message::ClipboardFile;

verus! {

#[verifier::external_type_specification]
#[verifier::external_body]
pub struct ExPathBuf(std::path::PathBuf);

#[verifier::external_type_specification]
#[verifier::external_body]
pub struct ExIoError(std::io::Error);

/// Why a clipboard backend could not serve a request.
#[derive(Debug)]
pub enum CliprdrError {
    /// The clipboard channel name is invalid.
    CliprdrName,
    /// The backend failed to initialise.
    CliprdrInit,
    /// The backend ran out of memory.
    CliprdrOutOfMemory,
    /// The backend hit an internal error.
    ClipboardInternalError,
    /// Another operation holds the clipboard.
    ClipboardOccupied,
    /// The data does not convert between the formats involved.
    ConversionFailure,
    /// The clipboard could not be opened.
    OpenClipboard,
    /// A file's metadata or content could not be read.
    FileError { path: std::path::PathBuf, err: std::io::Error },
    /// The request is malformed.
    InvalidRequest { description: String },
    /// A status code of the backend that maps to no other kind.
    Unknown(u32),
}

/// A platform clipboard backend that serves file-copy requests for live
/// sessions. Implementations must be callable from several threads.
pub trait CliprdrServiceContext: Send + Sync {
    /// Stops accepting new file operations; calling it again changes nothing.
    fn set_is_stopped(&mut self) -> Result<(), CliprdrError>;

    /// Clears the clipboard content owned by session `conn_id`, and tells
    /// whether there was any.
    fn empty_clipboard(&mut self, conn_id: i32) -> Result<bool, CliprdrError>;

    /// Handles one inbound file message of session `conn_id`.
    fn server_clip_file(&mut self, conn_id: i32, msg: ClipboardFile) -> Result<(), CliprdrError>;
}

} // verus!
