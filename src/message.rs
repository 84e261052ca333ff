use vstd::prelude::*;

verus! {

/// One message of the clipboard redirection protocol between a local
/// application and a remote peer.
#[derive(Debug, Clone)]
pub enum ClipboardFile {
    /// Out-of-band notification for the user interface.
    NotifyCallback { msg_type: String, title: String, text: String },
    /// The peer's clipboard monitor is armed.
    MonitorReady,
    /// The formats the peer offers, in the peer's order of preference.
    FormatList { format_list: Vec<(i32, String)> },
    /// Acknowledgement of a format list.
    FormatListResponse { msg_flags: i32 },
    /// Asks for the data behind one advertised format.
    FormatDataRequest { requested_format_id: i32 },
    /// The bytes of the requested format.
    FormatDataResponse { msg_flags: i32, format_data: Vec<u8> },
    /// Asks for a byte range of one file of a copied file set.
    FileContentsRequest {
        stream_id: i32,
        list_index: i32,
        dw_flags: i32,
        n_position_low: i32,
        n_position_high: i32,
        cb_requested: i32,
        have_clip_data_id: bool,
        clip_data_id: i32,
    },
    /// The requested byte range.
    FileContentsResponse { msg_flags: i32, stream_id: i32, requested_data: Vec<u8> },
}

/// A session may open with this message.
pub open spec fn is_beginning(m: ClipboardFile) -> bool {
    m is MonitorReady || m is FormatList
}

/// Tearing the bridge down right after this message cuts no transfer short.
pub open spec fn is_stop_eligible(m: ClipboardFile) -> bool {
    m is MonitorReady || m is FormatList || m is FormatDataRequest
}

impl ClipboardFile {
    /// Whether the clipboard bridge may be stopped right after this message.
    pub fn is_stopping_allowed(&self) -> (r: bool)
        ensures
            r == is_stop_eligible(*self),
    {
        match self {
            ClipboardFile::MonitorReady => true,
            ClipboardFile::FormatList { .. } => true,
            ClipboardFile::FormatDataRequest { .. } => true,
            _ => false,
        }
    }

    /// Whether a session may open with this message.
    pub fn is_beginning_message(&self) -> (r: bool)
        ensures
            r == is_beginning(*self),
    {
        match self {
            ClipboardFile::MonitorReady => true,
            ClipboardFile::FormatList { .. } => true,
            _ => false,
        }
    }
}

/// Every message that may open a session is one after which stopping is safe.
pub proof fn lemma_beginning_is_stop_eligible(m: ClipboardFile)
    ensures
        is_beginning(m) ==> is_stop_eligible(m),
{
}

} // verus!
