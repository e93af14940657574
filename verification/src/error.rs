//! Typed failures for authentication, namespace and transfer calls.

use vstd::prelude::*;
use vstd::string::StringExecFns;

verus! {

/// The failure taxonomy of the client. Every variant that stems from a
/// rejected request carries the human-readable `message` decoded from
/// the failure envelope (or a fallback built from the HTTP status);
/// the local-I/O variants carry the underlying error's description.
#[derive(Debug, Clone, PartialEq, Eq)]
pub enum TransferError {
    /// The local byte source could not be opened.
    SourceUnavailable(String),
    /// The local destination could not be created or opened.
    SinkUnavailable(String),
    /// A write to the local destination failed mid-stream.
    SinkWriteError(String),
    /// A network-level failure (connection, DNS, timeout).
    TransportError(String),
    /// The credential exchange was rejected.
    AuthenticationFailed(String),
    /// The server rejected an upload at the application level.
    UploadFailed(String),
    /// The server rejected a download at the application level.
    DownloadFailed(String),
    /// The server rejected a pod lifecycle request.
    NamespaceFailed(String),
    /// The server rejected a file-information request.
    InfoFailed(String),
    /// A success response did not match the expected schema.
    DecodeError(String),
}

/// The user-visible text of an error: a fixed description of the
/// failure kind followed by the decoded message or I/O description.
pub open spec fn spec_error_text(e: TransferError) -> Seq<char> {
    match e {
        TransferError::SourceUnavailable(m) => "source unavailable: "@ + m@,
        TransferError::SinkUnavailable(m) => "sink unavailable: "@ + m@,
        TransferError::SinkWriteError(m) => "sink write error: "@ + m@,
        TransferError::TransportError(m) => "transport error: "@ + m@,
        TransferError::AuthenticationFailed(m) => "authentication failed: "@ + m@,
        TransferError::UploadFailed(m) => "upload failed: "@ + m@,
        TransferError::DownloadFailed(m) => "download failed: "@ + m@,
        TransferError::NamespaceFailed(m) => "pod operation failed: "@ + m@,
        TransferError::InfoFailed(m) => "file info failed: "@ + m@,
        TransferError::DecodeError(m) => "decode error: "@ + m@,
    }
}

impl TransferError {
    /// The user-visible text of the error; the decoded envelope
    /// message is kept verbatim as its suffix.
    pub fn message(&self) -> (r: String)
        ensures
            r@ == spec_error_text(*self),
    {
        match self {
            TransferError::SourceUnavailable(m) => String::from_str("source unavailable: ").concat(
                m.as_str(),
            ),
            TransferError::SinkUnavailable(m) => String::from_str("sink unavailable: ").concat(
                m.as_str(),
            ),
            TransferError::SinkWriteError(m) => String::from_str("sink write error: ").concat(
                m.as_str(),
            ),
            TransferError::TransportError(m) => String::from_str("transport error: ").concat(
                m.as_str(),
            ),
            TransferError::AuthenticationFailed(m) => String::from_str(
                "authentication failed: ",
            ).concat(m.as_str()),
            TransferError::UploadFailed(m) => String::from_str("upload failed: ").concat(
                m.as_str(),
            ),
            TransferError::DownloadFailed(m) => String::from_str("download failed: ").concat(
                m.as_str(),
            ),
            TransferError::NamespaceFailed(m) => String::from_str("pod operation failed: ").concat(
                m.as_str(),
            ),
            TransferError::InfoFailed(m) => String::from_str("file info failed: ").concat(
                m.as_str(),
            ),
            TransferError::DecodeError(m) => String::from_str("decode error: ").concat(m.as_str()),
        }
    }
}

} // verus!
