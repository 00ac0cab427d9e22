//! The errors of the engine, one variant per way an operation can fail.
use crate::types::FileId;
use vstd::prelude::*;

verus! {

/// Terminal status of a run as the remote service reports it.
#[derive(Debug, Clone, Copy, PartialEq, Eq, Structural)]
pub enum RunStatus {
    Queued,
    InProgress,
    RequiresAction,
    Cancelling,
    Cancelled,
    Failed,
    Completed,
    Incomplete,
    Expired,
}

#[derive(Debug)]
pub enum Error {
    /// A local path that cleanup would remove lies outside the profile's data directory.
    ShouldNotDeleteLocalFile(String),
    /// The persisted conversation names a thread that the remote service no longer has.
    CannotFindThreadIdForConv(String),
    /// The reply's first content part is an image.
    MessageImageNotSupported,
    /// The reply has no content part.
    NoMessageInMessageObjectContent,
    /// The thread has no message to read the reply from.
    NoMessageFoundInMessages,
    /// The conversation state file is there but cannot be read.
    UnreadableConvFile(String),
    /// A run ended in a status other than `Completed`.
    RunError(RunStatus),
    /// A run was still in this pending status at the last poll that the turn allowed.
    RunStillPending(RunStatus),
    /// The attachment of an uploaded file reported another id than the upload.
    FileIdMismatch { uploaded: FileId, attached: FileId },
}

} // verus!
