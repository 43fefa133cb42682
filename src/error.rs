//! The failures that end a download.
use vstd::prelude::*;

verus! {

/// Why a download failed. Exactly one of these reaches the caller: the root cause.
#[derive(Clone, Debug)]
pub enum DownloadError {
    /// The HTTP layer could not complete a request.
    Transport(String),
    /// The file system refused an operation on the destination file.
    Io(String),
    /// A ranged request came back with a status other than partial content.
    UnexpectedStatus(u16),
    /// A chunk's stream ended early; carries the number of bytes still missing.
    Truncated(u64),
    /// A write took fewer bytes than it was given and reported no error.
    OutOfDiskSpace,
    /// A worker stopped mid-chunk because another worker had already failed.
    Cancelled,
    /// A serial download received a byte count other than the declared length.
    Incomplete { expected: u64, received: u64 },
}

impl DownloadError {
    /// Whether this error only reports a stop requested after another failure.
    pub fn is_cancellation(&self) -> (r: bool)
        ensures
            r == (*self is Cancelled),
    {
        match self {
            DownloadError::Cancelled => true,
            _ => false,
        }
    }
}

} // verus!
