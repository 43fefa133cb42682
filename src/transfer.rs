//! Decisions made while streaming one chunk, and the outcome shared by all workers.
use vstd::prelude::*;
use crate::chunk::ChunkRange;
use crate::error::DownloadError;
use crate::probe::PARTIAL_CONTENT;

verus! {

/// What a worker does after one read of a chunk's body.
#[derive(Clone, Debug)]
pub enum ChunkStep {
    /// Read again.
    Continue,
    /// Every byte of the range has arrived.
    Done,
    /// The chunk failed; the worker records the error and stops.
    Failed(DownloadError),
}

/// Progress of one chunk: how many of its bytes are still expected.
pub struct ChunkTransfer {
    range: ChunkRange,
    remaining: u64,
}

/// Checks the status of a ranged request: anything but partial content is fatal.
pub fn check_range_status(status: u16) -> (r: Result<(), DownloadError>)
    ensures
        r is Ok <==> status == PARTIAL_CONTENT,
        r matches Err(e) ==> e == DownloadError::UnexpectedStatus(status),
{
    if status == PARTIAL_CONTENT {
        Ok(())
    } else {
        Err(DownloadError::UnexpectedStatus(status))
    }
}

impl ChunkTransfer {
    pub closed spec fn range_spec(&self) -> ChunkRange {
        self.range
    }

    /// Bytes of the range not received yet.
    pub closed spec fn remaining_spec(&self) -> nat {
        self.remaining as nat
    }

    /// Starts a chunk with all `end - start + 1` bytes still expected.
    pub fn new(range: ChunkRange) -> (r: ChunkTransfer)
        requires
            range.start <= range.end,
            range.end - range.start < u64::MAX,
        ensures
            r.range_spec() == range,
            r.remaining_spec() == range.end - range.start + 1,
    {
        ChunkTransfer { range, remaining: range.end - range.start + 1 }
    }

    pub fn range(&self) -> (r: ChunkRange)
        ensures
            r == self.range_spec(),
    {
        self.range
    }

    pub fn remaining(&self) -> (r: u64)
        ensures
            r == self.remaining_spec(),
    {
        self.remaining
    }

    /// How many bytes the next read may take: the buffer's length, but never more than
    /// the chunk still expects, so a read cannot spill into the next range.
    pub fn next_read_len(&self, buffer_len: usize) -> (r: usize)
        ensures
            r as nat == if (buffer_len as nat) < self.remaining_spec() {
                buffer_len as nat
            } else {
                self.remaining_spec()
            },
    {
        if (buffer_len as u64) < self.remaining {
            buffer_len
        } else {
            self.remaining as usize
        }
    }

    /// Accounts for a read of `n` bytes that were written at their offset, and decides
    /// what follows. A read of zero bytes ends the stream: the chunk is truncated if
    /// bytes are still missing. Once bytes are missing after a read, a set stop flag
    /// cancels the chunk.
    pub fn after_read(&mut self, n: usize, stop: bool) -> (r: ChunkStep)
        requires
            n as nat <= old(self).remaining_spec(),
        ensures
            final(self).range_spec() == old(self).range_spec(),
            final(self).remaining_spec() == old(self).remaining_spec() - n,
            n == 0 && old(self).remaining_spec() > 0 ==> r == ChunkStep::Failed(
                DownloadError::Truncated(old(self).remaining_spec() as u64),
            ),
            (n == 0 && old(self).remaining_spec() == 0) || (n > 0 && final(self).remaining_spec()
                == 0) ==> r == ChunkStep::Done,
            n > 0 && final(self).remaining_spec() > 0 && stop ==> r == ChunkStep::Failed(
                DownloadError::Cancelled,
            ),
            n > 0 && final(self).remaining_spec() > 0 && !stop ==> r == ChunkStep::Continue,
    {
        if n == 0 {
            if self.remaining > 0 {
                return ChunkStep::Failed(DownloadError::Truncated(self.remaining));
            } else {
                return ChunkStep::Done;
            }
        }
        self.remaining = self.remaining - n as u64;
        if self.remaining == 0 {
            ChunkStep::Done
        } else if stop {
            ChunkStep::Failed(DownloadError::Cancelled)
        } else {
            ChunkStep::Continue
        }
    }
}

/// The serial path's final check: a declared length must equal the bytes received.
pub fn check_complete(declared: Option<u64>, received: u64) -> (r: Result<(), DownloadError>)
    ensures
        r is Ok <==> (declared is None || declared == Some(received)),
        r matches Err(e) ==> e == (DownloadError::Incomplete {
            expected: declared->Some_0,
            received,
        }),
{
    match declared {
        Some(expected) => {
            if expected != received {
                Err(DownloadError::Incomplete { expected, received })
            } else {
                Ok(())
            }
        },
        None => Ok(()),
    }
}

/// The slot's content after an attempt to record `e`: the first error stays.
pub open spec fn record_spec(slot: Option<DownloadError>, e: DownloadError) -> Option<
    DownloadError,
> {
    if slot is Some {
        slot
    } else {
        Some(e)
    }
}

/// The slot's content after attempts to record each error of `errs`, in order.
pub open spec fn record_all_spec(slot: Option<DownloadError>, errs: Seq<DownloadError>) -> Option<
    DownloadError,
>
    decreases errs.len(),
{
    if errs.len() == 0 {
        slot
    } else {
        record_all_spec(record_spec(slot, errs[0]), errs.drop_first())
    }
}

/// The outcome of a whole download from the slot's content.
pub open spec fn outcome_spec(slot: Option<DownloadError>) -> Result<(), DownloadError> {
    match slot {
        Some(e) => Err(e),
        None => Ok(()),
    }
}

/// Holds the first fatal error of a group of workers; later ones are dropped.
pub struct FatalErrorSlot {
    first: Option<DownloadError>,
}

impl FatalErrorSlot {
    pub closed spec fn content(&self) -> Option<DownloadError> {
        self.first
    }

    pub fn new() -> (r: FatalErrorSlot)
        ensures
            r.content() is None,
    {
        FatalErrorSlot { first: None }
    }

    /// Records `e` unless an error is already held.
    pub fn record(&mut self, e: DownloadError)
        ensures
            final(self).content() == record_spec(old(self).content(), e),
    {
        if self.first.is_none() {
            self.first = Some(e);
        }
    }

    pub fn is_set(&self) -> (r: bool)
        ensures
            r == self.content() is Some,
    {
        self.first.is_some()
    }

    /// Ends the download: the held error if there is one, success otherwise.
    pub fn into_outcome(self) -> (r: Result<(), DownloadError>)
        ensures
            r == outcome_spec(self.content()),
    {
        match self.first {
            Some(e) => Err(e),
            None => Ok(()),
        }
    }
}

/// Whatever the workers report after the first failure, the download fails with the
/// first error recorded; a slot that already holds an error keeps it.
pub proof fn lemma_first_error_wins(slot: Option<DownloadError>, errs: Seq<DownloadError>)
    ensures
        slot is Some ==> record_all_spec(slot, errs) == slot,
        slot is None && errs.len() > 0 ==> record_all_spec(slot, errs) == Some(errs[0]),
        slot is None && errs.len() > 0 ==> outcome_spec(record_all_spec(slot, errs)) == Err::<
            (),
            DownloadError,
        >(errs[0]),
        slot is None && errs.len() == 0 ==> outcome_spec(record_all_spec(slot, errs)) is Ok,
    decreases errs.len(),
{
    if errs.len() > 0 {
        lemma_first_error_wins(record_spec(slot, errs[0]), errs.drop_first());
    }
}

} // verus!
