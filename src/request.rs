//! The state behind a non-blocking request: whether it runs, and its latest outcome.
use vstd::prelude::*;

verus! {

/// What a poller can observe of a request slot.
pub struct SlotState<T, E> {
    pub running: bool,
    pub result: Option<Result<T, E>>,
}

/// The state right after a call: running, with the previous result cleared.
pub open spec fn begin_spec<T, E>(s: SlotState<T, E>) -> SlotState<T, E> {
    SlotState { running: true, result: None }
}

/// The state once the background work has published `outcome`.
pub open spec fn publish_spec<T, E>(s: SlotState<T, E>, outcome: Result<T, E>) -> SlotState<T, E> {
    SlotState { running: false, result: Some(outcome) }
}

/// What taking the result hands out, and the state left behind.
pub open spec fn take_spec<T, E>(s: SlotState<T, E>) -> (Option<Result<T, E>>, SlotState<T, E>) {
    (s.result, SlotState { running: s.running, result: None })
}

/// Latest outcome of a request that runs off the caller's thread. While the request
/// runs, no result is held; the result is published together with the end of the run.
pub struct RequestSlot<T, E> {
    running: bool,
    result: Option<Result<T, E>>,
}

impl<T, E> View for RequestSlot<T, E> {
    type V = SlotState<T, E>;

    closed spec fn view(&self) -> SlotState<T, E> {
        SlotState { running: self.running, result: self.result }
    }
}

impl<T, E> RequestSlot<T, E> {
    /// A slot that never ran: idle, with no result.
    pub fn new() -> (r: RequestSlot<T, E>)
        ensures
            r@ == (SlotState::<T, E> { running: false, result: None }),
    {
        RequestSlot { running: false, result: None }
    }

    /// Marks the start of a run and drops the previous result.
    pub fn begin(&mut self)
        ensures
            final(self)@ == begin_spec(old(self)@),
    {
        self.result = None;
        self.running = true;
    }

    /// Stores the outcome of the run and ends it.
    pub fn publish(&mut self, outcome: Result<T, E>)
        ensures
            final(self)@ == publish_spec(old(self)@, outcome),
    {
        self.result = Some(outcome);
        self.running = false;
    }

    pub fn is_running(&self) -> (r: bool)
        ensures
            r == self@.running,
    {
        self.running
    }

    /// Hands out the latest outcome, if any, and clears it.
    pub fn take_result(&mut self) -> (r: Option<Result<T, E>>)
        ensures
            (r, final(self)@) == take_spec(old(self)@),
    {
        let mut out: Option<Result<T, E>> = None;
        core::mem::swap(&mut out, &mut self.result);
        out
    }
}

/// A call makes the slot report a running request with no result; once the run has
/// published its outcome the slot reports it stopped, and taking the result yields
/// exactly that outcome, once.
pub proof fn lemma_call_then_result<T, E>(s: SlotState<T, E>, outcome: Result<T, E>)
    ensures
        begin_spec(s).running,
        begin_spec(s).result is None,
        take_spec(begin_spec(s)).0 is None,
        !publish_spec(begin_spec(s), outcome).running,
        take_spec(publish_spec(begin_spec(s), outcome)).0 == Some(outcome),
        take_spec(take_spec(publish_spec(begin_spec(s), outcome)).1).0 is None,
{
}

} // verus!
