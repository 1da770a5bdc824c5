//! The completion-tracking primitive: a pollable handle for "this submitted
//! GPU work has finished", bridging a kernel-level completion signal (a
//! fence) into a cooperative task scheduler.
//!
//! Each poll consumes one non-blocking status check of the signal, performed
//! by the host binding; the future itself never blocks. While the signal is
//! unset the future stays `Pending` and the caller re-registers interest with
//! its scheduler; once the check reports the signal set (or faults), the
//! signal resource is released and the future resolves, exactly once.

pub mod commands;

use vstd::prelude::*;

verus! {

/// What one non-blocking check of the completion signal reported.
#[derive(Debug, Clone, Copy, PartialEq, Eq, Structural)]
pub enum SignalStatus {
    /// The signal is not set yet.
    Unsignaled,
    /// The signal is set: the work has finished.
    Signaled,
    /// The check itself faulted, with this native error code.
    Fault(i32),
}

/// The state of a completion future: created `Pending`, resolved once to
/// `Ready` or `Failed`, both terminal.
#[derive(Debug, Clone, Copy, PartialEq, Eq, Structural)]
pub enum FutureState {
    Pending,
    Ready,
    Failed(i32),
}

/// The state machine of one poll: a pending future follows the signal
/// status; a resolved future never changes again.
pub open spec fn poll_transition(s: FutureState, status: SignalStatus) -> FutureState {
    if s is Pending {
        match status {
            SignalStatus::Unsignaled => FutureState::Pending,
            SignalStatus::Signaled => FutureState::Ready,
            SignalStatus::Fault(e) => FutureState::Failed(e),
        }
    } else {
        s
    }
}

/// The state after a whole run of polls, one per status in `statuses`.
pub open spec fn run_polls(s: FutureState, statuses: Seq<SignalStatus>) -> FutureState
    decreases statuses.len(),
{
    if statuses.len() == 0 {
        s
    } else {
        run_polls(poll_transition(s, statuses[0]), statuses.skip(1))
    }
}

/// A pollable handle bound to exactly one outstanding submission's
/// completion signal. It must be driven to resolution exactly once:
/// abandoning it unresolved leaks the signal resource.
pub struct CompletionFuture {
    pub fence: u64,
    pub state: FutureState,
    pub signal_released: bool,
}

impl CompletionFuture {
    /// The signal handle the future is bound to.
    pub open spec fn spec_fence(&self) -> u64 {
        self.fence
    }

    /// The current state.
    pub open spec fn spec_state(&self) -> FutureState {
        self.state
    }

    /// Whether the underlying signal resource has been released.
    pub open spec fn spec_signal_released(&self) -> bool {
        self.signal_released
    }

    /// A future in the pending state, bound to the completion signal
    /// `fence` of a submission just made.
    pub fn new(fence: u64) -> (r: CompletionFuture)
        ensures
            r.spec_fence() == fence,
            r.spec_state() is Pending,
            !r.spec_signal_released(),
    {
        CompletionFuture { fence, state: FutureState::Pending, signal_released: false }
    }

    /// The signal handle the future is bound to.
    pub fn fence(&self) -> (r: u64)
        ensures
            r == self.spec_fence(),
    {
        self.fence
    }

    /// Whether the future has resolved (to `Ready` or `Failed`).
    pub fn is_resolved(&self) -> (r: bool)
        ensures
            r == !(self.spec_state() is Pending),
    {
        match self.state {
            FutureState::Pending => false,
            FutureState::Ready => true,
            FutureState::Failed(_) => true,
        }
    }

    /// One cooperative poll of a pending future, fed the result of one
    /// non-blocking check of the signal. While unsignaled the future stays
    /// pending (and the caller re-registers interest with its scheduler);
    /// on a set signal or a faulted check, the signal resource is released
    /// and the future resolves. It never transitions to `Ready` without the
    /// signal actually reported set.
    pub fn poll(&mut self, status: SignalStatus) -> (r: FutureState)
        requires
            old(self).spec_state() is Pending,
            !old(self).spec_signal_released(),
        ensures
            final(self).spec_fence() == old(self).spec_fence(),
            final(self).spec_state() == poll_transition(old(self).spec_state(), status),
            r == final(self).spec_state(),
            final(self).spec_signal_released() == !(final(self).spec_state() is Pending),
    {
        match status {
            SignalStatus::Unsignaled => FutureState::Pending,
            SignalStatus::Signaled => {
                self.signal_released = true;
                self.state = FutureState::Ready;
                FutureState::Ready
            },
            SignalStatus::Fault(e) => {
                self.signal_released = true;
                self.state = FutureState::Failed(e);
                FutureState::Failed(e)
            },
        }
    }
}

/// Polling a pending future any number of times while the signal stays
/// unset never resolves it: it remains `Pending` after the whole run.
pub proof fn lemma_unsignaled_polls_stay_pending(statuses: Seq<SignalStatus>)
    requires
        forall|i: int| 0 <= i < statuses.len() ==> statuses[i] is Unsignaled,
    ensures
        run_polls(FutureState::Pending, statuses) is Pending,
    decreases statuses.len(),
{
    if statuses.len() > 0 {
        assert(statuses[0] is Unsignaled);
        assert(forall|i: int| 0 <= i < statuses.skip(1).len()
            ==> statuses.skip(1)[i] == statuses[i + 1]);
        lemma_unsignaled_polls_stay_pending(statuses.skip(1));
    }
}

/// A run of polls never reaches `Ready` unless some check actually reported
/// the signal set.
pub proof fn lemma_ready_needs_signal(s: FutureState, statuses: Seq<SignalStatus>)
    requires
        !(s is Ready),
        run_polls(s, statuses) is Ready,
    ensures
        exists|i: int| 0 <= i < statuses.len() && statuses[i] is Signaled,
    decreases statuses.len(),
{
    if statuses.len() == 0 {
    } else {
        let s1 = poll_transition(s, statuses[0]);
        if s1 is Ready {
            assert(statuses[0] is Signaled);
        } else {
            lemma_ready_needs_signal(s1, statuses.skip(1));
            let w = choose|i: int| 0 <= i < statuses.skip(1).len()
                && statuses.skip(1)[i] is Signaled;
            assert(statuses[w + 1] is Signaled);
        }
    }
}

/// A resolved future is terminal: no run of polls changes it.
pub proof fn lemma_resolved_is_terminal(s: FutureState, statuses: Seq<SignalStatus>)
    requires
        !(s is Pending),
    ensures
        run_polls(s, statuses) == s,
    decreases statuses.len(),
{
    if statuses.len() > 0 {
        lemma_resolved_is_terminal(s, statuses.skip(1));
    }
}

} // verus!
