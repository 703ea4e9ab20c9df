//! Lifecycle of a translation turn: at most one is in flight, and one whose
//! fragments have stalled may be cancelled in favour of the next.

use vstd::prelude::*;

verus! {

/// A turn with no fragment for longer than this many milliseconds is stale.
pub const STALE_AFTER_MS: u64 = 800;

/// Whether a turn is in flight.
#[derive(Clone, Copy, Debug, PartialEq, Eq, Structural)]
pub enum TurnState {
    Idle,
    Active,
}

/// What the tracker answers to a request for a new turn.
#[derive(Clone, Copy, Debug, PartialEq, Eq, Structural)]
pub enum CommitDecision {
    /// No turn is in flight: the new one may start.
    Start,
    /// The turn in flight is stale: cancel it, then start the new one.
    CancelThenStart,
    /// The turn in flight is still live: skip the request.
    Reject,
}

/// Milliseconds from `since_ms` to `now_ms`, zero where the clock reads earlier.
pub open spec fn elapsed_spec(now_ms: u64, since_ms: u64) -> int {
    if now_ms >= since_ms {
        now_ms - since_ms
    } else {
        0
    }
}

/// The answer to a commit request in state `state`, `elapsed` milliseconds
/// after the last fragment.
pub open spec fn decide_spec(state: TurnState, elapsed: int) -> CommitDecision {
    match state {
        TurnState::Idle => CommitDecision::Start,
        TurnState::Active => if elapsed > 800 {
            CommitDecision::CancelThenStart
        } else {
            CommitDecision::Reject
        },
    }
}

/// State of the turn lifecycle. Times are readings of a monotonic clock in
/// milliseconds, taken by the caller.
#[derive(Clone, Copy, Debug, PartialEq, Eq, Structural)]
pub struct TurnTracker {
    pub state: TurnState,
    pub started_ms: u64,
    pub last_fragment_ms: u64,
}

impl TurnTracker {
    /// An idle tracker created at `now_ms`.
    pub fn new(now_ms: u64) -> (t: TurnTracker)
        ensures
            t == (TurnTracker { state: TurnState::Idle, started_ms: now_ms, last_fragment_ms: now_ms }),
    {
        TurnTracker { state: TurnState::Idle, started_ms: now_ms, last_fragment_ms: now_ms }
    }

    /// Whether a turn is in flight.
    pub fn is_active(&self) -> (active: bool)
        ensures
            active == (self.state == TurnState::Active),
    {
        match self.state {
            TurnState::Active => true,
            TurnState::Idle => false,
        }
    }

    /// Milliseconds since the last fragment.
    pub fn elapsed_ms(&self, now_ms: u64) -> (elapsed: u64)
        ensures
            elapsed == elapsed_spec(now_ms, self.last_fragment_ms),
    {
        if now_ms >= self.last_fragment_ms {
            now_ms - self.last_fragment_ms
        } else {
            0
        }
    }

    /// A turn starts: the tracker becomes active and both times are set to
    /// `now_ms`.
    pub fn start_turn(&mut self, now_ms: u64)
        ensures
            *final(self) == (TurnTracker {
                state: TurnState::Active,
                started_ms: now_ms,
                last_fragment_ms: now_ms,
            }),
    {
        self.state = TurnState::Active;
        self.started_ms = now_ms;
        self.last_fragment_ms = now_ms;
    }

    /// The upstream engine announced a turn: an idle tracker starts one, an
    /// active tracker stays as it is.
    pub fn on_turn_created(&mut self, now_ms: u64)
        ensures
            old(self).state == TurnState::Active ==> *final(self) == *old(self),
            old(self).state == TurnState::Idle ==> *final(self) == (TurnTracker {
                state: TurnState::Active,
                started_ms: now_ms,
                last_fragment_ms: now_ms,
            }),
    {
        if !self.is_active() {
            self.start_turn(now_ms);
        }
    }

    /// A text fragment arrived: only the time of the last fragment changes.
    pub fn on_fragment(&mut self, now_ms: u64)
        ensures
            *final(self) == (TurnTracker { last_fragment_ms: now_ms, ..*old(self) }),
    {
        self.last_fragment_ms = now_ms;
    }

    /// The turn ended, by completion, error or cancellation.
    pub fn finish(&mut self)
        ensures
            *final(self) == (TurnTracker { state: TurnState::Idle, ..*old(self) }),
    {
        self.state = TurnState::Idle;
    }

    /// Answers a commit request at `now_ms`. A stale turn is given up here:
    /// the tracker is idle after `CancelThenStart`. In the two other cases
    /// nothing changes.
    pub fn request_commit(&mut self, now_ms: u64) -> (decision: CommitDecision)
        ensures
            decision == decide_spec(old(self).state, elapsed_spec(now_ms, old(self).last_fragment_ms)),
            decision == CommitDecision::CancelThenStart ==> *final(self) == (TurnTracker {
                state: TurnState::Idle,
                ..*old(self)
            }),
            decision != CommitDecision::CancelThenStart ==> *final(self) == *old(self),
    {
        if !self.is_active() {
            CommitDecision::Start
        } else if self.elapsed_ms(now_ms) > STALE_AFTER_MS {
            self.finish();
            CommitDecision::CancelThenStart
        } else {
            CommitDecision::Reject
        }
    }
}

/// A commit request during a live turn is rejected while no more than 800 ms
/// have passed since the last fragment, and leads to a cancellation as soon
/// as more have passed; an idle tracker always lets the turn start.
pub proof fn lemma_commit_decision(state: TurnState, elapsed: int)
    ensures
        state == TurnState::Active && elapsed <= 800 ==> decide_spec(state, elapsed)
            == CommitDecision::Reject,
        state == TurnState::Active && elapsed > 800 ==> decide_spec(state, elapsed)
            == CommitDecision::CancelThenStart,
        state == TurnState::Idle ==> decide_spec(state, elapsed) == CommitDecision::Start,
{
}

} // verus!
