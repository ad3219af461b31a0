//! The bounded-poll primitive: one decision of a "wait until a predicate
//! holds or a deadline passes" loop.
//!
//! Every hardware-synchronization point of the sequence is such a loop. The
//! driver owns the wall clock: it evaluates the predicate (a register or pin
//! read), measures the time elapsed since the poll began, and asks
//! [`poll_step`] what to do. The predicate outcome is examined before the
//! deadline, so at least one evaluation happens before any timeout and a late
//! success still counts. Timeouts are per call site: each caller passes its
//! own deadline.

use vstd::prelude::*;

verus! {

/// Timeout of the poll waiting for the reset-in-progress status to clear.
pub const RESET_STATUS_TIMEOUT_MS: u64 = 500;

/// Timeout of the poll waiting for the chip's debug-access gate to open.
pub const DEBUG_ACCESS_TIMEOUT_MS: u64 = 500;

/// Timeout of the poll waiting for the core-halted status after a reset.
pub const HALT_TIMEOUT_MS: u64 = 1000;

/// Timeout of the poll waiting for the reset-line readback to go high.
pub const PIN_READBACK_TIMEOUT_MS: u64 = 1000;

/// Pause between two reset-line readbacks.
pub const PIN_POLL_INTERVAL_MS: u64 = 100;

/// Settle delay used instead of polling when the probe cannot read its pins
/// back.
pub const PIN_SETTLE_DELAY_MS: u64 = 100;

/// Decision of one bounded-poll evaluation.
#[derive(Clone, Copy, PartialEq, Eq, Structural, Debug)]
pub enum PollDecision {
    /// The predicate held: the wait is over.
    Satisfied,
    /// The predicate did not hold and the deadline has not passed: evaluate
    /// again.
    Pending,
    /// The predicate did not hold and the deadline has passed.
    TimedOut,
}

/// One bounded-poll evaluation: a satisfied predicate wins outright, and only
/// an unsatisfied one is held against the deadline.
pub open spec fn spec_poll_step(satisfied: bool, elapsed_ms: u64, timeout_ms: u64) -> PollDecision {
    if satisfied {
        PollDecision::Satisfied
    } else if elapsed_ms > timeout_ms {
        PollDecision::TimedOut
    } else {
        PollDecision::Pending
    }
}

pub fn poll_step(satisfied: bool, elapsed_ms: u64, timeout_ms: u64) -> (r: PollDecision)
    ensures
        r == spec_poll_step(satisfied, elapsed_ms, timeout_ms),
{
    if satisfied {
        PollDecision::Satisfied
    } else if elapsed_ms > timeout_ms {
        PollDecision::TimedOut
    } else {
        PollDecision::Pending
    }
}

/// Timeout boundary law: a predicate that never becomes true leads to a
/// timeout exactly at the first evaluation after the deadline — never at or
/// before it — and a predicate that holds is honoured at any time, even after
/// the deadline, because it is examined first.
pub proof fn lemma_timeout_boundary(elapsed_ms: u64, timeout_ms: u64)
    ensures
        (spec_poll_step(false, elapsed_ms, timeout_ms) == PollDecision::TimedOut) <==> elapsed_ms
            > timeout_ms,
        elapsed_ms <= timeout_ms ==> spec_poll_step(false, elapsed_ms, timeout_ms)
            == PollDecision::Pending,
        spec_poll_step(true, elapsed_ms, timeout_ms) == PollDecision::Satisfied,
{
}

} // verus!
