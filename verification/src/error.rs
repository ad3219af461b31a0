use vstd::prelude::*;

verus! {

/// Failures a lifecycle hook can decide on by itself.
///
/// Transport failures are deliberately absent: the driver that performs the
/// actual register and pin traffic reports those to its caller directly and
/// never hands them back to a hook, so a hook never retries them.
#[derive(Clone, Copy, PartialEq, Eq, Structural, Debug)]
pub enum SequenceError {
    /// A bounded poll exceeded its deadline.
    Timeout,
    /// The breakpoint unit reports a revision this sequence does not know.
    /// Carries the offending revision value for diagnosis.
    UnsupportedHardwareRevision(u32),
    /// A revision-1 comparator cannot match the requested address: its
    /// comparator field only covers addresses below `0x2000_0000`.
    UnsupportedBreakpointAddress(u32),
    /// The driver answered a hook with an event its current state cannot
    /// accept, or stepped a hook that had already finished.
    UnexpectedEvent,
}

} // verus!
