//! The sequence provider and the state it retains between two non-adjacent
//! lifecycle calls.
//!
//! Arming the catch repurposes the breakpoint unit, so the prior register
//! values are captured here and restored by the clearing call; in between,
//! the mere presence of the record tells the reset hook that a halt after
//! reset was requested. The slot is owned exclusively: every operation takes
//! `&mut self`, so no call can observe a torn state. A driver that invokes
//! hooks from several call contexts wraps the provider in its own lock.

use vstd::prelude::*;

verus! {

/// Breakpoint-unit values captured before the unit is repurposed, to be
/// restored verbatim when the catch is cleared.
#[derive(Clone, Copy, PartialEq, Eq, Structural, Debug)]
pub struct HaltAfterResetState {
    /// Prior enable flag of the breakpoint unit.
    pub fpctrl_enabled: bool,
    /// Prior raw value of the first comparator slot.
    pub fpcomp0: u32,
}

/// Sequence provider for an Infineon XMC4xxx MCU: one long-lived instance per
/// debug session, reused across every reset during that session.
pub struct XMC4000 {
    halt_after_reset_state: Option<HaltAfterResetState>,
}

impl XMC4000 {
    /// The retained slot. Empty means no halt-after-reset is in flight.
    pub closed spec fn retained(self) -> Option<HaltAfterResetState> {
        self.halt_after_reset_state
    }

    /// Create the sequencer for an Infineon XMC4000, with nothing retained.
    pub fn create() -> (r: XMC4000)
        ensures
            r.retained() is None,
    {
        XMC4000 { halt_after_reset_state: None }
    }

    /// Remove and return the retained record, leaving the slot empty.
    pub fn take(&mut self) -> (r: Option<HaltAfterResetState>)
        ensures
            r == old(self).retained(),
            final(self).retained() is None,
    {
        let r = self.halt_after_reset_state;
        self.halt_after_reset_state = None;
        r
    }

    /// Store a record (or emptiness), returning what was there before. A
    /// record already present is overwritten whole, never merged.
    pub fn replace(&mut self, new: Option<HaltAfterResetState>) -> (r: Option<
        HaltAfterResetState,
    >)
        ensures
            r == old(self).retained(),
            final(self).retained() == new,
    {
        let r = self.halt_after_reset_state;
        self.halt_after_reset_state = new;
        r
    }

    /// Whether a halt-after-reset is in flight.
    pub fn is_present(&self) -> (r: bool)
        ensures
            r == (self.retained() is Some),
    {
        match self.halt_after_reset_state {
            Option::Some(_) => true,
            Option::None => false,
        }
    }
}

} // verus!
