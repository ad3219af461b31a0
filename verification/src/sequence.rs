//! The lifecycle hooks of the reset sequence, each as a verified step
//! machine.
//!
//! An orchestrator performs, in order: hardware-assert, a transport-level
//! reset pulse, hardware-deassert, catch-set, system-reset, catch-clear. Each
//! hook here is a transition function: given the hook's current state and the
//! [`Event`] answering its last request, it returns the next state and the
//! next [`Action`]. The unverified driver performs the action — a register
//! read or write, a pin drive, a delay — against the real transport and hands
//! the outcome back; on a transport failure it stops the hook and reports
//! that failure itself, so no transition ever sees one. Time reaches a hook
//! only as the measured milliseconds since the current polling phase began,
//! carried on the events of that phase.

use vstd::prelude::*;

use crate::bootmode::spec_comparator_for;
use crate::bootmode::spec_normalized_stcon;
use crate::bootmode::application_entry;
use crate::bootmode::comparator_for;
use crate::bootmode::normalized_stcon;
use crate::error::SequenceError;
use crate::poll::PollDecision;
use crate::poll::spec_poll_step;
use crate::poll::poll_step;
use crate::poll::DEBUG_ACCESS_TIMEOUT_MS;
use crate::poll::HALT_TIMEOUT_MS;
use crate::poll::PIN_POLL_INTERVAL_MS;
use crate::poll::PIN_READBACK_TIMEOUT_MS;
use crate::poll::PIN_SETTLE_DELAY_MS;
use crate::poll::RESET_STATUS_TIMEOUT_MS;
use crate::registers::Dhcsr;
use crate::registers::FpCtrl;
use crate::registers::Pins;
use crate::registers::Stcon;
use crate::registers::AIRCR_ADDRESS;
use crate::registers::AIRCR_SYSRESETREQ;
use crate::registers::DHCSR_ADDRESS;
use crate::registers::FLASH_VECTOR_SLOT_ADDRESS;
use crate::registers::FP_COMP0_ADDRESS;
use crate::registers::FP_CTRL_ADDRESS;
use crate::registers::RESET_ASSERT_OUTPUT;
use crate::registers::RESET_DEASSERT_OUTPUT;
use crate::registers::RESET_PIN_SELECT;
use crate::registers::SCU_ID_ADDRESS;
use crate::registers::SCU_RSTCLR_ADDRESS;
use crate::registers::SCU_RSTCLR_RSCLR;
use crate::registers::STCON_ADDRESS;
use crate::state::HaltAfterResetState;
use crate::state::XMC4000;

verus! {

/// Sentinel readback of the probe's pin-control call meaning that the probe
/// cannot read its pins back.
pub const PIN_READBACK_UNSUPPORTED: u32 = 0xFFFF_FFFF;

/// One request a hook makes of its driver.
#[derive(Clone, Copy, PartialEq, Eq, Structural, Debug)]
pub enum Action {
    /// Read the 32-bit word at the address; answer with [`Event::Word`].
    ReadWord(u64),
    /// Write the value to the address; answer with [`Event::Ack`].
    WriteWord(u64, u32),
    /// Commit all buffered register writes to the target; answer with
    /// [`Event::Ack`].
    Flush,
    /// Drive the probe pins: output levels, then the select mask naming the
    /// driven lines; answer with [`Event::Pins`] carrying the readback word.
    DrivePins(u8, u8),
    /// Sleep for the given number of milliseconds; answer with
    /// [`Event::Ack`].
    DelayMs(u64),
    /// The hook completed its documented effect; stop driving it.
    Done,
    /// The hook failed; stop driving it and report the error.
    Fail(SequenceError),
}

/// One answer a driver hands back to a hook.
#[derive(Clone, Copy, PartialEq, Eq, Structural, Debug)]
pub enum Event {
    /// Start the hook; the only event its initial state accepts.
    Begin,
    /// A word was read. During a polling phase `elapsed_ms` carries the
    /// milliseconds since that phase began; elsewhere it is ignored.
    Word { value: u32, elapsed_ms: u64 },
    /// A write, flush or delay completed.
    Ack,
    /// The pins were driven; `readback` is the probe's pin readback word,
    /// with `elapsed_ms` as for [`Event::Word`].
    Pins { readback: u32, elapsed_ms: u64 },
}

/// Progress of the catch-set hook, which arms a breakpoint at the first
/// application instruction.
#[derive(Clone, Copy, PartialEq, Eq, Structural, Debug)]
pub enum CatchSetState {
    /// Nothing requested yet.
    Start,
    /// Awaiting the startup-configuration word.
    AwaitStcon,
    /// Awaiting completion of the boot-mode-normalizing write.
    AwaitStconWrite,
    /// Awaiting the flash vector-slot word.
    AwaitVector,
    /// Awaiting the breakpoint-unit control word; `entry` is the resolved
    /// breakpoint target.
    AwaitFpctrl { entry: u32 },
    /// Awaiting the first comparator slot's word; `fpctrl` is the control
    /// word as read.
    AwaitFpcomp { entry: u32, fpctrl: u32 },
    /// Awaiting completion of the write enabling the breakpoint unit.
    AwaitCtrlWrite { entry: u32, fpctrl: u32 },
    /// Awaiting completion of the comparator write.
    AwaitCompWrite,
    /// Awaiting completion of the final flush.
    AwaitFlush,
    /// The hook completed.
    Finished,
    /// The hook failed.
    Failed,
}

/// Transition of the catch-set hook. Takes and returns the provider's
/// retained slot alongside the machine state: receiving the comparator word
/// captures the prior breakpoint-unit values into the slot, overwriting (not
/// merging) anything already there.
pub open spec fn spec_catch_set_step(
    retained: Option<HaltAfterResetState>,
    st: CatchSetState,
    ev: Event,
) -> (Option<HaltAfterResetState>, CatchSetState, Action) {
    match (st, ev) {
        (CatchSetState::Start, Event::Begin) => (
            retained,
            CatchSetState::AwaitStcon,
            Action::ReadWord(STCON_ADDRESS),
        ),
        (CatchSetState::AwaitStcon, Event::Word { value, .. }) => {
            if (Stcon { raw: value }).spec_swcon() != 0 {
                (
                    retained,
                    CatchSetState::AwaitStconWrite,
                    Action::WriteWord(STCON_ADDRESS, spec_normalized_stcon(value)),
                )
            } else {
                (retained, CatchSetState::AwaitVector, Action::ReadWord(FLASH_VECTOR_SLOT_ADDRESS))
            }
        },
        (CatchSetState::AwaitStconWrite, Event::Ack) => (
            retained,
            CatchSetState::AwaitVector,
            Action::ReadWord(FLASH_VECTOR_SLOT_ADDRESS),
        ),
        (CatchSetState::AwaitVector, Event::Word { value, .. }) => (
            retained,
            CatchSetState::AwaitFpctrl { entry: crate::bootmode::spec_application_entry(value) },
            Action::ReadWord(FP_CTRL_ADDRESS),
        ),
        (CatchSetState::AwaitFpctrl { entry }, Event::Word { value, .. }) => (
            retained,
            CatchSetState::AwaitFpcomp { entry, fpctrl: value },
            Action::ReadWord(FP_COMP0_ADDRESS),
        ),
        (CatchSetState::AwaitFpcomp { entry, fpctrl }, Event::Word { value, .. }) => (
            Some(
                HaltAfterResetState {
                    fpctrl_enabled: (FpCtrl { raw: fpctrl }).spec_enable(),
                    fpcomp0: value,
                },
            ),
            CatchSetState::AwaitCtrlWrite { entry, fpctrl },
            Action::WriteWord(FP_CTRL_ADDRESS, FpCtrl::spec_overwrite(true)),
        ),
        (CatchSetState::AwaitCtrlWrite { entry, fpctrl }, Event::Ack) => {
            match spec_comparator_for((FpCtrl { raw: fpctrl }).spec_rev(), entry) {
                Ok(comparator) => (
                    retained,
                    CatchSetState::AwaitCompWrite,
                    Action::WriteWord(FP_COMP0_ADDRESS, comparator),
                ),
                Err(e) => (retained, CatchSetState::Failed, Action::Fail(e)),
            }
        },
        (CatchSetState::AwaitCompWrite, Event::Ack) => (
            retained,
            CatchSetState::AwaitFlush,
            Action::Flush,
        ),
        (CatchSetState::AwaitFlush, Event::Ack) => (retained, CatchSetState::Finished, Action::Done),
        _ => (retained, CatchSetState::Failed, Action::Fail(SequenceError::UnexpectedEvent)),
    }
}

impl XMC4000 {
    /// Drive one step of the catch-set hook. Start it with
    /// [`CatchSetState::Start`] and [`Event::Begin`]; keep answering the
    /// returned action until it is [`Action::Done`] or [`Action::Fail`].
    pub fn reset_catch_set_step(&mut self, st: CatchSetState, ev: Event) -> (r: (
        CatchSetState,
        Action,
    ))
        ensures
            (final(self).retained(), r.0, r.1) == spec_catch_set_step(
                old(self).retained(),
                st,
                ev,
            ),
    {
        match (st, ev) {
            (CatchSetState::Start, Event::Begin) => (
                CatchSetState::AwaitStcon,
                Action::ReadWord(STCON_ADDRESS),
            ),
            (CatchSetState::AwaitStcon, Event::Word { value, .. }) => {
                let stcon = Stcon::new(value);
                if stcon.swcon() != 0 {
                    (
                        CatchSetState::AwaitStconWrite,
                        Action::WriteWord(STCON_ADDRESS, normalized_stcon(value)),
                    )
                } else {
                    (CatchSetState::AwaitVector, Action::ReadWord(FLASH_VECTOR_SLOT_ADDRESS))
                }
            },
            (CatchSetState::AwaitStconWrite, Event::Ack) => (
                CatchSetState::AwaitVector,
                Action::ReadWord(FLASH_VECTOR_SLOT_ADDRESS),
            ),
            (CatchSetState::AwaitVector, Event::Word { value, .. }) => (
                CatchSetState::AwaitFpctrl { entry: application_entry(value) },
                Action::ReadWord(FP_CTRL_ADDRESS),
            ),
            (CatchSetState::AwaitFpctrl { entry }, Event::Word { value, .. }) => (
                CatchSetState::AwaitFpcomp { entry, fpctrl: value },
                Action::ReadWord(FP_COMP0_ADDRESS),
            ),
            (CatchSetState::AwaitFpcomp { entry, fpctrl }, Event::Word { value, .. }) => {
                let ctrl = FpCtrl::new(fpctrl);
                let _ = self.replace(
                    Some(HaltAfterResetState { fpctrl_enabled: ctrl.enable(), fpcomp0: value }),
                );
                (
                    CatchSetState::AwaitCtrlWrite { entry, fpctrl },
                    Action::WriteWord(FP_CTRL_ADDRESS, FpCtrl::overwrite(true)),
                )
            },
            (CatchSetState::AwaitCtrlWrite { entry, fpctrl }, Event::Ack) => {
                let ctrl = FpCtrl::new(fpctrl);
                match comparator_for(ctrl.rev(), entry) {
                    Ok(comparator) => (
                        CatchSetState::AwaitCompWrite,
                        Action::WriteWord(FP_COMP0_ADDRESS, comparator),
                    ),
                    Err(e) => (CatchSetState::Failed, Action::Fail(e)),
                }
            },
            (CatchSetState::AwaitCompWrite, Event::Ack) => (
                CatchSetState::AwaitFlush,
                Action::Flush,
            ),
            (CatchSetState::AwaitFlush, Event::Ack) => (CatchSetState::Finished, Action::Done),
            _ => (CatchSetState::Failed, Action::Fail(SequenceError::UnexpectedEvent)),
        }
    }
}

/// Progress of the catch-clear hook, which restores the breakpoint unit from
/// the retained record.
#[derive(Clone, Copy, PartialEq, Eq, Structural, Debug)]
pub enum CatchClearState {
    /// Nothing requested yet.
    Start,
    /// Awaiting completion of the control-register restore; `fpcomp0` is the
    /// comparator word still to be written back.
    AwaitCtrlRestore { fpcomp0: u32 },
    /// Awaiting completion of the comparator restore.
    AwaitCompRestore,
    /// The hook completed.
    Finished,
    /// The hook failed.
    Failed,
}

/// Transition of the catch-clear hook. Starting it consumes the retained
/// record — the slot is left empty — and the two writes restore the captured
/// enable flag (under the key bit, zeroing the rest of the control register)
/// and the captured comparator word verbatim. An empty slot restores a
/// disabled unit and a zero comparator.
pub open spec fn spec_catch_clear_step(
    retained: Option<HaltAfterResetState>,
    st: CatchClearState,
    ev: Event,
) -> (Option<HaltAfterResetState>, CatchClearState, Action) {
    match (st, ev) {
        (CatchClearState::Start, Event::Begin) => {
            let prior = match retained {
                Some(s) => s,
                None => HaltAfterResetState { fpctrl_enabled: false, fpcomp0: 0 },
            };
            (
                None,
                CatchClearState::AwaitCtrlRestore { fpcomp0: prior.fpcomp0 },
                Action::WriteWord(FP_CTRL_ADDRESS, FpCtrl::spec_overwrite(prior.fpctrl_enabled)),
            )
        },
        (CatchClearState::AwaitCtrlRestore { fpcomp0 }, Event::Ack) => (
            retained,
            CatchClearState::AwaitCompRestore,
            Action::WriteWord(FP_COMP0_ADDRESS, fpcomp0),
        ),
        (CatchClearState::AwaitCompRestore, Event::Ack) => (
            retained,
            CatchClearState::Finished,
            Action::Done,
        ),
        _ => (retained, CatchClearState::Failed, Action::Fail(SequenceError::UnexpectedEvent)),
    }
}

impl XMC4000 {
    /// Drive one step of the catch-clear hook. Start it with
    /// [`CatchClearState::Start`] and [`Event::Begin`]; keep answering the
    /// returned action until it is [`Action::Done`] or [`Action::Fail`].
    pub fn reset_catch_clear_step(&mut self, st: CatchClearState, ev: Event) -> (r: (
        CatchClearState,
        Action,
    ))
        ensures
            (final(self).retained(), r.0, r.1) == spec_catch_clear_step(
                old(self).retained(),
                st,
                ev,
            ),
    {
        match (st, ev) {
            (CatchClearState::Start, Event::Begin) => {
                let prior = match self.take() {
                    Option::Some(s) => s,
                    Option::None => HaltAfterResetState { fpctrl_enabled: false, fpcomp0: 0 },
                };
                (
                    CatchClearState::AwaitCtrlRestore { fpcomp0: prior.fpcomp0 },
                    Action::WriteWord(FP_CTRL_ADDRESS, FpCtrl::overwrite(prior.fpctrl_enabled)),
                )
            },
            (CatchClearState::AwaitCtrlRestore { fpcomp0 }, Event::Ack) => (
                CatchClearState::AwaitCompRestore,
                Action::WriteWord(FP_COMP0_ADDRESS, fpcomp0),
            ),
            (CatchClearState::AwaitCompRestore, Event::Ack) => (
                CatchClearState::Finished,
                Action::Done,
            ),
            _ => (CatchClearState::Failed, Action::Fail(SequenceError::UnexpectedEvent)),
        }
    }
}

/// Progress of the system-reset hook.
#[derive(Clone, Copy, PartialEq, Eq, Structural, Debug)]
pub enum ResetSystemState {
    /// Nothing requested yet.
    Start,
    /// Awaiting completion of the defensive reset-status-clear write.
    AwaitStatusClear,
    /// Awaiting completion of the reset-request write.
    AwaitResetRequest,
    /// Polling for the sticky reset status to read clear.
    AwaitResetDone,
    /// Polling for the debug-access gate to open, read indirectly: the SCU
    /// module-identification register is nonzero exactly when access is open.
    AwaitDebugAccess,
    /// Polling for the core-halted status; entered only when a
    /// halt-after-reset is in flight.
    AwaitHalt,
    /// The hook completed.
    Finished,
    /// The hook failed.
    Failed,
}

/// Transition of the system-reset hook: clear the accumulated reset status
/// (defensively — firmware normally does it, and without it the next warm
/// reset would take the hardware-selected boot path), request a system reset,
/// wait for the reset to be processed and for debug access to return, and —
/// exactly when `halt_requested` — wait for the core to halt. Each poll has
/// its own deadline and its own clock, started when its phase begins.
pub open spec fn spec_reset_system_step(halt_requested: bool, st: ResetSystemState, ev: Event) -> (
    ResetSystemState,
    Action,
) {
    match (st, ev) {
        (ResetSystemState::Start, Event::Begin) => (
            ResetSystemState::AwaitStatusClear,
            Action::WriteWord(SCU_RSTCLR_ADDRESS, SCU_RSTCLR_RSCLR),
        ),
        (ResetSystemState::AwaitStatusClear, Event::Ack) => (
            ResetSystemState::AwaitResetRequest,
            Action::WriteWord(AIRCR_ADDRESS, AIRCR_SYSRESETREQ),
        ),
        (ResetSystemState::AwaitResetRequest, Event::Ack) => (
            ResetSystemState::AwaitResetDone,
            Action::ReadWord(DHCSR_ADDRESS),
        ),
        (ResetSystemState::AwaitResetDone, Event::Word { value, elapsed_ms }) => {
            match spec_poll_step(
                !(Dhcsr { raw: value }).spec_s_reset_st(),
                elapsed_ms,
                RESET_STATUS_TIMEOUT_MS,
            ) {
                PollDecision::Satisfied => (
                    ResetSystemState::AwaitDebugAccess,
                    Action::ReadWord(SCU_ID_ADDRESS),
                ),
                PollDecision::Pending => (
                    ResetSystemState::AwaitResetDone,
                    Action::ReadWord(DHCSR_ADDRESS),
                ),
                PollDecision::TimedOut => (
                    ResetSystemState::Failed,
                    Action::Fail(SequenceError::Timeout),
                ),
            }
        },
        (ResetSystemState::AwaitDebugAccess, Event::Word { value, elapsed_ms }) => {
            match spec_poll_step(value != 0, elapsed_ms, DEBUG_ACCESS_TIMEOUT_MS) {
                PollDecision::Satisfied => {
                    if halt_requested {
                        (ResetSystemState::AwaitHalt, Action::ReadWord(DHCSR_ADDRESS))
                    } else {
                        (ResetSystemState::Finished, Action::Done)
                    }
                },
                PollDecision::Pending => (
                    ResetSystemState::AwaitDebugAccess,
                    Action::ReadWord(SCU_ID_ADDRESS),
                ),
                PollDecision::TimedOut => (
                    ResetSystemState::Failed,
                    Action::Fail(SequenceError::Timeout),
                ),
            }
        },
        (ResetSystemState::AwaitHalt, Event::Word { value, elapsed_ms }) => {
            match spec_poll_step((Dhcsr { raw: value }).spec_s_halt(), elapsed_ms, HALT_TIMEOUT_MS) {
                PollDecision::Satisfied => (ResetSystemState::Finished, Action::Done),
                PollDecision::Pending => (
                    ResetSystemState::AwaitHalt,
                    Action::ReadWord(DHCSR_ADDRESS),
                ),
                PollDecision::TimedOut => (
                    ResetSystemState::Failed,
                    Action::Fail(SequenceError::Timeout),
                ),
            }
        },
        _ => (ResetSystemState::Failed, Action::Fail(SequenceError::UnexpectedEvent)),
    }
}

impl XMC4000 {
    /// Drive one step of the system-reset hook. Whether the hook waits for
    /// the core to halt is read from the provider when the debug-access poll
    /// succeeds: a retained record present means a halt was requested.
    pub fn reset_system_step(&self, st: ResetSystemState, ev: Event) -> (r: (
        ResetSystemState,
        Action,
    ))
        ensures
            r == spec_reset_system_step(self.retained() is Some, st, ev),
    {
        match (st, ev) {
            (ResetSystemState::Start, Event::Begin) => (
                ResetSystemState::AwaitStatusClear,
                Action::WriteWord(SCU_RSTCLR_ADDRESS, SCU_RSTCLR_RSCLR),
            ),
            (ResetSystemState::AwaitStatusClear, Event::Ack) => (
                ResetSystemState::AwaitResetRequest,
                Action::WriteWord(AIRCR_ADDRESS, AIRCR_SYSRESETREQ),
            ),
            (ResetSystemState::AwaitResetRequest, Event::Ack) => (
                ResetSystemState::AwaitResetDone,
                Action::ReadWord(DHCSR_ADDRESS),
            ),
            (ResetSystemState::AwaitResetDone, Event::Word { value, elapsed_ms }) => {
                let dhcsr = Dhcsr::new(value);
                match poll_step(!dhcsr.s_reset_st(), elapsed_ms, RESET_STATUS_TIMEOUT_MS) {
                    PollDecision::Satisfied => (
                        ResetSystemState::AwaitDebugAccess,
                        Action::ReadWord(SCU_ID_ADDRESS),
                    ),
                    PollDecision::Pending => (
                        ResetSystemState::AwaitResetDone,
                        Action::ReadWord(DHCSR_ADDRESS),
                    ),
                    PollDecision::TimedOut => (
                        ResetSystemState::Failed,
                        Action::Fail(SequenceError::Timeout),
                    ),
                }
            },
            (ResetSystemState::AwaitDebugAccess, Event::Word { value, elapsed_ms }) => {
                match poll_step(value != 0, elapsed_ms, DEBUG_ACCESS_TIMEOUT_MS) {
                    PollDecision::Satisfied => {
                        if self.is_present() {
                            (ResetSystemState::AwaitHalt, Action::ReadWord(DHCSR_ADDRESS))
                        } else {
                            (ResetSystemState::Finished, Action::Done)
                        }
                    },
                    PollDecision::Pending => (
                        ResetSystemState::AwaitDebugAccess,
                        Action::ReadWord(SCU_ID_ADDRESS),
                    ),
                    PollDecision::TimedOut => (
                        ResetSystemState::Failed,
                        Action::Fail(SequenceError::Timeout),
                    ),
                }
            },
            (ResetSystemState::AwaitHalt, Event::Word { value, elapsed_ms }) => {
                let dhcsr = Dhcsr::new(value);
                match poll_step(dhcsr.s_halt(), elapsed_ms, HALT_TIMEOUT_MS) {
                    PollDecision::Satisfied => (ResetSystemState::Finished, Action::Done),
                    PollDecision::Pending => (
                        ResetSystemState::AwaitHalt,
                        Action::ReadWord(DHCSR_ADDRESS),
                    ),
                    PollDecision::TimedOut => (
                        ResetSystemState::Failed,
                        Action::Fail(SequenceError::Timeout),
                    ),
                }
            },
            _ => (ResetSystemState::Failed, Action::Fail(SequenceError::UnexpectedEvent)),
        }
    }
}

/// Progress of the hardware-assert hook, which drives the reset line low.
#[derive(Clone, Copy, PartialEq, Eq, Structural, Debug)]
pub enum HardwareAssertState {
    /// Nothing requested yet.
    Start,
    /// Awaiting the pin drive.
    AwaitPins,
    /// The hook completed.
    Finished,
    /// The hook failed.
    Failed,
}

/// Transition of the hardware-assert hook: one fire-and-forget pin drive that
/// holds nRESET low while keeping the boot-mode pins at the normal-boot
/// pattern, so a power-on reset occurring under the held line latches normal
/// boot. The readback is ignored.
pub open spec fn spec_hardware_assert_step(st: HardwareAssertState, ev: Event) -> (
    HardwareAssertState,
    Action,
) {
    match (st, ev) {
        (HardwareAssertState::Start, Event::Begin) => (
            HardwareAssertState::AwaitPins,
            Action::DrivePins(RESET_ASSERT_OUTPUT, RESET_PIN_SELECT),
        ),
        (HardwareAssertState::AwaitPins, Event::Pins { .. }) => (
            HardwareAssertState::Finished,
            Action::Done,
        ),
        _ => (HardwareAssertState::Failed, Action::Fail(SequenceError::UnexpectedEvent)),
    }
}

/// Drive one step of the hardware-assert hook.
pub fn reset_hardware_assert_step(st: HardwareAssertState, ev: Event) -> (r: (
    HardwareAssertState,
    Action,
))
    ensures
        r == spec_hardware_assert_step(st, ev),
{
    match (st, ev) {
        (HardwareAssertState::Start, Event::Begin) => (
            HardwareAssertState::AwaitPins,
            Action::DrivePins(RESET_ASSERT_OUTPUT, RESET_PIN_SELECT),
        ),
        (HardwareAssertState::AwaitPins, Event::Pins { .. }) => (
            HardwareAssertState::Finished,
            Action::Done,
        ),
        _ => (HardwareAssertState::Failed, Action::Fail(SequenceError::UnexpectedEvent)),
    }
}

/// Progress of the hardware-deassert hook, which releases the reset line.
#[derive(Clone, Copy, PartialEq, Eq, Structural, Debug)]
pub enum HardwareDeassertState {
    /// Nothing requested yet.
    Start,
    /// Awaiting the releasing pin drive, whose readback tells whether the
    /// probe can read its pins back at all.
    AwaitRelease,
    /// Awaiting the fixed settle delay taken when readback is unsupported.
    AwaitSettle,
    /// Polling the pin readback for the reset line to reach high.
    AwaitReadback,
    /// Awaiting the pause between two readbacks.
    AwaitInterval,
    /// The hook completed.
    Finished,
    /// The hook failed.
    Failed,
}

/// Transition of the hardware-deassert hook: release nRESET (boot-mode pins
/// still at the normal-boot pattern), then verify as well as the probe
/// allows. A readback of [`PIN_READBACK_UNSUPPORTED`] means the probe cannot
/// report its pins: wait one fixed settle delay and succeed optimistically.
/// Otherwise poll the readback until the reset line reads high, pausing
/// between attempts, and fail on deadline.
pub open spec fn spec_hardware_deassert_step(st: HardwareDeassertState, ev: Event) -> (
    HardwareDeassertState,
    Action,
) {
    match (st, ev) {
        (HardwareDeassertState::Start, Event::Begin) => (
            HardwareDeassertState::AwaitRelease,
            Action::DrivePins(RESET_DEASSERT_OUTPUT, RESET_PIN_SELECT),
        ),
        (HardwareDeassertState::AwaitRelease, Event::Pins { readback, .. }) => {
            if readback == PIN_READBACK_UNSUPPORTED {
                (HardwareDeassertState::AwaitSettle, Action::DelayMs(PIN_SETTLE_DELAY_MS))
            } else {
                (
                    HardwareDeassertState::AwaitReadback,
                    Action::DrivePins(RESET_DEASSERT_OUTPUT, RESET_PIN_SELECT),
                )
            }
        },
        (HardwareDeassertState::AwaitSettle, Event::Ack) => (
            HardwareDeassertState::Finished,
            Action::Done,
        ),
        (HardwareDeassertState::AwaitReadback, Event::Pins { readback, elapsed_ms }) => {
            match spec_poll_step(
                (Pins { raw: readback as u8 }).spec_nreset(),
                elapsed_ms,
                PIN_READBACK_TIMEOUT_MS,
            ) {
                PollDecision::Satisfied => (HardwareDeassertState::Finished, Action::Done),
                PollDecision::Pending => (
                    HardwareDeassertState::AwaitInterval,
                    Action::DelayMs(PIN_POLL_INTERVAL_MS),
                ),
                PollDecision::TimedOut => (
                    HardwareDeassertState::Failed,
                    Action::Fail(SequenceError::Timeout),
                ),
            }
        },
        (HardwareDeassertState::AwaitInterval, Event::Ack) => (
            HardwareDeassertState::AwaitReadback,
            Action::DrivePins(RESET_DEASSERT_OUTPUT, RESET_PIN_SELECT),
        ),
        _ => (HardwareDeassertState::Failed, Action::Fail(SequenceError::UnexpectedEvent)),
    }
}

/// Drive one step of the hardware-deassert hook.
pub fn reset_hardware_deassert_step(st: HardwareDeassertState, ev: Event) -> (r: (
    HardwareDeassertState,
    Action,
))
    ensures
        r == spec_hardware_deassert_step(st, ev),
{
    match (st, ev) {
        (HardwareDeassertState::Start, Event::Begin) => (
            HardwareDeassertState::AwaitRelease,
            Action::DrivePins(RESET_DEASSERT_OUTPUT, RESET_PIN_SELECT),
        ),
        (HardwareDeassertState::AwaitRelease, Event::Pins { readback, .. }) => {
            if readback == PIN_READBACK_UNSUPPORTED {
                (HardwareDeassertState::AwaitSettle, Action::DelayMs(PIN_SETTLE_DELAY_MS))
            } else {
                (
                    HardwareDeassertState::AwaitReadback,
                    Action::DrivePins(RESET_DEASSERT_OUTPUT, RESET_PIN_SELECT),
                )
            }
        },
        (HardwareDeassertState::AwaitSettle, Event::Ack) => (
            HardwareDeassertState::Finished,
            Action::Done,
        ),
        (HardwareDeassertState::AwaitReadback, Event::Pins { readback, elapsed_ms }) => {
            let pins = Pins::new(readback as u8);
            match poll_step(pins.nreset(), elapsed_ms, PIN_READBACK_TIMEOUT_MS) {
                PollDecision::Satisfied => (HardwareDeassertState::Finished, Action::Done),
                PollDecision::Pending => (
                    HardwareDeassertState::AwaitInterval,
                    Action::DelayMs(PIN_POLL_INTERVAL_MS),
                ),
                PollDecision::TimedOut => (
                    HardwareDeassertState::Failed,
                    Action::Fail(SequenceError::Timeout),
                ),
            }
        },
        (HardwareDeassertState::AwaitInterval, Event::Ack) => (
            HardwareDeassertState::AwaitReadback,
            Action::DrivePins(RESET_DEASSERT_OUTPUT, RESET_PIN_SELECT),
        ),
        _ => (HardwareDeassertState::Failed, Action::Fail(SequenceError::UnexpectedEvent)),
    }
}

/// Round-trip law: whatever breakpoint-unit control word and comparator word
/// stood before the catch was armed, clearing the catch writes back a control
/// word carrying the key bit and exactly the prior enable flag, and then the
/// prior comparator word bit-identically — and the slot it consumed is left
/// empty. This holds whatever the slot held before arming: the capture
/// overwrites it whole.
pub proof fn lemma_catch_round_trip(
    retained0: Option<HaltAfterResetState>,
    entry: u32,
    fpctrl: u32,
    fpcomp0: u32,
    elapsed_ms: u64,
)
    ensures
        ({
            let (retained1, _, _) = spec_catch_set_step(
                retained0,
                CatchSetState::AwaitFpcomp { entry, fpctrl },
                Event::Word { value: fpcomp0, elapsed_ms },
            );
            let (retained2, cleared, ctrl_restore) = spec_catch_clear_step(
                retained1,
                CatchClearState::Start,
                Event::Begin,
            );
            let (_, _, comp_restore) = spec_catch_clear_step(retained2, cleared, Event::Ack);
            &&& ctrl_restore == Action::WriteWord(
                FP_CTRL_ADDRESS,
                FpCtrl::spec_overwrite((FpCtrl { raw: fpctrl }).spec_enable()),
            )
            &&& (FpCtrl {
                raw: FpCtrl::spec_overwrite((FpCtrl { raw: fpctrl }).spec_enable()),
            }).spec_enable() == (FpCtrl { raw: fpctrl }).spec_enable()
            &&& FpCtrl::spec_overwrite((FpCtrl { raw: fpctrl }).spec_enable()) & 0x2 != 0
            &&& comp_restore == Action::WriteWord(FP_COMP0_ADDRESS, fpcomp0)
            &&& retained2 is None
        }),
{
    crate::registers::lemma_fpctrl_overwrite_fields((FpCtrl { raw: fpctrl }).spec_enable());
}

/// The armed path of the catch-set hook, end to end: for any values the
/// target returns, as long as the breakpoint unit's revision is known (and,
/// for a revision-0 unit, the entry is reachable), the hook performs exactly,
/// in order: the startup-configuration read; the corrective boot-mode write
/// precisely when the software field is nonzero, with the normalized word;
/// the vector-slot read; the control and comparator reads; the enabling
/// overwrite; the comparator write encoding the resolved entry; and a final
/// flush. At the end the slot retains the unit's prior enable flag and
/// comparator word, whatever it held before.
pub proof fn lemma_catch_set_armed_path(
    retained0: Option<HaltAfterResetState>,
    stcon: u32,
    vector: u32,
    fpctrl: u32,
    fpcomp0: u32,
    comparator: u32,
    elapsed_ms: u64,
)
    requires
        spec_comparator_for(
            (FpCtrl { raw: fpctrl }).spec_rev(),
            crate::bootmode::spec_application_entry(vector),
        ) == Ok::<u32, SequenceError>(comparator),
    ensures
        ({
            let entry = crate::bootmode::spec_application_entry(vector);
            let (r1, s1, a1) = spec_catch_set_step(retained0, CatchSetState::Start, Event::Begin);
            let (r2, s2, a2) = spec_catch_set_step(
                r1,
                s1,
                Event::Word { value: stcon, elapsed_ms },
            );
            // The corrective write happens exactly when the software field is
            // nonzero; either way the hook rejoins at the vector read.
            let (r3, s3, a3) = if (Stcon { raw: stcon }).spec_swcon() != 0 {
                spec_catch_set_step(r2, s2, Event::Ack)
            } else {
                (r2, s2, a2)
            };
            let (r4, s4, a4) = spec_catch_set_step(
                r3,
                s3,
                Event::Word { value: vector, elapsed_ms },
            );
            let (r5, s5, a5) = spec_catch_set_step(
                r4,
                s4,
                Event::Word { value: fpctrl, elapsed_ms },
            );
            let (r6, s6, a6) = spec_catch_set_step(
                r5,
                s5,
                Event::Word { value: fpcomp0, elapsed_ms },
            );
            let (r7, s7, a7) = spec_catch_set_step(r6, s6, Event::Ack);
            let (r8, s8, a8) = spec_catch_set_step(r7, s7, Event::Ack);
            let (r9, s9, a9) = spec_catch_set_step(r8, s8, Event::Ack);
            &&& a1 == Action::ReadWord(STCON_ADDRESS)
            &&& ((Stcon { raw: stcon }).spec_swcon() != 0 ==> a2 == Action::WriteWord(
                STCON_ADDRESS,
                spec_normalized_stcon(stcon),
            ))
            &&& a3 == Action::ReadWord(FLASH_VECTOR_SLOT_ADDRESS)
            &&& a4 == Action::ReadWord(FP_CTRL_ADDRESS)
            &&& a5 == Action::ReadWord(FP_COMP0_ADDRESS)
            &&& a6 == Action::WriteWord(FP_CTRL_ADDRESS, FpCtrl::spec_overwrite(true))
            &&& a7 == Action::WriteWord(FP_COMP0_ADDRESS, comparator)
            &&& a8 == Action::Flush
            &&& a9 == Action::Done
            &&& s9 == CatchSetState::Finished
            &&& r9 == Some(
                HaltAfterResetState {
                    fpctrl_enabled: (FpCtrl { raw: fpctrl }).spec_enable(),
                    fpcomp0,
                },
            )
        }),
{
}

/// Idempotent-normalization law: when the software boot-mode field already
/// reads normal boot, arming the catch issues no write to the
/// startup-configuration register and goes straight on to the vector slot;
/// when it does not, the one write issued clears exactly that field, so
/// writing it is idempotent and an already-normal word would be written back
/// bit-identically.
pub proof fn lemma_boot_mode_normalization(
    retained: Option<HaltAfterResetState>,
    raw: u32,
    elapsed_ms: u64,
)
    ensures
        (Stcon { raw }).spec_swcon() == 0 ==> spec_catch_set_step(
            retained,
            CatchSetState::AwaitStcon,
            Event::Word { value: raw, elapsed_ms },
        ) == (retained, CatchSetState::AwaitVector, Action::ReadWord(FLASH_VECTOR_SLOT_ADDRESS)),
        (Stcon { raw }).spec_swcon() != 0 ==> spec_catch_set_step(
            retained,
            CatchSetState::AwaitStcon,
            Event::Word { value: raw, elapsed_ms },
        ) == (
            retained,
            CatchSetState::AwaitStconWrite,
            Action::WriteWord(STCON_ADDRESS, spec_normalized_stcon(raw)),
        ),
        (Stcon { raw: spec_normalized_stcon(raw) }).spec_swcon() == 0,
        (Stcon { raw: spec_normalized_stcon(raw) }).spec_hwcon() == (Stcon { raw }).spec_hwcon(),
        (Stcon { raw }).spec_swcon() == 0 ==> spec_normalized_stcon(raw) == raw,
        spec_normalized_stcon(spec_normalized_stcon(raw)) == spec_normalized_stcon(raw),
{
    crate::bootmode::lemma_normalized_stcon(raw);
}

/// Revision-branching law: with the breakpoint unit enabled, the comparator
/// write is encoded revision-1-style for a revision-0 unit and
/// revision-2-style for a revision-1 unit, while any other revision fails the
/// hook with that revision value and no comparator write follows — the
/// machine goes straight to its failed state.
pub proof fn lemma_revision_branching(
    retained: Option<HaltAfterResetState>,
    entry: u32,
    fpctrl: u32,
)
    ensures
        (FpCtrl { raw: fpctrl }).spec_rev() == 0 && entry
            < crate::bootmode::REV1_COMPARATOR_LIMIT ==> spec_catch_set_step(
            retained,
            CatchSetState::AwaitCtrlWrite { entry, fpctrl },
            Event::Ack,
        ) == (
            retained,
            CatchSetState::AwaitCompWrite,
            Action::WriteWord(FP_COMP0_ADDRESS, crate::bootmode::spec_rev1_comparator(entry)),
        ),
        (FpCtrl { raw: fpctrl }).spec_rev() == 1 ==> spec_catch_set_step(
            retained,
            CatchSetState::AwaitCtrlWrite { entry, fpctrl },
            Event::Ack,
        ) == (
            retained,
            CatchSetState::AwaitCompWrite,
            Action::WriteWord(FP_COMP0_ADDRESS, crate::bootmode::spec_rev2_comparator(entry)),
        ),
        (FpCtrl { raw: fpctrl }).spec_rev() != 0 && (FpCtrl { raw: fpctrl }).spec_rev() != 1
            ==> spec_catch_set_step(
            retained,
            CatchSetState::AwaitCtrlWrite { entry, fpctrl },
            Event::Ack,
        ) == (
            retained,
            CatchSetState::Failed,
            Action::Fail(
                SequenceError::UnsupportedHardwareRevision((FpCtrl { raw: fpctrl }).spec_rev()),
            ),
        ),
{
}

/// Halt-gating law: once the debug-access poll reads a nonzero word — access
/// is back — the reset hook moves on to wait for the core-halted status
/// exactly when a halt-after-reset is in flight; with nothing retained it
/// finishes at once, without ever looking at the halt status.
pub proof fn lemma_halt_gating(halt_requested: bool, value: u32, elapsed_ms: u64)
    requires
        value != 0,
    ensures
        halt_requested ==> spec_reset_system_step(
            true,
            ResetSystemState::AwaitDebugAccess,
            Event::Word { value, elapsed_ms },
        ) == (ResetSystemState::AwaitHalt, Action::ReadWord(DHCSR_ADDRESS)),
        !halt_requested ==> spec_reset_system_step(
            false,
            ResetSystemState::AwaitDebugAccess,
            Event::Word { value, elapsed_ms },
        ) == (ResetSystemState::Finished, Action::Done),
{
}

/// The system-reset hook, end to end, when each wait is answered at its
/// first evaluation: the defensive status-clear write, the reset request,
/// one read showing the sticky reset status clear, one read showing the
/// debug-access gate open — and then a halt-status wait exactly when a
/// halt-after-reset is in flight, otherwise immediate success. The
/// elapsed times are arbitrary: a satisfied wait is honoured whenever it is
/// observed.
pub proof fn lemma_reset_system_path(
    halt_requested: bool,
    dhcsr_after_reset: u32,
    scu_id: u32,
    dhcsr_halted: u32,
    e1: u64,
    e2: u64,
    e3: u64,
)
    requires
        !(Dhcsr { raw: dhcsr_after_reset }).spec_s_reset_st(),
        scu_id != 0,
        (Dhcsr { raw: dhcsr_halted }).spec_s_halt(),
    ensures
        ({
            let (s1, a1) = spec_reset_system_step(halt_requested, ResetSystemState::Start, Event::Begin);
            let (s2, a2) = spec_reset_system_step(halt_requested, s1, Event::Ack);
            let (s3, a3) = spec_reset_system_step(halt_requested, s2, Event::Ack);
            let (s4, a4) = spec_reset_system_step(
                halt_requested,
                s3,
                Event::Word { value: dhcsr_after_reset, elapsed_ms: e1 },
            );
            let (s5, a5) = spec_reset_system_step(
                halt_requested,
                s4,
                Event::Word { value: scu_id, elapsed_ms: e2 },
            );
            &&& a1 == Action::WriteWord(SCU_RSTCLR_ADDRESS, SCU_RSTCLR_RSCLR)
            &&& a2 == Action::WriteWord(AIRCR_ADDRESS, AIRCR_SYSRESETREQ)
            &&& a3 == Action::ReadWord(DHCSR_ADDRESS)
            &&& a4 == Action::ReadWord(SCU_ID_ADDRESS)
            &&& (!halt_requested ==> s5 == ResetSystemState::Finished && a5 == Action::Done)
            &&& (halt_requested ==> a5 == Action::ReadWord(DHCSR_ADDRESS)
                && spec_reset_system_step(
                    halt_requested,
                    s5,
                    Event::Word { value: dhcsr_halted, elapsed_ms: e3 },
                ) == (ResetSystemState::Finished, Action::Done))
        }),
{
}

/// Pin-readback-fallback law: when the releasing pin drive reads back the
/// all-ones sentinel, the deassert hook never polls — it takes exactly one
/// fixed settle delay and then succeeds.
pub proof fn lemma_pin_readback_fallback(elapsed_ms: u64)
    ensures
        spec_hardware_deassert_step(
            HardwareDeassertState::AwaitRelease,
            Event::Pins { readback: PIN_READBACK_UNSUPPORTED, elapsed_ms },
        ) == (HardwareDeassertState::AwaitSettle, Action::DelayMs(PIN_SETTLE_DELAY_MS)),
        spec_hardware_deassert_step(HardwareDeassertState::AwaitSettle, Event::Ack) == (
            HardwareDeassertState::Finished,
            Action::Done,
        ),
{
}

} // verus!

