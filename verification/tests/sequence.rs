use xmc4000_sequence::error::SequenceError;
use xmc4000_sequence::sequence::reset_hardware_assert_step;
use xmc4000_sequence::sequence::reset_hardware_deassert_step;
use xmc4000_sequence::sequence::Action;
use xmc4000_sequence::sequence::CatchClearState;
use xmc4000_sequence::sequence::CatchSetState;
use xmc4000_sequence::sequence::Event;
use xmc4000_sequence::sequence::HardwareAssertState;
use xmc4000_sequence::sequence::HardwareDeassertState;
use xmc4000_sequence::sequence::ResetSystemState;
use xmc4000_sequence::state::HaltAfterResetState;
use xmc4000_sequence::state::XMC4000;

const STCON: u64 = 0x5000_4010;
const SCU_ID: u64 = 0x5000_4000;
const SCU_RSTCLR: u64 = 0x5000_4408;
const VECTOR_SLOT: u64 = 0x0C00_0004;
const DHCSR: u64 = 0xE000_EDF0;
const AIRCR: u64 = 0xE000_ED0C;
const FP_CTRL: u64 = 0xE000_2000;
const FP_COMP0: u64 = 0xE000_2008;

fn word(value: u32, elapsed_ms: u64) -> Event {
    Event::Word { value, elapsed_ms }
}

fn pins(readback: u32, elapsed_ms: u64) -> Event {
    Event::Pins { readback, elapsed_ms }
}

#[test]
fn catch_set_full_walk_with_normal_boot() {
    let mut p = XMC4000::create();

    let (st, a) = p.reset_catch_set_step(CatchSetState::Start, Event::Begin);
    assert_eq!(a, Action::ReadWord(STCON));
    // Software boot-mode field already zero: no corrective write.
    let (st, a) = p.reset_catch_set_step(st, word(0x0000_0003, 0));
    assert_eq!(a, Action::ReadWord(VECTOR_SLOT));
    // Vector slot holds an even handler address; target gets the thumb bit.
    let (st, a) = p.reset_catch_set_step(st, word(0x0C00_1234, 0));
    assert_eq!(a, Action::ReadWord(FP_CTRL));
    // Revision-0 unit, currently enabled.
    let (st, a) = p.reset_catch_set_step(st, word(0x0000_0001, 0));
    assert_eq!(a, Action::ReadWord(FP_COMP0));
    // Comparator word captured; the unit is enabled fresh (key + enable).
    let (st, a) = p.reset_catch_set_step(st, word(0xCAFE_BABE, 0));
    assert_eq!(a, Action::WriteWord(FP_CTRL, 0x3));
    assert!(p.is_present());
    // Revision 0 takes the rev-1-style encoding of 0x0C00_1235.
    let (st, a) = p.reset_catch_set_step(st, Event::Ack);
    assert_eq!(a, Action::WriteWord(FP_COMP0, 0x4C00_1235));
    let (st, a) = p.reset_catch_set_step(st, Event::Ack);
    assert_eq!(a, Action::Flush);
    let (st, a) = p.reset_catch_set_step(st, Event::Ack);
    assert_eq!(st, CatchSetState::Finished);
    assert_eq!(a, Action::Done);
}

#[test]
fn catch_set_normalizes_a_nonzero_boot_mode() {
    let mut p = XMC4000::create();
    let (st, _) = p.reset_catch_set_step(CatchSetState::Start, Event::Begin);
    // Software field reads 1: one write putting it back to normal boot,
    // leaving the rest of the word alone.
    let (st, a) = p.reset_catch_set_step(st, word(0x0000_0103, 0));
    assert_eq!(a, Action::WriteWord(STCON, 0x0000_0003));
    let (_, a) = p.reset_catch_set_step(st, Event::Ack);
    assert_eq!(a, Action::ReadWord(VECTOR_SLOT));
}

#[test]
fn catch_set_revision_one_takes_rev2_encoding() {
    let mut p = XMC4000::create();
    let st = CatchSetState::Start;
    let (st, _) = p.reset_catch_set_step(st, Event::Begin);
    let (st, _) = p.reset_catch_set_step(st, word(0, 0));
    let (st, _) = p.reset_catch_set_step(st, word(0x0C00_1234, 0));
    // Revision-1 unit (revision field reads 1).
    let (st, _) = p.reset_catch_set_step(st, word(0x1000_0000, 0));
    let (st, _) = p.reset_catch_set_step(st, word(0, 0));
    let (_, a) = p.reset_catch_set_step(st, Event::Ack);
    assert_eq!(a, Action::WriteWord(FP_COMP0, 0x0C00_1235));
}

#[test]
fn catch_set_fails_on_unknown_revision_without_comparator_write() {
    let mut p = XMC4000::create();
    let st = CatchSetState::Start;
    let (st, _) = p.reset_catch_set_step(st, Event::Begin);
    let (st, _) = p.reset_catch_set_step(st, word(0, 0));
    let (st, _) = p.reset_catch_set_step(st, word(0x0C00_1234, 0));
    // Revision field reads 2: unknown to this sequence.
    let (st, _) = p.reset_catch_set_step(st, word(0x2000_0000, 0));
    let (st, _) = p.reset_catch_set_step(st, word(0, 0));
    let (st, a) = p.reset_catch_set_step(st, Event::Ack);
    assert_eq!(st, CatchSetState::Failed);
    assert_eq!(a, Action::Fail(SequenceError::UnsupportedHardwareRevision(2)));
}

#[test]
fn catch_round_trip_restores_prior_values() {
    let mut p = XMC4000::create();
    // Arm the catch over a disabled unit with comparator word 0x1234_5678.
    let st = CatchSetState::Start;
    let (st, _) = p.reset_catch_set_step(st, Event::Begin);
    let (st, _) = p.reset_catch_set_step(st, word(0, 0));
    let (st, _) = p.reset_catch_set_step(st, word(0x0C00_1234, 0));
    let (st, _) = p.reset_catch_set_step(st, word(0x0000_0000, 0));
    let (st, _) = p.reset_catch_set_step(st, word(0x1234_5678, 0));
    let (st, _) = p.reset_catch_set_step(st, Event::Ack);
    let (st, _) = p.reset_catch_set_step(st, Event::Ack);
    let (_, a) = p.reset_catch_set_step(st, Event::Ack);
    assert_eq!(a, Action::Done);

    // Clearing writes back the captured enable flag (here: disabled, so just
    // the key bit) and the captured comparator word, bit-identically.
    let (st, a) = p.reset_catch_clear_step(CatchClearState::Start, Event::Begin);
    assert_eq!(a, Action::WriteWord(FP_CTRL, 0x2));
    assert!(!p.is_present());
    let (st, a) = p.reset_catch_clear_step(st, Event::Ack);
    assert_eq!(a, Action::WriteWord(FP_COMP0, 0x1234_5678));
    let (st, a) = p.reset_catch_clear_step(st, Event::Ack);
    assert_eq!(st, CatchClearState::Finished);
    assert_eq!(a, Action::Done);
}

#[test]
fn catch_round_trip_restores_an_enabled_unit() {
    let mut p = XMC4000::create();
    let _ = p.replace(Some(HaltAfterResetState { fpctrl_enabled: true, fpcomp0: 0xCAFE_BABE }));
    let (st, a) = p.reset_catch_clear_step(CatchClearState::Start, Event::Begin);
    assert_eq!(a, Action::WriteWord(FP_CTRL, 0x3));
    let (_, a) = p.reset_catch_clear_step(st, Event::Ack);
    assert_eq!(a, Action::WriteWord(FP_COMP0, 0xCAFE_BABE));
}

#[test]
fn catch_clear_with_nothing_retained_restores_a_disabled_unit() {
    let mut p = XMC4000::create();
    let (st, a) = p.reset_catch_clear_step(CatchClearState::Start, Event::Begin);
    assert_eq!(a, Action::WriteWord(FP_CTRL, 0x2));
    let (_, a) = p.reset_catch_clear_step(st, Event::Ack);
    assert_eq!(a, Action::WriteWord(FP_COMP0, 0));
}

#[test]
fn arming_twice_overwrites_the_retained_record() {
    let mut p = XMC4000::create();
    let _ = p.replace(Some(HaltAfterResetState { fpctrl_enabled: true, fpcomp0: 0x1111_1111 }));
    // A fresh capture overwrites the stale record whole.
    let st = CatchSetState::AwaitFpcomp { entry: 0x0C00_1235, fpctrl: 0 };
    let _ = p.reset_catch_set_step(st, word(0x2222_2222, 0));
    assert_eq!(
        p.take(),
        Some(HaltAfterResetState { fpctrl_enabled: false, fpcomp0: 0x2222_2222 })
    );
}

#[test]
fn reset_system_waits_for_halt_when_retained() {
    let mut p = XMC4000::create();
    let _ = p.replace(Some(HaltAfterResetState { fpctrl_enabled: false, fpcomp0: 0 }));

    let (st, a) = p.reset_system_step(ResetSystemState::Start, Event::Begin);
    assert_eq!(a, Action::WriteWord(SCU_RSTCLR, 1));
    let (st, a) = p.reset_system_step(st, Event::Ack);
    assert_eq!(a, Action::WriteWord(AIRCR, 0x05FA_0004));
    let (st, a) = p.reset_system_step(st, Event::Ack);
    assert_eq!(a, Action::ReadWord(DHCSR));
    // Sticky reset status still set: keep polling.
    let (st, a) = p.reset_system_step(st, word(0x0200_0000, 10));
    assert_eq!(a, Action::ReadWord(DHCSR));
    // Cleared: move on to the debug-access gate.
    let (st, a) = p.reset_system_step(st, word(0, 20));
    assert_eq!(a, Action::ReadWord(SCU_ID));
    // Gate still closed (module identification reads zero): keep polling.
    let (st, a) = p.reset_system_step(st, word(0, 100));
    assert_eq!(a, Action::ReadWord(SCU_ID));
    // Gate open: a halt is in flight, so wait for the halted status.
    let (st, a) = p.reset_system_step(st, word(0x00C0, 200));
    assert_eq!(st, ResetSystemState::AwaitHalt);
    assert_eq!(a, Action::ReadWord(DHCSR));
    let (st, a) = p.reset_system_step(st, word(0, 300));
    assert_eq!(a, Action::ReadWord(DHCSR));
    let (st, a) = p.reset_system_step(st, word(0x0002_0000, 400));
    assert_eq!(st, ResetSystemState::Finished);
    assert_eq!(a, Action::Done);
}

#[test]
fn reset_system_skips_halt_wait_when_nothing_retained() {
    let p = XMC4000::create();
    let (st, _) = p.reset_system_step(ResetSystemState::Start, Event::Begin);
    let (st, _) = p.reset_system_step(st, Event::Ack);
    let (st, _) = p.reset_system_step(st, Event::Ack);
    let (st, _) = p.reset_system_step(st, word(0, 10));
    // Gate open and nothing retained: done at once, no halt-status read.
    let (st, a) = p.reset_system_step(st, word(0x00C0, 20));
    assert_eq!(st, ResetSystemState::Finished);
    assert_eq!(a, Action::Done);
}

#[test]
fn reset_system_times_out_when_reset_status_never_clears() {
    let p = XMC4000::create();
    let st = ResetSystemState::AwaitResetDone;
    // At the deadline the poll is still pending; one tick past it fails.
    let (_, a) = p.reset_system_step(st, word(0x0200_0000, 500));
    assert_eq!(a, Action::ReadWord(DHCSR));
    let (st, a) = p.reset_system_step(st, word(0x0200_0000, 501));
    assert_eq!(st, ResetSystemState::Failed);
    assert_eq!(a, Action::Fail(SequenceError::Timeout));
}

#[test]
fn reset_system_times_out_when_access_gate_stays_closed() {
    let p = XMC4000::create();
    let (st, a) = p.reset_system_step(ResetSystemState::AwaitDebugAccess, word(0, 501));
    assert_eq!(st, ResetSystemState::Failed);
    assert_eq!(a, Action::Fail(SequenceError::Timeout));
}

#[test]
fn reset_system_times_out_when_core_never_halts() {
    let p = XMC4000::create();
    let (_, a) = p.reset_system_step(ResetSystemState::AwaitHalt, word(0, 1000));
    assert_eq!(a, Action::ReadWord(DHCSR));
    let (st, a) = p.reset_system_step(ResetSystemState::AwaitHalt, word(0, 1001));
    assert_eq!(st, ResetSystemState::Failed);
    assert_eq!(a, Action::Fail(SequenceError::Timeout));
}

#[test]
fn hardware_assert_is_one_pin_drive() {
    let (st, a) = reset_hardware_assert_step(HardwareAssertState::Start, Event::Begin);
    assert_eq!(a, Action::DrivePins(0x02, 0x83));
    let (st, a) = reset_hardware_assert_step(st, pins(0, 0));
    assert_eq!(st, HardwareAssertState::Finished);
    assert_eq!(a, Action::Done);
}

#[test]
fn hardware_deassert_falls_back_to_a_settle_delay() {
    let (st, a) = reset_hardware_deassert_step(HardwareDeassertState::Start, Event::Begin);
    assert_eq!(a, Action::DrivePins(0x82, 0x83));
    // All-ones readback: the probe cannot read its pins; no polling, exactly
    // one fixed settle delay, then success.
    let (st, a) = reset_hardware_deassert_step(st, pins(0xFFFF_FFFF, 0));
    assert_eq!(a, Action::DelayMs(100));
    let (st, a) = reset_hardware_deassert_step(st, Event::Ack);
    assert_eq!(st, HardwareDeassertState::Finished);
    assert_eq!(a, Action::Done);
}

#[test]
fn hardware_deassert_polls_the_readback_until_high() {
    let (st, _) = reset_hardware_deassert_step(HardwareDeassertState::Start, Event::Begin);
    let (st, a) = reset_hardware_deassert_step(st, pins(0x0000_0002, 0));
    assert_eq!(a, Action::DrivePins(0x82, 0x83));
    // Reset line still low: pause, then drive and read again.
    let (st, a) = reset_hardware_deassert_step(st, pins(0x0000_0002, 10));
    assert_eq!(a, Action::DelayMs(100));
    let (st, a) = reset_hardware_deassert_step(st, Event::Ack);
    assert_eq!(a, Action::DrivePins(0x82, 0x83));
    // Reset line high: done.
    let (st, a) = reset_hardware_deassert_step(st, pins(0x0000_0082, 150));
    assert_eq!(st, HardwareDeassertState::Finished);
    assert_eq!(a, Action::Done);
}

#[test]
fn hardware_deassert_times_out_when_the_line_stays_low() {
    let (st, _) = reset_hardware_deassert_step(HardwareDeassertState::Start, Event::Begin);
    let (st, _) = reset_hardware_deassert_step(st, pins(0, 0));
    let (st, a) = reset_hardware_deassert_step(st, pins(0, 1001));
    assert_eq!(st, HardwareDeassertState::Failed);
    assert_eq!(a, Action::Fail(SequenceError::Timeout));
}

#[test]
fn finished_hooks_refuse_further_events() {
    let mut p = XMC4000::create();
    let (st, a) = p.reset_catch_set_step(CatchSetState::Finished, Event::Ack);
    assert_eq!(st, CatchSetState::Failed);
    assert_eq!(a, Action::Fail(SequenceError::UnexpectedEvent));
    let (_, a) = reset_hardware_assert_step(HardwareAssertState::Finished, Event::Begin);
    assert_eq!(a, Action::Fail(SequenceError::UnexpectedEvent));
}

#[test]
fn retained_slot_take_and_replace() {
    let mut p = XMC4000::create();
    assert!(!p.is_present());
    assert_eq!(p.take(), None);

    let record = HaltAfterResetState { fpctrl_enabled: true, fpcomp0: 7 };
    assert_eq!(p.replace(Some(record)), None);
    assert!(p.is_present());

    let other = HaltAfterResetState { fpctrl_enabled: false, fpcomp0: 9 };
    assert_eq!(p.replace(Some(other)), Some(record));

    assert_eq!(p.take(), Some(other));
    assert!(!p.is_present());
    assert_eq!(p.take(), None);
}
