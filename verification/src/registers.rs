//! Typed views over the fixed-layout 32-bit hardware registers the reset
//! sequence touches, and the fixed addresses they live at.
//!
//! Each register type wraps the raw word and exposes its named sub-fields.
//! Getters return exactly the declared bit range; setters enforce the declared
//! field width and leave every bit outside the field unchanged, so
//! read-modify-write passes undefined bits through verbatim.

use vstd::prelude::*;

verus! {

/// SCU startup-configuration register (STCON).
pub const STCON_ADDRESS: u64 = 0x5000_4010;

/// SCU module-identification register; guaranteed to read nonzero once the
/// chip's debug-access gate (DAPSA) is open, and zero while it is closed.
pub const SCU_ID_ADDRESS: u64 = 0x5000_4000;

/// SCU reset-status-clear register (RSTCLR).
pub const SCU_RSTCLR_ADDRESS: u64 = 0x5000_4408;

/// Low bit of RSTCLR: clears the accumulated reset-status bits, so that the
/// next warm reset takes the software-selected boot path.
pub const SCU_RSTCLR_RSCLR: u32 = 0x1;

/// Vector slot at the start of flash that boot firmware points at the
/// application's reset handler before passing control to it.
pub const FLASH_VECTOR_SLOT_ADDRESS: u64 = 0x0C00_0004;

/// Debug halting control and status register (DHCSR).
pub const DHCSR_ADDRESS: u64 = 0xE000_EDF0;

/// Application interrupt and reset control register (AIRCR).
pub const AIRCR_ADDRESS: u64 = 0xE000_ED0C;

/// AIRCR word requesting a system reset: the vector key `0x05FA` in the upper
/// half (required for any AIRCR write to take effect) with SYSRESETREQ
/// (bit 2) set and everything else zero.
pub const AIRCR_SYSRESETREQ: u32 = 0x05FA_0004;

/// Breakpoint (flash-patch) unit control register.
pub const FP_CTRL_ADDRESS: u64 = 0xE000_2000;

/// First breakpoint comparator slot.
pub const FP_COMP0_ADDRESS: u64 = 0xE000_2008;

/// Startup-configuration register: selects which boot path the boot ROM takes.
#[derive(Clone, Copy, PartialEq, Eq, Structural, Debug)]
pub struct Stcon {
    pub raw: u32,
}

impl Stcon {
    /// Hardware boot-mode field, bits 1..=0. Latched from the debug pins at
    /// power-on reset and read-only afterwards.
    pub open spec fn spec_hwcon(self) -> u32 {
        self.raw & 0x3
    }

    /// Software boot-mode field, bits 11..=8. Authoritative for every reset
    /// that is not a power-on reset; zero means normal boot.
    pub open spec fn spec_swcon(self) -> u32 {
        (self.raw >> 8) & 0xF
    }

    pub fn new(raw: u32) -> (r: Stcon)
        ensures
            r.raw == raw,
    {
        Stcon { raw }
    }

    pub fn hwcon(&self) -> (r: u32)
        ensures
            r == self.spec_hwcon(),
    {
        self.raw & 0x3
    }

    pub fn swcon(&self) -> (r: u32)
        ensures
            r == self.spec_swcon(),
    {
        (self.raw >> 8) & 0xF
    }

    /// Write the software boot-mode field, leaving every other bit unchanged.
    pub fn set_swcon(&mut self, value: u32)
        requires
            value < 16,
        ensures
            final(self).raw == (old(self).raw & 0xFFFF_F0FF) | (value << 8),
            final(self).spec_swcon() == value,
            final(self).spec_hwcon() == old(self).spec_hwcon(),
    {
        let raw = self.raw;
        proof {
            assert(((((raw & 0xFFFF_F0FF) | (value << 8)) >> 8) & 0xF) == value) by (bit_vector)
                requires
                    value < 16,
            ;
            assert((((raw & 0xFFFF_F0FF) | (value << 8)) & 0x3) == (raw & 0x3)) by (bit_vector)
                requires
                    value < 16,
            ;
        }
        self.raw = (raw & 0xFFFF_F0FF) | (value << 8);
    }
}

/// Breakpoint-unit control register.
#[derive(Clone, Copy, PartialEq, Eq, Structural, Debug)]
pub struct FpCtrl {
    pub raw: u32,
}

impl FpCtrl {
    /// Hardware revision of the breakpoint unit, bits 31..=28. Revisions 0 and
    /// 1 use different comparator encodings.
    pub open spec fn spec_rev(self) -> u32 {
        self.raw >> 28
    }

    /// Unit enable flag, bit 0.
    pub open spec fn spec_enable(self) -> bool {
        self.raw & 0x1 != 0
    }

    /// Control word carrying only the key (bit 1) and the given enable flag
    /// (bit 0), all other bits zero. The hardware requires the key bit on
    /// every write for the enable field to take effect, so the register is
    /// always overwritten whole with a word of this shape.
    pub open spec fn spec_overwrite(enable: bool) -> u32 {
        if enable {
            0x3
        } else {
            0x2
        }
    }

    pub fn new(raw: u32) -> (r: FpCtrl)
        ensures
            r.raw == raw,
    {
        FpCtrl { raw }
    }

    pub fn rev(&self) -> (r: u32)
        ensures
            r == self.spec_rev(),
    {
        self.raw >> 28
    }

    pub fn enable(&self) -> (r: bool)
        ensures
            r == self.spec_enable(),
    {
        self.raw & 0x1 != 0
    }

    pub fn overwrite(enable: bool) -> (r: u32)
        ensures
            r == Self::spec_overwrite(enable),
    {
        if enable {
            0x3
        } else {
            0x2
        }
    }
}

/// An overwrite word round-trips the enable flag it was built from, and always
/// carries the key bit.
pub proof fn lemma_fpctrl_overwrite_fields(enable: bool)
    ensures
        (FpCtrl { raw: FpCtrl::spec_overwrite(enable) }).spec_enable() == enable,
        FpCtrl::spec_overwrite(enable) & 0x2 != 0,
{
    assert(0x3u32 & 0x1 != 0 && 0x2u32 & 0x1 == 0 && 0x3u32 & 0x2 != 0 && 0x2u32 & 0x2 != 0)
        by (bit_vector);
}

/// Debug halting control and status register.
#[derive(Clone, Copy, PartialEq, Eq, Structural, Debug)]
pub struct Dhcsr {
    pub raw: u32,
}

impl Dhcsr {
    /// Sticky reset status, bit 25: reads one if a reset happened since the
    /// last read, and clears on a read that observes it.
    pub open spec fn spec_s_reset_st(self) -> bool {
        self.raw & 0x0200_0000 != 0
    }

    /// Halted status, bit 17: reads one while the core is halted in debug
    /// state.
    pub open spec fn spec_s_halt(self) -> bool {
        self.raw & 0x0002_0000 != 0
    }

    pub fn new(raw: u32) -> (r: Dhcsr)
        ensures
            r.raw == raw,
    {
        Dhcsr { raw }
    }

    pub fn s_reset_st(&self) -> (r: bool)
        ensures
            r == self.spec_s_reset_st(),
    {
        self.raw & 0x0200_0000 != 0
    }

    pub fn s_halt(&self) -> (r: bool)
        ensures
            r == self.spec_s_halt(),
    {
        self.raw & 0x0002_0000 != 0
    }
}

/// Probe pin drive/select word. Bit 0 is SWCLK/TCK, bit 1 is SWDIO/TMS and
/// bit 7 is nRESET; a set bit in a select word means the probe drives that
/// line, and the matching bit in the output word gives the driven level.
#[derive(Clone, Copy, PartialEq, Eq, Structural, Debug)]
pub struct Pins {
    pub raw: u8,
}

impl Pins {
    /// SWCLK/TCK level, bit 0.
    pub open spec fn spec_swclk_tck(self) -> bool {
        self.raw & 0x01 != 0
    }

    /// SWDIO/TMS level, bit 1.
    pub open spec fn spec_swdio_tms(self) -> bool {
        self.raw & 0x02 != 0
    }

    /// nRESET level, bit 7.
    pub open spec fn spec_nreset(self) -> bool {
        self.raw & 0x80 != 0
    }

    pub fn new(raw: u8) -> (r: Pins)
        ensures
            r.raw == raw,
    {
        Pins { raw }
    }

    pub fn nreset(&self) -> (r: bool)
        ensures
            r == self.spec_nreset(),
    {
        self.raw & 0x80 != 0
    }
}

/// Select word naming the three lines this sequence drives: nRESET, and the
/// TCK/TMS pair that the chip latches into the hardware boot-mode field at
/// power-on reset.
pub const RESET_PIN_SELECT: u8 = 0x83;

/// Output word holding the target in reset: nRESET low, and TCK low with TMS
/// high so that the latched hardware boot mode reads as normal boot
/// (the field latches as [TCK, not TMS]).
pub const RESET_ASSERT_OUTPUT: u8 = 0x02;

/// Output word releasing the target from reset: nRESET high, TCK and TMS held
/// at the same normal-boot pattern as during the assert.
pub const RESET_DEASSERT_OUTPUT: u8 = 0x82;

/// The pin words above spell out exactly the lines and levels they are
/// documented to: all three lines selected; nRESET low while asserted and high
/// while deasserted; TCK low and TMS high throughout.
pub proof fn lemma_reset_pin_words()
    ensures
        (Pins { raw: RESET_PIN_SELECT }).spec_nreset(),
        (Pins { raw: RESET_PIN_SELECT }).spec_swclk_tck(),
        (Pins { raw: RESET_PIN_SELECT }).spec_swdio_tms(),
        !(Pins { raw: RESET_ASSERT_OUTPUT }).spec_nreset(),
        !(Pins { raw: RESET_ASSERT_OUTPUT }).spec_swclk_tck(),
        (Pins { raw: RESET_ASSERT_OUTPUT }).spec_swdio_tms(),
        (Pins { raw: RESET_DEASSERT_OUTPUT }).spec_nreset(),
        !(Pins { raw: RESET_DEASSERT_OUTPUT }).spec_swclk_tck(),
        (Pins { raw: RESET_DEASSERT_OUTPUT }).spec_swdio_tms(),
{
    assert(0x83u8 & 0x80 != 0 && 0x83u8 & 0x01 != 0 && 0x83u8 & 0x02 != 0 && 0x02u8 & 0x80 == 0
        && 0x02u8 & 0x01 == 0 && 0x02u8 & 0x02 != 0 && 0x82u8 & 0x80 != 0 && 0x82u8 & 0x01 == 0
        && 0x82u8 & 0x02 != 0) by (bit_vector);
}

} // verus!
