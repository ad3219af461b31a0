//! Boot-mode resolution: computing the true first application instruction and
//! the comparator word that breaks on it.
//!
//! The boot ROM's vector table sits at address zero, so the reset vector is
//! not application code. For a normal boot the firmware hands control to the
//! address stored in the flash vector slot; the software boot-mode field must
//! therefore read as normal boot before the reset, and the breakpoint target
//! is the slot's content with the thumb bit set.

use vstd::prelude::*;

use crate::error::SequenceError;
use crate::registers::Stcon;

verus! {

/// Lowest address a revision-1 comparator cannot match: its comparator field
/// only covers bits 28..=2 of the address, with the top bits fixed at zero.
pub const REV1_COMPARATOR_LIMIT: u32 = 0x2000_0000;

/// The startup-configuration word with its software boot-mode field forced to
/// normal boot and every other bit — the hardware field included — unchanged.
pub open spec fn spec_normalized_stcon(raw: u32) -> u32 {
    raw & 0xFFFF_F0FF
}

pub fn normalized_stcon(raw: u32) -> (r: u32)
    ensures
        r == spec_normalized_stcon(raw),
{
    raw & 0xFFFF_F0FF
}

/// Normalization clears exactly the software field: the result always reads
/// as normal boot, the hardware field and all other bits survive, a word
/// already normal is left bit-identical, and normalizing twice changes
/// nothing more than once.
pub proof fn lemma_normalized_stcon(raw: u32)
    ensures
        (Stcon { raw: spec_normalized_stcon(raw) }).spec_swcon() == 0,
        (Stcon { raw: spec_normalized_stcon(raw) }).spec_hwcon() == (Stcon { raw }).spec_hwcon(),
        (Stcon { raw }).spec_swcon() == 0 ==> spec_normalized_stcon(raw) == raw,
        spec_normalized_stcon(spec_normalized_stcon(raw)) == spec_normalized_stcon(raw),
{
    assert((((raw & 0xFFFF_F0FF) >> 8) & 0xF) == 0 && ((raw & 0xFFFF_F0FF) & 0x3) == (raw & 0x3)
        && (((raw >> 8) & 0xF) == 0 ==> (raw & 0xFFFF_F0FF) == raw) && ((raw & 0xFFFF_F0FF)
        & 0xFFFF_F0FF) == (raw & 0xFFFF_F0FF)) by (bit_vector);
}

/// The breakpoint target for a vector-slot word: the stored handler address
/// with its low bit set, marking thumb instruction mode as the architecture
/// requires of a code address. The stored address itself is 2-byte aligned,
/// so for it the target is simply the address plus one.
pub open spec fn spec_application_entry(vector: u32) -> u32 {
    vector | 0x1
}

pub fn application_entry(vector: u32) -> (r: u32)
    ensures
        r == spec_application_entry(vector),
        vector % 2 == 0 ==> r == vector + 1,
{
    proof {
        assert(vector % 2 == 0 ==> (vector | 0x1) == vector + 1) by (bit_vector);
    }
    vector | 0x1
}

/// Comparator word of a revision-1 breakpoint unit for the given target:
/// bits 31..=30 select which halfword of the matched word the breakpoint
/// applies to (bit 1 of the target decides), bits 28..=2 hold the word
/// address, and bit 0 enables the comparator. Only meaningful below
/// [`REV1_COMPARATOR_LIMIT`].
pub open spec fn spec_rev1_comparator(target: u32) -> u32 {
    (if target & 0x2 == 0 {
        0x4000_0000u32
    } else {
        0x8000_0000u32
    }) | (target & 0x1FFF_FFFC) | 0x1
}

/// Comparator word of a revision-2 breakpoint unit for the given target:
/// bits 31..=1 hold the halfword address directly and bit 0 enables the
/// comparator.
pub open spec fn spec_rev2_comparator(target: u32) -> u32 {
    (target & 0xFFFF_FFFE) | 0x1
}

/// Comparator word for the given breakpoint-unit revision and target.
/// Revision 0 units take the revision-1-style encoding and cannot reach
/// targets at or above [`REV1_COMPARATOR_LIMIT`]; revision 1 units take the
/// revision-2-style encoding; any other revision is unknown to this sequence.
pub open spec fn spec_comparator_for(revision: u32, target: u32) -> Result<u32, SequenceError> {
    if revision == 0 {
        if target < REV1_COMPARATOR_LIMIT {
            Ok(spec_rev1_comparator(target))
        } else {
            Err(SequenceError::UnsupportedBreakpointAddress(target))
        }
    } else if revision == 1 {
        Ok(spec_rev2_comparator(target))
    } else {
        Err(SequenceError::UnsupportedHardwareRevision(revision))
    }
}

pub fn comparator_for(revision: u32, target: u32) -> (r: Result<u32, SequenceError>)
    ensures
        r == spec_comparator_for(revision, target),
{
    if revision == 0 {
        if target < REV1_COMPARATOR_LIMIT {
            let half: u32 = if target & 0x2 == 0 {
                0x4000_0000
            } else {
                0x8000_0000
            };
            Ok(half | (target & 0x1FFF_FFFC) | 0x1)
        } else {
            Err(SequenceError::UnsupportedBreakpointAddress(target))
        }
    } else if revision == 1 {
        Ok((target & 0xFFFF_FFFE) | 0x1)
    } else {
        Err(SequenceError::UnsupportedHardwareRevision(revision))
    }
}

} // verus!
