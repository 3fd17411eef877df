//! Phase offsets that desynchronize sectors sharing one light effect.
//!
//! The offset is one step of a linear congruential generator applied to the
//! sector's identifier and cut to its low 16 bits. It depends on nothing but
//! the identifier, so a level looks the same every time it is loaded.

use vstd::prelude::*;

verus! {

/// A sector's identifier within its level.
pub type SectorId = u16;

/// The multiplier of the congruential step.
pub const PHASE_MULTIPLIER: u64 = 1664525;

/// The increment of the congruential step.
pub const PHASE_INCREMENT: u64 = 1013904223;

/// The number of distinct phase offsets: the offsets are `0 .. PHASE_MODULUS`.
pub const PHASE_MODULUS: u64 = 0x1_0000;

/// A phase offset `p` stands for the phase `p / SYNC_SCALE`.
pub const SYNC_SCALE: u16 = 15;

/// The phase offset of the sector `id`, in units of `1 / SYNC_SCALE`.
pub open spec fn phase_of(id: int) -> int {
    (id * PHASE_MULTIPLIER + PHASE_INCREMENT) % (PHASE_MODULUS as int)
}

/// Derives the phase offset of a sector from its identifier. The result is
/// a function of `id` alone.
pub fn id_to_sync(id: SectorId) -> (sync: u16)
    ensures
        sync == phase_of(id as int),
{
    let mixed: u64 = id as u64 * PHASE_MULTIPLIER + PHASE_INCREMENT;
    let low: u64 = mixed & 0xffff;
    assert(low == mixed % 0x1_0000) by (bit_vector)
        requires
            low == mixed & 0xffff,
    ;
    low as u16
}

} // verus!
