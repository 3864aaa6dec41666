//! Rounding of 16.16 (and 32.32) fixed-point values to the nearest integer,
//! with ties rounded up.
use vstd::prelude::*;

verus! {

/// One fixed-point unit: 16.16 format.
pub const FIXED_ONE: i32 = 65536;

/// Nearest-integer rounding of a 16.16 value: `floor(v / 65536 + 0.5)`.
pub open spec fn xp_round(v: int) -> int {
    (v + 32768) / 65536
}

/// Nearest-integer rounding of a 32.32 value.
pub open spec fn xp_round_wide(v: int) -> int {
    (v + 0x8000_0000) / 0x1_0000_0000
}

proof fn lemma_shr16(w: i32)
    ensures
        (w >> 16u32) as int == (w as int) / 65536,
{
    assert(0 <= w - (w >> 16u32) * 65536 < 65536) by (bit_vector);
}

proof fn lemma_shr16_wide(w: i128)
    ensures
        (w >> 16u32) as int == (w as int) / 65536,
{
    assert(0 <= w - (w >> 16u32) * 65536 < 65536) by (bit_vector);
}

proof fn lemma_shr32_wide(w: i128)
    ensures
        (w >> 32u32) as int == (w as int) / 0x1_0000_0000,
{
    assert(0 <= w - (w >> 32u32) * 0x1_0000_0000 < 0x1_0000_0000) by (bit_vector);
}

/// Converts a 16.16 fixed-point value to the nearest integer.
pub fn round_xp2i(v: i32) -> (r: i32)
    requires
        v <= i32::MAX - 32768,
    ensures
        r as int == xp_round(v as int),
{
    proof {
        lemma_shr16((v + 32768) as i32);
    }
    (v + 32768) >> 16
}

/// `xp_round` on a wide value.
pub fn round_fixed(v: i128) -> (r: i128)
    requires
        -0x100_0000_0000_0000_0000_0000_0000_0000 <= v <= 0x100_0000_0000_0000_0000_0000_0000_0000,
    ensures
        r as int == xp_round(v as int),
{
    proof {
        lemma_shr16_wide((v + 32768) as i128);
    }
    (v + 32768) >> 16
}

/// `xp_round_wide` on a wide value.
pub fn round_fixed_wide(v: i128) -> (r: i128)
    requires
        -0x100_0000_0000_0000_0000_0000_0000_0000 <= v <= 0x100_0000_0000_0000_0000_0000_0000_0000,
    ensures
        r as int == xp_round_wide(v as int),
{
    proof {
        lemma_shr32_wide((v + 0x8000_0000) as i128);
    }
    (v + 0x8000_0000) >> 32
}

} // verus!
