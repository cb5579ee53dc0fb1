//! Bit-field utilities: masks for a `[lsb, msb]` bit range of a 16-bit
//! word, field extraction, zero extension and sign extension.

use vstd::prelude::*;

verus! {

/// The mask covering bit positions `lsb..=msb` of a 16-bit word.
pub open spec fn bit_mask(lsb: usize, msb: usize) -> u16
    recommends
        lsb <= msb < 16,
{
    ((((1u32 << ((msb - lsb + 1) as u32)) - 1) as u32) << (lsb as u32)) as u16
}

/// The field `bits[lsb..=msb]`, shifted down to position 0.
pub open spec fn spec_field(w: u16, lsb: usize, msb: usize) -> u16
    recommends
        lsb <= msb < 16,
{
    (w & bit_mask(lsb, msb)) >> (lsb as u16)
}

/// Bit `i` of `w`.
pub open spec fn spec_bit(w: u16, i: usize) -> bool
    recommends
        i < 16,
{
    (w >> (i as u16)) & 1 == 1
}

/// Sign extension of `bits` from sign bit `msb`: every bit above `msb`
/// becomes a copy of bit `msb`; bits at or below `msb` are unchanged.
pub open spec fn spec_sext16(bits: u16, msb: usize) -> u16
    recommends
        1 <= msb <= 14,
{
    if spec_bit(bits, msb) {
        bits | bit_mask((msb + 1) as usize, 15)
    } else {
        bits & !bit_mask((msb + 1) as usize, 15)
    }
}

/// Sign extension, bit by bit: at or below the sign bit the word is
/// unchanged, and every position above it is a copy of the sign bit.
pub proof fn lemma_sext16_bits(bits: u16, msb: usize, i: usize)
    requires
        1 <= msb <= 14,
        i < 16,
    ensures
        spec_bit(spec_sext16(bits, msb), i) == spec_bit(
            bits,
            if i <= msb {
                i
            } else {
                msb
            },
        ),
{
    let j: usize = if i <= msb {
        i
    } else {
        msb
    };
    assert(spec_bit(spec_sext16(bits, msb), i) == spec_bit(bits, j)) by (bit_vector)
        requires
            1 <= msb <= 14 && i < 16 && (i <= msb ==> j == i) && (i > msb ==> j == msb),
    ;
}

/// Width and mask of the bit range `[lsb, msb]` of a 16-bit word.
pub(crate) fn width_mask(lsb: usize, msb: usize) -> (r: (usize, u16))
    requires
        lsb <= msb < 16,
    ensures
        r.0 == msb - lsb + 1,
        r.1 == bit_mask(lsb, msb),
{
    let width = msb - lsb + 1;
    let w32: u32 = width as u32;
    assert(1u32 << w32 >= 1) by (bit_vector)
        requires
            w32 <= 16,
    ;
    let ones: u32 = 1u32 << w32;
    let mask32: u32 = (ones - 1) << (lsb as u32);
    (width, mask32 as u16)
}

/// The field `value[lsb..=msb]`, shifted down to position 0.
pub fn mask_out(value: u16, lsb: usize, msb: usize) -> (r: u16)
    requires
        lsb <= msb < 16,
    ensures
        r == spec_field(value, lsb, msb),
{
    let (_, mask) = width_mask(lsb, msb);
    (value & mask) >> (lsb as u16)
}

/// `bits` with every position outside `[lsb, msb]` cleared; the field
/// keeps its natural position (no shifting).
pub fn zext16(bits: u16, lsb: usize, msb: usize) -> (r: u16)
    requires
        lsb <= msb < 16,
    ensures
        r == bits & bit_mask(lsb, msb),
{
    let (_, mask) = width_mask(lsb, msb);
    bits & mask
}

/// Sign extension starting from bit `msb` (0-indexed): bit `msb` is
/// replicated into every higher position. Extending from bit 0 is
/// undefined, and at least one bit must lie above the sign bit.
pub fn sext16(bits: u16, msb: usize) -> (r: u16)
    requires
        1 <= msb <= 14,
    ensures
        r == spec_sext16(bits, msb),
{
    let (_, mask) = width_mask(msb + 1, 15);
    if (bits >> (msb as u16)) & 1 == 1 {
        bits | mask
    } else {
        bits & !mask
    }
}

} // verus!
