use vstd::prelude::*;

verus! {

/// What is left of a 32-bit value under a mask has no bit outside the mask.
pub proof fn masked_has_no_other_bits_u32(bits: u32, mask: u32)
    by (bit_vector)
    ensures
        (bits & mask) & !mask == 0,
        mask & mask == mask,
        0u32 & !mask == 0,
{
}

/// What is left of a 16-bit value under a mask has no bit outside the mask.
pub proof fn masked_has_no_other_bits_u16(bits: u16, mask: u16)
    by (bit_vector)
    ensures
        (bits & mask) & !mask == 0,
        mask & mask == mask,
        0u16 & !mask == 0,
{
}

} // verus!
