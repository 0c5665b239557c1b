//! Conversions of single channels.
use crate::binary32::in_unit_interval;
use crate::consts::sRGB_LOOKUP;
use crate::transfer::{lemma_table_accurate, lemma_table_normalized, linear_bits, linearizes};
use vstd::prelude::*;

verus! {

/// The linear-light intensity of an 8-bit sRGB channel value, as a binary32
/// bit pattern.
///
/// The result is the table's entry for `c`. It is a value from 0.0 to 1.0
/// that agrees with the sRGB transfer function at `c / 255` to within one
/// part in 2^21.
pub fn linearize_channel(c: u8) -> (bits: u32)
    ensures
        bits == linear_bits(c),
        linearizes(c as int, bits),
        in_unit_interval(bits),
{
    proof {
        lemma_table_accurate(c);
        lemma_table_normalized(c);
    }
    sRGB_LOOKUP[c as usize]
}

} // verus!
