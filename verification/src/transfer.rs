//! The sRGB transfer function in exact arithmetic, and the proof that the
//! linearization table follows it.
//!
//! A table entry is a binary32 value, so it is a fraction; the transfer
//! function has a fraction for its argument and the exponent 2.4 = 12/5.
//! Whether the two agree to a given tolerance is therefore a question about
//! fifth and twelfth powers of fractions.
use crate::binary32::{
    in_unit_interval, is_nan, lemma_units_increase, lt, one_in_units, units, value, ONE,
};
use crate::consts::sRGB_LOOKUP;
use crate::ratio::{ratio, whole, Ratio};
use vstd::prelude::*;

verus! {

/// The relative tolerance that the table keeps, 2^-21.
pub open spec fn tolerance() -> Ratio {
    ratio(1, 0x20_0000)
}

/// Whether `v` is the root of `power` with the exponent `e`, to within the
/// relative tolerance: `v` is not negative, and `v^e` lies between
/// `((1 - 2^-21) t)^e` and `((1 + 2^-21) t)^e` for the `t` with
/// `t^e = power`.
pub open spec fn near_root(v: Ratio, e: nat, power: Ratio) -> bool {
    let low = whole(1).minus(tolerance());
    let high = whole(1).plus(tolerance());
    whole(0).le(v) && v.pow(e).between(low.pow(e).times(power), high.pow(e).times(power))
}

/// Whether `bits` holds the linear-light intensity of the channel value `c`
/// to within the relative tolerance.
///
/// With `x = c / 255`, the intensity is `x / 12.92` where `x <= 0.04045`,
/// and `((x + 0.055) / 1.055)^2.4` above: the fifth root of the twelfth power
/// of `(x + 0.055) / 1.055`.
pub open spec fn linearizes(c: int, bits: u32) -> bool {
    let x = ratio(c, 255);
    !is_nan(bits) && if x.le(ratio(4045, 100_000)) {
        near_root(value(bits), 1, x.over(ratio(1292, 100)))
    } else {
        near_root(value(bits), 5, x.plus(ratio(55, 1000)).over(ratio(1055, 1000)).pow(12))
    }
}

/// Whether the gamma encoding of `v` is below `bound`.
///
/// The gamma encoding of `v` is `12.92 v` where `v <= 0.0031308`, and
/// `1.055 v^(1/2.4) - 0.055` above. There it is below `bound` exactly when
/// `v^(5/12)` is below `(bound + 0.055) / 1.055`.
pub open spec fn encoding_below(v: Ratio, bound: Ratio) -> bool {
    if v.le(ratio(31308, 10_000_000)) {
        ratio(1292, 100).times(v).lt(bound)
    } else {
        let root = bound.plus(ratio(55, 1000)).over(ratio(1055, 1000));
        whole(0).lt(root) && v.pow(5).lt(root.pow(12))
    }
}

/// Whether gamma encoding takes the value of `bits` to the channel value
/// `c`: 255 times the encoding lies in the half-open interval from
/// `c - 1/2` to `c + 1/2`.
pub open spec fn encodes_to(bits: u32, c: int) -> bool {
    let v = value(bits);
    !is_nan(bits) && whole(0).le(v) && !encoding_below(v, ratio(2 * c - 1, 510))
        && encoding_below(v, ratio(2 * c + 1, 510))
}

/// What the table owes for the channel value `c`: its entry is the
/// intensity of `c`, gamma encoding takes it back to `c`, and it is larger
/// than the entry before it and no larger than the pattern of 1.0.
spec fn entry_sound(c: int) -> bool {
    let bits = sRGB_LOOKUP[c];
    &&& linearizes(c, bits)
    &&& encodes_to(bits, c)
    &&& c > 0 ==> sRGB_LOOKUP[c - 1] < bits
    &&& bits <= ONE
}

/// Whether the entries from `lo` up to, but not including, `hi` are sound.
spec fn entries_sound(lo: int, hi: int) -> bool
    decreases hi - lo,
{
    lo >= hi || (entry_sound(hi - 1) && entries_sound(lo, hi - 1))
}

/// Both halves of the table are sound, as evaluating every entry shows.
proof fn lemma_entries_sound()
    ensures
        entries_sound(0, 128),
        entries_sound(128, 256),
{
    assert(entries_sound(0, 128)) by (bit_vector);
    assert(entries_sound(128, 256)) by (bit_vector);
}

/// A sound range holds only sound entries.
proof fn lemma_entry_in_range(lo: int, hi: int, c: int)
    requires
        entries_sound(lo, hi),
        lo <= c < hi,
    ensures
        entry_sound(c),
    decreases hi - lo,
{
    if c < hi - 1 {
        lemma_entry_in_range(lo, hi - 1, c);
    }
}

/// Every entry of the table is sound.
proof fn lemma_entry_sound(c: u8)
    ensures
        entry_sound(c as int),
{
    lemma_entries_sound();
    if c < 128 {
        lemma_entry_in_range(0, 128, c as int);
    } else {
        lemma_entry_in_range(128, 256, c as int);
    }
}

/// The pattern that the table holds for a channel value.
pub open spec fn linear_bits(c: u8) -> u32 {
    sRGB_LOOKUP[c as int]
}

/// Each entry of the table is the linear-light intensity of its channel
/// value, to within the tolerance.
pub proof fn lemma_table_accurate(c: u8)
    ensures
        linearizes(c as int, linear_bits(c)),
{
    lemma_entry_sound(c);
}

/// Linearizing a channel value and gamma-encoding the result gives the
/// channel value back, for all 256 of them.
pub proof fn lemma_table_round_trip(c: u8)
    ensures
        encodes_to(linear_bits(c), c as int),
{
    lemma_entry_sound(c);
}

/// A larger channel value has a larger linear-light intensity.
pub proof fn lemma_table_increasing(a: u8, b: u8)
    requires
        a < b,
    ensures
        linear_bits(a) < linear_bits(b) < 0x8000_0000,
        lt(linear_bits(a), linear_bits(b)),
    decreases b - a,
{
    lemma_entry_sound(b);
    if a < b - 1 {
        lemma_table_increasing(a, (b - 1) as u8);
    }
    lemma_units_increase(linear_bits(a), linear_bits(b));
}

/// Every intensity lies between 0.0, which the channel value 0 has, and
/// 1.0, which the channel value 255 has.
pub proof fn lemma_table_normalized(c: u8)
    ensures
        linear_bits(0) == 0,
        linear_bits(255) == ONE,
        in_unit_interval(linear_bits(c)),
{
    assert(units(0) == 0 && units(ONE) == one_in_units()) by (bit_vector);
    lemma_entry_sound(c);
    if 0 < linear_bits(c) {
        lemma_units_increase(0, linear_bits(c));
    }
    if linear_bits(c) < ONE {
        lemma_units_increase(linear_bits(c), ONE);
    }
}

} // verus!
