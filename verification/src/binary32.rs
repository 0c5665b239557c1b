//! An exact model of IEEE 754 binary32 values, given by their bit patterns.
//!
//! Every finite binary32 value is a whole multiple of 2^-149, so the model
//! counts in that unit: a value is an integer number of units, and the
//! fraction of that number over 2^149.
use crate::ratio::{ratio, Ratio};
use vstd::prelude::*;

verus! {

/// The pattern of positive infinity; every larger magnitude is a NaN.
pub const INFINITY: u32 = 0x7f80_0000;

/// The pattern of 1.0.
pub const ONE: u32 = 0x3f80_0000;

/// Two to the power `n`.
pub open spec fn power_of_two(n: nat) -> int
    decreases n,
{
    if n == 0 {
        1
    } else {
        2 * power_of_two((n - 1) as nat)
    }
}

/// The pattern without its sign bit.
pub open spec fn magnitude(bits: u32) -> int {
    bits as int % 0x8000_0000
}

/// Whether the sign bit is set.
pub open spec fn is_negative(bits: u32) -> bool {
    bits >= 0x8000_0000
}

/// Whether the pattern encodes no number.
pub open spec fn is_nan(bits: u32) -> bool {
    magnitude(bits) > 0x7f80_0000
}

/// Whether the pattern encodes a number other than an infinity.
pub open spec fn is_finite(bits: u32) -> bool {
    magnitude(bits) < 0x7f80_0000
}

/// The eight exponent bits.
pub open spec fn exponent_field(bits: u32) -> int {
    magnitude(bits) / 0x80_0000
}

/// The twenty-three fraction bits.
pub open spec fn fraction_field(bits: u32) -> int {
    magnitude(bits) % 0x80_0000
}

/// The significand as an integer: the fraction bits, with the hidden bit in
/// front for a normal number.
pub open spec fn significand(bits: u32) -> int {
    if exponent_field(bits) == 0 {
        fraction_field(bits)
    } else {
        0x80_0000 + fraction_field(bits)
    }
}

/// The weight of the last significand bit, in units of 2^-149.
pub open spec fn ulp(bits: u32) -> int {
    if exponent_field(bits) == 0 {
        1
    } else {
        power_of_two((exponent_field(bits) - 1) as nat)
    }
}

/// The encoded value in units of 2^-149: the value is `units(bits) / 2^149`.
///
/// An infinity gets the value that its exponent would give a finite number,
/// 2^128, which lies beyond every finite value. A NaN has no value; what this
/// function gives for one means nothing.
pub open spec fn units(bits: u32) -> int {
    if is_negative(bits) {
        -(significand(bits) * ulp(bits))
    } else {
        significand(bits) * ulp(bits)
    }
}

/// The number of units in 1.0.
pub open spec fn one_in_units() -> int {
    power_of_two(149)
}

/// The order `<` of binary32: false when either side is a NaN, and the order
/// of the values otherwise (so that -0.0 is not below 0.0).
pub open spec fn lt(a: u32, b: u32) -> bool {
    !is_nan(a) && !is_nan(b) && units(a) < units(b)
}

/// Whether `bits` holds a value from 0.0 to 1.0.
pub open spec fn in_unit_interval(bits: u32) -> bool {
    !is_nan(bits) && 0 <= units(bits) <= one_in_units()
}

/// The encoded value as a fraction.
pub open spec fn value(bits: u32) -> Ratio {
    ratio(units(bits), one_in_units())
}

/// The weight of the last significand bit as a fraction.
pub open spec fn ulp_value(bits: u32) -> Ratio {
    ratio(ulp(bits), one_in_units())
}

/// Whether `bits` is finite and no further than `k` units in its last place
/// from any number between `low` and `high`, of which there are some.
pub open spec fn within_ulps_of_all(bits: u32, k: Ratio, low: Ratio, high: Ratio) -> bool {
    let reach = k.times(ulp_value(bits));
    is_finite(bits) && low.le(high) && value(bits).minus(reach).le(low) && high.le(
        value(bits).plus(reach),
    )
}

/// Whether `bits` is finite and no further from `target` than `k` units in
/// its last place.
pub open spec fn within_ulps(bits: u32, k: Ratio, target: Ratio) -> bool {
    within_ulps_of_all(bits, k, target, target)
}

/// Whether `bits` is finite and lies within half a unit in its last place of
/// `target`: no other binary32 value of its exponent is nearer.
pub open spec fn rounds(bits: u32, target: Ratio) -> bool {
    within_ulps(bits, ratio(1, 2), target)
}

/// A power of two is positive, and a larger exponent gives a larger power.
pub proof fn lemma_power_of_two_increases(m: nat, n: nat)
    requires
        m <= n,
    ensures
        0 < power_of_two(m) <= power_of_two(n),
        m < n ==> 2 * power_of_two(m) <= power_of_two(n),
    decreases n,
{
    if m < n {
        lemma_power_of_two_increases(m, (n - 1) as nat);
    } else if n > 0 {
        lemma_power_of_two_increases((m - 1) as nat, (n - 1) as nat);
    }
}

/// The last significand bit always weighs at least one unit.
pub proof fn lemma_ulp_positive(bits: u32)
    ensures
        0 < ulp(bits),
{
    if exponent_field(bits) != 0 {
        let e = (exponent_field(bits) - 1) as nat;
        lemma_power_of_two_increases(e, e);
    }
}

/// Among patterns without a sign bit, a larger pattern has a larger value.
pub proof fn lemma_units_increase(a: u32, b: u32)
    requires
        a < b < 0x8000_0000,
    ensures
        0 <= units(a) < units(b),
{
    let ea = exponent_field(a);
    let eb = exponent_field(b);
    assert(a == ea * 0x80_0000 + fraction_field(a));
    assert(b == eb * 0x80_0000 + fraction_field(b));
    lemma_ulp_positive(a);
    lemma_ulp_positive(b);
    assert(0 <= significand(a) * ulp(a)) by (nonlinear_arith)
        requires
            0 <= significand(a),
            0 < ulp(a),
    ;
    if ea == eb {
        assert(significand(a) * ulp(a) < significand(b) * ulp(b)) by (nonlinear_arith)
            requires
                significand(a) < significand(b),
                ulp(a) == ulp(b),
                0 < ulp(a),
        ;
    } else if ea == 0 {
        // A subnormal number stays below the smallest normal one.
        assert(significand(a) * ulp(a) < significand(b) * ulp(b)) by (nonlinear_arith)
            requires
                0 <= significand(a) < 0x80_0000,
                ulp(a) == 1,
                0x80_0000 <= significand(b),
                1 <= ulp(b),
        ;
    } else {
        // a's value stays below the next power of two, which b's reaches.
        lemma_power_of_two_increases((ea - 1) as nat, (eb - 1) as nat);
        assert(significand(a) * ulp(a) < significand(b) * ulp(b)) by (nonlinear_arith)
            requires
                0 <= significand(a) < 0x100_0000,
                0x80_0000 <= significand(b),
                0 < ulp(a),
                2 * ulp(a) <= ulp(b),
        ;
    }
}

/// The absolute value grows with the magnitude bits, whatever the sign, and
/// is zero for the two zeros alone.
pub proof fn lemma_magnitude_order(a: u32, b: u32)
    ensures
        magnitude(a) < magnitude(b) ==> significand(a) * ulp(a) < significand(b) * ulp(b),
        magnitude(a) == magnitude(b) ==> significand(a) * ulp(a) == significand(b) * ulp(b),
        0 <= significand(a) * ulp(a),
        magnitude(a) == 0 <==> significand(a) * ulp(a) == 0,
{
    let pa: u32 = (a % 0x8000_0000) as u32;
    let pb: u32 = (b % 0x8000_0000) as u32;
    assert(magnitude(pa) == magnitude(a));
    assert(magnitude(pb) == magnitude(b));
    lemma_ulp_positive(a);
    assert(0 <= significand(a) * ulp(a)) by (nonlinear_arith)
        requires
            0 <= significand(a),
            0 < ulp(a),
    ;
    if pa < pb {
        lemma_units_increase(pa, pb);
    }
    if pa == 0 {
        assert(significand(a) == 0);
    } else {
        assert(significand(0) == 0);
        lemma_units_increase(0, pa);
    }
}

/// Masking the sign bit away leaves the magnitude.
proof fn lemma_mask_is_magnitude(bits: u32)
    by (bit_vector)
    ensures
        bits & 0x7fff_ffff == bits % 0x8000_0000,
{
}

/// Decides `a < b` for two binary32 values, as the hardware does.
pub fn less_than(a: u32, b: u32) -> (r: bool)
    ensures
        r == lt(a, b),
{
    let ma: u32 = a & 0x7fff_ffff;
    let mb: u32 = b & 0x7fff_ffff;
    proof {
        lemma_mask_is_magnitude(a);
        lemma_mask_is_magnitude(b);
        lemma_magnitude_order(a, b);
        lemma_magnitude_order(b, a);
    }
    if ma > INFINITY || mb > INFINITY {
        false
    } else if a >= 0x8000_0000 {
        if b >= 0x8000_0000 {
            ma > mb
        } else {
            ma != 0 || mb != 0
        }
    } else {
        b < 0x8000_0000 && ma < mb
    }
}

} // verus!
