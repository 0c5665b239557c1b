//! CIECAM02 viewing conditions: an average surround under the D65
//! illuminant. Each constant is a binary32 bit pattern.
//!
//! A constant that is a decimal fraction is the binary32 value of that
//! fraction. A constant that is derived lies within one unit in its last
//! place of its formula, taken exactly at the values that the constants it
//! is derived from hold.
use crate::binary32::{rounds, ulp_value, value, within_ulps, within_ulps_of_all, ONE};
use crate::cam02::{
    achromatic_response, adapted, compressed, encloses_power, exponential_sum, hpe, stimulus, Triple,
};
use crate::consts::{D65_L, D65_M, D65_S, D65_Y};
use crate::ratio::{ratio, whole, Ratio};
use vstd::prelude::*;

verus! {

/// The adapting luminance, (64 / pi) / 5.
pub const la: u32 = 0x4082_6136;

/// The relative luminance of the background, 20.
pub const yb: u32 = 0x41a0_0000;

/// The factor of the degree of adaptation, 1 for an average surround.
pub const f: u32 = ONE;

/// The impact of the surround, 0.69 for an average surround.
pub const c: u32 = 0x3f30_a3d7;

/// The chromatic induction factor, 1 for an average surround.
pub const nc: u32 = ONE;

/// The luminance of the background relative to the white point, yb / Y.
pub const n: u32 = 0x3e4c_cccd;

/// 1 / (5 la + 1).
pub const k: u32 = 0x3d3f_a774;

/// The exponent of the lightness, 1.48 + sqrt(n).
pub const z: u32 = 0x3ff6_aef0;

/// The luminance adaptation factor,
/// 0.2 k^4 (5 la) + 0.1 (1 - k^4)^2 (5 la)^(1/3).
pub const fl: u32 = 0x3e8b_d7c5;

/// The brightness induction factor, 0.725 (1 / n)^0.2.
pub const nbb: u32 = 0x3f80_09f6;

/// The chromatic induction factor of the background, equal to `nbb`.
pub const ncb: u32 = 0x3f80_09f6;

/// The degree of adaptation, f (1 - (1 / 3.6) e^(-(la + 42) / 92)).
pub const d: u32 = 0x3f54_e75e;

/// The achromatic response to the white point.
pub const achromatic_response_to_white: u32 = 0x41cc_20be;

/// The value of `bits` less one unit in its last place.
pub open spec fn one_below(bits: u32) -> Ratio {
    value(bits).minus(ulp_value(bits))
}

/// The value of `bits` and one unit in its last place.
pub open spec fn one_above(bits: u32) -> Ratio {
    value(bits).plus(ulp_value(bits))
}

/// Whether `bits` lies within one unit in its last place of `64 / (5 pi)`,
/// whatever pi is between 3.14159265358979 and 3.14159265358980.
pub open spec fn is_adapting_luminance(bits: u32) -> bool {
    let pi_low = ratio(314_159_265_358_979, 100_000_000_000_000);
    let pi_high = ratio(314_159_265_358_980, 100_000_000_000_000);
    within_ulps_of_all(
        bits,
        whole(1),
        whole(64).over(whole(5).times(pi_high)),
        whole(64).over(whole(5).times(pi_low)),
    )
}

/// Whether `bits` lies within one unit in its last place of
/// `0.2 k^4 w + 0.1 (1 - k^4)^2 w^(1/3)` with `w = 5 la`.
///
/// Solved for the cube root, the formula reads
/// `w^(1/3) = (fl - 0.2 k^4 w) / (0.1 (1 - k^4)^2)`. The cube root lies
/// between what the right-hand side is for `fl` one unit below the value of
/// `bits` and for `fl` one unit above.
pub open spec fn is_luminance_adaptation(bits: u32, k_value: Ratio, la_value: Ratio) -> bool {
    let w = whole(5).times(la_value);
    let k4 = k_value.pow(4);
    let grows = ratio(2, 10).times(k4).times(w);
    let slope = ratio(1, 10).times(whole(1).minus(k4).pow(2));
    w.root_between(
        3,
        one_below(bits).minus(grows).over(slope),
        one_above(bits).minus(grows).over(slope),
    )
}

/// Whether `bits` lies within one unit in its last place of
/// `1.48 + sqrt(n)`.
pub open spec fn is_lightness_exponent(bits: u32, n_value: Ratio) -> bool {
    n_value.root_between(
        2,
        one_below(bits).minus(ratio(148, 100)),
        one_above(bits).minus(ratio(148, 100)),
    )
}

/// Whether `bits` lies within one unit in its last place of
/// `0.725 (1 / n)^0.2`.
pub open spec fn is_induction_factor(bits: u32, n_value: Ratio) -> bool {
    whole(1).over(n_value).root_between(
        5,
        one_below(bits).over(ratio(725, 1000)),
        one_above(bits).over(ratio(725, 1000)),
    )
}

/// Whether `bits` lies within one unit in its last place of
/// `f (1 - e^x / 3.6)` with `x = -(la + 42) / 92`, whatever `e^x` is between
/// the sums of the first 12 and of the first 13 terms of its series.
pub open spec fn is_degree_of_adaptation(bits: u32, f_value: Ratio, la_value: Ratio) -> bool {
    let x = whole(0).minus(la_value.plus(whole(42)).over(whole(92)));
    let low = exponential_sum(x, 12);
    let high = exponential_sum(x, 13);
    within_ulps_of_all(
        bits,
        whole(1),
        f_value.times(whole(1).minus(high.over(ratio(36, 10)))),
        f_value.times(whole(1).minus(low.over(ratio(36, 10)))),
    )
}

/// The Hunt-Pointer-Estevez responses of the white point after its chromatic
/// adaptation, each times `fl / 100`.
pub open spec fn stimuli_of_white() -> Triple {
    let white = Triple { a: value(D65_L), b: value(D65_M), c: value(D65_S) };
    let responses = hpe(
        Triple {
            a: adapted(white.a, white.a, value(D65_Y), value(d)),
            b: adapted(white.b, white.b, value(D65_Y), value(d)),
            c: adapted(white.c, white.c, value(D65_Y), value(d)),
        },
    );
    Triple {
        a: stimulus(responses.a, value(fl)),
        b: stimulus(responses.b, value(fl)),
        c: stimulus(responses.c, value(fl)),
    }
}

/// Whether `bits` lies within one unit in its last place of the achromatic
/// response to the white point.
///
/// The three integers give the powers `stimulus^0.42` of the white point in
/// units of 2^-40, rounded down: each power lies between its integer and the
/// next. The response grows with each power.
pub open spec fn is_response_to_white(bits: u32, pl: int, pm: int, ps: int) -> bool {
    let scale = 0x100_0000_0000int;
    let stimuli = stimuli_of_white();
    let low = Triple {
        a: compressed(ratio(pl, scale)),
        b: compressed(ratio(pm, scale)),
        c: compressed(ratio(ps, scale)),
    };
    let high = Triple {
        a: compressed(ratio(pl + 1, scale)),
        b: compressed(ratio(pm + 1, scale)),
        c: compressed(ratio(ps + 1, scale)),
    };
    &&& encloses_power(stimuli.a, ratio(pl, scale), ratio(pl + 1, scale))
    &&& encloses_power(stimuli.b, ratio(pm, scale), ratio(pm + 1, scale))
    &&& encloses_power(stimuli.c, ratio(ps, scale), ratio(ps + 1, scale))
    &&& within_ulps_of_all(
        bits,
        whole(1),
        achromatic_response(low, value(nbb)),
        achromatic_response(high, value(nbb)),
    )
}

/// The constants of the surround are the binary32 values of their decimal
/// fractions, and `n` is that of `yb / Y`.
pub proof fn lemma_surround()
    ensures
        rounds(yb, whole(20)),
        rounds(f, whole(1)),
        rounds(c, ratio(69, 100)),
        rounds(nc, whole(1)),
        rounds(n, value(yb).over(value(D65_Y))),
{
    assert(rounds(yb, whole(20)) && rounds(f, whole(1)) && rounds(c, ratio(69, 100)) && rounds(
        nc,
        whole(1),
    ) && rounds(n, value(yb).over(value(D65_Y)))) by (bit_vector);
}

/// `la` is (64 / pi) / 5, `k` is 1 / (5 la + 1), and `fl` is
/// 0.2 k^4 (5 la) + 0.1 (1 - k^4)^2 (5 la)^(1/3).
pub proof fn lemma_luminance()
    ensures
        is_adapting_luminance(la),
        within_ulps(k, whole(1), whole(1).over(whole(5).times(value(la)).plus(whole(1)))),
        is_luminance_adaptation(fl, value(k), value(la)),
{
    assert(is_adapting_luminance(la) && within_ulps(
        k,
        whole(1),
        whole(1).over(whole(5).times(value(la)).plus(whole(1))),
    ) && is_luminance_adaptation(fl, value(k), value(la))) by (bit_vector);
}

/// `z` is 1.48 + sqrt(n), and `nbb` and `ncb` are 0.725 (1 / n)^0.2.
pub proof fn lemma_background()
    ensures
        is_lightness_exponent(z, value(n)),
        is_induction_factor(nbb, value(n)),
        ncb == nbb,
{
    assert(is_lightness_exponent(z, value(n)) && is_induction_factor(nbb, value(n)))
        by (bit_vector);
}

/// `d` is f (1 - (1 / 3.6) e^(-(la + 42) / 92)).
pub proof fn lemma_degree_of_adaptation()
    ensures
        is_degree_of_adaptation(d, value(f), value(la)),
{
    assert(is_degree_of_adaptation(d, value(f), value(la))) by (bit_vector);
}

/// `achromatic_response_to_white` is the achromatic response of the white
/// point: of its cone responses after chromatic adaptation, the
/// Hunt-Pointer-Estevez matrix and the nonlinear adaptation.
pub proof fn lemma_achromatic_response_to_white()
    ensures
        is_response_to_white(
            achromatic_response_to_white,
            0x94_26f8_dd38,
            0x94_9729_a085,
            0x95_5b29_a32f,
        ),
{
    assert(is_response_to_white(
        achromatic_response_to_white,
        0x94_26f8_dd38,
        0x94_9729_a085,
        0x95_5b29_a32f,
    )) by (bit_vector);
}

} // verus!
