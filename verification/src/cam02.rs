//! The formulas of the color appearance model on exact fractions: what the
//! constants of the model are held to.
use crate::ratio::{ratio, whole, Ratio};
use vstd::prelude::*;

verus! {

/// Three fractions: a tristimulus value, or the responses of the three
/// cones.
pub struct Triple {
    pub a: Ratio,
    pub b: Ratio,
    pub c: Ratio,
}

/// The decimal fraction of `n` ten-millionths.
pub open spec fn decimal(n: int) -> Ratio {
    ratio(n, 10_000_000)
}

/// One row of a matrix applied to a triple.
pub open spec fn row(a: Ratio, b: Ratio, c: Ratio, of: Triple) -> Ratio {
    a.times(of.a).plus(b.times(of.b)).plus(c.times(of.c))
}

/// The cone responses of a tristimulus value, by the CAT02 matrix.
pub open spec fn cat02(xyz: Triple) -> Triple {
    Triple {
        a: row(decimal(7_328_000), decimal(4_296_000), decimal(-1_624_000), xyz),
        b: row(decimal(-7_036_000), decimal(16_975_000), decimal(61_000), xyz),
        c: row(decimal(30_000), decimal(136_000), decimal(9_834_000), xyz),
    }
}

/// A cone response after chromatic adaptation to the white point:
/// `cone * (y_white * d / cone_white + (1 - d))`.
pub open spec fn adapted(cone: Ratio, cone_white: Ratio, y_white: Ratio, d: Ratio) -> Ratio {
    cone.times(y_white.times(d).over(cone_white).plus(whole(1).minus(d)))
}

/// The Hunt-Pointer-Estevez responses of adapted cone responses.
pub open spec fn hpe(lms: Triple) -> Triple {
    Triple {
        a: row(decimal(7_409_792), decimal(2_180_250), decimal(410_058), lms),
        b: row(decimal(2_853_532), decimal(6_242_014), decimal(904_454), lms),
        c: row(decimal(-96_280), decimal(-56_980), decimal(10_153_260), lms),
    }
}

/// What the nonlinear adaptation raises to the power 0.42:
/// `fl * cone / 100`.
pub open spec fn stimulus(cone: Ratio, fl: Ratio) -> Ratio {
    fl.times(cone).over(whole(100))
}

/// Whether `stimulus^0.42` lies between `low` and `high`: 0.42 is 21/50.
pub open spec fn encloses_power(stimulus: Ratio, low: Ratio, high: Ratio) -> bool {
    stimulus.pow(21).root_between(50, low, high)
}

/// The adapted response for `p = (fl * cone / 100)^0.42`:
/// `400 p / (27.13 + p) + 0.1`.
pub open spec fn compressed(p: Ratio) -> Ratio {
    whole(400).times(p).over(ratio(2713, 100).plus(p)).plus(ratio(1, 10))
}

/// The achromatic response to three adapted responses:
/// `(2 lpa + mpa + 0.05 spa - 0.305) nbb`.
pub open spec fn achromatic_response(responses: Triple, nbb: Ratio) -> Ratio {
    whole(2).times(responses.a).plus(responses.b).plus(ratio(5, 100).times(responses.c)).minus(
        ratio(305, 1000),
    ).times(nbb)
}

/// The term of the exponential series with the index `j`: `x^j / j!`.
pub open spec fn exponential_term(x: Ratio, j: nat) -> Ratio
    decreases j,
{
    if j == 0 {
        whole(1)
    } else {
        exponential_term(x, (j - 1) as nat).times(x).over(whole(j as int))
    }
}

/// The sum of the first `n` terms of the exponential series. For `x`
/// between -1 and 0 the terms alternate and shrink, so that `e^x` lies
/// between any two sums that follow each other.
pub open spec fn exponential_sum(x: Ratio, n: nat) -> Ratio
    decreases n,
{
    if n == 0 {
        whole(0)
    } else {
        exponential_sum(x, (n - 1) as nat).plus(exponential_term(x, (n - 1) as nat))
    }
}

} // verus!
