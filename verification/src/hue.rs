//! The branches of the hue quadrature.
//!
//! The hue quadrature interpolates between the four unique hues. Which pair
//! of them a hue angle lies between is decided here; the angle is a binary32
//! value in degrees.
use crate::binary32::{is_nan, less_than, lt, rounds, units};
use crate::ratio::{ratio, whole, Ratio};
use vstd::prelude::*;

verus! {

/// The hue angle of unique red, 20.14 degrees.
pub const RED_HUE: u32 = 0x41a1_1eb8;

/// The hue angle of unique yellow, 90 degrees.
pub const YELLOW_HUE: u32 = 0x42b4_0000;

/// The hue angle of unique green, 164.25 degrees.
pub const GREEN_HUE: u32 = 0x4324_4000;

/// The hue angle of unique blue, 237.53 degrees.
pub const BLUE_HUE: u32 = 0x436d_87ae;

/// A stretch of the hue circle on which the hue quadrature is one formula.
#[derive(Debug, Clone, Copy, PartialEq, Eq, Structural)]
pub enum HueBranch {
    /// Below unique red: the upper part of the stretch from blue to red,
    /// which reaches round the circle past 0 degrees.
    BelowRed,
    /// From unique red up to unique yellow.
    RedToYellow,
    /// From unique yellow up to unique green.
    YellowToGreen,
    /// From unique green up to unique blue.
    GreenToBlue,
    /// From unique blue on.
    FromBlue,
}

/// The branch of a hue angle: the first, in ascending order of the unique
/// hues, whose upper end the angle is strictly below, and the last where
/// there is none. An angle equal to a unique hue belongs to the branch that
/// starts there. A NaN is below nothing.
pub open spec fn branch_of(h: u32) -> HueBranch {
    if lt(h, RED_HUE) {
        HueBranch::BelowRed
    } else if lt(h, YELLOW_HUE) {
        HueBranch::RedToYellow
    } else if lt(h, GREEN_HUE) {
        HueBranch::YellowToGreen
    } else if lt(h, BLUE_HUE) {
        HueBranch::GreenToBlue
    } else {
        HueBranch::FromBlue
    }
}

/// Decides which formula of the hue quadrature applies to the hue angle `h`.
pub fn hue_branch(h: u32) -> (branch: HueBranch)
    ensures
        branch == branch_of(h),
{
    if less_than(h, RED_HUE) {
        HueBranch::BelowRed
    } else if less_than(h, YELLOW_HUE) {
        HueBranch::RedToYellow
    } else if less_than(h, GREEN_HUE) {
        HueBranch::YellowToGreen
    } else if less_than(h, BLUE_HUE) {
        HueBranch::GreenToBlue
    } else {
        HueBranch::FromBlue
    }
}

/// The hue quadrature of the hue angle `h` by the formula of a branch, in
/// exact arithmetic.
///
/// Each formula places `h` between the unique hue below it and the one
/// above, the distance to either divided by the eccentricity of that hue
/// (0.8 for red, 0.7 for yellow, 1.0 for green, 1.2 for blue), and adds the
/// share of the lower distance, out of 100, to the quadrature of the lower
/// hue. Below red the lower hue is blue, 360 degrees back; from blue on the
/// upper hue is red, 360 degrees ahead.
pub open spec fn quadrature(branch: HueBranch, h: Ratio) -> Ratio {
    let (base, from_lower, to_upper) = match branch {
        HueBranch::BelowRed => (
            whole(300),
            h.plus(ratio(12247, 100)).over(ratio(12, 10)),
            ratio(2014, 100).minus(h).over(ratio(8, 10)),
        ),
        HueBranch::RedToYellow => (
            whole(0),
            h.minus(ratio(2014, 100)).over(ratio(8, 10)),
            whole(90).minus(h).over(ratio(7, 10)),
        ),
        HueBranch::YellowToGreen => (
            whole(100),
            h.minus(whole(90)).over(ratio(7, 10)),
            ratio(16425, 100).minus(h).over(whole(1)),
        ),
        HueBranch::GreenToBlue => (
            whole(200),
            h.minus(ratio(16425, 100)).over(whole(1)),
            ratio(23753, 100).minus(h).over(ratio(12, 10)),
        ),
        HueBranch::FromBlue => (
            whole(300),
            h.minus(ratio(23753, 100)).over(ratio(12, 10)),
            whole(360).minus(h).plus(ratio(2014, 100)).over(ratio(8, 10)),
        ),
    };
    base.plus(whole(100).times(from_lower).over(from_lower.plus(to_upper)))
}

/// The four constants are the binary32 values of the unique hues, in
/// ascending order.
pub proof fn lemma_unique_hues()
    ensures
        rounds(RED_HUE, ratio(2014, 100)),
        rounds(YELLOW_HUE, whole(90)),
        rounds(GREEN_HUE, ratio(16425, 100)),
        rounds(BLUE_HUE, ratio(23753, 100)),
        0 < units(RED_HUE) < units(YELLOW_HUE) < units(GREEN_HUE) < units(BLUE_HUE),
{
    assert(rounds(RED_HUE, ratio(2014, 100)) && rounds(YELLOW_HUE, whole(90)) && rounds(
        GREEN_HUE,
        ratio(16425, 100),
    ) && rounds(BLUE_HUE, ratio(23753, 100)) && 0 < units(RED_HUE) < units(YELLOW_HUE) < units(
        GREEN_HUE,
    ) < units(BLUE_HUE)) by (bit_vector);
}

/// The branches split the hue angles without gap or overlap: a number lies
/// in exactly the branch whose two ends enclose it, the lower end included
/// and the upper end not.
pub proof fn lemma_branch_encloses(h: u32)
    requires
        !is_nan(h),
    ensures
        branch_of(h) == HueBranch::BelowRed <==> units(h) < units(RED_HUE),
        branch_of(h) == HueBranch::RedToYellow <==> units(RED_HUE) <= units(h) < units(YELLOW_HUE),
        branch_of(h) == HueBranch::YellowToGreen <==> units(YELLOW_HUE) <= units(h) < units(
            GREEN_HUE,
        ),
        branch_of(h) == HueBranch::GreenToBlue <==> units(GREEN_HUE) <= units(h) < units(BLUE_HUE),
        branch_of(h) == HueBranch::FromBlue <==> units(BLUE_HUE) <= units(h),
{
    lemma_unique_hues();
    assert(!is_nan(RED_HUE) && !is_nan(YELLOW_HUE) && !is_nan(GREEN_HUE) && !is_nan(BLUE_HUE));
}

/// In exact arithmetic the hue quadrature is continuous where its formula
/// changes: at unique yellow, green and blue the formulas of the two
/// branches that meet there agree, and at 360 degrees the last formula
/// agrees with the first at 0 degrees. At unique red the quadrature has come
/// full circle: the formula below gives 400, the one above 0.
pub proof fn lemma_quadrature_continuous()
    ensures
        quadrature(HueBranch::BelowRed, ratio(2014, 100)).same(whole(400)),
        quadrature(HueBranch::RedToYellow, ratio(2014, 100)).same(whole(0)),
        quadrature(HueBranch::RedToYellow, whole(90)).same(
            quadrature(HueBranch::YellowToGreen, whole(90)),
        ),
        quadrature(HueBranch::YellowToGreen, ratio(16425, 100)).same(
            quadrature(HueBranch::GreenToBlue, ratio(16425, 100)),
        ),
        quadrature(HueBranch::GreenToBlue, ratio(23753, 100)).same(
            quadrature(HueBranch::FromBlue, ratio(23753, 100)),
        ),
        quadrature(HueBranch::FromBlue, whole(360)).same(quadrature(HueBranch::BelowRed, whole(0))),
{
    assert(quadrature(HueBranch::BelowRed, ratio(2014, 100)).same(whole(400)) && quadrature(
        HueBranch::RedToYellow,
        ratio(2014, 100),
    ).same(whole(0)) && quadrature(HueBranch::RedToYellow, whole(90)).same(
        quadrature(HueBranch::YellowToGreen, whole(90)),
    ) && quadrature(HueBranch::YellowToGreen, ratio(16425, 100)).same(
        quadrature(HueBranch::GreenToBlue, ratio(16425, 100)),
    ) && quadrature(HueBranch::GreenToBlue, ratio(23753, 100)).same(
        quadrature(HueBranch::FromBlue, ratio(23753, 100)),
    ) && quadrature(HueBranch::FromBlue, whole(360)).same(
        quadrature(HueBranch::BelowRed, whole(0)),
    )) by (bit_vector);
}

} // verus!
