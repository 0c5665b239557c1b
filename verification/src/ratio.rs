//! Exact fractions, in which the specifications state their formulas.
use vstd::prelude::*;

verus! {

/// The fraction `num / den`.
///
/// A fraction is proper when its denominator is positive. The four
/// operations make proper fractions of proper ones, but for a division by
/// zero; and no fraction that is not proper is equal to, below or above
/// anything.
pub struct Ratio {
    pub num: int,
    pub den: int,
}

/// The fraction `num / den`.
pub open spec fn ratio(num: int, den: int) -> Ratio {
    Ratio { num, den }
}

/// The whole number `n`.
pub open spec fn whole(n: int) -> Ratio {
    Ratio { num: n, den: 1 }
}

impl Ratio {
    /// Whether the denominator is positive.
    pub open spec fn is_proper(self) -> bool {
        self.den > 0
    }

    /// The sum.
    pub open spec fn plus(self, other: Ratio) -> Ratio {
        Ratio { num: self.num * other.den + other.num * self.den, den: self.den * other.den }
    }

    /// The difference.
    pub open spec fn minus(self, other: Ratio) -> Ratio {
        Ratio { num: self.num * other.den - other.num * self.den, den: self.den * other.den }
    }

    /// The product.
    pub open spec fn times(self, other: Ratio) -> Ratio {
        Ratio { num: self.num * other.num, den: self.den * other.den }
    }

    /// The quotient.
    pub open spec fn over(self, other: Ratio) -> Ratio {
        if other.num < 0 {
            Ratio { num: -(self.num * other.den), den: -(self.den * other.num) }
        } else {
            Ratio { num: self.num * other.den, den: self.den * other.num }
        }
    }

    /// The power with the exponent `n`.
    pub open spec fn pow(self, n: nat) -> Ratio
        decreases n,
    {
        if n == 0 {
            whole(1)
        } else {
            self.times(self.pow((n - 1) as nat))
        }
    }

    /// Whether the two fractions are the same number.
    pub open spec fn same(self, other: Ratio) -> bool {
        self.is_proper() && other.is_proper() && self.num * other.den == other.num * self.den
    }

    /// Whether `self <= other`.
    pub open spec fn le(self, other: Ratio) -> bool {
        self.is_proper() && other.is_proper() && self.num * other.den <= other.num * self.den
    }

    /// Whether `self < other`.
    pub open spec fn lt(self, other: Ratio) -> bool {
        self.is_proper() && other.is_proper() && self.num * other.den < other.num * self.den
    }

    /// Whether the root of `self` with the exponent `e` lies between `low`
    /// and `high`, neither of them negative.
    pub open spec fn root_between(self, e: nat, low: Ratio, high: Ratio) -> bool {
        whole(0).le(low) && low.le(high) && low.pow(e).le(self) && self.le(high.pow(e))
    }

    /// Whether `self` lies between `low` and `high`, the two included.
    pub open spec fn between(self, low: Ratio, high: Ratio) -> bool {
        low.le(self) && self.le(high)
    }
}

} // verus!
