//! Exact fractions of machine integers.

use vstd::prelude::*;

verus! {

/// The fraction `numerator / denominator`.
///
/// Every tabulated quantity of the model is a decimal with a few digits, and
/// is held here digit for digit: `0.205635` is `205635 / 1000000`. A caller
/// that computes in double precision divides the two integers; where the
/// fraction [is exact in double precision](Rational::is_double_exact) that
/// one division gives the double nearest to the fraction.
///
/// The derived `==` compares the two fields: `1/2` and `2/4` are different
/// representations of one value, see [`Rational::same_value`].
#[derive(Clone, Copy, Debug, PartialEq, Eq, Structural)]
pub struct Rational {
    pub numerator: i64,
    pub denominator: u64,
}

impl Rational {
    /// A fraction denotes a number when its denominator is not zero.
    pub open spec fn wf(self) -> bool {
        self.denominator > 0
    }

    /// The fraction denotes a number greater than zero.
    pub open spec fn is_positive(self) -> bool {
        self.wf() && self.numerator > 0
    }

    /// The fraction denotes a number that is zero or greater.
    pub open spec fn is_non_negative(self) -> bool {
        self.wf() && self.numerator >= 0
    }

    /// The two fractions denote the same number.
    pub open spec fn same_value(self, other: Rational) -> bool {
        self.numerator * other.denominator == other.numerator * self.denominator
    }

    /// Numerator and denominator are below `2^53` in magnitude and the
    /// denominator is not zero: both are integers that double precision
    /// holds without rounding, so that their correctly rounded quotient is
    /// the double nearest to the fraction.
    pub open spec fn is_double_exact(self) -> bool {
        &&& self.wf()
        &&& -0x20_0000_0000_0000 < self.numerator < 0x20_0000_0000_0000
        &&& self.denominator < 0x20_0000_0000_0000
    }
}

} // verus!
