//! Similarity scores.
//!
//! The vector store reports a similarity as an IEEE-754 binary32 number. A
//! [`Score`] holds such a number by its bit pattern, and orders two of them
//! with integer arithmetic alone. The order is stated over the exact value of
//! each pattern, scaled by 2^149 so that every finite binary32 number becomes
//! an integer.

use vstd::prelude::*;
use vstd::arithmetic::power2::{pow2, lemma_pow2_pos, lemma_pow2_unfold, lemma_pow2_strictly_increases};

verus! {

/// The bit that holds the sign of a binary32 number.
pub const SIGN_BIT: u32 = 0x8000_0000;

/// The magnitude bits of infinity; every larger magnitude is a NaN.
pub const INFINITY_BITS: u32 = 0x7F80_0000;

/// The number of fraction patterns under one exponent: 2^23.
pub const FRACTION_SPAN: u32 = 0x0080_0000;

/// A binary32 number, held by its bit pattern.
///
/// `==` on scores compares bit patterns, so it tells `-0.0` from `0.0`; the
/// numeric order is [`Score::reaches`].
#[derive(Clone, Copy, Debug, PartialEq, Eq, Structural)]
pub struct Score {
    pub bits: u32,
}

impl Score {
    /// The pattern without its sign bit.
    pub open spec fn magnitude_bits(self) -> int {
        if self.bits >= SIGN_BIT {
            self.bits - SIGN_BIT
        } else {
            self.bits as int
        }
    }

    /// Whether the sign bit is set.
    pub open spec fn is_negative(self) -> bool {
        self.bits >= SIGN_BIT
    }

    /// Whether the pattern is one of the NaNs.
    pub open spec fn nan(self) -> bool {
        self.magnitude_bits() > INFINITY_BITS
    }

    /// The biased exponent field.
    pub open spec fn exponent(self) -> int {
        self.magnitude_bits() / (FRACTION_SPAN as int)
    }

    /// The fraction field.
    pub open spec fn fraction(self) -> int {
        self.magnitude_bits() % (FRACTION_SPAN as int)
    }

    /// The absolute value times 2^149.
    ///
    /// A subnormal number is `fraction × 2^-149`; a normal one is
    /// `(2^23 + fraction) × 2^(exponent - 150)`. Infinity gets the value that
    /// the formula for normal numbers gives it, which is above every finite
    /// one.
    pub open spec fn scaled_magnitude(self) -> int {
        if self.exponent() == 0 {
            self.fraction()
        } else {
            (FRACTION_SPAN + self.fraction()) * pow2((self.exponent() - 1) as nat)
        }
    }

    /// The value times 2^149; meaningful where the pattern is no NaN.
    pub open spec fn scaled(self) -> int {
        if self.is_negative() {
            -self.scaled_magnitude()
        } else {
            self.scaled_magnitude()
        }
    }

    /// The place of the pattern among all patterns, in the order of their
    /// values: the magnitude bits, counted down from zero for a negative
    /// number. The two zeros share a place.
    pub open spec fn rank(self) -> int {
        if self.is_negative() {
            -self.magnitude_bits()
        } else {
            self.magnitude_bits()
        }
    }

    /// The binary32 comparison `self >= floor`: false where either is a NaN.
    pub open spec fn at_least(self, floor: Score) -> bool {
        !self.nan() && !floor.nan() && self.scaled() >= floor.scaled()
    }

    /// The binary32 comparison `self < bound`: false where either is a NaN.
    pub open spec fn below(self, bound: Score) -> bool {
        !self.nan() && !bound.nan() && self.scaled() < bound.scaled()
    }

    /// The score with the given bit pattern.
    pub fn from_bits(bits: u32) -> (score: Score)
        ensures
            score.bits == bits,
    {
        Score { bits }
    }

    /// The bit pattern of the score.
    pub fn to_bits(self) -> (bits: u32)
        ensures
            bits == self.bits,
    {
        self.bits
    }

    /// Positive zero, the score of a query that has no neighbour.
    pub fn zero() -> (score: Score)
        ensures
            score.bits == 0,
            !score.nan(),
            score.scaled() == 0,
    {
        Score { bits: 0 }
    }

    /// Whether the pattern is one of the NaNs.
    pub fn is_nan(self) -> (r: bool)
        ensures
            r == self.nan(),
    {
        self.magnitude() > INFINITY_BITS
    }

    /// Whether `self >= floor` as binary32 numbers.
    pub fn reaches(self, floor: Score) -> (r: bool)
        ensures
            r == self.at_least(floor),
    {
        let mine: u32 = self.magnitude();
        let theirs: u32 = floor.magnitude();
        if mine > INFINITY_BITS || theirs > INFINITY_BITS {
            return false;
        }
        proof {
            lemma_magnitude_order(self, floor);
            lemma_magnitude_order(floor, self);
        }
        if self.bits >= SIGN_BIT {
            if floor.bits >= SIGN_BIT {
                mine <= theirs
            } else {
                mine == 0 && theirs == 0
            }
        } else {
            if floor.bits >= SIGN_BIT {
                true
            } else {
                mine >= theirs
            }
        }
    }

    fn magnitude(self) -> (m: u32)
        ensures
            m == self.magnitude_bits(),
    {
        if self.bits >= SIGN_BIT {
            self.bits - SIGN_BIT
        } else {
            self.bits
        }
    }
}

/// The scaled magnitude grows strictly with the magnitude bits, and is zero
/// only for the zero pattern.
pub proof fn lemma_magnitude_order(a: Score, b: Score)
    ensures
        0 <= a.scaled_magnitude(),
        a.magnitude_bits() == 0 <==> a.scaled_magnitude() == 0,
        a.magnitude_bits() < b.magnitude_bits() ==> a.scaled_magnitude() < b.scaled_magnitude(),
        a.magnitude_bits() == b.magnitude_bits() ==> a.scaled_magnitude() == b.scaled_magnitude(),
{
    let span = FRACTION_SPAN as int;
    let (ea, fa) = (a.exponent(), a.fraction());
    let (eb, fb) = (b.exponent(), b.fraction());
    let pa = pow2((ea - 1) as nat) as int;
    let pb = pow2((eb - 1) as nat) as int;
    lemma_pow2_pos((ea - 1) as nat);
    lemma_pow2_pos((eb - 1) as nat);
    assert(0 <= a.scaled_magnitude() && (a.magnitude_bits() == 0 <==> a.scaled_magnitude() == 0)) by {
        if ea != 0 {
            assert((span + fa) * pa >= span + fa) by (nonlinear_arith)
                requires
                    pa >= 1,
                    span + fa >= 0,
            ;
        }
    }
    if a.magnitude_bits() < b.magnitude_bits() {
        if ea == eb {
            if ea != 0 {
                assert((span + fa) * pa < (span + fb) * pa) by (nonlinear_arith)
                    requires
                        pa >= 1,
                        fa < fb,
                ;
            }
        } else {
            assert(ea < eb);
            assert((span + fb) * pb >= span * pb) by (nonlinear_arith)
                requires
                    pb >= 1,
                    fb >= 0,
                    span >= 0,
            ;
            if ea == 0 {
                assert(span * pb >= span) by (nonlinear_arith)
                    requires
                        pb >= 1,
                        span >= 0,
                ;
            } else {
                lemma_pow2_unfold(ea as nat);
                if ea < eb - 1 {
                    lemma_pow2_strictly_increases(ea as nat, (eb - 1) as nat);
                }
                let top = pow2(ea as nat) as int;
                assert(top <= pb);
                assert((span + fa) * pa < span * top) by (nonlinear_arith)
                    requires
                        top == 2 * pa,
                        pa >= 1,
                        fa < span,
                ;
                assert(span * top <= span * pb) by (nonlinear_arith)
                    requires
                        top <= pb,
                        span >= 0,
                ;
            }
        }
    }
}

/// Two numbers are ordered as their ranks are: the comparison of the values
/// comes down to one of the bit patterns.
pub proof fn law_order_is_rank_order(a: Score, b: Score)
    ensures
        a.at_least(b) <==> !a.nan() && !b.nan() && a.rank() >= b.rank(),
        a.below(b) <==> !a.nan() && !b.nan() && a.rank() < b.rank(),
{
    lemma_magnitude_order(a, b);
    lemma_magnitude_order(b, a);
}

/// Of two numbers, one is at least the other, and `<` is the opposite of `>=`.
pub proof fn law_order_is_total(a: Score, b: Score)
    requires
        !a.nan(),
        !b.nan(),
    ensures
        a.at_least(b) || b.at_least(a),
        a.below(b) <==> !a.at_least(b),
{
}

} // verus!
