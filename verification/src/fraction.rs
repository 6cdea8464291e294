//! Fractions of whole numbers.

use vstd::prelude::*;
use crate::number_utils::{approx_equal_by_class, spec_approx_equal_by_class, NumberClass};

verus! {

/// The largest denominator that the conversions and comparisons of
/// fractions take: with the denominators no larger, all they compute fits
/// 128 bits.
pub const DENOMINATOR_LIMIT: u64 = 0x3fff_ffff;

/// The quotient `num / den` of two whole numbers.
///
/// With the denominator zero it is no finite number: `1/0` stands for
/// infinity, `-1/0` for negative infinity, and `0/0` for no number at all.
///
/// `==` compares the terms, so that `1/2` and `2/4` are different to it;
/// `same_value` compares the values.
#[derive(Clone, Copy, Debug, PartialEq, Eq, Structural, Hash)]
pub struct Fraction {
    pub num: i64,
    pub den: u64,
}

impl Fraction {
    /// The fraction denotes a finite number: its denominator is not zero.
    pub open spec fn well_formed(&self) -> bool {
        self.den > 0
    }

    /// What kind of value the fraction holds.
    pub open spec fn spec_class(&self) -> NumberClass {
        if self.den > 0 {
            NumberClass::Finite
        } else if self.num > 0 {
            NumberClass::Infinity
        } else if self.num < 0 {
            NumberClass::NegInfinity
        } else {
            NumberClass::Nan
        }
    }

    /// Returns what kind of value the fraction holds.
    pub fn class(&self) -> (class: NumberClass)
        ensures
            class == self.spec_class(),
    {
        if self.den > 0 {
            NumberClass::Finite
        } else if self.num > 0 {
            NumberClass::Infinity
        } else if self.num < 0 {
            NumberClass::NegInfinity
        } else {
            NumberClass::Nan
        }
    }

    /// The two fractions have the same value, whatever their terms.
    ///
    /// Two finite fractions have the same value where cross multiplication
    /// gives equal products. An infinity has the same value as an infinity
    /// of its sign, `0/0` the same as `0/0`, and none of them the same as
    /// anything else.
    pub open spec fn spec_same_value(&self, other: Fraction) -> bool {
        spec_approx_equal_by_class(
            self.spec_class(),
            other.spec_class(),
            self.num * other.den == other.num * self.den,
        )
    }

    /// Returns `true` if the two fractions have the same value, as `2/4`
    /// and `1/2` have.
    pub fn same_value(&self, other: &Fraction) -> (same: bool)
        ensures
            same == self.spec_same_value(*other),
    {
        proof {
            lemma_product_fits(self.num, other.den);
            lemma_product_fits(other.num, self.den);
        }
        let left = (self.num as i128) * (other.den as i128);
        let right = (other.num as i128) * (self.den as i128);
        let cross = left == right;
        approx_equal_by_class(self.class(), other.class(), cross)
    }

    /// The distance between the two fractions is less than `epsilon`, all
    /// three taken as finite.
    pub open spec fn spec_within(&self, other: Fraction, epsilon: Fraction) -> bool {
        let difference = self.num * other.den - other.num * self.den;
        let distance = if difference >= 0 {
            difference
        } else {
            -difference
        };
        distance * epsilon.den < epsilon.num * (self.den * other.den)
    }

    /// Whether the two fractions are equal up to `epsilon`.
    ///
    /// Two finite fractions are equal where their distance is less than
    /// `epsilon`. Where one of the two is not finite, `epsilon` does not
    /// count: an infinity equals an infinity of its sign, `0/0` equals
    /// `0/0`, and nothing else is equal.
    pub open spec fn spec_approx_equal(&self, other: Fraction, epsilon: Fraction) -> bool {
        spec_approx_equal_by_class(
            self.spec_class(),
            other.spec_class(),
            self.spec_within(other, epsilon),
        )
    }

    /// Returns `true` if the two fractions are approximately equal
    /// considering the given epsilon.
    ///
    /// `approx_equal(101/100, 102/100, 1/100)` is `false`,
    /// `approx_equal(101/100, 102/100, 1/10)` is `true`. Where one of the
    /// two is not finite the epsilon does not count: `0/0` equals `0/0`, an
    /// infinity equals itself, and nothing else is equal. No denominator
    /// may be above `DENOMINATOR_LIMIT`.
    pub fn approx_equal(&self, other: &Fraction, epsilon: &Fraction) -> (equal: bool)
        requires
            self.den <= DENOMINATOR_LIMIT,
            other.den <= DENOMINATOR_LIMIT,
            epsilon.den <= DENOMINATOR_LIMIT,
        ensures
            equal == self.spec_approx_equal(*other, *epsilon),
    {
        proof {
            lemma_within_fits(*self, *other, *epsilon);
        }
        let left = (self.num as i128) * (other.den as i128);
        let right = (other.num as i128) * (self.den as i128);
        let distance = if left >= right {
            left - right
        } else {
            right - left
        };
        let scale = (self.den as i128) * (other.den as i128);
        let within = distance * (epsilon.den as i128) < (epsilon.num as i128) * scale;
        approx_equal_by_class(self.class(), other.class(), within)
    }

    /// The fraction's value is at most `bound`.
    pub open spec fn at_most(&self, bound: nat) -> bool {
        self.num <= bound * self.den
    }

    /// The fraction's value is less than `bound`.
    pub open spec fn below(&self, bound: nat) -> bool {
        self.num < bound * self.den
    }

    /// Returns `true` if the fraction denotes a finite number that is at
    /// most `bound`.
    pub fn is_at_most(&self, bound: u32) -> (within: bool)
        ensures
            within == (self.well_formed() && self.at_most(bound as nat)),
    {
        proof {
            lemma_product_fits(bound as i64, self.den);
        }
        self.den > 0 && (self.num as i128) <= (bound as i128) * (self.den as i128)
    }

    /// Returns `true` if the fraction denotes a finite number that is less
    /// than `bound`.
    pub fn is_below(&self, bound: u32) -> (within: bool)
        ensures
            within == (self.well_formed() && self.below(bound as nat)),
    {
        proof {
            lemma_product_fits(bound as i64, self.den);
        }
        self.den > 0 && (self.num as i128) < (bound as i128) * (self.den as i128)
    }
}

/// With denominators up to `DENOMINATOR_LIMIT`, what `approx_equal`
/// computes fits 128 bits.
proof fn lemma_within_fits(a: Fraction, b: Fraction, epsilon: Fraction)
    requires
        a.den <= DENOMINATOR_LIMIT,
        b.den <= DENOMINATOR_LIMIT,
        epsilon.den <= DENOMINATOR_LIMIT,
    ensures
        -0x2000_0000_0000_0000_0000_0000 <= a.num * b.den <= 0x2000_0000_0000_0000_0000_0000,
        -0x2000_0000_0000_0000_0000_0000 <= b.num * a.den <= 0x2000_0000_0000_0000_0000_0000,
        0 <= a.den * b.den <= 0x1000_0000_0000_0000,
        forall|distance: int|
            0 <= distance <= 0x4000_0000_0000_0000_0000_0000 ==> 0 <= #[trigger] (distance
                * epsilon.den) <= 0x1000_0000_0000_0000_0000_0000_0000_0000,
        -0x800_0000_0000_0000_0000_0000_0000_0000 <= epsilon.num * (a.den * b.den)
            <= 0x800_0000_0000_0000_0000_0000_0000_0000,
{
    assert(-0x2000_0000_0000_0000_0000_0000 <= a.num * b.den <= 0x2000_0000_0000_0000_0000_0000)
        by (nonlinear_arith)
        requires
            -0x8000_0000_0000_0000 <= a.num <= 0x8000_0000_0000_0000,
            0 <= b.den <= 0x4000_0000,
    ;
    assert(-0x2000_0000_0000_0000_0000_0000 <= b.num * a.den <= 0x2000_0000_0000_0000_0000_0000)
        by (nonlinear_arith)
        requires
            -0x8000_0000_0000_0000 <= b.num <= 0x8000_0000_0000_0000,
            0 <= a.den <= 0x4000_0000,
    ;
    let scale = a.den * b.den;
    assert(0 <= scale <= 0x1000_0000_0000_0000) by (nonlinear_arith)
        requires
            scale == a.den * b.den,
            0 <= a.den <= 0x4000_0000,
            0 <= b.den <= 0x4000_0000,
    ;
    assert(-0x800_0000_0000_0000_0000_0000_0000_0000 <= epsilon.num * scale
        <= 0x800_0000_0000_0000_0000_0000_0000_0000) by (nonlinear_arith)
        requires
            -0x8000_0000_0000_0000 <= epsilon.num <= 0x8000_0000_0000_0000,
            0 <= scale <= 0x1000_0000_0000_0000,
    ;
    assert forall|distance: int| 0 <= distance <= 0x4000_0000_0000_0000_0000_0000 implies 0
        <= #[trigger] (distance * epsilon.den) <= 0x1000_0000_0000_0000_0000_0000_0000_0000 by {
        assert(0 <= distance * epsilon.den <= 0x1000_0000_0000_0000_0000_0000_0000_0000)
            by (nonlinear_arith)
            requires
                0 <= distance <= 0x4000_0000_0000_0000_0000_0000,
                0 <= epsilon.den <= 0x4000_0000,
        ;
    }
}

/// The product of a numerator and a denominator fits 128 bits.
pub proof fn lemma_product_fits(a: i64, b: u64)
    ensures
        i128::MIN <= a * b <= i128::MAX,
{
    assert(-0x8000_0000_0000_0000 * 0xffff_ffff_ffff_ffff <= a * b <= 0x8000_0000_0000_0000
        * 0xffff_ffff_ffff_ffff) by (nonlinear_arith)
        requires
            -0x8000_0000_0000_0000 <= a <= 0x8000_0000_0000_0000,
            0 <= b <= 0xffff_ffff_ffff_ffff,
    ;
}

} // verus!
