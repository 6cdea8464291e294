//! Numeric primitives shared by the colour models.

use vstd::prelude::*;
use crate::fraction::{lemma_product_fits, Fraction};

verus! {

/// The largest of three numbers.
pub open spec fn max_of_three(a: int, b: int, c: int) -> int {
    if a >= b && a >= c {
        a
    } else if b >= c {
        b
    } else {
        c
    }
}

/// The smallest of three numbers.
pub open spec fn min_of_three(a: int, b: int, c: int) -> int {
    if a <= b && a <= c {
        a
    } else if b <= c {
        b
    } else {
        c
    }
}

/// Calculates the maximum of the given triple.
pub fn get_max(a: u32, b: u32, c: u32) -> (m: u32)
    ensures
        m == max_of_three(a as int, b as int, c as int),
        m >= a && m >= b && m >= c,
        m == a || m == b || m == c,
{
    if a >= b && a >= c {
        a
    } else if b >= c {
        b
    } else {
        c
    }
}

/// Calculates the minimum of the given triple.
pub fn get_min(a: u32, b: u32, c: u32) -> (m: u32)
    ensures
        m == min_of_three(a as int, b as int, c as int),
        m <= a && m <= b && m <= c,
        m == a || m == b || m == c,
{
    if a <= b && a <= c {
        a
    } else if b <= c {
        b
    } else {
        c
    }
}

/// The quotient `num / den` rounded to the nearest whole number, a half
/// rounded up.
pub open spec fn round_div(num: nat, den: nat) -> nat {
    (num + den / 2) / den
}

/// The level on the scale from 0 to `to_max` that stands for `value` on the
/// scale from 0 to `from_max`: the nearest to `value / from_max * to_max`,
/// and `to_max` for a value beyond the scale.
pub open spec fn spec_rescale(value: nat, from_max: nat, to_max: nat) -> nat {
    if value >= from_max {
        to_max
    } else {
        round_div(value * to_max, from_max)
    }
}

/// Maps `value` on the scale from 0 to `from_max` to the nearest level on
/// the scale from 0 to `to_max`: `value / from_max * to_max`, rounded. A
/// value above `from_max` is treated as `from_max`.
///
/// The scale `from_max` has to be below 2 to the power of 96, so that the
/// product with `to_max` fits 128 bits.
pub fn rescale(value: u128, from_max: u128, to_max: u32) -> (scaled: u32)
    requires
        from_max < 0x1_0000_0000_0000_0000_0000_0000,
    ensures
        scaled == spec_rescale(value as nat, from_max as nat, to_max as nat),
        scaled <= to_max,
{
    if value >= from_max {
        return to_max;
    }
    proof {
        lemma_rescale_bounds(value as nat, from_max as nat, to_max as nat);
        assert(value * to_max + from_max / 2 < 0x1_0000_0000_0000_0000_0000_0000 * 0x1_0000_0000)
            by (nonlinear_arith)
            requires
                value < from_max < 0x1_0000_0000_0000_0000_0000_0000,
                to_max < 0x1_0000_0000,
        ;
    }
    ((value * to_max as u128 + from_max / 2) / from_max) as u32
}

/// The channel value on the scale from 0 to `max` that stands for the
/// fraction `fraction`: 0 for a fraction of 0 or less, `max` for one of 1
/// or more, and the nearest to `fraction * max` between the two. Infinity
/// goes with the large fractions, negative infinity and what is no number
/// with the small ones.
pub open spec fn spec_to_channel_repr(fraction: Fraction, max: nat) -> nat {
    if fraction.num <= 0 {
        0
    } else {
        spec_rescale(fraction.num as nat, fraction.den as nat, max)
    }
}

/// Maps a fraction to a channel value on the scale from 0 to `max`.
///
/// Fractions of 1 and above give `max`, fractions of 0 and below give 0,
/// and so does `0/0`; everything between is `fraction * max`, rounded to
/// the nearest whole number.
pub fn to_channel_repr(fraction: Fraction, max: u32) -> (level: u32)
    ensures
        level == spec_to_channel_repr(fraction, max as nat),
        level <= max,
        fraction.num <= 0 ==> level == 0,
        0 < fraction.num && fraction.num >= fraction.den ==> level == max,
{
    if fraction.num <= 0 {
        0
    } else {
        rescale(fraction.num as u128, fraction.den as u128, max)
    }
}

/// No whole number is nearer to `num / den` than `round_div(num, den)`:
/// the two differ by half at most.
pub proof fn lemma_round_div_nearest(num: nat, den: nat)
    requires
        0 < den,
    ensures
        2 * (round_div(num, den) * den - num) <= den,
        2 * (num - round_div(num, den) * den) <= den,
{
    let shifted = num + den / 2;
    let q = shifted / den;
    assert(q * den <= shifted < q * den + den) by (nonlinear_arith)
        requires
            q == shifted / den,
            0 < den,
            0 <= shifted,
    ;
}

/// A rescaled value stays on its scale, and the product it is computed from
/// is no larger than the product of the two scales.
pub proof fn lemma_rescale_bounds(value: nat, from_max: nat, to_max: nat)
    requires
        0 < from_max,
    ensures
        value <= from_max ==> value * to_max <= from_max * to_max,
        spec_rescale(value, from_max, to_max) <= to_max,
        spec_rescale(from_max, from_max, to_max) == to_max,
        spec_rescale(0, from_max, to_max) == 0,
{
    if value < from_max {
        assert(value * to_max <= from_max * to_max) by (nonlinear_arith)
            requires
                value <= from_max,
        ;
        let num = value * to_max + from_max / 2;
        assert(num < from_max * (to_max + 1)) by (nonlinear_arith)
            requires
                num == value * to_max + from_max / 2,
                value * to_max <= from_max * to_max,
                0 < from_max,
        ;
        assert(num / from_max <= to_max) by (nonlinear_arith)
            requires
                num < from_max * (to_max + 1),
                0 < from_max,
                0 <= num,
        ;
    }
    assert(0 * to_max == 0);
    assert((from_max / 2) / from_max == 0) by (nonlinear_arith)
        requires
            0 < from_max,
    ;
}

/// On its own scale the rescaled value is the nearest level: it differs
/// from `value / from_max * to_max` by half a level at most.
pub proof fn lemma_rescale_nearest(value: nat, from_max: nat, to_max: nat)
    requires
        0 < from_max,
        value <= from_max,
    ensures
        2 * (spec_rescale(value, from_max, to_max) * from_max - value * to_max) <= from_max,
        2 * (value * to_max - spec_rescale(value, from_max, to_max) * from_max) <= from_max,
{
    if value < from_max {
        lemma_round_div_nearest(value * to_max, from_max);
    } else {
        assert(to_max * from_max == value * to_max) by (nonlinear_arith)
            requires
                value == from_max,
        ;
    }
}

/// The fraction `a` brought into the range from `min` to `max`: `min` for
/// what is not above `min`, `max` for what is not below `max`, and `a`
/// itself between the two. Infinity goes to `max` and negative infinity to
/// `min`; what is no number stays what it is.
pub open spec fn spec_convert_to_range(a: Fraction, min: int, max: int) -> Fraction {
    if a.spec_class() is Nan {
        a
    } else if a.num <= min * a.den {
        Fraction { num: min as i64, den: 1 }
    } else if a.num >= max * a.den {
        Fraction { num: max as i64, den: 1 }
    } else {
        a
    }
}

/// Converts any number to the given range.
///
/// - `a` is `min` or less: `min`
/// - `a` is `max` or more: `max`
/// - else: `a`
pub fn convert_to_range(a: Fraction, min: i32, max: i32) -> (converted: Fraction)
    ensures
        converted == spec_convert_to_range(a, min as int, max as int),
        !(a.spec_class() is Nan) ==> converted.well_formed(),
        !(a.spec_class() is Nan) && min <= max ==> min * converted.den <= converted.num <= max
            * converted.den,
        converted.den == a.den || converted.den == 1,
{
    proof {
        lemma_product_fits(min as i64, a.den);
        lemma_product_fits(max as i64, a.den);
        assert(a.den == 0 ==> min * a.den == 0 && max * a.den == 0) by (nonlinear_arith);
        assert(min * 1 == min && max * 1 == max);
    }
    if a.class().is_nan() {
        a
    } else if a.num as i128 <= min as i128 * a.den as i128 {
        Fraction { num: min as i64, den: 1 }
    } else if a.num as i128 >= max as i128 * a.den as i128 {
        Fraction { num: max as i64, den: 1 }
    } else {
        a
    }
}

/// A channel value as a fraction of the largest gives the channel value
/// back: `level / max` stands for `level` on the scale from 0 to `max`.
pub proof fn lemma_channel_of_its_fraction(level: nat, max: nat)
    requires
        level <= max <= u32::MAX,
        0 < max,
    ensures
        spec_to_channel_repr(Fraction { num: level as i64, den: max as u64 }, max) == level,
{
    if 0 < level < max {
        let half = max / 2;
        assert((level * max + half) / max == level) by (nonlinear_arith)
            requires
                0 < max,
                half == max / 2,
                0 <= level,
        ;
    }
}

/// What kind of value a number holds that need not be finite, such as a
/// floating-point number or a fraction whose denominator may be zero.
#[derive(Clone, Copy, Debug, PartialEq, Eq, Structural, Hash)]
pub enum NumberClass {
    /// Not a number.
    Nan,
    /// Negative infinity.
    NegInfinity,
    /// Any finite number.
    Finite,
    /// Positive infinity.
    Infinity,
}

impl NumberClass {
    /// Returns `true` if the value is not a number.
    pub fn is_nan(&self) -> (nan: bool)
        ensures
            nan == (*self is Nan),
    {
        matches!(self, NumberClass::Nan)
    }

    /// Returns `true` if the value is a number and not infinite.
    pub fn is_finite(&self) -> (finite: bool)
        ensures
            finite == (*self is Finite),
    {
        matches!(self, NumberClass::Finite)
    }

    /// Returns `true` if the value is positive or negative infinity.
    pub fn is_infinite(&self) -> (infinite: bool)
        ensures
            infinite == (*self is Infinity || *self is NegInfinity),
    {
        matches!(self, NumberClass::Infinity | NumberClass::NegInfinity)
    }
}

/// Whether two numbers of the classes `a` and `b` count as approximately
/// equal, where `within_epsilon` says whether their distance is below the
/// tolerance.
///
/// Two values that are not numbers are equal. One finite and one not are
/// different. Two infinities are equal where they have the same sign, and
/// an infinity never equals a value that is not a number. Only for two
/// finite values the tolerance decides.
pub open spec fn spec_approx_equal_by_class(
    a: NumberClass,
    b: NumberClass,
    within_epsilon: bool,
) -> bool {
    if a is Finite && b is Finite {
        within_epsilon
    } else {
        a == b
    }
}

/// Returns `true` if two numbers of the classes `a` and `b` are
/// approximately equal; `within_epsilon` tells whether the absolute
/// difference of the two is less than the tolerance, and counts only where
/// both are finite.
pub fn approx_equal_by_class(a: NumberClass, b: NumberClass, within_epsilon: bool) -> (equal: bool)
    ensures
        equal == spec_approx_equal_by_class(a, b, within_epsilon),
        a is Nan && b is Nan ==> equal,
        (a is Finite) != (b is Finite) ==> !equal,
        a is Infinity && b is Infinity ==> equal,
        a is NegInfinity && b is NegInfinity ==> equal,
        a is Infinity && b is NegInfinity ==> !equal,
        a is NegInfinity && b is Infinity ==> !equal,
{
    match (a, b) {
        (NumberClass::Finite, NumberClass::Finite) => within_epsilon,
        (NumberClass::Nan, NumberClass::Nan) => true,
        (NumberClass::Infinity, NumberClass::Infinity) => true,
        (NumberClass::NegInfinity, NumberClass::NegInfinity) => true,
        _ => false,
    }
}

} // verus!
