//! Hue, saturation and value as exact fractions.

use vstd::prelude::*;
use crate::converter::{convertible, hsv_to_rgb, spec_hsv_to_rgb};
use crate::error::ColorError;
use crate::models::rgb::rgb24::RGB24;
use crate::models::rgb::rgb48::RGB48;
use crate::models::rgb::RGBColor;
use crate::models::Color;
use crate::fraction::{Fraction, DENOMINATOR_LIMIT};
use crate::number_utils::{convert_to_range, spec_convert_to_range, NumberClass};
use vstd::arithmetic::div_mod::{lemma_mod_multiples_vanish, lemma_small_mod};

pub mod presets;

verus! {

/// Which error, if any, hue, saturation and value of the given classes make.
///
/// A value that is not a number is refused in any of the three. An infinite
/// hue is refused too, since it cannot be wrapped into the circle; an
/// infinite saturation or value is accepted, and clamps to 0 or 1.
pub open spec fn spec_check_hsv(h: NumberClass, s: NumberClass, v: NumberClass) -> Result<
    (),
    ColorError,
> {
    if h is Nan || s is Nan || v is Nan {
        Err(ColorError::InvalidNumericInput)
    } else if h is Infinity || h is NegInfinity {
        Err(ColorError::NonFiniteHue)
    } else {
        Ok(())
    }
}

/// Decides whether hue, saturation and value of the given classes can be
/// normalised to a colour, and names the error where they cannot.
pub fn check_hsv_input(h: NumberClass, s: NumberClass, v: NumberClass) -> (checked: Result<
    (),
    ColorError,
>)
    ensures
        checked == spec_check_hsv(h, s, v),
        checked is Ok <==> h is Finite && !(s is Nan) && !(v is Nan),
{
    if h.is_nan() || s.is_nan() || v.is_nan() {
        Err(ColorError::InvalidNumericInput)
    } else if h.is_infinite() {
        Err(ColorError::NonFiniteHue)
    } else {
        Ok(())
    }
}

/// The hue `h` wrapped into the circle: what is left of it after all full
/// turns of 360 degrees are taken away.
pub open spec fn spec_wrap_hue(h: Fraction) -> Fraction {
    Fraction { num: (h.num as int % (360 * h.den) as int) as i64, den: h.den }
}

/// A wrapped hue lies in the circle, and differs from the hue by a whole
/// number of turns.
pub proof fn lemma_wrapped_hue(h: Fraction)
    requires
        h.well_formed(),
        h.den <= DENOMINATOR_LIMIT,
    ensures
        0 <= spec_wrap_hue(h).num,
        spec_wrap_hue(h).below(360),
        (h.num - spec_wrap_hue(h).num) % (360 * h.den) as int == 0,
{
    let turn = (360 * h.den) as int;
    let wrapped = h.num as int % turn;
    assert(0 <= wrapped < turn && h.num == turn * (h.num as int / turn) + wrapped)
        by (nonlinear_arith)
        requires
            0 < turn,
            wrapped == h.num as int % turn,
    ;
    lemma_mod_multiples_vanish(h.num as int / turn, 0, turn);
}

/// Whole turns do not count: a hue and the same hue `turns` full turns
/// further on are wrapped to the same.
pub proof fn lemma_wrap_hue_cyclic(h: Fraction, further: Fraction, turns: int)
    requires
        h.well_formed(),
        further.den == h.den,
        further.num == h.num + turns * (360 * h.den),
    ensures
        spec_wrap_hue(further) == spec_wrap_hue(h),
{
    let turn = (360 * h.den) as int;
    assert(further.num == turn * turns + h.num) by (nonlinear_arith)
        requires
            further.num == h.num + turns * turn,
    ;
    lemma_mod_multiples_vanish(turns, h.num as int, turn);
}

/// The place of `f` on the scale from 0 to 255 on which `most` stands at
/// 255, rounded down: 0 for a fraction of 0 or less and for `0/0`, 255 for
/// one of `most` or more, and the whole part of `f / most * 255` between
/// the two.
pub open spec fn spec_byte_share(f: Fraction, most: nat) -> nat {
    if f.num <= 0 {
        0
    } else if f.num >= most * f.den {
        255
    } else {
        (f.num * 255) as nat / (most * f.den) as nat
    }
}

/// Computes the place of `f` on the scale from 0 to 255 on which `most`
/// stands at 255, rounded down.
fn byte_share(f: Fraction, most: u16) -> (share: u8)
    requires
        0 < most,
    ensures
        share == spec_byte_share(f, most as nat),
{
    if f.num <= 0 {
        return 0;
    }
    proof {
        assert(most * f.den <= 0xffff * 0xffff_ffff_ffff_ffff) by (nonlinear_arith)
            requires
                most <= 0xffff,
                f.den <= 0xffff_ffff_ffff_ffff,
        ;
    }
    let whole: u128 = most as u128 * f.den as u128;
    if f.num as u128 >= whole {
        return 255;
    }
    proof {
        let share = (f.num * 255) as nat / (most * f.den) as nat;
        assert(share < 255) by (nonlinear_arith)
            requires
                0 < f.num < most * f.den,
                share == (f.num * 255) as nat / (most * f.den) as nat,
        ;
    }
    ((f.num as u128 * 255) / whole) as u8
}

/// Normalising twice is normalising once: hue, saturation and value of a
/// normalised colour are left as they are.
pub proof fn lemma_normalise_idempotent(h: Fraction, s: Fraction, v: Fraction)
    requires
        ExactHSV::spec_from_hsv(h, s, v) is Ok,
        h.den <= DENOMINATOR_LIMIT,
    ensures
        ({
            let once = ExactHSV::spec_normalised(h, s, v);
            ExactHSV::spec_from_hsv(once.h, once.s, once.v) == Ok::<_, ColorError>(once)
        }),
{
    let once = ExactHSV::spec_normalised(h, s, v);
    lemma_wrapped_hue(h);
    lemma_small_mod(once.h.num as nat, (360 * h.den) as nat);
    assert(0int * 1 == 0 && 1int * 1 == 1);
    assert(0 * s.den == 0 && 1 * s.den == s.den && 0 * v.den == 0 && 1 * v.den == v.den);
}

/// A colour by hue in degrees, saturation and value, each an exact fraction.
///
/// `==` compares the terms of the fractions, `same_color` their values.
#[derive(Clone, Copy, Debug, PartialEq, Eq, Structural, Hash)]
pub struct ExactHSV {
    pub h: Fraction,
    pub s: Fraction,
    pub v: Fraction,
}

impl ExactHSV {
    /// The hue lies in `[0, 360)`, saturation and value lie in `[0, 1]`.
    pub open spec fn well_formed(&self) -> bool {
        &&& self.h.well_formed()
        &&& self.s.well_formed()
        &&& self.v.well_formed()
        &&& 0 <= self.h.num && self.h.below(360)
        &&& 0 <= self.s.num && self.s.at_most(1)
        &&& 0 <= self.v.num && self.v.at_most(1)
    }

    /// Hue, saturation and value as `from_hsv` normalises them.
    ///
    /// The hue is wrapped into the circle: a hue of 361 degrees is one of 1
    /// degree, and one of -1 degree is one of 359. Saturation and value are
    /// clamped to the range from 0 to 1, which takes an infinite one to 1
    /// or to 0.
    pub open spec fn spec_normalised(h: Fraction, s: Fraction, v: Fraction) -> ExactHSV {
        ExactHSV {
            h: spec_wrap_hue(h),
            s: spec_convert_to_range(s, 0, 1),
            v: spec_convert_to_range(v, 0, 1),
        }
    }

    /// What `from_hsv` makes of hue, saturation and value: the error that
    /// their classes make, and the normalised colour where they make none.
    pub open spec fn spec_from_hsv(h: Fraction, s: Fraction, v: Fraction) -> Result<
        ExactHSV,
        ColorError,
    > {
        match spec_check_hsv(h.spec_class(), s.spec_class(), v.spec_class()) {
            Err(e) => Err(e),
            Ok(_) => Ok(Self::spec_normalised(h, s, v)),
        }
    }

    /// Creates a new colour from the given hue, saturation and value.
    ///
    /// A hue outside the circle is wrapped into it, and saturation and
    /// value outside the range from 0 to 1 are clamped to it, infinite ones
    /// too. A fraction `0/0` in any place is an `InvalidNumericInput`, an
    /// infinite hue a `NonFiniteHue`. No denominator may be above
    /// `DENOMINATOR_LIMIT`.
    pub fn from_hsv(h: Fraction, s: Fraction, v: Fraction) -> (created: Result<
        ExactHSV,
        ColorError,
    >)
        requires
            h.den <= DENOMINATOR_LIMIT,
            s.den <= DENOMINATOR_LIMIT,
            v.den <= DENOMINATOR_LIMIT,
        ensures
            created == Self::spec_from_hsv(h, s, v),
            created matches Ok(color) ==> convertible(color),
    {
        match check_hsv_input(h.class(), s.class(), v.class()) {
            Err(e) => {
                return Err(e);
            },
            Ok(_) => {},
        }
        let turn: i64 = 360 * h.den as i64;
        let wrapped = match h.num.checked_rem_euclid(turn) {
            Some(wrapped) => wrapped,
            None => 0,
        };
        proof {
            lemma_wrapped_hue(h);
        }
        Ok(
            ExactHSV {
                h: Fraction { num: wrapped, den: h.den },
                s: convert_to_range(s, 0, 1),
                v: convert_to_range(v, 0, 1),
            },
        )
    }

    /// Creates a new colour from the given `u8` values, where 0 stands for
    /// the least that hue, saturation and value can be, and 255 for the
    /// most: 360 degrees for the hue, which are 0 degrees again, and 1 for
    /// saturation and value.
    ///
    /// `(51, 51, 51)` gives 72 degrees, 1/5 and 1/5.
    pub fn from_hsv_u8(h: u8, s: u8, v: u8) -> (color: ExactHSV)
        ensures
            color == Self::spec_normalised(
                Fraction { num: (h * 360) as i64, den: 255 },
                Fraction { num: s as i64, den: 255 },
                Fraction { num: v as i64, den: 255 },
            ),
            convertible(color),
    {
        let created = ExactHSV::from_hsv(
            Fraction { num: h as i64 * 360, den: 255 },
            Fraction { num: s as i64, den: 255 },
            Fraction { num: v as i64, den: 255 },
        );
        created.unwrap()
    }

    /// Converts hue, saturation and value to a `u8` tuple, where 0 stands
    /// for the least that each can be and 255 for the most. What lies
    /// between two values goes to the lower one.
    ///
    /// 72 degrees, 1/5 and 1/5 give `(51, 51, 51)`.
    pub fn as_tuple_u8(&self) -> (tuple: (u8, u8, u8))
        ensures
            tuple.0 == spec_byte_share(self.h, 360),
            tuple.1 == spec_byte_share(self.s, 1),
            tuple.2 == spec_byte_share(self.v, 1),
    {
        (byte_share(self.h, 360), byte_share(self.s, 1), byte_share(self.v, 1))
    }

    /// Returns `true` if the hue lies in `[0, 360)` and saturation and value
    /// lie in `[0, 1]`.
    pub fn is_well_formed(&self) -> (well_formed: bool)
        ensures
            well_formed == self.well_formed(),
    {
        self.h.num >= 0 && self.h.is_below(360) && self.s.num >= 0 && self.s.is_at_most(1)
            && self.v.num >= 0 && self.v.is_at_most(1)
    }

    /// Converts this to an RGB colour, each channel rounded to the nearest
    /// value that the RGB colour has.
    pub fn to_rgb<T, C: RGBColor<T>>(&self) -> (rgb: C)
        requires
            convertible(*self),
        ensures
            (
                C::spec_level(rgb.spec_tuple().0),
                C::spec_level(rgb.spec_tuple().1),
                C::spec_level(rgb.spec_tuple().2),
            ) == spec_hsv_to_rgb(*self, C::spec_level(C::MAX)),
    {
        hsv_to_rgb(self)
    }

    /// Converts this to `RGB24`, each channel rounded to the nearest of its
    /// 256 values.
    pub fn to_rgb24(&self) -> (rgb: RGB24)
        requires
            convertible(*self),
        ensures
            (rgb@.0 as nat, rgb@.1 as nat, rgb@.2 as nat) == spec_hsv_to_rgb(*self, 255),
    {
        proof {
            RGB24::lemma_channel_bounds();
        }
        hsv_to_rgb::<u8, RGB24>(self)
    }

    /// Converts this to `RGB48`, each channel rounded to the nearest of its
    /// 65536 values.
    pub fn to_rgb48(&self) -> (rgb: RGB48)
        requires
            convertible(*self),
        ensures
            (rgb@.0 as nat, rgb@.1 as nat, rgb@.2 as nat) == spec_hsv_to_rgb(*self, 65535),
    {
        proof {
            RGB48::lemma_channel_bounds();
        }
        hsv_to_rgb::<u16, RGB48>(self)
    }

    /// Returns `true` if the two colours are equal up to `epsilon` in hue,
    /// in saturation and in value. No denominator may be above
    /// `DENOMINATOR_LIMIT`.
    pub fn approx_equal(&self, other: &ExactHSV, epsilon: &Fraction) -> (equal: bool)
        requires
            self.h.den <= DENOMINATOR_LIMIT,
            self.s.den <= DENOMINATOR_LIMIT,
            self.v.den <= DENOMINATOR_LIMIT,
            other.h.den <= DENOMINATOR_LIMIT,
            other.s.den <= DENOMINATOR_LIMIT,
            other.v.den <= DENOMINATOR_LIMIT,
            epsilon.den <= DENOMINATOR_LIMIT,
        ensures
            equal == (self.h.spec_approx_equal(other.h, *epsilon) && self.s.spec_approx_equal(
                other.s,
                *epsilon,
            ) && self.v.spec_approx_equal(other.v, *epsilon)),
    {
        self.h.approx_equal(&other.h, epsilon) && self.s.approx_equal(&other.s, epsilon)
            && self.v.approx_equal(&other.v, epsilon)
    }

    /// The two colours have the same hue, saturation and value.
    pub open spec fn spec_same_color(&self, other: ExactHSV) -> bool {
        &&& self.h.spec_same_value(other.h)
        &&& self.s.spec_same_value(other.s)
        &&& self.v.spec_same_value(other.v)
    }

    /// Returns `true` if the two colours have the same hue, saturation and
    /// value, in whatever terms the fractions are written.
    pub fn same_color(&self, other: &ExactHSV) -> (same: bool)
        ensures
            same == self.spec_same_color(*other),
    {
        self.h.same_value(&other.h) && self.s.same_value(&other.s) && self.v.same_value(&other.v)
    }
}

impl Color for ExactHSV {
    /// White has no hue, no saturation and the full value.
    open spec fn spec_is_white(&self) -> bool {
        self.h.num == 0 && self.s.num == 0 && self.v.num == self.v.den && self.v.den > 0
    }

    /// Black has no hue, no saturation and no value.
    open spec fn spec_is_black(&self) -> bool {
        self.h.num == 0 && self.s.num == 0 && self.v.num == 0
    }

    proof fn lemma_white_is_not_black(&self) {
    }

    fn is_white(&self) -> (white: bool) {
        self.h.num == 0 && self.s.num == 0 && self.v.num as i128 == self.v.den as i128
            && self.v.den > 0
    }

    fn is_black(&self) -> (black: bool) {
        self.h.num == 0 && self.s.num == 0 && self.v.num == 0
    }
}

} // verus!
