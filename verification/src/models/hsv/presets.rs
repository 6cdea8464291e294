//! The basic colours by hue, saturation and value.

use vstd::prelude::*;
use crate::fraction::Fraction;
use crate::models::hsv::ExactHSV;

verus! {

/// The colour with the hue `h` in whole degrees and the saturation `s` and
/// the value `v`, each 0 or 1.
fn whole(h: i64, s: i64, v: i64) -> (color: ExactHSV)
    ensures
        color == (ExactHSV {
            h: Fraction { num: h, den: 1 },
            s: Fraction { num: s, den: 1 },
            v: Fraction { num: v, den: 1 },
        }),
{
    ExactHSV {
        h: Fraction { num: h, den: 1 },
        s: Fraction { num: s, den: 1 },
        v: Fraction { num: v, den: 1 },
    }
}

/// 100% white: no hue, no saturation, full value.
pub fn white() -> (color: ExactHSV)
    ensures
        color.well_formed(),
        (color.h.num, color.s.num, color.v.num) == (0i64, 0i64, 1i64),
        (color.h.den, color.s.den, color.v.den) == (1u64, 1u64, 1u64),
{
    whole(0, 0, 1)
}

/// 100% black: no hue, no saturation, no value.
pub fn black() -> (color: ExactHSV)
    ensures
        color.well_formed(),
        (color.h.num, color.s.num, color.v.num) == (0i64, 0i64, 0i64),
        (color.h.den, color.s.den, color.v.den) == (1u64, 1u64, 1u64),
{
    whole(0, 0, 0)
}

/// 100% red: the hue 0 at full saturation and value.
pub fn red() -> (color: ExactHSV)
    ensures
        color.well_formed(),
        (color.h.num, color.s.num, color.v.num) == (0i64, 1i64, 1i64),
        (color.h.den, color.s.den, color.v.den) == (1u64, 1u64, 1u64),
{
    whole(0, 1, 1)
}

/// 100% green: the hue 120 at full saturation and value.
pub fn green() -> (color: ExactHSV)
    ensures
        color.well_formed(),
        (color.h.num, color.s.num, color.v.num) == (120i64, 1i64, 1i64),
        (color.h.den, color.s.den, color.v.den) == (1u64, 1u64, 1u64),
{
    whole(120, 1, 1)
}

/// 100% blue: the hue 240 at full saturation and value.
pub fn blue() -> (color: ExactHSV)
    ensures
        color.well_formed(),
        (color.h.num, color.s.num, color.v.num) == (240i64, 1i64, 1i64),
        (color.h.den, color.s.den, color.v.den) == (1u64, 1u64, 1u64),
{
    whole(240, 1, 1)
}

} // verus!
