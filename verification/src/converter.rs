//! Conversions between the colour models and between bit depths.

use vstd::prelude::*;
use crate::fraction::{Fraction, DENOMINATOR_LIMIT};
use crate::models::hsv::ExactHSV;
use crate::models::rgb::rgb24::RGB24;
use crate::models::rgb::rgb48::RGB48;
use crate::models::rgb::RGBColor;
use crate::models::Color;
use crate::number_utils::{
    get_max, get_min, lemma_rescale_bounds, lemma_rescale_nearest, max_of_three, min_of_three,
    rescale, spec_rescale,
};
use vstd::arithmetic::div_mod::lemma_fundamental_div_mod_converse;

verus! {

/// The spread between the strongest and the weakest channel.
pub open spec fn spec_delta(r: int, g: int, b: int) -> int {
    max_of_three(r, g, b) - min_of_three(r, g, b)
}

/// The hue of the colour `(r, g, b)` in degrees, as numerator and
/// denominator.
///
/// A colour whose channels are all equal has no hue of its own and gets 0.
/// Otherwise the strongest channel decides, red before green before blue
/// where two are equally strong: red gives `60 * (g - b) / delta`, turned
/// by 360 degrees where that is negative, green gives
/// `60 * (b - r) / delta + 120` and blue gives `60 * (r - g) / delta + 240`.
pub open spec fn spec_hue(r: int, g: int, b: int) -> (int, int) {
    let c_max = max_of_three(r, g, b);
    let delta = spec_delta(r, g, b);
    if delta == 0 {
        (0, 1)
    } else if c_max == r {
        if g >= b {
            (60 * (g - b), delta)
        } else {
            (60 * (g - b) + 360 * delta, delta)
        }
    } else if c_max == g {
        (60 * (b - r) + 120 * delta, delta)
    } else {
        (60 * (r - g) + 240 * delta, delta)
    }
}

/// The saturation of the colour `(r, g, b)`: the spread over the strongest
/// channel, and 0 for black.
pub open spec fn spec_saturation(r: int, g: int, b: int) -> (int, int) {
    let c_max = max_of_three(r, g, b);
    if c_max > 0 {
        (spec_delta(r, g, b), c_max)
    } else {
        (0, 1)
    }
}

/// The value of the colour `(r, g, b)`: its strongest channel as a share of
/// the largest channel value `max`.
pub open spec fn spec_value(r: int, g: int, b: int, max: int) -> (int, int) {
    (max_of_three(r, g, b), max)
}

/// Hue, saturation and value of the colour `(r, g, b)` whose channels range
/// from 0 to `max`.
pub open spec fn spec_rgb_to_hsv(r: int, g: int, b: int, max: int) -> ExactHSV {
    ExactHSV {
        h: Fraction { num: spec_hue(r, g, b).0 as i64, den: spec_hue(r, g, b).1 as u64 },
        s: Fraction {
            num: spec_saturation(r, g, b).0 as i64,
            den: spec_saturation(r, g, b).1 as u64,
        },
        v: Fraction {
            num: spec_value(r, g, b, max).0 as i64,
            den: spec_value(r, g, b, max).1 as u64,
        },
    }
}

/// Converts the colour with the channels `r`, `g` and `b`, each between 0
/// and `max`, to hue, saturation and value.
pub fn levels_to_hsv(r: u32, g: u32, b: u32, max: u32) -> (hsv: ExactHSV)
    requires
        0 < max,
        r <= max,
        g <= max,
        b <= max,
    ensures
        hsv == spec_rgb_to_hsv(r as int, g as int, b as int, max as int),
        (hsv.h.num as int, hsv.h.den as int) == spec_hue(r as int, g as int, b as int),
        (hsv.s.num as int, hsv.s.den as int) == spec_saturation(r as int, g as int, b as int),
        (hsv.v.num as int, hsv.v.den as int) == spec_value(
            r as int,
            g as int,
            b as int,
            max as int,
        ),
        hsv.well_formed(),
        hsv.spec_is_white() <==> r == max && g == max && b == max,
        hsv.spec_is_black() <==> r == 0 && g == 0 && b == 0,
{
    let c_max = get_max(r, g, b);
    let c_min = get_min(r, g, b);
    let delta: u64 = (c_max - c_min) as u64;
    let (red, green, blue) = (r as u64, g as u64, b as u64);

    let h = if delta == 0 {
        Fraction { num: 0, den: 1 }
    } else if c_max == r {
        if green >= blue {
            Fraction { num: (60 * (green - blue)) as i64, den: delta }
        } else {
            Fraction { num: (360 * delta - 60 * (blue - green)) as i64, den: delta }
        }
    } else if c_max == g {
        Fraction { num: (120 * delta + 60 * blue - 60 * red) as i64, den: delta }
    } else {
        Fraction { num: (240 * delta + 60 * red - 60 * green) as i64, den: delta }
    };
    let s = if c_max > 0 {
        Fraction { num: delta as i64, den: c_max as u64 }
    } else {
        Fraction { num: 0, den: 1 }
    };
    let v = Fraction { num: c_max as i64, den: max as u64 };

    ExactHSV { h, s, v }
}

/// Converts the given RGB colour to hue, saturation and value.
///
/// The result is exact, whatever the depth of the colour, and `hsv_to_rgb`
/// gives the colour back.
pub fn rgb_to_hsv<T, C: RGBColor<T>>(rgb_color: &C) -> (hsv: ExactHSV)
    ensures
        hsv == spec_rgb_to_hsv(
            C::spec_level(rgb_color.spec_tuple().0) as int,
            C::spec_level(rgb_color.spec_tuple().1) as int,
            C::spec_level(rgb_color.spec_tuple().2) as int,
            C::spec_level(C::MAX) as int,
        ),
        hsv.well_formed(),
        hsv.spec_is_white() == rgb_color.spec_is_white(),
        hsv.spec_is_black() == rgb_color.spec_is_black(),
{
    let (r, g, b) = (rgb_color.r(), rgb_color.g(), rgb_color.b());
    proof {
        C::lemma_levels(r, C::MAX);
        C::lemma_levels(g, C::MAX);
        C::lemma_levels(b, C::MAX);
        C::lemma_levels(r, C::MIN);
        C::lemma_levels(g, C::MIN);
        C::lemma_levels(b, C::MIN);
        rgb_color.lemma_white_is_max();
        rgb_color.lemma_black_is_min();
    }
    levels_to_hsv(C::level(r), C::level(g), C::level(b), C::level(C::MAX))
}

/// One of the three amounts that a colour of a given hue is mixed from,
/// before the rest up to its value is added to every channel.
#[derive(Clone, Copy, Debug, PartialEq, Eq, Structural, Hash)]
pub enum Share {
    /// The chroma, value times saturation: the share of the strongest
    /// channel.
    Chroma,
    /// The share of the channel in the middle, which rises and falls with
    /// the hue inside a sector.
    Second,
    /// Nothing: the share of the weakest channel.
    Zero,
}

/// The shares of red, green and blue in the sector `sector` of the hue
/// circle, where the sector `k` covers the hues from `60 * k` up to, but
/// not including, `60 * (k + 1)` degrees. The full circle is the start of
/// the first sector again.
pub open spec fn spec_sector_shares(sector: nat) -> (Share, Share, Share) {
    if sector == 0 || sector == 6 {
        (Share::Chroma, Share::Second, Share::Zero)
    } else if sector == 1 {
        (Share::Second, Share::Chroma, Share::Zero)
    } else if sector == 2 {
        (Share::Zero, Share::Chroma, Share::Second)
    } else if sector == 3 {
        (Share::Zero, Share::Second, Share::Chroma)
    } else if sector == 4 {
        (Share::Second, Share::Zero, Share::Chroma)
    } else {
        (Share::Chroma, Share::Zero, Share::Second)
    }
}

/// Returns the shares of red, green and blue in the given sector of the hue
/// circle, and `None` for a number above 6, which is no sector.
///
/// In every sector each of the three shares goes to one channel.
pub fn sector_shares(sector: u8) -> (shares: Option<(Share, Share, Share)>)
    ensures
        sector <= 6 ==> shares == Some(spec_sector_shares(sector as nat)),
        sector > 6 ==> shares is None,
        shares matches Some(s) ==> s.0 != s.1 && s.1 != s.2 && s.0 != s.2,
{
    match sector {
        0 | 6 => Some((Share::Chroma, Share::Second, Share::Zero)),
        1 => Some((Share::Second, Share::Chroma, Share::Zero)),
        2 => Some((Share::Zero, Share::Chroma, Share::Second)),
        3 => Some((Share::Zero, Share::Second, Share::Chroma)),
        4 => Some((Share::Second, Share::Zero, Share::Chroma)),
        5 => Some((Share::Chroma, Share::Zero, Share::Second)),
        _ => None,
    }
}

/// Whether `hsv_to_rgb` can convert the colour: hue, saturation and value
/// are in their ranges and no denominator is above `DENOMINATOR_LIMIT`.
pub open spec fn convertible(hsv: ExactHSV) -> bool {
    &&& hsv.well_formed()
    &&& hsv.h.den <= DENOMINATOR_LIMIT
    &&& hsv.s.den <= DENOMINATOR_LIMIT
    &&& hsv.v.den <= DENOMINATOR_LIMIT
}

/// Returns `true` if `hsv_to_rgb` can convert the colour.
pub fn is_convertible(hsv: &ExactHSV) -> (can: bool)
    ensures
        can == convertible(*hsv),
{
    hsv.is_well_formed() && hsv.h.den <= DENOMINATOR_LIMIT && hsv.s.den <= DENOMINATOR_LIMIT
        && hsv.v.den <= DENOMINATOR_LIMIT
}

/// The sector of the hue circle that the hue `h` lies in: the whole part
/// of `h / 60`.
pub open spec fn spec_sector(h: Fraction) -> nat {
    h.num as nat / (60 * h.den) as nat
}

/// How far the hue `h` is into its pair of sectors, folded at the middle:
/// `1 - |h / 60 mod 2 - 1|`, in units of `1 / (60 * h.den)`. It rises from
/// 0 to `60 * h.den` over an even sector and falls back over an odd one.
pub open spec fn spec_fold(h: Fraction) -> nat {
    let turn = h.num as nat % (120 * h.den) as nat;
    if turn <= 60 * h.den {
        turn
    } else {
        (120 * h.den - turn) as nat
    }
}

/// The denominator that the three amounts of a colour are given over:
/// `60 * h.den * s.den * v.den`.
pub open spec fn spec_amount_denominator(hsv: ExactHSV) -> nat {
    (hsv.v.den * hsv.s.den) as nat * (60 * hsv.h.den) as nat
}

/// One channel of the colour `hsv` before it is rounded, as a numerator
/// over `spec_amount_denominator(hsv)`: the share of the channel plus the
/// rest `value - chroma` that every channel gets.
///
/// With the chroma `v * s` the strongest channel has `chroma + rest`, which
/// is the value `v`; the weakest has the rest `v * (1 - s)` alone; the one
/// between them has `chroma * fold + rest`.
pub open spec fn spec_amount(hsv: ExactHSV, share: Share) -> nat {
    let full = (60 * hsv.h.den) as nat;
    let rest = (hsv.s.den - hsv.s.num) as nat;
    match share {
        Share::Chroma => hsv.v.num as nat * (hsv.s.den as nat * full),
        Share::Second => hsv.v.num as nat * (hsv.s.num as nat * spec_fold(hsv.h) + rest * full),
        Share::Zero => hsv.v.num as nat * (rest * full),
    }
}

/// The channel with the share `share` of the colour `hsv`, on the scale
/// from 0 to `max`: its amount times `max`, rounded.
pub open spec fn spec_channel(hsv: ExactHSV, share: Share, max: nat) -> nat {
    spec_rescale(spec_amount(hsv, share), spec_amount_denominator(hsv), max)
}

/// Red, green and blue of the colour `hsv`, on the scale from 0 to `max`.
pub open spec fn spec_hsv_to_rgb(hsv: ExactHSV, max: nat) -> (nat, nat, nat) {
    let shares = spec_sector_shares(spec_sector(hsv.h));
    (
        spec_channel(hsv, shares.0, max),
        spec_channel(hsv, shares.1, max),
        spec_channel(hsv, shares.2, max),
    )
}

/// The amount of a channel is at most the denominator it is given over,
/// and the denominator is below 2 to the power of 96.
proof fn lemma_amount_bounds(hsv: ExactHSV, share: Share)
    requires
        convertible(hsv),
    ensures
        spec_fold(hsv.h) <= 60 * hsv.h.den,
        spec_sector(hsv.h) < 6,
        spec_amount(hsv, share) <= spec_amount_denominator(hsv),
        0 < spec_amount_denominator(hsv) < 0x1_0000_0000_0000_0000_0000_0000,
{
    let full = (60 * hsv.h.den) as nat;
    let (vn, vd) = (hsv.v.num as nat, hsv.v.den as nat);
    let (sn, sd) = (hsv.s.num as nat, hsv.s.den as nat);
    let rest = (sd - sn) as nat;
    let fold = spec_fold(hsv.h);
    let hn = hsv.h.num as nat;
    assert(hn / full < 6) by (nonlinear_arith)
        requires
            hn < 6 * full,
            0 < full,
    ;
    let cycle = (120 * hsv.h.den) as nat;
    assert(hn % cycle < cycle) by (nonlinear_arith)
        requires
            0 < cycle,
    ;
    assert(fold <= full);
    assert(sn * fold + rest * full <= sd * full) by (nonlinear_arith)
        requires
            fold <= full,
            sn + rest == sd,
    ;
    assert(rest * full <= sd * full) by (nonlinear_arith)
        requires
            rest <= sd,
    ;
    let inner = match share {
        Share::Chroma => sd * full,
        Share::Second => sn * fold + rest * full,
        Share::Zero => rest * full,
    };
    assert(vn * inner <= vd * (sd * full)) by (nonlinear_arith)
        requires
            vn <= vd,
            inner <= sd * full,
    ;
    assert(vd * (sd * full) == (vd * sd) * full) by (nonlinear_arith);
    assert(0 < (vd * sd) * full < 0x1_0000_0000_0000_0000_0000_0000) by (nonlinear_arith)
        requires
            0 < vd < 0x4000_0000,
            0 < sd < 0x4000_0000,
            0 < full < 0x10_0000_0000,
    ;
}

/// Computes the channel with the share `share` of the colour `hsv` on the
/// scale from 0 to `max`.
fn channel(hsv: &ExactHSV, share: Share, max: u32) -> (level: u32)
    requires
        convertible(*hsv),
    ensures
        level == spec_channel(*hsv, share, max as nat),
        level <= max,
{
    let full: u128 = 60 * hsv.h.den as u128;
    let turn: u128 = hsv.h.num as u128 % (2 * full);
    let fold: u128 = if turn <= full {
        turn
    } else {
        2 * full - turn
    };
    let rest: u128 = hsv.s.den as u128 - hsv.s.num as u128;
    let value: u128 = hsv.v.num as u128;
    let saturation: u128 = hsv.s.num as u128;
    proof {
        lemma_amount_bounds(*hsv, share);
        assert(saturation * fold < 0x4_0000_0000_0000_0000 && rest * full
            < 0x4_0000_0000_0000_0000 && hsv.s.den * full < 0x4_0000_0000_0000_0000
            && hsv.v.den * hsv.s.den < 0x1000_0000_0000_0000) by (nonlinear_arith)
            requires
                saturation <= hsv.s.den < 0x4000_0000,
                rest <= hsv.s.den,
                hsv.v.den < 0x4000_0000,
                fold <= full < 0x10_0000_0000,
        ;
    }
    let inner: u128 = match share {
        Share::Chroma => hsv.s.den as u128 * full,
        Share::Second => saturation * fold + rest * full,
        Share::Zero => rest * full,
    };
    assert(value * inner < 0x2_0000_0000_0000_0000_0000_0000) by (nonlinear_arith)
        requires
            value < 0x4000_0000,
            inner < 0x8_0000_0000_0000_0000,
    ;
    let amount: u128 = value * inner;
    let denominator: u128 = (hsv.v.den as u128 * hsv.s.den as u128) * full;
    rescale(amount, denominator, max)
}

/// Converts the colour `hsv` to red, green and blue on the scale from 0 to
/// `max`.
///
/// The hue picks one of six sectors, and the sector says which channel is
/// the strongest and which the weakest. Each channel is then its exact
/// amount times `max`, rounded to the nearest whole number.
pub fn hsv_to_levels(hsv: &ExactHSV, max: u32) -> (rgb: (u32, u32, u32))
    requires
        convertible(*hsv),
    ensures
        (rgb.0 as nat, rgb.1 as nat, rgb.2 as nat) == spec_hsv_to_rgb(*hsv, max as nat),
        rgb.0 <= max,
        rgb.1 <= max,
        rgb.2 <= max,
{
    proof {
        lemma_amount_bounds(*hsv, Share::Zero);
    }
    let sector = (hsv.h.num as u64 / (60 * hsv.h.den)) as u8;
    let shares = match sector_shares(sector) {
        Some(shares) => shares,
        None => (Share::Zero, Share::Zero, Share::Zero),
    };
    (channel(hsv, shares.0, max), channel(hsv, shares.1, max), channel(hsv, shares.2, max))
}

/// Converts the colour `hsv` to an RGB colour, each channel rounded to the
/// nearest value that the RGB colour has.
pub fn hsv_to_rgb<T, C: RGBColor<T>>(hsv: &ExactHSV) -> (rgb: C)
    requires
        convertible(*hsv),
    ensures
        (
            C::spec_level(rgb.spec_tuple().0),
            C::spec_level(rgb.spec_tuple().1),
            C::spec_level(rgb.spec_tuple().2),
        ) == spec_hsv_to_rgb(*hsv, C::spec_level(C::MAX)),
{
    proof {
        C::lemma_levels(C::MAX, C::MAX);
    }
    let (r, g, b) = hsv_to_levels(hsv, C::level(C::MAX));
    C::from_rgb(C::channel(r), C::channel(g), C::channel(b))
}

/// A channel that is a whole number of steps comes out as that number:
/// `level * unit` over `max * unit` is the level `level`.
proof fn lemma_rescale_exact(level: nat, unit: nat, max: nat)
    requires
        0 < unit,
        0 < max,
        level <= max,
    ensures
        spec_rescale(level * unit, max * unit, max) == level,
{
    let denominator = max * unit;
    assert(0 < denominator) by (nonlinear_arith)
        requires
            denominator == max * unit,
            0 < unit,
            0 < max,
    ;
    if level == max {
    } else {
        assert(level * unit < max * unit) by (nonlinear_arith)
            requires
                level < max,
                0 < unit,
        ;
        let half = denominator / 2;
        assert((level * unit) * max + half == level * denominator + half) by (nonlinear_arith)
            requires
                denominator == max * unit,
        ;
        lemma_fundamental_div_mod_converse(
            ((level * unit) * max + half) as int,
            denominator as int,
            level as int,
            half as int,
        );
    }
}

/// The three channels of a colour with a hue: where value, saturation and
/// the fold of the hue are those of a colour with the channels
/// `strongest`, `middle` and `weakest`, the three shares give these
/// channels back.
proof fn lemma_channels_of_shares(
    hsv: ExactHSV,
    max: nat,
    strongest: nat,
    middle: nat,
    weakest: nat,
)
    requires
        0 < max <= DENOMINATOR_LIMIT,
        weakest <= middle <= strongest <= max,
        weakest < strongest,
        hsv.v.num == strongest,
        hsv.v.den == max,
        hsv.s.num == strongest - weakest,
        hsv.s.den == strongest,
        hsv.h.den == strongest - weakest,
        spec_fold(hsv.h) == 60 * (middle - weakest),
    ensures
        spec_channel(hsv, Share::Chroma, max) == strongest,
        spec_channel(hsv, Share::Second, max) == middle,
        spec_channel(hsv, Share::Zero, max) == weakest,
{
    let delta = (strongest - weakest) as nat;
    let full = 60 * delta;
    let unit = strongest * full;
    let fold = spec_fold(hsv.h);
    assert(0 < unit) by (nonlinear_arith)
        requires
            unit == strongest * full,
            0 < strongest,
            0 < full,
    ;
    assert(spec_amount_denominator(hsv) == max * unit) by (nonlinear_arith)
        requires
            spec_amount_denominator(hsv) == (max * strongest) * full,
            unit == strongest * full,
    ;
    assert(spec_amount(hsv, Share::Chroma) == strongest * unit);
    assert(spec_amount(hsv, Share::Zero) == weakest * unit) by (nonlinear_arith)
        requires
            spec_amount(hsv, Share::Zero) == strongest * (weakest * full),
            unit == strongest * full,
    ;
    assert(spec_amount(hsv, Share::Second) == middle * unit) by (nonlinear_arith)
        requires
            spec_amount(hsv, Share::Second) == strongest * (delta * fold + weakest * full),
            fold == 60 * (middle - weakest),
            full == 60 * delta,
            unit == strongest * full,
            weakest <= middle,
    ;
    lemma_rescale_exact(strongest, unit, max);
    lemma_rescale_exact(middle, unit, max);
    lemma_rescale_exact(weakest, unit, max);
}

/// The sector and the fold of a hue that lies `offset` sixtieths of a
/// degree, over `delta`, into the sector `sector`.
proof fn lemma_sector_and_fold(h: Fraction, sector: nat, offset: nat)
    requires
        0 < h.den,
        sector < 6,
        offset < 60 * h.den,
        h.num == sector * (60 * h.den) + offset,
    ensures
        spec_sector(h) == sector,
        spec_fold(h) == if sector % 2 == 0 {
            offset
        } else {
            (60 * h.den - offset) as nat
        },
{
    let full = (60 * h.den) as nat;
    let hn = h.num as nat;
    lemma_fundamental_div_mod_converse(hn as int, full as int, sector as int, offset as int);
    let pair = sector / 2;
    let into_pair = if sector % 2 == 0 {
        offset
    } else {
        full + offset
    };
    assert(hn == pair * (2 * full) + into_pair) by (nonlinear_arith)
        requires
            hn == sector * full + offset,
            sector == 2 * pair + sector % 2,
            into_pair == if sector % 2 == 0 {
                offset
            } else {
                full + offset
            },
            sector % 2 == 0 || sector % 2 == 1,
    ;
    assert(2 * full == 120 * h.den);
    lemma_fundamental_div_mod_converse(
        hn as int,
        (120 * h.den) as int,
        pair as int,
        into_pair as int,
    );
}

/// The round trip for a colour without a hue: all channels equal.
proof fn lemma_round_trip_gray(level: nat, max: nat)
    requires
        0 < max <= DENOMINATOR_LIMIT,
        level <= max,
    ensures
        convertible(spec_rgb_to_hsv(level as int, level as int, level as int, max as int)),
        spec_hsv_to_rgb(
            spec_rgb_to_hsv(level as int, level as int, level as int, max as int),
            max,
        ) == (level, level, level),
{
    let hsv = spec_rgb_to_hsv(level as int, level as int, level as int, max as int);
    lemma_sector_and_fold(hsv.h, 0, 0);
    let unit = hsv.s.den as nat * 60;
    assert(spec_amount_denominator(hsv) == max * unit) by (nonlinear_arith)
        requires
            spec_amount_denominator(hsv) == (max * hsv.s.den) * 60,
            unit == hsv.s.den as nat * 60,
    ;
    assert(hsv.s.num as nat * spec_fold(hsv.h) == 0) by (nonlinear_arith)
        requires
            hsv.s.num == 0,
    ;
    lemma_rescale_exact(level, unit, max);
}

/// The round trip for a colour with a hue: not all channels equal.
proof fn lemma_round_trip_chromatic(r: nat, g: nat, b: nat, max: nat)
    requires
        0 < max <= DENOMINATOR_LIMIT,
        r <= max,
        g <= max,
        b <= max,
        !(r == g && g == b),
    ensures
        convertible(spec_rgb_to_hsv(r as int, g as int, b as int, max as int)),
        spec_hsv_to_rgb(spec_rgb_to_hsv(r as int, g as int, b as int, max as int), max) == (
            r,
            g,
            b,
        ),
{
    let hsv = spec_rgb_to_hsv(r as int, g as int, b as int, max as int);
    let delta = spec_delta(r as int, g as int, b as int) as nat;
    let full = 60 * delta;
    if r >= g && r >= b {
        if g >= b {
            if g < r {
                lemma_sector_and_fold(hsv.h, 0, (60 * (g - b)) as nat);
                lemma_channels_of_shares(hsv, max, r, g, b);
            } else {
                lemma_sector_and_fold(hsv.h, 1, 0);
                lemma_channels_of_shares(hsv, max, r, g, b);
            }
        } else {
            lemma_sector_and_fold(hsv.h, 5, (full - 60 * (b - g)) as nat);
            lemma_channels_of_shares(hsv, max, r, b, g);
        }
    } else if g >= b {
        if b >= r {
            if b < g {
                lemma_sector_and_fold(hsv.h, 2, (60 * (b - r)) as nat);
                lemma_channels_of_shares(hsv, max, g, b, r);
            } else {
                lemma_sector_and_fold(hsv.h, 3, 0);
                lemma_channels_of_shares(hsv, max, g, b, r);
            }
        } else {
            lemma_sector_and_fold(hsv.h, 1, (full - 60 * (r - b)) as nat);
            lemma_channels_of_shares(hsv, max, g, r, b);
        }
    } else {
        if r >= g {
            lemma_sector_and_fold(hsv.h, 4, (60 * (r - g)) as nat);
            lemma_channels_of_shares(hsv, max, b, r, g);
        } else {
            lemma_sector_and_fold(hsv.h, 3, (full - 60 * (g - r)) as nat);
            lemma_channels_of_shares(hsv, max, b, g, r);
        }
    }
}

/// Converting a colour to hue, saturation and value and back gives the
/// colour again, at every depth up to 30 bits.
pub proof fn lemma_rgb_hsv_round_trip(r: nat, g: nat, b: nat, max: nat)
    requires
        0 < max <= DENOMINATOR_LIMIT,
        r <= max,
        g <= max,
        b <= max,
    ensures
        convertible(spec_rgb_to_hsv(r as int, g as int, b as int, max as int)),
        spec_hsv_to_rgb(spec_rgb_to_hsv(r as int, g as int, b as int, max as int), max) == (
            r,
            g,
            b,
        ),
{
    if r == g && g == b {
        lemma_round_trip_gray(r, max);
    } else {
        lemma_round_trip_chromatic(r, g, b, max);
    }
}

/// The colour of the hue `h` at full saturation and value.
pub open spec fn spec_pure(h: Fraction) -> ExactHSV {
    ExactHSV { h, s: Fraction { num: 1, den: 1 }, v: Fraction { num: 1, den: 1 } }
}

/// The channels of a pure hue: the strongest is full, the weakest empty,
/// and the one between them is the fold of the hue, rounded to the nearest
/// step.
proof fn lemma_channels_of_pure(h: Fraction, max: nat)
    requires
        0 < h.den,
        0 < max,
    ensures
        spec_channel(spec_pure(h), Share::Chroma, max) == max,
        spec_channel(spec_pure(h), Share::Zero, max) == 0,
        spec_channel(spec_pure(h), Share::Second, max) == spec_rescale(
            spec_fold(h),
            (60 * h.den) as nat,
            max,
        ),
{
    let full = (60 * h.den) as nat;
    let hsv = spec_pure(h);
    assert(spec_amount_denominator(hsv) == full) by (nonlinear_arith)
        requires
            spec_amount_denominator(hsv) == (1 * 1) as nat * full,
    ;
    assert(spec_amount(hsv, Share::Chroma) == full) by (nonlinear_arith)
        requires
            spec_amount(hsv, Share::Chroma) == 1 * (1 * full),
    ;
    assert(spec_amount(hsv, Share::Zero) == 0) by (nonlinear_arith)
        requires
            spec_amount(hsv, Share::Zero) == 1 * (0 * full),
    ;
    assert(spec_amount(hsv, Share::Second) == spec_fold(h)) by (nonlinear_arith)
        requires
            spec_amount(hsv, Share::Second) == 1 * (1 * spec_fold(h) + 0 * full),
    ;
    lemma_rescale_bounds(0, full, max);
}

/// A pure hue comes back from RGB within half a step of a channel, which
/// is `30 / max` degrees, measured the short way round the circle. The six
/// hues at the start of a sector, from 0 to 300 degrees, come back as they
/// are.
///
/// With `back` the hue of the RGB colour that the pure hue `h` gives on
/// the scale from 0 to `max`, the distance between `back` and `h`, taken
/// in units of `1 / (max * h.den)` degrees, is at most `30 * h.den`,
/// either directly or through the full turn.
pub proof fn lemma_pure_hue_round_trip(h: Fraction, max: nat)
    requires
        0 <= h.num,
        h.below(360),
        0 < h.den,
        0 < max,
    ensures
        ({
            let rgb = spec_hsv_to_rgb(spec_pure(h), max);
            let back = spec_hue(rgb.0 as int, rgb.1 as int, rgb.2 as int);
            let there = back.0 * h.den;
            let here = h.num * max;
            let apart = if there >= here {
                there - here
            } else {
                here - there
            };
            &&& back.1 == max
            &&& 0 <= back.0 < 360 * max
            &&& 2 * apart <= 60 * h.den || 2 * (360 * max * h.den - apart) <= 60 * h.den
            &&& h.num as int % (60 * h.den) as int == 0 ==> apart == 0
        }),
{
    let full = (60 * h.den) as nat;
    let hn = h.num as nat;
    let sector = hn / full;
    let offset = hn % full;
    assert(sector < 6 && offset < full && hn == sector * full + offset) by (nonlinear_arith)
        requires
            hn < 6 * full,
            0 < full,
            sector == hn / full,
            offset == hn % full,
    ;
    lemma_sector_and_fold(h, sector, offset);
    lemma_channels_of_pure(h, max);
    let fold = spec_fold(h);
    let m = spec_rescale(fold, full, max);
    lemma_rescale_bounds(fold, full, max);
    lemma_rescale_nearest(fold, full, max);
    let rgb = spec_hsv_to_rgb(spec_pure(h), max);
    let back = spec_hue(rgb.0 as int, rgb.1 as int, rgb.2 as int);
    let there = back.0 * h.den;
    let here = h.num * max;
    // `back.0` in terms of `m`, sector by sector
    let turned: int = if sector == 0 {
        60 * m as int
    } else if sector == 1 {
        120 * max - 60 * m
    } else if sector == 2 {
        120 * max as int + 60 * m
    } else if sector == 3 {
        240 * max - 60 * m
    } else if sector == 4 {
        240 * max as int + 60 * m
    } else if m > 0 {
        360 * max - 60 * m
    } else {
        0
    };
    assert(back.0 == turned && back.1 == max);
    // the hue in terms of the fold
    let signed: int = if sector % 2 == 0 {
        fold as int
    } else {
        full - fold
    };
    assert(here == (sector * full + signed) * max) by (nonlinear_arith)
        requires
            here == h.num * max,
            h.num == sector * full + offset,
            signed == offset,
    ;
    if sector == 5 && m == 0 {
        assert(360 * max * h.den - here == fold * max) by (nonlinear_arith)
            requires
                here == (5 * full + (full - fold)) * max,
                full == 60 * h.den,
        ;
        assert(there == 0) by (nonlinear_arith)
            requires
                there == 0 * h.den,
        ;
    } else {
        let direct = m * full - fold * max;
        assert(there - here == direct || here - there == direct) by (nonlinear_arith)
            requires
                there == turned * h.den,
                here == (sector * full + signed) * max,
                full == 60 * h.den,
                direct == m * full - fold * max,
                (sector == 0 && turned == 60 * m && signed == fold) || (sector == 1 && turned == 120
                    * max - 60 * m && signed == full - fold) || (sector == 2 && turned == 120 * max
                    + 60 * m && signed == fold) || (sector == 3 && turned == 240 * max - 60 * m
                    && signed == full - fold) || (sector == 4 && turned == 240 * max + 60 * m
                    && signed == fold) || (sector == 5 && turned == 360 * max - 60 * m && signed
                    == full - fold),
        ;
    }
    let apart = if there >= here {
        there - here
    } else {
        here - there
    };
    if sector == 5 && m == 0 {
        assert(m * full == 0) by (nonlinear_arith)
            requires
                m == 0,
        ;
        assert(2 * (360 * max * h.den - apart) <= 60 * h.den);
    } else {
        assert(2 * apart <= 60 * h.den);
    }
    if offset == 0 {
        // the fold is nothing or all, and so is the channel in the middle
        assert(fold * max == m * full) by (nonlinear_arith)
            requires
                (fold == 0 && m == 0) || (fold == full && m == max),
        ;
    }
}

/// What one step of an 8-bit channel is worth on a 16-bit channel: the
/// largest 16-bit value over the largest 8-bit value, a whole number.
pub const DEPTH_FACTOR: u16 = 65535 / 255;

/// The 16-bit channel that stands for the same share as the 8-bit channel
/// `narrow`.
pub open spec fn upscale_channel(narrow: u8) -> u16 {
    (narrow * DEPTH_FACTOR) as u16
}

/// The 8-bit channel that the 16-bit channel `wide` falls into.
pub open spec fn downscale_channel(wide: u16) -> u8 {
    (wide / DEPTH_FACTOR) as u8
}

/// The 48-bit colour that stands for the 24-bit colour `narrow`.
pub open spec fn upscale(narrow: (u8, u8, u8)) -> (u16, u16, u16) {
    (upscale_channel(narrow.0), upscale_channel(narrow.1), upscale_channel(narrow.2))
}

/// The 24-bit colour that the 48-bit colour `wide` falls into.
pub open spec fn downscale(wide: (u16, u16, u16)) -> (u8, u8, u8) {
    (downscale_channel(wide.0), downscale_channel(wide.1), downscale_channel(wide.2))
}

/// The factor between the two depths is exact: 255 steps of it reach the
/// largest 16-bit value, so that full stays full and no channel overflows.
pub proof fn lemma_depth_factor_exact()
    ensures
        DEPTH_FACTOR == 257,
        255 * DEPTH_FACTOR == 65535,
        65535int % 255 == 0,
{
}

/// Widening a colour and narrowing it again gives the colour back.
pub proof fn lemma_downscale_upscale(narrow: (u8, u8, u8))
    ensures
        downscale(upscale(narrow)) == narrow,
{
}

/// Narrowing a colour loses detail: a 48-bit colour exists that narrowing
/// and widening again does not give back.
pub proof fn lemma_upscale_downscale_lossy()
    ensures
        exists|wide: (u16, u16, u16)| upscale(downscale(wide)) != wide,
{
    let wide = (1u16, 0u16, 0u16);
    assert(upscale(downscale(wide)) != wide);
}

/// Narrowing and widening again gives a colour back exactly where each of
/// its channels is a multiple of the factor between the depths.
pub proof fn lemma_upscale_downscale(wide: (u16, u16, u16))
    ensures
        upscale(downscale(wide)) == wide <==> wide.0 % DEPTH_FACTOR == 0 && wide.1 % DEPTH_FACTOR
            == 0 && wide.2 % DEPTH_FACTOR == 0,
{
}

/// A colour keeps hue, saturation and value when it is widened from 24 to
/// 48 bits.
pub proof fn lemma_upscale_keeps_hsv(narrow: (u8, u8, u8))
    ensures
        spec_rgb_to_hsv(
            upscale(narrow).0 as int,
            upscale(narrow).1 as int,
            upscale(narrow).2 as int,
            65535,
        ).spec_same_color(
            spec_rgb_to_hsv(narrow.0 as int, narrow.1 as int, narrow.2 as int, 255),
        ),
{
    let (r, g, b) = (narrow.0 as int, narrow.1 as int, narrow.2 as int);
    let (wr, wg, wb) = (257 * r, 257 * g, 257 * b);
    assert(upscale(narrow) == (wr as u16, wg as u16, wb as u16));
    assert(max_of_three(wr, wg, wb) == 257 * max_of_three(r, g, b));
    assert(min_of_three(wr, wg, wb) == 257 * min_of_three(r, g, b));
    let hue = spec_hue(r, g, b);
    let wide_hue = spec_hue(wr, wg, wb);
    assert(wide_hue.0 == 257 * hue.0 || (wide_hue.0 == 0 && hue.0 == 0));
    assert(wide_hue.1 == 257 * hue.1 || (wide_hue.1 == 1 && hue.1 == 1));
    assert(wide_hue.0 * hue.1 == hue.0 * wide_hue.1) by (nonlinear_arith)
        requires
            wide_hue.0 == 257 * hue.0 || (wide_hue.0 == 0 && hue.0 == 0),
            wide_hue.1 == 257 * hue.1 || (wide_hue.1 == 1 && hue.1 == 1),
            hue.0 == 0 || wide_hue.1 == 257 * hue.1,
    ;
    let sat = spec_saturation(r, g, b);
    let wide_sat = spec_saturation(wr, wg, wb);
    assert(wide_sat.0 * sat.1 == sat.0 * wide_sat.1) by (nonlinear_arith)
        requires
            (wide_sat.0 == 257 * sat.0 && wide_sat.1 == 257 * sat.1) || (wide_sat == sat),
    ;
    let val = spec_value(r, g, b, 255);
    let wide_val = spec_value(wr, wg, wb, 65535);
    assert(wide_val.0 * val.1 == val.0 * wide_val.1) by (nonlinear_arith)
        requires
            wide_val.0 == 257 * val.0,
            wide_val.1 == 257 * val.1,
    ;
}

/// Converts the given `RGB24` to `RGB48`. Nothing is lost: `rgb48_to_rgb24`
/// gives the colour back.
pub fn rgb24_to_rgb48(rgb: &RGB24) -> (wide: RGB48)
    ensures
        wide@ == upscale(rgb@),
        downscale(wide@) == rgb@,
{
    RGB48::from_rgb(
        rgb.red() as u16 * DEPTH_FACTOR,
        rgb.green() as u16 * DEPTH_FACTOR,
        rgb.blue() as u16 * DEPTH_FACTOR,
    )
}

/// Converts the given `RGB48` to `RGB24`. Each channel is divided by the
/// factor between the depths, and the remainder is lost.
pub fn rgb48_to_rgb24(rgb: &RGB48) -> (narrow: RGB24)
    ensures
        narrow@ == downscale(rgb@),
{
    RGB24::from_rgb(
        (rgb.red() / DEPTH_FACTOR) as u8,
        (rgb.green() / DEPTH_FACTOR) as u8,
        (rgb.blue() / DEPTH_FACTOR) as u8,
    )
}

} // verus!
