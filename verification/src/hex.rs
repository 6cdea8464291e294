//! Hexadecimal digits and numbers as text.
//!
//! A colour is written as three or six hexadecimal digits. This module holds
//! what both directions rest on: the value of a digit, the number that a run
//! of digits denotes, and the digits of a number at a fixed width.

use vstd::prelude::*;
use vstd::string::StringExecFns;
use crate::error::ColorError;
use crate::fraction::Fraction;
use crate::number_utils::{lemma_rescale_bounds, lemma_rescale_nearest, spec_to_channel_repr};

verus! {

/// The value of the hexadecimal digit `c`, in either case; `None` where `c`
/// is no hexadecimal digit.
pub open spec fn hex_digit_value(c: char) -> Option<nat> {
    if '0' <= c && c <= '9' {
        Some((c as nat - '0' as nat) as nat)
    } else if 'a' <= c && c <= 'f' {
        Some((c as nat - 'a' as nat + 10) as nat)
    } else if 'A' <= c && c <= 'F' {
        Some((c as nat - 'A' as nat + 10) as nat)
    } else {
        None
    }
}

/// Whether `c` is one of `0` to `9`, `a` to `f` or `A` to `F`.
pub open spec fn is_hex_digit(c: char) -> bool {
    hex_digit_value(c) is Some
}

/// Whether every character of `s` is a hexadecimal digit.
pub open spec fn all_hex_digits(s: Seq<char>) -> bool {
    forall|i: int| 0 <= i < s.len() ==> is_hex_digit(#[trigger] s[i])
}

/// The number that the digits `s` denote, the first digit weighing most.
pub open spec fn hex_number(s: Seq<char>) -> nat
    decreases s.len(),
{
    if s.len() == 0 {
        0
    } else {
        16 * hex_number(s.drop_last()) + hex_digit_value(s.last()).unwrap()
    }
}

/// The character that stands for `v` in lower-case hexadecimal; `v` is
/// below 16.
pub open spec fn lower_hex_digit(v: nat) -> char {
    if v < 10 {
        (('0' as nat + v) as u8) as char
    } else {
        (('a' as nat + v - 10) as u8) as char
    }
}

/// The last `width` hexadecimal digits of `n` in lower case, with leading
/// zeros where `n` has fewer.
pub open spec fn hex_digits(n: nat, width: nat) -> Seq<char>
    decreases width,
{
    if width == 0 {
        Seq::empty()
    } else {
        hex_digits(n / 16, (width - 1) as nat).push(lower_hex_digit(n % 16))
    }
}

/// 16 to the power of `width`.
pub open spec fn pow16(width: nat) -> nat
    decreases width,
{
    if width == 0 {
        1
    } else {
        16 * pow16((width - 1) as nat)
    }
}

/// A lower-case digit has the value it was made from.
pub proof fn lemma_lower_hex_digit_value(v: nat)
    requires
        v < 16,
    ensures
        hex_digit_value(lower_hex_digit(v)) == Some(v),
{
}

/// Appending a digit multiplies the number by 16 and adds the digit.
pub proof fn lemma_hex_number_push(s: Seq<char>, c: char)
    ensures
        hex_number(s.push(c)) == 16 * hex_number(s) + hex_digit_value(c).unwrap(),
{
    assert(s.push(c).drop_last() =~= s);
}

/// A number of `n` digits is below 16 to the power of `n`.
pub proof fn lemma_hex_number_bound(s: Seq<char>)
    requires
        all_hex_digits(s),
    ensures
        hex_number(s) < pow16(s.len()),
    decreases s.len(),
{
    if s.len() > 0 {
        let front = s.drop_last();
        assert forall|i: int| 0 <= i < front.len() implies is_hex_digit(#[trigger] front[i]) by {
            assert(front[i] == s[i]);
        }
        lemma_hex_number_bound(front);
        assert(is_hex_digit(s[s.len() - 1]));
    }
}

/// `hex_digits` yields `width` characters, all of them hexadecimal digits.
pub proof fn lemma_hex_digits_shape(n: nat, width: nat)
    ensures
        hex_digits(n, width).len() == width,
        all_hex_digits(hex_digits(n, width)),
    decreases width,
{
    if width > 0 {
        lemma_hex_digits_shape(n / 16, (width - 1) as nat);
        lemma_lower_hex_digit_value(n % 16);
        let front = hex_digits(n / 16, (width - 1) as nat);
        let all = hex_digits(n, width);
        assert forall|i: int| 0 <= i < all.len() implies is_hex_digit(#[trigger] all[i]) by {
            if i < front.len() {
                assert(all[i] == front[i]);
            }
        }
    }
}

/// Reading back the digits of a number that fits the width gives the number.
pub proof fn lemma_hex_number_of_digits(n: nat, width: nat)
    requires
        n < pow16(width),
    ensures
        hex_number(hex_digits(n, width)) == n,
    decreases width,
{
    if width > 0 {
        lemma_hex_number_of_digits(n / 16, (width - 1) as nat);
        lemma_hex_number_push(hex_digits(n / 16, (width - 1) as nat), lower_hex_digit(n % 16));
        lemma_lower_hex_digit_value(n % 16);
    }
}

/// The channel that the two digits `high` and `low` denote.
pub open spec fn channel_of_pair(high: char, low: char) -> u8 {
    (16 * hex_digit_value(high).unwrap() + hex_digit_value(low).unwrap()) as u8
}

/// The channel that the single digit `d` denotes: its value, stretched
/// from the scale 0 to 15 to the scale 0 to 255 by the factor `255 / 15`.
pub open spec fn channel_of_digit(d: char) -> u8 {
    (hex_digit_value(d).unwrap() * (255nat / 15)) as u8
}

/// The colour that the text `s` denotes, as red, green and blue.
///
/// Six digits are three pairs, one per channel. Three digits are one digit
/// per channel. A text of any other length is an `InvalidFormat`; one of
/// the right length with a character that is no hexadecimal digit is an
/// `InvalidDigit`.
pub open spec fn rgb_from_hex(s: Seq<char>) -> Result<(u8, u8, u8), ColorError> {
    if s.len() != 3 && s.len() != 6 {
        Err(ColorError::InvalidFormat)
    } else if !all_hex_digits(s) {
        Err(ColorError::InvalidDigit)
    } else if s.len() == 6 {
        Ok((channel_of_pair(s[0], s[1]), channel_of_pair(s[2], s[3]), channel_of_pair(s[4], s[5])))
    } else {
        Ok((channel_of_digit(s[0]), channel_of_digit(s[1]), channel_of_digit(s[2])))
    }
}

/// Whether a channel of `base` levels scales to a full channel by a whole
/// factor: 2, 4 and 8 bits do.
pub open spec fn supported_base(base: nat) -> bool {
    base == 4 || base == 16 || base == 256
}

/// The last digit of `digits` to the base `base`, stretched from the scale
/// 0 to `base - 1` to the scale 0 to 255: multiplied by `255 / (base - 1)`,
/// which is 85, 17 or 1 for the supported bases.
pub open spec fn stretched_digit(digits: nat, base: nat) -> u8 {
    let digit = digits % base;
    if base == 4 {
        (digit * 85) as u8
    } else if base == 16 {
        (digit * 17) as u8
    } else {
        digit as u8
    }
}

/// The colour that `value` packs, as red, green and blue.
///
/// The last three digits of `value` to the base `base` are the channels,
/// blue last, each stretched to the scale 0 to 255. Digits above these
/// three do not count.
pub open spec fn rgb_from_int(value: nat, base: nat) -> (u8, u8, u8) {
    (
        stretched_digit(value / base / base, base),
        stretched_digit(value / base, base),
        stretched_digit(value, base),
    )
}

/// For a supported base, a stretched digit is the digit times the whole
/// number `255 / (base - 1)`, and fits a channel.
pub proof fn lemma_stretched_digit(digits: nat, base: nat)
    requires
        supported_base(base),
    ensures
        stretched_digit(digits, base) == digits % base * (255int / (base - 1)),
        255int % (base - 1) == 0,
{
    let factor = 255int / (base - 1);
    let digit = digits % base;
    assert(255int % (base - 1) == 0 && 0 <= digit < base && factor * (base - 1) == 255)
        by (nonlinear_arith)
        requires
            base == 4 || base == 16 || base == 256,
            factor == 255int / (base - 1),
            digit == digits % base,
    ;
    assert(digit * factor == if base == 4 {
        digit * 85
    } else if base == 16 {
        digit * 17
    } else {
        digit
    }) by (nonlinear_arith)
        requires
            base == 4 || base == 16 || base == 256,
            factor * (base - 1) == 255,
    ;
}

/// The number that packs the colour `c`, eight bits per channel, red first.
pub open spec fn rgb_packed(c: (u8, u8, u8)) -> nat {
    (c.0 as nat) * 0x10000 + (c.1 as nat) * 0x100 + c.2 as nat
}

/// The six-digit text of the colour `c`: its packed number in lower case.
pub open spec fn rgb_to_hex(c: (u8, u8, u8)) -> Seq<char> {
    hex_digits(rgb_packed(c), 6)
}

/// The level from 0 to 15 that is nearest to the 8-bit channel `channel`:
/// `channel / 255 * 15`, rounded.
pub open spec fn short_level(channel: u8) -> nat {
    spec_to_channel_repr(Fraction { num: channel as i64, den: 255 }, 15)
}

/// The three-digit text of the colour `c`: each channel rounded to the
/// nearest of 16 levels, the levels packed four bits each, in lower case.
pub open spec fn rgb_to_hex_short(c: (u8, u8, u8)) -> Seq<char> {
    hex_digits(short_level(c.0) * 0x100 + short_level(c.1) * 0x10 + short_level(c.2), 3)
}

/// The number that three digits denote, by the values of the digits.
pub proof fn lemma_hex_number_3(s: Seq<char>)
    requires
        s.len() == 3,
    ensures
        hex_number(s) == hex_digit_value(s[0]).unwrap() * 0x100 + hex_digit_value(s[1]).unwrap()
            * 0x10 + hex_digit_value(s[2]).unwrap(),
{
    let s0 = Seq::<char>::empty();
    let s1 = s0.push(s[0]);
    let s2 = s1.push(s[1]);
    assert(s =~= s2.push(s[2]));
    lemma_hex_number_push(s0, s[0]);
    lemma_hex_number_push(s1, s[1]);
    lemma_hex_number_push(s2, s[2]);
}

/// The number that six digits denote, by the values of the digits.
pub proof fn lemma_hex_number_6(s: Seq<char>)
    requires
        s.len() == 6,
    ensures
        hex_number(s) == hex_digit_value(s[0]).unwrap() * 0x10_0000 + hex_digit_value(
            s[1],
        ).unwrap() * 0x1_0000 + hex_digit_value(s[2]).unwrap() * 0x1000 + hex_digit_value(
            s[3],
        ).unwrap() * 0x100 + hex_digit_value(s[4]).unwrap() * 0x10 + hex_digit_value(
            s[5],
        ).unwrap(),
{
    let s0 = Seq::<char>::empty();
    let s1 = s0.push(s[0]);
    let s2 = s1.push(s[1]);
    let s3 = s2.push(s[2]);
    let s4 = s3.push(s[3]);
    let s5 = s4.push(s[4]);
    assert(s =~= s5.push(s[5]));
    lemma_hex_number_push(s0, s[0]);
    lemma_hex_number_push(s1, s[1]);
    lemma_hex_number_push(s2, s[2]);
    lemma_hex_number_push(s3, s[3]);
    lemma_hex_number_push(s4, s[4]);
    lemma_hex_number_push(s5, s[5]);
}

/// The colour that a number of three hexadecimal digits packs, 16 levels
/// per channel.
proof fn lemma_rgb_from_int_16(d0: nat, d1: nat, d2: nat)
    requires
        d0 < 16,
        d1 < 16,
        d2 < 16,
    ensures
        rgb_from_int(d0 * 0x100 + d1 * 0x10 + d2, 16) == ((17 * d0) as u8, (17 * d1) as u8, (17
            * d2) as u8),
{
    let value = d0 * 0x100 + d1 * 0x10 + d2;
    assert(value % 16 == d2);
    assert((value / 16) % 16 == d1);
    assert(value / 16 / 16 % 16 == d0);
}

/// The colour that a number of six hexadecimal digits packs, 256 levels
/// per channel.
proof fn lemma_rgb_from_int_256(r: nat, g: nat, b: nat)
    requires
        r < 256,
        g < 256,
        b < 256,
    ensures
        rgb_from_int(r * 0x1_0000 + g * 0x100 + b, 256) == (r as u8, g as u8, b as u8),
{
    let value = r * 0x1_0000 + g * 0x100 + b;
    assert(value % 256 == b);
    assert((value / 256) % 256 == g);
    assert(value / 256 / 256 % 256 == r);
}

/// The number that three digits denote packs the colour that they denote
/// one by one, and likewise six digits pair by pair.
pub proof fn lemma_rgb_from_hex_number(s: Seq<char>)
    requires
        s.len() == 3 || s.len() == 6,
        all_hex_digits(s),
    ensures
        s.len() == 3 ==> rgb_from_hex(s) == Ok::<_, ColorError>(rgb_from_int(hex_number(s), 16)),
        s.len() == 6 ==> rgb_from_hex(s) == Ok::<_, ColorError>(rgb_from_int(hex_number(s), 256)),
        hex_number(s) < 0x100_0000,
{
    assert(is_hex_digit(s[0]) && is_hex_digit(s[1]) && is_hex_digit(s[2]));
    let d0 = hex_digit_value(s[0]).unwrap();
    let d1 = hex_digit_value(s[1]).unwrap();
    let d2 = hex_digit_value(s[2]).unwrap();
    if s.len() == 3 {
        lemma_hex_number_3(s);
        lemma_rgb_from_int_16(d0, d1, d2);
    } else {
        assert(is_hex_digit(s[3]) && is_hex_digit(s[4]) && is_hex_digit(s[5]));
        let d3 = hex_digit_value(s[3]).unwrap();
        let d4 = hex_digit_value(s[4]).unwrap();
        let d5 = hex_digit_value(s[5]).unwrap();
        lemma_hex_number_6(s);
        lemma_rgb_from_int_256(16 * d0 + d1, 16 * d2 + d3, 16 * d4 + d5);
    }
}

/// The digits of a number at the widths 1, 2 and 3.
proof fn lemma_hex_digits_3(n: nat)
    ensures
        hex_digits(n, 1) == seq![lower_hex_digit(n % 16)],
        hex_digits(n, 2) == seq![lower_hex_digit(n / 0x10 % 16), lower_hex_digit(n % 16)],
        hex_digits(n, 3) == seq![
            lower_hex_digit(n / 0x100 % 16),
            lower_hex_digit(n / 0x10 % 16),
            lower_hex_digit(n % 16),
        ],
{
    assert(hex_digits(n / 0x100, 1) =~= seq![lower_hex_digit(n / 0x100 % 16)]) by {
        reveal_with_fuel(hex_digits, 2);
    }
    assert(hex_digits(n / 0x10, 1) =~= seq![lower_hex_digit(n / 0x10 % 16)]) by {
        reveal_with_fuel(hex_digits, 2);
    }
    assert(hex_digits(n, 1) =~= seq![lower_hex_digit(n % 16)]) by {
        reveal_with_fuel(hex_digits, 2);
    }
    assert(n / 0x10 / 16 == n / 0x100);
    assert(hex_digits(n / 0x10, 2) =~= seq![
        lower_hex_digit(n / 0x100 % 16),
        lower_hex_digit(n / 0x10 % 16),
    ]);
    assert(hex_digits(n, 2) =~= seq![lower_hex_digit(n / 0x10 % 16), lower_hex_digit(n % 16)]);
    assert(hex_digits(n, 3) =~= seq![
        lower_hex_digit(n / 0x100 % 16),
        lower_hex_digit(n / 0x10 % 16),
        lower_hex_digit(n % 16),
    ]);
}

/// The digits of a number at the width 6 are those of its upper part at the
/// width 3, then those of the number at the width 3.
proof fn lemma_hex_digits_6(n: nat)
    ensures
        hex_digits(n, 6) == hex_digits(n / 0x1000, 3) + hex_digits(n, 3),
{
    let upper = hex_digits(n / 0x1000, 3);
    assert(n / 16 / 16 / 16 == n / 0x1000);
    lemma_hex_digits_3(n);
    assert(hex_digits(n / 0x100, 4) =~= upper + seq![lower_hex_digit(n / 0x100 % 16)]) by {
        assert(n / 0x100 / 16 == n / 0x1000);
    }
    assert(hex_digits(n / 0x10, 5) =~= upper + seq![
        lower_hex_digit(n / 0x100 % 16),
        lower_hex_digit(n / 0x10 % 16),
    ]) by {
        assert(n / 0x10 / 16 == n / 0x100);
    }
    assert(hex_digits(n, 6) =~= upper + hex_digits(n, 3));
}

/// The six hexadecimal digits of a packed colour are the upper and the
/// lower half of each channel.
proof fn lemma_packed_nibbles(r: nat, g: nat, b: nat)
    requires
        r < 256,
        g < 256,
        b < 256,
    ensures
        ({
            let n = r * 0x10000 + g * 0x100 + b;
            &&& n % 16 == b % 16
            &&& n / 0x10 % 16 == b / 16
            &&& n / 0x100 % 16 == g % 16
            &&& n / 0x1000 % 16 == g / 16
            &&& n / 0x1000 / 0x10 % 16 == r % 16
            &&& n / 0x1000 / 0x100 % 16 == r / 16
        }),
{
    let n = r * 0x10000 + g * 0x100 + b;
    assert(n / 0x100 == r * 0x100 + g);
    assert(n / 0x1000 == r * 0x10 + g / 16);
    assert(n / 0x1000 / 0x10 == r);
    assert(n / 0x1000 / 0x100 == r / 16);
    assert(n / 0x10 == r * 0x1000 + g * 0x10 + b / 16);
}

/// The six-digit text of a colour, digit by digit: two digits per channel,
/// the upper four bits first.
pub proof fn lemma_rgb_to_hex_digits(c: (u8, u8, u8))
    ensures
        rgb_to_hex(c) == seq![
            lower_hex_digit(c.0 as nat / 16),
            lower_hex_digit(c.0 as nat % 16),
            lower_hex_digit(c.1 as nat / 16),
            lower_hex_digit(c.1 as nat % 16),
            lower_hex_digit(c.2 as nat / 16),
            lower_hex_digit(c.2 as nat % 16),
        ],
{
    let n = rgb_packed(c);
    let (r, g, b) = (c.0 as nat, c.1 as nat, c.2 as nat);
    lemma_hex_digits_6(n);
    lemma_hex_digits_3(n);
    lemma_hex_digits_3(n / 0x1000);
    lemma_packed_nibbles(r, g, b);
    let upper = seq![lower_hex_digit(r / 16), lower_hex_digit(r % 16), lower_hex_digit(g / 16)];
    let lower = seq![lower_hex_digit(g % 16), lower_hex_digit(b / 16), lower_hex_digit(b % 16)];
    assert(hex_digits(n / 0x1000, 3) == upper);
    assert(hex_digits(n, 3) == lower);
    assert(upper + lower =~= seq![
        lower_hex_digit(r / 16),
        lower_hex_digit(r % 16),
        lower_hex_digit(g / 16),
        lower_hex_digit(g % 16),
        lower_hex_digit(b / 16),
        lower_hex_digit(b % 16),
    ]);
}

/// The three-digit text of a colour, digit by digit: one level per channel.
pub proof fn lemma_rgb_to_hex_short_digits(c: (u8, u8, u8))
    ensures
        short_level(c.0) <= 15,
        short_level(c.1) <= 15,
        short_level(c.2) <= 15,
        rgb_to_hex_short(c) == seq![
            lower_hex_digit(short_level(c.0)),
            lower_hex_digit(short_level(c.1)),
            lower_hex_digit(short_level(c.2)),
        ],
{
    lemma_rescale_bounds(c.0 as nat, 255, 15);
    lemma_rescale_bounds(c.1 as nat, 255, 15);
    lemma_rescale_bounds(c.2 as nat, 255, 15);
    let (r, g, b) = (short_level(c.0), short_level(c.1), short_level(c.2));
    let n = r * 0x100 + g * 0x10 + b;
    lemma_hex_digits_3(n);
    assert(n % 16 == b);
    assert(n / 0x10 % 16 == g);
    assert(n / 0x100 % 16 == r);
}

/// Reading the three-digit text of a colour gives the colour of the 16
/// levels that is nearest to it: each channel is its level times 17, and
/// no further than 8 from the channel it was made from.
pub proof fn lemma_hex_short_round_trip(c: (u8, u8, u8))
    ensures
        rgb_from_hex(rgb_to_hex_short(c)) == Ok::<_, ColorError>(
            (
                (17 * short_level(c.0)) as u8,
                (17 * short_level(c.1)) as u8,
                (17 * short_level(c.2)) as u8,
            ),
        ),
        -8 <= 17 * short_level(c.0) - c.0 <= 8,
        -8 <= 17 * short_level(c.1) - c.1 <= 8,
        -8 <= 17 * short_level(c.2) - c.2 <= 8,
{
    let s = rgb_to_hex_short(c);
    lemma_rgb_to_hex_short_digits(c);
    lemma_hex_digits_shape(
        short_level(c.0) * 0x100 + short_level(c.1) * 0x10 + short_level(c.2),
        3,
    );
    lemma_lower_hex_digit_value(short_level(c.0));
    lemma_lower_hex_digit_value(short_level(c.1));
    lemma_lower_hex_digit_value(short_level(c.2));
    assert(channel_of_digit(s[0]) == 17 * short_level(c.0));
    assert(channel_of_digit(s[1]) == 17 * short_level(c.1));
    assert(channel_of_digit(s[2]) == 17 * short_level(c.2));
    lemma_rescale_nearest(c.0 as nat, 255, 15);
    lemma_rescale_nearest(c.1 as nat, 255, 15);
    lemma_rescale_nearest(c.2 as nat, 255, 15);
}

/// Writing a colour as six digits and reading the digits back gives the
/// colour again.
pub proof fn lemma_hex_round_trip(c: (u8, u8, u8))
    ensures
        rgb_from_hex(rgb_to_hex(c)) == Ok::<_, ColorError>(c),
{
    let s = rgb_to_hex(c);
    lemma_rgb_to_hex_digits(c);
    lemma_hex_digits_shape(rgb_packed(c), 6);
    lemma_lower_hex_digit_value(c.0 as nat / 16);
    lemma_lower_hex_digit_value(c.0 as nat % 16);
    lemma_lower_hex_digit_value(c.1 as nat / 16);
    lemma_lower_hex_digit_value(c.1 as nat % 16);
    lemma_lower_hex_digit_value(c.2 as nat / 16);
    lemma_lower_hex_digit_value(c.2 as nat % 16);
    assert(channel_of_pair(s[0], s[1]) == c.0);
    assert(channel_of_pair(s[2], s[3]) == c.1);
    assert(channel_of_pair(s[4], s[5]) == c.2);
}

/// The value of the hexadecimal digit `c`, if it is one.
pub fn digit_value(c: char) -> (v: Option<u8>)
    ensures
        match v {
            Some(d) => hex_digit_value(c) == Some(d as nat) && d < 16,
            None => !is_hex_digit(c),
        },
{
    let code: u32 = c as u32;
    if '0' <= c && c <= '9' {
        Some((code - '0' as u32) as u8)
    } else if 'a' <= c && c <= 'f' {
        Some((code - 'a' as u32 + 10) as u8)
    } else if 'A' <= c && c <= 'F' {
        Some((code - 'A' as u32 + 10) as u8)
    } else {
        None
    }
}

/// The number that the text `s` denotes, if it is one that this module
/// reads: at most eight characters, which is what 32 bits hold, and all of
/// them hexadecimal digits.
pub open spec fn spec_parse_hex(s: Seq<char>) -> Result<nat, ColorError> {
    if s.len() > 8 {
        Err(ColorError::InvalidFormat)
    } else if !all_hex_digits(s) {
        Err(ColorError::InvalidDigit)
    } else {
        Ok(hex_number(s))
    }
}

/// Reads `hex` as a hexadecimal number without sign or prefix.
///
/// Fails with `InvalidFormat` where `hex` has more than eight characters,
/// and with `InvalidDigit` where it has no more, and one of them is no
/// hexadecimal digit.
pub fn parse_hex(hex: &str) -> (parsed: Result<u32, ColorError>)
    ensures
        match parsed {
            Ok(n) => spec_parse_hex(hex@) == Ok::<_, ColorError>(n as nat),
            Err(e) => spec_parse_hex(hex@) == Err::<nat, _>(e),
        },
{
    let len = hex.unicode_len();
    if len > 8 {
        return Err(ColorError::InvalidFormat);
    }
    let mut value: u32 = 0;
    let mut i: usize = 0;
    while i < len
        invariant
            len == hex@.len(),
            len <= 8,
            i <= len,
            all_hex_digits(hex@.subrange(0, i as int)),
            value == hex_number(hex@.subrange(0, i as int)),
        decreases len - i,
    {
        let ghost read = hex@.subrange(0, i as int);
        let c = hex.get_char(i);
        match digit_value(c) {
            Some(d) => {
                proof {
                    lemma_hex_number_bound(read);
                    lemma_pow16_monotonic(read.len(), 7);
                    lemma_hex_number_push(read, c);
                    assert(hex@.subrange(0, i + 1) =~= read.push(c));
                    assert forall|j: int| 0 <= j < i + 1 implies is_hex_digit(
                        #[trigger] hex@.subrange(0, i + 1)[j],
                    ) by {
                        if j < i {
                            assert(read[j] == hex@[j]);
                        }
                    }
                    assert(pow16(7) == 0x1000_0000) by {
                        reveal_with_fuel(pow16, 8);
                    }
                }
                value = value * 16 + d as u32;
            },
            None => {
                assert(!is_hex_digit(hex@[i as int]));
                return Err(ColorError::InvalidDigit);
            },
        }
        i = i + 1;
    }
    assert(hex@.subrange(0, len as int) =~= hex@);
    Ok(value)
}

/// The powers of 16 grow with the exponent.
pub proof fn lemma_pow16_monotonic(low: nat, high: nat)
    requires
        low <= high,
    ensures
        pow16(low) <= pow16(high),
        pow16(low) > 0,
    decreases high,
{
    if low < high {
        lemma_pow16_monotonic(low, (high - 1) as nat);
    } else if low > 0 {
        lemma_pow16_monotonic((low - 1) as nat, (low - 1) as nat);
    }
}

/// The one-character string that stands for `v` in lower-case hexadecimal.
fn lower_hex_str(v: u8) -> (s: &'static str)
    requires
        v < 16,
    ensures
        s@ == seq![lower_hex_digit(v as nat)],
{
    proof {
        reveal_strlit("0");
        reveal_strlit("1");
        reveal_strlit("2");
        reveal_strlit("3");
        reveal_strlit("4");
        reveal_strlit("5");
        reveal_strlit("6");
        reveal_strlit("7");
        reveal_strlit("8");
        reveal_strlit("9");
        reveal_strlit("a");
        reveal_strlit("b");
        reveal_strlit("c");
        reveal_strlit("d");
        reveal_strlit("e");
        reveal_strlit("f");
    }
    let s = match v {
        0 => "0",
        1 => "1",
        2 => "2",
        3 => "3",
        4 => "4",
        5 => "5",
        6 => "6",
        7 => "7",
        8 => "8",
        9 => "9",
        10 => "a",
        11 => "b",
        12 => "c",
        13 => "d",
        14 => "e",
        _ => "f",
    };
    assert(s@ =~= seq![lower_hex_digit(v as nat)]);
    s
}

/// Appends the last `width` hexadecimal digits of `n` to `out`, in lower
/// case and with leading zeros.
pub fn append_hex(out: &mut String, n: u32, width: u32)
    ensures
        final(out)@ == old(out)@ + hex_digits(n as nat, width as nat),
    decreases width,
{
    if width > 0 {
        append_hex(out, n / 16, width - 1);
        out.append(lower_hex_str((n % 16) as u8));
        assert(out@ =~= old(out)@ + hex_digits(n as nat, width as nat));
    } else {
        assert(out@ =~= old(out)@ + hex_digits(n as nat, width as nat));
    }
}

} // verus!
