//! 24-bit RGB colours, with their hexadecimal notation.

use vstd::prelude::*;
use crate::converter;
use crate::error::ColorError;
use crate::hex::{
    append_hex, lemma_hex_digits_shape, lemma_hex_round_trip, lemma_rgb_from_hex_number,
    lemma_stretched_digit, parse_hex, rgb_from_hex, rgb_from_int, rgb_to_hex, rgb_to_hex_short,
    supported_base,
};
use crate::models::hsv::ExactHSV;
use crate::models::rgb::{rgb_text, rgb_to_string, RGBColor};
use crate::models::Color;
use crate::fraction::Fraction;
use crate::number_utils::{
    lemma_channel_of_its_fraction, spec_to_channel_repr, to_channel_repr,
};

pub mod presets;

verus! {

/// An RGB colour of 24 bits.
///
/// This is the most widespread variant of RGB, true colour: every channel
/// has 8 bits and ranges from 0 to 255.
#[derive(Clone, Copy, Debug, PartialEq, Eq, Structural, Hash)]
pub struct RGB24 {
    r: u8,
    g: u8,
    b: u8,
}

/// The maximum value for each channel.
pub const CHANNEL_MAX: u32 = 255;

impl View for RGB24 {
    type V = (u8, u8, u8);

    /// The channels red, green and blue.
    closed spec fn view(&self) -> (u8, u8, u8) {
        (self.r, self.g, self.b)
    }
}

impl RGB24 {
    /// A channel ranges from 0 to 255.
    pub proof fn lemma_channel_bounds()
        ensures
            <RGB24 as RGBColor<u8>>::MIN == 0,
            <RGB24 as RGBColor<u8>>::MAX == 255,
    {
    }

    /// Two colours are the same exactly where their channels agree.
    pub proof fn lemma_eq_by_channels(self, other: RGB24)
        ensures
            (self == other) <==> (self@ == other@),
    {
    }

    /// Creates a new `RGB24`, setting all values to zero.
    ///
    /// This is black.
    pub fn new() -> (color: RGB24)
        ensures
            color@ == (0u8, 0u8, 0u8),
    {
        RGB24::from_rgb(0, 0, 0)
    }

    /// Creates a new `RGB24` from the given integer values.
    pub fn from_rgb(r: u8, g: u8, b: u8) -> (color: RGB24)
        ensures
            color@ == (r, g, b),
    {
        RGB24 { r, g, b }
    }

    /// Creates a new `RGB24` from the given hex string.
    ///
    /// The string has the form `rrggbb` or `rgb` and holds hexadecimal
    /// digits only, in either case. Its length is looked at first: a string
    /// of another length is an `InvalidFormat` whatever it holds, and a
    /// string of the right length with another character an `InvalidDigit`.
    pub fn from_hex(hex: &str) -> (parsed: Result<RGB24, ColorError>)
        ensures
            match parsed {
                Ok(color) => rgb_from_hex(hex@) == Ok::<_, ColorError>(color@),
                Err(e) => rgb_from_hex(hex@) == Err::<(u8, u8, u8), _>(e),
            },
    {
        let length = hex.unicode_len();
        if length != 6 && length != 3 {
            return Err(ColorError::InvalidFormat);
        }
        let value = match parse_hex(hex) {
            Ok(value) => value,
            Err(e) => {
                return Err(e);
            },
        };
        proof {
            lemma_rgb_from_hex_number(hex@);
        }
        if length == 6 {
            RGB24::from_int(value, 256)
        } else {
            RGB24::from_int(value, 16)
        }
    }

    /// Creates a new `RGB24` from the given fractions of a full channel.
    ///
    /// Fractions above 1 are treated as 1, fractions below 0 and `0/0` as
    /// 0, and every other is rounded to the nearest channel value.
    pub fn from_rgb_fraction(r: Fraction, g: Fraction, b: Fraction) -> (color: RGB24)
        ensures
            color@.0 == spec_to_channel_repr(r, 255),
            color@.1 == spec_to_channel_repr(g, 255),
            color@.2 == spec_to_channel_repr(b, 255),
    {
        RGB24::from_rgb(
            to_channel_repr(r, CHANNEL_MAX) as u8,
            to_channel_repr(g, CHANNEL_MAX) as u8,
            to_channel_repr(b, CHANNEL_MAX) as u8,
        )
    }

    /// Returns the value of channel red.
    pub fn red(&self) -> (r: u8)
        ensures
            r == self@.0,
    {
        self.r
    }

    /// Returns the value of channel green.
    pub fn green(&self) -> (g: u8)
        ensures
            g == self@.1,
    {
        self.g
    }

    /// Returns the value of channel blue.
    pub fn blue(&self) -> (b: u8)
        ensures
            b == self@.2,
    {
        self.b
    }

    /// Sets the value of channel red.
    pub fn set_red(&mut self, r: u8)
        ensures
            final(self)@ == (r, old(self)@.1, old(self)@.2),
    {
        self.r = r
    }

    /// Sets the value of channel green.
    pub fn set_green(&mut self, g: u8)
        ensures
            final(self)@ == (old(self)@.0, g, old(self)@.2),
    {
        self.g = g
    }

    /// Sets the value of channel blue.
    pub fn set_blue(&mut self, b: u8)
        ensures
            final(self)@ == (old(self)@.0, old(self)@.1, b),
    {
        self.b = b
    }

    /// Converts `RGB24` to an RGB tuple.
    pub fn as_tuple(&self) -> (tuple: (u8, u8, u8))
        ensures
            tuple == self@,
    {
        (self.r, self.g, self.b)
    }

    /// Converts `RGB24` to a hex string of six digits.
    ///
    /// White gives `"ffffff"`. Reading the string with `from_hex` gives the
    /// colour back.
    pub fn to_hex(&self) -> (hex: String)
        ensures
            hex@ == rgb_to_hex(self@),
            hex@.len() == 6,
            rgb_from_hex(hex@) == Ok::<_, ColorError>(self@),
    {
        let sum: u32 = (self.r as u32) * 0x10000 + (self.g as u32) * 0x100 + (self.b as u32);
        let mut hex = String::new();
        append_hex(&mut hex, sum, 6);
        proof {
            lemma_hex_round_trip(self@);
            lemma_hex_digits_shape(sum as nat, 6);
            assert(hex@ =~= rgb_to_hex(self@));
        }
        hex
    }

    /// Converts `RGB24` to a hex string of three digits.
    ///
    /// White gives `"fff"`. This loses detail: each channel is rounded to
    /// the nearest of 16 levels.
    pub fn to_hex_short(&self) -> (hex: String)
        ensures
            hex@ == rgb_to_hex_short(self@),
            hex@.len() == 3,
    {
        let r = to_channel_repr(Fraction { num: self.r as i64, den: 255 }, 15);
        let g = to_channel_repr(Fraction { num: self.g as i64, den: 255 }, 15);
        let b = to_channel_repr(Fraction { num: self.b as i64, den: 255 }, 15);

        let sum: u32 = r * 0x100 + g * 0x10 + b;
        let mut hex = String::new();
        append_hex(&mut hex, sum, 3);
        proof {
            lemma_hex_digits_shape(sum as nat, 3);
            assert(hex@ =~= rgb_to_hex_short(self@));
        }
        hex
    }

    /// Converts `RGB24` to an RGB tuple of fractions of a full channel.
    /// `from_rgb_fraction` gives the colour back.
    pub fn as_tuple_fraction(&self) -> (fractions: (Fraction, Fraction, Fraction))
        ensures
            fractions.0 == (Fraction { num: self@.0 as i64, den: 255 }),
            fractions.1 == (Fraction { num: self@.1 as i64, den: 255 }),
            fractions.2 == (Fraction { num: self@.2 as i64, den: 255 }),
            spec_to_channel_repr(fractions.0, 255) == self@.0,
            spec_to_channel_repr(fractions.1, 255) == self@.1,
            spec_to_channel_repr(fractions.2, 255) == self@.2,
    {
        proof {
            lemma_channel_of_its_fraction(self.r as nat, 255);
            lemma_channel_of_its_fraction(self.g as nat, 255);
            lemma_channel_of_its_fraction(self.b as nat, 255);
        }
        (
            Fraction { num: self.r as i64, den: 255 },
            Fraction { num: self.g as i64, den: 255 },
            Fraction { num: self.b as i64, den: 255 },
        )
    }

    /// Converts `RGB24` to hue, saturation and value.
    pub fn to_hsv(&self) -> (hsv: ExactHSV)
        ensures
            hsv == converter::spec_rgb_to_hsv(self@.0 as int, self@.1 as int, self@.2 as int, 255),
            hsv.well_formed(),
            hsv.spec_is_white() == self.spec_is_white(),
            hsv.spec_is_black() == self.spec_is_black(),
            converter::convertible(hsv),
            converter::spec_hsv_to_rgb(hsv, 255) == (
                self@.0 as nat,
                self@.1 as nat,
                self@.2 as nat,
            ),
    {
        proof {
            RGB24::lemma_channel_bounds();
            converter::lemma_rgb_hsv_round_trip(
                self.r as nat,
                self.g as nat,
                self.b as nat,
                255,
            );
        }
        converter::rgb_to_hsv(self)
    }

    /// Writes the colour as `(R:r, G:g, B:b)`, the channels in decimal.
    pub fn to_string(&self) -> (text: String)
        ensures
            text@ == rgb_text(self@.0 as nat, self@.1 as nat, self@.2 as nat),
    {
        rgb_to_string(self.r as u32, self.g as u32, self.b as u32)
    }

    /// Converts an integer to the colour that it packs.
    ///
    /// The last three digits of `value` to the base `base` are red, green
    /// and blue, each stretched to the full channel. Only the bases 4, 16
    /// and 256 are supported; any other is an `UnsupportedDepth`.
    pub fn from_int(value: u32, base: u32) -> (unpacked: Result<RGB24, ColorError>)
        ensures
            match unpacked {
                Ok(color) => supported_base(base as nat) && color@ == rgb_from_int(
                    value as nat,
                    base as nat,
                ),
                Err(e) => !supported_base(base as nat) && e == ColorError::UnsupportedDepth,
            },
    {
        if !(base == 4 || base == 16 || base == 256) {
            return Err(ColorError::UnsupportedDepth);
        }
        let factor = CHANNEL_MAX / (base - 1);
        let ghost packed = value as nat;
        let mut value = value;

        proof {
            lemma_stretched_digit(packed, base as nat);
            lemma_stretched_digit(packed / base as nat, base as nat);
            lemma_stretched_digit(packed / base as nat / base as nat, base as nat);
        }
        let b = ((value % base) * factor) as u8;
        value = value / base;
        let g = ((value % base) * factor) as u8;
        value = value / base;
        let r = ((value % base) * factor) as u8;

        Ok(RGB24::from_rgb(r, g, b))
    }
}

impl From<(u8, u8, u8)> for RGB24 {
    /// Creates a new `RGB24` from the given tuple, as `from_rgb` does.
    fn from(rgb: (u8, u8, u8)) -> (color: RGB24)
        ensures
            color@ == rgb,
    {
        RGB24::from_rgb(rgb.0, rgb.1, rgb.2)
    }
}

impl vstd::std_specs::convert::FromSpecImpl<(u8, u8, u8)> for RGB24 {
    open spec fn obeys_from_spec() -> bool {
        true
    }

    closed spec fn from_spec(rgb: (u8, u8, u8)) -> RGB24 {
        RGB24 { r: rgb.0, g: rgb.1, b: rgb.2 }
    }
}

impl Default for RGB24 {
    /// Creates a new `RGB24`, setting all values to zero: black.
    fn default() -> (color: RGB24)
        ensures
            color@ == (0u8, 0u8, 0u8),
    {
        RGB24::from_rgb(0, 0, 0)
    }
}

impl Color for RGB24 {
    open spec fn spec_is_white(&self) -> bool {
        self@ == (255u8, 255u8, 255u8)
    }

    open spec fn spec_is_black(&self) -> bool {
        self@ == (0u8, 0u8, 0u8)
    }

    proof fn lemma_white_is_not_black(&self) {
    }

    fn is_white(&self) -> (white: bool) {
        self.r == 255 && self.g == 255 && self.b == 255
    }

    fn is_black(&self) -> (black: bool) {
        self.r == 0 && self.g == 0 && self.b == 0
    }
}

impl RGBColor<u8> for RGB24 {
    const MIN: u8 = 0;

    const MAX: u8 = 255;

    open spec fn spec_tuple(&self) -> (u8, u8, u8) {
        self@
    }

    open spec fn spec_level(channel: u8) -> nat {
        channel as nat
    }

    proof fn lemma_levels(channel: u8, other: u8) {
    }

    fn level(channel: u8) -> (level: u32) {
        channel as u32
    }

    fn channel(level: u32) -> (channel: u8) {
        level as u8
    }

    proof fn lemma_white_is_max(&self) {
    }

    proof fn lemma_black_is_min(&self) {
    }

    fn from_rgb(r: u8, g: u8, b: u8) -> (color: Self) {
        RGB24 { r, g, b }
    }

    fn r(&self) -> (r: u8) {
        self.r
    }

    fn g(&self) -> (g: u8) {
        self.g
    }

    fn b(&self) -> (b: u8) {
        self.b
    }

    fn set_r(&mut self, r: u8) {
        self.r = r;
    }

    fn set_g(&mut self, g: u8) {
        self.g = g;
    }

    fn set_b(&mut self, b: u8) {
        self.b = b;
    }

    fn as_tuple(&self) -> (tuple: (u8, u8, u8)) {
        (self.r, self.g, self.b)
    }
}

} // verus!
