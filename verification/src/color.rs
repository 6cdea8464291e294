//! A colour as three 8-bit channels, the plain form that the named colours
//! are given in.

use vstd::prelude::*;
use crate::error::ColorError;
use crate::hex::{
    all_hex_digits, append_hex, hex_number, lemma_hex_digits_shape, lemma_hex_round_trip,
    lemma_rgb_from_hex_number, lemma_stretched_digit, parse_hex, rgb_from_hex, rgb_from_int,
    rgb_to_hex, rgb_to_hex_short,
};
use crate::fraction::Fraction;
use crate::number_utils::{spec_to_channel_repr, to_channel_repr};

pub mod presets;

verus! {

/// Representation of a colour stored as RGB channels.
///
/// Each channel is stored as `u8` and ranges from 0 to 255.
#[derive(Clone, Copy, Debug, PartialEq, Eq, Structural, Hash)]
pub struct Color {
    r: u8,
    g: u8,
    b: u8,
}

impl View for Color {
    type V = (u8, u8, u8);

    /// The channels red, green and blue.
    closed spec fn view(&self) -> (u8, u8, u8) {
        (self.r, self.g, self.b)
    }
}

impl Color {
    /// Two colours are the same exactly where their channels agree.
    pub proof fn lemma_eq_by_channels(self, other: Color)
        ensures
            (self == other) <==> (self@ == other@),
    {
    }

    /// Creates `Color` from the given integer values.
    pub fn from_rgb(r: u8, g: u8, b: u8) -> (color: Color)
        ensures
            color@ == (r, g, b),
    {
        Color { r, g, b }
    }

    /// Creates `Color` from the given fractions of a full channel.
    ///
    /// Expects values from 0 to 1, both included.
    /// - A value above 1 is treated as 1.
    /// - A value below 0 is treated as 0, and so is `0/0`.
    pub fn from_rgb_fraction(r: Fraction, g: Fraction, b: Fraction) -> (color: Color)
        ensures
            color@.0 == spec_to_channel_repr(r, 255),
            color@.1 == spec_to_channel_repr(g, 255),
            color@.2 == spec_to_channel_repr(b, 255),
    {
        Color::from_rgb(
            to_channel_repr(r, 255) as u8,
            to_channel_repr(g, 255) as u8,
            to_channel_repr(b, 255) as u8,
        )
    }

    /// Creates `Color` from the given tuple `(r, g, b)`.
    pub fn from_rgb_tuple(tuple: (u8, u8, u8)) -> (color: Color)
        ensures
            color@ == tuple,
    {
        Color::from_rgb(tuple.0, tuple.1, tuple.2)
    }

    /// Creates `Color` from the given hex string.
    ///
    /// Accepts strings of hexadecimal digits in the forms `f0f0f0`
    /// (`rrggbb`) and `fff` (`rgb`). A string of another length is an
    /// `InvalidFormat`, one of these lengths with another character an
    /// `InvalidDigit`.
    pub fn from_hex(hex: &str) -> (parsed: Result<Color, ColorError>)
        ensures
            match parsed {
                Ok(color) => rgb_from_hex(hex@) == Ok::<_, ColorError>(color@),
                Err(e) => rgb_from_hex(hex@) == Err::<(u8, u8, u8), _>(e),
            },
    {
        let length = hex.unicode_len();
        proof {
            if (length == 6 || length == 3) && all_hex_digits(hex@) {
                lemma_rgb_from_hex_number(hex@);
            }
        }
        if length == 6 {
            Color::from_any_hex(hex, 16 * 16)
        } else if length == 3 {
            Color::from_any_hex(hex, 16)
        } else {
            Err(ColorError::InvalidFormat)
        }
    }

    /// Returns the value for channel red.
    pub fn get_red(&self) -> (r: u8)
        ensures
            r == self@.0,
    {
        self.r
    }

    /// Returns the value for channel green.
    pub fn get_green(&self) -> (g: u8)
        ensures
            g == self@.1,
    {
        self.g
    }

    /// Returns the value for channel blue.
    pub fn get_blue(&self) -> (b: u8)
        ensures
            b == self@.2,
    {
        self.b
    }

    /// Converts `Color` to an RGB tuple.
    pub fn to_rgb_tuple(&self) -> (tuple: (u8, u8, u8))
        ensures
            tuple == self@,
    {
        (self.r, self.g, self.b)
    }

    /// Converts `Color` to a hex string of six digits; white gives
    /// `"ffffff"`. Reading the string with `from_hex` gives the colour back.
    pub fn to_hex(&self) -> (hex: String)
        ensures
            hex@ == rgb_to_hex(self@),
            hex@.len() == 6,
            rgb_from_hex(hex@) == Ok::<_, ColorError>(self@),
    {
        let sum: u32 = (self.r as u32) * 0x10000 + (self.g as u32) * 0x100 + (self.b as u32);
        let mut hex = String::new();
        append_hex(&mut hex, sum, 6);
        proof {
            lemma_hex_round_trip(self@);
            lemma_hex_digits_shape(sum as nat, 6);
            assert(hex@ =~= rgb_to_hex(self@));
        }
        hex
    }

    /// Converts `Color` to a hex string of three digits; white gives
    /// `"fff"`.
    ///
    /// This loses detail: each channel is rounded to the nearest of 16
    /// levels, so that `"f0f0f0"` gives `"eee"`.
    pub fn to_hex_3(&self) -> (hex: String)
        ensures
            hex@ == rgb_to_hex_short(self@),
            hex@.len() == 3,
    {
        let r = to_channel_repr(Fraction { num: self.r as i64, den: 255 }, 15);
        let g = to_channel_repr(Fraction { num: self.g as i64, den: 255 }, 15);
        let b = to_channel_repr(Fraction { num: self.b as i64, den: 255 }, 15);

        let sum: u32 = r * 0x100 + g * 0x10 + b;
        let mut hex = String::new();
        append_hex(&mut hex, sum, 3);
        proof {
            lemma_hex_digits_shape(sum as nat, 3);
            assert(hex@ =~= rgb_to_hex_short(self@));
        }
        hex
    }

    /// Reads `hex` as a number and takes its last three digits to the base
    /// `base` as red, green and blue.
    fn from_any_hex(hex: &str, base: u32) -> (parsed: Result<Color, ColorError>)
        requires
            hex@.len() <= 8,
            base == 16 || base == 256,
        ensures
            match parsed {
                Ok(color) => all_hex_digits(hex@) && color@ == rgb_from_int(
                    hex_number(hex@),
                    base as nat,
                ),
                Err(e) => !all_hex_digits(hex@) && e == ColorError::InvalidDigit,
            },
    {
        let factor = 255 / (base - 1);
        let mut value = match parse_hex(hex) {
            Ok(value) => value,
            Err(e) => {
                return Err(e);
            },
        };
        let ghost packed = value as nat;

        proof {
            lemma_stretched_digit(packed, base as nat);
            lemma_stretched_digit(packed / base as nat, base as nat);
            lemma_stretched_digit(packed / base as nat / base as nat, base as nat);
        }
        let b = ((value % base) * factor) as u8;
        value = value / base;
        let g = ((value % base) * factor) as u8;
        value = value / base;
        let r = ((value % base) * factor) as u8;

        Ok(Color::from_rgb(r, g, b))
    }
}

} // verus!
