//! 48-bit RGB colours.

use vstd::prelude::*;
use crate::converter;
use crate::models::hsv::ExactHSV;
use crate::models::rgb::rgb24::RGB24;
use crate::models::rgb::{rgb_text, rgb_to_string, RGBColor};
use crate::models::Color;
use crate::fraction::Fraction;
use crate::number_utils::{
    lemma_channel_of_its_fraction, spec_to_channel_repr, to_channel_repr,
};

pub mod presets;

verus! {

/// An RGB colour of 48 bits.
///
/// This is a deep colour: every channel has 16 bits and ranges from 0 to
/// 65535.
#[derive(Clone, Copy, Debug, PartialEq, Eq, Structural, Hash)]
pub struct RGB48 {
    r: u16,
    g: u16,
    b: u16,
}

/// The maximum value for each channel.
pub const CHANNEL_MAX: u32 = 65535;

impl View for RGB48 {
    type V = (u16, u16, u16);

    /// The channels red, green and blue.
    closed spec fn view(&self) -> (u16, u16, u16) {
        (self.r, self.g, self.b)
    }
}

impl RGB48 {
    /// A channel ranges from 0 to 65535.
    pub proof fn lemma_channel_bounds()
        ensures
            <RGB48 as RGBColor<u16>>::MIN == 0,
            <RGB48 as RGBColor<u16>>::MAX == 65535,
    {
    }

    /// Two colours are the same exactly where their channels agree.
    pub proof fn lemma_eq_by_channels(self, other: RGB48)
        ensures
            (self == other) <==> (self@ == other@),
    {
    }

    /// Creates a new `RGB48`, setting all values to zero.
    ///
    /// This is black.
    pub fn new() -> (color: RGB48)
        ensures
            color@ == (0u16, 0u16, 0u16),
    {
        RGB48::from_rgb(0, 0, 0)
    }

    /// Creates a new `RGB48` from the given integer values.
    pub fn from_rgb(r: u16, g: u16, b: u16) -> (color: RGB48)
        ensures
            color@ == (r, g, b),
    {
        RGB48 { r, g, b }
    }

    /// Creates a new `RGB48` from the given fractions of a full channel.
    ///
    /// Fractions above 1 are treated as 1, fractions below 0 and `0/0` as
    /// 0, and every other is rounded to the nearest channel value.
    pub fn from_rgb_fraction(r: Fraction, g: Fraction, b: Fraction) -> (color: RGB48)
        ensures
            color@.0 == spec_to_channel_repr(r, 65535),
            color@.1 == spec_to_channel_repr(g, 65535),
            color@.2 == spec_to_channel_repr(b, 65535),
    {
        RGB48::from_rgb(
            to_channel_repr(r, CHANNEL_MAX) as u16,
            to_channel_repr(g, CHANNEL_MAX) as u16,
            to_channel_repr(b, CHANNEL_MAX) as u16,
        )
    }

    /// Returns the value of channel red.
    pub fn red(&self) -> (r: u16)
        ensures
            r == self@.0,
    {
        self.r
    }

    /// Returns the value of channel green.
    pub fn green(&self) -> (g: u16)
        ensures
            g == self@.1,
    {
        self.g
    }

    /// Returns the value of channel blue.
    pub fn blue(&self) -> (b: u16)
        ensures
            b == self@.2,
    {
        self.b
    }

    /// Sets the value of channel red.
    pub fn set_red(&mut self, r: u16)
        ensures
            final(self)@ == (r, old(self)@.1, old(self)@.2),
    {
        self.r = r
    }

    /// Sets the value of channel green.
    pub fn set_green(&mut self, g: u16)
        ensures
            final(self)@ == (old(self)@.0, g, old(self)@.2),
    {
        self.g = g
    }

    /// Sets the value of channel blue.
    pub fn set_blue(&mut self, b: u16)
        ensures
            final(self)@ == (old(self)@.0, old(self)@.1, b),
    {
        self.b = b
    }

    /// Converts `RGB48` to an RGB tuple.
    pub fn as_tuple(&self) -> (tuple: (u16, u16, u16))
        ensures
            tuple == self@,
    {
        (self.r, self.g, self.b)
    }

    /// Converts `RGB48` to `RGB24`.
    ///
    /// This loses detail: each channel keeps only its upper part.
    pub fn to_rgb48(&self) -> (narrow: RGB24)
        ensures
            narrow@ == converter::downscale(self@),
    {
        converter::rgb48_to_rgb24(self)
    }

    /// Converts `RGB48` to an RGB tuple of fractions of a full channel.
    /// `from_rgb_fraction` gives the colour back.
    pub fn as_tuple_fraction(&self) -> (fractions: (Fraction, Fraction, Fraction))
        ensures
            fractions.0 == (Fraction { num: self@.0 as i64, den: 65535 }),
            fractions.1 == (Fraction { num: self@.1 as i64, den: 65535 }),
            fractions.2 == (Fraction { num: self@.2 as i64, den: 65535 }),
            spec_to_channel_repr(fractions.0, 65535) == self@.0,
            spec_to_channel_repr(fractions.1, 65535) == self@.1,
            spec_to_channel_repr(fractions.2, 65535) == self@.2,
    {
        proof {
            lemma_channel_of_its_fraction(self.r as nat, 65535);
            lemma_channel_of_its_fraction(self.g as nat, 65535);
            lemma_channel_of_its_fraction(self.b as nat, 65535);
        }
        (
            Fraction { num: self.r as i64, den: 65535 },
            Fraction { num: self.g as i64, den: 65535 },
            Fraction { num: self.b as i64, den: 65535 },
        )
    }

    /// Converts `RGB48` to hue, saturation and value.
    pub fn to_hsv(&self) -> (hsv: ExactHSV)
        ensures
            hsv == converter::spec_rgb_to_hsv(
                self@.0 as int,
                self@.1 as int,
                self@.2 as int,
                65535,
            ),
            hsv.well_formed(),
            hsv.spec_is_white() == self.spec_is_white(),
            hsv.spec_is_black() == self.spec_is_black(),
            converter::convertible(hsv),
            converter::spec_hsv_to_rgb(hsv, 65535) == (
                self@.0 as nat,
                self@.1 as nat,
                self@.2 as nat,
            ),
    {
        proof {
            RGB48::lemma_channel_bounds();
            converter::lemma_rgb_hsv_round_trip(
                self.r as nat,
                self.g as nat,
                self.b as nat,
                65535,
            );
        }
        converter::rgb_to_hsv(self)
    }

    /// Writes the colour as `(R:r, G:g, B:b)`, the channels in decimal.
    pub fn to_string(&self) -> (text: String)
        ensures
            text@ == rgb_text(self@.0 as nat, self@.1 as nat, self@.2 as nat),
    {
        rgb_to_string(self.r as u32, self.g as u32, self.b as u32)
    }
}

impl From<(u16, u16, u16)> for RGB48 {
    /// Creates a new `RGB48` from the given tuple, as `from_rgb` does.
    fn from(rgb: (u16, u16, u16)) -> (color: RGB48)
        ensures
            color@ == rgb,
    {
        RGB48::from_rgb(rgb.0, rgb.1, rgb.2)
    }
}

impl vstd::std_specs::convert::FromSpecImpl<(u16, u16, u16)> for RGB48 {
    open spec fn obeys_from_spec() -> bool {
        true
    }

    closed spec fn from_spec(rgb: (u16, u16, u16)) -> RGB48 {
        RGB48 { r: rgb.0, g: rgb.1, b: rgb.2 }
    }
}

impl Default for RGB48 {
    /// Creates a new `RGB48`, setting all values to zero: black.
    fn default() -> (color: RGB48)
        ensures
            color@ == (0u16, 0u16, 0u16),
    {
        RGB48::from_rgb(0, 0, 0)
    }
}

impl Color for RGB48 {
    open spec fn spec_is_white(&self) -> bool {
        self@ == (0xffffu16, 0xffffu16, 0xffffu16)
    }

    open spec fn spec_is_black(&self) -> bool {
        self@ == (0u16, 0u16, 0u16)
    }

    proof fn lemma_white_is_not_black(&self) {
    }

    fn is_white(&self) -> (white: bool) {
        self.r == u16::MAX && self.g == u16::MAX && self.b == u16::MAX
    }

    fn is_black(&self) -> (black: bool) {
        self.r == u16::MIN && self.g == u16::MIN && self.b == u16::MIN
    }
}

impl RGBColor<u16> for RGB48 {
    const MIN: u16 = u16::MIN;

    const MAX: u16 = u16::MAX;

    open spec fn spec_tuple(&self) -> (u16, u16, u16) {
        self@
    }

    open spec fn spec_level(channel: u16) -> nat {
        channel as nat
    }

    proof fn lemma_levels(channel: u16, other: u16) {
    }

    fn level(channel: u16) -> (level: u32) {
        channel as u32
    }

    fn channel(level: u32) -> (channel: u16) {
        level as u16
    }

    proof fn lemma_white_is_max(&self) {
    }

    proof fn lemma_black_is_min(&self) {
    }

    fn from_rgb(r: u16, g: u16, b: u16) -> (color: Self) {
        RGB48 { r, g, b }
    }

    fn r(&self) -> (r: u16) {
        self.r
    }

    fn g(&self) -> (g: u16) {
        self.g
    }

    fn b(&self) -> (b: u16) {
        self.b
    }

    fn set_r(&mut self, r: u16) {
        self.r = r;
    }

    fn set_g(&mut self, g: u16) {
        self.g = g;
    }

    fn set_b(&mut self, b: u16) {
        self.b = b;
    }

    fn as_tuple(&self) -> (tuple: (u16, u16, u16)) {
        (self.r, self.g, self.b)
    }
}

} // verus!
