//! The RGB colour model: red, green and blue channels of one bit depth.

use vstd::prelude::*;
use crate::decimal::{append_decimal, decimal_digits};
use crate::models::Color;
use vstd::string::StringExecFns;

pub mod rgb;
pub mod rgb24;
pub mod rgb48;

verus! {

/// An RGB colour whose channels are of the unsigned type `T`.
pub trait RGBColor<T>: Color + Sized {
    /// The smallest value of a channel, which stands for 0%.
    const MIN: T;

    /// The largest value of a channel, which stands for 100%.
    const MAX: T;

    /// The channels red, green and blue.
    spec fn spec_tuple(&self) -> (T, T, T);

    /// The place of the channel value `channel` on the scale of whole
    /// numbers from 0, where `MIN` stands, to where `MAX` stands.
    spec fn spec_level(channel: T) -> nat;

    /// Every channel value has its place from that of `MIN`, which is 0, to
    /// that of `MAX`, and no two have the same.
    proof fn lemma_levels(channel: T, other: T)
        ensures
            Self::spec_level(Self::MIN) == 0,
            0 < Self::spec_level(Self::MAX) <= u32::MAX,
            Self::spec_level(channel) <= Self::spec_level(Self::MAX),
            Self::spec_level(channel) == Self::spec_level(other) ==> channel == other,
    ;

    /// Returns the place of the channel value `channel` on the scale from 0.
    fn level(channel: T) -> (level: u32)
        ensures
            level == Self::spec_level(channel),
    ;

    /// Returns the channel value at the place `level`, which is none above
    /// that of `MAX`.
    fn channel(level: u32) -> (channel: T)
        requires
            level <= Self::spec_level(Self::MAX),
        ensures
            Self::spec_level(channel) == level,
    ;

    /// White is the colour with every channel at its largest.
    proof fn lemma_white_is_max(&self)
        ensures
            self.spec_is_white() <==> self.spec_tuple() == (Self::MAX, Self::MAX, Self::MAX),
    ;

    /// Black is the colour with every channel at its smallest.
    proof fn lemma_black_is_min(&self)
        ensures
            self.spec_is_black() <==> self.spec_tuple() == (Self::MIN, Self::MIN, Self::MIN),
    ;

    /// Creates the colour with the given channels.
    fn from_rgb(r: T, g: T, b: T) -> (color: Self)
        ensures
            color.spec_tuple() == (r, g, b),
    ;

    /// Returns the value of the red channel.
    fn r(&self) -> (r: T)
        ensures
            r == self.spec_tuple().0,
    ;

    /// Returns the value of the green channel.
    fn g(&self) -> (g: T)
        ensures
            g == self.spec_tuple().1,
    ;

    /// Returns the value of the blue channel.
    fn b(&self) -> (b: T)
        ensures
            b == self.spec_tuple().2,
    ;

    /// Sets the red channel and leaves the other two.
    fn set_r(&mut self, r: T)
        ensures
            final(self).spec_tuple() == (r, old(self).spec_tuple().1, old(self).spec_tuple().2),
    ;

    /// Sets the green channel and leaves the other two.
    fn set_g(&mut self, g: T)
        ensures
            final(self).spec_tuple() == (old(self).spec_tuple().0, g, old(self).spec_tuple().2),
    ;

    /// Sets the blue channel and leaves the other two.
    fn set_b(&mut self, b: T)
        ensures
            final(self).spec_tuple() == (old(self).spec_tuple().0, old(self).spec_tuple().1, b),
    ;

    /// Returns the channels as a tuple.
    fn as_tuple(&self) -> (tuple: (T, T, T))
        ensures
            tuple == self.spec_tuple(),
    ;
}

/// The text that shows the channels `r`, `g` and `b`: `(R:r, G:g, B:b)`
/// with the values in decimal.
pub open spec fn rgb_text(r: nat, g: nat, b: nat) -> Seq<char> {
    seq!['(', 'R', ':'] + decimal_digits(r) + seq![',', ' ', 'G', ':'] + decimal_digits(g)
        + seq![',', ' ', 'B', ':'] + decimal_digits(b) + seq![')']
}

/// Writes the channels `r`, `g` and `b` as `(R:r, G:g, B:b)`.
pub fn rgb_to_string(r: u32, g: u32, b: u32) -> (text: String)
    ensures
        text@ == rgb_text(r as nat, g as nat, b as nat),
{
    proof {
        reveal_strlit("(R:");
        reveal_strlit(", G:");
        reveal_strlit(", B:");
        reveal_strlit(")");
    }
    let mut text = String::new();
    text.append("(R:");
    assert(text@ =~= seq!['(', 'R', ':']);
    append_decimal(&mut text, r);
    text.append(", G:");
    assert(text@ =~= seq!['(', 'R', ':'] + decimal_digits(r as nat) + seq![',', ' ', 'G', ':']);
    append_decimal(&mut text, g);
    text.append(", B:");
    assert(text@ =~= seq!['(', 'R', ':'] + decimal_digits(r as nat) + seq![',', ' ', 'G', ':']
        + decimal_digits(g as nat) + seq![',', ' ', 'B', ':']);
    append_decimal(&mut text, b);
    text.append(")");
    text
}

} // verus!
