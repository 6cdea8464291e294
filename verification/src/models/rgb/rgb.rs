//! RGB colours of a bit depth that is chosen at run time.

use vstd::prelude::*;

verus! {

/// An RGB colour with a custom colour depth.
///
/// The depth is the number of bits of one channel: with a depth of 4 a
/// channel has `2^4 = 16` values, and the colour as a whole `3 * 4 = 12`
/// bits. Every channel is stored as `u32`, so a depth above 32 has no
/// meaning. For the common 24 bits there is `RGB24`.
#[derive(Clone, Copy, Debug, PartialEq, Eq, Structural, Hash)]
pub struct RGB {
    r: u32,
    g: u32,
    b: u32,
    depth: u8,
}

impl View for RGB {
    type V = (u32, u32, u32, u8);

    /// The channels red, green and blue, and the depth.
    closed spec fn view(&self) -> (u32, u32, u32, u8) {
        (self.r, self.g, self.b, self.depth)
    }
}

impl RGB {
    /// Two colours are the same exactly where channels and depth agree.
    pub proof fn lemma_eq_by_channels(self, other: RGB)
        ensures
            (self == other) <==> (self@ == other@),
    {
    }

    /// Creates a new `RGB` with the channels `r`, `g` and `b` and the bit
    /// depth `depth` of one channel.
    pub fn from_rgb(r: u32, g: u32, b: u32, depth: u8) -> (color: RGB)
        ensures
            color@ == (r, g, b, depth),
    {
        RGB { r, g, b, depth }
    }

    /// Returns the value of channel red.
    pub fn r(&self) -> (r: u32)
        ensures
            r == self@.0,
    {
        self.r
    }

    /// Returns the value of channel green.
    pub fn g(&self) -> (g: u32)
        ensures
            g == self@.1,
    {
        self.g
    }

    /// Returns the value of channel blue.
    pub fn b(&self) -> (b: u32)
        ensures
            b == self@.2,
    {
        self.b
    }

    /// Returns the depth in bits of one channel.
    pub fn depth(&self) -> (depth: u8)
        ensures
            depth == self@.3,
    {
        self.depth
    }

    /// Sets the value of channel red.
    pub fn set_r(&mut self, r: u32)
        ensures
            final(self)@ == (r, old(self)@.1, old(self)@.2, old(self)@.3),
    {
        self.r = r
    }

    /// Sets the value of channel green.
    pub fn set_g(&mut self, g: u32)
        ensures
            final(self)@ == (old(self)@.0, g, old(self)@.2, old(self)@.3),
    {
        self.g = g
    }

    /// Sets the value of channel blue.
    pub fn set_b(&mut self, b: u32)
        ensures
            final(self)@ == (old(self)@.0, old(self)@.1, b, old(self)@.3),
    {
        self.b = b
    }
}

} // verus!
