//! The colours that have a name.

use vstd::prelude::*;
use crate::color::Color;

verus! {

/// The colours that have a name.
#[allow(non_camel_case_types)]
#[derive(Clone, Copy, Debug, PartialEq, Eq, Structural, Hash)]
pub enum CommonColors {
    WHITE,
    BLACK,
}

impl CommonColors {
    /// The channels of the named colour.
    pub open spec fn channels(&self) -> (u8, u8, u8) {
        match self {
            CommonColors::WHITE => (255u8, 255u8, 255u8),
            CommonColors::BLACK => (0u8, 0u8, 0u8),
        }
    }

    /// Returns the named colour as a `Color`.
    pub fn as_color(&self) -> (color: Color)
        ensures
            color@ == self.channels(),
    {
        match &self {
            CommonColors::WHITE => Color::from_rgb(255, 255, 255),
            CommonColors::BLACK => Color::from_rgb(0, 0, 0),
        }
    }
}

} // verus!
