//! The basic colours.

use vstd::prelude::*;
use crate::color::Color;

verus! {

/// White: every channel at its largest.
pub fn white() -> (color: Color)
    ensures
        color@ == (255u8, 255u8, 255u8),
{
    Color::from_rgb(255, 255, 255)
}

/// Black: every channel at zero.
pub fn black() -> (color: Color)
    ensures
        color@ == (0u8, 0u8, 0u8),
{
    Color::from_rgb(0, 0, 0)
}

/// Red alone.
pub fn red() -> (color: Color)
    ensures
        color@ == (255u8, 0u8, 0u8),
{
    Color::from_rgb(255, 0, 0)
}

/// Green alone.
pub fn green() -> (color: Color)
    ensures
        color@ == (0u8, 255u8, 0u8),
{
    Color::from_rgb(0, 255, 0)
}

/// Blue alone.
pub fn blue() -> (color: Color)
    ensures
        color@ == (0u8, 0u8, 255u8),
{
    Color::from_rgb(0, 0, 255)
}

} // verus!
