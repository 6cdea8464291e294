//! The basic colours at 24 bits.

use vstd::prelude::*;
use crate::models::rgb::rgb24::RGB24;

verus! {

/// Perfect white: `#fff`.
pub fn white() -> (color: RGB24)
    ensures
        color@ == (255u8, 255u8, 255u8),
{
    RGB24::from_rgb(255, 255, 255)
}

/// Deep black, nothing is darker: `#000`.
pub fn black() -> (color: RGB24)
    ensures
        color@ == (0u8, 0u8, 0u8),
{
    RGB24::from_rgb(0, 0, 0)
}

/// The default red: `#f00`.
pub fn red() -> (color: RGB24)
    ensures
        color@ == (255u8, 0u8, 0u8),
{
    RGB24::from_rgb(255, 0, 0)
}

/// The default green: `#0f0`.
pub fn green() -> (color: RGB24)
    ensures
        color@ == (0u8, 255u8, 0u8),
{
    RGB24::from_rgb(0, 255, 0)
}

/// The default blue: `#00f`.
pub fn blue() -> (color: RGB24)
    ensures
        color@ == (0u8, 0u8, 255u8),
{
    RGB24::from_rgb(0, 0, 255)
}

} // verus!
