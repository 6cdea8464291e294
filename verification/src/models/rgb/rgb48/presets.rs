//! The basic colours at 48 bits.

use vstd::prelude::*;
use crate::models::rgb::rgb48::RGB48;

verus! {

/// 100% white as `RGB48`.
pub fn white() -> (color: RGB48)
    ensures
        color@ == (0xffffu16, 0xffffu16, 0xffffu16),
{
    RGB48::from_rgb(u16::MAX, u16::MAX, u16::MAX)
}

/// 100% black as `RGB48`.
pub fn black() -> (color: RGB48)
    ensures
        color@ == (0u16, 0u16, 0u16),
{
    RGB48::from_rgb(u16::MIN, u16::MIN, u16::MIN)
}

/// 100% red as `RGB48`.
pub fn red() -> (color: RGB48)
    ensures
        color@ == (0xffffu16, 0u16, 0u16),
{
    RGB48::from_rgb(u16::MAX, u16::MIN, u16::MIN)
}

/// 100% green as `RGB48`.
pub fn green() -> (color: RGB48)
    ensures
        color@ == (0u16, 0xffffu16, 0u16),
{
    RGB48::from_rgb(u16::MIN, u16::MAX, u16::MIN)
}

/// 100% blue as `RGB48`.
pub fn blue() -> (color: RGB48)
    ensures
        color@ == (0u16, 0u16, 0xffffu16),
{
    RGB48::from_rgb(u16::MIN, u16::MIN, u16::MAX)
}

} // verus!
