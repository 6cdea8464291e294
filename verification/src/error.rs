//! The ways in which building or converting a colour can fail.

use vstd::prelude::*;

verus! {

/// Why a colour could not be built from its input.
#[derive(Clone, Copy, Debug, PartialEq, Eq, Structural, Hash)]
pub enum ColorError {
    /// A hexadecimal string has neither three nor six characters.
    InvalidFormat,
    /// A hexadecimal string holds a character that is no hexadecimal digit.
    InvalidDigit,
    /// Hue, saturation or value is not a number.
    InvalidNumericInput,
    /// The hue is infinite.
    NonFiniteHue,
    /// The number of levels per channel is none of those that scale to a
    /// full channel by a whole factor.
    UnsupportedDepth,
}

} // verus!
