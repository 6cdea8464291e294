//! Colours in two models, with conversions that are proved exact.
//!
//! # Colour models
//!
//! - RGB, based on red, green and blue: [`RGB24`] with 8 bits per channel,
//!   [`RGB48`] with 16, and [`RGB`] with a depth chosen at run time
//! - HSV, based on hue, saturation and value: [`ExactHSV`], which holds the
//!   three as a [`Fraction`] of whole numbers each
//!
//! # Conversions
//!
//! - between RGB and hexadecimal text of three or six digits, in [`hex`]
//! - between RGB and HSV, and between the two depths of RGB, in
//!   [`converter`]
//!
//! Every function says in its contract what it returns, and the
//! conversions come with their laws: six hexadecimal digits read back give
//! the colour they were written from, a colour widened and narrowed again
//! is the same colour, and so is a colour converted to HSV and back.
//!
//! Floating-point numbers have no place here: fractions are exact, and
//! one with the denominator zero stands for an infinity or for no number.
//! What is decided about such values, which count as equal and which make
//! a colour, is decided on their classes in [`number_utils`] and
//! [`models::hsv`], for floating-point numbers just as for fractions.

pub mod color;
pub mod common_colors;
pub mod converter;
pub mod decimal;
pub mod error;
pub mod fraction;
pub mod hex;
pub mod models;
pub mod number_utils;

pub use error::ColorError;
pub use fraction::Fraction;
pub use models::hsv::ExactHSV;
pub use models::rgb::rgb::RGB;
pub use models::rgb::rgb24::RGB24;
pub use models::rgb::rgb48::RGB48;
pub use models::rgb::RGBColor;
pub use models::Color;
