//! The colour models.

use vstd::prelude::*;

pub mod hsv;
pub mod rgb;

verus! {

/// What every colour can tell, whatever its model.
pub trait Color {
    /// The colour is absolute white.
    spec fn spec_is_white(&self) -> bool;

    /// The colour is absolute black.
    spec fn spec_is_black(&self) -> bool;

    /// No colour is both white and black.
    proof fn lemma_white_is_not_black(&self)
        ensures
            !(self.spec_is_white() && self.spec_is_black()),
    ;

    /// Returns if the colour is absolute white.
    fn is_white(&self) -> (white: bool)
        ensures
            white == self.spec_is_white(),
    ;

    /// Returns if the colour is absolute black.
    fn is_black(&self) -> (black: bool)
        ensures
            black == self.spec_is_black(),
    ;
}

} // verus!
