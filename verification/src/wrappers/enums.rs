//! Side colours.
use vstd::prelude::*;

verus! {

/// The colour a player plays.
#[derive(Clone, Copy, Debug, PartialEq, Eq, Structural)]
pub enum ColorDto {
    White,
    Black,
}

} // verus!
