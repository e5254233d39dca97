//! The fighter the player flies: there is no picker, so it is the first
//! fighter color shown on the select order.
use vstd::prelude::*;
use crate::recolor::PaletteColor;

verus! {

/// The fighter (by palette color) the player flies.
#[derive(Clone, Copy, Debug, PartialEq, Eq, Structural)]
pub struct SelectedFighter(pub PaletteColor);

impl Default for SelectedFighter {
    fn default() -> (r: Self)
        ensures
            r.0 == PaletteColor::Blue,
    {
        SelectedFighter(PaletteColor::all()[0])
    }
}

} // verus!
