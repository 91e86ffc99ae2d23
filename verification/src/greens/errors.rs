//! What a click on the playfield did.
use vstd::prelude::*;

use crate::greens::color::EntityColor;

verus! {

/// A click either hit a head (seen in the given colour) or missed.
#[derive(Debug, Copy, Clone, PartialEq, Eq, Structural)]
pub enum ClickOutcome {
    Hit(EntityColor),
    Miss,
}

} // verus!
