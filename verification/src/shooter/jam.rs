//! The host's hooks for a round: outside a browser page the round starts at
//! once and the reports go nowhere.
use vstd::prelude::*;

verus! {

/// Whether the host wants the round to start: always, outside a browser.
pub fn should_start() -> (r: bool)
    ensures
        r,
{
    true
}

/// Tells the host that the round started, with the verb shown to the player.
pub fn started(_verb: &str) {
}

/// Tells the host that the round ended, won or lost.
pub fn done(_win: bool) {
}

} // verus!
