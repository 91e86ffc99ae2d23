//! The game's fixed numbers and texts.
use vstd::prelude::*;

use crate::text::{decimal, push_decimal};

verus! {

/// Height of the playfield in pixels.
pub const HEIGHT: u32 = 160;
/// Width of the playfield in pixels.
pub const WIDTH: u32 = 240;
pub const LANDING_TEXTURE_HEIGHT: i32 = 160;
pub const LANDING_TEXTURE_WIDTH: i32 = 240;

/// Length of a round at difficulty 1, in milliseconds.
pub const GAME_DURATION_MS: u32 = 15_000;
/// The score a round asks for at difficulty 1.
pub const NB_GREENS: i32 = 15;
/// Heads spawned in the quick burst that opens a round.
pub const INITIAL_SPAWN: u32 = 8;
/// Most heads alive at once.
pub const MAX_ENTITIES: u32 = 40;
pub const SPAWN_RATE_MIN_MS: u32 = 500;
pub const SPAWN_RATE_MAX_MS: u32 = 1_200;

pub const TITLE_START_BUTTON_LABEL: &'static str = "START";
pub const TITLE_CLICK_START_HINT: &'static str = "Click START to begin the 15s* round.";
pub const TITLE_SCORING_HINT: &'static str = "Green gives +1, all other colors give -1.";
pub const TITLE_HINT: &'static str = "hint: booting the computer is optional.";
pub const HUD_SCORE_LABEL_PREFIX: &'static str = "Score: ";
pub const HUD_TIME_LABEL_PREFIX: &'static str = "Time: ";
pub const HUD_TIME_LABEL_SUFFIX: &'static str = "s";
pub const HUD_FPS_LABEL_PREFIX: &'static str = "FPS: ";
pub const UI_UNIFORM_COLOR_NAME: &'static str = "color";
pub const UI_UNIFORM_OPACITY_NAME: &'static str = "opacity";
pub const GAME_OVER_TITLE_TEXT: &'static str = "Game Over";
pub const GAME_OVER_RESULT_PREFIX: &'static str = "Result: ";

/// The title screen's goal line: "Score N or more to win" with N = `NB_GREENS`.
pub fn title_score_goal() -> (s: String)
    ensures
        s@ == "Score "@ + decimal(NB_GREENS as nat) + " or more to win"@,
{
    let mut s = String::from_str("Score ");
    push_decimal(&mut s, NB_GREENS as u64);
    s.append(" or more to win");
    s
}

} // verus!
