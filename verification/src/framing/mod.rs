//! The framing game that runs between the microgames: its screens, the
//! player's lives, and the timing of its intro.
pub mod game;
