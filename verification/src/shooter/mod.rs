//! The arcade shooter: its random numbers, palette, frame buffer drawing,
//! sprites, input and round logic.
pub mod color;
pub mod db32;
pub mod rng;
pub mod gfx;
pub mod input;
pub mod sprite;
pub mod anim;
pub mod clock;
pub mod jam;
pub mod round;
pub mod screen;
pub mod sid;
