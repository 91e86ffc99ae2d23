//! "Eat your greens": click the green heads before the time runs out, avoid
//! the others, and optionally boot the computer with the floppy disk.
pub mod color;
pub mod constants;
pub mod errors;
pub mod computer;
pub mod os;
pub mod state;
pub mod disquette;
pub mod message;
pub mod ops;
pub mod random;
pub mod events;
