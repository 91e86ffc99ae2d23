//! Game logic of a collection of jam microgames: a small arcade shooter,
//! the "eat your greens" clicking game, the framing game that runs between
//! them, and the server that hands their files out.
use vstd::prelude::*;

pub mod framing;
pub mod greens;
pub mod server;
pub mod shooter;
pub mod text;

verus! {

} // verus!
