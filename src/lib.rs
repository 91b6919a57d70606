//! Simulation core of a small catch-the-target pixel game.
//!
//! A player-steered dot moves with momentum inside a walled arena; when its
//! bounding box meets the target's, the target jumps to a new random place and
//! the dot grows. Velocities and colour channels are fixed-point integers, so
//! every rule of the simulation is checked by the verifier.
use vstd::prelude::*;

pub mod arena;
pub mod game;
pub mod geometry;
pub mod input;
pub mod motion;
pub mod render;
pub mod target;

verus! {

} // verus!
