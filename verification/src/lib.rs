//! World generator and food-spawning engine for a character-grid arcade game.
//!
//! A [`level::Level`] owns the grid geometry (odd interior dimensions inside a
//! fixed border), computes a vertical background-color gradient, renders the
//! static terrain as an ordered buffer of draw commands, and spawns randomly
//! placed, randomly typed [`food::Food`] entities for the game loop.

pub mod color;
pub mod draw;
pub mod food;
pub mod level;
pub mod position;
mod rng;

use vstd::prelude::*;

verus! {

/// Smallest odd dimension not below the requested one.
pub open spec fn normalize_dim(d: u16) -> u16 {
    if d % 2 == 0 {
        (d + 1) as u16
    } else {
        d
    }
}

} // verus!
