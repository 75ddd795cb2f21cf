//! Verified core of a multi-colony ant foraging simulation.
//!
//! Ants wander a bounded 2D grid, pick food up, carry it to their nests and
//! steer along pheromone trails that the grid decays and diffuses each tick.
//! All continuous quantities are held in fixed-point integers: positions in
//! 1/1024 of a cell, headings in 1/4096 of a full turn, pheromone
//! concentrations in millionths.

use vstd::prelude::*;

pub mod angles;
pub mod ant;
pub mod cell;
pub mod color;
pub mod command;
pub mod event;
pub mod laws;
pub mod pheromones;
pub mod settings;
pub mod runtime;
pub mod shared;
pub mod simulation;
pub mod stats;
pub mod ui;

verus! {

/// Fixed-point scale for positions: one grid cell is `POS_SCALE` units.
pub const POS_SCALE: i64 = 1024;

/// Division rounding toward zero, as the machine divides: the meaning of
/// `/` on the crate's signed fixed-point values.
pub open spec fn div_trunc(n: int, d: int) -> int
    recommends
        d > 0,
{
    if n >= 0 {
        n / d
    } else {
        -((-n) / d)
    }
}

} // verus!
