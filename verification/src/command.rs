//! Commands the presentation side sends to the simulation worker.

use vstd::prelude::*;

verus! {

/// A fire-and-forget request: the sender never learns whether the bounds
/// checks accepted it.
#[derive(Debug, Copy, Clone, PartialEq, Eq, Structural)]
pub enum SimulationCommand {
    /// Drop all ants and reset the grid and the pheromone field.
    Clear,
    /// Leave the tick loop after the current iteration.
    Shutdown,
    /// Report the cell at `(x, y)` and pick the nearest ant for inspection.
    Inspect { x: u16, y: u16 },
    /// Add one ant of `tribe` at cell `(x, y)`.
    SpawnAnt { x: u16, y: u16, tribe: u8 },
    /// Flag cell `(x, y)` as a home cell of `tribe`.
    SpawnNest { x: u16, y: u16, tribe: u8 },
    /// Add `amount` food to cell `(x, y)`.
    SpawnFood { x: u16, y: u16, amount: u8 },
}

} // verus!
