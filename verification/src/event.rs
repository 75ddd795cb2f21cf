//! Events the simulation worker reports back to the presentation side.

use vstd::prelude::*;
use crate::cell::Cell;

verus! {

/// What an inspection request found at a grid coordinate: the cell there,
/// or nothing when the coordinate was out of bounds.
#[derive(Debug, Copy, Clone, PartialEq, Eq, Structural)]
pub struct InspectedCell {
    pub x: u16,
    pub y: u16,
    pub cell: Option<Cell>,
}

/// A discrete event from the worker.
#[derive(Debug)]
pub enum SimulationEvent {
    InspectedCell(Box<InspectedCell>),
}

} // verus!
