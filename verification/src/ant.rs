//! Ants: mobile agents with fixed-point position and heading.

use vstd::prelude::*;
use crate::angles::heading_wf;
use crate::POS_SCALE;

verus! {

/// Behaviour mode of an ant.
#[derive(Debug, Copy, Clone, PartialEq, Eq, Structural)]
pub enum AntMode {
    /// No food: seeking food pheromone or food cells.
    Exploring,
    /// Carrying food: seeking home pheromone or a home cell of its tribe.
    CarryingFoodHome,
    /// Lost: walking an outward spiral.
    SearchingHome,
}

/// One ant. Positions are in `POS_SCALE`ths of a cell, the heading in angle
/// units (see [`crate::angles`]), the spiral radius in position units.
#[derive(Debug, Copy, Clone, PartialEq, Eq, Structural)]
pub struct Ant {
    pub x: i64,
    pub y: i64,
    pub heading: i64,
    pub tribe: u8,
    pub has_food: bool,
    pub mode: AntMode,
    pub spiral_radius: i64,
}

/// An ant is well formed for a grid when its position lies inside the grid,
/// its heading is reduced, its tribe exists and its spiral radius is not
/// negative.
pub open spec fn ant_wf(a: Ant, width: int, height: int, tribe_count: int) -> bool {
    &&& 0 <= a.x < width * POS_SCALE
    &&& 0 <= a.y < height * POS_SCALE
    &&& heading_wf(a.heading as int)
    &&& (a.tribe as int) < tribe_count
    &&& 0 <= a.spiral_radius
}

/// The grid column the ant currently stands in.
pub open spec fn ant_cell_x(a: Ant) -> int {
    (a.x as int) / (POS_SCALE as int)
}

/// The grid row the ant currently stands in.
pub open spec fn ant_cell_y(a: Ant) -> int {
    (a.y as int) / (POS_SCALE as int)
}

impl Ant {
    /// The color ants are rasterized with.
    pub fn color_rgba(&self) -> (r: [u8; 4])
        ensures
            r@ == ant_color_bytes(),
    {
        [165, 102, 47, 255]
    }
}

impl Default for Ant {
    /// An ant at the grid origin, heading along the x axis, exploring.
    fn default() -> (r: Self)
        ensures
            r == (Ant {
                x: 0,
                y: 0,
                heading: 0,
                tribe: 0,
                has_food: false,
                mode: AntMode::Exploring,
                spiral_radius: 0,
            }),
    {
        Ant { x: 0, y: 0, heading: 0, tribe: 0, has_food: false, mode: AntMode::Exploring, spiral_radius: 0 }
    }
}

/// RGBA bytes of the ant color.
pub open spec fn ant_color_bytes() -> Seq<u8> {
    seq![165u8, 102u8, 47u8, 255u8]
}

/// What an ant sensed at its three probe points, for inspection.
#[derive(Debug, Default, Copy, Clone, PartialEq, Eq, Structural)]
pub struct AntSenses {
    pub left: u64,
    pub forward: u64,
    pub right: u64,
}

/// Snapshot of one ant together with its senses, handed to the
/// presentation side for inspection.
#[derive(Debug, Copy, Clone, PartialEq, Eq, Structural)]
pub struct AntBuffer {
    pub ant: Ant,
    pub senses: AntSenses,
}

} // verus!
