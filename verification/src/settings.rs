//! Simulation tunables.

use vstd::prelude::*;
use crate::angles::TURN_UNITS;
use crate::pheromones::{DECAY_SCALE, DIFFUSION_SCALE, PHER_CAP, PHER_SCALE, PheromoneType};
use crate::POS_SCALE;

verus! {

/// All tunables of a simulation. Fixed-point units are the crate's: grid
/// positions in `POS_SCALE`ths of a cell, angles in `TURN_UNITS`ths of a
/// turn, pheromone amounts in `PHER_SCALE`ths, the decay factor in
/// `DECAY_SCALE`ths and the diffusion rate in `DIFFUSION_SCALE`ths.
#[derive(Debug, Copy, Clone, PartialEq, Eq, Structural)]
pub struct SimulationSettings {
    pub width: u16,
    pub height: u16,
    pub tribe_count: u8,
    pub steps_per_second: u8,
    pub pheromone_decay: u64,
    pub pheromone_diffusion: u64,
    pub ant_pheromone_strength: u64,
    pub ant_sensor_angle: i64,
    pub ant_sensor_distance: i64,
    pub ant_speed: i64,
    pub ant_turn_angle: i64,
    pub ant_wobble_strength: i64,
    pub paused: bool,
    pub drawn_pheromone: Option<PheromoneType>,
    pub drawn_pheromone_max_heat: u64,
    pub drawn_pheromone_tribe: u8,
    pub inspected_ant: Option<u16>,
}

impl SimulationSettings {
    /// Grid cells as a mathematical integer.
    pub open spec fn spec_cell_count(self) -> int {
        (self.width as int) * (self.height as int)
    }

    /// Bounds under which every tick stays free of overflow and every ant
    /// move stays reflectable back into the grid.
    pub open spec fn wf(self) -> bool {
        &&& 1 <= self.width
        &&& 1 <= self.height
        &&& 4 * self.spec_cell_count() <= usize::MAX as int
        &&& 2 * (self.tribe_count as int) * self.spec_cell_count() <= usize::MAX as int
        &&& self.pheromone_decay <= DECAY_SCALE
        &&& self.pheromone_diffusion <= DIFFUSION_SCALE
        &&& self.ant_pheromone_strength <= PHER_CAP
        &&& 0 <= self.ant_sensor_angle <= TURN_UNITS
        &&& 0 <= self.ant_sensor_distance <= 67108864
        &&& 0 <= self.ant_speed
        &&& self.ant_speed < (self.width as int) * POS_SCALE
        &&& self.ant_speed < (self.height as int) * POS_SCALE
        &&& 0 <= self.ant_turn_angle <= TURN_UNITS
        &&& 0 <= self.ant_wobble_strength <= TURN_UNITS
        &&& 1 <= self.drawn_pheromone_max_heat <= PHER_CAP
    }

    /// Decide the bounds of `wf` at run time, for callers outside the
    /// verified core.
    pub fn is_wf(&self) -> (r: bool)
        ensures
            r == self.wf(),
    {
        proof {
            assert((self.width as int) * (self.height as int) <= 65535 * 65535)
                by (nonlinear_arith)
                requires
                    self.width <= 65535,
                    self.height <= 65535,
            ;
            assert(2 * (self.tribe_count as int) * ((self.width as int) * (self.height as int))
                <= 510 * (65535 * 65535)) by (nonlinear_arith)
                requires
                    self.tribe_count <= 255,
                    0 <= (self.width as int) * (self.height as int) <= 65535 * 65535,
            ;
        }
        let cells: u64 = (self.width as u64) * (self.height as u64);
        1 <= self.width && 1 <= self.height && 4 * cells <= usize::MAX as u64 && 2 * (
        self.tribe_count as u64) * cells <= usize::MAX as u64 && self.pheromone_decay
            <= DECAY_SCALE && self.pheromone_diffusion <= DIFFUSION_SCALE
            && self.ant_pheromone_strength <= PHER_CAP && 0 <= self.ant_sensor_angle
            && self.ant_sensor_angle <= TURN_UNITS && 0 <= self.ant_sensor_distance
            && self.ant_sensor_distance <= 67108864 && 0 <= self.ant_speed && (
        self.ant_speed as i64) < (self.width as i64) * POS_SCALE && (self.ant_speed as i64) < (
        self.height as i64) * POS_SCALE && 0 <= self.ant_turn_angle && self.ant_turn_angle
            <= TURN_UNITS && 0 <= self.ant_wobble_strength && self.ant_wobble_strength
            <= TURN_UNITS && 1 <= self.drawn_pheromone_max_heat && self.drawn_pheromone_max_heat
            <= PHER_CAP
    }

    /// Number of grid cells.
    pub fn cell_count(&self) -> (r: usize)
        requires
            self.wf(),
        ensures
            r == self.spec_cell_count(),
    {
        (self.width as usize) * (self.height as usize)
    }
}

impl Default for SimulationSettings {
    /// A 640 x 360 grid with four tribes and the standard foraging tunables:
    /// one cell per tick of speed, probes ten cells ahead, a 0.9975 decay.
    fn default() -> (r: Self)
        ensures
            r.wf(),
            r == (SimulationSettings {
                width: 640,
                height: 360,
                tribe_count: 4,
                steps_per_second: 60,
                pheromone_decay: 9975,
                pheromone_diffusion: 0,
                ant_pheromone_strength: PHER_SCALE,
                ant_sensor_angle: 261,
                ant_sensor_distance: 10240,
                ant_speed: 1024,
                ant_turn_angle: 130,
                ant_wobble_strength: 261,
                paused: false,
                drawn_pheromone: Some(PheromoneType::Home),
                drawn_pheromone_max_heat: 10000000,
                drawn_pheromone_tribe: 0,
                inspected_ant: None,
            }),
    {
        SimulationSettings {
            width: 640,
            height: 360,
            tribe_count: 4,
            steps_per_second: 60,
            pheromone_decay: 9975,
            pheromone_diffusion: 0,
            ant_pheromone_strength: PHER_SCALE,
            ant_sensor_angle: 261,
            ant_sensor_distance: 10 * POS_SCALE,
            ant_speed: POS_SCALE,
            ant_turn_angle: 130,
            ant_wobble_strength: 261,
            paused: false,
            drawn_pheromone: Some(PheromoneType::Home),
            drawn_pheromone_max_heat: 10 * PHER_SCALE,
            drawn_pheromone_tribe: 0,
            inspected_ant: None,
        }
    }
}

} // verus!
