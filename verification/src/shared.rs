//! The scalar block mirrored between the worker and the presentation side.
//!
//! Each field is an independent, eventually-consistent scalar. This type
//! holds the verified value logic; the runtime around the library keeps one
//! copy per side in lock-free cells and moves whole snapshots across.

use vstd::prelude::*;
use crate::pheromones::{PheromoneType, DECAY_SCALE};
use crate::settings::SimulationSettings;

verus! {

/// The mirrored scalars: the current ant count and tribe count are written
/// by the worker; the pause flag, tick rate, decay factor and drawn-layer
/// selection by the presentation side.
#[derive(Debug, Copy, Clone, PartialEq, Eq, Structural)]
pub struct SharedState {
    pub ant_count: u16,
    pub is_paused: bool,
    pub steps_per_second: u8,
    pub pheromone_decay: u64,
    pub drawn_pheromone: Option<PheromoneType>,
    pub drawn_pheromone_tribe: u8,
    pub tribe_count: u8,
}

impl Default for SharedState {
    /// Unpaused, no ants, sixty ticks per second, a 0.9975 decay, the
    /// first tribe's home layer drawn.
    fn default() -> (r: Self)
        ensures
            r == (SharedState {
                ant_count: 0,
                is_paused: false,
                steps_per_second: 60,
                pheromone_decay: 9975u64,
                drawn_pheromone: Some(PheromoneType::Home),
                drawn_pheromone_tribe: 0,
                tribe_count: 0,
            }),
    {
        SharedState {
            ant_count: 0,
            is_paused: false,
            steps_per_second: 60,
            pheromone_decay: 9975,
            drawn_pheromone: Some(PheromoneType::Home),
            drawn_pheromone_tribe: 0,
            tribe_count: 0,
        }
    }
}

impl SharedState {
    /// The mirror a fresh simulation with these settings starts from.
    pub fn from_settings(settings: &SimulationSettings) -> (r: Self)
        ensures
            r == (SharedState {
                ant_count: 0,
                is_paused: settings.paused,
                steps_per_second: settings.steps_per_second,
                pheromone_decay: settings.pheromone_decay,
                drawn_pheromone: settings.drawn_pheromone,
                drawn_pheromone_tribe: settings.drawn_pheromone_tribe,
                tribe_count: settings.tribe_count,
            }),
    {
        SharedState {
            ant_count: 0,
            is_paused: settings.paused,
            steps_per_second: settings.steps_per_second,
            pheromone_decay: settings.pheromone_decay,
            drawn_pheromone: settings.drawn_pheromone,
            drawn_pheromone_tribe: settings.drawn_pheromone_tribe,
            tribe_count: settings.tribe_count,
        }
    }

    /// Copy the presentation-side tunables into the simulation settings.
    /// The decay factor is clamped to its scale so the settings stay
    /// well formed.
    pub fn sync_settings(&self, settings: &mut SimulationSettings)
        ensures
            final(settings).pheromone_decay == if self.pheromone_decay <= DECAY_SCALE {
                self.pheromone_decay
            } else {
                DECAY_SCALE
            },
            *final(settings) == (SimulationSettings {
                paused: self.is_paused,
                steps_per_second: self.steps_per_second,
                pheromone_decay: final(settings).pheromone_decay,
                drawn_pheromone: self.drawn_pheromone,
                drawn_pheromone_tribe: self.drawn_pheromone_tribe,
                ..*old(settings)
            }),
            old(settings).wf() ==> final(settings).wf(),
    {
        settings.paused = self.is_paused;
        settings.steps_per_second = self.steps_per_second;
        settings.pheromone_decay = if self.pheromone_decay <= DECAY_SCALE {
            self.pheromone_decay
        } else {
            DECAY_SCALE
        };
        settings.drawn_pheromone = self.drawn_pheromone;
        settings.drawn_pheromone_tribe = self.drawn_pheromone_tribe;
    }

    pub fn ant_count(&self) -> (r: u16)
        ensures
            r == self.ant_count,
    {
        self.ant_count
    }

    pub fn set_ant_count(&mut self, ant_count: u16)
        ensures
            *final(self) == (SharedState { ant_count, ..*old(self) }),
    {
        self.ant_count = ant_count;
    }

    pub fn is_paused(&self) -> (r: bool)
        ensures
            r == self.is_paused,
    {
        self.is_paused
    }

    pub fn set_paused(&mut self, paused: bool)
        ensures
            *final(self) == (SharedState { is_paused: paused, ..*old(self) }),
    {
        self.is_paused = paused;
    }

    pub fn steps_per_second(&self) -> (r: u8)
        ensures
            r == self.steps_per_second,
    {
        self.steps_per_second
    }

    pub fn set_steps_per_second(&mut self, steps_per_second: u8)
        ensures
            *final(self) == (SharedState { steps_per_second, ..*old(self) }),
    {
        self.steps_per_second = steps_per_second;
    }

    pub fn pheromone_decay(&self) -> (r: u64)
        ensures
            r == self.pheromone_decay,
    {
        self.pheromone_decay
    }

    pub fn set_pheromone_decay(&mut self, decay: u64)
        ensures
            *final(self) == (SharedState { pheromone_decay: decay, ..*old(self) }),
    {
        self.pheromone_decay = decay;
    }

    pub fn drawn_pheromone(&self) -> (r: Option<PheromoneType>)
        ensures
            r == self.drawn_pheromone,
    {
        self.drawn_pheromone
    }

    pub fn set_drawn_pheromone(&mut self, drawn: Option<PheromoneType>)
        ensures
            *final(self) == (SharedState { drawn_pheromone: drawn, ..*old(self) }),
    {
        self.drawn_pheromone = drawn;
    }

    pub fn drawn_pheromone_tribe(&self) -> (r: u8)
        ensures
            r == self.drawn_pheromone_tribe,
    {
        self.drawn_pheromone_tribe
    }

    pub fn set_drawn_pheromone_tribe(&mut self, tribe: u8)
        ensures
            *final(self) == (SharedState { drawn_pheromone_tribe: tribe, ..*old(self) }),
    {
        self.drawn_pheromone_tribe = tribe;
    }

    pub fn tribe_count(&self) -> (r: u8)
        ensures
            r == self.tribe_count,
    {
        self.tribe_count
    }
}

} // verus!
