//! State carried by the presentation-side windows and widgets. The
//! immediate-mode rendering around this state lives outside the verified
//! core; it only reads and writes these records.

use vstd::prelude::*;
use crate::cell::Cell;
use crate::event::InspectedCell;

verus! {

/// What a click on the grid paints: an ant, a nest or food.
#[derive(Debug, Default, Copy, Clone, PartialEq, Eq, PartialOrd, Ord, Hash, Structural)]
pub enum DrawMode {
    #[default]
    Ant,
    Nest,
    Food,
}

impl DrawMode {
    /// The mode's display name.
    pub fn label(&self) -> (r: &'static str)
        ensures
            *self == DrawMode::Ant ==> r@ == "Ant"@,
            *self == DrawMode::Nest ==> r@ == "Nest"@,
            *self == DrawMode::Food ==> r@ == "Food"@,
    {
        match self {
            DrawMode::Ant => "Ant",
            DrawMode::Nest => "Nest",
            DrawMode::Food => "Food",
        }
    }

    /// Every mode, in display order.
    pub fn all() -> (r: Vec<DrawMode>)
        ensures
            r@.len() == 3,
            r@[0] == DrawMode::Ant,
            r@[1] == DrawMode::Nest,
            r@[2] == DrawMode::Food,
    {
        let mut v: Vec<DrawMode> = Vec::new();
        v.push(DrawMode::Ant);
        v.push(DrawMode::Nest);
        v.push(DrawMode::Food);
        v
    }
}

/// One cell presented for inspection.
#[derive(Debug, Copy, Clone)]
pub struct SimulationCell {
    pub coords: (u16, u16),
    pub cell: Cell,
    pub id: &'static str,
}

impl SimulationCell {
    pub fn new(coords: (u16, u16), cell: Cell) -> (r: Self)
        ensures
            r.coords == coords,
            r.cell == cell,
            r.id@ == "simulation_cell"@,
    {
        SimulationCell { coords, cell, id: "simulation_cell" }
    }

    pub fn id(self, id: &'static str) -> (r: Self)
        ensures
            r == (SimulationCell { id, ..self }),
    {
        SimulationCell { id, ..self }
    }
}

/// State of the main window.
#[derive(Debug, Copy, Clone, PartialEq, Eq, Structural)]
pub struct MainWindowState {
    pub is_open: bool,
    pub simulation_settings_open: bool,
}

impl Default for MainWindowState {
    /// Open at start, with the settings window closed.
    fn default() -> (r: Self)
        ensures
            r.is_open,
            !r.simulation_settings_open,
    {
        MainWindowState { is_open: true, simulation_settings_open: false }
    }
}

/// State of the draw-settings window: what a click paints.
#[derive(Debug, Copy, Clone, PartialEq, Eq, Structural)]
pub struct DrawSettingsWindowState {
    pub is_open: bool,
    pub draw_mode: DrawMode,
    pub ant_tribe: u8,
    pub nest_tribe: u8,
    pub food_amount: u8,
}

impl Default for DrawSettingsWindowState {
    fn default() -> (r: Self)
        ensures
            r == (DrawSettingsWindowState {
                is_open: false,
                draw_mode: DrawMode::Ant,
                ant_tribe: 0,
                nest_tribe: 0,
                food_amount: 0,
            }),
    {
        DrawSettingsWindowState {
            is_open: false,
            draw_mode: DrawMode::Ant,
            ant_tribe: 0,
            nest_tribe: 0,
            food_amount: 0,
        }
    }
}

/// State of the cell-inspector window.
#[derive(Debug, Copy, Clone, PartialEq, Eq, Structural)]
pub struct CellInspectorWindowState {
    pub is_open: bool,
    pub inspected_cell: InspectedCell,
    pub has_inspected: bool,
}

impl CellInspectorWindowState {
    /// Record a new inspection result.
    pub fn inspect(&mut self, cell: InspectedCell)
        ensures
            *final(self) == (CellInspectorWindowState {
                inspected_cell: cell,
                has_inspected: true,
                ..*old(self)
            }),
    {
        self.inspected_cell = cell;
        self.has_inspected = true;
    }
}

impl Default for CellInspectorWindowState {
    fn default() -> (r: Self)
        ensures
            !r.is_open,
            !r.has_inspected,
    {
        CellInspectorWindowState {
            is_open: false,
            inspected_cell: InspectedCell { x: 0, y: 0, cell: None },
            has_inspected: false,
        }
    }
}

/// The display-settings window, which owns only its open flag.
#[derive(Debug, Copy, Clone, PartialEq, Eq, Structural)]
pub struct DisplaySettingsWindow {
    pub is_open: bool,
}

impl DisplaySettingsWindow {
    pub fn new() -> (r: Self)
        ensures
            !r.is_open,
    {
        DisplaySettingsWindow { is_open: false }
    }
}

/// The simulation-settings window, which owns only its open flag.
#[derive(Debug, Copy, Clone, PartialEq, Eq, Structural)]
pub struct SimulationSettingsWindow {
    pub is_open: bool,
}

impl SimulationSettingsWindow {
    pub fn new() -> (r: Self)
        ensures
            !r.is_open,
    {
        SimulationSettingsWindow { is_open: false }
    }
}

/// The statistics window, which owns only its open flag.
#[derive(Debug, Copy, Clone, PartialEq, Eq, Structural)]
pub struct SimulationStatsWindow {
    pub is_open: bool,
}

impl SimulationStatsWindow {
    pub fn new() -> (r: Self)
        ensures
            !r.is_open,
    {
        SimulationStatsWindow { is_open: false }
    }
}

} // verus!
