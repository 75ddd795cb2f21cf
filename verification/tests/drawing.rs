use antbox::angles::{cosine_units, sine_units};
use antbox::color::{alpha_blend, interpolate_colors};
use antbox::pheromones::PheromoneType;
use antbox::settings::SimulationSettings;
use antbox::simulation::Simulation;
use antbox::ui::{
    CellInspectorWindowState, DisplaySettingsWindow, DrawMode, DrawSettingsWindowState,
    MainWindowState, SimulationCell, SimulationSettingsWindow, SimulationStatsWindow,
};
use antbox::cell::Cell;
use antbox::event::InspectedCell;

fn draw_settings(width: u16, height: u16) -> SimulationSettings {
    let mut s = SimulationSettings::default();
    s.width = width;
    s.height = height;
    s.tribe_count = 1;
    s.ant_speed = 0;
    s.ant_wobble_strength = 0;
    s
}

#[test]
fn sine_is_exact_at_quadrants() {
    assert_eq!(sine_units(0), 0);
    assert_eq!(sine_units(1024), 1024);
    assert_eq!(sine_units(2048), 0);
    assert_eq!(sine_units(3072), -1024);
    assert_eq!(cosine_units(0), 1024);
    assert_eq!(cosine_units(1024), 0);
    assert_eq!(cosine_units(2048), -1024);
    assert_eq!(cosine_units(3072), 0);
}

#[test]
fn sine_stays_in_range() {
    for a in 0..4096i64 {
        let s = sine_units(a);
        let c = cosine_units(a);
        assert!(-1024 <= s && s <= 1024);
        assert!(-1024 <= c && c <= 1024);
    }
}

#[test]
fn alpha_blend_exact_cases() {
    assert_eq!(
        alpha_blend([255, 0, 0, 255], [0, 0, 0, 255]),
        [255, 0, 0, 255]
    );
    assert_eq!(
        alpha_blend([255, 0, 0, 128], [0, 0, 0, 255]),
        [128, 0, 0, 255]
    );
    assert_eq!(alpha_blend([9, 9, 9, 0], [0, 0, 0, 0]), [0, 0, 0, 0]);
    assert_eq!(alpha_blend([10, 20, 30, 0], [1, 2, 3, 255]), [1, 2, 3, 255]);
}

#[test]
fn interpolation_endpoints() {
    let a = [10, 20, 30, 40];
    let b = [110, 120, 130, 140];
    assert_eq!(interpolate_colors(a, b, 0), a);
    assert_eq!(interpolate_colors(a, b, 255), b);
    assert_eq!(
        interpolate_colors([0, 0, 0, 0], [255, 255, 255, 255], 51),
        [51, 51, 51, 51]
    );
}

#[test]
fn empty_frame_is_cell_colored() {
    let mut s = draw_settings(2, 2);
    s.drawn_pheromone = None;
    let sim = Simulation::new(s);
    let mut frame = vec![9u8; 16];
    sim.draw(&mut frame);
    for p in 0..4 {
        assert_eq!(&frame[4 * p..4 * p + 4], &[0, 0, 0, 255]);
    }
}

#[test]
fn heat_overlay_scales_against_max_heat() {
    let mut s = draw_settings(2, 1);
    s.drawn_pheromone = Some(PheromoneType::Home);
    s.drawn_pheromone_max_heat = 10_000_000;
    let mut sim = Simulation::new(s);
    sim.pheromones.put(0, PheromoneType::Home, 0, 0, 10_000_000);
    let mut frame = vec![0u8; 8];
    sim.draw(&mut frame);
    // full heat: alpha 255, red over black
    assert_eq!(&frame[0..4], &[255, 0, 0, 255]);
    // zero heat: the blend leaves the cell color
    assert_eq!(&frame[4..8], &[0, 0, 0, 255]);
}

#[test]
fn last_drawn_ant_wins_the_pixel() {
    let mut s = draw_settings(2, 2);
    s.drawn_pheromone = None;
    let mut sim = Simulation::new(s);
    sim.spawn_ant(1, 0, 0);
    sim.spawn_ant(1, 0, 0);
    let mut frame = vec![0u8; 16];
    sim.draw(&mut frame);
    assert_eq!(&frame[4..8], &[165, 102, 47, 255]);
    assert_eq!(&frame[0..4], &[0, 0, 0, 255]);
}

#[test]
fn draw_mode_labels() {
    assert_eq!(DrawMode::default(), DrawMode::Ant);
    assert_eq!(DrawMode::Ant.label(), "Ant");
    assert_eq!(DrawMode::Nest.label(), "Nest");
    assert_eq!(DrawMode::Food.label(), "Food");
    let all = DrawMode::all();
    assert_eq!(all, vec![DrawMode::Ant, DrawMode::Nest, DrawMode::Food]);
}

#[test]
fn window_state_defaults() {
    let main = MainWindowState::default();
    assert!(main.is_open);
    assert!(!main.simulation_settings_open);
    let draw = DrawSettingsWindowState::default();
    assert_eq!(draw.draw_mode, DrawMode::Ant);
    assert!(!DisplaySettingsWindow::new().is_open);
    assert!(!SimulationSettingsWindow::new().is_open);
    assert!(!SimulationStatsWindow::new().is_open);
}

#[test]
fn cell_inspector_records_inspections() {
    let mut state = CellInspectorWindowState::default();
    assert!(!state.has_inspected);
    let cell = Cell::default();
    state.inspect(InspectedCell { x: 2, y: 3, cell: Some(cell) });
    assert!(state.has_inspected);
    assert_eq!(state.inspected_cell.x, 2);
    assert_eq!(state.inspected_cell.y, 3);
}

#[test]
fn simulation_cell_widget_builder() {
    let cell = Cell::default();
    let widget = SimulationCell::new((4, 5), cell).id("inspector_cell");
    assert_eq!(widget.coords, (4, 5));
    assert_eq!(widget.id, "inspector_cell");
}
