use antbox::command::SimulationCommand;
use antbox::event::SimulationEvent;
use antbox::runtime::{handle_command, tick_sleep_micros};
use antbox::settings::SimulationSettings;
use antbox::shared::SharedState;
use antbox::simulation::Simulation;
use antbox::stats::SimulationStats;

fn sim_4x4() -> Simulation {
    let mut s = SimulationSettings::default();
    s.width = 4;
    s.height = 4;
    s.tribe_count = 2;
    s.ant_speed = 0;
    s.ant_wobble_strength = 0;
    Simulation::new(s)
}

#[test]
fn commands_apply_in_order() {
    let mut sim = sim_4x4();
    let (c1, e1) = handle_command(&mut sim, SimulationCommand::SpawnAnt { x: 1, y: 1, tribe: 0 });
    assert!(c1 && e1.is_none());
    let (c2, _) = handle_command(&mut sim, SimulationCommand::SpawnNest { x: 2, y: 2, tribe: 1 });
    assert!(c2);
    let (c3, _) = handle_command(&mut sim, SimulationCommand::SpawnFood { x: 0, y: 0, amount: 7 });
    assert!(c3);
    assert_eq!(sim.ant_count(), 1);
    assert!(sim.cells[2 * 4 + 2].flags.has_home());
    assert_eq!(sim.cells[2 * 4 + 2].tribe, 1);
    assert_eq!(sim.cells[0].food, 7);
    let (c4, e4) = handle_command(&mut sim, SimulationCommand::Clear);
    assert!(c4 && e4.is_none());
    assert_eq!(sim.ant_count(), 0);
    assert_eq!(sim.cells[0].food, 0);
}

#[test]
fn shutdown_stops_the_loop() {
    let mut sim = sim_4x4();
    let (cont, ev) = handle_command(&mut sim, SimulationCommand::Shutdown);
    assert!(!cont);
    assert!(ev.is_none());
}

#[test]
fn inspect_reports_the_cell() {
    let mut sim = sim_4x4();
    handle_command(&mut sim, SimulationCommand::SpawnFood { x: 3, y: 2, amount: 9 });
    let (cont, ev) = handle_command(&mut sim, SimulationCommand::Inspect { x: 3, y: 2 });
    assert!(cont);
    match ev {
        Some(SimulationEvent::InspectedCell(found)) => {
            assert_eq!(found.x, 3);
            assert_eq!(found.y, 2);
            let cell = found.cell.expect("in-bounds inspection reports a cell");
            assert_eq!(cell.food, 9);
        }
        _ => panic!("inspection must report an event"),
    }
}

#[test]
fn inspect_out_of_bounds_reports_no_cell() {
    let mut sim = sim_4x4();
    let (_, ev) = handle_command(&mut sim, SimulationCommand::Inspect { x: 9, y: 0 });
    match ev {
        Some(SimulationEvent::InspectedCell(found)) => assert!(found.cell.is_none()),
        _ => panic!("inspection must report an event"),
    }
}

#[test]
fn inspect_picks_the_nearest_ant() {
    let mut sim = sim_4x4();
    handle_command(&mut sim, SimulationCommand::SpawnAnt { x: 1, y: 1, tribe: 0 });
    handle_command(&mut sim, SimulationCommand::Inspect { x: 1, y: 2 });
    assert_eq!(sim.settings.inspected_ant, Some(0));
    let mut far = sim_4x4();
    handle_command(&mut far, SimulationCommand::Inspect { x: 1, y: 2 });
    assert_eq!(far.settings.inspected_ant, None);
}

#[test]
fn tick_pacing_subtracts_busy_time() {
    assert_eq!(tick_sleep_micros(60, 0), 16_666);
    assert_eq!(tick_sleep_micros(60, 10_000), 6_666);
    assert_eq!(tick_sleep_micros(60, 20_000), 0);
    assert_eq!(tick_sleep_micros(0, 5), 0);
    assert_eq!(tick_sleep_micros(1, 999_999), 1);
}

#[test]
fn shared_state_round_trips() {
    let mut shared = SharedState::default();
    assert!(!shared.is_paused());
    assert_eq!(shared.steps_per_second(), 60);
    shared.set_paused(true);
    shared.set_ant_count(77);
    shared.set_steps_per_second(30);
    shared.set_pheromone_decay(9000);
    assert!(shared.is_paused());
    assert_eq!(shared.ant_count(), 77);
    assert_eq!(shared.steps_per_second(), 30);
    assert_eq!(shared.pheromone_decay(), 9000);
}

#[test]
fn sync_settings_clamps_the_decay() {
    let mut shared = SharedState::default();
    shared.set_paused(true);
    shared.set_pheromone_decay(50_000);
    let mut settings = SimulationSettings::default();
    shared.sync_settings(&mut settings);
    assert!(settings.paused);
    assert_eq!(settings.pheromone_decay, 10_000);
}

#[test]
fn from_settings_mirrors_the_tunables() {
    let mut settings = SimulationSettings::default();
    settings.paused = true;
    settings.steps_per_second = 24;
    let shared = SharedState::from_settings(&settings);
    assert!(shared.is_paused());
    assert_eq!(shared.steps_per_second(), 24);
    assert_eq!(shared.ant_count(), 0);
}

#[test]
fn step_duration_average_smooths() {
    let mut stats = SimulationStats::default();
    stats.record_step_duration(800);
    assert_eq!(stats.avg_step_duration_micros, 100);
    stats.record_step_duration(800);
    assert_eq!(stats.avg_step_duration_micros, 187);
}

#[test]
fn worker_scenario_spawns_and_ticks() {
    let mut s = SimulationSettings::default();
    s.width = 64;
    s.height = 36;
    let mut sim = Simulation::new(s);
    let mut running = true;
    for i in 0..100u16 {
        let (cont, _) = handle_command(
            &mut sim,
            SimulationCommand::SpawnAnt { x: i % 64, y: i % 36, tribe: i as u8 % 4 },
        );
        running = running && cont;
    }
    assert!(running);
    let mut shared = SharedState::from_settings(&sim.settings);
    for _ in 0..50 {
        sim.step();
        shared.set_ant_count(sim.stats.ant_count);
    }
    assert_eq!(shared.ant_count(), 100);
    let mut frame = vec![0u8; 64 * 36 * 4];
    sim.draw(&mut frame);
    assert_eq!(frame.len(), 64 * 36 * 4);
}
