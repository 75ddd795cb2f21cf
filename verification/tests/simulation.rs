use antbox::ant::{Ant, AntMode};
use antbox::pheromones::PheromoneType;
use antbox::settings::SimulationSettings;
use antbox::simulation::Simulation;

fn small_settings(width: u16, height: u16) -> SimulationSettings {
    let mut s = SimulationSettings::default();
    s.width = width;
    s.height = height;
    s.tribe_count = 2;
    s.ant_speed = 0;
    s.ant_wobble_strength = 0;
    s.pheromone_decay = 10000;
    s.drawn_pheromone = None;
    s
}

#[test]
fn new_simulation_is_empty() {
    let sim = Simulation::new(small_settings(4, 3));
    assert_eq!(sim.ant_count(), 0);
    assert_eq!(sim.cells.len(), 12);
    assert!(sim.cells.iter().all(|c| c.food == 0 && !c.flags.has_home()));
    assert!(sim.pheromones.values.iter().all(|v| *v == 0));
}

#[test]
fn spawn_ant_in_bounds() {
    let mut sim = Simulation::new(small_settings(4, 4));
    sim.spawn_ant(2, 3, 1);
    assert_eq!(sim.ant_count(), 1);
    let a = &sim.ants[0];
    assert_eq!(a.x, 2 * 1024);
    assert_eq!(a.y, 3 * 1024);
    assert_eq!(a.tribe, 1);
    assert!(!a.has_food);
    assert_eq!(a.mode, AntMode::Exploring);
}

#[test]
fn out_of_bounds_spawns_are_dropped() {
    let mut sim = Simulation::new(small_settings(4, 4));
    sim.spawn_food(1, 1, 9);
    let food_before: u64 = sim.cells.iter().map(|c| c.food as u64).sum();
    sim.spawn_ant(4, 0, 0);
    sim.spawn_ant(0, 4, 0);
    sim.spawn_ant(0, 0, 2);
    sim.spawn_nest(4, 1, 0);
    sim.spawn_nest(1, 1, 2);
    sim.spawn_food(9, 9, 200);
    assert_eq!(sim.ant_count(), 0);
    let food_after: u64 = sim.cells.iter().map(|c| c.food as u64).sum();
    assert_eq!(food_before, food_after);
    assert!(sim.cells.iter().all(|c| !c.flags.has_home()));
}

#[test]
fn population_cap_holds() {
    let mut sim = Simulation::new(small_settings(2, 2));
    for _ in 0..65535 {
        sim.spawn_ant(0, 0, 0);
    }
    assert_eq!(sim.ant_count(), 65535);
    sim.spawn_ant(1, 1, 0);
    assert_eq!(sim.ant_count(), 65535);
}

#[test]
fn food_pickup_conserves_one_unit() {
    let mut sim = Simulation::new(small_settings(4, 4));
    sim.spawn_ant(1, 1, 0);
    sim.spawn_food(1, 1, 3);
    sim.step();
    assert_eq!(sim.cells[1 * 4 + 1].food, 2);
    assert!(sim.ants[0].has_food);
    assert_eq!(sim.ants[0].mode, AntMode::CarryingFoodHome);
    // heading reversed by exactly half a turn: 0 + 2048 (turn and wobble are zero)
    assert_eq!(sim.ants[0].heading, 2048);
    // the carrying ant marks the food trail with the stronger of the base
    // strength and the food left on the cell
    assert_eq!(
        sim.pheromones
            .get(0, PheromoneType::Food, 1, 1),
        2_000_000
    );
}

#[test]
fn mode_round_trip_at_own_home() {
    let mut sim = Simulation::new(small_settings(4, 4));
    sim.spawn_ant(1, 1, 0);
    sim.spawn_food(1, 1, 1);
    sim.spawn_nest(1, 1, 0);
    sim.step();
    assert!(sim.ants[0].has_food);
    sim.step();
    assert!(!sim.ants[0].has_food);
    assert_eq!(sim.ants[0].mode, AntMode::Exploring);
}

#[test]
fn no_transition_at_foreign_home() {
    let mut sim = Simulation::new(small_settings(4, 4));
    sim.spawn_ant(1, 1, 0);
    sim.spawn_food(1, 1, 1);
    sim.spawn_nest(1, 1, 1);
    sim.step();
    assert!(sim.ants[0].has_food);
    sim.step();
    // the home cell belongs to tribe 1, the ant to tribe 0: it keeps carrying
    assert!(sim.ants[0].has_food);
    assert_eq!(sim.ants[0].mode, AntMode::CarryingFoodHome);
}

#[test]
fn left_wall_reflection_is_exact() {
    let mut sim = Simulation::new(small_settings(8, 8));
    sim.settings.ant_speed = 1024;
    sim.ants.push(Ant {
        x: 512,
        y: 4 * 1024,
        heading: 2048,
        tribe: 0,
        has_food: false,
        mode: AntMode::Exploring,
        spiral_radius: 0,
    });
    sim.step();
    // raw step: 512 - 1024 = -512, reflected to 512; heading pi - pi = 0
    assert_eq!(sim.ants[0].x, 512);
    assert_eq!(sim.ants[0].heading, 0);
    assert_eq!(sim.ants[0].y, 4 * 1024);
}

#[test]
fn top_wall_reflection_is_exact() {
    let mut sim = Simulation::new(small_settings(8, 8));
    sim.settings.ant_speed = 1024;
    sim.ants.push(Ant {
        x: 4 * 1024,
        y: 256,
        heading: 3072, // three quarter turns: straight up (negative y)
        tribe: 0,
        has_food: false,
        mode: AntMode::Exploring,
        spiral_radius: 0,
    });
    sim.step();
    // raw step: 256 - 1024 = -768, reflected to 768; heading -3072 wraps to 1024
    assert_eq!(sim.ants[0].y, 768);
    assert_eq!(sim.ants[0].heading, 1024);
    assert_eq!(sim.ants[0].x, 4 * 1024);
}

#[test]
fn clear_resets_everything() {
    let mut sim = Simulation::new(small_settings(4, 4));
    sim.spawn_ant(1, 1, 0);
    sim.spawn_food(2, 2, 50);
    sim.spawn_nest(3, 3, 1);
    sim.step();
    sim.clear();
    assert_eq!(sim.ant_count(), 0);
    assert!(sim.cells.iter().all(|c| c.food == 0 && !c.flags.has_home()));
    assert!(sim.pheromones.values.iter().all(|v| *v == 0));
}

#[test]
fn paused_step_changes_nothing() {
    let mut sim = Simulation::new(small_settings(4, 4));
    sim.spawn_ant(1, 1, 0);
    sim.spawn_food(1, 1, 3);
    sim.settings.paused = true;
    sim.step();
    assert_eq!(sim.cells[1 * 4 + 1].food, 3);
    assert!(!sim.ants[0].has_food);
}

#[test]
fn step_recomputes_stats() {
    let mut sim = Simulation::new(small_settings(4, 4));
    sim.spawn_ant(0, 0, 0);
    sim.spawn_ant(1, 1, 0);
    sim.spawn_food(1, 1, 5);
    sim.step();
    assert_eq!(sim.stats.ant_count, 2);
    assert_eq!(sim.stats.ants_with_food, 1);
    assert_eq!(sim.stats.total_food, 4);
}

#[test]
fn nest_beacon_marks_home_layer() {
    let mut sim = Simulation::new(small_settings(4, 4));
    sim.spawn_nest(2, 1, 1);
    sim.step();
    assert_eq!(
        sim.pheromones
            .get(1, PheromoneType::Home, 2, 1),
        1_000_000
    );
    assert_eq!(
        sim.pheromones
            .get(0, PheromoneType::Home, 2, 1),
        0
    );
}

#[test]
fn spawn_food_saturates() {
    let mut sim = Simulation::new(small_settings(4, 4));
    sim.spawn_food(0, 0, 200);
    sim.spawn_food(0, 0, 200);
    assert_eq!(sim.cells[0].food, 255);
    assert!(sim.cells[0].flags.has_food());
}

#[test]
fn nearest_ant_lookup() {
    let mut sim = Simulation::new(small_settings(16, 16));
    sim.spawn_ant(1, 1, 0);
    sim.spawn_ant(9, 9, 0);
    sim.spawn_ant(9, 9, 0);
    assert_eq!(sim.get_ant_index_at_coords(2, 2, 3), Some(0));
    // exact tie between ants 1 and 2: the first found wins
    assert_eq!(sim.get_ant_index_at_coords(9, 9, 1), Some(1));
    assert_eq!(sim.get_ant_index_at_coords(14, 1, 2), None);
}

#[test]
fn ant_buffer_reports_senses() {
    let mut sim = Simulation::new(small_settings(4, 4));
    sim.spawn_ant(1, 1, 0);
    let buffer = sim.ant_buffer(0).unwrap();
    assert_eq!(buffer.ant.x, 1024);
    assert_eq!(buffer.senses.left, 0);
    assert_eq!(buffer.senses.forward, 0);
    assert_eq!(buffer.senses.right, 0);
    assert!(sim.ant_buffer(7).is_none());
}

#[test]
fn steering_turns_toward_the_stronger_side() {
    let mut sim = Simulation::new(small_settings(16, 16));
    sim.settings.ant_sensor_angle = 1024;
    sim.settings.ant_sensor_distance = 2048;
    sim.settings.ant_turn_angle = 130;
    sim.spawn_ant(8, 8, 0);
    // food trail two cells up: the left probe of an ant heading +x
    sim.pheromones.put(0, PheromoneType::Food, 8, 6, 5000);
    sim.step();
    assert_eq!(sim.ants[0].heading, 4096 - 130);
}

#[test]
fn steering_turns_right_when_right_is_stronger() {
    let mut sim = Simulation::new(small_settings(16, 16));
    sim.settings.ant_sensor_angle = 1024;
    sim.settings.ant_sensor_distance = 2048;
    sim.settings.ant_turn_angle = 130;
    sim.spawn_ant(8, 8, 0);
    sim.pheromones.put(0, PheromoneType::Food, 8, 10, 5000);
    sim.step();
    assert_eq!(sim.ants[0].heading, 130);
}

#[test]
fn forward_wins_ties_and_zero_fields_mean_straight() {
    let mut sim = Simulation::new(small_settings(16, 16));
    sim.settings.ant_sensor_angle = 1024;
    sim.settings.ant_sensor_distance = 2048;
    sim.settings.ant_turn_angle = 130;
    sim.spawn_ant(8, 8, 0);
    sim.step();
    assert_eq!(sim.ants[0].heading, 0);
    // equally strong everywhere: forward still wins
    sim.pheromones.put(0, PheromoneType::Food, 10, 8, 700);
    sim.pheromones.put(0, PheromoneType::Food, 8, 6, 700);
    sim.pheromones.put(0, PheromoneType::Food, 8, 10, 700);
    sim.settings.pheromone_decay = 10000;
    sim.step();
    assert_eq!(sim.ants[0].heading, 0);
}

#[test]
fn searching_ants_spiral_outward() {
    let mut sim = Simulation::new(small_settings(16, 16));
    sim.settings.ant_speed = 1024;
    sim.ants.push(Ant {
        x: 8 * 1024,
        y: 8 * 1024,
        heading: 0,
        tribe: 0,
        has_food: false,
        mode: AntMode::SearchingHome,
        spiral_radius: 1024,
    });
    sim.step();
    // spiral turn: speed * units-per-radian / radius = 652
    assert_eq!(sim.ants[0].heading, 652);
    assert_eq!(sim.ants[0].x, 8 * 1024 + 552);
    assert_eq!(sim.ants[0].y, 8 * 1024 + 860);
    assert_eq!(sim.ants[0].mode, AntMode::SearchingHome);
}

#[test]
fn far_wall_reflection_is_exact() {
    let mut sim = Simulation::new(small_settings(8, 8));
    sim.settings.ant_speed = 1024;
    sim.ants.push(Ant {
        x: 7 * 1024 + 600,
        y: 4 * 1024,
        heading: 0,
        tribe: 0,
        has_food: false,
        mode: AntMode::Exploring,
        spiral_radius: 0,
    });
    sim.step();
    // raw step 8792 crosses the wall at 8192: mirrored exactly to 2 * 8192 - 8792
    assert_eq!(sim.ants[0].x, 7592);
    assert_eq!(sim.ants[0].heading, 2048);
}

#[test]
fn exact_far_wall_hit_lands_one_unit_inside() {
    let mut sim = Simulation::new(small_settings(8, 8));
    sim.settings.ant_speed = 1024;
    sim.ants.push(Ant {
        x: 7 * 1024,
        y: 4 * 1024,
        heading: 0,
        tribe: 0,
        has_food: false,
        mode: AntMode::Exploring,
        spiral_radius: 0,
    });
    sim.step();
    // raw step 8192 lands exactly on the wall: the mirror would stay there,
    // so the ant comes to rest one unit inside
    assert_eq!(sim.ants[0].x, 8191);
    assert_eq!(sim.ants[0].heading, 2048);
}

#[test]
fn bottom_wall_reflection_is_exact() {
    let mut sim = Simulation::new(small_settings(8, 8));
    sim.settings.ant_speed = 1024;
    sim.ants.push(Ant {
        x: 4 * 1024,
        y: 7 * 1024 + 600,
        heading: 1024, // a quarter turn: straight down (positive y)
        tribe: 0,
        has_food: false,
        mode: AntMode::Exploring,
        spiral_radius: 0,
    });
    sim.step();
    // raw step 8792 crosses the wall at 8192: mirrored exactly to 2 * 8192 - 8792
    assert_eq!(sim.ants[0].y, 7592);
    assert_eq!(sim.ants[0].heading, 3072);
    assert_eq!(sim.ants[0].x, 4 * 1024);
}

#[test]
fn nearest_ant_radius_is_inclusive() {
    let mut sim = Simulation::new(small_settings(16, 16));
    sim.spawn_ant(5, 1, 0);
    assert_eq!(sim.get_ant_index_at_coords(1, 1, 4), Some(0));
    assert_eq!(sim.get_ant_index_at_coords(0, 1, 4), None);
}
