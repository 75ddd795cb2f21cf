use antbox::ant::{Ant, AntMode};
use antbox::pheromones::{Pheromones, PheromoneType};
use antbox::settings::SimulationSettings;
use antbox::simulation::Simulation;

#[test]
fn put_and_get_round_trip() {
    let mut ph = Pheromones::new(4, 3, 2);
    assert_eq!(ph.get_width(), 4);
    assert_eq!(ph.get_height(), 3);
    assert_eq!(ph.tribe_count(), 2);
    ph.put(1, PheromoneType::Food, 3, 2, 123456);
    assert_eq!(ph.get(1, PheromoneType::Food, 3, 2), 123456);
    assert_eq!(ph.get(1, PheromoneType::Home, 3, 2), 0);
    assert_eq!(ph.get(0, PheromoneType::Food, 3, 2), 0);
}

#[test]
fn deposit_writes_the_ants_cell() {
    let mut ph = Pheromones::new(8, 8, 1);
    let ant = Ant {
        x: 5 * 1024 + 700,
        y: 2 * 1024 + 100,
        heading: 0,
        tribe: 0,
        has_food: true,
        mode: AntMode::CarryingFoodHome,
        spiral_radius: 0,
    };
    ph.deposit(&ant, PheromoneType::Food, 42);
    assert_eq!(ph.get(0, PheromoneType::Food, 5, 2), 42);
}

#[test]
fn decay_scales_and_snaps() {
    let mut ph = Pheromones::new(2, 2, 1);
    ph.put(0, PheromoneType::Home, 0, 0, 1_000_000);
    ph.put(0, PheromoneType::Home, 1, 0, 1002);
    ph.put(0, PheromoneType::Food, 0, 1, 999);
    ph.decay(9975);
    // 1_000_000 * 9975 / 10000, exactly
    assert_eq!(ph.get(0, PheromoneType::Home, 0, 0), 997_500);
    // 1002 * 9975 / 10000 = 999 which is below the 0.001 snap threshold
    assert_eq!(ph.get(0, PheromoneType::Home, 1, 0), 0);
    assert_eq!(ph.get(0, PheromoneType::Food, 0, 1), 0);
}

#[test]
fn decay_is_monotone_over_a_spread_of_values() {
    let mut ph = Pheromones::new(4, 4, 1);
    let mut seed: u64 = 1;
    for y in 0..4u16 {
        for x in 0..4u16 {
            seed = seed.wrapping_mul(6364136223846793005).wrapping_add(1);
            ph.put(0, PheromoneType::Food, x, y, seed % 2_000_000);
        }
    }
    let before: Vec<u64> = ph.values.clone();
    ph.decay(9000);
    for (old, new) in before.iter().zip(ph.values.iter()) {
        assert!(new <= old);
    }
}

#[test]
fn diffusion_spreads_quarters_to_neighbours() {
    let mut s = SimulationSettings::default();
    s.width = 3;
    s.height = 3;
    s.tribe_count = 1;
    s.ant_speed = 0;
    s.ant_wobble_strength = 0;
    s.pheromone_decay = 10000;
    s.pheromone_diffusion = 2500;
    s.drawn_pheromone = None;
    let mut sim = Simulation::new(s);
    sim.pheromones.put(0, PheromoneType::Food, 1, 1, 1_000_000);
    sim.step();
    // outflow 250000, one quarter of 62500 to each of the four neighbours
    assert_eq!(sim.pheromones.get(0, PheromoneType::Food, 1, 1), 750_000);
    assert_eq!(sim.pheromones.get(0, PheromoneType::Food, 0, 1), 62_500);
    assert_eq!(sim.pheromones.get(0, PheromoneType::Food, 2, 1), 62_500);
    assert_eq!(sim.pheromones.get(0, PheromoneType::Food, 1, 0), 62_500);
    assert_eq!(sim.pheromones.get(0, PheromoneType::Food, 1, 2), 62_500);
    assert_eq!(sim.pheromones.get(0, PheromoneType::Food, 0, 0), 0);
}

#[test]
fn corner_diffusion_loses_mass_over_the_edge() {
    let mut s = SimulationSettings::default();
    s.width = 3;
    s.height = 3;
    s.tribe_count = 1;
    s.ant_speed = 0;
    s.ant_wobble_strength = 0;
    s.pheromone_decay = 10000;
    s.pheromone_diffusion = 2500;
    s.drawn_pheromone = None;
    let mut sim = Simulation::new(s);
    sim.pheromones.put(0, PheromoneType::Food, 0, 0, 1_000_000);
    sim.step();
    // the corner sheds all four quarters but only two land in the grid
    assert_eq!(sim.pheromones.get(0, PheromoneType::Food, 0, 0), 750_000);
    assert_eq!(sim.pheromones.get(0, PheromoneType::Food, 1, 0), 62_500);
    assert_eq!(sim.pheromones.get(0, PheromoneType::Food, 0, 1), 62_500);
    let total: u64 = sim.pheromones.values.iter().sum();
    assert_eq!(total, 875_000);
}
