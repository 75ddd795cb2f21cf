//! The worker's decision logic: what each command does to the simulation,
//! and how a tick is paced. The thread, channels and buffers that carry
//! commands and frames live outside the verified core; they call in here.

use vstd::prelude::*;
use crate::cell::Cell;
use crate::command::SimulationCommand;
use crate::event::{InspectedCell, SimulationEvent};
use crate::settings::SimulationSettings;
use crate::simulation::{spec_empty_cell, spec_new_ant, Simulation, ANT_CAP};

verus! {

/// How far, in cells, an inspection click reaches when picking an ant.
pub const INSPECT_RADIUS: u16 = 3;

/// Exactly what applying `cmd` does: which state the simulation moves to,
/// whether the tick loop keeps running, and which event is reported.
pub open spec fn spec_command_effect(
    pre: Simulation,
    post: Simulation,
    cmd: SimulationCommand,
    cont: bool,
    ev: Option<SimulationEvent>,
) -> bool {
    match cmd {
        SimulationCommand::Clear => {
            &&& cont
            &&& ev is None
            &&& post.ants@.len() == 0
            &&& post.cells@.len() == pre.cells@.len()
            &&& forall|i: int|
                0 <= i < post.cells@.len() ==> #[trigger] post.cells@[i] == spec_empty_cell()
            &&& forall|i: int|
                0 <= i < post.pheromones.values@.len() ==> #[trigger] post.pheromones.values@[i]
                    == 0
            &&& post.settings == pre.settings
            &&& post.stats == pre.stats
        },
        SimulationCommand::Shutdown => {
            &&& !cont
            &&& ev is None
            &&& post == pre
        },
        SimulationCommand::SpawnAnt { x, y, tribe } => {
            &&& cont
            &&& ev is None
            &&& pre.spawn_in_range(x, y, tribe) && pre.ants@.len() < ANT_CAP ==> post.ants@
                == pre.ants@.push(spec_new_ant(x, y, tribe))
            &&& !(pre.spawn_in_range(x, y, tribe) && pre.ants@.len() < ANT_CAP) ==> post == pre
            &&& post.cells@ == pre.cells@
            &&& post.pheromones == pre.pheromones
            &&& post.settings == pre.settings
            &&& post.stats == pre.stats
        },
        SimulationCommand::SpawnNest { x, y, tribe } => {
            &&& cont
            &&& ev is None
            &&& pre.spawn_in_range(x, y, tribe) ==> {
                let i = pre.spec_cell_index(x as int, y as int);
                let c = pre.cells@[i];
                &&& post.cells@ == pre.cells@.update(
                    i,
                    Cell { flags: post.cells@[i].flags, tribe, food: c.food },
                )
                &&& post.cells@[i].flags.spec_has_home()
                &&& post.cells@[i].flags.spec_has_food() == c.flags.spec_has_food()
            }
            &&& !pre.spawn_in_range(x, y, tribe) ==> post == pre
            &&& post.ants@ == pre.ants@
            &&& post.pheromones == pre.pheromones
            &&& post.settings == pre.settings
            &&& post.stats == pre.stats
        },
        SimulationCommand::SpawnFood { x, y, amount } => {
            &&& cont
            &&& ev is None
            &&& x < pre.settings.width && y < pre.settings.height ==> {
                let i = pre.spec_cell_index(x as int, y as int);
                let c = pre.cells@[i];
                let added = if c.food + amount > 255 {
                    255int
                } else {
                    c.food + amount
                };
                &&& post.cells@ == pre.cells@.update(
                    i,
                    Cell { flags: post.cells@[i].flags, tribe: c.tribe, food: added as u8 },
                )
                &&& post.cells@[i].food == added
            }
            &&& !(x < pre.settings.width && y < pre.settings.height) ==> post == pre
            &&& post.ants@ == pre.ants@
            &&& post.pheromones == pre.pheromones
            &&& post.settings == pre.settings
            &&& post.stats == pre.stats
        },
        SimulationCommand::Inspect { x, y } => {
            &&& cont
            &&& match ev {
                Some(SimulationEvent::InspectedCell(b)) => {
                    &&& b.x == x
                    &&& b.y == y
                    &&& b.cell == (if x < pre.settings.width && y < pre.settings.height {
                        Some(pre.cells@[pre.spec_cell_index(x as int, y as int)])
                    } else {
                        None
                    })
                },
                _ => false,
            }
            &&& post.ants@ == pre.ants@
            &&& post.cells@ == pre.cells@
            &&& post.pheromones == pre.pheromones
            &&& post.stats == pre.stats
            &&& post.settings == (SimulationSettings {
                inspected_ant: post.settings.inspected_ant,
                ..pre.settings
            })
            &&& pre.nearest_ant_ok(x, y, INSPECT_RADIUS, post.settings.inspected_ant)
        },
    }
}

/// Apply one command to the simulation, in arrival order with respect to
/// its caller: the worker drains all pending commands before each tick.
/// Returns whether the loop keeps running and the event to report, if any.
pub fn handle_command(sim: &mut Simulation, command: SimulationCommand) -> (r: (
    bool,
    Option<SimulationEvent>,
))
    requires
        old(sim).wf(),
    ensures
        final(sim).wf(),
        spec_command_effect(*old(sim), *final(sim), command, r.0, r.1),
{
    match command {
        SimulationCommand::Clear => {
            sim.clear();
            (true, None)
        },
        SimulationCommand::Shutdown => (false, None),
        SimulationCommand::SpawnAnt { x, y, tribe } => {
            sim.spawn_ant(x, y, tribe);
            (true, None)
        },
        SimulationCommand::SpawnNest { x, y, tribe } => {
            sim.spawn_nest(x, y, tribe);
            (true, None)
        },
        SimulationCommand::SpawnFood { x, y, amount } => {
            sim.spawn_food(x, y, amount);
            (true, None)
        },
        SimulationCommand::Inspect { x, y } => {
            let cell: Option<Cell> = if x < sim.settings().width && y < sim.settings().height {
                let i = sim.cell_index(x, y);
                Some(sim.cells[i])
            } else {
                None
            };
            let found = InspectedCell { x, y, cell };
            let near = sim.get_ant_index_at_coords(x, y, INSPECT_RADIUS);
            let s = sim.settings_mut();
            s.inspected_ant = near;
            (true, Some(SimulationEvent::InspectedCell(Box::new(found))))
        },
    }
}

/// How long the worker sleeps after a tick: the remainder of the tick's
/// time budget, zero when the tick overran it or when pacing is off.
pub open spec fn spec_tick_sleep(steps_per_second: int, elapsed_micros: int) -> int {
    if steps_per_second <= 0 {
        0
    } else {
        let target = 1000000int / steps_per_second;
        if elapsed_micros >= target {
            0
        } else {
            target - elapsed_micros
        }
    }
}

/// The microseconds left of this tick's time budget.
pub fn tick_sleep_micros(steps_per_second: u8, elapsed_micros: u64) -> (r: u64)
    ensures
        r == spec_tick_sleep(steps_per_second as int, elapsed_micros as int),
{
    if steps_per_second == 0 {
        return 0;
    }
    let target: u64 = 1000000 / (steps_per_second as u64);
    if elapsed_micros >= target {
        0
    } else {
        target - elapsed_micros
    }
}

} // verus!
