//! The simulation: cell grid, pheromone field and the ant population.

use vstd::prelude::*;
use rayon::iter::IndexedParallelIterator;
use rayon::iter::IntoParallelRefIterator;
use rayon::iter::ParallelIterator;
use crate::angles::{
    cosine_fp, sine_fp, wrap_angle, heading_wf, turn_heading, cosine_units, sine_units,
    reflect_x_heading, reflect_y_heading, HALF_TURN_UNITS, TURN_UNITS, TRIG_SCALE,
    UNITS_PER_RADIAN, MAX_TURN,
};
use crate::ant::{Ant, AntBuffer, AntMode, AntSenses, ant_cell_x, ant_cell_y, ant_color_bytes, ant_wf};
use crate::cell::{Cell, CellFlags, cell_color_bytes, spec_with_food};
use crate::pheromones::{Pheromones, PheromoneType, decayed_value, diffused_value, PHER_CAP, PHER_SCALE};
use crate::settings::SimulationSettings;
use crate::stats::{SimulationStats, MAX_STEP_DURATION_MICROS};
use crate::POS_SCALE;

verus! {

/// Hard cap on the live ant population.
pub const ANT_CAP: usize = 65535;

/// A cell is well formed when its food flag agrees with its food count.
pub open spec fn cell_wf(c: Cell) -> bool {
    c.flags.spec_has_food() == (c.food > 0)
}

/// The empty cell the grid is filled with on construction and reset.
pub open spec fn spec_empty_cell() -> Cell {
    Cell { flags: CellFlags { bits: 0 }, tribe: 0, food: 0 }
}

/// The ant a spawn command at cell `(x, y)` creates for tribe `tribe`.
pub open spec fn spec_new_ant(x: u16, y: u16, tribe: u8) -> Ant {
    Ant {
        x: ((x as int) * (POS_SCALE as int)) as i64,
        y: ((y as int) * (POS_SCALE as int)) as i64,
        heading: 0,
        tribe,
        has_food: false,
        mode: AntMode::Exploring,
        spiral_radius: 0,
    }
}

/// Squared fixed-point distance between an ant and a target point.
pub open spec fn ant_dist2(a: Ant, tx: int, ty: int) -> int {
    ((a.x as int) - tx) * ((a.x as int) - tx) + ((a.y as int) - ty) * ((a.y as int) - ty)
}

/// The whole simulation state.
pub struct Simulation {
    pub ants: Vec<Ant>,
    pub cells: Vec<Cell>,
    pub pheromones: Pheromones,
    pub settings: SimulationSettings,
    pub stats: SimulationStats,
}

impl Simulation {
    /// Everything the tick and draw logic relies on: well-formed settings,
    /// matching grid sizes, a capped population of in-bounds ants.
    pub open spec fn wf(self) -> bool {
        &&& self.settings.wf()
        &&& self.ants@.len() <= ANT_CAP
        &&& self.cells@.len() == self.settings.spec_cell_count()
        &&& self.pheromones.wf()
        &&& self.pheromones.width == self.settings.width
        &&& self.pheromones.height == self.settings.height
        &&& self.pheromones.tribe_count == self.settings.tribe_count
        &&& forall|i: int|
            0 <= i < self.ants@.len() ==> ant_wf(
                #[trigger] self.ants@[i],
                self.settings.width as int,
                self.settings.height as int,
                self.settings.tribe_count as int,
            )
        &&& forall|i: int| 0 <= i < self.cells@.len() ==> cell_wf(#[trigger] self.cells@[i])
        &&& forall|i: int|
            0 <= i < self.cells@.len() && (#[trigger] self.cells@[i]).flags.spec_has_home() ==> (
            self.cells@[i].tribe as int) < (self.settings.tribe_count as int)
        &&& self.stats.avg_step_duration_micros <= MAX_STEP_DURATION_MICROS
    }

    /// Flat index of cell `(x, y)`.
    pub open spec fn spec_cell_index(self, x: int, y: int) -> int {
        y * (self.settings.width as int) + x
    }

    /// A fresh simulation: no ants, an empty grid, a zero field.
    pub fn new(settings: SimulationSettings) -> (r: Self)
        requires
            settings.wf(),
        ensures
            r.wf(),
            r.settings == settings,
            r.ants@.len() == 0,
            r.cells@.len() == settings.spec_cell_count(),
            forall|i: int| 0 <= i < r.cells@.len() ==> #[trigger] r.cells@[i] == spec_empty_cell(),
            forall|i: int|
                0 <= i < r.pheromones.values@.len() ==> #[trigger] r.pheromones.values@[i] == 0,
            r.stats == (SimulationStats {
                ant_count: 0,
                ants_with_food: 0,
                total_food: 0,
                avg_step_duration_micros: 0,
            }),
    {
        proof {
            crate::cell::lemma_zero_flags();
        }
        let cells = empty_cells(settings.cell_count());
        let pheromones = Pheromones::new(settings.width, settings.height, settings.tribe_count);
        Simulation {
            ants: Vec::new(),
            cells,
            pheromones,
            settings,
            stats: SimulationStats { ant_count: 0, ants_with_food: 0, total_food: 0, avg_step_duration_micros: 0 },
        }
    }

    pub fn settings(&self) -> (r: &SimulationSettings)
        ensures
            r == self.settings,
    {
        &self.settings
    }

    pub fn settings_mut(&mut self) -> (r: &mut SimulationSettings)
        ensures
            *r == old(self).settings,
            *final(self) == (Simulation { settings: *final(r), ..*old(self) }),
    {
        &mut self.settings
    }

    pub fn ant_count(&self) -> (r: u16)
        requires
            self.wf(),
        ensures
            r == self.ants@.len(),
    {
        self.ants.len() as u16
    }

    /// Drop all ants and reset every cell and every pheromone layer; an
    /// atomic reset from the caller's point of view. Settings and the
    /// smoothed statistics survive.
    pub fn clear(&mut self)
        requires
            old(self).wf(),
        ensures
            final(self).wf(),
            final(self).ants@.len() == 0,
            final(self).cells@.len() == old(self).cells@.len(),
            forall|i: int|
                0 <= i < final(self).cells@.len() ==> #[trigger] final(self).cells@[i]
                    == spec_empty_cell(),
            forall|i: int|
                0 <= i < final(self).pheromones.values@.len()
                    ==> #[trigger] final(self).pheromones.values@[i] == 0,
            final(self).settings == old(self).settings,
            final(self).stats == old(self).stats,
    {
        proof {
            crate::cell::lemma_zero_flags();
        }
        self.ants = Vec::new();
        self.cells = empty_cells(self.settings.cell_count());
        self.pheromones = Pheromones::new(
            self.settings.width,
            self.settings.height,
            self.settings.tribe_count,
        );
    }

    /// Whether a spawn at `(x, y)` for `tribe` names a real cell and tribe.
    pub open spec fn spawn_in_range(self, x: u16, y: u16, tribe: u8) -> bool {
        x < self.settings.width && y < self.settings.height && tribe < self.settings.tribe_count
    }

    /// Add one exploring ant at cell `(x, y)`. Out-of-range coordinates or
    /// tribes, and spawns beyond the population cap, are silently dropped.
    pub fn spawn_ant(&mut self, x: u16, y: u16, tribe: u8)
        requires
            old(self).wf(),
        ensures
            final(self).wf(),
            old(self).spawn_in_range(x, y, tribe) && old(self).ants@.len() < ANT_CAP ==> final(self).ants@ == old(self).ants@.push(spec_new_ant(x, y, tribe)),
            !(old(self).spawn_in_range(x, y, tribe) && old(self).ants@.len() < ANT_CAP) ==> *final(self) == *old(self),
            final(self).cells@ == old(self).cells@,
            final(self).pheromones == old(self).pheromones,
            final(self).settings == old(self).settings,
            final(self).stats == old(self).stats,
    {
        if x >= self.settings.width || y >= self.settings.height
            || tribe >= self.settings.tribe_count || self.ants.len() >= ANT_CAP {
            return ;
        }
        let ant = Ant {
            x: (x as i64) * POS_SCALE,
            y: (y as i64) * POS_SCALE,
            heading: 0,
            tribe,
            has_food: false,
            mode: AntMode::Exploring,
            spiral_radius: 0,
        };
        proof {
            assert(0 <= (x as int) * 1024 < (self.settings.width as int) * 1024)
                by (nonlinear_arith)
                requires
                    0 <= (x as int) < (self.settings.width as int),
            ;
            assert(0 <= (y as int) * 1024 < (self.settings.height as int) * 1024)
                by (nonlinear_arith)
                requires
                    0 <= (y as int) < (self.settings.height as int),
            ;
        }
        self.ants.push(ant);
    }

    /// Flag cell `(x, y)` as a home cell of `tribe` (last writer wins).
    /// Out-of-range coordinates or tribes are silently dropped.
    pub fn spawn_nest(&mut self, x: u16, y: u16, tribe: u8)
        requires
            old(self).wf(),
        ensures
            final(self).wf(),
            old(self).spawn_in_range(x, y, tribe) ==> {
                let i = old(self).spec_cell_index(x as int, y as int);
                let c = old(self).cells@[i];
                &&& final(self).cells@ == old(self).cells@.update(
                    i,
                    Cell {
                        flags: final(self).cells@[i].flags,
                        tribe,
                        food: c.food,
                    },
                )
                &&& final(self).cells@[i].flags.spec_has_home()
                &&& final(self).cells@[i].flags.spec_has_food() == c.flags.spec_has_food()
            },
            !old(self).spawn_in_range(x, y, tribe) ==> *final(self) == *old(self),
            final(self).ants@ == old(self).ants@,
            final(self).pheromones == old(self).pheromones,
            final(self).settings == old(self).settings,
            final(self).stats == old(self).stats,
    {
        if x >= self.settings.width || y >= self.settings.height
            || tribe >= self.settings.tribe_count {
            return ;
        }
        let i = self.cell_index(x, y);
        let mut c = self.cells[i];
        c.flags.set_home(true);
        c.tribe = tribe;
        self.cells.set(i, c);
    }

    /// Add food to cell `(x, y)`, saturating at 255. Out-of-range
    /// coordinates are silently dropped.
    pub fn spawn_food(&mut self, x: u16, y: u16, amount: u8)
        requires
            old(self).wf(),
        ensures
            final(self).wf(),
            x < old(self).settings.width && y < old(self).settings.height ==> {
                let i = old(self).spec_cell_index(x as int, y as int);
                let c = old(self).cells@[i];
                let added = if c.food + amount > 255 {
                    255
                } else {
                    c.food + amount
                };
                &&& final(self).cells@ == old(self).cells@.update(
                    i,
                    Cell {
                        flags: final(self).cells@[i].flags,
                        tribe: c.tribe,
                        food: added as u8,
                    },
                )
                &&& final(self).cells@[i].flags.spec_has_home() == c.flags.spec_has_home()
                &&& final(self).cells@[i].food == added
            },
            !(x < old(self).settings.width && y < old(self).settings.height) ==> *final(self)
                == *old(self),
            final(self).ants@ == old(self).ants@,
            final(self).pheromones == old(self).pheromones,
            final(self).settings == old(self).settings,
            final(self).stats == old(self).stats,
    {
        if x >= self.settings.width || y >= self.settings.height {
            return ;
        }
        let i = self.cell_index(x, y);
        let mut c = self.cells[i];
        c.food = if 255 - c.food < amount {
            255
        } else {
            c.food + amount
        };
        c.flags.set_food(c.food > 0);
        self.cells.set(i, c);
    }

    /// What a nearest-ant lookup may return: the index of an ant within
    /// `radius` cells of cell `(x, y)` by Euclidean distance, no other ant
    /// strictly closer and exact ties broken by the smallest index; or
    /// `None` exactly when no ant is that close.
    pub open spec fn nearest_ant_ok(self, x: u16, y: u16, radius: u16, r: Option<u16>) -> bool {
        let tx = (x as int) * (POS_SCALE as int);
        let ty = (y as int) * (POS_SCALE as int);
        let rr = (radius as int) * (POS_SCALE as int);
        match r {
            Some(i) => {
                &&& (i as int) < self.ants@.len()
                &&& ant_dist2(self.ants@[i as int], tx, ty) <= rr * rr
                &&& forall|j: int|
                    0 <= j < self.ants@.len() ==> ant_dist2(#[trigger] self.ants@[j], tx, ty)
                        >= ant_dist2(self.ants@[i as int], tx, ty)
                &&& forall|j: int|
                    0 <= j < i ==> ant_dist2(#[trigger] self.ants@[j], tx, ty) > ant_dist2(
                        self.ants@[i as int],
                        tx,
                        ty,
                    )
            },
            None => forall|j: int|
                0 <= j < self.ants@.len() ==> ant_dist2(#[trigger] self.ants@[j], tx, ty) > rr
                    * rr,
        }
    }

    /// The index of the nearest ant within `radius` cells of cell `(x, y)`
    /// (Euclidean distance, exact ties broken by the smallest index), or
    /// `None` when no ant is that close.
    pub fn get_ant_index_at_coords(&self, x: u16, y: u16, radius: u16) -> (r: Option<u16>)
        requires
            self.wf(),
        ensures
            self.nearest_ant_ok(x, y, radius, r),
    {
        let tx: i64 = (x as i64) * POS_SCALE;
        let ty: i64 = (y as i64) * POS_SCALE;
        let rad: i64 = (radius as i64) * POS_SCALE;
        proof {
            assert(0 <= (rad as int) * (rad as int) <= 67108864 * 67108864) by (nonlinear_arith)
                requires
                    0 <= rad <= 67108864,
            ;
        }
        let rr: i64 = rad * rad;
        let mut best: Option<u16> = None;
        let mut best_d2: i64 = 0;
        let mut k: usize = 0;
        while k < self.ants.len()
            invariant
                self.wf(),
                k <= self.ants@.len(),
                tx == (x as int) * (POS_SCALE as int),
                ty == (y as int) * (POS_SCALE as int),
                rr == ((radius as int) * (POS_SCALE as int)) * ((radius as int) * (POS_SCALE as int)),
                0 <= rr,
                match best {
                    Some(i) => {
                        &&& (i as int) < k
                        &&& best_d2 == ant_dist2(self.ants@[i as int], tx as int, ty as int)
                        &&& best_d2 <= rr
                        &&& forall|j: int|
                            0 <= j < k ==> ant_dist2(#[trigger] self.ants@[j], tx as int, ty as int)
                                >= best_d2
                        &&& forall|j: int|
                            0 <= j < i ==> ant_dist2(#[trigger] self.ants@[j], tx as int, ty as int)
                                > best_d2
                    },
                    None => forall|j: int|
                        0 <= j < k ==> ant_dist2(#[trigger] self.ants@[j], tx as int, ty as int)
                            > rr,
                },
            decreases self.ants@.len() - k,
        {
            let a = self.ants[k];
            proof {
                lemma_dist2_bounds(
                    self.ants@[k as int],
                    tx as int,
                    ty as int,
                    self.settings.width as int,
                    self.settings.height as int,
                );
            }
            let dx: i64 = a.x - tx;
            let dy: i64 = a.y - ty;
            let d2: i64 = dx * dx + dy * dy;
            let better = match best {
                Some(_) => d2 < best_d2,
                None => d2 <= rr,
            };
            if better {
                best = Some(k as u16);
                best_d2 = d2;
            }
            k = k + 1;
        }
        best
    }

    /// Flat index of cell `(x, y)`.
    pub fn cell_index(&self, x: u16, y: u16) -> (r: usize)
        requires
            self.wf(),
            x < self.settings.width,
            y < self.settings.height,
        ensures
            r == self.spec_cell_index(x as int, y as int),
            r < self.cells@.len(),
    {
        proof {
            assert(0 <= (y as int) * (self.settings.width as int) + (x as int) < (
            self.settings.width as int) * (self.settings.height as int)) by (nonlinear_arith)
                requires
                    0 <= (x as int) < (self.settings.width as int),
                    0 <= (y as int) < (self.settings.height as int),
            ;
        }
        (y as usize) * (self.settings.width as usize) + (x as usize)
    }
}

/// The pheromone kind an ant follows in each mode: food trails while
/// exploring, home trails while carrying, none while searching.
pub open spec fn target_kind(mode: AntMode) -> Option<PheromoneType> {
    match mode {
        AntMode::Exploring => Some(PheromoneType::Food),
        AntMode::CarryingFoodHome => Some(PheromoneType::Home),
        AntMode::SearchingHome => None,
    }
}

/// One ant decision: the turn to apply this tick, in angle units.
#[derive(Debug, Copy, Clone, PartialEq, Eq, Structural)]
pub struct AntMove {
    pub turn: i64,
}

impl Simulation {
    /// X coordinate probed `dist` ahead of the ant under `angle`.
    pub open spec fn spec_probe_x(self, a: Ant, angle: int, dist: int) -> int {
        (a.x as int) + crate::div_trunc(cosine_fp(angle) * dist, TRIG_SCALE as int)
    }

    /// Y coordinate probed `dist` ahead of the ant under `angle`.
    pub open spec fn spec_probe_y(self, a: Ant, angle: int, dist: int) -> int {
        (a.y as int) + crate::div_trunc(sine_fp(angle) * dist, TRIG_SCALE as int)
    }

    /// The concentration of kind `k` the ant's tribe senses at the probe
    /// point; out-of-bounds probes read as zero.
    pub open spec fn spec_sample(self, a: Ant, angle: int, k: PheromoneType) -> u64 {
        let dist = self.settings.ant_sensor_distance as int;
        let px = self.spec_probe_x(a, angle, dist);
        let py = self.spec_probe_y(a, angle, dist);
        if px < 0 || py < 0 || px >= (self.settings.width as int) * (POS_SCALE as int) || py >= (
        self.settings.height as int) * (POS_SCALE as int) {
            0u64
        } else {
            self.pheromones.spec_get(
                a.tribe as int,
                k,
                px / (POS_SCALE as int),
                py / (POS_SCALE as int),
            )
        }
    }

    /// What the ant senses at its three probe points, zero when its mode
    /// follows no pheromone.
    pub open spec fn spec_senses(self, a: Ant) -> AntSenses {
        match target_kind(a.mode) {
            Some(k) => AntSenses {
                left: self.spec_sample(
                    a,
                    wrap_angle(a.heading - self.settings.ant_sensor_angle),
                    k,
                ),
                forward: self.spec_sample(a, a.heading as int, k),
                right: self.spec_sample(
                    a,
                    wrap_angle(a.heading + self.settings.ant_sensor_angle),
                    k,
                ),
            },
            None => AntSenses { left: 0, forward: 0, right: 0 },
        }
    }

    /// The steering part of a decision, before wobble: straight when the
    /// forward probe is at least as strong as both side probes, else a
    /// fixed-angle turn toward the stronger side; an outward-spiral turn
    /// while searching.
    pub open spec fn spec_steer(self, a: Ant) -> int {
        match a.mode {
            AntMode::SearchingHome => {
                if a.spiral_radius > 0 {
                    let t = ((self.settings.ant_speed as int) * (UNITS_PER_RADIAN as int))
                        / (a.spiral_radius as int);
                    if t >= TURN_UNITS {
                        (TURN_UNITS - 1) as int
                    } else {
                        t
                    }
                } else {
                    0
                }
            },
            _ => {
                let s = self.spec_senses(a);
                if s.forward >= s.left && s.forward >= s.right {
                    0
                } else if s.left > s.right {
                    -(self.settings.ant_turn_angle as int)
                } else {
                    self.settings.ant_turn_angle as int
                }
            },
        }
    }

    /// A whole decision: steering plus the tick's random wobble.
    pub open spec fn spec_decision(self, a: Ant, wobble: int) -> int {
        self.spec_steer(a) + wobble
    }

    /// Sample the pheromone of kind `k` for the ant's tribe, one sensor
    /// distance ahead under `angle`.
    fn sample_pheromone(&self, a: &Ant, angle: i64, k: PheromoneType) -> (r: u64)
        requires
            self.wf(),
            ant_wf(
                *a,
                self.settings.width as int,
                self.settings.height as int,
                self.settings.tribe_count as int,
            ),
            heading_wf(angle as int),
        ensures
            r == self.spec_sample(*a, angle as int, k),
    {
        let dist = self.settings.ant_sensor_distance;
        let c = cosine_units(angle);
        let s = sine_units(angle);
        proof {
            assert(-68719476736 <= c * dist <= 68719476736) by (nonlinear_arith)
                requires
                    -1024 <= c <= 1024,
                    0 <= dist <= 67108864,
            ;
            assert(-68719476736 <= s * dist <= 68719476736) by (nonlinear_arith)
                requires
                    -1024 <= s <= 1024,
                    0 <= dist <= 67108864,
            ;
        }
        let px: i64 = a.x + (c * dist) / TRIG_SCALE;
        let py: i64 = a.y + (s * dist) / TRIG_SCALE;
        let wfp: i64 = (self.settings.width as i64) * POS_SCALE;
        let hfp: i64 = (self.settings.height as i64) * POS_SCALE;
        if px < 0 || py < 0 || px >= wfp || py >= hfp {
            return 0;
        }
        proof {
            crate::pheromones::lemma_cell_of_position(px as int, self.settings.width as int);
            crate::pheromones::lemma_cell_of_position(py as int, self.settings.height as int);
        }
        let cx: u16 = (px / POS_SCALE) as u16;
        let cy: u16 = (py / POS_SCALE) as u16;
        self.pheromones.get(a.tribe, k, cx, cy)
    }

    /// The sense phase for one ant: a pure function of the current field
    /// and grid, plus the tick's random wobble.
    pub fn compute_ant_move(&self, a: &Ant, wobble: i64) -> (r: AntMove)
        requires
            self.wf(),
            ant_wf(
                *a,
                self.settings.width as int,
                self.settings.height as int,
                self.settings.tribe_count as int,
            ),
            -HALF_TURN_UNITS <= wobble <= HALF_TURN_UNITS,
        ensures
            r.turn == self.spec_decision(*a, wobble as int),
            -MAX_TURN <= r.turn <= MAX_TURN,
    {
        let steer: i64 = match a.mode {
            AntMode::SearchingHome => {
                if a.spiral_radius > 0 {
                    proof {
                        assert(0 <= self.settings.ant_speed * UNITS_PER_RADIAN
                            <= 67108864 * 652) by (nonlinear_arith)
                            requires
                                0 <= self.settings.ant_speed <= 67108864,
                        ;
                        assert(0 <= (self.settings.ant_speed as int) * (UNITS_PER_RADIAN as int)
                            / (a.spiral_radius as int)) by (nonlinear_arith)
                            requires
                                0 <= (self.settings.ant_speed as int) * (
                                UNITS_PER_RADIAN as int),
                                (a.spiral_radius as int) > 0,
                        ;
                    }
                    let t = (self.settings.ant_speed * UNITS_PER_RADIAN) / a.spiral_radius;
                    if t >= TURN_UNITS {
                        TURN_UNITS - 1
                    } else {
                        t
                    }
                } else {
                    0
                }
            },
            _ => {
                let k = match a.mode {
                    AntMode::CarryingFoodHome => PheromoneType::Home,
                    _ => PheromoneType::Food,
                };
                let left = self.sample_pheromone(
                    a,
                    turn_heading(a.heading, -self.settings.ant_sensor_angle),
                    k,
                );
                let forward = self.sample_pheromone(a, a.heading, k);
                let right = self.sample_pheromone(
                    a,
                    turn_heading(a.heading, self.settings.ant_sensor_angle),
                    k,
                );
                if forward >= left && forward >= right {
                    0
                } else if left > right {
                    -self.settings.ant_turn_angle
                } else {
                    self.settings.ant_turn_angle
                }
            },
        };
        AntMove { turn: steer + wobble }
    }

    /// The inspection snapshot of the ant at `index`: the ant itself and
    /// what it currently senses.
    pub fn ant_buffer(&self, index: u16) -> (r: Option<AntBuffer>)
        requires
            self.wf(),
        ensures
            (index as int) < self.ants@.len() ==> r == Some(
                AntBuffer {
                    ant: self.ants@[index as int],
                    senses: self.spec_senses(self.ants@[index as int]),
                },
            ),
            (index as int) >= self.ants@.len() ==> r is None,
    {
        if (index as usize) >= self.ants.len() {
            return None;
        }
        let a = self.ants[index as usize];
        let senses = match a.mode {
            AntMode::SearchingHome => AntSenses { left: 0, forward: 0, right: 0 },
            _ => {
                let k = match a.mode {
                    AntMode::CarryingFoodHome => PheromoneType::Home,
                    _ => PheromoneType::Food,
                };
                AntSenses {
                    left: self.sample_pheromone(
                        &a,
                        turn_heading(a.heading, -self.settings.ant_sensor_angle),
                        k,
                    ),
                    forward: self.sample_pheromone(&a, a.heading, k),
                    right: self.sample_pheromone(
                        &a,
                        turn_heading(a.heading, self.settings.ant_sensor_angle),
                        k,
                    ),
                }
            },
        };
        Some(AntBuffer { ant: a, senses })
    }
}

/// Where an ant ends up after turning by `turn`, advancing one speed step
/// along the new heading, and reflecting off the grid walls billiard-style:
/// a raw position past a wall mirrors back about that wall exactly, and a
/// raw position exactly on a far wall comes to rest one unit inside it.
pub open spec fn moved_ant(s: SimulationSettings, a: Ant, turn: int) -> Ant {
    let h1 = wrap_angle(a.heading + turn);
    let sp = s.ant_speed as int;
    let x1 = (a.x as int) + crate::div_trunc(cosine_fp(h1) * sp, TRIG_SCALE as int);
    let y1 = (a.y as int) + crate::div_trunc(sine_fp(h1) * sp, TRIG_SCALE as int);
    let wfp = (s.width as int) * (POS_SCALE as int);
    let hfp = (s.height as int) * (POS_SCALE as int);
    let x2 = if x1 < 0 {
        -x1
    } else if x1 == wfp {
        wfp - 1
    } else if x1 > wfp {
        2 * wfp - x1
    } else {
        x1
    };
    let h2 = if x1 < 0 || x1 >= wfp {
        wrap_angle(HALF_TURN_UNITS - h1)
    } else {
        h1
    };
    let y2 = if y1 < 0 {
        -y1
    } else if y1 == hfp {
        hfp - 1
    } else if y1 > hfp {
        2 * hfp - y1
    } else {
        y1
    };
    let h3 = if y1 < 0 || y1 >= hfp {
        wrap_angle(-h2)
    } else {
        h2
    };
    Ant { x: x2 as i64, y: y2 as i64, heading: h3 as i64, ..a }
}

/// The mode transitions where an ant arrives on a cell: picking food up
/// (exactly one unit, reversing by pi) and dropping it at a home cell of
/// the ant's own tribe (reversing by pi).
pub open spec fn arrival(a: Ant, c: Cell) -> (Ant, Cell) {
    if a.mode == AntMode::Exploring && c.food > 0 {
        (
            Ant {
                heading: wrap_angle(a.heading + HALF_TURN_UNITS) as i64,
                has_food: true,
                mode: AntMode::CarryingFoodHome,
                ..a
            },
            Cell { flags: spec_with_food(c.flags, c.food > 1), food: (c.food - 1) as u8, ..c },
        )
    } else if a.mode == AntMode::CarryingFoodHome && c.is_home_of(a.tribe) {
        (
            Ant {
                heading: wrap_angle(a.heading + HALF_TURN_UNITS) as i64,
                has_food: false,
                mode: AntMode::Exploring,
                ..a
            },
            c,
        )
    } else {
        (a, c)
    }
}

/// Flat index into the pheromone value vector, phrased over the settings.
pub open spec fn flat_pher_index(
    s: SimulationSettings,
    tribe: int,
    k: PheromoneType,
    x: int,
    y: int,
) -> int {
    (2 * tribe + crate::pheromones::kind_offset(k)) * s.spec_cell_count() + y * (s.width as int)
        + x
}

/// Deposit strength while carrying food: the greater of the base strength
/// and the food at the cell, in pheromone units.
pub open spec fn carry_strength(s: SimulationSettings, c: Cell) -> u64 {
    if (c.food as int) * (PHER_SCALE as int) > s.ant_pheromone_strength {
        ((c.food as int) * (PHER_SCALE as int)) as u64
    } else {
        s.ant_pheromone_strength
    }
}

/// One act-phase step: ant `i` moves by `turn`, transitions on the cell it
/// lands on, and, while carrying food, marks that cell's food trail.
pub open spec fn act_step(
    s: SimulationSettings,
    ants: Seq<Ant>,
    cells: Seq<Cell>,
    ph: Seq<u64>,
    i: int,
    turn: int,
) -> (Seq<Ant>, Seq<Cell>, Seq<u64>) {
    let m = moved_ant(s, ants[i], turn);
    let ci = ant_cell_y(m) * (s.width as int) + ant_cell_x(m);
    let ac = arrival(m, cells[ci]);
    let ph2 = if ac.0.mode == AntMode::CarryingFoodHome {
        ph.update(
            flat_pher_index(s, ac.0.tribe as int, PheromoneType::Food, ant_cell_x(m), ant_cell_y(m)),
            carry_strength(s, ac.1),
        )
    } else {
        ph
    };
    (ants.update(i, ac.0), cells.update(ci, ac.1), ph2)
}

/// A displacement scaled down by a positive divisor keeps its bound.
pub proof fn lemma_div_trunc_bound(n: int, d: int, b: int)
    requires
        0 < d,
        0 <= b,
        -(b * d) <= n <= b * d,
    ensures
        -b <= crate::div_trunc(n, d) <= b,
{
    if n >= 0 {
        assert(0 <= n / d <= b) by (nonlinear_arith)
            requires
                0 < d,
                0 <= n <= b * d,
        ;
    } else {
        assert(0 <= (-n) / d <= b) by (nonlinear_arith)
            requires
                0 < d,
                0 <= -n <= b * d,
        ;
    }
}

impl Simulation {
    /// Apply one decided move: the act phase for ant `i`.
    pub fn act_ant(&mut self, i: usize, turn: i64)
        requires
            old(self).wf(),
            i < old(self).ants@.len(),
            -MAX_TURN <= turn <= MAX_TURN,
        ensures
            final(self).wf(),
            final(self).settings == old(self).settings,
            final(self).stats == old(self).stats,
            final(self).ants@.len() == old(self).ants@.len(),
            ({
                let t = act_step(
                    old(self).settings,
                    old(self).ants@,
                    old(self).cells@,
                    old(self).pheromones.values@,
                    i as int,
                    turn as int,
                );
                &&& final(self).ants@ == t.0
                &&& final(self).cells@ == t.1
                &&& final(self).pheromones.values@ == t.2
            }),
    {
        let a = self.ants[i];
        let h1 = turn_heading(a.heading, turn);
        let dir_cos = cosine_units(h1);
        let dir_sin = sine_units(h1);
        let sp = self.settings.ant_speed;
        proof {
            assert(-(sp as int) * 1024 <= dir_cos * sp <= (sp as int) * 1024) by (nonlinear_arith)
                requires
                    -1024 <= dir_cos <= 1024,
                    0 <= sp,
            ;
            assert(-(sp as int) * 1024 <= dir_sin * sp <= (sp as int) * 1024) by (nonlinear_arith)
                requires
                    -1024 <= dir_sin <= 1024,
                    0 <= sp,
            ;
            assert((sp as int) * 1024 <= 67108864 * 1024) by (nonlinear_arith)
                requires
                    sp <= 67108864,
            ;
            lemma_div_trunc_bound(dir_cos as int * sp as int, 1024, sp as int);
            lemma_div_trunc_bound(dir_sin as int * sp as int, 1024, sp as int);
        }
        let dx = (dir_cos * sp) / TRIG_SCALE;
        let dy = (dir_sin * sp) / TRIG_SCALE;
        let wfp: i64 = (self.settings.width as i64) * POS_SCALE;
        let hfp: i64 = (self.settings.height as i64) * POS_SCALE;
        let x1 = a.x + dx;
        let y1 = a.y + dy;
        let x2: i64;
        let hx: i64;
        if x1 < 0 {
            x2 = -x1;
            hx = reflect_x_heading(h1);
        } else if x1 >= wfp {
            x2 = if x1 == wfp {
                wfp - 1
            } else {
                2 * wfp - x1
            };
            hx = reflect_x_heading(h1);
        } else {
            x2 = x1;
            hx = h1;
        }
        let y2: i64;
        let hy: i64;
        if y1 < 0 {
            y2 = -y1;
            hy = reflect_y_heading(hx);
        } else if y1 >= hfp {
            y2 = if y1 == hfp {
                hfp - 1
            } else {
                2 * hfp - y1
            };
            hy = reflect_y_heading(hx);
        } else {
            y2 = y1;
            hy = hx;
        }
        let m = Ant { x: x2, y: y2, heading: hy, ..a };
        proof {
            assert(m == moved_ant(old(self).settings, old(self).ants@[i as int], turn as int));
            crate::pheromones::lemma_cell_of_position(m.x as int, self.settings.width as int);
            crate::pheromones::lemma_cell_of_position(m.y as int, self.settings.height as int);
        }
        let cx: u16 = (m.x / POS_SCALE) as u16;
        let cy: u16 = (m.y / POS_SCALE) as u16;
        let ci = self.cell_index(cx, cy);
        let c = self.cells[ci];
        let mut a2 = m;
        let mut c2 = c;
        if matches!(m.mode, AntMode::Exploring) && c.food > 0 {
            c2.food = c.food - 1;
            c2.flags.set_food(c2.food > 0);
            a2.heading = turn_heading(m.heading, HALF_TURN_UNITS);
            a2.has_food = true;
            a2.mode = AntMode::CarryingFoodHome;
        } else if matches!(m.mode, AntMode::CarryingFoodHome) && c.flags.has_home() && c.tribe
            == m.tribe {
            a2.heading = turn_heading(m.heading, HALF_TURN_UNITS);
            a2.has_food = false;
            a2.mode = AntMode::Exploring;
        }
        self.ants.set(i, a2);
        self.cells.set(ci, c2);
        if matches!(a2.mode, AntMode::CarryingFoodHome) {
            let food_strength = (c2.food as u64) * PHER_SCALE;
            let strength = if food_strength > self.settings.ant_pheromone_strength {
                food_strength
            } else {
                self.settings.ant_pheromone_strength
            };
            self.pheromones.put(a2.tribe, PheromoneType::Food, cx, cy, strength);
        }
    }
}

/// What the nest-beacon pass leaves at flat pheromone index `j`: every
/// home cell re-marks its tribe's home layer at full strength, every other
/// value is kept.
pub open spec fn beacon_value(
    s: SimulationSettings,
    cells: Seq<Cell>,
    ph: Seq<u64>,
    j: int,
) -> u64 {
    let cc = s.spec_cell_count();
    let l = j / cc;
    let c = j % cc;
    if l % 2 == 0 && cells[c].flags.spec_has_home() && (cells[c].tribe as int) * 2 == l {
        s.ant_pheromone_strength
    } else {
        ph[j]
    }
}

/// Ants among the first `k` that carry food.
pub open spec fn count_carrying(ants: Seq<Ant>, k: int) -> int
    decreases k,
{
    if k <= 0 {
        0
    } else {
        count_carrying(ants, k - 1) + if ants[k - 1].has_food {
            1int
        } else {
            0int
        }
    }
}

/// Food left on the first `k` cells.
pub open spec fn sum_food(cells: Seq<Cell>, k: int) -> int
    decreases k,
{
    if k <= 0 {
        0
    } else {
        sum_food(cells, k - 1) + (cells[k - 1].food as int)
    }
}

/// Valid wobbles for one tick: one per ant, each within half the wobble
/// strength of zero.
pub open spec fn wobbles_ok(ws: Seq<int>, n: int, strength: int) -> bool {
    &&& ws.len() == n
    &&& forall|i: int| 0 <= i < n ==> -(strength / 2) <= #[trigger] ws[i] <= strength / 2
}

impl Simulation {
    /// The act phase folded over the first `k` ants: every decision is
    /// taken against `self` (the tick's immutable snapshot), the acts apply
    /// in index order.
    pub open spec fn spec_tick_fold(self, ws: Seq<int>, k: int) -> (Seq<Ant>, Seq<Cell>, Seq<u64>)
        decreases k,
    {
        if k <= 0 {
            (self.ants@, self.cells@, self.pheromones.values@)
        } else {
            let t = self.spec_tick_fold(ws, k - 1);
            act_step(
                self.settings,
                t.0,
                t.1,
                t.2,
                k - 1,
                self.spec_decision(self.ants@[k - 1], ws[k - 1]),
            )
        }
    }
}

/// How one whole unpaused tick relates the previous state to the next,
/// given the tick's wobbles: act fold, beacon pass, decay, optional
/// diffusion, and recomputed statistics.
pub open spec fn spec_step_rel(pre: Simulation, post: Simulation, ws: Seq<int>) -> bool {
    let n = pre.ants@.len() as int;
    let t = pre.spec_tick_fold(ws, n);
    let ph_b = Seq::new(t.2.len(), |j: int| beacon_value(pre.settings, t.1, t.2, j));
    let ph_d = Seq::new(
        ph_b.len(),
        |j: int| decayed_value(ph_b[j] as int, pre.settings.pheromone_decay as int) as u64,
    );
    let ph_f = if pre.settings.pheromone_diffusion > 0 {
        Seq::new(
            ph_d.len(),
            |j: int|
                diffused_value(
                    pre.settings.width as int,
                    pre.settings.height as int,
                    pre.settings.pheromone_diffusion as int,
                    ph_d,
                    j,
                ),
        )
    } else {
        ph_d
    };
    &&& post.ants@ == t.0
    &&& post.cells@ == t.1
    &&& post.pheromones.values@ == ph_f
    &&& post.settings == pre.settings
    &&& post.stats == (SimulationStats {
        ant_count: n as u16,
        ants_with_food: count_carrying(t.0, n) as u16,
        total_food: sum_food(t.1, t.1.len() as int) as u64,
        avg_step_duration_micros: pre.stats.avg_step_duration_micros,
    })
}

/// Decomposing a flat layer-and-cell index is unique.
proof fn lemma_flat_decompose(l: int, cc: int, r: int)
    requires
        0 < cc,
        0 <= r < cc,
        0 <= l,
    ensures
        (l * cc + r) / cc == l,
        (l * cc + r) % cc == r,
{
    assert((l * cc + r) / cc == l && (l * cc + r) % cc == r) by (nonlinear_arith)
        requires
            0 < cc,
            0 <= r < cc,
            0 <= l,
    ;
}

impl Simulation {
    /// The nest beacon pass: every home cell re-deposits its tribe's home
    /// pheromone at full strength, independent of any ant.
    pub fn nest_beacons(&mut self)
        requires
            old(self).wf(),
        ensures
            final(self).wf(),
            final(self).ants@ == old(self).ants@,
            final(self).cells@ == old(self).cells@,
            final(self).settings == old(self).settings,
            final(self).stats == old(self).stats,
            final(self).pheromones.values@.len() == old(self).pheromones.values@.len(),
            forall|j: int|
                0 <= j < old(self).pheromones.values@.len()
                    ==> #[trigger] final(self).pheromones.values@[j] == beacon_value(
                    old(self).settings,
                    old(self).cells@,
                    old(self).pheromones.values@,
                    j,
                ),
    {
        let w = self.settings.width;
        let cc = self.settings.cell_count();
        let strength = self.settings.ant_pheromone_strength;
        let mut ci: usize = 0;
        while ci < cc
            invariant
                old(self).wf(),
                self.wf(),
                ci <= cc,
                cc == old(self).settings.spec_cell_count(),
                w == old(self).settings.width,
                strength == old(self).settings.ant_pheromone_strength,
                self.ants@ == old(self).ants@,
                self.cells@ == old(self).cells@,
                self.settings == old(self).settings,
                self.stats == old(self).stats,
                self.pheromones.width == old(self).pheromones.width,
                self.pheromones.height == old(self).pheromones.height,
                self.pheromones.tribe_count == old(self).pheromones.tribe_count,
                self.pheromones.values@.len() == old(self).pheromones.values@.len(),
                forall|j: int|
                    0 <= j < old(self).pheromones.values@.len() ==> #[trigger] self
                        .pheromones
                        .values@[j] == (if j % (cc as int) < ci {
                        beacon_value(
                            old(self).settings,
                            old(self).cells@,
                            old(self).pheromones.values@,
                            j,
                        )
                    } else {
                        old(self).pheromones.values@[j]
                    }),
            decreases cc - ci,
        {
            let c = self.cells[ci];
            let ghost prev = self.pheromones.values@;
            if c.flags.has_home() {
                let x: u16 = (ci % (w as usize)) as u16;
                let y: u16 = (ci / (w as usize)) as u16;
                proof {
                    assert(0 <= (ci as int) / (w as int) < (self.settings.height as int))
                        by (nonlinear_arith)
                        requires
                            0 < (w as int),
                            0 <= (ci as int) < (w as int) * (self.settings.height as int),
                            cc == (w as int) * (self.settings.height as int),
                            (ci as int) < cc,
                    ;
                    assert((ci as int) % (w as int) + ((ci as int) / (w as int)) * (w as int) == (
                    ci as int) && 0 <= (ci as int) % (w as int) < (w as int)) by (nonlinear_arith)
                        requires
                            0 < (w as int),
                            0 <= (ci as int),
                    ;
                }
                self.pheromones.put(c.tribe, PheromoneType::Home, x, y, strength);
                proof {
                    let cci = cc as int;
                    let upd = self.pheromones.spec_index(
                        c.tribe as int,
                        PheromoneType::Home,
                        x as int,
                        y as int,
                    );
                    lemma_flat_decompose(2 * (c.tribe as int), cci, ci as int);
                    assert(upd == 2 * (c.tribe as int) * cci + ci as int);
                    assert(0 <= upd < 2 * (self.settings.tribe_count as int) * cci)
                        by (nonlinear_arith)
                        requires
                            upd == 2 * (c.tribe as int) * cci + ci as int,
                            0 <= (c.tribe as int) < (self.settings.tribe_count as int),
                            0 <= (ci as int) < cci,
                    ;
                    assert(prev.len() == 2 * (self.settings.tribe_count as int) * cci)
                        by (nonlinear_arith)
                        requires
                            prev.len() == (2 * (self.pheromones.tribe_count as int)) * ((
                            self.pheromones.width as int) * (self.pheromones.height as int)),
                            cci == (self.pheromones.width as int) * (
                            self.pheromones.height as int),
                            self.pheromones.tribe_count == self.settings.tribe_count,
                    ;
                    assert(self.pheromones.values@ == prev.update(upd, strength));
                    assert forall|j: int| 0 <= j < old(self).pheromones.values@.len() implies #[trigger] self
                        .pheromones
                        .values@[j] == (if j % cci < ci + 1 {
                        beacon_value(
                            old(self).settings,
                            old(self).cells@,
                            old(self).pheromones.values@,
                            j,
                        )
                    } else {
                        old(self).pheromones.values@[j]
                    }) by {
                        let l = j / cci;
                        let r = j % cci;
                        vstd::arithmetic::div_mod::lemma_fundamental_div_mod(j, cci);
                        vstd::arithmetic::div_mod::lemma_mod_bound(j, cci);
                        vstd::arithmetic::div_mod::lemma_div_pos_is_pos(j, cci);
                        assert(prev[j] == (if r < ci {
                            beacon_value(
                                old(self).settings,
                                old(self).cells@,
                                old(self).pheromones.values@,
                                j,
                            )
                        } else {
                            old(self).pheromones.values@[j]
                        }));
                        if j == upd {
                            assert(l == 2 * (c.tribe as int) && r == ci as int);
                            assert(l % 2 == 0) by (nonlinear_arith)
                                requires
                                    l == 2 * (c.tribe as int),
                            ;
                            assert(self.pheromones.values@[j] == strength);
                        } else {
                            assert(self.pheromones.values@[j] == prev[j]);
                            if r == ci && l % 2 == 0 && old(self).cells@[r].flags.spec_has_home()
                                && (old(self).cells@[r].tribe as int) * 2 == l {
                                assert(j == l * cci + r) by (nonlinear_arith)
                                    requires
                                        j == cci * l + r,
                                ;
                                assert(j == upd);
                            }
                        }
                    }
                }
            } else {
                proof {
                    let cci = cc as int;
                    assert forall|j: int| 0 <= j < old(self).pheromones.values@.len() implies #[trigger] self
                        .pheromones
                        .values@[j] == (if j % cci < ci + 1 {
                        beacon_value(
                            old(self).settings,
                            old(self).cells@,
                            old(self).pheromones.values@,
                            j,
                        )
                    } else {
                        old(self).pheromones.values@[j]
                    }) by {
                        vstd::arithmetic::div_mod::lemma_fundamental_div_mod(j, cci);
                        vstd::arithmetic::div_mod::lemma_mod_bound(j, cci);
                        vstd::arithmetic::div_mod::lemma_div_pos_is_pos(j, cci);
                    }
                }
            }
            ci = ci + 1;
        }
        proof {
            assert forall|j: int| 0 <= j < old(self).pheromones.values@.len() implies #[trigger] (j
                % (cc as int)) < cc by {
                vstd::arithmetic::div_mod::lemma_mod_bound(j, cc as int);
            }
        }
    }
}

impl Simulation {
    /// Recompute the aggregate statistics from the current state. The
    /// smoothed step duration is left as it is.
    pub fn recompute_stats(&mut self)
        requires
            old(self).wf(),
        ensures
            final(self).wf(),
            final(self).ants@ == old(self).ants@,
            final(self).cells@ == old(self).cells@,
            final(self).pheromones == old(self).pheromones,
            final(self).settings == old(self).settings,
            final(self).stats == (SimulationStats {
                ant_count: old(self).ants@.len() as u16,
                ants_with_food: count_carrying(old(self).ants@, old(self).ants@.len() as int) as u16,
                total_food: sum_food(old(self).cells@, old(self).cells@.len() as int) as u64,
                avg_step_duration_micros: old(self).stats.avg_step_duration_micros,
            }),
    {
        let mut carrying: u16 = 0;
        let mut k: usize = 0;
        while k < self.ants.len()
            invariant
                self.wf(),
                *self == *old(self),
                k <= self.ants@.len(),
                carrying == count_carrying(self.ants@, k as int),
                carrying <= k,
            decreases self.ants@.len() - k,
        {
            if self.ants[k].has_food {
                carrying = carrying + 1;
            }
            k = k + 1;
        }
        proof {
            assert((self.settings.width as int) * (self.settings.height as int)
                <= 65535 * 65535) by (nonlinear_arith)
                requires
                    self.settings.width <= 65535,
                    self.settings.height <= 65535,
            ;
        }
        let mut food: u64 = 0;
        let mut ci: usize = 0;
        while ci < self.cells.len()
            invariant
                self.wf(),
                *self == *old(self),
                ci <= self.cells@.len(),
                food == sum_food(self.cells@, ci as int),
                food <= 255 * (ci as int),
                self.cells@.len() <= 4294967296,
            decreases self.cells@.len() - ci,
        {
            food = food + (self.cells[ci].food as u64);
            ci = ci + 1;
        }
        let count = self.ants.len() as u16;
        self.stats = SimulationStats {
            ant_count: count,
            ants_with_food: carrying,
            total_food: food,
            avg_step_duration_micros: self.stats.avg_step_duration_micros,
        };
    }

}

/// Relies on `fastrand::i64`: a uniformly random value within the given
/// inclusive range (the call panics on an empty range, which the
/// precondition rules out).
#[verifier::external_body]
fn random_in(lo: i64, hi: i64) -> (r: i64)
    requires
        lo <= hi,
    ensures
        lo <= r <= hi,
{
    fastrand::i64(lo..=hi)
}

/// Relies on rayon's indexed parallel iterators (`par_iter`, `zip`, `map`,
/// `collect`): the closure, which only calls the verified
/// `compute_ant_move`, is applied to each ant/wobble pair exactly once and
/// the results are collected in index order.
#[verifier::external_body]
fn par_compute_moves(sim: &Simulation, wobbles: &Vec<i64>) -> (r: Vec<AntMove>)
    requires
        sim.wf(),
        wobbles@.len() == sim.ants@.len(),
        forall|i: int|
            0 <= i < wobbles@.len() ==> -HALF_TURN_UNITS <= #[trigger] wobbles@[i]
                <= HALF_TURN_UNITS,
    ensures
        r@.len() == sim.ants@.len(),
        forall|i: int|
            0 <= i < r@.len() ==> (#[trigger] r@[i]).turn == sim.spec_decision(
                sim.ants@[i],
                wobbles@[i] as int,
            ) && -MAX_TURN <= r@[i].turn <= MAX_TURN,
{
    sim.ants
        .par_iter()
        .zip(wobbles.par_iter())
        .map(|(a, w)| sim.compute_ant_move(a, *w))
        .collect()
}

impl Simulation {
    /// Advance the whole simulation by one tick: a no-op while paused,
    /// otherwise one parallel sense phase against the current snapshot, the
    /// sequential act phase, the nest beacon pass, decay, optional
    /// diffusion, and a statistics recount. The only free input is the
    /// per-ant random wobble.
    pub fn step(&mut self)
        requires
            old(self).wf(),
        ensures
            final(self).wf(),
            final(self).ants@.len() == old(self).ants@.len(),
            final(self).cells@.len() == old(self).cells@.len(),
            final(self).pheromones.values@.len() == old(self).pheromones.values@.len(),
            final(self).settings == old(self).settings,
            old(self).settings.paused ==> *final(self) == *old(self),
            !old(self).settings.paused ==> exists|ws: Seq<int>|
                wobbles_ok(
                    ws,
                    old(self).ants@.len() as int,
                    old(self).settings.ant_wobble_strength as int,
                ) && spec_step_rel(*old(self), *final(self), ws),
    {
        if self.settings.paused {
            return ;
        }
        let ghost pre = *self;
        let n = self.ants.len();
        let half = self.settings.ant_wobble_strength / 2;
        let mut wobbles: Vec<i64> = Vec::new();
        let mut k: usize = 0;
        while k < n
            invariant
                k <= n,
                wobbles@.len() == k,
                0 <= half <= HALF_TURN_UNITS,
                half == pre.settings.ant_wobble_strength / 2,
                forall|i: int| 0 <= i < k ==> -half <= #[trigger] wobbles@[i] <= half,
            decreases n - k,
        {
            wobbles.push(random_in(-half, half));
            k = k + 1;
        }
        let moves = par_compute_moves(self, &wobbles);
        let ghost ws = wobbles@.map_values(|v: i64| v as int);
        let mut i: usize = 0;
        while i < n
            invariant
                self.wf(),
                pre.wf(),
                i <= n,
                n == pre.ants@.len(),
                self.settings == pre.settings,
                self.stats == pre.stats,
                self.ants@.len() == n,
                moves@.len() == n,
                ws.len() == n,
                forall|k2: int| 0 <= k2 < n ==> #[trigger] ws[k2] == wobbles@[k2] as int,
                forall|k2: int|
                    0 <= k2 < n ==> (#[trigger] moves@[k2]).turn == pre.spec_decision(
                        pre.ants@[k2],
                        ws[k2],
                    ) && -MAX_TURN <= moves@[k2].turn <= MAX_TURN,
                (self.ants@, self.cells@, self.pheromones.values@) == pre.spec_tick_fold(
                    ws,
                    i as int,
                ),
            decreases n - i,
        {
            self.act_ant(i, moves[i].turn);
            i = i + 1;
        }
        self.nest_beacons();
        let ghost after_beacons = *self;
        self.pheromones.decay(self.settings.pheromone_decay);
        let ghost after_decay = *self;
        if self.settings.pheromone_diffusion > 0 {
            let rate = self.settings.pheromone_diffusion;
            self.pheromones.diffuse(rate);
        }
        let ghost after_diffuse = *self;
        self.recompute_stats();
        proof {
            let t = pre.spec_tick_fold(ws, n as int);
            let ph_b = Seq::new(t.2.len(), |j: int| beacon_value(pre.settings, t.1, t.2, j));
            let ph_d = Seq::new(
                ph_b.len(),
                |j: int| decayed_value(ph_b[j] as int, pre.settings.pheromone_decay as int) as u64,
            );
            assert(after_beacons.pheromones.values@ =~= ph_b);
            assert(after_decay.pheromones.values@ =~= ph_d);
            if pre.settings.pheromone_diffusion > 0 {
                let ph_f = Seq::new(
                    ph_d.len(),
                    |j: int|
                        diffused_value(
                            pre.settings.width as int,
                            pre.settings.height as int,
                            pre.settings.pheromone_diffusion as int,
                            ph_d,
                            j,
                        ),
                );
                assert(after_diffuse.pheromones.values@ =~= ph_f);
            }
            assert(wobbles_ok(
                ws,
                pre.ants@.len() as int,
                pre.settings.ant_wobble_strength as int,
            ));
            assert(spec_step_rel(pre, *self, ws));
        }
    }
}

/// The index of the last ant among the first `k` standing on pixel `p`,
/// or -1 when none does. The last one drawn wins the pixel.
pub open spec fn last_ant_at(ants: Seq<Ant>, w: int, k: int, p: int) -> int
    decreases k,
{
    if k <= 0 {
        -1
    } else if ant_cell_y(ants[k - 1]) * w + ant_cell_x(ants[k - 1]) == p {
        k - 1
    } else {
        last_ant_at(ants, w, k - 1, p)
    }
}

impl Simulation {
    /// Whether a pheromone overlay is drawn at all: a layer is selected and
    /// its tribe exists.
    pub open spec fn pheromone_drawn(self) -> bool {
        &&& self.settings.drawn_pheromone is Some
        &&& (self.settings.drawn_pheromone_tribe as int) < (self.settings.tribe_count as int)
    }

    /// The overlay alpha at pixel `p`: the drawn layer's concentration
    /// scaled against the max-heat reference, saturating at 255.
    pub open spec fn spec_heat_alpha(self, p: int) -> u8 {
        match self.settings.drawn_pheromone {
            Some(k) => {
                let w = self.settings.width as int;
                let v = self.pheromones.spec_get(
                    self.settings.drawn_pheromone_tribe as int,
                    k,
                    p % w,
                    p / w,
                ) as int;
                let a = (v * 255) / (self.settings.drawn_pheromone_max_heat as int);
                if a > 255 {
                    255u8
                } else {
                    a as u8
                }
            },
            None => 0u8,
        }
    }

    /// A pixel before ants are drawn: the cell background, with the heat
    /// overlay blended over it when one is drawn.
    pub open spec fn spec_base_quad(self, p: int) -> Seq<u8> {
        if self.pheromone_drawn() {
            crate::color::spec_alpha_blend(
                seq![255u8, 0u8, 0u8, self.spec_heat_alpha(p)],
                cell_color_bytes(),
            )
        } else {
            cell_color_bytes()
        }
    }

    /// Byte `j` of the fully rasterized frame: cells, then the overlay,
    /// then the ants in index order.
    pub open spec fn spec_frame_byte(self, j: int) -> u8 {
        let p = j / 4;
        if last_ant_at(self.ants@, self.settings.width as int, self.ants@.len() as int, p) >= 0 {
            ant_color_bytes()[j % 4]
        } else {
            self.spec_base_quad(p)[j % 4]
        }
    }

    /// Rasterize the current state into a tightly packed RGBA frame:
    /// cells, then the selected pheromone layer as an alpha-blended heat
    /// overlay, then every ant, the last drawn winning each pixel. A pure
    /// read of the simulation.
    #[verifier::rlimit(50)]
    pub fn draw(&self, frame: &mut Vec<u8>)
        requires
            self.wf(),
            old(frame)@.len() == 4 * self.settings.spec_cell_count(),
        ensures
            final(frame)@.len() == old(frame)@.len(),
            forall|j: int|
                0 <= j < final(frame)@.len() ==> #[trigger] final(frame)@[j]
                    == self.spec_frame_byte(j),
    {
        self.draw_cells(frame);
        let ghost after_cells = frame@;
        self.draw_pheromones(frame);
        let ghost after_ph = frame@;
        self.draw_ants(frame);
        proof {
            let cc = self.settings.spec_cell_count();
            assert forall|j: int| 0 <= j < frame@.len() implies #[trigger] frame@[j]
                == self.spec_frame_byte(j) by {
                let p = j / 4;
                let c = j % 4;
                vstd::arithmetic::div_mod::lemma_fundamental_div_mod(j, 4);
                vstd::arithmetic::div_mod::lemma_mod_bound(j, 4);
                vstd::arithmetic::div_mod::lemma_div_pos_is_pos(j, 4);
                assert(p < cc) by (nonlinear_arith)
                    requires
                        j == p * 4 + c,
                        0 <= c < 4,
                        j < 4 * cc,
                ;
                assert(after_cells[j] == cell_color_bytes()[c]);
                if self.pheromone_drawn() {
                    assert(after_cells.subrange(4 * p, 4 * p + 4) =~= cell_color_bytes());
                    assert(after_ph.subrange(4 * p, 4 * p + 4) == crate::color::spec_alpha_blend(
                        seq![255u8, 0u8, 0u8, self.spec_heat_alpha(p)],
                        after_cells.subrange(4 * p, 4 * p + 4),
                    ));
                    assert(after_ph[j] == after_ph.subrange(4 * p, 4 * p + 4)[c]);
                } else {
                    assert(after_ph[j] == after_cells[j]);
                }
            }
        }
    }

    /// Paint every pixel with its cell's color.
    fn draw_cells(&self, frame: &mut Vec<u8>)
        requires
            self.wf(),
            old(frame)@.len() == 4 * self.settings.spec_cell_count(),
        ensures
            final(frame)@.len() == old(frame)@.len(),
            forall|j: int|
                0 <= j < final(frame)@.len() ==> #[trigger] final(frame)@[j] == cell_color_bytes()[j
                    % 4],
    {
        let cc = self.settings.cell_count();
        let mut p: usize = 0;
        while p < cc
            invariant
                p <= cc,
                4 * (cc as int) <= usize::MAX as int,
                frame@.len() == 4 * cc,
                forall|j: int|
                    0 <= j < 4 * p ==> #[trigger] frame@[j] == cell_color_bytes()[j % 4],
            decreases cc - p,
        {
            let color = [0u8, 0u8, 0u8, 255u8];
            frame.set(4 * p, color[0]);
            frame.set(4 * p + 1, color[1]);
            frame.set(4 * p + 2, color[2]);
            frame.set(4 * p + 3, color[3]);
            proof {
                assert forall|j: int| 0 <= j < 4 * (p + 1) implies #[trigger] frame@[j]
                    == cell_color_bytes()[j % 4] by {
                    vstd::arithmetic::div_mod::lemma_fundamental_div_mod(j, 4);
                    vstd::arithmetic::div_mod::lemma_mod_bound(j, 4);
                    if j >= 4 * p {
                        lemma_flat_decompose(p as int, 4, j - 4 * (p as int));
                    }
                }
            }
            p = p + 1;
        }
    }

    /// Blend the selected pheromone layer's heat over the frame; a no-op
    /// when no layer is drawn or the selected tribe does not exist.
    fn draw_pheromones(&self, frame: &mut Vec<u8>)
        requires
            self.wf(),
            old(frame)@.len() == 4 * self.settings.spec_cell_count(),
        ensures
            final(frame)@.len() == old(frame)@.len(),
            !self.pheromone_drawn() ==> final(frame)@ == old(frame)@,
            self.pheromone_drawn() ==> forall|p: int|
                0 <= p < self.settings.spec_cell_count()
                    ==> #[trigger] final(frame)@.subrange(4 * p, 4 * p + 4)
                    == crate::color::spec_alpha_blend(
                    seq![255u8, 0u8, 0u8, self.spec_heat_alpha(p)],
                    old(frame)@.subrange(4 * p, 4 * p + 4),
                ),
    {
        if self.settings.drawn_pheromone_tribe >= self.settings.tribe_count {
            return ;
        }
        let kind = match self.settings.drawn_pheromone {
            Some(k) => k,
            None => {
                return ;
            },
        };
        let tribe = self.settings.drawn_pheromone_tribe;
        let w: usize = self.settings.width as usize;
        let max_heat = self.settings.drawn_pheromone_max_heat;
        let cc = self.settings.cell_count();
        let mut p: usize = 0;
        while p < cc
            invariant
                self.wf(),
                self.pheromone_drawn(),
                self.settings.drawn_pheromone == Some(kind),
                tribe == self.settings.drawn_pheromone_tribe,
                w == self.settings.width as int,
                max_heat == self.settings.drawn_pheromone_max_heat,
                cc == self.settings.spec_cell_count(),
                p <= cc,
                frame@.len() == 4 * cc,
                old(frame)@.len() == 4 * cc,
                forall|j: int| 4 * p <= j < 4 * cc ==> #[trigger] frame@[j] == old(frame)@[j],
                forall|pp: int|
                    0 <= pp < p ==> #[trigger] frame@.subrange(4 * pp, 4 * pp + 4)
                        == crate::color::spec_alpha_blend(
                        seq![255u8, 0u8, 0u8, self.spec_heat_alpha(pp)],
                        old(frame)@.subrange(4 * pp, 4 * pp + 4),
                    ),
            decreases cc - p,
        {
            proof {
                vstd::arithmetic::div_mod::lemma_fundamental_div_mod(p as int, w as int);
                vstd::arithmetic::div_mod::lemma_mod_bound(p as int, w as int);
                vstd::arithmetic::div_mod::lemma_div_pos_is_pos(p as int, w as int);
                assert((p as int) / (w as int) < (self.settings.height as int))
                    by (nonlinear_arith)
                    requires
                        0 < (w as int),
                        0 <= (p as int) < (w as int) * (self.settings.height as int),
                        cc == (w as int) * (self.settings.height as int),
                ;
            }
            let x: u16 = (p % w) as u16;
            let y: u16 = (p / w) as u16;
            let v = self.pheromones.get(tribe, kind, x, y);
            let scaled = (v * 255) / max_heat;
            let alpha: u8 = if scaled > 255 {
                255
            } else {
                scaled as u8
            };
            let ghost before = frame@;
            let f0 = frame[4 * p];
            let f1 = frame[4 * p + 1];
            let f2 = frame[4 * p + 2];
            let f3 = frame[4 * p + 3];
            let prior = [f0, f1, f2, f3];
            proof {
                let pi = p as int;
                assert(prior@.len() == 4);
                assert(prior@[0] == f0 && prior@[1] == f1 && prior@[2] == f2 && prior@[3] == f3);
                assert(f0 == before[4 * pi] && f1 == before[4 * pi + 1] && f2 == before[4 * pi
                    + 2] && f3 == before[4 * pi + 3]);
                assert(before[4 * pi] == old(frame)@[4 * pi]);
                assert(before[4 * pi + 1] == old(frame)@[4 * pi + 1]);
                assert(before[4 * pi + 2] == old(frame)@[4 * pi + 2]);
                assert(before[4 * pi + 3] == old(frame)@[4 * pi + 3]);
                let sub = old(frame)@.subrange(4 * pi, 4 * pi + 4);
                assert(sub.len() == 4);
                assert(sub[0] == old(frame)@[4 * pi] && sub[1] == old(frame)@[4 * pi + 1] && sub[2]
                    == old(frame)@[4 * pi + 2] && sub[3] == old(frame)@[4 * pi + 3]);
                assert forall|i: int| 0 <= i < 4 implies prior@[i] == sub[i] by {
                    assert(prior@[0] == sub[0] && prior@[1] == sub[1] && prior@[2] == sub[2]
                        && prior@[3] == sub[3]);
                }
                assert(prior@ =~= sub);
            }
            let blended = crate::color::alpha_blend([255, 0, 0, alpha], prior);
            frame.set(4 * p, blended[0]);
            frame.set(4 * p + 1, blended[1]);
            frame.set(4 * p + 2, blended[2]);
            frame.set(4 * p + 3, blended[3]);
            proof {
                assert(alpha == self.spec_heat_alpha(p as int));
                assert(frame@.subrange(4 * (p as int), 4 * (p as int) + 4) =~= blended@);
                assert forall|pp: int| 0 <= pp < p + 1 implies #[trigger] frame@.subrange(
                    4 * pp,
                    4 * pp + 4,
                ) == crate::color::spec_alpha_blend(
                    seq![255u8, 0u8, 0u8, self.spec_heat_alpha(pp)],
                    old(frame)@.subrange(4 * pp, 4 * pp + 4),
                ) by {
                    if pp < p {
                        assert(frame@.subrange(4 * pp, 4 * pp + 4) =~= before.subrange(
                            4 * pp,
                            4 * pp + 4,
                        ));
                    }
                }
            }
            p = p + 1;
        }
    }

    /// Paint every ant's pixel, in index order.
    fn draw_ants(&self, frame: &mut Vec<u8>)
        requires
            self.wf(),
            old(frame)@.len() == 4 * self.settings.spec_cell_count(),
        ensures
            final(frame)@.len() == old(frame)@.len(),
            forall|j: int|
                0 <= j < final(frame)@.len() ==> #[trigger] final(frame)@[j] == (if last_ant_at(
                    self.ants@,
                    self.settings.width as int,
                    self.ants@.len() as int,
                    j / 4,
                ) >= 0 {
                    ant_color_bytes()[j % 4]
                } else {
                    old(frame)@[j]
                }),
    {
        let n = self.ants.len();
        let ghost w = self.settings.width as int;
        let mut k: usize = 0;
        while k < n
            invariant
                self.wf(),
                k <= n,
                n == self.ants@.len(),
                w == self.settings.width as int,
                frame@.len() == 4 * self.settings.spec_cell_count(),
                frame@.len() == old(frame)@.len(),
                forall|j: int|
                    0 <= j < frame@.len() ==> #[trigger] frame@[j] == (if last_ant_at(
                        self.ants@,
                        w,
                        k as int,
                        j / 4,
                    ) >= 0 {
                        ant_color_bytes()[j % 4]
                    } else {
                        old(frame)@[j]
                    }),
            decreases n - k,
        {
            let a = self.ants[k];
            proof {
                crate::pheromones::lemma_cell_of_position(a.x as int, self.settings.width as int);
                crate::pheromones::lemma_cell_of_position(a.y as int, self.settings.height as int);
            }
            let cx: u16 = (a.x / POS_SCALE) as u16;
            let cy: u16 = (a.y / POS_SCALE) as u16;
            let pk = self.cell_index(cx, cy);
            let color = a.color_rgba();
            let ghost before = frame@;
            frame.set(4 * pk, color[0]);
            frame.set(4 * pk + 1, color[1]);
            frame.set(4 * pk + 2, color[2]);
            frame.set(4 * pk + 3, color[3]);
            proof {
                assert(pk as int == ant_cell_y(a) * w + ant_cell_x(a));
                assert forall|j: int| 0 <= j < frame@.len() implies #[trigger] frame@[j] == (
                if last_ant_at(self.ants@, w, (k + 1) as int, j / 4) >= 0 {
                    ant_color_bytes()[j % 4]
                } else {
                    old(frame)@[j]
                }) by {
                    let p = j / 4;
                    let c = j % 4;
                    vstd::arithmetic::div_mod::lemma_fundamental_div_mod(j, 4);
                    vstd::arithmetic::div_mod::lemma_mod_bound(j, 4);
                    vstd::arithmetic::div_mod::lemma_div_pos_is_pos(j, 4);
                    if p == pk as int {
                        lemma_flat_decompose(pk as int, 4, c);
                        assert(last_ant_at(self.ants@, w, (k + 1) as int, p) == k as int);
                        assert(frame@[j] == ant_color_bytes()[c]);
                    } else {
                        assert(frame@[j] == before[j]);
                        assert(last_ant_at(self.ants@, w, (k + 1) as int, p) == last_ant_at(
                            self.ants@,
                            w,
                            k as int,
                            p,
                        ));
                    }
                }
            }
            k = k + 1;
        }
    }
}

/// A vector of `n` empty cells.
fn empty_cells(n: usize) -> (r: Vec<Cell>)
    ensures
        r@.len() == n,
        forall|i: int| 0 <= i < n ==> #[trigger] r@[i] == spec_empty_cell(),
{
    let mut cells: Vec<Cell> = Vec::new();
    let mut i: usize = 0;
    while i < n
        invariant
            i <= n,
            cells@.len() == i,
            forall|j: int| 0 <= j < i ==> #[trigger] cells@[j] == spec_empty_cell(),
        decreases n - i,
    {
        cells.push(Cell { flags: CellFlags { bits: 0 }, tribe: 0, food: 0 });
        i = i + 1;
    }
    cells
}

/// Squared distances between in-grid points stay well inside `i64`.
proof fn lemma_dist2_bounds(a: Ant, tx: int, ty: int, width: int, height: int)
    requires
        0 <= a.x < width * (POS_SCALE as int),
        0 <= a.y < height * (POS_SCALE as int),
        0 <= tx <= 67108864,
        0 <= ty <= 67108864,
        width <= 65535,
        height <= 65535,
    ensures
        0 <= ant_dist2(a, tx, ty) < 0x4000000000000000,
        ((a.x as int) - tx) * ((a.x as int) - tx) >= 0,
        ((a.y as int) - ty) * ((a.y as int) - ty) >= 0,
        ((a.x as int) - tx) * ((a.x as int) - tx) < 0x2000000000000000,
        ((a.y as int) - ty) * ((a.y as int) - ty) < 0x2000000000000000,
{
    assert(-67108864 <= (a.x as int) - tx <= 67108864);
    assert(-67108864 <= (a.y as int) - ty <= 67108864);
    assert(((a.x as int) - tx) * ((a.x as int) - tx) >= 0 && ((a.x as int) - tx) * ((a.x as int) - tx) <= 67108864 * 67108864)
        by (nonlinear_arith)
        requires
            -67108864 <= (a.x as int) - tx <= 67108864,
    ;
    assert(((a.y as int) - ty) * ((a.y as int) - ty) >= 0 && ((a.y as int) - ty) * ((a.y as int) - ty) <= 67108864 * 67108864)
        by (nonlinear_arith)
        requires
            -67108864 <= (a.y as int) - ty <= 67108864,
    ;
}

} // verus!
