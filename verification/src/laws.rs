//! The behavioural laws of the ant state machine, stated and proved over
//! the tick model in [`crate::simulation`].

use vstd::prelude::*;
use vstd::arithmetic::div_mod::{lemma_add_mod_noop, lemma_small_mod};
use crate::angles::{
    cosine_fp, sine_fp, wrap_angle, lemma_cosine_bounds, lemma_sine_bounds, HALF_TURN_UNITS,
    TRIG_SCALE, TURN_UNITS,
};
use crate::ant::{Ant, AntMode, ant_cell_x, ant_cell_y, ant_wf};
use crate::cell::Cell;
use crate::settings::SimulationSettings;
use crate::simulation::{arrival, last_ant_at, lemma_div_trunc_bound, moved_ant};
use crate::POS_SCALE;

verus! {

/// The heading an ant steers to before it advances.
pub open spec fn heading_after_turn(a: Ant, turn: int) -> int {
    wrap_angle(a.heading + turn)
}

/// The x position one speed step ahead, before wall reflection.
pub open spec fn raw_step_x(s: SimulationSettings, a: Ant, turn: int) -> int {
    (a.x as int) + crate::div_trunc(
        cosine_fp(heading_after_turn(a, turn)) * (s.ant_speed as int),
        TRIG_SCALE as int,
    )
}

/// The y position one speed step ahead, before wall reflection.
pub open spec fn raw_step_y(s: SimulationSettings, a: Ant, turn: int) -> int {
    (a.y as int) + crate::div_trunc(
        sine_fp(heading_after_turn(a, turn)) * (s.ant_speed as int),
        TRIG_SCALE as int,
    )
}

/// In-grid ants take raw steps that stay within one speed step of the
/// grid, so every branch of the reflection is a small, exactly
/// representable integer.
proof fn lemma_raw_step_bounds(s: SimulationSettings, a: Ant, turn: int)
    requires
        s.wf(),
        ant_wf(a, s.width as int, s.height as int, s.tribe_count as int),
    ensures
        (a.x as int) - s.ant_speed <= raw_step_x(s, a, turn) <= (a.x as int) + s.ant_speed,
        (a.y as int) - s.ant_speed <= raw_step_y(s, a, turn) <= (a.y as int) + s.ant_speed,
{
    let h1 = heading_after_turn(a, turn);
    vstd::arithmetic::div_mod::lemma_mod_bound(a.heading + turn, TURN_UNITS as int);
    lemma_cosine_bounds(h1);
    lemma_sine_bounds(h1);
    let sp = s.ant_speed as int;
    assert(-(sp * 1024) <= cosine_fp(h1) * sp <= sp * 1024) by (nonlinear_arith)
        requires
            -1024 <= cosine_fp(h1) <= 1024,
            0 <= sp,
    ;
    assert(-(sp * 1024) <= sine_fp(h1) * sp <= sp * 1024) by (nonlinear_arith)
        requires
            -1024 <= sine_fp(h1) <= 1024,
            0 <= sp,
    ;
    lemma_div_trunc_bound(cosine_fp(h1) * sp, 1024, sp);
    lemma_div_trunc_bound(sine_fp(h1) * sp, 1024, sp);
}

/// Reflection off the vertical walls: an ant whose raw step crosses `x < 0`
/// comes back at the mirrored `-x` with its heading mirrored to `pi -
/// heading`; one that crosses the far wall comes back mirrored exactly
/// about it, and a raw step landing exactly on the far wall comes to rest
/// one unit inside it.
pub proof fn lemma_wall_reflection_x(s: SimulationSettings, a: Ant, turn: int)
    requires
        s.wf(),
        ant_wf(a, s.width as int, s.height as int, s.tribe_count as int),
        0 <= raw_step_y(s, a, turn) < (s.height as int) * (POS_SCALE as int),
    ensures
        raw_step_x(s, a, turn) < 0 ==> moved_ant(s, a, turn).x == -raw_step_x(s, a, turn),
        raw_step_x(s, a, turn) > (s.width as int) * (POS_SCALE as int) ==> moved_ant(
            s,
            a,
            turn,
        ).x == 2 * ((s.width as int) * (POS_SCALE as int)) - raw_step_x(s, a, turn),
        raw_step_x(s, a, turn) == (s.width as int) * (POS_SCALE as int) ==> moved_ant(
            s,
            a,
            turn,
        ).x == (s.width as int) * (POS_SCALE as int) - 1,
        (raw_step_x(s, a, turn) < 0 || raw_step_x(s, a, turn) >= (s.width as int) * (
        POS_SCALE as int)) ==> moved_ant(s, a, turn).heading == wrap_angle(
            HALF_TURN_UNITS - heading_after_turn(a, turn),
        ),
        moved_ant(s, a, turn).y == raw_step_y(s, a, turn),
{
    lemma_raw_step_bounds(s, a, turn);
}

/// Reflection off the horizontal walls: an ant whose raw step crosses
/// `y < 0` comes back at `-y` with its heading negated; one that crosses
/// the far wall comes back mirrored exactly about it, and a raw step
/// landing exactly on the far wall comes to rest one unit inside it.
pub proof fn lemma_wall_reflection_y(s: SimulationSettings, a: Ant, turn: int)
    requires
        s.wf(),
        ant_wf(a, s.width as int, s.height as int, s.tribe_count as int),
        0 <= raw_step_x(s, a, turn) < (s.width as int) * (POS_SCALE as int),
    ensures
        raw_step_y(s, a, turn) < 0 ==> moved_ant(s, a, turn).y == -raw_step_y(s, a, turn),
        raw_step_y(s, a, turn) > (s.height as int) * (POS_SCALE as int) ==> moved_ant(
            s,
            a,
            turn,
        ).y == 2 * ((s.height as int) * (POS_SCALE as int)) - raw_step_y(s, a, turn),
        raw_step_y(s, a, turn) == (s.height as int) * (POS_SCALE as int) ==> moved_ant(
            s,
            a,
            turn,
        ).y == (s.height as int) * (POS_SCALE as int) - 1,
        (raw_step_y(s, a, turn) < 0 || raw_step_y(s, a, turn) >= (s.height as int) * (
        POS_SCALE as int)) ==> moved_ant(s, a, turn).heading == wrap_angle(
            -heading_after_turn(a, turn),
        ),
        moved_ant(s, a, turn).x == raw_step_x(s, a, turn),
{
    lemma_raw_step_bounds(s, a, turn);
}

/// Food pickup conservation: an exploring ant whose step stays inside the
/// grid and lands on a cell holding food takes exactly one unit, starts
/// carrying, and leaves with its heading reversed by half a turn on top of
/// the tick's turn and wobble.
pub proof fn lemma_food_pickup(s: SimulationSettings, a: Ant, c: Cell, turn: int)
    requires
        a.mode == AntMode::Exploring,
        c.food > 0,
        0 <= raw_step_x(s, a, turn) < (s.width as int) * (POS_SCALE as int),
        0 <= raw_step_y(s, a, turn) < (s.height as int) * (POS_SCALE as int),
    ensures
        arrival(moved_ant(s, a, turn), c).0.mode == AntMode::CarryingFoodHome,
        arrival(moved_ant(s, a, turn), c).0.has_food,
        arrival(moved_ant(s, a, turn), c).1.food == c.food - 1,
        arrival(moved_ant(s, a, turn), c).0.heading == wrap_angle(
            a.heading + turn + HALF_TURN_UNITS,
        ),
{
    let m = moved_ant(s, a, turn);
    assert(m.heading == wrap_angle(a.heading + turn));
    lemma_small_mod(HALF_TURN_UNITS as nat, TURN_UNITS as nat);
    lemma_add_mod_noop(a.heading + turn, HALF_TURN_UNITS as int, TURN_UNITS as int);
}

/// Mode round trip: a carrying ant that reaches a home cell of its own
/// tribe drops its food and goes back to exploring, its heading reversed by
/// half a turn; at any other cell, home of another tribe included, it
/// changes nothing.
pub proof fn lemma_mode_round_trip(m: Ant, c: Cell)
    requires
        m.mode == AntMode::CarryingFoodHome,
    ensures
        c.is_home_of(m.tribe) ==> arrival(m, c).0.mode == AntMode::Exploring && !arrival(
            m,
            c,
        ).0.has_food && arrival(m, c).1 == c,
        !c.is_home_of(m.tribe) ==> arrival(m, c).0 == m && arrival(m, c).1 == c,
{
}

/// The last ant drawn wins its pixel: `last_ant_at` names an ant that
/// stands on the pixel and after which no other ant does, and is negative
/// exactly when no ant stands there.
pub proof fn lemma_last_ant_wins(ants: Seq<Ant>, w: int, k: int, p: int)
    requires
        k <= ants.len(),
    ensures
        last_ant_at(ants, w, k, p) >= 0 ==> {
            let li = last_ant_at(ants, w, k, p);
            &&& li < k
            &&& ant_cell_y(ants[li]) * w + ant_cell_x(ants[li]) == p
            &&& forall|j: int|
                li < j < k ==> ant_cell_y(#[trigger] ants[j]) * w + ant_cell_x(ants[j]) != p
        },
        last_ant_at(ants, w, k, p) < 0 ==> forall|j: int|
            0 <= j < k ==> ant_cell_y(#[trigger] ants[j]) * w + ant_cell_x(ants[j]) != p,
    decreases k,
{
    if k > 0 {
        lemma_last_ant_wins(ants, w, k - 1, p);
    }
}

} // verus!
