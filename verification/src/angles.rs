//! Fixed-point headings and trigonometry.
//!
//! A heading is an integer number of angle units; `TURN_UNITS` of them make a
//! full turn, so a unit is 1/4096 of a turn. The sine is computed with an
//! integer rational approximation (exact at 0, a quarter turn and a half
//! turn), scaled so that `sin = 1` maps to `TRIG_SCALE`.

use vstd::prelude::*;
use vstd::arithmetic::div_mod::{lemma_mod_multiples_vanish, lemma_mod_bound};

verus! {

/// Angle units in one full turn.
pub const TURN_UNITS: i64 = 4096;

/// Angle units in half a turn (a rotation by pi).
pub const HALF_TURN_UNITS: i64 = 2048;

/// Angle units in a quarter turn.
pub const QUARTER_TURN_UNITS: i64 = 1024;

/// Fixed-point scale of the trigonometric results: `sine_units` returns
/// values in `[-TRIG_SCALE, TRIG_SCALE]`.
pub const TRIG_SCALE: i64 = 1024;

/// Approximate angle units per radian: `TURN_UNITS / (2 * pi)`.
pub const UNITS_PER_RADIAN: i64 = 652;

/// Largest turn magnitude that `turn_heading` accepts in one call.
pub const MAX_TURN: i64 = 12288;

/// A heading is well formed when it lies in `[0, TURN_UNITS)`.
pub open spec fn heading_wf(a: int) -> bool {
    0 <= a < TURN_UNITS
}

/// An angle reduced to `[0, TURN_UNITS)` (mathematical modulus).
pub open spec fn wrap_angle(a: int) -> int {
    a % (TURN_UNITS as int)
}

/// Sine over the first half turn, by the rational approximation
/// `16 u / (5 H^2 - 4 u)` with `u = t (H - t)`, scaled by `TRIG_SCALE`.
pub open spec fn sine_half_fp(t: int) -> int
    recommends
        0 <= t <= HALF_TURN_UNITS,
{
    (16384 * (t * (2048 - t))) / (20971520 - 4 * (t * (2048 - t)))
}

/// Sine of a well-formed heading, scaled by `TRIG_SCALE`.
pub open spec fn sine_fp(a: int) -> int
    recommends
        heading_wf(a),
{
    if a <= HALF_TURN_UNITS {
        sine_half_fp(a)
    } else {
        -sine_half_fp(a - HALF_TURN_UNITS)
    }
}

/// Cosine of a well-formed heading, scaled by `TRIG_SCALE`.
pub open spec fn cosine_fp(a: int) -> int
    recommends
        heading_wf(a),
{
    sine_fp(wrap_angle(a + QUARTER_TURN_UNITS))
}

/// The half-turn sine approximation stays within `[0, TRIG_SCALE]`.
pub proof fn lemma_sine_half_bounds(t: int)
    requires
        0 <= t <= HALF_TURN_UNITS,
    ensures
        0 <= sine_half_fp(t) <= TRIG_SCALE,
{
    let u = t * (2048 - t);
    assert(0 <= u <= 1048576) by (nonlinear_arith)
        requires
            0 <= t <= 2048,
            u == t * (2048 - t),
    ;
    let num = 16384 * u;
    let den = 20971520 - 4 * u;
    assert(den >= 16777216);
    assert(num >= 0);
    assert(num <= 1024 * den) by (nonlinear_arith)
        requires
            u <= 1048576,
            num == 16384 * u,
            den == 20971520 - 4 * u,
    ;
    assert(0 <= num / den <= 1024) by (nonlinear_arith)
        requires
            num >= 0,
            den >= 16777216,
            num <= 1024 * den,
    ;
}

/// The sine of any well-formed heading stays within `[-TRIG_SCALE, TRIG_SCALE]`.
pub proof fn lemma_sine_bounds(a: int)
    requires
        heading_wf(a),
    ensures
        -TRIG_SCALE <= sine_fp(a) <= TRIG_SCALE,
{
    if a <= HALF_TURN_UNITS {
        lemma_sine_half_bounds(a);
    } else {
        lemma_sine_half_bounds(a - HALF_TURN_UNITS);
    }
}

/// The cosine of any well-formed heading stays within `[-TRIG_SCALE, TRIG_SCALE]`.
pub proof fn lemma_cosine_bounds(a: int)
    requires
        heading_wf(a),
    ensures
        -TRIG_SCALE <= cosine_fp(a) <= TRIG_SCALE,
{
    lemma_mod_bound(a + QUARTER_TURN_UNITS, TURN_UNITS as int);
    lemma_sine_bounds(wrap_angle(a + QUARTER_TURN_UNITS));
}

/// Sine of a heading, in fixed point.
pub fn sine_units(a: i64) -> (r: i64)
    requires
        heading_wf(a as int),
    ensures
        r == sine_fp(a as int),
        -TRIG_SCALE <= r <= TRIG_SCALE,
{
    proof {
        lemma_sine_bounds(a as int);
    }
    if a <= HALF_TURN_UNITS {
        sine_half_units(a)
    } else {
        let s = sine_half_units(a - HALF_TURN_UNITS);
        -s
    }
}

/// Cosine of a heading, in fixed point.
pub fn cosine_units(a: i64) -> (r: i64)
    requires
        heading_wf(a as int),
    ensures
        r == cosine_fp(a as int),
        -TRIG_SCALE <= r <= TRIG_SCALE,
{
    let mut b = a + QUARTER_TURN_UNITS;
    if b >= TURN_UNITS {
        b = b - TURN_UNITS;
    }
    proof {
        lemma_mod_multiples_vanish(-1, a + QUARTER_TURN_UNITS, TURN_UNITS as int);
        lemma_small_mod_identity(b as int, TURN_UNITS as int);
    }
    sine_units(b)
}

fn sine_half_units(t: i64) -> (r: i64)
    requires
        0 <= t <= HALF_TURN_UNITS,
    ensures
        r == sine_half_fp(t as int),
        0 <= r <= TRIG_SCALE,
{
    proof {
        lemma_sine_half_bounds(t as int);
        assert(0 <= t * (2048 - t) <= 1048576) by (nonlinear_arith)
            requires
                0 <= t <= 2048,
        ;
    }
    let u = t * (2048 - t);
    let num = 16384 * u;
    let den = 20971520 - 4 * u;
    num / den
}

/// A value already in `[0, m)` is its own modulus.
proof fn lemma_small_mod_identity(x: int, m: int)
    requires
        0 <= x < m,
    ensures
        x % m == x,
{
    assert(x % m == x) by (nonlinear_arith)
        requires
            0 <= x < m,
    ;
}

/// The heading after bouncing off a vertical wall: a rotation by pi minus
/// the heading, mirrored about the wall's normal.
pub fn reflect_x_heading(h: i64) -> (r: i64)
    requires
        heading_wf(h as int),
    ensures
        r == wrap_angle(HALF_TURN_UNITS - h),
        heading_wf(r as int),
{
    let d = HALF_TURN_UNITS - h;
    let r = if d < 0 {
        d + TURN_UNITS
    } else {
        d
    };
    proof {
        lemma_mod_multiples_vanish(1, d as int, TURN_UNITS as int);
        lemma_small_mod_identity(r as int, TURN_UNITS as int);
    }
    r
}

/// The heading after bouncing off a horizontal wall: the negated heading.
pub fn reflect_y_heading(h: i64) -> (r: i64)
    requires
        heading_wf(h as int),
    ensures
        r == wrap_angle(-h),
        heading_wf(r as int),
{
    let r = if h == 0 {
        0
    } else {
        TURN_UNITS - h
    };
    proof {
        lemma_mod_multiples_vanish(1, -(h as int), TURN_UNITS as int);
        lemma_small_mod_identity(r as int, TURN_UNITS as int);
    }
    r
}

/// Turn a well-formed heading by `turn` units and reduce it to a
/// well-formed heading again.
pub fn turn_heading(heading: i64, turn: i64) -> (r: i64)
    requires
        heading_wf(heading as int),
        -MAX_TURN <= turn <= MAX_TURN,
    ensures
        r == wrap_angle(heading + turn),
        heading_wf(r as int),
{
    let shifted = heading + turn + 3 * TURN_UNITS;
    let r = shifted % TURN_UNITS;
    proof {
        lemma_mod_multiples_vanish(3, heading + turn, TURN_UNITS as int);
        lemma_mod_bound((heading + turn + 3 * TURN_UNITS) as int, TURN_UNITS as int);
    }
    r
}

} // verus!
