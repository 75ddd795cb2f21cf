//! The pheromone field: one home layer and one food layer per tribe.
//!
//! Concentrations are fixed-point integers in millionths (`PHER_SCALE` is
//! 1.0). All layers are stored back to back in one flat vector; the layer of
//! tribe `t` and kind `k` starts at `(2 t + k) * width * height`.

use vstd::prelude::*;
use rayon::iter::IntoParallelRefMutIterator;
use rayon::iter::ParallelIterator;
use crate::ant::{Ant, ant_cell_x, ant_cell_y, ant_wf};

verus! {

/// Fixed-point scale of pheromone concentrations: 1.0 in millionths.
pub const PHER_SCALE: u64 = 1000000;

/// Decay snaps values below this (0.001) to exactly zero.
pub const PHER_SNAP: u64 = 1000;

/// Scale of the decay factor: a factor of `DECAY_SCALE` keeps values as
/// they are, smaller factors shrink them.
pub const DECAY_SCALE: u64 = 10000;

/// Scale of the diffusion rate: a rate of `DIFFUSION_SCALE` moves a cell's
/// whole concentration to its neighbours.
pub const DIFFUSION_SCALE: u64 = 10000;

/// Ceiling kept on every stored concentration, far above any deposit.
pub const PHER_CAP: u64 = 1000000000000;

/// The two pheromone kinds each tribe lays and follows.
#[derive(Debug, Copy, Clone, PartialEq, Eq, Structural)]
pub enum PheromoneType {
    Home,
    Food,
}

/// Offset of a kind within a tribe's pair of layers.
pub open spec fn kind_offset(k: PheromoneType) -> int {
    match k {
        PheromoneType::Home => 0,
        PheromoneType::Food => 1,
    }
}

/// The multi-layer scalar field.
pub struct Pheromones {
    pub values: Vec<u64>,
    pub width: u16,
    pub height: u16,
    pub tribe_count: u8,
}

/// One value multiplied by a decay factor, with the snap-to-zero rule.
pub open spec fn decayed_value(v: int, factor: int) -> int {
    let d = (v * factor) / (DECAY_SCALE as int);
    if d < PHER_SNAP {
        0
    } else {
        d
    }
}

impl Pheromones {
    /// Cells per layer.
    pub open spec fn spec_cells(self) -> int {
        (self.width as int) * (self.height as int)
    }

    /// Number of layers: two per tribe.
    pub open spec fn spec_layers(self) -> int {
        2 * (self.tribe_count as int)
    }

    pub open spec fn wf(self) -> bool {
        &&& self.values@.len() == self.spec_layers() * self.spec_cells()
        &&& self.spec_cells() <= usize::MAX as int
        &&& self.spec_layers() * self.spec_cells() <= usize::MAX as int
        &&& forall|i: int|
            0 <= i < self.values@.len() ==> #[trigger] self.values@[i] <= PHER_CAP
    }

    /// Flat index of the value of tribe `tribe`, kind `k` at cell `(x, y)`.
    pub open spec fn spec_index(self, tribe: int, k: PheromoneType, x: int, y: int) -> int {
        (2 * tribe + kind_offset(k)) * self.spec_cells() + y * (self.width as int) + x
    }

    /// The stored concentration of tribe `tribe`, kind `k` at cell `(x, y)`.
    pub open spec fn spec_get(self, tribe: int, k: PheromoneType, x: int, y: int) -> u64 {
        self.values@[self.spec_index(tribe, k, x, y)]
    }

    /// Valid arguments for a point read or write.
    pub open spec fn in_range(self, tribe: int, x: int, y: int) -> bool {
        &&& 0 <= tribe < self.tribe_count
        &&& 0 <= x < self.width
        &&& 0 <= y < self.height
    }

    /// A fresh all-zero field.
    pub fn new(width: u16, height: u16, tribe_count: u8) -> (r: Self)
        requires
            (width as int) * (height as int) <= usize::MAX as int,
            2 * (tribe_count as int) * ((width as int) * (height as int)) <= usize::MAX as int,
        ensures
            r.wf(),
            r.width == width,
            r.height == height,
            r.tribe_count == tribe_count,
            forall|i: int| 0 <= i < r.values@.len() ==> #[trigger] r.values@[i] == 0,
    {
        let cells: usize = (width as usize) * (height as usize);
        let total: usize = 2 * (tribe_count as usize) * cells;
        let mut values: Vec<u64> = Vec::new();
        let mut i: usize = 0;
        while i < total
            invariant
                i <= total,
                values@.len() == i,
                forall|j: int| 0 <= j < i ==> #[trigger] values@[j] == 0,
            decreases total - i,
        {
            values.push(0);
            i = i + 1;
        }
        proof {
            assert(2 * (tribe_count as int) * ((width as int) * (height as int)) == (2 * (
            tribe_count as int)) * ((width as int) * (height as int))) by (nonlinear_arith);
        }
        Pheromones { values, width, height, tribe_count }
    }

    pub fn get_width(&self) -> (r: u16)
        ensures
            r == self.width,
    {
        self.width
    }

    pub fn get_height(&self) -> (r: u16)
        ensures
            r == self.height,
    {
        self.height
    }

    pub fn tribe_count(&self) -> (r: u8)
        ensures
            r == self.tribe_count,
    {
        self.tribe_count
    }

    /// Flat index of a value; in range whenever the arguments are.
    fn index_of(&self, tribe: u8, k: PheromoneType, x: u16, y: u16) -> (r: usize)
        requires
            self.wf(),
            self.in_range(tribe as int, x as int, y as int),
        ensures
            r == self.spec_index(tribe as int, k, x as int, y as int),
            r < self.values@.len(),
    {
        let cells: usize = (self.width as usize) * (self.height as usize);
        let offset: usize = match k {
            PheromoneType::Home => 0,
            PheromoneType::Food => 1,
        };
        let layer: usize = 2 * (tribe as usize) + offset;
        proof {
            assert(0 <= (y as int) * (self.width as int) + (x as int) < self.spec_cells())
                by (nonlinear_arith)
                requires
                    0 <= (y as int) < (self.height as int),
                    0 <= (x as int) < (self.width as int),
                    self.spec_cells() == (self.width as int) * (self.height as int),
            ;
            lemma_layer_index_in_range(
                layer as int,
                self.spec_layers(),
                self.spec_cells(),
                (y as int) * (self.width as int) + (x as int),
            );
        }
        layer * cells + (y as usize) * (self.width as usize) + (x as usize)
    }

    /// Point read.
    pub fn get(&self, tribe: u8, k: PheromoneType, x: u16, y: u16) -> (r: u64)
        requires
            self.wf(),
            self.in_range(tribe as int, x as int, y as int),
        ensures
            r == self.spec_get(tribe as int, k, x as int, y as int),
            r <= PHER_CAP,
    {
        let i = self.index_of(tribe, k, x, y);
        self.values[i]
    }

    /// Point overwrite.
    pub fn put(&mut self, tribe: u8, k: PheromoneType, x: u16, y: u16, value: u64)
        requires
            old(self).wf(),
            old(self).in_range(tribe as int, x as int, y as int),
            value <= PHER_CAP,
        ensures
            final(self).wf(),
            final(self).width == old(self).width,
            final(self).height == old(self).height,
            final(self).tribe_count == old(self).tribe_count,
            final(self).values@ == old(self).values@.update(
                old(self).spec_index(tribe as int, k, x as int, y as int),
                value,
            ),
    {
        let i = self.index_of(tribe, k, x, y);
        self.values.set(i, value);
    }

    /// Overwrite at the cell an ant stands in.
    pub fn deposit(&mut self, ant: &Ant, k: PheromoneType, value: u64)
        requires
            old(self).wf(),
            ant_wf(*ant, old(self).width as int, old(self).height as int, old(self).tribe_count as int),
            value <= PHER_CAP,
        ensures
            final(self).wf(),
            final(self).width == old(self).width,
            final(self).height == old(self).height,
            final(self).tribe_count == old(self).tribe_count,
            final(self).values@ == old(self).values@.update(
                old(self).spec_index(ant.tribe as int, k, ant_cell_x(*ant), ant_cell_y(*ant)),
                value,
            ),
    {
        proof {
            lemma_cell_of_position(ant.x as int, self.width as int);
            lemma_cell_of_position(ant.y as int, self.height as int);
        }
        let cx: u16 = (ant.x / crate::POS_SCALE) as u16;
        let cy: u16 = (ant.y / crate::POS_SCALE) as u16;
        self.put(ant.tribe, k, cx, cy, value);
    }

    /// Multiply every value in every layer by `factor / DECAY_SCALE`,
    /// snapping values below the snap threshold to exactly zero.
    pub fn decay(&mut self, factor: u64)
        requires
            old(self).wf(),
            factor <= DECAY_SCALE,
        ensures
            final(self).wf(),
            final(self).width == old(self).width,
            final(self).height == old(self).height,
            final(self).tribe_count == old(self).tribe_count,
            final(self).values@.len() == old(self).values@.len(),
            forall|i: int|
                0 <= i < old(self).values@.len() ==> #[trigger] final(self).values@[i]
                    == decayed_value(old(self).values@[i] as int, factor as int),
    {
        par_map_decay(&mut self.values, factor);
        proof {
            assert forall|i: int| 0 <= i < self.values@.len() implies #[trigger] self.values@[i]
                <= PHER_CAP by {
                lemma_decayed_value_le(old(self).values@[i] as int, factor as int);
            }
        }
    }
}

/// One value decayed, executably.
fn decay_value(v: u64, factor: u64) -> (r: u64)
    requires
        v <= PHER_CAP,
        factor <= DECAY_SCALE,
    ensures
        r == decayed_value(v as int, factor as int),
        r <= v,
{
    proof {
        lemma_decayed_value_le(v as int, factor as int);
        assert(v * factor <= PHER_CAP * DECAY_SCALE) by (nonlinear_arith)
            requires
                v <= PHER_CAP,
                factor <= DECAY_SCALE,
        ;
    }
    let d = (v * factor) / DECAY_SCALE;
    if d < PHER_SNAP {
        0
    } else {
        d
    }
}

/// Decay shrinks: the decayed value never exceeds the original.
pub proof fn lemma_decayed_value_le(v: int, factor: int)
    requires
        0 <= v,
        0 <= factor <= DECAY_SCALE,
    ensures
        decayed_value(v, factor) <= v,
{
    assert((v * factor) / (DECAY_SCALE as int) <= v) by (nonlinear_arith)
        requires
            0 <= v,
            0 <= factor <= DECAY_SCALE,
    ;
}

/// Decay monotonicity: with a factor below one, every value decays to at
/// most itself, and a product that falls below the snap threshold becomes
/// exactly zero.
pub proof fn lemma_decay_monotone(v: int, factor: int)
    requires
        0 <= v,
        0 <= factor < DECAY_SCALE,
    ensures
        decayed_value(v, factor) <= v,
        (v * factor) / (DECAY_SCALE as int) < PHER_SNAP ==> decayed_value(v, factor) == 0,
{
    lemma_decayed_value_le(v, factor);
}


/// A quarter of a cell's outflow under diffusion.
pub open spec fn out_quarter(v: int, rate: int) -> int {
    ((v * rate) / (DIFFUSION_SCALE as int)) / 4
}

/// What diffusion leaves at flat index `j` of a `w` by `h` field: the cell
/// sheds four outflow quarters and collects one from each in-bounds
/// neighbour; quarters sent over the grid edge are lost. The result is
/// kept under the concentration ceiling.
pub open spec fn diffused_value(w: int, h: int, rate: int, ph: Seq<u64>, j: int) -> u64 {
    let cc = w * h;
    let r = j % cc;
    let y = r / w;
    let x = r % w;
    let v = ph[j] as int;
    let left = if x > 0 { out_quarter(ph[j - 1] as int, rate) } else { 0 };
    let right = if x < w - 1 { out_quarter(ph[j + 1] as int, rate) } else { 0 };
    let up = if y > 0 { out_quarter(ph[j - w] as int, rate) } else { 0 };
    let down = if y < h - 1 { out_quarter(ph[j + w] as int, rate) } else { 0 };
    let total = v - 4 * out_quarter(v, rate) + left + right + up + down;
    if total > PHER_CAP {
        PHER_CAP
    } else {
        total as u64
    }
}

/// A quarter of a cell's diffusion outflow, executably.
fn quarter_outflow(v: u64, rate: u64) -> (r: u64)
    requires
        v <= PHER_CAP,
        rate <= DIFFUSION_SCALE,
    ensures
        r == out_quarter(v as int, rate as int),
        4 * r <= v,
{
    proof {
        assert(v * rate <= PHER_CAP * DIFFUSION_SCALE) by (nonlinear_arith)
            requires
                v <= PHER_CAP,
                rate <= DIFFUSION_SCALE,
        ;
        lemma_quarter_outflow_le(v as int, rate as int);
    }
    ((v * rate) / DIFFUSION_SCALE) / 4
}

/// Four outflow quarters never exceed the value they leave.
proof fn lemma_quarter_outflow_le(v: int, rate: int)
    requires
        0 <= v,
        0 <= rate <= DIFFUSION_SCALE,
    ensures
        0 <= out_quarter(v, rate),
        4 * out_quarter(v, rate) <= v,
{
    let d = (v * rate) / (DIFFUSION_SCALE as int);
    assert(0 <= d <= v) by (nonlinear_arith)
        requires
            0 <= v,
            0 <= rate <= DIFFUSION_SCALE,
            d == (v * rate) / (DIFFUSION_SCALE as int),
    ;
    assert(0 <= d / 4 && 4 * (d / 4) <= d) by (nonlinear_arith)
        requires
            0 <= d,
    ;
}

impl Pheromones {
    /// One optional diffusion pass: every cell sheds four outflow quarters and
    /// collects one from each in-bounds neighbour, per layer, against a
    /// snapshot of the pre-diffusion field.
    pub fn diffuse(&mut self, rate: u64)
        requires
            old(self).wf(),
            rate <= DIFFUSION_SCALE,
            1 <= old(self).width,
            1 <= old(self).height,
        ensures
            final(self).wf(),
            final(self).width == old(self).width,
            final(self).height == old(self).height,
            final(self).tribe_count == old(self).tribe_count,
            final(self).values@.len() == old(self).values@.len(),
            forall|j: int|
                0 <= j < old(self).values@.len() ==> #[trigger] final(self).values@[j]
                    == diffused_value(
                    old(self).width as int,
                    old(self).height as int,
                    rate as int,
                    old(self).values@,
                    j,
                ),
    {
        let w: usize = self.width as usize;
        let h: usize = self.height as usize;
        let cc: usize = w * h;
        let n: usize = self.values.len();
        let mut fresh: Vec<u64> = Vec::new();
        let mut j: usize = 0;
        while j < n
            invariant
                self.wf(),
                *self == *old(self),
                1 <= self.width,
                1 <= self.height,
                rate <= DIFFUSION_SCALE,
                w == self.width as int,
                h == self.height as int,
                cc == self.spec_cells(),
                n == self.values@.len(),
                j <= n,
                fresh@.len() == j,
                forall|jj: int|
                    0 <= jj < j ==> #[trigger] fresh@[jj] == diffused_value(
                        self.width as int,
                        self.height as int,
                        rate as int,
                        self.values@,
                        jj,
                    ),
                forall|jj: int| 0 <= jj < j ==> #[trigger] fresh@[jj] <= PHER_CAP,
            decreases n - j,
        {
            let r: usize = j % cc;
            let y: usize = r / w;
            let x: usize = r % w;
            proof {
                let jv = j as int;
                let cci = cc as int;
                let wi = w as int;
                let hi = h as int;
                vstd::arithmetic::div_mod::lemma_fundamental_div_mod(jv, cci);
                vstd::arithmetic::div_mod::lemma_mod_bound(jv, cci);
                vstd::arithmetic::div_mod::lemma_div_pos_is_pos(jv, cci);
                let l = jv / cci;
                let rv = jv % cci;
                vstd::arithmetic::div_mod::lemma_fundamental_div_mod(rv, wi);
                vstd::arithmetic::div_mod::lemma_mod_bound(rv, wi);
                vstd::arithmetic::div_mod::lemma_div_pos_is_pos(rv, wi);
                let yv = rv / wi;
                let xv = rv % wi;
                assert(yv < hi) by (nonlinear_arith)
                    requires
                        0 < wi,
                        0 <= rv < wi * hi,
                        yv == rv / wi,
                ;
                let layers = 2 * (self.tribe_count as int);
                assert((self.values@.len() as int) == layers * cci);
                assert(l + 1 <= layers) by (nonlinear_arith)
                    requires
                        0 < cci,
                        0 <= jv < layers * cci,
                        l == jv / cci,
                ;
                assert(l * cci + cci <= layers * cci) by (nonlinear_arith)
                    requires
                        l + 1 <= layers,
                        0 < cci,
                ;
                assert(0 <= yv * wi) by (nonlinear_arith)
                    requires
                        0 <= yv,
                        0 <= wi,
                ;
                if xv > 0 {
                    assert(0 <= jv - 1 < n as int);
                }
                if xv < wi - 1 {
                    assert(rv + 1 < cci) by (nonlinear_arith)
                        requires
                            rv == yv * wi + xv,
                            xv < wi - 1,
                            yv <= hi - 1,
                            cci == wi * hi,
                            0 < wi,
                            0 < hi,
                            0 <= xv,
                            0 <= yv,
                    ;
                    assert(0 <= jv + 1 < n as int);
                }
                if yv > 0 {
                    assert(wi <= yv * wi) by (nonlinear_arith)
                        requires
                            1 <= yv,
                            0 <= wi,
                    ;
                    assert(0 <= jv - wi < n as int);
                }
                if yv + 1 < hi {
                    assert(rv + wi < cci) by (nonlinear_arith)
                        requires
                            rv == yv * wi + xv,
                            xv < wi,
                            yv + 1 <= hi - 1,
                            cci == wi * hi,
                            0 < wi,
                            0 < hi,
                            0 <= xv,
                            0 <= yv,
                    ;
                    assert(0 <= jv + wi < n as int);
                }
            }
            let v: u64 = self.values[j];
            let oq: u64 = quarter_outflow(v, rate);
            let left: u64 = if x > 0 {
                quarter_outflow(self.values[j - 1], rate)
            } else {
                0
            };
            let right: u64 = if x + 1 < w {
                quarter_outflow(self.values[j + 1], rate)
            } else {
                0
            };
            let up: u64 = if y > 0 {
                quarter_outflow(self.values[j - w], rate)
            } else {
                0
            };
            let down: u64 = if y + 1 < h {
                quarter_outflow(self.values[j + w], rate)
            } else {
                0
            };
            proof {
                lemma_quarter_outflow_le(v as int, rate as int);
            }
            let kept: u64 = v - 4 * oq;
            let total: u64 = kept + left + right + up + down;
            let capped: u64 = if total > PHER_CAP {
                PHER_CAP
            } else {
                total
            };
            fresh.push(capped);
            j = j + 1;
        }
        self.values = fresh;
    }
}

/// Relies on rayon's `par_iter_mut` / `for_each`: applies the closure to
/// every element of the vector exactly once, in place; the closure only
/// calls the verified `decay_value`.
#[verifier::external_body]
fn par_map_decay(values: &mut Vec<u64>, factor: u64)
    requires
        factor <= DECAY_SCALE,
        forall|i: int| 0 <= i < old(values)@.len() ==> #[trigger] old(values)@[i] <= PHER_CAP,
    ensures
        final(values)@.len() == old(values)@.len(),
        forall|i: int|
            0 <= i < old(values)@.len() ==> #[trigger] final(values)@[i] == decayed_value(
                old(values)@[i] as int,
                factor as int,
            ),
{
    values.par_iter_mut().for_each(|v| *v = decay_value(*v, factor));
}

/// A layer-local index stays inside the flat vector.
proof fn lemma_layer_index_in_range(layer: int, layers: int, cells: int, inner: int)
    requires
        0 <= layer < layers,
        0 <= inner < cells,
    ensures
        0 <= layer * cells + inner < layers * cells,
{
    assert(layer * cells + inner < layers * cells) by (nonlinear_arith)
        requires
            0 <= layer < layers,
            0 <= inner < cells,
    ;
}

/// A fixed-point position inside the grid falls in a cell inside the grid.
pub proof fn lemma_cell_of_position(p: int, dim: int)
    requires
        0 <= p < dim * (crate::POS_SCALE as int),
        0 < dim,
    ensures
        0 <= p / (crate::POS_SCALE as int) < dim,
{
    assert(0 <= p / 1024 < dim) by (nonlinear_arith)
        requires
            0 <= p < dim * 1024,
    ;
}

} // verus!
