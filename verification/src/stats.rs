//! Aggregate statistics, recomputed every tick.

use vstd::prelude::*;

verus! {

/// Ceiling kept on the smoothed step duration, far above any real tick.
pub const MAX_STEP_DURATION_MICROS: u64 = 1000000000000;

/// Aggregate numbers over the whole simulation. The step duration is a
/// smoothed (exponential moving) average in microseconds.
#[derive(Debug, Default, Copy, Clone, PartialEq, Eq, Structural)]
pub struct SimulationStats {
    pub ant_count: u16,
    pub ants_with_food: u16,
    pub total_food: u64,
    pub avg_step_duration_micros: u64,
}

/// One step of the duration average: seven parts old value, one part sample.
pub open spec fn ema_step(avg: int, sample: int) -> int {
    (7 * avg + sample) / 8
}

impl SimulationStats {
    /// Fold one measured step duration into the smoothed average.
    pub fn record_step_duration(&mut self, micros: u64)
        requires
            old(self).avg_step_duration_micros <= MAX_STEP_DURATION_MICROS,
            micros <= MAX_STEP_DURATION_MICROS,
        ensures
            final(self).avg_step_duration_micros == ema_step(
                old(self).avg_step_duration_micros as int,
                micros as int,
            ),
            final(self).avg_step_duration_micros <= MAX_STEP_DURATION_MICROS,
            final(self).ant_count == old(self).ant_count,
            final(self).ants_with_food == old(self).ants_with_food,
            final(self).total_food == old(self).total_food,
    {
        self.avg_step_duration_micros = (7 * self.avg_step_duration_micros + micros) / 8;
    }
}

} // verus!
