//! The time coordinate that carries the contour field through its third
//! noise axis.
//!
//! The coordinate is held in fixed-point microunits (millionths of a
//! second of elapsed time), so that its advance is exact integer
//! arithmetic; callers that need the coordinate as a scalar divide by
//! `MICROS_PER_UNIT` at the boundary.

use vstd::prelude::*;

verus! {

/// Rate at which the time coordinate advances, in coordinate microunits
/// per microsecond of elapsed time.
pub const Z_RATE: u64 = 1;

/// Microunits that make one unit of the time coordinate.
pub const MICROS_PER_UNIT: u64 = 1000000;

/// The time coordinate after one update tick of `dt` microseconds.
pub open spec fn advanced(z: int, dt: u64) -> int {
    z + dt * Z_RATE
}

/// The time coordinate after a whole sequence of update ticks, applied in
/// order.
pub open spec fn advanced_by_all(z: int, dts: Seq<u64>) -> int
    decreases dts.len(),
{
    if dts.len() == 0 {
        z
    } else {
        advanced_by_all(advanced(z, dts[0]), dts.subrange(1, dts.len() as int))
    }
}

/// Sum of a sequence of tick durations.
pub open spec fn total_micros(dts: Seq<u64>) -> int
    decreases dts.len(),
{
    if dts.len() == 0 {
        0
    } else {
        dts[0] + total_micros(dts.subrange(1, dts.len() as int))
    }
}

/// The only state that outlives a frame: the time coordinate, in
/// microunits. It is advanced once per update tick and never reset.
pub struct Clock {
    pub z_micros: u64,
}

impl Clock {
    /// A clock at the start of time.
    pub fn new() -> (c: Clock)
        ensures
            c.z_micros == 0,
    {
        Clock { z_micros: 0 }
    }

    /// Advances the coordinate by one update tick of `dt` microseconds of
    /// elapsed time. The coordinate grows by `dt * Z_RATE` and never
    /// decreases.
    pub fn update(&mut self, dt: u64)
        requires
            old(self).z_micros + dt * Z_RATE <= u64::MAX,
        ensures
            final(self).z_micros == advanced(old(self).z_micros as int, dt),
            final(self).z_micros >= old(self).z_micros,
    {
        self.z_micros = self.z_micros + dt * Z_RATE;
    }
}

/// Accumulation of time: after any sequence of update ticks the coordinate
/// equals its starting value plus the sum of the ticks times the rate, and
/// so never falls below the starting value.
pub proof fn lemma_time_accumulates(z: int, dts: Seq<u64>)
    ensures
        advanced_by_all(z, dts) == z + total_micros(dts) * Z_RATE,
        advanced_by_all(z, dts) >= z,
    decreases dts.len(),
{
    if dts.len() == 0 {
    } else {
        lemma_time_accumulates(advanced(z, dts[0]), dts.subrange(1, dts.len() as int));
    }
}

} // verus!
