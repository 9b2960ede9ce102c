//! Frame timing: an accumulating clock with a per-tick delta.
//!
//! The wall clock itself is outside the verifier's reach; what is verified
//! is that each tick advances the accumulated time by exactly the reported
//! (never negative) delta, whatever the clock returns.

use crate::fixed::{f_add, sat64, Fixed};
use std::time::Duration;
use std::time::Instant;
use vstd::prelude::*;

verus! {

#[verifier::external_type_specification]
#[verifier::external_body]
pub struct ExInstant(Instant);

/// Relies on std::time::Instant::now: an opaque monotonic timestamp.
#[verifier::external_body]
fn instant_now() -> Instant {
    Instant::now()
}

/// Relies on std::time::Instant::elapsed: the time since the timestamp, as
/// an opaque duration. Nothing is assumed of its value.
#[verifier::external_body]
fn instant_elapsed(instant: &Instant) -> Duration {
    instant.elapsed()
}

/// Relies on std::time::Duration::as_micros: the duration as a whole
/// number of microseconds. A duration is never negative, which the
/// unsigned result type already states.
#[verifier::external_body]
fn duration_as_micros(duration: &Duration) -> u128 {
    duration.as_micros()
}

/// A microsecond count as a fixed-point second count (one microsecond is
/// 100 raw units), clamped at the largest representable value.
fn micros_to_fixed(micros: u128) -> (r: Fixed)
    ensures
        r.raw as int == sat64(micros as int * 100),
        r.raw >= 0,
{
    proof {
        reveal(sat64);
    }
    if micros > (i64::MAX / 100) as u128 {
        Fixed { raw: i64::MAX }
    } else {
        Fixed { raw: (micros as i64) * 100 }
    }
}

/// An accumulating frame clock.
#[derive(Debug)]
pub struct Timer {
    pub current_time: Fixed,
    pub delta: Fixed,
    pub last_instant: Instant,
}

impl Default for Timer {
    /// A timer at zero, anchored at the current instant.
    fn default() -> (t: Timer)
        ensures
            t.current_time.raw == 0,
            t.delta.raw == 0,
    {
        Timer {
            current_time: Fixed { raw: 0 },
            delta: Fixed { raw: 0 },
            last_instant: instant_now(),
        }
    }
}

impl Timer {
    /// Advance the clock: the accumulated time grows by exactly the
    /// reported delta, and the delta is never negative, whatever the wall
    /// clock returned.
    pub fn tick(&mut self)
        ensures
            final(self).delta.raw >= 0,
            final(self).current_time == f_add(old(self).current_time, final(self).delta),
    {
        let elapsed = instant_elapsed(&self.last_instant);
        let micros = duration_as_micros(&elapsed);
        let delta = micros_to_fixed(micros);
        self.current_time = self.current_time.add(delta);
        self.delta = delta;
        self.last_instant = instant_now();
    }

    /// The delta reported by the latest tick, in seconds.
    pub fn delta_time_secs(&self) -> (d: Fixed)
        ensures
            d == self.delta,
    {
        self.delta
    }

    /// The accumulated time, in seconds.
    pub fn time_elapsed_secs(&self) -> (t: Fixed)
        ensures
            t == self.current_time,
    {
        self.current_time
    }
}

} // verus!
