//! The tick clock: a fixed-interval repeating timer that decouples the
//! simulation rate from the frame rate.
//!
//! Time is measured in integer milliseconds. Each frame the driver calls
//! [`GameTickTimer::advance`] with the elapsed time; movement-affecting
//! components act only on frames where [`GameTickTimer::just_fired`] is true.

use vstd::prelude::*;

verus! {

/// Rejected configuration values reported at setup time.
#[derive(Clone, Copy, PartialEq, Eq, Structural, Debug)]
pub enum ConfigError {
    /// The tick interval must be at least one millisecond.
    ZeroTickInterval,
}

/// A repeating timer firing once per fixed interval.
///
/// Fractional progress toward the next tick is kept across frames, so the
/// observable tick rate does not depend on the frame rate.
#[derive(Clone, Copy, PartialEq, Eq, Structural, Debug)]
pub struct GameTickTimer {
    /// Length of one tick in milliseconds; always at least 1.
    pub interval_ms: u64,
    /// Milliseconds accumulated since the last firing; always below the
    /// interval.
    pub elapsed_in_cycle_ms: u64,
    /// Whether the timer fired during the most recent `advance` call.
    pub fired: bool,
}

impl GameTickTimer {
    pub open spec fn wf(self) -> bool {
        &&& self.interval_ms >= 1
        &&& self.elapsed_in_cycle_ms < self.interval_ms
    }

    /// Creates a timer that fires every `interval_ms` milliseconds, or
    /// reports a configuration error when the interval is zero.
    pub fn new(interval_ms: u64) -> (r: Result<GameTickTimer, ConfigError>)
        ensures
            interval_ms == 0 <==> r is Err,
            r is Err ==> r->Err_0 == ConfigError::ZeroTickInterval,
            r is Ok ==> r->Ok_0 == (GameTickTimer {
                interval_ms,
                elapsed_in_cycle_ms: 0,
                fired: false,
            }),
            r is Ok ==> r->Ok_0.wf(),
    {
        if interval_ms == 0 {
            Err(ConfigError::ZeroTickInterval)
        } else {
            Ok(GameTickTimer { interval_ms, elapsed_in_cycle_ms: 0, fired: false })
        }
    }

    /// Advances the timer by `delta_ms` milliseconds of real time. The timer
    /// fires when the accumulated time reaches the interval; whatever exceeds
    /// a whole number of intervals is kept as progress toward the next tick.
    pub fn advance(&mut self, delta_ms: u64)
        requires
            old(self).wf(),
            delta_ms <= u64::MAX - old(self).interval_ms,
        ensures
            final(self).wf(),
            final(self).interval_ms == old(self).interval_ms,
            final(self).fired == (old(self).elapsed_in_cycle_ms + delta_ms
                >= old(self).interval_ms),
            final(self).elapsed_in_cycle_ms == (old(self).elapsed_in_cycle_ms + delta_ms) % (
            old(self).interval_ms as int),
    {
        let total = self.elapsed_in_cycle_ms + delta_ms;
        if total >= self.interval_ms {
            self.fired = true;
            self.elapsed_in_cycle_ms = total % self.interval_ms;
        } else {
            self.fired = false;
            self.elapsed_in_cycle_ms = total;
            proof {
                vstd::arithmetic::div_mod::lemma_small_mod(
                    total as nat,
                    self.interval_ms as nat,
                );
            }
        }
    }

    /// Whether the timer fired during the current frame.
    pub fn just_fired(&self) -> (r: bool)
        ensures
            r == self.fired,
    {
        self.fired
    }
}

} // verus!
