//! Externally validated, read-only configuration: poll bounds and the
//! integer knobs of the two hysteresis loops and the outlier test.
//!
//! The probability thresholds the statistics are compared against are
//! dimensionless real numbers; their comparisons happen where the floating
//! point lives, and reach this core as the booleans of `AdaptFlags`.

use vstd::prelude::*;
use crate::poll::{PollInterval, PollIntervalLimits};

verus! {

/// System-wide settings this core reads.
#[derive(Clone, Copy, Debug)]
pub struct SystemConfig {
    /// Poll interval a freshly promoted filter starts with.
    pub initial_poll: PollInterval,
    /// Bounds every adapted poll interval must stay in.
    pub poll_limits: PollIntervalLimits,
}

impl SystemConfig {
    pub open spec fn wf(&self) -> bool {
        &&& self.poll_limits.wf()
        &&& self.initial_poll.in_limits(self.poll_limits)
    }
}

/// Tuning knobs of the estimation algorithm that this core reads.
#[derive(Clone, Copy, Debug)]
pub struct AlgorithmConfig {
    /// How many standard deviations above the mean round-trip time a
    /// delay must lie to be suspected an outlier, in `2^-32` units.
    pub delay_outlier_threshold: i64,
    /// Measurements the poll score must accumulate before the poll
    /// interval moves one step.
    pub poll_hysteresis: i32,
    /// Measurements the precision score must accumulate before the wander
    /// estimate moves a factor of four.
    pub precision_hysteresis: i32,
}

impl AlgorithmConfig {
    /// Positive hysteresis keeps the scores inside the window the update
    /// arithmetic is proved exact for.
    pub open spec fn wf(&self) -> bool {
        &&& 0 <= self.delay_outlier_threshold
        &&& 0 < self.poll_hysteresis <= 0x10000
        &&& 0 < self.precision_hysteresis <= 0x10000
    }
}

} // verus!
