//! Poll intervals: the spacing between successive exchanges with the remote
//! source, stored as a base-two exponent of seconds and stepped one notch at
//! a time inside configured bounds.

use vstd::prelude::*;
use crate::time::NtpDuration;

verus! {

/// A poll spacing of `2^exponent` seconds.
#[derive(Clone, Copy, Debug, PartialEq, Eq, Structural)]
pub struct PollInterval {
    pub exponent: i8,
}

/// Inclusive bounds the poll interval must stay within.
#[derive(Clone, Copy, Debug, PartialEq, Eq, Structural)]
pub struct PollIntervalLimits {
    pub min: PollInterval,
    pub max: PollInterval,
}

impl PollIntervalLimits {
    /// Bounds are sensible when the lower one does not exceed the upper one.
    pub open spec fn wf(&self) -> bool {
        self.min.exponent <= self.max.exponent
    }
}

impl PollInterval {
    /// `true` when the interval lies inside the given bounds.
    pub open spec fn in_limits(&self, limits: PollIntervalLimits) -> bool {
        limits.min.exponent <= self.exponent <= limits.max.exponent
    }

    pub fn from_exponent(exponent: i8) -> (r: Self)
        ensures
            r.exponent == exponent,
    {
        PollInterval { exponent }
    }

    /// The value `inc` returns: one notch longer, clamped to the upper
    /// bound.
    pub open spec fn inc_spec(&self, limits: PollIntervalLimits) -> PollInterval {
        if self.exponent < limits.max.exponent {
            PollInterval { exponent: (self.exponent + 1) as i8 }
        } else {
            PollInterval { exponent: limits.max.exponent }
        }
    }

    /// The value `dec` returns: one notch shorter, clamped to the lower
    /// bound.
    pub open spec fn dec_spec(&self, limits: PollIntervalLimits) -> PollInterval {
        if self.exponent > limits.min.exponent {
            PollInterval { exponent: (self.exponent - 1) as i8 }
        } else {
            PollInterval { exponent: limits.min.exponent }
        }
    }

    /// One notch longer, clamped to the upper bound.
    pub fn inc(&self, limits: PollIntervalLimits) -> (r: Self)
        ensures
            r == self.inc_spec(limits),
            self.in_limits(limits) && limits.wf() ==> r.in_limits(limits),
    {
        if self.exponent < limits.max.exponent {
            PollInterval { exponent: self.exponent + 1 }
        } else {
            PollInterval { exponent: limits.max.exponent }
        }
    }

    /// One notch shorter, clamped to the lower bound.
    pub fn dec(&self, limits: PollIntervalLimits) -> (r: Self)
        ensures
            r == self.dec_spec(limits),
            self.in_limits(limits) && limits.wf() ==> r.in_limits(limits),
    {
        if self.exponent > limits.min.exponent {
            PollInterval { exponent: self.exponent - 1 }
        } else {
            PollInterval { exponent: limits.min.exponent }
        }
    }

    /// The spacing as a fixed-point duration: `2^exponent` seconds is
    /// `2^(exponent + 32)` ticks, saturated at the ends of the
    /// representable range.
    pub fn as_duration(&self) -> (r: NtpDuration)
        ensures
            r@ == self.duration_ticks(),
            r@ > 0,
    {
        if self.exponent > 30 {
            NtpDuration::from_ticks(i64::MAX)
        } else if self.exponent >= -32 {
            let shift: u32 = (self.exponent as i32 + 32) as u32;
            let ticks: i64 = 1i64 << shift;
            proof {
                assert(1i64 << shift > 0) by (bit_vector)
                    requires
                        shift <= 62,
                ;
                assert(1i64 << shift == 1i64 << (self.exponent + 32));
            }
            NtpDuration::from_ticks(ticks)
        } else {
            NtpDuration::from_ticks(1)
        }
    }

    /// Tick count of the spacing: `2^(exponent + 32)` inside the
    /// representable range, pinned to the nearest representable value
    /// outside it.
    pub open spec fn duration_ticks(&self) -> int {
        if self.exponent > 30 {
            i64::MAX as int
        } else if self.exponent >= -32 {
            (1i64 << (self.exponent + 32)) as int
        } else {
            1
        }
    }
}

} // verus!
