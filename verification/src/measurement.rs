//! What one successful poll exchange delivers: the measurement itself and
//! the quality fields read off the packet that carried it.

use vstd::prelude::*;
use crate::stats::MAX_SAMPLE_TICKS;
use crate::time::{NtpDuration, NtpTimestamp};

verus! {

/// One round-trip observation, consumed exactly once by `update`.
#[derive(Clone, Copy, Debug)]
pub struct Measurement {
    /// Round-trip delay of the exchange.
    pub delay: NtpDuration,
    /// Apparent offset of the local clock against the remote one.
    pub offset: NtpDuration,
    /// Local wall-clock time the exchange completed at.
    pub localtime: NtpTimestamp,
    /// Opaque monotonic tick count taken at the same moment.
    pub monotime: u64,
}

impl Measurement {
    /// Delay and offset are small enough for exact window statistics.
    pub open spec fn bounded(&self) -> bool {
        &&& -MAX_SAMPLE_TICKS <= self.delay@ <= MAX_SAMPLE_TICKS
        &&& -MAX_SAMPLE_TICKS <= self.offset@ <= MAX_SAMPLE_TICKS
    }
}

/// The leap-second warning carried by a packet.
#[derive(Clone, Copy, Debug, PartialEq, Eq, Structural)]
pub enum LeapIndicator {
    NoWarning,
    Leap61,
    Leap59,
    Unknown,
}

/// The synchronization-quality fields of the most recent packet from the
/// peer; retained regardless of whether its measurement was accepted.
#[derive(Clone, Copy, Debug)]
pub struct PacketSnapshot {
    pub leap: LeapIndicator,
    pub root_delay: NtpDuration,
    pub root_dispersion: NtpDuration,
}

} // verus!
