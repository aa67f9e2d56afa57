//! The bootstrap phase: accumulate the first eight measurements to build a
//! statistically grounded prior before any filtering is attempted.

use vstd::prelude::*;
use crate::measurement::Measurement;
use crate::stats::{StatBuffer, MAX_SAMPLE_TICKS};
use crate::time::NtpDuration;

verus! {

/// Collects delay and offset windows until eight samples have arrived.
#[derive(Clone, Copy, Debug)]
pub struct InitialPeerFilter {
    /// Window over the measured round-trip delays.
    pub rtt_stats: StatBuffer,
    /// Window over the measured offsets; seeds the initial estimate.
    pub init_offset: StatBuffer,
    /// How many measurements have been recorded; the ninth never arrives,
    /// the owning state machine promotes the peer at the eighth.
    pub samples: i32,
}

impl InitialPeerFilter {
    /// Windows sound and the sample count still short of the transition.
    pub open spec fn wf(&self) -> bool {
        &&& self.rtt_stats.wf()
        &&& self.rtt_stats.bounded()
        &&& self.init_offset.wf()
        &&& self.init_offset.bounded()
        &&& 0 <= self.samples < 8
    }

    /// A fresh tracker with zeroed windows and no samples.
    pub fn new() -> (r: Self)
        ensures
            r.wf(),
            r.samples == 0,
            r.rtt_stats.next_idx == 0,
            r.init_offset.next_idx == 0,
            forall|i: int| 0 <= i < 8 ==> r.rtt_stats.data@[i] == 0,
            forall|i: int| 0 <= i < 8 ==> r.init_offset.data@[i] == 0,
    {
        InitialPeerFilter {
            rtt_stats: StatBuffer::empty(),
            init_offset: StatBuffer::empty(),
            samples: 0,
        }
    }

    /// Record one measurement's delay and offset and count it.
    pub fn update(&mut self, measurement: Measurement)
        requires
            old(self).wf(),
            measurement.bounded(),
        ensures
            final(self).samples == old(self).samples + 1,
            final(self).rtt_stats.data@ == old(self).rtt_stats.data@.update(
                old(self).rtt_stats.next_idx as int,
                measurement.delay.ticks,
            ),
            final(self).init_offset.data@ == old(self).init_offset.data@.update(
                old(self).init_offset.next_idx as int,
                measurement.offset.ticks,
            ),
            final(self).rtt_stats.next_idx == (old(self).rtt_stats.next_idx + 1) % 8,
            final(self).init_offset.next_idx == (old(self).init_offset.next_idx + 1) % 8,
            final(self).samples < 8 ==> final(self).wf(),
            final(self).rtt_stats.wf() && final(self).rtt_stats.bounded(),
            final(self).init_offset.wf() && final(self).init_offset.bounded(),
    {
        self.rtt_stats.update(measurement.delay.ticks());
        self.init_offset.update(measurement.offset.ticks());
        self.samples = self.samples + 1;
    }

    /// An externally applied step of the reference clock mid-bootstrap:
    /// shift every buffered offset sample so the history stays consistent.
    /// The delay window is unaffected.
    pub fn process_offset_steering(&mut self, steer: NtpDuration)
        requires
            old(self).wf(),
            forall|i: int| 0 <= i < 8 ==> -MAX_SAMPLE_TICKS
                <= #[trigger] old(self).init_offset.data@[i] - steer@ <= MAX_SAMPLE_TICKS,
        ensures
            final(self).wf(),
            final(self).samples == old(self).samples,
            final(self).rtt_stats == old(self).rtt_stats,
            final(self).init_offset.next_idx == old(self).init_offset.next_idx,
            forall|i: int| 0 <= i < 8 ==> final(self).init_offset.data@[i]
                == old(self).init_offset.data@[i] - steer@,
    {
        self.init_offset.shift_all(steer.ticks());
    }
}

} // verus!
