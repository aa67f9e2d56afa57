//! The per-peer state machine: exactly one of a bootstrap tracker or a
//! steady-state filter, with a one-way transition at the eighth accepted
//! bootstrap sample.

use vstd::prelude::*;
use crate::bootstrap::InitialPeerFilter;
use crate::config::{AlgorithmConfig, SystemConfig};
use crate::filter::{AdaptFlags, FilterUpdate, KalmanStep, PeerFilter, WanderAction};
use crate::measurement::{LeapIndicator, Measurement, PacketSnapshot};
use crate::poll::{PollInterval, PollIntervalLimits};
use crate::stats::{mean_ticks, var_ticks, MAX_SAMPLE_TICKS};
use crate::time::{NtpDuration, NtpTimestamp};

verus! {

/// The two lifecycle phases of a tracked peer.
pub enum PeerStateInner {
    /// Still collecting the first eight measurements.
    Initial(InitialPeerFilter),
    /// Filtering; never reverts.
    Stable(PeerFilter),
}

/// One tracked remote time source.
pub struct PeerState(pub PeerStateInner);

/// What one `update` call did.
pub enum PeerUpdate {
    /// A bootstrap sample was recorded; no estimate yet.
    BootstrapSample,
    /// The eighth sample arrived: the peer is now steady-state and the
    /// numeric engine must initialize from this seed.
    BootstrapComplete(KalmanSeed),
    /// Steady state: the measurement preceded the filter's time; dropped.
    Stale,
    /// Steady state: the delay stuck out of the window; dropped one-shot.
    Outlier,
    /// Steady state: absorbed; the engine must run this numeric step.
    Absorb(KalmanStep),
}

/// The statistically grounded prior the bootstrap phase hands the engine:
/// initial state is `(offset_mean, 0)` and initial covariance is diagonal
/// in `offset_variance` and the configured initial frequency uncertainty
/// squared.
pub struct KalmanSeed {
    /// Mean of the eight buffered offsets.
    pub offset_mean: NtpDuration,
    /// Unbiased variance of the eight buffered offsets, in `2^-64`
    /// second-squared units.
    pub offset_variance: i128,
}

/// What `snapshot` reports for peer-combining: the fixed-point part of the
/// estimate; the engine pairs it with the real-valued state and covariance.
#[derive(Clone, Copy, Debug)]
pub struct PeerSnapshot<Index> {
    /// The caller's opaque handle for this peer.
    pub index: Index,
    /// Mean round-trip delay of the recent window, in ticks.
    pub delay: i64,
    /// Peer-reported root dispersion.
    pub peer_uncertainty: NtpDuration,
    /// Peer-reported root delay.
    pub peer_delay: NtpDuration,
    /// Peer-reported leap indicator.
    pub leap_indicator: LeapIndicator,
    /// Local time of the last processed packet.
    pub last_update: NtpTimestamp,
}

impl PeerState {
    /// Which phase the peer is in.
    pub open spec fn is_bootstrap(&self) -> bool {
        self.0 is Initial
    }

    pub open spec fn is_steady(&self) -> bool {
        self.0 is Stable
    }

    /// The bootstrap tracker, in that phase.
    pub open spec fn bootstrap(&self) -> InitialPeerFilter {
        self.0->Initial_0
    }

    /// The steady-state filter, in that phase.
    pub open spec fn steady(&self) -> PeerFilter {
        self.0->Stable_0
    }

    /// The active phase is internally consistent.
    pub open spec fn wf(&self) -> bool {
        match self.0 {
            PeerStateInner::Initial(f) => f.wf(),
            PeerStateInner::Stable(f) => f.wf(),
        }
    }

    /// A peer starts in bootstrap with zeroed windows, cursors at the
    /// first slot and no samples.
    pub fn new() -> (r: Self)
        ensures
            r.wf(),
            r.is_bootstrap(),
            r.bootstrap().samples == 0,
            r.bootstrap().rtt_stats.next_idx == 0,
            r.bootstrap().init_offset.next_idx == 0,
            forall|i: int| 0 <= i < 8 ==> r.bootstrap().rtt_stats.data@[i] == 0,
            forall|i: int| 0 <= i < 8 ==> r.bootstrap().init_offset.data@[i] == 0,
    {
        PeerState(PeerStateInner::Initial(InitialPeerFilter::new()))
    }

    /// Feed one measurement and the packet that carried it through the
    /// active phase. In bootstrap the sample is recorded and the eighth one
    /// promotes the peer to steady state, seeded from the buffered
    /// statistics; in steady state the measurement runs through the guards
    /// and, if accepted, produces the numeric step for the engine.
    pub fn update(
        &mut self,
        config: &SystemConfig,
        algo_config: &AlgorithmConfig,
        measurement: Measurement,
        packet: PacketSnapshot,
    ) -> (r: PeerUpdate)
        requires
            old(self).wf(),
            config.wf(),
            algo_config.wf(),
            measurement.bounded(),
            old(self).0 matches PeerStateInner::Stable(f) ==> ({
                &&& measurement.localtime@ - f.filter_time@ <= i64::MAX
                &&& -0x8000_0000_0000_0000
                    <= measurement.localtime@ - f.last_measurement.localtime@
                    <= 0x7FFF_FFFF_FFFF_FFFF
            }),
        ensures
            final(self).wf(),
            // the transition happens exactly at the eighth sample; until
            // then every measurement is recorded at the ring cursors
            old(self).is_bootstrap() && old(self).bootstrap().samples < 7 ==> ({
                let boot = old(self).bootstrap();
                &&& final(self).is_bootstrap()
                &&& final(self).bootstrap().samples == boot.samples + 1
                &&& (r is BootstrapSample)
                &&& final(self).bootstrap().rtt_stats.data@ == boot.rtt_stats.data@.update(
                    boot.rtt_stats.next_idx as int,
                    measurement.delay.ticks,
                )
                &&& final(self).bootstrap().init_offset.data@
                    == boot.init_offset.data@.update(
                    boot.init_offset.next_idx as int,
                    measurement.offset.ticks,
                )
                &&& final(self).bootstrap().rtt_stats.next_idx
                    == (boot.rtt_stats.next_idx + 1) % 8
                &&& final(self).bootstrap().init_offset.next_idx
                    == (boot.init_offset.next_idx + 1) % 8
            }),
            old(self).is_bootstrap() && old(self).bootstrap().samples == 7 ==> ({
                &&& final(self).is_steady()
                &&& (r is BootstrapComplete)
            }),
            // the seed and the promoted filter are pinned by the buffers
            old(self).is_bootstrap() ==> (r matches PeerUpdate::BootstrapComplete(seed) ==> ({
                let boot = old(self).bootstrap();
                let off = boot.init_offset.data@.update(
                    boot.init_offset.next_idx as int,
                    measurement.offset.ticks,
                );
                let rtt = boot.rtt_stats.data@.update(
                    boot.rtt_stats.next_idx as int,
                    measurement.delay.ticks,
                );
                &&& seed.offset_mean@ == mean_ticks(off)
                &&& seed.offset_variance == var_ticks(off)
                &&& final(self).steady().rtt_stats.data@ == rtt
                &&& final(self).steady().rtt_stats.next_idx
                    == (boot.rtt_stats.next_idx + 1) % 8
                &&& final(self).steady().precision_score == 0
                &&& final(self).steady().poll_score == 0
                &&& final(self).steady().desired_poll_interval == config.initial_poll
                &&& final(self).steady().last_measurement == measurement
                &&& final(self).steady().last_packet == packet
                &&& !final(self).steady().prev_was_outlier
                &&& final(self).steady().last_iter == measurement.localtime
                &&& final(self).steady().filter_time == measurement.localtime
            })),
            // steady state delegates to the filter
            old(self).is_steady() ==> final(self).is_steady(),
            old(self).is_steady() ==> ({
                let f = old(self).steady();
                &&& ((r is Stale) <==> measurement.localtime@ < f.filter_time@)
                &&& ((r is Outlier) <==> (measurement.localtime@ >= f.filter_time@
                    && !f.prev_was_outlier
                    && crate::stats::is_delay_outlier(
                        f.rtt_stats.data@,
                        measurement.delay@,
                        algo_config.delay_outlier_threshold as int,
                    )))
                &&& ((r is Stale) ==> final(self).steady() == (PeerFilter {
                    last_packet: packet,
                    ..f
                }))
                &&& ((r is Outlier) ==> final(self).steady() == (PeerFilter {
                    last_packet: packet,
                    prev_was_outlier: true,
                    last_iter: measurement.localtime,
                    ..f
                }))
                &&& (r matches PeerUpdate::Absorb(step) ==> ({
                    &&& final(self).steady().filter_time == measurement.localtime
                    &&& final(self).steady().last_measurement == measurement
                    &&& final(self).steady().last_packet == packet
                    &&& final(self).steady().prev_was_outlier == f.prev_was_outlier
                    &&& final(self).steady().last_iter == f.last_iter
                    &&& final(self).steady().poll_score == f.poll_score
                    &&& final(self).steady().precision_score == f.precision_score
                    &&& final(self).steady().desired_poll_interval == f.desired_poll_interval
                    &&& final(self).steady().rtt_stats.next_idx
                        == (f.rtt_stats.next_idx + 1) % 8
                    &&& final(self).steady().rtt_stats.data@ == f.rtt_stats.data@.update(
                        f.rtt_stats.next_idx as int,
                        measurement.delay.ticks,
                    )
                    &&& step.time_step@ == measurement.localtime@ - f.filter_time@
                    &&& step.measurement_period@ == measurement.localtime@
                        - f.last_measurement.localtime@
                    &&& step.delay_variance == var_ticks(final(self).steady().rtt_stats.data@)
                    &&& step.offset@ == measurement.offset@
                    &&& step.offset_diff@ == measurement.offset@ - f.last_measurement.offset@
                }))
                &&& (!(r is Stale) && !(r is Outlier) ==> (r is Absorb))
            }),
    {
        match &mut self.0 {
            PeerStateInner::Initial(f) => {
                f.update(measurement);
                if f.samples == 8 {
                    let boot = *f;
                    let offset_mean = boot.init_offset.mean();
                    let offset_variance = boot.init_offset.var();
                    let filter = PeerFilter {
                        rtt_stats: boot.rtt_stats,
                        precision_score: 0,
                        poll_score: 0,
                        desired_poll_interval: config.initial_poll,
                        last_measurement: measurement,
                        last_packet: packet,
                        prev_was_outlier: false,
                        last_iter: measurement.localtime,
                        filter_time: measurement.localtime,
                    };
                    self.0 = PeerStateInner::Stable(filter);
                    PeerUpdate::BootstrapComplete(KalmanSeed {
                        offset_mean: NtpDuration::from_ticks(offset_mean),
                        offset_variance,
                    })
                } else {
                    PeerUpdate::BootstrapSample
                }
            }
            PeerStateInner::Stable(f) => {
                match f.update(algo_config, measurement, packet) {
                    FilterUpdate::Stale => PeerUpdate::Stale,
                    FilterUpdate::Outlier => PeerUpdate::Outlier,
                    FilterUpdate::Absorb(step) => PeerUpdate::Absorb(step),
                }
            }
        }
    }

    /// Run the two adaptation loops after an absorbed measurement, once the
    /// engine has compared the step's statistics against the configured
    /// thresholds.
    pub fn adapt(
        &mut self,
        config: &SystemConfig,
        algo_config: &AlgorithmConfig,
        flags: AdaptFlags,
        measurement_period: NtpDuration,
    ) -> (action: WanderAction)
        requires
            old(self).wf(),
            old(self).is_steady(),
            config.wf(),
            algo_config.wf(),
        ensures
            final(self).wf(),
            final(self).is_steady(),
            old(self).steady().desired_poll_interval.in_limits(config.poll_limits)
                ==> final(self).steady().desired_poll_interval.in_limits(config.poll_limits),
            flags.chi_over_jump ==> final(self).steady().desired_poll_interval
                == config.poll_limits.min && final(self).steady().poll_score == 0,
            final(self).steady() == (PeerFilter {
                precision_score: final(self).steady().precision_score,
                poll_score: final(self).steady().poll_score,
                desired_poll_interval: final(self).steady().desired_poll_interval,
                ..old(self).steady()
            }),
            ({
                let stepped = crate::filter::score_step(
                    old(self).steady().precision_score as int,
                    flags.chi_below_precision_low && flags.weight_over_precision_min,
                    flags.chi_over_precision_high,
                );
                if stepped <= -algo_config.precision_hysteresis {
                    final(self).steady().precision_score == 0
                        && action == WanderAction::Decrease
                } else if stepped >= algo_config.precision_hysteresis {
                    final(self).steady().precision_score == 0
                        && action == WanderAction::Increase
                } else {
                    final(self).steady().precision_score == stepped
                        && action == WanderAction::Keep
                }
            }),
            ({
                let p = old(self).steady().desired_poll_interval;
                let stepped = crate::filter::poll_score_stepped(
                    old(self).steady().poll_score as int,
                    measurement_period@,
                    p.duration_ticks(),
                    flags,
                );
                &&& final(self).steady().desired_poll_interval
                    == crate::filter::poll_interval_after(
                    p,
                    stepped,
                    algo_config.poll_hysteresis as int,
                    flags.chi_over_jump,
                    config.poll_limits,
                )
                &&& final(self).steady().poll_score == crate::filter::poll_score_after(
                    stepped,
                    algo_config.poll_hysteresis as int,
                    flags.chi_over_jump,
                )
            }),
    {
        match &mut self.0 {
            PeerStateInner::Stable(f) => f.adapt(config, algo_config, flags, measurement_period),
            PeerStateInner::Initial(_) => WanderAction::Keep,
        }
    }

    /// The fixed-point part of the estimate for peer combining; nothing
    /// before the peer reaches steady state.
    pub fn snapshot<Index: Copy>(&self, index: Index) -> (r: Option<PeerSnapshot<Index>>)
        requires
            self.wf(),
        ensures
            (r is Some) <==> self.is_steady(),
            r matches Some(snap) ==> ({
                let f = self.steady();
                &&& snap.index == index
                &&& snap.delay == mean_ticks(f.rtt_stats.data@)
                &&& snap.peer_uncertainty == f.last_packet.root_dispersion
                &&& snap.peer_delay == f.last_packet.root_delay
                &&& snap.leap_indicator == f.last_packet.leap
                &&& snap.last_update == f.last_iter
            }),
    {
        match &self.0 {
            PeerStateInner::Initial(_) => None,
            PeerStateInner::Stable(f) => Some(PeerSnapshot {
                index,
                delay: f.rtt_stats.mean(),
                peer_uncertainty: f.last_packet.root_dispersion,
                peer_delay: f.last_packet.root_delay,
                leap_indicator: f.last_packet.leap,
                last_update: f.last_iter,
            }),
        }
    }

    /// The filter's own clock; nothing in bootstrap.
    pub fn get_filtertime(&self) -> (r: Option<NtpTimestamp>)
        ensures
            (r is Some) <==> self.is_steady(),
            self.is_steady() ==> r == Some(self.steady().filter_time),
    {
        match &self.0 {
            PeerStateInner::Initial(_) => None,
            PeerStateInner::Stable(f) => Some(f.filter_time),
        }
    }

    /// The poll spacing the peer currently wants; the configured minimum
    /// while still bootstrapping.
    pub fn get_desired_poll(&self, limits: &PollIntervalLimits) -> (r: PollInterval)
        ensures
            self.is_bootstrap() ==> r == limits.min,
            self.is_steady() ==> r == self.steady().desired_poll_interval,
    {
        match &self.0 {
            PeerStateInner::Initial(_) => limits.min,
            PeerStateInner::Stable(f) => f.desired_poll_interval,
        }
    }

    /// Move the filter clock forward; a no-op in bootstrap. The returned
    /// span is what the engine must propagate by.
    pub fn progress_filtertime(&mut self, time: NtpTimestamp) -> (elapsed: Option<NtpDuration>)
        requires
            old(self).wf(),
            old(self).0 matches PeerStateInner::Stable(f)
                ==> time@ - f.filter_time@ <= i64::MAX,
        ensures
            final(self).wf(),
            old(self).is_bootstrap() ==> *final(self) == *old(self) && (elapsed is None),
            old(self).is_steady() ==> ({
                &&& final(self).is_steady()
                &&& (time@ < old(self).steady().filter_time@ ==> final(self).steady()
                    == old(self).steady() && (elapsed is None))
                &&& (time@ >= old(self).steady().filter_time@ ==> ({
                    &&& final(self).steady().filter_time == time
                    &&& elapsed == Some(NtpDuration {
                        ticks: (time@ - old(self).steady().filter_time@) as i64,
                    })
                }))
            }),
    {
        match &mut self.0 {
            PeerStateInner::Initial(_) => None,
            PeerStateInner::Stable(f) => f.progress_filtertime(time),
        }
    }

    /// An externally applied clock step, forwarded to whichever phase is
    /// active; both keep their buffered history consistent with it.
    pub fn process_offset_steering(&mut self, steer: NtpDuration)
        requires
            old(self).wf(),
            old(self).0 matches PeerStateInner::Initial(f) ==> (forall|i: int|
                0 <= i < 8 ==> -MAX_SAMPLE_TICKS
                    <= #[trigger] f.init_offset.data@[i] - steer@ <= MAX_SAMPLE_TICKS),
            old(self).0 matches PeerStateInner::Stable(f) ==> ({
                &&& -MAX_SAMPLE_TICKS <= f.last_measurement.offset@ - steer@
                    <= MAX_SAMPLE_TICKS
                &&& 0 <= f.last_measurement.localtime@ + steer@ <= u64::MAX
            }),
        ensures
            final(self).wf(),
            final(self).is_bootstrap() == old(self).is_bootstrap(),
            old(self).is_bootstrap() ==> ({
                &&& final(self).bootstrap().samples == old(self).bootstrap().samples
                &&& final(self).bootstrap().rtt_stats == old(self).bootstrap().rtt_stats
                &&& final(self).bootstrap().init_offset.next_idx
                    == old(self).bootstrap().init_offset.next_idx
                &&& (forall|i: int| 0 <= i < 8 ==> final(self).bootstrap().init_offset.data@[i]
                    == old(self).bootstrap().init_offset.data@[i] - steer@)
            }),
            old(self).is_steady() ==> ({
                let f = old(self).steady();
                &&& final(self).steady().last_measurement.offset@
                    == f.last_measurement.offset@ - steer@
                &&& final(self).steady().last_measurement.localtime@
                    == f.last_measurement.localtime@ + steer@
                &&& final(self).steady() == (PeerFilter {
                    last_measurement: final(self).steady().last_measurement,
                    ..f
                })
            }),
    {
        match &mut self.0 {
            PeerStateInner::Initial(f) => f.process_offset_steering(steer),
            PeerStateInner::Stable(f) => f.process_offset_steering(steer),
        }
    }

    /// An externally applied frequency correction; a no-op in bootstrap,
    /// where no frequency state exists yet.
    pub fn process_frequency_steering(
        &mut self,
        time: NtpTimestamp,
        offset_adjustment: NtpDuration,
    ) -> (elapsed: Option<NtpDuration>)
        requires
            old(self).wf(),
            old(self).0 matches PeerStateInner::Stable(f) ==> ({
                &&& time@ - f.filter_time@ <= i64::MAX
                &&& -MAX_SAMPLE_TICKS <= f.last_measurement.offset@ - offset_adjustment@
                    <= MAX_SAMPLE_TICKS
            }),
        ensures
            final(self).wf(),
            old(self).is_bootstrap() ==> *final(self) == *old(self) && (elapsed is None),
            old(self).is_steady() ==> ({
                let f = old(self).steady();
                &&& final(self).is_steady()
                &&& final(self).steady().last_measurement.offset@
                    == f.last_measurement.offset@ - offset_adjustment@
                &&& (time@ >= f.filter_time@ ==> final(self).steady().filter_time == time)
                &&& (time@ < f.filter_time@ ==> final(self).steady().filter_time
                    == f.filter_time)
            }),
    {
        match &mut self.0 {
            PeerStateInner::Initial(_) => None,
            PeerStateInner::Stable(f) => f.process_frequency_steering(time, offset_adjustment),
        }
    }
}

} // verus!
