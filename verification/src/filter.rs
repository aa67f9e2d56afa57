//! The steady-state filter: stale and outlier guards, time propagation,
//! window statistics, and the two hysteresis loops that adapt the poll
//! interval and the wander estimate.
//!
//! The Kalman state vector and covariance are real-valued and live with the
//! floating-point engine outside this core; every decision about them is
//! made here, over fixed-point integers and the comparison outcomes the
//! engine reports back as `AdaptFlags`.

use vstd::prelude::*;
use crate::config::{AlgorithmConfig, SystemConfig};
use crate::measurement::{Measurement, PacketSnapshot};
use crate::poll::{PollInterval, PollIntervalLimits};
use crate::stats::{is_delay_outlier, var_ticks, StatBuffer, MAX_SAMPLE_TICKS};
use crate::time::{NtpDuration, NtpTimestamp};

verus! {

/// Outcomes of the floating-point comparisons that drive the two adaptive
/// loops: `chi` against the jump and precision thresholds, `weight` against
/// the poll and precision weight thresholds.
#[derive(Clone, Copy, Debug)]
pub struct AdaptFlags {
    /// `chi` reached the poll jump threshold.
    pub chi_over_jump: bool,
    /// `weight` fell below the poll low-weight threshold.
    pub weight_below_low: bool,
    /// `weight` rose above the poll high-weight threshold.
    pub weight_above_high: bool,
    /// `chi` fell below the precision low-probability threshold.
    pub chi_below_precision_low: bool,
    /// `chi` rose above the precision high-probability threshold.
    pub chi_over_precision_high: bool,
    /// `weight` rose above the precision minimum weight.
    pub weight_over_precision_min: bool,
}

/// What the wander loop asks the engine to do with the process-noise
/// density.
#[derive(Clone, Copy, Debug, PartialEq, Eq, Structural)]
pub enum WanderAction {
    /// Divide the wander estimate by four.
    Decrease,
    /// Leave it as it is.
    Keep,
    /// Multiply it by four.
    Increase,
}

/// What a measurement did to the filter.
pub enum FilterUpdate {
    /// The measurement precedes the filter's own time; discarded.
    Stale,
    /// The delay stuck out of the recent window; discarded one-shot.
    Outlier,
    /// Absorbed: the engine must run the numeric step with these values.
    Absorb(KalmanStep),
}

/// The exact fixed-point inputs of one numeric Kalman step.
pub struct KalmanStep {
    /// Span the filter moved forward by (time propagation).
    pub time_step: NtpDuration,
    /// Span since the previous absorbed measurement.
    pub measurement_period: NtpDuration,
    /// Variance of the delay window, in `2^-64` second-squared units.
    pub delay_variance: i128,
    /// The measured offset.
    pub offset: NtpDuration,
    /// Change of the measured offset against the previous measurement.
    pub offset_diff: NtpDuration,
}

/// One hysteresis-score move: down or up when the corresponding condition
/// fired (down wins), otherwise decay one step towards zero.
pub open spec fn score_step(score: int, down: bool, up: bool) -> int {
    if down {
        score - 1
    } else if up {
        score + 1
    } else if score > 0 {
        score - 1
    } else if score < 0 {
        score + 1
    } else {
        0
    }
}

/// The measurement period exceeds three quarters of the reference period.
pub open spec fn period_ratio_above(period: int, reference: int) -> bool {
    4 * period > 3 * reference
}

/// The measurement period is under seven fifths of the reference period.
pub open spec fn period_ratio_below(period: int, reference: int) -> bool {
    5 * period < 7 * reference
}

/// The poll score after one adaptation step, before any reset.
pub open spec fn poll_score_stepped(
    score: int,
    period: int,
    reference: int,
    flags: AdaptFlags,
) -> int {
    score_step(
        score,
        flags.weight_below_low && period_ratio_above(period, reference),
        flags.weight_above_high && period_ratio_below(period, reference),
    )
}

/// The desired poll interval after one adaptation step: a jump overrides
/// the hysteresis and snaps to the minimum; otherwise the interval moves
/// one clamped notch when the stepped score reaches the hysteresis bound.
pub open spec fn poll_interval_after(
    p: PollInterval,
    stepped: int,
    hysteresis: int,
    jump: bool,
    limits: PollIntervalLimits,
) -> PollInterval {
    if jump {
        limits.min
    } else if stepped <= -hysteresis {
        p.inc_spec(limits)
    } else if stepped >= hysteresis {
        p.dec_spec(limits)
    } else {
        p
    }
}

/// The poll score after one adaptation step: reset to zero whenever the
/// interval moved or a jump fired, the stepped value otherwise.
pub open spec fn poll_score_after(stepped: int, hysteresis: int, jump: bool) -> int {
    if jump || stepped <= -hysteresis || stepped >= hysteresis {
        0
    } else {
        stepped
    }
}

/// Whether a measurement is discarded by the one-shot outlier guard: only
/// a fresh (non-stale) measurement is tested, a set flag disarms the test,
/// and the delay must stick out of the recent window.
pub open spec fn rejects_as_outlier(f: PeerFilter, m: Measurement, threshold: int) -> bool {
    &&& m.localtime@ >= f.filter_time@
    &&& !f.prev_was_outlier
    &&& is_delay_outlier(f.rtt_stats.data@, m.delay@, threshold)
}

/// The steady-state filter. Positions and spans are fixed-point ticks; the
/// real-valued state vector, covariance and wander estimate are the
/// engine's and are steered through the values this filter emits.
#[derive(Clone, Copy, Debug)]
pub struct PeerFilter {
    /// Window over recent round-trip delays.
    pub rtt_stats: StatBuffer,
    /// Hysteresis score of the wander loop.
    pub precision_score: i32,
    /// Hysteresis score of the poll loop.
    pub poll_score: i32,
    /// Poll spacing this filter currently wants.
    pub desired_poll_interval: PollInterval,
    /// The previous absorbed measurement.
    pub last_measurement: Measurement,
    /// Quality fields of the most recent packet, accepted or not.
    pub last_packet: PacketSnapshot,
    /// Whether the previous measurement was discarded as an outlier; once
    /// set it stays set, so a rejection is never followed by another.
    pub prev_was_outlier: bool,
    /// Local time of the last processed packet.
    pub last_iter: NtpTimestamp,
    /// The moment the filter state refers to; never moves backwards.
    pub filter_time: NtpTimestamp,
}

impl PeerFilter {
    /// Internal consistency: statistics window sound, scores inside the
    /// hysteresis range, retained measurement small enough for exact
    /// statistics.
    pub open spec fn wf(&self) -> bool {
        &&& self.rtt_stats.wf()
        &&& self.rtt_stats.bounded()
        &&& -0x10000 <= self.poll_score <= 0x10000
        &&& -0x10000 <= self.precision_score <= 0x10000
        &&& self.last_measurement.bounded()
    }

    /// Move the filter forward to a later moment. A target before the
    /// filter's own time is a caller-order violation and leaves the state
    /// untouched. The returned span is what the numeric engine must
    /// propagate its state and covariance by.
    pub fn progress_filtertime(&mut self, time: NtpTimestamp) -> (elapsed: Option<NtpDuration>)
        requires
            old(self).wf(),
            time@ - old(self).filter_time@ <= i64::MAX,
        ensures
            final(self).wf(),
            final(self).filter_time@ >= old(self).filter_time@,
            time@ < old(self).filter_time@ ==> *final(self) == *old(self) && (elapsed is None),
            time@ >= old(self).filter_time@ ==> ({
                &&& final(self).filter_time == time
                &&& elapsed == Some(NtpDuration { ticks: (time@ - old(self).filter_time@) as i64 })
                &&& unchanged_but_filter_time(*old(self), *final(self))
            }),
    {
        if time.is_before(&self.filter_time) {
            return None;
        }
        let delta = time.elapsed_since(&self.filter_time);
        self.filter_time = time;
        Some(delta)
    }

    /// Absorb a measurement into the retained history: emits the exact
    /// observation values of the numeric correction step and replaces the
    /// previous measurement. The delay window must already contain the
    /// measurement's delay.
    fn absorb_measurement(&mut self, measurement: Measurement) -> (step: KalmanStep)
        requires
            old(self).wf(),
            measurement.bounded(),
            -0x8000_0000_0000_0000
                <= measurement.localtime@ - old(self).last_measurement.localtime@
                <= 0x7FFF_FFFF_FFFF_FFFF,
        ensures
            final(self).wf(),
            step.measurement_period@ == measurement.localtime@
                - old(self).last_measurement.localtime@,
            step.delay_variance == var_ticks(old(self).rtt_stats.data@),
            step.offset@ == measurement.offset@,
            step.offset_diff@ == measurement.offset@ - old(self).last_measurement.offset@,
            final(self).last_measurement == measurement,
            *final(self) == (PeerFilter { last_measurement: measurement, ..*old(self) }),
    {
        let delay_variance = self.rtt_stats.var();
        let measurement_period = measurement.localtime.elapsed_since(
            &self.last_measurement.localtime,
        );
        let offset_diff = measurement.offset.minus(&self.last_measurement.offset);
        self.last_measurement = measurement;
        KalmanStep {
            time_step: NtpDuration::from_ticks(0),
            measurement_period,
            delay_variance,
            offset: measurement.offset,
            offset_diff,
        }
    }

    /// Feed one measurement through the guards and, if it survives, into
    /// the retained statistics; the packet's quality fields are always
    /// retained. An `Absorb` result carries the numeric step the engine
    /// still has to run, after which the adaptation loops are fed via
    /// `adapt`.
    pub fn update(
        &mut self,
        algo_config: &AlgorithmConfig,
        measurement: Measurement,
        packet: PacketSnapshot,
    ) -> (r: FilterUpdate)
        requires
            old(self).wf(),
            algo_config.wf(),
            measurement.bounded(),
            measurement.localtime@ - old(self).filter_time@ <= i64::MAX,
            -0x8000_0000_0000_0000
                <= measurement.localtime@ - old(self).last_measurement.localtime@
                <= 0x7FFF_FFFF_FFFF_FFFF,
        ensures
            final(self).wf(),
            final(self).last_packet == packet,
            (r is Stale) <==> measurement.localtime@ < old(self).filter_time@,
            (r is Outlier) <==> rejects_as_outlier(
                *old(self),
                measurement,
                algo_config.delay_outlier_threshold as int,
            ),
            (r is Stale) ==> *final(self) == (PeerFilter { last_packet: packet, ..*old(self) }),
            (r is Outlier) ==> *final(self) == (PeerFilter {
                last_packet: packet,
                prev_was_outlier: true,
                last_iter: measurement.localtime,
                ..*old(self)
            }),
            r matches FilterUpdate::Absorb(step) ==> ({
                &&& *final(self) == (PeerFilter {
                    last_packet: packet,
                    last_measurement: measurement,
                    filter_time: measurement.localtime,
                    rtt_stats: final(self).rtt_stats,
                    ..*old(self)
                })
                &&& final(self).rtt_stats.data@ == old(self).rtt_stats.data@.update(
                    old(self).rtt_stats.next_idx as int,
                    measurement.delay.ticks,
                )
                &&& final(self).rtt_stats.next_idx == (old(self).rtt_stats.next_idx + 1) % 8
                &&& step.time_step@ == measurement.localtime@ - old(self).filter_time@
                &&& step.measurement_period@ == measurement.localtime@
                    - old(self).last_measurement.localtime@
                &&& step.delay_variance == var_ticks(final(self).rtt_stats.data@)
                &&& step.offset@ == measurement.offset@
                &&& step.offset_diff@ == measurement.offset@
                    - old(self).last_measurement.offset@
            }),
            final(self).prev_was_outlier == (old(self).prev_was_outlier || (r is Outlier)),
            final(self).filter_time@ >= old(self).filter_time@,
    {
        self.last_packet = packet;

        if measurement.localtime.is_before(&self.filter_time) {
            // Out-of-order delivery: ignore the past.
            return FilterUpdate::Stale;
        }

        if !self.prev_was_outlier && self.rtt_stats.delay_exceeds(
            measurement.delay.ticks(),
            algo_config.delay_outlier_threshold,
        ) {
            self.prev_was_outlier = true;
            self.last_iter = measurement.localtime;
            return FilterUpdate::Outlier;
        }

        let elapsed = self.progress_filtertime(measurement.localtime);
        let time_step = match elapsed {
            Some(d) => d,
            None => NtpDuration::from_ticks(0),
        };
        self.rtt_stats.update(measurement.delay.ticks());
        let step = self.absorb_measurement(measurement);
        FilterUpdate::Absorb(KalmanStep { time_step, ..step })
    }

    /// The wander hysteresis loop: move the precision score, and at the
    /// hysteresis bound reset it and tell the engine to scale the wander
    /// estimate a factor of four.
    pub fn update_wander_estimate(
        &mut self,
        algo_config: &AlgorithmConfig,
        flags: AdaptFlags,
    ) -> (action: WanderAction)
        requires
            old(self).wf(),
            algo_config.wf(),
        ensures
            final(self).wf(),
            *final(self) == (PeerFilter {
                precision_score: final(self).precision_score,
                ..*old(self)
            }),
            ({
                let stepped = score_step(
                    old(self).precision_score as int,
                    flags.chi_below_precision_low && flags.weight_over_precision_min,
                    flags.chi_over_precision_high,
                );
                if stepped <= -algo_config.precision_hysteresis {
                    final(self).precision_score == 0 && action == WanderAction::Decrease
                } else if stepped >= algo_config.precision_hysteresis {
                    final(self).precision_score == 0 && action == WanderAction::Increase
                } else {
                    final(self).precision_score == stepped && action == WanderAction::Keep
                }
            }),
    {
        if flags.chi_below_precision_low && flags.weight_over_precision_min {
            self.precision_score = self.precision_score - 1;
        } else if flags.chi_over_precision_high {
            self.precision_score = self.precision_score + 1;
        } else if self.precision_score > 0 {
            self.precision_score = self.precision_score - 1;
        } else if self.precision_score < 0 {
            self.precision_score = self.precision_score + 1;
        }
        if self.precision_score <= -algo_config.precision_hysteresis {
            self.precision_score = 0;
            WanderAction::Decrease
        } else if self.precision_score >= algo_config.precision_hysteresis {
            self.precision_score = 0;
            WanderAction::Increase
        } else {
            WanderAction::Keep
        }
    }

    /// The poll hysteresis loop: move the poll score by how informative the
    /// measurement was, and at the bounds step the desired interval inside
    /// the configured limits. A `chi` at the jump threshold overrides
    /// everything and snaps the interval to the configured minimum.
    pub fn update_desired_poll(
        &mut self,
        config: &SystemConfig,
        algo_config: &AlgorithmConfig,
        flags: AdaptFlags,
        measurement_period: NtpDuration,
    )
        requires
            old(self).wf(),
            config.wf(),
            algo_config.wf(),
        ensures
            final(self).wf(),
            *final(self) == (PeerFilter {
                poll_score: final(self).poll_score,
                desired_poll_interval: final(self).desired_poll_interval,
                ..*old(self)
            }),
            ({
                let reference = old(self).desired_poll_interval.duration_ticks();
                let stepped = poll_score_stepped(
                    old(self).poll_score as int,
                    measurement_period@,
                    reference,
                    flags,
                );
                &&& final(self).desired_poll_interval == poll_interval_after(
                    old(self).desired_poll_interval,
                    stepped,
                    algo_config.poll_hysteresis as int,
                    flags.chi_over_jump,
                    config.poll_limits,
                )
                &&& final(self).poll_score == poll_score_after(
                    stepped,
                    algo_config.poll_hysteresis as int,
                    flags.chi_over_jump,
                )
            }),
            old(self).desired_poll_interval.in_limits(config.poll_limits)
                ==> final(self).desired_poll_interval.in_limits(config.poll_limits),
            flags.chi_over_jump ==> final(self).desired_poll_interval
                == config.poll_limits.min,
    {
        let reference = self.desired_poll_interval.as_duration();
        let period: i128 = measurement_period.ticks() as i128;
        let refp: i128 = reference.ticks() as i128;
        if flags.weight_below_low && 4 * period > 3 * refp {
            self.poll_score = self.poll_score - 1;
        } else if flags.weight_above_high && 5 * period < 7 * refp {
            self.poll_score = self.poll_score + 1;
        } else if self.poll_score > 0 {
            self.poll_score = self.poll_score - 1;
        } else if self.poll_score < 0 {
            self.poll_score = self.poll_score + 1;
        }
        if flags.chi_over_jump {
            self.desired_poll_interval = config.poll_limits.min;
            self.poll_score = 0;
        } else if self.poll_score <= -algo_config.poll_hysteresis {
            self.desired_poll_interval = self.desired_poll_interval.inc(config.poll_limits);
            self.poll_score = 0;
        } else if self.poll_score >= algo_config.poll_hysteresis {
            self.desired_poll_interval = self.desired_poll_interval.dec(config.poll_limits);
            self.poll_score = 0;
        }
    }

    /// Run both adaptation loops for an absorbed measurement, wander first
    /// as the poll decision must not see its own effect on the score.
    pub fn adapt(
        &mut self,
        config: &SystemConfig,
        algo_config: &AlgorithmConfig,
        flags: AdaptFlags,
        measurement_period: NtpDuration,
    ) -> (action: WanderAction)
        requires
            old(self).wf(),
            config.wf(),
            algo_config.wf(),
        ensures
            final(self).wf(),
            *final(self) == (PeerFilter {
                precision_score: final(self).precision_score,
                poll_score: final(self).poll_score,
                desired_poll_interval: final(self).desired_poll_interval,
                ..*old(self)
            }),
            old(self).desired_poll_interval.in_limits(config.poll_limits)
                ==> final(self).desired_poll_interval.in_limits(config.poll_limits),
            flags.chi_over_jump ==> final(self).desired_poll_interval
                == config.poll_limits.min && final(self).poll_score == 0,
            ({
                let stepped = score_step(
                    old(self).precision_score as int,
                    flags.chi_below_precision_low && flags.weight_over_precision_min,
                    flags.chi_over_precision_high,
                );
                if stepped <= -algo_config.precision_hysteresis {
                    final(self).precision_score == 0 && action == WanderAction::Decrease
                } else if stepped >= algo_config.precision_hysteresis {
                    final(self).precision_score == 0 && action == WanderAction::Increase
                } else {
                    final(self).precision_score == stepped && action == WanderAction::Keep
                }
            }),
            ({
                let reference = old(self).desired_poll_interval.duration_ticks();
                let stepped = poll_score_stepped(
                    old(self).poll_score as int,
                    measurement_period@,
                    reference,
                    flags,
                );
                &&& final(self).desired_poll_interval == poll_interval_after(
                    old(self).desired_poll_interval,
                    stepped,
                    algo_config.poll_hysteresis as int,
                    flags.chi_over_jump,
                    config.poll_limits,
                )
                &&& final(self).poll_score == poll_score_after(
                    stepped,
                    algo_config.poll_hysteresis as int,
                    flags.chi_over_jump,
                )
            }),
    {
        let action = self.update_wander_estimate(algo_config, flags);
        self.update_desired_poll(config, algo_config, flags, measurement_period);
        action
    }

    /// An externally applied step of the reference clock: shift the
    /// retained measurement along with it so the next measurement period
    /// and offset difference stay consistent. The engine shifts the state
    /// vector's offset entry by the same amount.
    pub fn process_offset_steering(&mut self, steer: NtpDuration)
        requires
            old(self).wf(),
            -MAX_SAMPLE_TICKS <= old(self).last_measurement.offset@ - steer@
                <= MAX_SAMPLE_TICKS,
            0 <= old(self).last_measurement.localtime@ + steer@ <= u64::MAX,
        ensures
            final(self).wf(),
            *final(self) == (PeerFilter {
                last_measurement: final(self).last_measurement,
                ..*old(self)
            }),
            final(self).last_measurement == (Measurement {
                offset: NtpDuration {
                    ticks: (old(self).last_measurement.offset@ - steer@) as i64,
                },
                localtime: NtpTimestamp {
                    ticks: (old(self).last_measurement.localtime@ + steer@) as u64,
                },
                ..old(self).last_measurement
            }),
    {
        self.last_measurement.offset = self.last_measurement.offset.minus(&steer);
        self.last_measurement.localtime = self.last_measurement.localtime.offset_by(&steer);
    }

    /// An externally applied frequency correction: move the filter to the
    /// moment of the correction and shift the retained offset by the
    /// engine-computed accumulated effect of the removed drift. The engine
    /// shifts the state vector's frequency entry itself.
    pub fn process_frequency_steering(
        &mut self,
        time: NtpTimestamp,
        offset_adjustment: NtpDuration,
    ) -> (elapsed: Option<NtpDuration>)
        requires
            old(self).wf(),
            time@ - old(self).filter_time@ <= i64::MAX,
            -MAX_SAMPLE_TICKS <= old(self).last_measurement.offset@ - offset_adjustment@
                <= MAX_SAMPLE_TICKS,
        ensures
            final(self).wf(),
            final(self).last_measurement == (Measurement {
                offset: NtpDuration {
                    ticks: (old(self).last_measurement.offset@ - offset_adjustment@) as i64,
                },
                ..old(self).last_measurement
            }),
            time@ < old(self).filter_time@ ==> (elapsed is None)
                && final(self).filter_time == old(self).filter_time,
            time@ >= old(self).filter_time@ ==> final(self).filter_time == time
                && elapsed == Some(NtpDuration {
                    ticks: (time@ - old(self).filter_time@) as i64,
                }),
            *final(self) == (PeerFilter {
                last_measurement: final(self).last_measurement,
                filter_time: final(self).filter_time,
                ..*old(self)
            }),
    {
        let elapsed = self.progress_filtertime(time);
        self.last_measurement.offset = self.last_measurement.offset.minus(&offset_adjustment);
        elapsed
    }
}

/// Everything except the filter's clock is untouched.
pub open spec fn unchanged_but_filter_time(a: PeerFilter, b: PeerFilter) -> bool {
    b == PeerFilter { filter_time: b.filter_time, ..a }
}

/// However long the run of increment- or decrement-triggering
/// measurements, one adaptation step never moves the desired poll interval
/// out of the configured bounds; by induction the interval therefore stays
/// inside them forever once it is inside them.
pub proof fn lemma_poll_interval_stays_in_limits(
    p: PollInterval,
    stepped: int,
    hysteresis: int,
    jump: bool,
    limits: PollIntervalLimits,
)
    requires
        limits.wf(),
        p.in_limits(limits),
    ensures
        poll_interval_after(p, stepped, hysteresis, jump, limits).in_limits(limits),
{
}

/// A chi statistic at the jump threshold snaps the desired poll interval
/// to the configured minimum in that same step and resets the score,
/// whatever the current poll score was.
pub proof fn lemma_jump_snaps_poll_interval(
    p: PollInterval,
    stepped: int,
    hysteresis: int,
    limits: PollIntervalLimits,
)
    ensures
        poll_interval_after(p, stepped, hysteresis, true, limits) == limits.min,
        poll_score_after(stepped, hysteresis, true) == 0,
{
}

/// A rejection is never followed by another: discarding a measurement as
/// an outlier leaves the filter with the one-shot flag set, and a set flag
/// makes the very next measurement immune to the delay test, however
/// excessive its own delay.
pub proof fn lemma_outlier_rejection_is_one_shot(
    f: PeerFilter,
    first: Measurement,
    packet: PacketSnapshot,
    rejected: PeerFilter,
    second: Measurement,
    threshold: int,
)
    requires
        rejects_as_outlier(f, first, threshold),
        rejected == (PeerFilter {
            last_packet: packet,
            prev_was_outlier: true,
            last_iter: first.localtime,
            ..f
        }),
    ensures
        !rejects_as_outlier(rejected, second, threshold),
{
}

/// The flag never clears, so one rejection disarms the delay test for the
/// rest of the filter's life: any measurement offered to a filter whose
/// flag is set is never rejected as an outlier, however excessive its
/// delay.
pub proof fn lemma_set_flag_disarms_outlier_test(
    f: PeerFilter,
    m: Measurement,
    threshold: int,
)
    requires
        f.prev_was_outlier,
    ensures
        !rejects_as_outlier(f, m, threshold),
{
}

} // verus!
