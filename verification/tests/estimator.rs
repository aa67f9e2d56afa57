//! End-to-end tests of the per-peer estimator core: window statistics,
//! lifecycle, outlier handling, poll adaptation and steering.

use ntp_peer::bootstrap::InitialPeerFilter;
use ntp_peer::config::{AlgorithmConfig, SystemConfig};
use ntp_peer::filter::{AdaptFlags, PeerFilter, WanderAction};
use ntp_peer::measurement::{LeapIndicator, Measurement, PacketSnapshot};
use ntp_peer::peer::{PeerState, PeerStateInner, PeerUpdate};
use ntp_peer::poll::{PollInterval, PollIntervalLimits};
use ntp_peer::stats::StatBuffer;
use ntp_peer::time::{NtpDuration, NtpTimestamp};

const TICK_SCALE: i64 = 0x1_0000_0000;

fn limits() -> PollIntervalLimits {
    PollIntervalLimits {
        min: PollInterval::from_exponent(4),
        max: PollInterval::from_exponent(10),
    }
}

fn system_config() -> SystemConfig {
    SystemConfig {
        initial_poll: PollInterval::from_exponent(4),
        poll_limits: limits(),
    }
}

fn algo_config() -> AlgorithmConfig {
    AlgorithmConfig {
        delay_outlier_threshold: 2 * TICK_SCALE,
        poll_hysteresis: 2,
        precision_hysteresis: 2,
    }
}

fn packet() -> PacketSnapshot {
    PacketSnapshot {
        leap: LeapIndicator::NoWarning,
        root_delay: NtpDuration::from_ticks(11),
        root_dispersion: NtpDuration::from_ticks(22),
    }
}

fn measurement(delay: i64, offset: i64, localtime: u64) -> Measurement {
    Measurement {
        delay: NtpDuration::from_ticks(delay),
        offset: NtpDuration::from_ticks(offset),
        localtime: NtpTimestamp::from_ticks(localtime),
        monotime: 0,
    }
}

/// Four zeros and four eights: mean 4, spread 128, variance 128/7 = 18.
fn split_window() -> StatBuffer {
    StatBuffer {
        data: [0, 0, 0, 0, 8, 8, 8, 8],
        next_idx: 0,
    }
}

fn steady_filter() -> PeerFilter {
    PeerFilter {
        rtt_stats: split_window(),
        precision_score: 0,
        poll_score: 0,
        desired_poll_interval: PollInterval::from_exponent(4),
        last_measurement: measurement(0, 0, 1000),
        last_packet: packet(),
        prev_was_outlier: false,
        last_iter: NtpTimestamp::from_ticks(1000),
        filter_time: NtpTimestamp::from_ticks(1000),
    }
}

fn steady_peer() -> PeerState {
    PeerState(PeerStateInner::Stable(steady_filter()))
}

fn steady_of(peer: &PeerState) -> &PeerFilter {
    match &peer.0 {
        PeerStateInner::Stable(f) => f,
        PeerStateInner::Initial(_) => panic!("peer is still bootstrapping"),
    }
}

fn bootstrap_of(peer: &PeerState) -> &InitialPeerFilter {
    match &peer.0 {
        PeerStateInner::Initial(f) => f,
        PeerStateInner::Stable(_) => panic!("peer is already steady"),
    }
}

#[test]
fn mean_and_var_of_identical_samples() {
    let buf = StatBuffer {
        data: [42; 8],
        next_idx: 3,
    };
    assert_eq!(buf.mean(), 42);
    assert_eq!(buf.var(), 0);
}

#[test]
fn mean_of_two_valued_window_is_midpoint() {
    let buf = StatBuffer {
        data: [10, 10, 10, 10, 20, 20, 20, 20],
        next_idx: 0,
    };
    assert_eq!(buf.mean(), 15);
    let buf2 = split_window();
    assert_eq!(buf2.mean(), 4);
    assert_eq!(buf2.var(), 18);
}

#[test]
fn mean_rounds_towards_minus_infinity() {
    let buf = StatBuffer {
        data: [-1, 0, 0, 0, 0, 0, 0, 0],
        next_idx: 0,
    };
    assert_eq!(buf.mean(), -1);
}

#[test]
fn ring_buffer_overwrites_oldest_first() {
    let mut buf = StatBuffer::empty();
    for k in 1..=9i64 {
        buf.update(k);
    }
    assert_eq!(buf.data, [9, 2, 3, 4, 5, 6, 7, 8]);
    assert_eq!(buf.next_idx, 1);
}

#[test]
fn delay_outlier_test_uses_mean_and_deviation() {
    let buf = split_window();
    // mean 4, variance 18, integer standard deviation 4, threshold 2:
    // outliers start strictly above 4 + 2 * 4 = 12
    assert!(buf.delay_exceeds(13, 2 * TICK_SCALE));
    assert!(!buf.delay_exceeds(12, 2 * TICK_SCALE));
}

#[test]
fn bootstrap_promotes_exactly_at_the_eighth_update() {
    let cfg = system_config();
    let algo = algo_config();
    let mut peer = PeerState::new();
    assert!(peer.snapshot(0u32).is_none());
    assert!(peer.get_filtertime().is_none());
    for k in 0..7u64 {
        let r = peer.update(&cfg, &algo, measurement(100, 50, 1000 + k), packet());
        assert!(matches!(r, PeerUpdate::BootstrapSample));
        assert!(peer.snapshot(0u32).is_none());
        let boot = bootstrap_of(&peer);
        assert_eq!(boot.rtt_stats.next_idx, (k as usize + 1) % 8);
        assert_eq!(boot.init_offset.next_idx, (k as usize + 1) % 8);
    }
    let r = peer.update(&cfg, &algo, measurement(100, 50, 2000), packet());
    match r {
        PeerUpdate::BootstrapComplete(seed) => {
            // eight equal offsets: the prior is their value with no spread
            assert_eq!(seed.offset_mean.ticks(), 50);
            assert_eq!(seed.offset_variance, 0);
        }
        _ => panic!("the eighth sample must complete the bootstrap"),
    }
    let snap = peer.snapshot(9u32).expect("steady state must produce a snapshot");
    assert_eq!(snap.index, 9);
    assert_eq!(snap.delay, 100);
    assert_eq!(snap.peer_uncertainty.ticks(), 22);
    assert_eq!(snap.peer_delay.ticks(), 11);
    assert_eq!(snap.leap_indicator, LeapIndicator::NoWarning);
    assert_eq!(snap.last_update.ticks(), 2000);
    assert_eq!(peer.get_filtertime().map(|t| t.ticks()), Some(2000));
    assert_eq!(peer.get_desired_poll(&limits()).exponent, 4);
}

#[test]
fn stale_measurement_is_dropped_silently() {
    let cfg = system_config();
    let algo = algo_config();
    let mut peer = steady_peer();
    let r = peer.update(&cfg, &algo, measurement(0, 0, 999), packet());
    assert!(matches!(r, PeerUpdate::Stale));
    let f = steady_of(&peer);
    assert_eq!(f.filter_time.ticks(), 1000);
    assert_eq!(f.rtt_stats.data, split_window().data);
    assert!(!f.prev_was_outlier);
}

#[test]
fn excessive_delay_is_rejected_once_then_accepted() {
    let cfg = system_config();
    let algo = algo_config();
    let mut peer = steady_peer();
    // delay 13 lies above mean 4 plus 2 standard deviations of 4
    let r1 = peer.update(&cfg, &algo, measurement(13, 0, 2000), packet());
    assert!(matches!(r1, PeerUpdate::Outlier));
    {
        let f = steady_of(&peer);
        // only the flag, the iteration time and the packet moved
        assert!(f.prev_was_outlier);
        assert_eq!(f.last_iter.ticks(), 2000);
        assert_eq!(f.filter_time.ticks(), 1000);
        assert_eq!(f.rtt_stats.data, split_window().data);
        assert_eq!(f.last_measurement.offset.ticks(), 0);
    }
    // the immediately following, equally excessive delay is accepted
    let r2 = peer.update(&cfg, &algo, measurement(13, 7, 3000), packet());
    match r2 {
        PeerUpdate::Absorb(step) => {
            assert_eq!(step.time_step.ticks(), 2000);
            assert_eq!(step.measurement_period.ticks(), 2000);
            assert_eq!(step.offset.ticks(), 7);
            assert_eq!(step.offset_diff.ticks(), 7);
            // window is now [13,0,0,0,8,8,8,8]: mean 5, spread 175
            assert_eq!(step.delay_variance, 25);
        }
        _ => panic!("the measurement after a rejection must be absorbed"),
    }
    let f = steady_of(&peer);
    assert_eq!(f.filter_time.ticks(), 3000);
    assert_eq!(f.rtt_stats.data, [13, 0, 0, 0, 8, 8, 8, 8]);
    assert_eq!(f.last_measurement.localtime.ticks(), 3000);
}

#[test]
fn poll_interval_stays_inside_limits_forever() {
    let cfg = system_config();
    let algo = algo_config();
    let lim = limits();
    let mut peer = steady_peer();
    let lengthen = AdaptFlags {
        chi_over_jump: false,
        weight_below_low: true,
        weight_above_high: false,
        chi_below_precision_low: false,
        chi_over_precision_high: false,
        weight_over_precision_min: false,
    };
    // a long period keeps the ratio above three quarters at every notch
    let long_period = NtpDuration::from_ticks(1 << (10 + 32));
    for _ in 0..100 {
        peer.adapt(&cfg, &algo, lengthen, long_period);
        let p = peer.get_desired_poll(&lim).exponent;
        assert!(lim.min.exponent <= p && p <= lim.max.exponent);
    }
    assert_eq!(peer.get_desired_poll(&lim).exponent, lim.max.exponent);
    let shorten = AdaptFlags {
        weight_below_low: false,
        weight_above_high: true,
        ..lengthen
    };
    // a short period keeps the ratio under seven fifths at every notch
    let short_period = NtpDuration::from_ticks(1 << (4 + 32));
    for _ in 0..100 {
        peer.adapt(&cfg, &algo, shorten, short_period);
        let p = peer.get_desired_poll(&lim).exponent;
        assert!(lim.min.exponent <= p && p <= lim.max.exponent);
    }
    assert_eq!(peer.get_desired_poll(&lim).exponent, lim.min.exponent);
}

#[test]
fn jump_chi_snaps_poll_interval_to_minimum() {
    let cfg = system_config();
    let algo = algo_config();
    let lim = limits();
    let mut filter = steady_filter();
    filter.desired_poll_interval = PollInterval::from_exponent(9);
    filter.poll_score = 1;
    let mut peer = PeerState(PeerStateInner::Stable(filter));
    let flags = AdaptFlags {
        chi_over_jump: true,
        weight_below_low: false,
        weight_above_high: true,
        chi_below_precision_low: false,
        chi_over_precision_high: false,
        weight_over_precision_min: false,
    };
    peer.adapt(&cfg, &algo, flags, NtpDuration::from_ticks(1));
    assert_eq!(peer.get_desired_poll(&lim).exponent, lim.min.exponent);
    assert_eq!(steady_of(&peer).poll_score, 0);
}

#[test]
fn wander_scores_hit_hysteresis_and_reset() {
    let cfg = system_config();
    let algo = algo_config();
    let mut peer = steady_peer();
    let quiet = AdaptFlags {
        chi_over_jump: false,
        weight_below_low: false,
        weight_above_high: false,
        chi_below_precision_low: true,
        chi_over_precision_high: false,
        weight_over_precision_min: true,
    };
    let period = NtpDuration::from_ticks(1);
    assert_eq!(peer.adapt(&cfg, &algo, quiet, period), WanderAction::Keep);
    assert_eq!(steady_of(&peer).precision_score, -1);
    assert_eq!(peer.adapt(&cfg, &algo, quiet, period), WanderAction::Decrease);
    assert_eq!(steady_of(&peer).precision_score, 0);
    let noisy = AdaptFlags {
        chi_below_precision_low: false,
        chi_over_precision_high: true,
        ..quiet
    };
    assert_eq!(peer.adapt(&cfg, &algo, noisy, period), WanderAction::Keep);
    assert_eq!(peer.adapt(&cfg, &algo, noisy, period), WanderAction::Increase);
    assert_eq!(steady_of(&peer).precision_score, 0);
}

#[test]
fn score_decays_towards_zero_without_a_trigger() {
    let cfg = system_config();
    let algo = AlgorithmConfig {
        poll_hysteresis: 10,
        ..algo_config()
    };
    let mut filter = steady_filter();
    filter.poll_score = 3;
    let mut peer = PeerState(PeerStateInner::Stable(filter));
    let idle = AdaptFlags {
        chi_over_jump: false,
        weight_below_low: false,
        weight_above_high: false,
        chi_below_precision_low: false,
        chi_over_precision_high: false,
        weight_over_precision_min: false,
    };
    peer.adapt(&cfg, &algo, idle, NtpDuration::from_ticks(1));
    assert_eq!(steady_of(&peer).poll_score, 2);
    peer.adapt(&cfg, &algo, idle, NtpDuration::from_ticks(1));
    assert_eq!(steady_of(&peer).poll_score, 1);
}

#[test]
fn frequency_steering_is_a_no_op_in_bootstrap() {
    let cfg = system_config();
    let algo = algo_config();
    let mut peer = PeerState::new();
    peer.update(&cfg, &algo, measurement(1, 2, 10), packet());
    peer.update(&cfg, &algo, measurement(1, 2, 20), packet());
    let elapsed = peer.process_frequency_steering(
        NtpTimestamp::from_ticks(5000),
        NtpDuration::from_ticks(3),
    );
    assert!(elapsed.is_none());
    let boot = bootstrap_of(&peer);
    assert_eq!(boot.samples, 2);
    assert_eq!(boot.init_offset.data, [2, 2, 0, 0, 0, 0, 0, 0]);
    assert!(peer.get_filtertime().is_none());
}

#[test]
fn frequency_steering_progresses_and_shifts_offset() {
    let mut peer = steady_peer();
    let elapsed = peer.process_frequency_steering(
        NtpTimestamp::from_ticks(4000),
        NtpDuration::from_ticks(30),
    );
    assert_eq!(elapsed.map(|d| d.ticks()), Some(3000));
    let f = steady_of(&peer);
    assert_eq!(f.filter_time.ticks(), 4000);
    assert_eq!(f.last_measurement.offset.ticks(), -30);
}

#[test]
fn offset_steering_shifts_bootstrap_history() {
    let cfg = system_config();
    let algo = algo_config();
    let mut peer = PeerState::new();
    peer.update(&cfg, &algo, measurement(1, 50, 10), packet());
    peer.update(&cfg, &algo, measurement(1, 50, 20), packet());
    peer.process_offset_steering(NtpDuration::from_ticks(10));
    let boot = bootstrap_of(&peer);
    assert_eq!(boot.init_offset.data, [40, 40, -10, -10, -10, -10, -10, -10]);
    assert_eq!(boot.init_offset.next_idx, 2);
    assert_eq!(boot.rtt_stats.data, [1, 1, 0, 0, 0, 0, 0, 0]);
    assert_eq!(boot.samples, 2);
}

#[test]
fn offset_steering_shifts_retained_measurement() {
    let mut filter = steady_filter();
    filter.last_measurement = measurement(0, 100, 1000);
    let mut peer = PeerState(PeerStateInner::Stable(filter));
    peer.process_offset_steering(NtpDuration::from_ticks(30));
    let f = steady_of(&peer);
    assert_eq!(f.last_measurement.offset.ticks(), 70);
    assert_eq!(f.last_measurement.localtime.ticks(), 1030);
    assert_eq!(f.filter_time.ticks(), 1000);
}

#[test]
fn progress_filtertime_never_moves_backwards() {
    let mut peer = steady_peer();
    let back = peer.progress_filtertime(NtpTimestamp::from_ticks(500));
    assert!(back.is_none());
    assert_eq!(peer.get_filtertime().map(|t| t.ticks()), Some(1000));
    let forth = peer.progress_filtertime(NtpTimestamp::from_ticks(2500));
    assert_eq!(forth.map(|d| d.ticks()), Some(1500));
    assert_eq!(peer.get_filtertime().map(|t| t.ticks()), Some(2500));
}

#[test]
fn desired_poll_is_the_minimum_while_bootstrapping() {
    let peer = PeerState::new();
    let lim = limits();
    assert_eq!(peer.get_desired_poll(&lim).exponent, lim.min.exponent);
}

#[test]
fn poll_interval_steps_are_clamped() {
    let lim = limits();
    let top = PollInterval::from_exponent(10);
    assert_eq!(top.inc(lim).exponent, 10);
    assert_eq!(top.dec(lim).exponent, 9);
    let bottom = PollInterval::from_exponent(4);
    assert_eq!(bottom.dec(lim).exponent, 4);
    assert_eq!(bottom.inc(lim).exponent, 5);
    assert_eq!(PollInterval::from_exponent(0).as_duration().ticks(), 1i64 << 32);
}

#[test]
fn fixed_point_time_arithmetic_is_exact() {
    let a = NtpTimestamp::from_ticks(5000);
    let b = NtpTimestamp::from_ticks(1500);
    assert_eq!(a.elapsed_since(&b).ticks(), 3500);
    assert_eq!(b.elapsed_since(&a).ticks(), -3500);
    assert!(b.is_before(&a));
    assert!(!a.is_before(&b));
    assert_eq!(a.offset_by(&NtpDuration::from_ticks(-600)).ticks(), 4400);
    let d = NtpDuration::from_ticks(70);
    assert_eq!(d.plus(&NtpDuration::from_ticks(5)).ticks(), 75);
    assert_eq!(d.minus(&NtpDuration::from_ticks(100)).ticks(), -30);
}
