use audiobookshelf_discord_rpc::tracker::{
    bridged_position, clamp_offset, elapsed_ms, Inference, Sample, Tracker, QUIET_INTERVAL_MS,
    RATE_DENOMINATOR, RATE_NUMERATOR,
};

const HOUR_MS: u64 = 3_600_000;

#[test]
fn first_observation_reports_not_playing_and_records_the_sample() {
    let mut t = Tracker::new(0);
    let r = t.observe("Dune", 10_000, HOUR_MS, 1_000);
    assert_eq!(r, Inference { is_playing: false, position_ms: 10_000 });
    assert_eq!(t.timing.last, Some(Sample { offset_ms: 10_000, at_ms: 1_000 }));
    assert!(!t.playback.is_playing);
    assert_eq!(t.book.map(|b| b.name), Some("Dune".to_string()));
}

#[test]
fn changed_offset_reports_playing_at_the_raw_offset() {
    let mut t = Tracker::new(0);
    t.observe("Dune", 10_000, HOUR_MS, 1_000);
    let r = t.observe("Dune", 25_000, HOUR_MS, 16_000);
    assert_eq!(r, Inference { is_playing: true, position_ms: 25_000 });
    assert!(t.playback.is_playing);
    assert_eq!(t.playback.last_change_ms, 16_000);
}

#[test]
fn offset_moving_backwards_counts_as_a_change() {
    let mut t = Tracker::new(0);
    t.observe("Dune", 25_000, HOUR_MS, 1_000);
    let r = t.observe("Dune", 5_000, HOUR_MS, 16_000);
    assert_eq!(r, Inference { is_playing: true, position_ms: 5_000 });
}

#[test]
fn unchanged_offset_after_quiet_interval_reports_paused() {
    let mut t = Tracker::new(0);
    t.observe("Dune", 10_000, HOUR_MS, 1_000);
    t.observe("Dune", 25_000, HOUR_MS, 16_000);
    let r = t.observe("Dune", 25_000, HOUR_MS, 31_000);
    assert_eq!(r, Inference { is_playing: false, position_ms: 25_000 });
    assert!(!t.playback.is_playing);
    assert_eq!(t.timing.last, Some(Sample { offset_ms: 25_000, at_ms: 31_000 }));
}

#[test]
fn quiet_interval_is_two_seconds_inclusive() {
    assert_eq!(QUIET_INTERVAL_MS, 2_000);
    let mut t = Tracker::new(0);
    t.observe("Dune", 10_000, HOUR_MS, 1_000);
    t.observe("Dune", 25_000, HOUR_MS, 16_000);
    let just_under = t.observe("Dune", 25_000, HOUR_MS, 17_999);
    assert!(just_under.is_playing);
    let exactly = t.observe("Dune", 25_000, HOUR_MS, 19_999);
    assert!(!exactly.is_playing);
}

#[test]
fn unchanged_offset_within_quiet_interval_bridges_at_four_fifths() {
    assert_eq!((RATE_NUMERATOR, RATE_DENOMINATOR), (4, 5));
    let mut t = Tracker::new(0);
    t.observe("Dune", 10_000, HOUR_MS, 1_000);
    t.observe("Dune", 25_000, HOUR_MS, 16_000);
    let r = t.observe("Dune", 25_000, HOUR_MS, 17_000);
    assert_eq!(r, Inference { is_playing: true, position_ms: 25_800 });
    // The gap is measured from the last change, not from the last sample.
    let r = t.observe("Dune", 25_000, HOUR_MS, 17_500);
    assert_eq!(r, Inference { is_playing: true, position_ms: 26_200 });
    assert_eq!(t.playback.last_change_ms, 16_000);
}

#[test]
fn unchanged_offset_within_quiet_interval_stays_paused_when_paused() {
    let mut t = Tracker::new(0);
    t.observe("Dune", 10_000, HOUR_MS, 1_000);
    let r = t.observe("Dune", 10_000, HOUR_MS, 1_500);
    assert_eq!(r, Inference { is_playing: false, position_ms: 10_000 });
}

#[test]
fn bridged_position_rounds_down_and_is_clamped() {
    assert_eq!(bridged_position(25_000, 1_001, HOUR_MS), 25_800);
    assert_eq!(bridged_position(25_000, 4, HOUR_MS), 25_003);
    assert_eq!(bridged_position(25_000, 10_000, 30_000), 30_000);
    assert_eq!(bridged_position(-10_000, 5_000, HOUR_MS), 0);
    assert_eq!(bridged_position(i64::MAX, u64::MAX, u64::MAX), u64::MAX);
    assert_eq!(bridged_position(0, u64::MAX, u64::MAX), 14_757_395_258_967_641_292);
}

#[test]
fn position_is_clamped_to_the_duration() {
    assert_eq!(clamp_offset(700_000, 600_000), 600_000);
    assert_eq!(clamp_offset(-5, 600_000), 0);
    assert_eq!(clamp_offset(600_000, 600_000), 600_000);
    assert_eq!(clamp_offset(1, 0), 0);
    let mut t = Tracker::new(0);
    let r = t.observe("Dune", 700_000, 600_000, 1_000);
    assert_eq!(r.position_ms, 600_000);
    let r = t.observe("Dune", -1, 600_000, 16_000);
    assert_eq!(r, Inference { is_playing: true, position_ms: 0 });
}

#[test]
fn clock_going_backwards_counts_as_no_time_passed() {
    assert_eq!(elapsed_ms(5_000, 4_000), 0);
    assert_eq!(elapsed_ms(4_000, 5_000), 1_000);
    let mut t = Tracker::new(0);
    t.observe("Dune", 10_000, HOUR_MS, 50_000);
    t.observe("Dune", 25_000, HOUR_MS, 65_000);
    let r = t.observe("Dune", 25_000, HOUR_MS, 20_000);
    assert_eq!(r, Inference { is_playing: true, position_ms: 25_000 });
}

#[test]
fn switching_title_resets_timing_and_reports_not_playing() {
    let mut t = Tracker::new(0);
    t.observe("Dune", 10_000, HOUR_MS, 1_000);
    let playing = t.observe("Dune", 25_000, HOUR_MS, 16_000);
    assert!(playing.is_playing);
    assert!(t.switches_to("Emma"));
    assert!(!t.switches_to("Dune"));
    let r = t.observe("Emma", 99_000, HOUR_MS, 31_000);
    assert_eq!(r, Inference { is_playing: false, position_ms: 99_000 });
    assert_eq!(t.book.as_ref().map(|b| b.name.as_str()), Some("Emma"));
    assert_eq!(t.timing.last, Some(Sample { offset_ms: 99_000, at_ms: 31_000 }));
    assert_eq!(t.playback.last_change_ms, 31_000);
    // The sample after the switch is measured against the new book only.
    let r = t.observe("Emma", 114_000, HOUR_MS, 46_000);
    assert_eq!(r, Inference { is_playing: true, position_ms: 114_000 });
}

#[test]
fn reset_leaves_timing_unset() {
    let mut t = Tracker::new(0);
    t.observe("Dune", 10_000, HOUR_MS, 1_000);
    t.observe("Dune", 25_000, HOUR_MS, 16_000);
    t.reset("Emma", 20_000);
    assert_eq!(t.timing.last, None);
    assert!(!t.playback.is_playing);
    let r = t.infer(30_000, HOUR_MS, 21_000);
    assert!(!r.is_playing);
}

#[test]
fn identical_offsets_spaced_apart_settle_on_not_playing() {
    let mut t = Tracker::new(0);
    t.observe("Dune", 10_000, HOUR_MS, 0);
    t.observe("Dune", 40_000, HOUR_MS, 15_000);
    let mut now = 15_000;
    for _ in 0..6 {
        now += 2_000;
        let r = t.observe("Dune", 40_000, HOUR_MS, now);
        assert_eq!(r, Inference { is_playing: false, position_ms: 40_000 });
    }
}

#[test]
fn increasing_offsets_play_with_positions_that_never_decrease() {
    let duration = 100_000;
    let mut t = Tracker::new(0);
    let first = t.observe("Dune", 10_000, duration, 0);
    assert!(!first.is_playing);
    let mut last = first.position_ms;
    let offsets = [25_000, 40_000, 40_001, 99_999, 100_000, 130_000, 145_000];
    let mut now = 0;
    for raw in offsets {
        now += 15_000;
        let r = t.observe("Dune", raw, duration, now);
        assert!(r.is_playing);
        assert!(r.position_ms >= last);
        assert!(r.position_ms <= duration);
        assert_eq!(r.position_ms, (raw as u64).min(duration));
        last = r.position_ms;
    }
}
