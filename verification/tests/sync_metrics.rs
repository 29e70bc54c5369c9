use lumina_video::sync_metrics::{StallType, SyncMetrics, SyncQuality};
use lumina_video::time::Duration;

const NOW: u64 = 1_700_000_000_000_000;

#[test]
fn test_sync_metrics_basic() {
    let mut metrics = SyncMetrics::new();

    // Perfect sync
    metrics.record_frame(Duration::from_millis(1000), Duration::from_millis(1000), NOW);
    assert!(metrics.is_in_sync());

    let snap = metrics.snapshot(NOW);
    assert_eq!(snap.current_drift_us, 0);
    assert_eq!(snap.sample_count, 1);
}

#[test]
fn test_sync_metrics_drift() {
    let mut metrics = SyncMetrics::new();

    // Video 120ms ahead of audio
    metrics.record_frame(Duration::from_millis(1120), Duration::from_millis(1000), NOW);

    let snap = metrics.snapshot(NOW);
    assert_eq!(snap.current_drift_ms(), 120);
    assert_eq!(snap.max_drift_ahead_us, 120_000);
    assert!(!metrics.is_in_sync()); // 120ms > 100ms threshold
}

#[test]
fn test_sync_metrics_behind() {
    let mut metrics = SyncMetrics::new();

    // Video 50ms behind audio
    metrics.record_frame(Duration::from_millis(950), Duration::from_millis(1000), NOW);

    let snap = metrics.snapshot(NOW);
    assert_eq!(snap.current_drift_ms(), -50);
    assert_eq!(snap.max_drift_behind_us, -50_000);
    assert!(metrics.is_in_sync()); // 50ms < 100ms threshold
}

#[test]
fn test_sync_quality_rating() {
    let mut metrics = SyncMetrics::new();

    // Record frames with varying drift
    for i in 0..100 {
        let drift = if i % 10 == 0 { 120 } else { 20 }; // 10% at 120ms, 90% at 20ms
        metrics.record_frame(
            Duration::from_millis(1000 + drift),
            Duration::from_millis(1000),
            NOW,
        );
    }

    let snap = metrics.snapshot(NOW);
    assert_eq!(snap.sample_count, 100);
    // 10% were at 120ms (> 100ms threshold)
    assert_eq!(snap.out_of_sync_count, 10);
    let share = snap.out_of_sync_percentage();
    let percentage = (share.part as f64 / share.whole as f64) * 100.0;
    assert!((percentage - 10.0).abs() < 0.1);
}

#[test]
fn test_sync_test_pass_fail() {
    let mut metrics = SyncMetrics::new();

    // All frames in sync
    for _ in 0..100 {
        metrics.record_frame(Duration::from_millis(1010), Duration::from_millis(1000), NOW);
    }
    assert!(metrics.snapshot(NOW).passed_sync_test());

    // Reset and add severe drift
    metrics.reset(NOW);
    metrics.record_frame(Duration::from_millis(1250), Duration::from_millis(1000), NOW);
    assert!(!metrics.snapshot(NOW).passed_sync_test()); // 250ms > 200ms severe threshold
}

#[test]
fn a_twentieth_out_of_sync_fails_the_test() {
    let mut metrics = SyncMetrics::new();
    for i in 0..100 {
        let drift = if i < 5 { 120 } else { 0 };
        metrics.record_frame(Duration::from_millis(1000 + drift), Duration::from_millis(1000), NOW);
    }
    assert!(!metrics.snapshot(NOW).passed_sync_test());
    metrics.record_frame(Duration::from_millis(1000), Duration::from_millis(1000), NOW);
    assert!(metrics.snapshot(NOW).passed_sync_test());
}

#[test]
fn recovery_is_kept_apart_from_the_steady_state() {
    let mut metrics = SyncMetrics::new();
    metrics.record_frame(Duration::from_millis(1010), Duration::from_millis(1000), NOW);
    metrics.record_underrun(NOW);
    metrics.record_stall(StallType::Decode);
    metrics.record_stall(StallType::Network);
    metrics.start_recovery(NOW);
    metrics.start_recovery(NOW + 5);
    metrics.record_frame(Duration::from_millis(1110), Duration::from_millis(1000), NOW);
    metrics.end_recovery(NOW + 1_000);
    metrics.end_recovery(NOW + 9_000);

    let snap = metrics.snapshot(NOW + 2_000);
    assert_eq!(snap.underrun_count, 1);
    assert_eq!((snap.stall_count, snap.decode_stall_count, snap.network_stall_count), (2, 1, 1));
    assert_eq!(snap.recovery_samples, 1);
    assert_eq!(snap.recovery_avg_drift_us, 110_000);
    assert_eq!(snap.recovery_count, 1);
    assert_eq!(snap.total_recovery_time_us, 1_000);
    assert_eq!(snap.time_since_last_underrun_us, 2_000);
    assert_eq!(snap.steady_samples, 1);
    assert_eq!(snap.steady_avg_drift_us, 10_000);
    assert_eq!(snap.steady_out_of_sync_count, 0);
    assert_eq!(snap.avg_drift_us, 60_000);
    assert!(!snap.in_recovery);
}

#[test]
fn grace_period_hides_spikes() {
    let mut metrics = SyncMetrics::new();
    metrics.set_grace_period(2);
    for _ in 0..2 {
        metrics.record_frame(Duration::from_millis(5000), Duration::from_millis(1000), NOW);
    }
    assert_eq!(metrics.current_drift_us(), 0);
    assert_eq!(metrics.snapshot(NOW).max_drift_ms(), 0);
    let ahead =
        metrics.record_frame(Duration::from_millis(1050), Duration::from_millis(1000), NOW);
    assert_eq!(ahead, Duration::from_millis(50));
    assert_eq!(metrics.current_drift_us(), 50_000);
}

#[test]
fn frame_rate_is_measured_over_half_a_second() {
    let mut metrics = SyncMetrics::new();
    for i in 0..=13u64 {
        metrics.update_fps_tracking(NOW + i * 40_000);
    }
    // The window closes at 520 ms with fourteen frames in it.
    assert_eq!(metrics.current_fps_x100(), 1_400_000_000 / 520_000);
}

#[test]
fn disabled_tracker_counts_nothing() {
    let mut metrics = SyncMetrics::new();
    metrics.set_enabled(false);
    let ahead =
        metrics.record_frame(Duration::from_millis(5000), Duration::from_millis(1000), NOW);
    metrics.record_underrun(NOW);
    metrics.record_stall(StallType::Decode);
    metrics.start_recovery(NOW);
    assert_eq!(ahead, Duration::zero());
    assert!(!metrics.is_enabled());
    assert_eq!(metrics.snapshot(NOW).sample_count, 0);
    assert_eq!(metrics.underrun_count(), 0);
    assert_eq!(metrics.stall_count(), 0);
    assert!(!metrics.is_in_recovery());
}

#[test]
fn reset_keeps_what_is_set_from_outside() {
    let mut metrics = SyncMetrics::new();
    metrics.set_using_audio_clock(true);
    metrics.set_stream_pts_offset(-7);
    metrics.set_sync_externally_managed(true);
    metrics.record_frame(Duration::from_millis(900), Duration::from_millis(1000), NOW);
    metrics.reset(NOW);
    assert!(metrics.using_audio_clock);
    assert_eq!(metrics.stream_pts_offset_us(), -7);
    assert!(!metrics.is_sync_externally_managed());
    assert_eq!(metrics.start_time_us, NOW);
    assert_eq!(metrics.snapshot(NOW).sample_count, 0);
}

#[test]
fn quality_follows_the_largest_drift() {
    let expected = [
        (99, SyncQuality::Excellent),
        (100, SyncQuality::Good),
        (150, SyncQuality::Fair),
        (200, SyncQuality::Poor),
    ];
    for (drift, quality) in expected {
        let mut metrics = SyncMetrics::new();
        metrics.record_frame(Duration::from_millis(1000), Duration::from_millis(1000 + drift), NOW);
        let summary = metrics.snapshot(NOW).quality_summary();
        assert_eq!(summary.quality, quality);
        assert_eq!(summary.max_drift_ms, drift as i64);
        assert_eq!(summary.avg_drift_ms, drift as i64);
    }
}

#[test]
fn figures_are_put_into_words() {
    let mut metrics = SyncMetrics::new();
    metrics.record_frame(Duration::from_millis(1120), Duration::from_millis(1000), NOW);
    metrics.record_frame(Duration::from_millis(1000), Duration::from_millis(1050), NOW);
    let line = metrics.log_status(NOW);
    assert!(line.starts_with("A/V Sync: current=-50ms, max_ahead=+120ms, max_behind=-50ms, avg="));
    assert!(line.ends_with("ms, samples=2, out_of_sync=1, audio_clock=false"));
    let snapshot = metrics.snapshot(NOW);
    assert_eq!(
        snapshot.text("50.0"),
        "A/V Sync: drift=-50ms (max ahead=+120ms, behind=-50ms), 2 samples, 50.0% out of sync"
    );
    assert_eq!(SyncQuality::Excellent.text(), "Excellent");
    assert_eq!(SyncQuality::Poor.text(), "Poor");
    let summary = snapshot.quality_summary();
    let text = summary.text("50.0");
    assert!(text.starts_with(summary.quality.text()));
    assert!(text.contains(" (max drift: +120ms, steady-state avg: "));
    assert!(text.ends_with("ms, 50.0% out of sync)"));
}

#[test]
fn a_drift_just_above_the_threshold_is_out_of_sync() {
    let mut metrics = SyncMetrics::new();
    let audio = Duration::from_micros(1_000_000);
    let ahead = metrics.record_frame(Duration::from_micros(1_100_500), audio, NOW);
    assert_eq!(ahead, Duration::from_micros(100_500));
    assert!(!metrics.is_in_sync());
    assert_eq!(metrics.snapshot(NOW).out_of_sync_count, 1);
    metrics.record_frame(Duration::from_micros(1_100_000), audio, NOW);
    assert!(metrics.is_in_sync());
    assert_eq!(metrics.snapshot(NOW).out_of_sync_count, 1);
    metrics.record_frame(Duration::from_micros(899_999), audio, NOW);
    assert_eq!(metrics.snapshot(NOW).out_of_sync_count, 2);
}

#[test]
fn a_snapshot_sums_up_the_frames_of_a_run() {
    let mut metrics = SyncMetrics::new();
    let audio = Duration::from_micros(1_000_000);
    let mut frame = |metrics: &mut SyncMetrics, pts: u64| {
        metrics.record_frame(Duration::from_micros(pts), audio, NOW);
    };
    frame(&mut metrics, 1_000_010);
    frame(&mut metrics, 999_985);
    metrics.start_recovery(NOW);
    frame(&mut metrics, 1_200_000);
    frame(&mut metrics, 1_000_001);
    metrics.end_recovery(NOW + 5);
    frame(&mut metrics, 1_150_000);
    let snap = metrics.snapshot(NOW + 5);
    assert_eq!((snap.sample_count, snap.recovery_samples, snap.steady_samples), (5, 2, 3));
    assert_eq!(snap.avg_drift_us, (10 + 15 + 200_000 + 1 + 150_000) / 5);
    assert_eq!(snap.recovery_avg_drift_us, 200_001 / 2);
    assert_eq!(snap.steady_avg_drift_us, 150_025 / 3);
    assert_eq!((snap.out_of_sync_count, snap.steady_out_of_sync_count), (2, 1));
}
