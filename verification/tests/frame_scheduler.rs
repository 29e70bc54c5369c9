use lumina_video::audio::AudioHandle;
use lumina_video::frame_queue::{FrameQueue, PopOutcome, PushOutcome};
use lumina_video::frame_scheduler::{
    DriftEstimate, FrameScheduler, MAX_VIDEO_PTS_BIAS_US, RejectHandlingState,
};
use lumina_video::scheduler_timing::drift_step_us;
use lumina_video::time::{ClockReading, Duration, Instant};
use lumina_video::video::VideoFrame;

struct FakeClock {
    now: Instant,
}

impl FakeClock {
    fn new() -> Self {
        FakeClock { now: Instant::from_nanos(1_000_000_000_000) }
    }

    fn advance(&mut self, duration: Duration) {
        self.now = self.now.after(duration);
    }

    fn read(&self) -> ClockReading {
        ClockReading { now: self.now, unix_us: 1_700_000_000_000_000 }
    }

    fn ago(&self, duration: Duration) -> Instant {
        Instant::from_nanos(self.now.nanos - duration.nanos)
    }
}

/// The drift filter: an exponential average, and a slew in proportion to it.
fn estimate(s: &FrameScheduler, now: Instant) -> DriftEstimate {
    let inputs = s.drift_inputs(now);
    let smoothed = f64::from_bits(inputs.smoothed_bits) * 0.7 + inputs.raw_drift_us as f64 * 0.3;
    let drift_us = smoothed as i64;
    let rate = (-(drift_us as f64) * 0.1).clamp(-10_000.0, 10_000.0);
    DriftEstimate {
        smoothed_bits: smoothed.to_bits(),
        drift_us,
        delta_us: (rate * (inputs.interval.nanos as f64 / 1e9)) as i64,
    }
}

fn next(s: &mut FrameScheduler, queue: &mut FrameQueue, clock: &FakeClock) -> Option<VideoFrame> {
    let e = estimate(s, clock.now);
    s.get_next_frame(queue, clock.read(), e)
}

fn make_test_frame(pts: Duration) -> VideoFrame {
    VideoFrame::new(pts, 10, 10, pts.nanos as u64)
}

fn push(queue: &mut FrameQueue, pts: Duration) -> bool {
    queue.push(make_test_frame(pts)) == PushOutcome::Accepted
}

/// Bind an AudioHandle with a specific position for drift controller tests.
fn bind_test_audio_metrics_only(s: &mut FrameScheduler, pos: Duration) {
    let mut h = AudioHandle::new();
    h.set_available(true);
    h.set_audio_format(48_000, 2);
    h.set_audio_base_pts(Duration::zero());
    h.enable_playback_epoch(1);
    let samples = ((pos.nanos as f64 / 1e9 * 48_000.0) * 2.0) as u64;
    h.add_samples_played(samples);
    s.set_audio_handle_metrics_only(h);
}

#[test]
fn test_frame_queue_push_pop() {
    let mut queue = FrameQueue::new(3);

    push(&mut queue, Duration::from_millis(0));
    push(&mut queue, Duration::from_millis(33));
    push(&mut queue, Duration::from_millis(66));

    assert_eq!(queue.len(), 3);
    assert!(queue.is_full());

    let Some(frame) = queue.pop() else {
        panic!("Expected frame from queue");
    };
    assert_eq!(frame.pts, Duration::from_millis(0));

    assert_eq!(queue.len(), 2);
    assert!(!queue.is_full());
}

#[test]
fn test_frame_queue_flush() {
    let mut queue = FrameQueue::new(5);

    push(&mut queue, Duration::from_millis(0));
    push(&mut queue, Duration::from_millis(33));

    assert_eq!(queue.len(), 2);

    queue.flush();

    assert!(queue.is_empty());
    assert!(!queue.is_eos());
}

#[test]
fn live_queue_drops_oldest_frame_without_exceeding_capacity() {
    let mut queue = FrameQueue::new(2);
    assert!(queue.push_live(make_test_frame(Duration::from_millis(0))));
    assert!(queue.push_live(make_test_frame(Duration::from_millis(33))));
    assert!(queue.push_live(make_test_frame(Duration::from_millis(66))));

    assert_eq!(queue.len(), 2);
    assert_eq!(queue.live_frames_dropped(), 1);
    assert_eq!(queue.pop().map(|frame| frame.pts), Some(Duration::from_millis(33)));
    assert_eq!(queue.pop().map(|frame| frame.pts), Some(Duration::from_millis(66)));
}

#[test]
fn vod_queue_applies_bounded_producer_backpressure() {
    let mut queue = FrameQueue::new(1);
    assert!(push(&mut queue, Duration::zero()));
    let second = make_test_frame(Duration::from_millis(33));
    assert_eq!(queue.push(second), PushOutcome::WaitForSpace);
    assert_eq!(queue.len(), 1);
    assert!(queue.pop().is_some());
    assert_eq!(queue.push(second), PushOutcome::Accepted);
    assert_eq!(queue.len(), 1);
}

#[test]
fn closed_queue_discards_frames() {
    let mut queue = FrameQueue::new(0);
    assert_eq!(queue.capacity, 1);
    queue.begin_flush();
    assert_eq!(queue.push(make_test_frame(Duration::zero())), PushOutcome::Discarded);
    assert!(!queue.try_push(make_test_frame(Duration::zero())));
    assert!(!queue.push_live(make_test_frame(Duration::zero())));
    queue.flush();
    assert!(queue.try_push(make_test_frame(Duration::zero())));
    assert!(!queue.try_push(make_test_frame(Duration::zero())));
    queue.stop();
    assert!(queue.is_stopped());
    assert_eq!(queue.push(make_test_frame(Duration::zero())), PushOutcome::Discarded);
    assert!(queue.pop().is_some());
}

#[test]
fn blocking_pop_waits_unless_the_stream_has_ended() {
    let mut queue = FrameQueue::with_default_capacity();
    assert_eq!(queue.capacity, 5);
    assert_eq!(queue.pop_blocking(false), PopOutcome::WaitForFrame);
    assert_eq!(queue.pop_blocking(true), PopOutcome::Nothing);
    queue.set_eos();
    assert_eq!(queue.pop_blocking(false), PopOutcome::Nothing);
    queue.clear_eos();
    let frame = make_test_frame(Duration::from_millis(5));
    assert!(queue.try_push(frame));
    assert_eq!(queue.peek(), Some(frame));
    assert_eq!(queue.pop_blocking(false), PopOutcome::Frame(frame));
    assert_eq!(queue.peek(), None);
}

#[test]
fn test_frame_scheduler_position() {
    let mut clock = FakeClock::new();
    let mut scheduler = FrameScheduler::new();
    let mut queue = FrameQueue::new(2);

    assert_eq!(scheduler.position(clock.now), Duration::zero());

    scheduler.seek(Duration::from_secs(10), clock.read().unix_us);
    assert_eq!(scheduler.position(clock.now), Duration::from_secs(10));

    scheduler.start();
    assert!(scheduler.playback_requested);
    assert!(scheduler.waiting_for_first_frame);
    assert!(push(&mut queue, Duration::from_secs(10)));
    let selected = next(&mut scheduler, &mut queue, &clock).unwrap();
    assert_eq!(selected.pts, Duration::from_secs(10));
    assert!(scheduler.playback_start_time.is_some());
    assert!(scheduler.is_playing());
    assert!(!scheduler.is_stalled());
    clock.advance(Duration::from_millis(50));
    assert_eq!(scheduler.position(clock.now), Duration::from_millis(10_050));

    scheduler.pause(clock.now);
    let pos = scheduler.position(clock.now);
    clock.advance(Duration::from_millis(50));
    assert_eq!(scheduler.position(clock.now), pos);
}

#[test]
fn scheduler_holds_future_frame_until_fake_clock_reaches_it() {
    let mut clock = FakeClock::new();
    let mut scheduler = FrameScheduler::new();
    let mut queue = FrameQueue::new(3);
    bind_test_audio_metrics_only(&mut scheduler, Duration::from_secs(1));
    scheduler.start();
    assert!(push(&mut queue, Duration::from_secs(1)));
    assert!(push(&mut queue, Duration::from_secs(2)));

    assert_eq!(next(&mut scheduler, &mut queue, &clock).unwrap().pts, Duration::from_secs(1));
    clock.advance(Duration::from_millis(500));
    assert_eq!(scheduler.position(clock.now), Duration::from_millis(1_500));
    assert!(scheduler.current_frame.is_some());
    assert!(scheduler.frame_pacing_interval.is_zero());
    assert_eq!(next(&mut scheduler, &mut queue, &clock).unwrap().pts, Duration::from_secs(1));
    assert_eq!(queue.len(), 1);

    for step in 1..=10 {
        clock.advance(Duration::from_millis(50));
        let expected = if step == 10 { Duration::from_secs(2) } else { Duration::from_secs(1) };
        assert_eq!(next(&mut scheduler, &mut queue, &clock).unwrap().pts, expected);
    }
    assert!(queue.is_empty());
}

#[test]
fn normal_frame_interval_hold_does_not_open_a_reject_window() {
    let mut clock = FakeClock::new();
    let mut scheduler = FrameScheduler::new();
    let mut queue = FrameQueue::new(2);
    scheduler.start();
    assert!(push(&mut queue, Duration::zero()));
    assert!(push(&mut queue, Duration::from_millis(33)));
    assert_eq!(next(&mut scheduler, &mut queue, &clock).unwrap().pts, Duration::zero());

    for _ in 0..4 {
        clock.advance(Duration::from_millis(5));
        assert!(next(&mut scheduler, &mut queue, &clock).is_some());
    }

    assert!(!scheduler.reject.reported);
    assert_eq!(scheduler.burst.count, 0);
}

#[test]
fn missing_audio_clock_reports_fallback_once_until_clock_recovers() {
    let mut clock = FakeClock::new();
    let mut scheduler = FrameScheduler::new();
    let mut audio = AudioHandle::new();
    audio.set_available(true);
    audio.set_native_position(Duration::zero());
    audio.enable_playback_epoch(1);
    scheduler.set_audio_handle(audio);
    scheduler.playback_start_time = Some(clock.now);
    scheduler.playback_start_position = Duration::zero();

    clock.advance(Duration::from_millis(600));
    assert_eq!(scheduler.sync_position(clock.now), Duration::from_millis(600));
    assert!(scheduler.audio_clock_fallback_reported);
    assert_eq!(scheduler.sync_position(clock.now), Duration::from_millis(600));
    assert!(scheduler.audio_clock_fallback_reported);

    let audio = scheduler.audio_handle_mut().unwrap();
    audio.set_native_position(Duration::from_millis(650));
    assert_eq!(scheduler.sync_position(clock.now), Duration::from_millis(650));
    assert!(!scheduler.audio_clock_fallback_reported);
}

#[test]
fn eos_accepts_one_frame_audio_tail_without_recovery_warning() {
    let clock = FakeClock::new();
    let mut scheduler = FrameScheduler::new();
    let mut audio = AudioHandle::new();
    audio.set_available(true);
    audio.enable_playback_epoch(1);
    audio.set_native_position(Duration::from_secs(1));
    scheduler.set_audio_handle(audio);
    scheduler.start();
    let mut queue = FrameQueue::new(2);
    assert!(push(&mut queue, Duration::from_secs(1)));
    assert!(push(&mut queue, Duration::from_millis(1_033)));

    assert_eq!(next(&mut scheduler, &mut queue, &clock).unwrap().pts, Duration::from_secs(1));
    queue.set_eos();
    assert_eq!(
        next(&mut scheduler, &mut queue, &clock).unwrap().pts,
        Duration::from_millis(1_033)
    );
    assert!(queue.is_empty());
    assert!(!scheduler.reject.reported);
}

#[test]
fn scheduler_drops_late_frames_in_one_poll() {
    let mut clock = FakeClock::new();
    let mut scheduler = FrameScheduler::new();
    let mut queue = FrameQueue::new(5);
    bind_test_audio_metrics_only(&mut scheduler, Duration::from_secs(1));
    scheduler.start();
    assert!(push(&mut queue, Duration::from_secs(1)));
    assert_eq!(next(&mut scheduler, &mut queue, &clock).unwrap().pts, Duration::from_secs(1));

    for millis in [1_100, 1_200, 1_300, 2_500] {
        assert!(push(&mut queue, Duration::from_millis(millis)));
    }
    clock.advance(Duration::from_millis(350));

    assert_eq!(
        next(&mut scheduler, &mut queue, &clock).unwrap().pts,
        Duration::from_millis(1_300)
    );
    assert_eq!(queue.peek_pts(), Some(Duration::from_millis(2_500)));
}

fn drift_update(s: &mut FrameScheduler, clock: &FakeClock) {
    let e = estimate(s, clock.now);
    s.update_clock_drift_correction(clock.now, e);
}

#[test]
fn test_drift_controller_deadband_enter_exit() {
    let clock = FakeClock::new();
    let unix = clock.read().unix_us;
    let mut s = FrameScheduler::new();
    s.use_audio_as_sync_master = false;
    s.audio_start_time = Some(clock.ago(Duration::from_secs(10)));
    s.drift.last_update = Some(clock.ago(Duration::from_secs(1)));
    bind_test_audio_metrics_only(&mut s, Duration::from_secs(10));

    // Drive drift to 30ms (below enter threshold of 40ms)
    s.sync_metrics.record_frame(
        Duration::from_millis(10_030),
        Duration::from_millis(10_000),
        unix,
    );
    drift_update(&mut s, &clock);
    // EMA starts at 0, first update: 0.0 * 0.7 + 30000.0 * 0.3 = 9000 (9ms) < 40ms
    assert_eq!(s.drift.correction_us, 0);
    assert!(!s.drift.active);

    // Drive drift to 80ms, enough for EMA to cross enter threshold (40ms)
    // but below step detection threshold (100ms)
    for _ in 0..20 {
        s.sync_metrics.record_frame(
            Duration::from_millis(10_080),
            Duration::from_millis(10_000),
            unix,
        );
        s.drift.last_update = Some(clock.ago(Duration::from_secs(1)));
        drift_update(&mut s, &clock);
    }
    assert!(s.drift.active);
    assert!(s.drift.correction_us < 0); // video ahead, so a negative correction

    // Phase 2: exit, drive drift below 20ms
    for _ in 0..30 {
        s.sync_metrics.record_frame(
            Duration::from_millis(10_010),
            Duration::from_millis(10_000),
            unix,
        );
        s.drift.last_update = Some(clock.ago(Duration::from_secs(1)));
        drift_update(&mut s, &clock);
    }
    assert!(!s.drift.active);

    // Capture correction at deactivation, then verify no further changes
    let correction_at_deactivation = s.drift.correction_us;
    for _ in 0..5 {
        s.sync_metrics.record_frame(
            Duration::from_millis(10_010),
            Duration::from_millis(10_000),
            unix,
        );
        s.drift.last_update = Some(clock.ago(Duration::from_secs(1)));
        drift_update(&mut s, &clock);
    }
    assert_eq!(s.drift.correction_us, correction_at_deactivation);
}

#[test]
fn test_drift_controller_stall_gating() {
    let clock = FakeClock::new();
    let mut s = FrameScheduler::new();
    s.use_audio_as_sync_master = false;

    // Set up some existing state
    s.drift.last_update = Some(clock.now);
    s.drift.active = true;
    s.drift.smoothed_bits = 50_000.0f64.to_bits();

    s.stalled = true;
    drift_update(&mut s, &clock);
    assert!(s.drift.last_update.is_none());
    assert!(!s.drift.active);
    assert_eq!(f64::from_bits(s.drift.smoothed_bits), 0.0);

    // Also test audio_stalled
    s.stalled = false;
    s.audio_stalled = true;
    s.drift.last_update = Some(clock.now);
    s.drift.active = true;
    s.drift.smoothed_bits = 50_000.0f64.to_bits();
    drift_update(&mut s, &clock);
    assert!(s.drift.last_update.is_none());
    assert!(!s.drift.active);
    assert_eq!(f64::from_bits(s.drift.smoothed_bits), 0.0);
}

#[test]
fn test_drift_controller_dt_cap() {
    let clock = FakeClock::new();
    let mut s = FrameScheduler::new();
    s.use_audio_as_sync_master = false;
    s.audio_start_time = Some(clock.ago(Duration::from_secs(10)));
    bind_test_audio_metrics_only(&mut s, Duration::from_secs(10));

    // Pre-seed controller state to active with drift below step threshold (100ms)
    // so proportional controller runs instead of step correction.
    s.drift.smoothed_bits = (-80_000.0f64).to_bits(); // -80ms
    s.drift.active = true;
    s.sync_metrics.record_frame(
        Duration::from_millis(9_920),
        Duration::from_millis(10_000),
        clock.read().unix_us,
    );

    // Set last update 5s ago (will be capped to 500ms)
    s.drift.last_update = Some(clock.ago(Duration::from_secs(5)));
    drift_update(&mut s, &clock);

    // dt capped at 500ms, max slew 10ms/s, so max delta per step = 5000us
    assert!(s.drift.correction_us <= 5_000);
    assert!(s.drift.correction_us > 0); // audio ahead, so a positive correction
}

#[test]
fn test_drift_controller_step_detection() {
    let clock = FakeClock::new();
    let mut s = FrameScheduler::new();
    s.use_audio_as_sync_master = false;
    s.audio_start_time = Some(clock.ago(Duration::from_secs(10)));
    s.playback_start_time = Some(clock.now);
    s.playback_start_position = Duration::from_millis(9_000);
    bind_test_audio_metrics_only(&mut s, Duration::from_secs(10));

    // Set drift > 100ms step threshold, which should trigger an immediate resync
    s.drift.active = true;
    s.sync_metrics.record_frame(
        Duration::from_millis(9_000),
        Duration::from_millis(10_000),
        clock.read().unix_us,
    );
    s.drift.last_update = Some(clock.ago(Duration::from_secs(1)));
    drift_update(&mut s, &clock);

    // Step detection should resync and reset correction to 0
    assert_eq!(s.drift.correction_us, 0);
    assert!(!s.drift.active);
    // Wall clock should be resynced near audio position
    assert!(s.playback_start_position > Duration::from_millis(9_900));
}

#[test]
fn test_drift_controller_total_bias_clamp() {
    let mut s = FrameScheduler::new();
    s.video_pts_bias = Duration::from_secs(7);
    s.drift.correction_us = 5_000_000; // +5s
    assert_eq!(s.effective_bias_us(), MAX_VIDEO_PTS_BIAS_US); // 12s clamped to 8s
    s.drift.correction_us = -20_000_000;
    assert_eq!(s.effective_bias_us(), -MAX_VIDEO_PTS_BIAS_US);
    assert_eq!(s.biased(Duration::from_secs(9)), Duration::from_secs(1));
    assert_eq!(s.biased(Duration::from_secs(7)), Duration::zero());
}

#[test]
fn position_is_pinned_to_the_frame_when_the_wall_clock_runs_away() {
    let mut clock = FakeClock::new();
    let mut s = FrameScheduler::new();
    let mut queue = FrameQueue::new(2);
    s.start();
    push(&mut queue, Duration::from_secs(1));
    next(&mut s, &mut queue, &clock);
    clock.advance(Duration::from_secs(3));
    assert_eq!(s.position(clock.now), Duration::from_secs(4));
    clock.advance(Duration::from_millis(1));
    assert_eq!(s.position(clock.now), Duration::from_secs(1));
    s.pause(clock.now);
    assert_eq!(s.position(clock.now), Duration::from_secs(1));
}

#[test]
fn empty_queue_stalls_only_without_a_frame_on_display() {
    let mut clock = FakeClock::new();
    let mut s = FrameScheduler::new();
    let mut queue = FrameQueue::new(2);
    s.start();
    push(&mut queue, Duration::from_secs(1));
    next(&mut s, &mut queue, &clock);
    clock.advance(Duration::from_millis(40));
    assert_eq!(next(&mut s, &mut queue, &clock).unwrap().pts, Duration::from_secs(1));
    assert!(!s.is_stalled());
    assert_eq!(s.sync_metrics().underrun_count(), 0);

    s.current_frame = None;
    assert_eq!(next(&mut s, &mut queue, &clock), None);
    assert!(s.is_stalled());
    assert_eq!(s.sync_metrics().underrun_count(), 1);
    assert!(s.sync_metrics().is_in_recovery());
    let frozen = s.position(clock.now);
    clock.advance(Duration::from_secs(5));
    assert_eq!(s.position(clock.now), frozen);

    push(&mut queue, Duration::from_millis(1_080));
    assert!(next(&mut s, &mut queue, &clock).is_some());
    assert!(!s.is_stalled());
}

#[test]
fn large_gap_after_the_first_frame_makes_the_clock_jump() {
    let clock = FakeClock::new();
    let mut s = FrameScheduler::new();
    let mut queue = FrameQueue::new(4);
    s.start();
    push(&mut queue, Duration::from_millis(10));
    push(&mut queue, Duration::from_secs(3));
    assert_eq!(next(&mut s, &mut queue, &clock).unwrap().pts, Duration::from_millis(10));
    assert_eq!(s.current_position, Duration::from_millis(2_958));
    assert_eq!(s.position(clock.now), Duration::from_millis(2_958));
}

#[test]
fn a_jump_that_audio_does_not_follow_holds_the_frame() {
    let clock = FakeClock::new();
    let mut s = FrameScheduler::new();
    let mut audio = AudioHandle::new();
    audio.set_available(true);
    audio.enable_playback_epoch(1);
    audio.set_native_position(Duration::from_secs(1));
    s.set_audio_handle(audio);
    s.start();
    let mut queue = FrameQueue::new(4);
    push(&mut queue, Duration::from_secs(1));
    next(&mut s, &mut queue, &clock);
    push(&mut queue, Duration::from_secs(6));
    assert_eq!(next(&mut s, &mut queue, &clock).unwrap().pts, Duration::from_secs(1));
    assert_eq!(queue.len(), 1);
    s.audio_handle_mut().unwrap().set_native_position(Duration::from_secs(6));
    assert_eq!(next(&mut s, &mut queue, &clock).unwrap().pts, Duration::from_secs(6));
}

#[test]
fn pacing_keeps_frames_an_interval_apart() {
    let mut clock = FakeClock::new();
    let mut s = FrameScheduler::new();
    s.set_frame_rate_pacing(None);
    assert!(s.frame_pacing_interval.is_zero());
    s.set_frame_rate_pacing(Some(Duration::from_millis(40)));
    s.start();
    let mut queue = FrameQueue::new(4);
    push(&mut queue, Duration::from_millis(100));
    push(&mut queue, Duration::from_millis(140));
    next(&mut s, &mut queue, &clock);
    clock.advance(Duration::from_millis(39));
    assert_eq!(next(&mut s, &mut queue, &clock).unwrap().pts, Duration::from_millis(100));
    clock.advance(Duration::from_millis(1));
    assert_eq!(next(&mut s, &mut queue, &clock).unwrap().pts, Duration::from_millis(140));
    s.clear_frame_rate_pacing();
    assert!(s.next_frame_due.is_none());
}

#[test]
fn long_rejection_of_a_file_frame_ends_in_catch_up() {
    let mut clock = FakeClock::new();
    let mut s = FrameScheduler::new();
    let mut audio = AudioHandle::new();
    audio.set_available(true);
    audio.enable_playback_epoch(1);
    audio.set_native_position(Duration::from_secs(1));
    s.set_audio_handle(audio);
    s.start();
    let mut queue = FrameQueue::new(4);
    push(&mut queue, Duration::from_secs(1));
    next(&mut s, &mut queue, &clock);
    push(&mut queue, Duration::from_millis(1_500));
    assert_eq!(next(&mut s, &mut queue, &clock).unwrap().pts, Duration::from_secs(1));
    assert_eq!(s.reject.count, 1);
    clock.advance(Duration::from_millis(200));
    next(&mut s, &mut queue, &clock);
    assert!(s.reject.reported);
    assert_eq!(s.burst.count, 1);
    clock.advance(Duration::from_millis(2_800));
    assert_eq!(
        next(&mut s, &mut queue, &clock).unwrap().pts,
        Duration::from_millis(1_500)
    );
    assert_eq!(s.reject.state, RejectHandlingState::CatchUp);
}

#[test]
fn background_gap_drains_the_queue_and_follows_audio() {
    let mut clock = FakeClock::new();
    let mut s = FrameScheduler::new();
    bind_test_audio_metrics_only(&mut s, Duration::from_secs(1));
    s.start();
    let mut queue = FrameQueue::new(4);
    push(&mut queue, Duration::from_secs(1));
    next(&mut s, &mut queue, &clock);
    next(&mut s, &mut queue, &clock);
    push(&mut queue, Duration::from_millis(1_040));
    clock.advance(Duration::from_millis(101));
    assert_eq!(next(&mut s, &mut queue, &clock).unwrap().pts, Duration::from_secs(1));
    assert!(queue.is_empty());
    assert_eq!(s.playback_start_position, Duration::from_secs(1));
    assert_eq!(s.sync_metrics.grace_samples, 10);
}

#[test]
fn audio_stall_freezes_live_video_and_times_out() {
    let mut clock = FakeClock::new();
    let mut s = FrameScheduler::new();
    bind_test_audio_metrics_only(&mut s, Duration::from_secs(1));
    s.start();
    let mut queue = FrameQueue::new(4);
    push(&mut queue, Duration::from_secs(1));
    next(&mut s, &mut queue, &clock);
    next(&mut s, &mut queue, &clock);
    let audio = s.audio_handle_mut().unwrap();
    audio.set_audio_stalled(true);
    // The join rebase holds audio back; it was released by the first frame past it.
    audio.enable_playback_epoch(1);
    clock.advance(Duration::from_millis(20));
    next(&mut s, &mut queue, &clock);
    assert!(s.is_audio_stall());
    assert!(!s.is_playing());
    clock.advance(Duration::from_millis(3_001));
    next(&mut s, &mut queue, &clock);
    assert!(!s.is_audio_stall());
    assert!(s.ignore_audio_stall_until_recovered);
    s.audio_handle_mut().unwrap().set_audio_stalled(false);
    next(&mut s, &mut queue, &clock);
    assert!(!s.ignore_audio_stall_until_recovered);
}

#[test]
fn seek_forgets_the_old_place() {
    let clock = FakeClock::new();
    let mut s = FrameScheduler::new();
    bind_test_audio_metrics_only(&mut s, Duration::from_secs(4));
    s.start();
    s.set_initial_pts_bias(Duration::from_secs(20));
    assert_eq!(s.video_pts_bias, Duration::from_secs(8));
    let mut queue = FrameQueue::new(4);
    push(&mut queue, Duration::from_secs(4));
    next(&mut s, &mut queue, &clock);
    let generation = s.seek_generation();
    s.seek(Duration::from_secs(30), clock.read().unix_us);
    assert_eq!(s.seek_generation(), generation + 1);
    assert_eq!(s.position(clock.now), Duration::from_secs(30));
    assert!(s.current_frame().is_none());
    assert!(s.video_pts_bias.is_zero());
    assert!(s.waiting_for_first_frame);
    assert_eq!(s.audio_handle_mut().unwrap().position(), Duration::zero());
    assert_eq!(s.sync_metrics.grace_samples, 30);
    assert_eq!(s.presentation_generation(), 1);
}

#[test]
fn a_stall_of_audio_can_be_cleared() {
    let clock = FakeClock::new();
    let mut scheduler = FrameScheduler::with_audio_handle(AudioHandle::new());
    scheduler.start();
    scheduler.audio_stalled = true;
    scheduler.audio_stall_start = Some(clock.now);
    scheduler.frames_since_recovery = 7;
    scheduler.clear_audio_stall(clock.now);
    assert!(!scheduler.is_audio_stall());
    assert_eq!(scheduler.audio_stall_start, None);
    assert_eq!(scheduler.frames_since_recovery, 0);
    let given_back = scheduler.clear_audio_handle();
    assert_eq!(given_back, Some(AudioHandle::new()));
    assert!(scheduler.audio_handle.is_none());
    assert!(scheduler.audio_handle_mut().is_none());
    let mut other = AudioHandle::new();
    other.set_volume(30);
    assert_eq!(scheduler.set_audio_handle(other), None);
    let before = scheduler.set_audio_handle_metrics_only(AudioHandle::new());
    assert_eq!(before.map(|handle| handle.volume()), Some(30));
    scheduler.clear_audio_handle();
    assert!(!scheduler.sync_metrics().using_audio_clock);
}

#[test]
fn a_correction_is_slewed_against_the_drift() {
    let span = Duration::from_secs(5);
    let step = |drift_us, delta_us, since| {
        drift_step_us(DriftEstimate { smoothed_bits: 0, drift_us, delta_us }, since)
    };
    assert_eq!(step(80_000, -3_000, span), -3_000);
    assert_eq!(step(80_000, -90_000, span), -5_000);
    assert_eq!(step(-80_000, 90_000, span), 5_000);
    assert_eq!(step(-80_000, 90_000, Duration::from_millis(200)), 2_000);
    assert_eq!(step(80_000, 90_000, span), 0);
    assert_eq!(step(-80_000, -90_000, span), 0);
    assert_eq!(step(0, 7, span), 0);
}
