use lumina_video::gst_decoder::{
    check_copy_format, BusMessage, BusOutcome, CapsFacts, DecodeStart, FramePull, GstAudioHandle,
    InitMessage, InitStep, LinuxZeroCopyMetricsSnapshot, PipelineInit, Playhead, RateFact,
    PipelineReset, SeekAction, SeekReply, SeekRun, SeekStage, ShareAttempt, ZeroCopyGStreamerDecoder,
    ZeroCopyMetrics, MAX_SEEK_RETRIES, MAX_STALE_FRAMES, STUCK_PULLS,
};
use lumina_video::gst_pipeline::PipelineMode;
use lumina_video::sync_metrics::Share;
use lumina_video::time::{Duration, Instant};
use lumina_video::video::VideoError;

const BASE: Instant = Instant { nanos: 9_000_000_000 };

fn at(millis: u64) -> Instant {
    BASE.after(Duration::from_millis(millis))
}

fn decoder(url: &str, mode: PipelineMode) -> ZeroCopyGStreamerDecoder {
    let mut init = PipelineInit::new();
    init.note_negotiated(Some(CapsFacts {
        width: Some(640),
        height: Some(360),
        rate: Some(RateFact { denominator: 1, bits: 25.0f32.to_bits() }),
    }));
    assert_eq!(init.hear(InitMessage::Buffering(100)), InitStep::GoOn);
    let duration = Some(Duration::from_secs(60));
    assert_eq!(init.hear(InitMessage::AsyncDone(duration)), InitStep::Settled);
    init.finish(url, mode, "H.264".into(), GstAudioHandle::new(true), true).unwrap()
}

#[test]
fn start_up_collects_facts() {
    let made = decoder("http://a", PipelineMode::ZeroCopy);
    assert_eq!((made.metadata().width, made.metadata().height), (640, 360));
    assert_eq!(made.metadata().frame_rate_bits, 25.0f32.to_bits());
    assert_eq!(made.metadata().duration, Some(Duration::from_secs(60)));
    assert_eq!(made.metadata().pixel_aspect_ratio_bits, 1.0f32.to_bits());
    assert_eq!(made.buffering_percent(), 100);
    assert_eq!(made.metrics().snapshot().fallback_frames, 0);
    assert!(!made.is_eof());

    let mut init = PipelineInit::new();
    assert_eq!(init.rate_bits, 30.0f32.to_bits());
    assert_eq!(
        init.hear(InitMessage::Error("no source".into())),
        InitStep::Failed(VideoError::DecoderInit("Pipeline error: no source".into()))
    );
    assert_eq!(init.hear(InitMessage::Other), InitStep::GoOn);
    assert_eq!(
        init.finish("http://a", PipelineMode::CpuCopy, String::new(), GstAudioHandle::new(false), false),
        Err(VideoError::DecoderInit("Could not determine video dimensions".into()))
    );
    init.note_preroll(Some(CapsFacts {
        width: Some(10),
        height: Some(20),
        rate: Some(RateFact { denominator: 0, bits: 7 }),
    }));
    assert_eq!((init.width, init.height, init.rate_bits), (10, 20, 30.0f32.to_bits()));
    let copied = init
        .finish("file:///a", PipelineMode::CpuCopy, String::new(), GstAudioHandle::new(false), false)
        .unwrap();
    assert_eq!(copied.buffering_percent(), 100);
    assert_eq!(copied.metrics().snapshot().fallback_frames, 1);
    assert_eq!(copied.mode(), PipelineMode::CpuCopy);
}

#[test]
fn frames_are_counted_as_shared_or_copied() {
    let mut made = decoder("http://a", PipelineMode::ZeroCopy);
    assert_eq!(made.note_frame(ShareAttempt::Shared), (true, None));
    assert!(made.metrics().snapshot().is_zero_copy_active());
    assert_eq!(
        made.metrics().snapshot().status_string(""),
        "✓ Zero-copy active (1 frames, 100%)"
    );
    assert_eq!(made.note_frame(ShareAttempt::Failed), (false, Some(1)));
    for _ in 2..100 {
        assert_eq!(made.note_frame(ShareAttempt::NotShareable), (false, None));
    }
    assert_eq!(made.note_frame(ShareAttempt::NotShareable), (false, Some(100)));
    let snapshot = made.metrics().snapshot();
    assert_eq!(snapshot.total_frames(), 101);
    assert_eq!(snapshot.zero_copy_percentage(), Share { part: 1, whole: 101 });
    assert_eq!(snapshot.fallback_percentage(), Share { part: 100, whole: 101 });
    assert_eq!(made.metrics().fallback_rate(), Share { part: 100, whole: 101 });
    let full = ZeroCopyMetrics {
        zero_copy_frames: u64::MAX,
        fallback_frames: 1,
        logged_fallback: true,
    };
    assert_eq!(full.fallback_rate(), Share { part: 1, whole: 1 << 64 });
    assert_eq!(
        snapshot.status_string("1.0"),
        "⚠ Partial fallback: 1/101 zero-copy (1.0%)"
    );
    let none = LinuxZeroCopyMetricsSnapshot { zero_copy_frames: 0, fallback_frames: 0 };
    assert_eq!(none.status_string("0"), "No frames rendered yet");
    let mut copied = decoder("http://a", PipelineMode::CpuCopy);
    assert_eq!(copied.note_frame(ShareAttempt::Shared), (false, None));
    assert_eq!(copied.metrics().fallback_frames, 2);
    assert_eq!(ZeroCopyMetrics::new().record_zero_copy(), 1);
}

#[test]
fn volume_is_applied_where_there_is_an_element() {
    let mut handle = GstAudioHandle::new(true);
    assert!(!handle.has_audio());
    handle.set_audio_connected();
    assert!(handle.has_audio());
    assert_eq!(handle.set_volume(250), Some(100));
    assert_eq!(handle.set_volume(40), Some(40));
    assert_eq!(handle.set_muted(true), Some(0));
    assert_eq!(handle.toggle_mute(), Some(40));
    assert_eq!(handle.volume(), 40);
    assert!(!handle.is_muted());
    assert_eq!(GstAudioHandle::new(false).set_volume(5), None);
}

#[test]
fn a_decode_begins_with_what_waits() {
    let mut made = decoder("http://a", PipelineMode::ZeroCopy);
    assert_eq!(made.begin_decode(), DecodeStart::TakePreroll);
    made.preroll_shown(Duration::from_millis(40));
    assert_eq!(made.frame_pts(None), Duration::from_millis(40));
    assert_eq!(made.frame_pts(Some(Duration::zero())), Duration::zero());
    assert_eq!(made.begin_decode(), DecodeStart::Pull);
    assert_eq!(made.process_bus_message(BusMessage::Buffering(50)), None);
    assert_eq!(made.head.pull_timeout(), Duration::from_secs(1));
    assert_eq!(made.process_bus_message(BusMessage::Buffering(100)), None);
    assert_eq!(made.head.pull_timeout(), Duration::from_millis(100));
    assert_eq!(made.process_bus_message(BusMessage::Other), None);
    assert_eq!(
        made.process_bus_message(BusMessage::Error("x".into())),
        Some(BusOutcome::Failed(VideoError::DecodeFailed("Pipeline error: x".into())))
    );
    assert_eq!(made.process_bus_message(BusMessage::EndOfStream), Some(BusOutcome::Ended));
    assert_eq!(made.begin_decode(), DecodeStart::Ended);
}

#[test]
fn errors_during_a_seek_are_kept() {
    let mut made = decoder("http://a", PipelineMode::ZeroCopy);
    made.head = made.head.seeking_to(Duration::from_secs(5));
    assert_eq!(made.process_bus_message(BusMessage::Error("x".into())), None);
    assert_eq!(made.process_bus_message(BusMessage::EndOfStream), None);
    assert!(!made.is_eof());
    assert_eq!(
        made.begin_decode(),
        DecodeStart::Failed(VideoError::DecodeFailed("Pipeline error: x".into()))
    );
    assert!(!made.head.seeking);
}

#[test]
fn frames_of_the_old_place_are_dropped() {
    let mut head = Playhead::at_start(false, 100).seeking_to(Duration::from_secs(10));
    let mut pull = FramePull::begin(&head);
    for _ in 0..MAX_STALE_FRAMES {
        assert!(!pull.offer(&mut head, Duration::from_secs(1)));
    }
    assert!(pull.offer(&mut head, Duration::from_secs(1)));
    assert_eq!(head.position, Duration::from_secs(1));
    assert!(!head.seeking);

    let mut forward = Playhead::at_start(false, 100).seeking_to(Duration::from_secs(10));
    let mut pull = FramePull::begin(&forward);
    assert!(!pull.offer(&mut forward, Duration::from_millis(12_001)));
    assert!(pull.offer(&mut forward, Duration::from_millis(12_000)));

    let mut backward = Playhead::at_start(false, 100)
        .showing(Duration::from_secs(20))
        .seeking_to(Duration::from_secs(10));
    let mut pull = FramePull::begin(&backward);
    assert!(pull.offer(&mut backward, Duration::from_secs(3)));
}

#[test]
fn a_pipeline_without_samples_is_stuck_once() {
    let mut head = Playhead::at_start(false, 100).resumed(at(0));
    for _ in 1..STUCK_PULLS {
        assert!(!head.no_sample(false, at(5000)));
    }
    assert!(head.no_sample(false, at(5000)));
    assert!(!head.no_sample(false, at(9000)));
    head.sample_received();
    assert_eq!(head.no_sample_after_resume, 0);
    assert_eq!(head.samples_since_resume, 1);
    assert!(!head.no_sample(true, at(9000)));
    assert!(head.eof);
}

#[test]
fn a_seek_waits_tries_and_lands() {
    let mut made = decoder("http://a", PipelineMode::ZeroCopy);
    made.process_bus_message(BusMessage::Buffering(20));
    let target = Duration::from_secs(30);
    let (run, action) = SeekRun::begin(&mut made, target, at(0));
    assert_eq!(action, SeekAction::Listen { rest: Duration::from_millis(50) });
    assert_eq!(run.stage, SeekStage::Buffering(at(0)));
    let (run, action) = run.listened(&mut made, at(4999));
    assert_eq!(action, SeekAction::Listen { rest: Duration::from_millis(50) });
    let (run, action) = run.listened(&mut made, at(5000));
    let wait = Duration::from_secs(10);
    assert_eq!(action, SeekAction::Seek { position: target, accurate: false, wait });
    assert!(made.head.seeking);
    let (run, action) = run.replied(&mut made, SeekReply::TimedOut, at(6000));
    let half = Duration::from_millis(500);
    let reset = PipelineReset { wait: half, leave_paused: None, rest: half };
    assert_eq!(action, SeekAction::ResetPipeline(reset));
    let (run, action) = run.reset_done(&mut made);
    let wait = Duration::from_secs(10);
    assert_eq!(action, SeekAction::Seek { position: target, accurate: false, wait });
    let (run, action) = run.replied(&mut made, SeekReply::Done, at(7000));
    assert_eq!(
        action,
        SeekAction::Finish { ensure_playing: Some(Duration::from_millis(500)) }
    );
    assert_eq!(run.stage, SeekStage::Over);
    assert_eq!(made.head.position, target);
    assert_eq!(made.head.last_seek_time, Some(at(7000)));
}

#[test]
fn a_seek_gives_up_after_its_retries() {
    let mut made = decoder("file:///a", PipelineMode::ZeroCopy);
    made.pause();
    made.head.position = Duration::from_secs(40);
    let (mut run, action) = SeekRun::begin(&mut made, Duration::from_secs(5), at(0));
    assert_eq!(
        action,
        SeekAction::Seek {
            position: Duration::from_secs(5),
            accurate: true,
            wait: Duration::from_secs(10)
        }
    );
    for _ in 0..MAX_SEEK_RETRIES {
        let (next, action) = run.replied(&mut made, SeekReply::Error("x".into()), at(1));
        let SeekAction::ResetPipeline(reset) = action else { panic!("no reset") };
        assert_eq!(reset.leave_paused, Some(Duration::from_millis(100)));
        assert_eq!(reset.rest, Duration::from_millis(500));
        run = next.reset_done(&mut made).0;
    }
    let (over, action) = run.replied(&mut made, SeekReply::Refused("y".into()), at(1));
    assert_eq!(over.stage, SeekStage::Over);
    assert_eq!(
        action,
        SeekAction::Fail(VideoError::SeekFailed("Seek failed: y".into()))
    );
}

#[test]
fn an_earlier_seek_is_waited_for() {
    let mut made = decoder("file:///a", PipelineMode::ZeroCopy);
    made.resume(at(0));
    made.head = made.head.seeking_to(Duration::from_secs(1));
    let (run, action) = SeekRun::begin(&mut made, Duration::from_secs(2), at(0));
    assert_eq!(action, SeekAction::Listen { rest: Duration::from_millis(50) });
    let (run, action) = run.listened(&mut made, at(3000));
    assert!(matches!(action, SeekAction::Seek { .. }));
    let (_, action) = run.replied(&mut made, SeekReply::NoAnswer, at(3001));
    assert_eq!(
        action,
        SeekAction::Finish { ensure_playing: Some(Duration::from_millis(500)) }
    );
    assert!(made.head.seeking);
}

#[test]
fn only_nv12_is_copied() {
    assert_eq!(check_copy_format(true, "x", "y", "z"), Ok(()));
    assert_eq!(check_copy_format(false, "NV12", "y", "z"), Ok(()));
    assert_eq!(check_copy_format(false, "UNKNOWN", "y", "format=nv12"), Ok(()));
    assert_eq!(
        check_copy_format(false, "I420", "I420dbg", "z"),
        Err(VideoError::UnsupportedFormat(
            "CPU fallback only supports NV12, got: I420 (I420dbg)".into()
        ))
    );
    assert_eq!(
        check_copy_format(false, "UNKNOWN", "y", "z"),
        Err(VideoError::UnsupportedFormat(
            "CPU fallback only supports NV12, caps indicate: z".into()
        ))
    );
}
