use lumina_video::audio::{AudioHandle, AudioSamples, CallbackState, OutputFrame};
use lumina_video::audio_player::{AudioEvent, AudioLoop, AudioOutcome, AudioPhase, AudioTask};
use lumina_video::audio_ring_buffer::{audio_ring_buffer, RingBufferConfig};
use lumina_video::decode_loop::{DecodeLoop, DecoderReport, Dimensions};
use lumina_video::decode_task::{DecodeEvent, DecodePhase, DecodeTask, Observation};
use lumina_video::frame_queue::DecodeCommand;
use lumina_video::frame_queue::PushOutcome;
use lumina_video::frame_scheduler::DriftEstimate;
use lumina_video::gst_decoder::ZeroCopyMetrics;
use lumina_video::gst_pipeline::GpuInfo;
use lumina_video::player::{
    choose_decoder, is_avfoundation_supported_container, next_choice, CorePlayer, DecoderChoice,
    FramePollResult, InitEvent, OpenedDecoder, Platform,
};
use lumina_video::time::{ClockReading, Duration, Instant};
use lumina_video::video::{VideoError, VideoFrame, VideoMetadata, VideoState};

const ESTIMATE: DriftEstimate = DriftEstimate { smoothed_bits: 0, drift_us: 0, delta_us: 0 };

fn clock(millis: u64) -> ClockReading {
    ClockReading {
        now: Instant::from_nanos(1_000_000_000_000 + millis as u128 * 1_000_000),
        unix_us: 1_700_000_000_000_000 + millis * 1000,
    }
}

fn frame(pts: Duration) -> VideoFrame {
    VideoFrame::new(pts, 1, 1, pts.nanos as u64)
}

fn push(player: &mut CorePlayer, pts: Duration) -> bool {
    player.decode.frame_queue.push(frame(pts)) == PushOutcome::Accepted
}

fn player() -> CorePlayer {
    CorePlayer::new("test://scheduler", Platform::Linux)
}

#[test]
fn poll_result_does_not_return_held_frame_as_new() {
    let mut player = player();
    player.scheduler.start();
    player.scheduler.set_frame_rate_pacing(Some(Duration::from_secs(1)));
    assert!(push(&mut player, Duration::from_millis(1)));
    assert!(push(&mut player, Duration::from_millis(900)));

    assert!(matches!(
        player.poll_frame_result(clock(0), ESTIMATE),
        FramePollResult::NewFrame(_)
    ));
    assert!(matches!(player.poll_frame_result(clock(0), ESTIMATE), FramePollResult::Hold));
    assert_eq!(player.decode.frame_queue.len(), 1);
}

#[test]
fn held_frame_with_empty_queue_is_not_an_underrun() {
    let mut player = player();
    player.scheduler.start();
    assert!(push(&mut player, Duration::from_millis(1)));

    assert!(matches!(
        player.poll_frame_result(clock(0), ESTIMATE),
        FramePollResult::NewFrame(_)
    ));
    assert!(player.decode.frame_queue.is_empty());
    assert!(matches!(player.poll_frame_result(clock(0), ESTIMATE), FramePollResult::Hold));
    assert_eq!(player.scheduler.sync_metrics().underrun_count(), 0);
    assert_eq!(player.scheduler.sync_metrics().stall_count(), 0);
}

#[test]
fn poll_result_distinguishes_buffering_and_eos() {
    let mut player = player();
    player.scheduler.start();

    assert!(matches!(
        player.poll_frame_result(clock(0), ESTIMATE),
        FramePollResult::Buffering
    ));
    player.decode.frame_queue.set_eos();
    assert!(matches!(
        player.poll_frame_result(clock(0), ESTIMATE),
        FramePollResult::EndOfStream
    ));
}

#[test]
fn poll_result_stamps_seek_generation() {
    let mut player = player();
    player.scheduler.start();
    player.scheduler.seek(Duration::from_secs(5), clock(0).unix_us);
    assert!(push(&mut player, Duration::from_secs(5)));

    let FramePollResult::NewFrame(frame) = player.poll_frame_result(clock(0), ESTIMATE) else {
        panic!("expected a frame after seek");
    };
    assert_eq!(frame.generation, 1);
}

fn metadata(start_time: Option<Duration>) -> VideoMetadata {
    VideoMetadata {
        width: 640,
        height: 360,
        duration: Some(Duration::from_secs(60)),
        frame_rate_bits: 30.0f32.to_bits(),
        codec: "H.264".into(),
        pixel_aspect_ratio_bits: 1.0f32.to_bits(),
        start_time,
    }
}

fn opened(handles_audio: bool) -> OpenedDecoder {
    OpenedDecoder {
        metadata: metadata(Some(Duration::from_millis(40))),
        handles_audio,
        audio_handle: None,
        android_player_id: 9,
    }
}

#[test]
fn containers_are_known_by_their_ending() {
    assert!(is_avfoundation_supported_container("https://a/b.MP4?x=.mkv"));
    assert!(is_avfoundation_supported_container("/a/b.m3u8"));
    assert!(!is_avfoundation_supported_container("https://a/b.mkv"));
    assert!(!is_avfoundation_supported_container("https://a/b"));
}

#[test]
fn decoders_are_chosen_by_platform() {
    let url = "https://a/b.mkv";
    assert_eq!(choose_decoder(Platform::MacOs, "a.mov"), DecoderChoice::VideoToolbox);
    assert_eq!(choose_decoder(Platform::MacOs, url), DecoderChoice::Ffmpeg);
    assert_eq!(choose_decoder(Platform::Ios, "a.mov"), DecoderChoice::VideoToolbox);
    assert_eq!(choose_decoder(Platform::Android, url), DecoderChoice::ExoPlayer);
    assert_eq!(choose_decoder(Platform::Linux, url), DecoderChoice::GStreamer);
    assert_eq!(
        choose_decoder(Platform::Windows { native_video: true }, url),
        DecoderChoice::MediaFoundation
    );
    let refusal = |platform| match choose_decoder(platform, url) {
        DecoderChoice::Refused(VideoError::DecoderInit(message)) => message,
        other => panic!("{:?}", other),
    };
    assert_eq!(
        refusal(Platform::Ios),
        "Unsupported container format on iOS: https://a/b.mkv"
    );
    assert!(refusal(Platform::Windows { native_video: false }).contains("windows-native-video"));
    assert_eq!(
        refusal(Platform::Other),
        "No video decoder available for this platform"
    );
    assert_eq!(
        next_choice(Platform::MacOs, &DecoderChoice::VideoToolbox),
        Some(DecoderChoice::Ffmpeg)
    );
    assert_eq!(next_choice(Platform::MacOs, &DecoderChoice::Ffmpeg), None);
    assert_eq!(next_choice(Platform::Ios, &DecoderChoice::VideoToolbox), None);
}

#[test]
fn opening_makes_a_player_ready() {
    let mut player = CorePlayer::new("a.mp4", Platform::Linux);
    assert!(!player.check_init_complete(InitEvent::Crashed));
    assert_eq!(player.init_decoder(), Some(DecoderChoice::GStreamer));
    assert_eq!(player.init_decoder(), None);
    assert!(player.is_init_pending());
    assert!(!player.check_init_complete(InitEvent::Pending));
    assert!(player.check_init_complete(InitEvent::Opened(opened(true))));
    assert!(player.is_initialized());
    assert_eq!(player.state(), &VideoState::Ready);
    assert!(player.audio_handle().is_available());
    assert_eq!(player.duration(), Some(Duration::from_secs(60)));
    assert_eq!(player.dimensions().map(|d| (d.width, d.height)), Some((640, 360)));
    assert_eq!(player.frame_rate(), Some(30.0f32.to_bits()));
    assert_eq!(player.android_player_id(), 0);
    assert!(player.audio_thread.is_none());
}

#[test]
fn failures_to_open_stay() {
    let mut player = CorePlayer::new("a.mp4", Platform::Linux);
    player.init_decoder();
    let error = VideoError::OpenFailed("gone".into());
    assert!(player.check_init_complete(InitEvent::Failed(error.clone())));
    assert_eq!(player.state(), &VideoState::Error(error));
    assert_eq!(player.init_decoder(), None);

    let mut player = CorePlayer::new("a.mp4", Platform::Linux);
    player.init_decoder();
    assert!(player.check_init_complete(InitEvent::Crashed));
    assert_eq!(
        player.state(),
        &VideoState::Error(VideoError::Generic("Init thread crashed".into()))
    );
    assert!(!player.is_initialized());
}

#[test]
fn macos_plays_audio_by_a_thread_of_its_own() {
    let mut player = CorePlayer::new("a.mkv", Platform::MacOs);
    player.init_decoder();
    player.check_init_complete(InitEvent::Opened(opened(false)));
    assert!(player.audio_thread.is_some());
    assert_eq!(player.audio_handle().video_start_time_us, Some(40_000));
    player.play(clock(0).now);
    assert_eq!(player.audio_thread.as_ref().unwrap().commands.len(), 1);
}

#[test]
fn orders_reach_the_decode_thread() {
    let mut player = CorePlayer::with_decoder("a.mp4", Platform::Linux, metadata(None));
    player.play(clock(0).now);
    assert!(player.is_playback_requested() && !player.is_playing());
    player.seek(Duration::from_secs(7), clock(0).unix_us);
    assert_eq!(player.state(), &VideoState::Playing { position: Duration::from_secs(7) });
    player.pause(clock(1).now);
    assert_eq!(player.state(), &VideoState::Paused { position: Duration::from_secs(7) });
    player.toggle_playback(clock(2).now);
    let orders: Vec<DecodeCommand> = player.decode.commands.iter().copied().collect();
    assert_eq!(
        orders,
        vec![
            DecodeCommand::SetMuted(false),
            DecodeCommand::Play,
            DecodeCommand::Seek(Duration::from_secs(7)),
            DecodeCommand::Pause,
            DecodeCommand::SetMuted(false),
            DecodeCommand::Play,
        ]
    );
    player.set_state(VideoState::Ended);
    player.seek(Duration::zero(), clock(3).unix_us);
    assert_eq!(player.state(), &VideoState::Ended);
    assert_eq!(player.position(clock(3).now), Duration::zero());
}

#[test]
fn a_player_and_its_scheduler_have_one_audio() {
    let mut player = CorePlayer::new("a.mp4", Platform::Linux);
    player.set_volume(30);
    player.set_muted(true);
    let followed = player.scheduler_mut().audio_handle_mut().unwrap();
    assert_eq!(followed.volume(), 30);
    assert!(followed.is_muted());
    player.init_decoder();
    player.check_init_complete(InitEvent::Opened(opened(true)));
    assert!(player.decoder_plays_audio);
    assert!(player.scheduler_mut().audio_handle_mut().unwrap().is_available());

    // The first frame starts the clock of the audio that the player controls.
    player.play(clock(0).now);
    assert_eq!(player.audio_handle().playback_epoch(), None);
    assert!(push(&mut player, Duration::from_millis(10)));
    assert!(player.poll_frame(clock(0), ESTIMATE).is_some());
    assert_eq!(player.audio_handle().playback_epoch(), Some(clock(0).unix_us));

    // A position that the decode thread publishes is followed.
    let state = DecodeLoop { playing: true, ..DecodeLoop::new(false, clock(0).now) };
    let mut task = DecodeTask { started: clock(0).now, phase: DecodePhase::Observing(state) };
    let seen = Observation {
        report: DecoderReport {
            duration: None,
            dimensions: Dimensions { width: 640, height: 360 },
            frame_rate_bits: 30.0f32.to_bits(),
        },
        buffering_percent: 100,
        position: Some(Duration::from_secs(5)),
        now: clock(1_000).now,
    };
    player.advance_decode(&mut task, DecodeEvent::Observed(seen));
    assert_eq!(player.audio_handle().position(), Duration::from_secs(5));
    let now = clock(1_000).now;
    assert_eq!(player.scheduler_mut().sync_position(now), Duration::from_secs(5));

    player.audio_handle_mut().set_volume(70);
    assert_eq!(player.scheduler_mut().audio_handle_mut().unwrap().volume(), 70);
}

#[test]
fn a_handle_that_is_swapped_in_is_the_players_alone() {
    let mut player = CorePlayer::new("a.mp4", Platform::Linux);
    let mut other = AudioHandle::new();
    other.set_volume(20);
    assert_eq!(player.set_audio_handle(other), None);
    assert_eq!(player.audio_handle().volume(), 20);
    player.set_muted(true);
    assert!(player.audio_handle().is_muted());
    let followed = player.scheduler_mut().audio_handle_mut().unwrap();
    assert_eq!((followed.volume(), followed.is_muted()), (100, false));
    let before = player.set_audio_handle(AudioHandle::new()).unwrap();
    assert_eq!((before.volume(), before.is_muted()), (20, true));
    player.init_decoder();
    player.check_init_complete(InitEvent::Opened(opened(true)));
    assert!(player.own_audio.is_none());
}

#[test]
fn the_audio_thread_works_on_the_audio_that_is_followed() {
    let mut player = CorePlayer::new("a.mkv", Platform::MacOs);
    player.init_decoder();
    player.check_init_complete(InitEvent::Opened(opened(false)));
    assert!(!player.decoder_plays_audio);
    let config = RingBufferConfig { capacity_samples: 1024, prefill_samples: 2 };
    let (producer, mut consumer, mut ring) = audio_ring_buffer(config);
    let state = AudioLoop::new().applied(DecodeCommand::Play);
    let mut task = AudioTask { phase: AudioPhase::Decoding(state) };
    let samples = AudioSamples {
        data: vec![0.5f32.to_bits(); 8],
        sample_rate: 48_000,
        channels: 2,
        pts: Duration::from_millis(40),
    };
    let event = AudioEvent::Decoded(AudioOutcome::Samples(samples));
    player.advance_audio(&mut task, event, &producer, &mut ring);
    assert_eq!(player.audio_handle().audio_base_pts(), Some(Duration::from_millis(40)));

    // Silence until the first frame has started the clock, then what was decoded.
    let mut callback = CallbackState::new();
    let mut fill = |player: &mut CorePlayer| {
        let handle = player.audio_handle_mut();
        callback.fill_output(true, handle, &mut consumer, &mut ring, 2, 2)
    };
    assert_eq!(fill(&mut player), vec![OutputFrame::Silence; 2]);
    player.play(clock(0).now);
    assert!(push(&mut player, Duration::from_millis(40)));
    assert!(player.poll_frame(clock(0), ESTIMATE).is_some());
    let half = 0.5f32.to_bits();
    assert_eq!(fill(&mut player), vec![OutputFrame::Stereo(half, half); 2]);
    assert_eq!(player.audio_handle().samples_played(), 4);
}

#[test]
fn a_seek_leaves_the_queue_open_and_a_stop_keeps_what_is_known() {
    let mut player = CorePlayer::with_decoder("a.mp4", Platform::Linux, metadata(None));
    assert!(push(&mut player, Duration::from_millis(1)));
    player.seek(Duration::from_secs(2), clock(0).unix_us);
    assert!(!player.decode.frame_queue.stopped && !player.decode.stop_flag);
    assert!(push(&mut player, Duration::from_secs(2)));
    player.stop();
    assert!(player.decode.frame_queue.stopped && player.decode.stop_flag);
    assert_eq!(player.metadata(), Some(&metadata(None)));
    assert_eq!(player.peek_frame().map(|frame| frame.pts), Some(Duration::from_secs(2)));
}

#[test]
fn a_player_without_a_decoder_takes_no_orders() {
    let mut player = player();
    player.play(clock(0).now);
    player.seek(Duration::from_secs(1), clock(0).unix_us);
    player.pause(clock(0).now);
    assert_eq!(player.state(), &VideoState::Loading);
    assert_eq!(player.decode.commands.len(), 0);
}

#[test]
fn errors_are_not_overwritten_by_frames() {
    let mut player = CorePlayer::with_decoder("a.mp4", Platform::Linux, metadata(None));
    player.play(clock(0).now);
    player.set_state(VideoState::Error(VideoError::Generic("x".into())));
    assert!(push(&mut player, Duration::from_millis(1)));
    assert!(player.poll_frame(clock(0), ESTIMATE).is_some());
    assert!(matches!(player.state(), VideoState::Error(_)));
}

#[test]
fn the_card_and_the_counts_of_the_decoder_are_kept() {
    let mut player = player();
    assert!(player.linux_zero_copy_metrics().is_none());
    player.set_gpu_info(GpuInfo { vendor_id: 0x8086, render_node: "/dev/dri/renderD128".into() });
    assert_eq!(player.gpu_info.vendor_id, 0x8086);
    let mut counts = ZeroCopyMetrics::new();
    counts.record_zero_copy();
    player.note_zero_copy_metrics(counts.snapshot());
    assert_eq!(player.linux_zero_copy_metrics().unwrap().zero_copy_frames, 1);
    counts.record_zero_copy();
    player.note_zero_copy_metrics(counts.snapshot());
    let counts = player.linux_zero_copy_metrics().unwrap();
    assert_eq!((counts.zero_copy_frames, counts.fallback_frames), (2, 0));
}

#[test]
fn the_parts_of_a_player_can_be_looked_at() {
    let mut player = player();
    assert!(player.decode_thread().is_none());
    assert_eq!(player.peek_frame(), None);
    assert!(push(&mut player, Duration::from_millis(5)));
    assert_eq!(player.peek_frame(), Some(frame(Duration::from_millis(5))));
    player.scheduler_mut().set_frame_rate_pacing(Some(Duration::from_millis(40)));
    assert_eq!(player.scheduler.frame_pacing_interval, Duration::from_millis(40));
    let snapshot = player.sync_metrics_snapshot(clock(0).unix_us);
    assert_eq!(snapshot.sample_count, 0);
    assert_eq!(snapshot.stream_pts_offset_ms(), 0);
}
