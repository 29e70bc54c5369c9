use lumina_video::frame_scheduler::DriftEstimate;
use lumina_video::gpui_video_player::{
    clamped_volume, end_step, video_error, video_metadata, video_state, EndStep, FrameSource, GpuiVideoPlayer,
    GpuiVideoPlayerConfig, GpuiVideoPlayerResponse, SurfaceSource,
};
use lumina_video::player::{InitEvent, OpenedDecoder, Platform};
use lumina_video::presentation::{
    ExternalFrameOutcome, Feedback, PresentationFailure, PresentationTransition, UploadOutcome,
};
use lumina_video::session::{
    AudioTrack, CapabilityDowngradeReason, CapabilityTier, DecodeMode, RendererOutcome,
    SessionCommand, SessionError, SessionEvent, SessionState,
};
use lumina_video::time::{ClockReading, Duration, Instant};
use lumina_video::video::{VideoError, VideoFrame, VideoMetadata, VideoState};

const NOW: Instant = Instant { nanos: 1_000_000_000_000 };
const CLOCK: ClockReading = ClockReading { now: NOW, unix_us: 1_700_000_000_000_000 };
const ESTIMATE: DriftEstimate = DriftEstimate { smoothed_bits: 0, drift_us: 0, delta_us: 0 };

fn linux() -> GpuiVideoPlayer {
    GpuiVideoPlayer::new("https://a/b.mp4", Platform::Linux)
}

fn metadata() -> VideoMetadata {
    VideoMetadata {
        width: 640,
        height: 360,
        duration: Some(Duration::from_secs(60)),
        frame_rate_bits: 30.0f32.to_bits(),
        codec: "H.264".into(),
        pixel_aspect_ratio_bits: 1.0f32.to_bits(),
        start_time: None,
    }
}

fn tell(player: &mut GpuiVideoPlayer, state: SessionState) -> bool {
    player.handle_event(SessionEvent::<u8>::StateChanged { state }, NOW).play
}

#[test]
fn audio_track_api_exposes_confirmation_and_errors() {
    let _: fn(&GpuiVideoPlayer) -> &[AudioTrack] = GpuiVideoPlayer::audio_tracks;
    let _: fn(&GpuiVideoPlayer) -> Option<&str> = GpuiVideoPlayer::selected_audio_track_id;
    let _: fn(&GpuiVideoPlayer) -> Option<&str> = GpuiVideoPlayer::audio_track_selection_error;
    let _: fn(&GpuiVideoPlayer, String) -> Result<SessionCommand, SessionError> =
        GpuiVideoPlayer::select_audio_track;
}

#[test]
fn gpui_entry_point_is_constructible() {
    let _: fn(&str, Platform) -> GpuiVideoPlayer = GpuiVideoPlayer::new;
}

#[test]
fn players_are_set_up_by_default_or_by_hand() {
    let config = GpuiVideoPlayerConfig::default();
    assert!(config.show_controls && !config.autoplay && !config.looping && !config.muted);
    assert_eq!(config.volume, 100);
    assert_eq!(config.lifecycle_timeout, Duration::from_secs(2));
    let response = GpuiVideoPlayerResponse::default();
    assert!(!response.toggle_playback && response.seek_to.is_none() && !response.state_changed);
    let mut player = GpuiVideoPlayer::new("a.mp4", Platform::MacOs)
        .with_controls(false)
        .with_autoplay(true)
        .with_looping(true)
        .with_muted(true)
        .with_volume(130)
        .with_lifecycle_timeout(Duration::from_secs(5))
        .with_open_timeout(Duration::from_secs(9));
    assert!(!player.config.show_controls && player.config.autoplay && player.config.looping);
    assert!(player.is_muted());
    assert_eq!(player.volume(), 100);
    assert!(player.audio_handle().unwrap().muted);
    player.audio_handle_mut().unwrap().set_volume(60);
    assert_eq!(player.audio_handle().unwrap().volume(), 60);
    assert_eq!(player.config.open_timeout, Some(Duration::from_secs(9)));
    assert_eq!(clamped_volume(40), 40);
    assert!(linux().core.is_none() && linux().presentation.has_session);
}

#[test]
fn session_values_are_shown_as_player_values() {
    let cases: Vec<(SessionError, VideoError)> = vec![
        (SessionError::InvalidCommand("x".into()), VideoError::Generic("x".into())),
        (SessionError::Fatal("x".into()), VideoError::Generic("x".into())),
        (SessionError::Open("x".into()), VideoError::OpenFailed("x".into())),
        (SessionError::Decode("x".into()), VideoError::DecodeFailed("x".into())),
        (SessionError::Seek("x".into()), VideoError::SeekFailed("x".into())),
        (SessionError::Network("x".into()), VideoError::Network("x".into())),
        (SessionError::Tls("x".into()), VideoError::Tls("x".into())),
        (SessionError::Unsupported("x".into()), VideoError::UnsupportedFormat("x".into())),
    ];
    for (error, shown) in cases {
        assert_eq!(video_error(&error), shown);
        assert_eq!(video_state(&SessionState::Error(error)), VideoState::Error(shown));
    }
    let position = Duration::from_secs(1);
    assert_eq!(
        video_state(&SessionState::Buffering { position }),
        VideoState::Buffering { position }
    );
    assert_eq!(video_state(&SessionState::Ended), VideoState::Ended);
}

#[test]
fn orders_go_to_the_session() {
    let mut player = linux();
    assert_eq!(player.play(NOW), Some(SessionCommand::Play));
    assert_eq!(player.pause(NOW), Some(SessionCommand::Pause));
    let position = Duration::from_secs(4);
    player.preview.presented();
    assert_eq!(player.seek(position, 0), (Some(SessionCommand::Seek { position }), false));
    assert!(player.preview.refresh_requested);
    assert_eq!(player.toggle_playback(NOW), None);
    let epoch = player.presentation.presentation_epoch;
    player.order_accepted(&SessionCommand::Seek { position }, false);
    assert_eq!(player.presentation.presentation_epoch, epoch + 1);
    player.order_accepted(&SessionCommand::Play, false);
    assert_eq!(player.presentation.presentation_epoch, epoch + 1);
    player.order_accepted(&SessionCommand::Play, true);
    assert_eq!(player.presentation.presentation_epoch, epoch + 2);
    assert_eq!(
        player.select_audio_track("de".into()),
        Ok(SessionCommand::SelectAudioTrack { id: "de".into() })
    );
    let other = GpuiVideoPlayer::new("a.mp4", Platform::MacOs);
    assert_eq!(
        other.select_audio_track("de".into()),
        Err(SessionError::Unsupported(
            "audio track selection is unavailable for this backend".into()
        ))
    );
}

#[test]
fn events_of_the_session_are_taken_in() {
    let mut player = linux().with_autoplay(true);
    player.handle_event(SessionEvent::<u8>::Metadata { metadata: metadata() }, NOW);
    assert_eq!(player.duration(), Some(Duration::from_secs(60)));
    assert_eq!(player.buffering_percent(), 100);
    assert_eq!(player.dimensions().map(|d| d.width), Some(640));
    assert_eq!(player.frame_rate(), Some(30.0f32.to_bits()));
    assert!(tell(&mut player, SessionState::Ready));
    assert!(player.is_ready());
    assert!(!tell(&mut player, SessionState::Ready));
    let position = Duration::from_secs(2);
    assert!(!tell(&mut player, SessionState::Playing { position }));
    assert!(player.is_playing());
    player.playback.loop_seek_pending = true;
    let outcome = player.handle_event(SessionEvent::Frame { pts: position, frame: 7u8 }, NOW);
    assert_eq!(outcome.frame, Some(7));
    assert_eq!(player.position(), position);
    assert!(player.presentation.has_presented_frame && !player.playback.loop_seek_pending);
    player.handle_event(SessionEvent::<u8>::Ended, NOW);
    assert!(player.is_ended());
}

#[test]
fn tracks_are_selected_by_confirmation() {
    let mut player = linux();
    let track = |id: &str| AudioTrack {
        id: id.into(),
        language: None,
        title: None,
        codec: "AAC".into(),
    };
    player.handle_event(
        SessionEvent::<u8>::AudioTracks {
            tracks: vec![track("en"), track("de")],
            selected_id: Some("en".into()),
        },
        NOW,
    );
    assert_eq!(player.audio_tracks().len(), 2);
    assert_eq!(player.selected_audio_track_id(), Some("en"));
    player.handle_event(
        SessionEvent::<u8>::AudioTrackSelectionFailed {
            requested_id: "fr".into(),
            prior_restored_id: Some("en".into()),
            reason: "no such track".into(),
        },
        NOW,
    );
    assert_eq!(player.audio_track_selection_error(), Some("fr: no such track"));
    assert_eq!(player.state(), &VideoState::Loading);
    player.order_accepted(&SessionCommand::SelectAudioTrack { id: "de".into() }, false);
    assert_eq!(player.audio_track_selection_error(), None);
    assert_eq!(player.selected_audio_track_id(), Some("en"));
    player.handle_event(SessionEvent::<u8>::AudioTrackSelected { track: track("de") }, NOW);
    assert_eq!(player.selected_audio_track_id(), Some("de"));
}

#[test]
fn errors_end_presentation_where_they_must() {
    let mut player = linux();
    let outcome = player.handle_event(
        SessionEvent::<u8>::Error(SessionError::Network("slow".into())),
        NOW,
    );
    assert_eq!(outcome.feedback, Feedback::nothing());
    assert_eq!(player.state(), &VideoState::Error(VideoError::Network("slow".into())));
    assert_eq!(player.error_overlay(), format!(
        "Video Error: {}",
        VideoError::Network("slow".into()).text()
    ));
    let outcome = player.handle_event(
        SessionEvent::<u8>::Error(SessionError::Fatal("gone".into())),
        NOW,
    );
    assert_eq!(outcome.feedback.failure, Some(PresentationFailure::SessionFailed));
    assert_eq!(
        player.state(),
        &VideoState::Error(VideoError::Generic(
            "presentation transition failed: fatal media-session error: gone".into()
        ))
    );
    let mut player = linux();
    let fatal = SessionError::Fatal("gone".into());
    assert_eq!(player.handle_poll_error(&fatal, NOW), Feedback::nothing());
    assert!(player.is_error());
}

#[test]
fn frames_step_down_and_the_error_is_shown() {
    let mut player = linux();
    let feedback = player.disable_direct_import(
        RendererOutcome::Unsupported,
        CapabilityDowngradeReason::UnsupportedImport,
        NOW,
    );
    assert!(feedback.renegotiate && !player.is_error());
    assert_eq!(player.presentation.transition, PresentationTransition::Downgrading);
    tell(&mut player, SessionState::Playing { position: Duration::zero() });
    let late = NOW.after(Duration::from_secs(2));
    let feedback = player.check_presentation_transition_timeout(late);
    assert_eq!(feedback.failure, Some(PresentationFailure::TimedOut));
    assert_eq!(
        player.state(),
        &VideoState::Error(VideoError::Generic(
            "system-memory presentation transition timed out".into()
        ))
    );
    let mut player = linux();
    player.renegotiation_rejected(CapabilityDowngradeReason::TransientImport);
    assert_eq!(
        player.state(),
        &VideoState::Error(VideoError::Generic(
            "system-memory downgrade command was rejected".into()
        ))
    );
    let mut player = linux();
    assert_eq!(player.observe_worker_downgrade(None, NOW), Feedback::nothing());
    player.presentation.pending_external = true;
    let feedback = player.poll_external_outcome(
        ExternalFrameOutcome::Accepted,
        Some(DecodeMode::Hardware),
        NOW,
    );
    assert!(feedback.commit.is_some());
    assert_eq!(player.capability(None), Some(CapabilityTier::DirectAlias));
    assert!(player.frame_realization(None).is_some());
    let (feedback, tell) = player.finish_upload(UploadOutcome::Unsupported, None, false);
    assert_eq!(feedback.failure, Some(PresentationFailure::UploadFailed));
    assert!(!tell && player.is_error());
}

#[test]
fn loops_are_tried_once() {
    assert_eq!(end_step(false, true, false), EndStep::Nothing);
    assert_eq!(end_step(true, true, false), EndStep::Loop);
    assert_eq!(end_step(true, true, true), EndStep::End);
    assert_eq!(end_step(true, false, false), EndStep::End);
    let mut player = linux().with_looping(true);
    assert!(!player.begin_session_loop());
    player.handle_event(SessionEvent::<u8>::Ended, NOW);
    assert!(player.begin_session_loop());
    assert!(!player.begin_session_loop());
}

fn core_player(autoplay: bool, looping: bool) -> GpuiVideoPlayer {
    let mut player = GpuiVideoPlayer::new("a.mp4", Platform::MacOs)
        .with_autoplay(autoplay)
        .with_looping(looping);
    assert!(player.start_async_init().is_some());
    assert!(player.start_async_init().is_none());
    player.check_init_complete(InitEvent::Pending, NOW);
    assert!(!player.is_ready());
    let opened = OpenedDecoder {
        metadata: metadata(),
        handles_audio: true,
        audio_handle: None,
        android_player_id: 0,
    };
    player.check_init_complete(InitEvent::Opened(opened), NOW);
    assert!(player.is_ready());
    player.sync_from_core(NOW);
    player
}

#[test]
fn a_core_player_shows_a_preview_and_then_plays() {
    let mut player = core_player(false, false);
    assert_eq!(player.state(), &VideoState::Ready);
    assert_eq!(player.frame_source(), FrameSource::Preview);
    assert!(player.preview_frame().is_none());
    let frame = VideoFrame::new(Duration::from_millis(1), 4, 4, 1);
    let queue = &mut player.core.as_mut().unwrap().decode.frame_queue;
    assert!(queue.try_push(frame));
    assert_eq!(player.preview_frame(), Some(frame));
    player.core_frame_shown();
    assert!(player.preview_frame().is_none());
    assert_eq!(player.play(NOW), None);
    assert_eq!(player.frame_source(), FrameSource::Playback);
    assert!(player.poll_playback_frame(CLOCK, ESTIMATE).is_some());
    player.sync_from_core(NOW);
    assert!(player.is_playing());
    assert_eq!(player.buffering_percent(), 0);
    assert_eq!(player.buffering_overlay(), Some(0));
    assert_eq!(player.duration(), Some(Duration::from_secs(60)));
}

#[test]
fn a_core_player_plays_by_itself_and_ends() {
    let mut player = core_player(true, false);
    assert!(player.is_playing());
    player.core.as_mut().unwrap().decode.frame_queue.set_eos();
    assert!(!player.handle_core_end());
    player.sync_from_core(NOW);
    assert!(player.is_ended());
    let mut player = core_player(true, true);
    player.core.as_mut().unwrap().decode.frame_queue.set_eos();
    assert!(player.handle_core_end());
    assert!(!player.handle_core_end());
    player.sync_from_core(NOW);
    assert!(player.is_ended());
}

#[test]
fn another_source_starts_anew() {
    let mut player = core_player(true, false);
    assert!(!player.open("b.mp4"));
    assert_eq!(player.url(), "b.mp4");
    assert_eq!(player.stream_generation, 1);
    assert!(!player.is_ready() && player.metadata().is_none());
    assert_eq!(player.state(), &VideoState::Loading);
    assert!(player.presentation.pending_retirement);
    assert_eq!(player.seek_progress().part, Duration::zero());
}

#[test]
fn a_session_is_told_its_volume_and_whether_it_is_muted() {
    let config = GpuiVideoPlayerConfig { muted: true, volume: 140, ..Default::default() };
    let player = GpuiVideoPlayer::with_config("a.mp4", config, Platform::Linux);
    assert_eq!(player.session_audio(), Some((true, 100)));
    let mut player = player.with_muted(false).with_volume(30);
    assert_eq!(player.session_audio(), Some((false, 30)));
    player.toggle_mute();
    assert_eq!(player.session_audio(), Some((true, 30)));
    player.set_volume(101);
    assert_eq!(player.session_audio(), Some((true, 100)));
    assert!(player.audio_handle().unwrap().is_muted());
    player.audio_handle_mut().unwrap().set_volume(55);
    assert_eq!(player.audio_handle().unwrap().volume(), 55);
    assert_eq!(player.volume(), 100);
    player.toggle_mute();
    assert_eq!(player.session_audio(), Some((false, 55)));
    player.open("b.mp4");
    assert_eq!(player.session_audio(), Some((false, 100)));
    player.audio_handle_mut().unwrap().set_muted(true);
    let mut player = player.with_lifecycle_timeout(Duration::from_secs(1));
    assert_eq!(player.session_audio(), Some((false, 100)));
    player.audio_handle_mut().unwrap().set_volume(20);
    let player = player.with_open_timeout(Duration::from_secs(1));
    assert_eq!(player.session_audio(), Some((false, 100)));
    let other = GpuiVideoPlayer::new("a.mp4", Platform::MacOs).with_volume(10);
    assert_eq!(other.session_audio(), None);
    assert_eq!(other.audio_handle().unwrap().volume(), 10);
}

#[test]
fn frames_of_the_renderer_are_let_go_of_by_platform() {
    let mut player = linux();
    assert_eq!(player.retire_external_frame(), (false, false));
    player.presentation.direct_display = true;
    assert_eq!(player.retire_external_frame(), (true, false));
    assert!(!player.presentation.direct_display);
    let mut player = GpuiVideoPlayer::new("a.mp4", Platform::Android);
    player.android.pending = true;
    player.preview.presented();
    assert!(!player.preview.refresh_requested);
    assert_eq!(player.retire_external_frame(), (true, true));
    assert!(player.preview.refresh_requested);
    assert!(!player.android.pending && !player.android.retirement_pending);
    player.android.pending = true;
    assert!(player.open("b.mp4"));
    let mut player = GpuiVideoPlayer::new("a.mp4", Platform::MacOs);
    player.presentation.direct_display = true;
    assert_eq!(player.retire_external_frame(), (false, false));
    assert!(player.presentation.direct_display);
}

#[test]
fn the_seek_bar_is_at_most_full() {
    let mut player = linux();
    player.playback.duration = Some(Duration::from_secs(10));
    player.playback.position = Duration::from_secs(4);
    let progress = player.seek_progress();
    assert_eq!((progress.part, progress.whole), (Duration::from_secs(4), Duration::from_secs(10)));
    player.playback.position = Duration::from_secs(40);
    assert_eq!(player.seek_progress().part, Duration::from_secs(10));
    player.playback.duration = Some(Duration::zero());
    assert_eq!(player.seek_progress().part, Duration::zero());
}

#[test]
fn surfaces_prefer_shared_frames() {
    let player = linux();
    assert_eq!(player.surface_source(true, Some(false)), SurfaceSource::External);
    assert_eq!(player.surface_source(false, Some(true)), SurfaceSource::Nv12);
    assert_eq!(player.surface_source(false, Some(false)), SurfaceSource::Rgba);
    assert_eq!(player.surface_source(false, None), SurfaceSource::Black);
}

#[test]
fn switches_are_switched() {
    let mut player = linux();
    player.toggle_mute();
    assert!(player.is_muted());
    player.set_volume(30);
    assert_eq!(player.volume(), 30);
    player.toggle_subtitles();
    assert!(!player.show_subtitles);
    player.set_subtitles_visible(true);
    assert!(player.show_subtitles);
}

#[test]
fn what_is_not_asked_for_is_not_shown() {
    let mut player = linux();
    assert_eq!(player.subtitle_overlay(Some("Hello")), Some("Hello"));
    player.set_subtitles_visible(false);
    assert_eq!(player.subtitle_overlay(Some("Hello")), None);
    let rejected = Some(RendererOutcome::Unsupported);
    let reason = Some(CapabilityDowngradeReason::UnsafeSync);
    assert_eq!(player.latest_renderer_outcome(rejected), rejected);
    assert_eq!(player.latest_downgrade_reason(reason), reason);
    let elsewhere = GpuiVideoPlayer::new("a.mp4", Platform::MacOs);
    assert_eq!(elsewhere.latest_renderer_outcome(rejected), None);
    assert_eq!(elsewhere.latest_downgrade_reason(reason), None);
    assert_eq!(video_metadata(&metadata()), metadata());
}
