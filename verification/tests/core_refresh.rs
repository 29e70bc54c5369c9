use lumina_video::android_import::ImportReply;
use lumina_video::core_refresh::{CoreAction, CoreEvent, CorePhase, CoreRefresh, ShownFrame};
use lumina_video::frame_scheduler::DriftEstimate;
use lumina_video::gpui_video_player::GpuiVideoPlayer;
use lumina_video::player::{InitEvent, OpenedDecoder, Platform};
use lumina_video::presentation::ExternalFrameOutcome;
use lumina_video::time::{ClockReading, Duration, Instant};
use lumina_video::video::{VideoError, VideoFrame, VideoMetadata, VideoState};

const NOW: Instant = Instant { nanos: 1_000_000_000_000 };
const ESTIMATE: DriftEstimate = DriftEstimate { smoothed_bits: 0, drift_us: 0, delta_us: 0 };

fn clock(secs: u64) -> ClockReading {
    ClockReading {
        now: NOW.after(Duration::from_secs(secs)),
        unix_us: 1_700_000_000_000_000 + secs * 1_000_000,
    }
}

fn opened() -> InitEvent {
    InitEvent::Opened(OpenedDecoder {
        metadata: VideoMetadata {
            width: 640,
            height: 360,
            duration: Some(Duration::from_secs(60)),
            frame_rate_bits: 30.0f32.to_bits(),
            codec: "H.264".into(),
            pixel_aspect_ratio_bits: 1.0f32.to_bits(),
            start_time: None,
        },
        handles_audio: true,
        audio_handle: None,
        android_player_id: 7,
    })
}

struct Script {
    opening: Option<InitEvent>,
    shown: ShownFrame,
    sent: bool,
    outcome: Option<ExternalFrameOutcome>,
    heard: bool,
    import: ImportReply,
    staged: Option<ExternalFrameOutcome>,
}

fn script() -> Script {
    Script {
        opening: None,
        shown: ShownFrame::Uploaded,
        sent: true,
        outcome: None,
        heard: true,
        import: ImportReply::Empty,
        staged: Some(ExternalFrameOutcome::Accepted),
    }
}

fn run(player: &mut GpuiVideoPlayer, script: Script, secs: u64) -> Vec<CoreAction> {
    let mut script = script;
    let (mut refresh, _, mut action) = CoreRefresh::begin(player, true);
    let mut actions = Vec::new();
    while action != CoreAction::End {
        actions.push(action);
        assert!(actions.len() < 20);
        let event = match action {
            CoreAction::GoOn | CoreAction::Restore | CoreAction::ClearExternal => CoreEvent::Done,
            CoreAction::AskOpening => {
                CoreEvent::Opening(script.opening.take().unwrap_or(InitEvent::Pending))
            }
            CoreAction::AskInterval => CoreEvent::Interval(None),
            CoreAction::AskEstimate => CoreEvent::Estimate(ESTIMATE),
            CoreAction::Show(_) => CoreEvent::Shown(script.shown),
            CoreAction::StartWorker(_) | CoreAction::Send(_) => CoreEvent::Sent(script.sent),
            CoreAction::TakeOutcome => CoreEvent::Outcome(script.outcome),
            CoreAction::AskFallback => CoreEvent::Heard(script.heard),
            CoreAction::TakeImport => CoreEvent::Import(script.import),
            CoreAction::Stage => CoreEvent::Staged(script.staged),
            CoreAction::End => unreachable!(),
        };
        action = refresh.advance(event, player, clock(secs));
    }
    assert_eq!(refresh.phase, CorePhase::Finished);
    actions
}

fn push(player: &mut GpuiVideoPlayer, id: u64) -> VideoFrame {
    let frame = VideoFrame::new(Duration::from_millis(id), 4, 4, id);
    let queue = &mut player.core.as_mut().unwrap().decode.frame_queue;
    assert!(queue.try_push(frame));
    frame
}

#[test]
fn a_source_is_opened_shown_and_played() {
    let mut player = GpuiVideoPlayer::new("a.mp4", Platform::MacOs);
    let (_, choice, action) = CoreRefresh::begin(&mut player, true);
    assert!(choice.is_some());
    assert_eq!(action, CoreAction::AskOpening);
    assert!(CoreRefresh::begin(&mut player, true).1.is_none());
    run(&mut player, script(), 0);
    assert!(!player.is_ready());
    let mut ready = script();
    ready.opening = Some(opened());
    let frame = push(&mut player, 1);
    run(&mut player, ready, 0);
    assert!(player.is_ready());
    assert_eq!(player.state(), &VideoState::Ready);
    let actions = run(&mut player, script(), 0);
    assert!(actions.contains(&CoreAction::Show(frame)));
    assert!(!run(&mut player, script(), 0).contains(&CoreAction::Show(frame)));
    player.play(NOW);
    let actions = run(&mut player, script(), 0);
    assert_eq!(
        actions,
        vec![
            CoreAction::AskInterval,
            CoreAction::AskEstimate,
            CoreAction::Show(frame),
            CoreAction::GoOn,
        ]
    );
    assert!(player.is_playing());
}

#[test]
fn a_source_that_cannot_be_opened_is_an_error() {
    let mut player = GpuiVideoPlayer::new("a.mp4", Platform::MacOs);
    let mut failed = script();
    failed.opening = Some(InitEvent::Failed(VideoError::UnsupportedFormat("x".into())));
    run(&mut player, failed, 0);
    assert!(player.is_error());
}

#[test]
fn without_a_card_no_frame_is_looked_for() {
    let mut player = GpuiVideoPlayer::new("a.mp4", Platform::MacOs);
    let (mut refresh, _, _) = CoreRefresh::begin(&mut player, false);
    push(&mut player, 1);
    refresh.advance(CoreEvent::Opening(opened()), &mut player, clock(0));
    player.sync_from_core(NOW);
    let action = refresh.advance(CoreEvent::Interval(None), &mut player, clock(0));
    assert_eq!(action, CoreAction::GoOn);
    assert_eq!(refresh.phase, CorePhase::Finishing);
}

#[test]
fn the_end_is_taken_once_more_from_the_beginning() {
    let mut player =
        GpuiVideoPlayer::new("a.mp4", Platform::MacOs).with_autoplay(true).with_looping(true);
    let mut ready = script();
    ready.opening = Some(opened());
    run(&mut player, ready, 0);
    assert!(player.is_playing());
    player.core.as_mut().unwrap().decode.frame_queue.set_eos();
    run(&mut player, script(), 1);
    assert!(player.playback.loop_seek_pending && !player.is_ended());
    player.core.as_mut().unwrap().decode.frame_queue.set_eos();
    run(&mut player, script(), 2);
    assert!(player.is_ended() && !player.playback.loop_seek_pending);
}

fn android() -> GpuiVideoPlayer {
    let mut player = GpuiVideoPlayer::new("a.mp4", Platform::Android);
    let mut ready = script();
    ready.opening = Some(opened());
    run(&mut player, ready, 0);
    push(&mut player, 1);
    player
}

#[test]
fn native_frames_are_converted_and_shown() {
    let mut player = android();
    let mut native = script();
    native.shown = ShownFrame::Native(Some(1));
    native.import = ImportReply::Ready(1);
    let actions = run(&mut player, native, 0);
    assert!(actions.contains(&CoreAction::StartWorker(1)));
    assert!(actions.contains(&CoreAction::Stage));
    assert!(player.android.pending);
    let mut certified = script();
    certified.shown = ShownFrame::Native(Some(1));
    certified.outcome = Some(ExternalFrameOutcome::Accepted);
    let actions = run(&mut player, certified, 0);
    assert!(actions.contains(&CoreAction::TakeOutcome));
    assert!(player.android.native_presented && !player.android.pending);
    assert!(!player.preview.refresh_requested);
}

#[test]
fn native_frames_are_given_up_for_system_memory() {
    let mut player = android();
    let mut native = script();
    native.shown = ShownFrame::Native(Some(1));
    native.import = ImportReply::Ready(1);
    run(&mut player, native, 0);
    let mut rejected = script();
    rejected.shown = ShownFrame::Native(Some(1));
    rejected.outcome = Some(ExternalFrameOutcome::TransientFailure);
    rejected.heard = false;
    let actions = run(&mut player, rejected, 0);
    assert!(actions.contains(&CoreAction::Restore));
    assert!(actions.contains(&CoreAction::AskFallback));
    assert!(player.android.disabled && player.android.fallback_pending);
    let actions = run(&mut player, script(), 1);
    assert!(actions.contains(&CoreAction::ClearExternal));
    assert!(!player.android.fallback_pending);
    assert!(!player.preview.refresh_requested);
    assert!(!run(&mut player, script(), 2).contains(&CoreAction::AskFallback));
}

#[test]
fn a_slow_import_and_a_silent_renderer_are_given_up() {
    let mut player = android();
    let mut native = script();
    native.shown = ShownFrame::Native(Some(1));
    run(&mut player, native, 0);
    assert!(!player.android.disabled);
    let mut slow = script();
    slow.shown = ShownFrame::Native(Some(1));
    run(&mut player, slow, 3);
    assert!(player.android.disabled);
    let mut player = android();
    let mut native = script();
    native.shown = ShownFrame::Native(Some(1));
    native.import = ImportReply::Ready(1);
    run(&mut player, native, 0);
    let mut silent = script();
    silent.shown = ShownFrame::Native(Some(1));
    let actions = run(&mut player, silent, 3);
    assert!(player.android.disabled);
    assert_eq!(actions.last(), Some(&CoreAction::Restore));
    let mut player = android();
    let mut foreign = script();
    foreign.shown = ShownFrame::Native(None);
    run(&mut player, foreign, 0);
    assert!(player.android.disabled);
}
