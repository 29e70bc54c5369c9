use lumina_video::gpui_video_player::GpuiVideoPlayer;
use lumina_video::linux_refresh::{
    ImportOffer, LinuxAction, LinuxEvent, LinuxPhase, LinuxRefresh, NextEvent, UploadReport,
};
use lumina_video::player::Platform;
use lumina_video::presentation::{
    ColorTransfer, ExternalFrameOutcome, GpuFacts, ImportFailure, PresentationFailure,
    PresentationTransition, UploadOutcome, VideoTransferFunction, SHARING_VENDOR,
};
use lumina_video::session::{
    CapabilityDowngradeReason, CapabilityTier, DecodeMode, SessionError, SessionEvent, SessionState,
};
use lumina_video::time::{Duration, Instant};
use lumina_video::video::{VideoError, VideoState};

const NOW: Instant = Instant { nanos: 1_000_000_000_000 };
const SHARING: GpuFacts = GpuFacts { vulkan: true, vendor: SHARING_VENDOR, nv12: true };

fn player() -> GpuiVideoPlayer {
    GpuiVideoPlayer::new("https://a/b.mp4", Platform::Linux)
}

/// Answers the actions of one refresh by a script, and gives the actions.
struct Script {
    gpu: Option<GpuFacts>,
    worker: bool,
    outcome: Option<ExternalFrameOutcome>,
    decode: Option<DecodeMode>,
    next: Option<NextEvent>,
    import: ImportOffer,
    staged: Option<ExternalFrameOutcome>,
    uploaded: UploadOutcome,
    heard: bool,
    ended: bool,
}

fn script() -> Script {
    Script {
        gpu: Some(SHARING),
        worker: true,
        outcome: None,
        decode: Some(DecodeMode::Hardware),
        next: None,
        import: ImportOffer::Nothing,
        staged: Some(ExternalFrameOutcome::Accepted),
        uploaded: UploadOutcome::Uploaded,
        heard: true,
        ended: false,
    }
}

fn run(player: &mut GpuiVideoPlayer, script: Script) -> Vec<LinuxAction> {
    let mut script = script;
    let (mut refresh, mut action) = LinuxRefresh::begin(player);
    let mut actions = Vec::new();
    while action != LinuxAction::End {
        actions.push(action);
        assert!(actions.len() < 30);
        let event = match action {
            LinuxAction::GoOn | LinuxAction::ClearExternal => LinuxEvent::Done,
            LinuxAction::AskDowngrade => LinuxEvent::Downgrade(None),
            LinuxAction::Tell(_) => LinuxEvent::Told(script.heard),
            LinuxAction::AskGpu => LinuxEvent::Gpu(script.gpu),
            LinuxAction::StartWorker => LinuxEvent::WorkerStarted(script.worker),
            LinuxAction::TakeOutcome => LinuxEvent::Outcome(script.outcome, script.decode),
            LinuxAction::NextEvent => {
                LinuxEvent::Next(script.next.take().unwrap_or(NextEvent::Nothing))
            }
            LinuxAction::PlaySession | LinuxAction::SeekSession(_) => {
                LinuxEvent::Ordered { accepted: true, was_ended: script.ended }
            }
            LinuxAction::Enqueue(_) => LinuxEvent::Enqueued(true),
            LinuxAction::TakeImport(_) => LinuxEvent::Import(script.import),
            LinuxAction::Stage(_) => LinuxEvent::Staged(script.staged),
            LinuxAction::Upload => LinuxEvent::Uploaded(Some(UploadReport {
                outcome: script.uploaded,
                decode: script.decode,
                is_yuv: true,
            })),
            LinuxAction::End => unreachable!(),
        };
        action = refresh.advance(event, player, NOW);
    }
    assert_eq!(refresh.phase, LinuxPhase::Finished);
    actions
}

#[test]
fn a_refresh_asks_the_session_once() {
    let mut player = player();
    let actions = run(&mut player, script());
    assert_eq!(
        actions,
        vec![
            LinuxAction::AskDowngrade,
            LinuxAction::GoOn,
            LinuxAction::AskGpu,
            LinuxAction::StartWorker,
            LinuxAction::NextEvent,
            LinuxAction::TakeImport(player.presentation.presentation_epoch),
            LinuxAction::GoOn,
        ]
    );
    assert!(player.presentation.direct_import);
    assert_eq!(player.presentation.direct_alias_supported, Some(true));
    let actions = run(&mut player, script());
    assert!(!actions.contains(&LinuxAction::AskGpu));
    assert_eq!(actions.iter().filter(|action| **action == LinuxAction::NextEvent).count(), 1);
}

#[test]
fn a_shared_frame_is_certified_by_the_renderer() {
    let mut player = player();
    run(&mut player, script());
    let frame = SessionEvent::Frame { pts: Duration::from_millis(40), frame: true };
    let mut shared = script();
    shared.next = Some(NextEvent::Event(frame));
    shared.import = ImportOffer::Imported(ColorTransfer::Bt709);
    let actions = run(&mut player, shared);
    let epoch = player.presentation.presentation_epoch;
    assert!(actions.contains(&LinuxAction::Enqueue(epoch)));
    assert!(actions.contains(&LinuxAction::Stage(VideoTransferFunction::Bt709)));
    assert!(player.presentation.pending_external);
    assert_eq!(player.position(), Duration::from_millis(40));
    assert!(player.frame_realization(None).is_none());
    let mut certified = script();
    certified.outcome = Some(ExternalFrameOutcome::Accepted);
    let actions = run(&mut player, certified);
    assert!(actions.contains(&LinuxAction::TakeOutcome));
    assert!(actions.iter().any(|action| matches!(action, LinuxAction::Tell(_))));
    assert!(player.frame_realization(None).is_some());
    assert_eq!(player.capability(None), Some(CapabilityTier::DirectAlias));
    let mut copied = script();
    copied.next = Some(NextEvent::Event(SessionEvent::Frame {
        pts: Duration::from_millis(80),
        frame: false,
    }));
    let actions = run(&mut player, copied);
    let upload = actions.iter().position(|action| *action == LinuxAction::Upload).unwrap();
    assert_eq!(actions[upload + 1], LinuxAction::ClearExternal);
    assert_eq!(player.capability(None), Some(CapabilityTier::SystemMemoryUpload));
}

#[test]
fn a_card_that_cannot_share_makes_frames_come_through_memory() {
    let mut player = player();
    let mut other = script();
    other.gpu = Some(GpuFacts { vulkan: true, vendor: 1, nv12: true });
    let actions = run(&mut player, other);
    let told = actions.iter().find_map(|action| match action {
        LinuxAction::Tell(feedback) => Some(*feedback),
        _ => None,
    });
    let feedback = told.unwrap();
    assert!(feedback.renegotiate);
    assert_eq!(feedback.downgrade, Some(CapabilityDowngradeReason::RendererUnsupported));
    assert_eq!(player.presentation.transition, PresentationTransition::Downgrading);
    let mut upload = script();
    upload.next = Some(NextEvent::Event(SessionEvent::Frame {
        pts: Duration::zero(),
        frame: false,
    }));
    let actions = run(&mut player, upload);
    assert!(actions.contains(&LinuxAction::Upload));
    assert_eq!(player.presentation.transition, PresentationTransition::SystemMemory);
    assert!(!player.presentation.pending_frame);
}

#[test]
fn a_session_that_gives_no_other_frames_ends_presentation() {
    let mut player = player();
    let mut refused = script();
    refused.gpu = Some(GpuFacts { vulkan: false, vendor: 1, nv12: false });
    refused.heard = false;
    let actions = run(&mut player, refused);
    assert!(!actions.contains(&LinuxAction::NextEvent));
    assert_eq!(player.presentation.transition, PresentationTransition::Fatal);
    assert!(player.is_error());
    assert!(run(&mut player, script()).is_empty());
}

#[test]
fn failures_step_down_or_end() {
    for (import, staged, reason) in [
        (
            ImportOffer::Failed(ImportFailure::InvalidLayout),
            Some(ExternalFrameOutcome::Accepted),
            None,
        ),
        (
            ImportOffer::Imported(ColorTransfer::Other),
            Some(ExternalFrameOutcome::Accepted),
            Some(CapabilityDowngradeReason::UnsupportedColor),
        ),
        (
            ImportOffer::Imported(ColorTransfer::Srgb),
            None,
            Some(CapabilityDowngradeReason::UnsupportedImport),
        ),
    ] {
        let mut player = player();
        let mut failing = script();
        failing.import = import;
        failing.staged = staged;
        let actions = run(&mut player, failing);
        assert_eq!(player.presentation.transition, PresentationTransition::Downgrading);
        let told = actions.iter().find_map(|action| match action {
            LinuxAction::Tell(feedback) => feedback.downgrade,
            _ => None,
        });
        assert!(told.is_some());
        if reason.is_some() {
            assert_eq!(told, reason);
        }
    }
    let mut player = player();
    let mut late = script();
    late.gpu = None;
    late.next = Some(NextEvent::Event(SessionEvent::Frame {
        pts: Duration::zero(),
        frame: false,
    }));
    late.uploaded = UploadOutcome::Unsupported;
    let actions = run(&mut player, late);
    let told = actions.iter().find_map(|action| match action {
        LinuxAction::Tell(feedback) => feedback.failure,
        _ => None,
    });
    assert_eq!(told, Some(PresentationFailure::UploadFailed));
    assert_eq!(player.presentation.transition, PresentationTransition::Fatal);
}

#[test]
fn errors_of_the_session_are_shown() {
    let mut player = player();
    let mut failing = script();
    failing.next = Some(NextEvent::Failed(SessionError::Network("late".into())));
    run(&mut player, failing);
    assert_eq!(player.presentation.transition, PresentationTransition::Direct);
    assert_eq!(player.state(), &VideoState::Error(VideoError::Network("late".into())));
}

#[test]
fn playback_begins_by_itself_and_begins_anew() {
    let mut player = player().with_autoplay(true).with_looping(true);
    let mut ready = script();
    ready.next = Some(NextEvent::Event(SessionEvent::StateChanged { state: SessionState::Ready }));
    let actions = run(&mut player, ready);
    assert!(actions.contains(&LinuxAction::PlaySession));
    let mut ended = script();
    ended.next = Some(NextEvent::Event(SessionEvent::Ended));
    ended.ended = true;
    let actions = run(&mut player, ended);
    let orders: Vec<LinuxAction> = actions
        .iter()
        .copied()
        .filter(|action| {
            matches!(action, LinuxAction::SeekSession(_) | LinuxAction::PlaySession)
        })
        .collect();
    assert_eq!(
        orders,
        vec![LinuxAction::SeekSession(Duration::zero()), LinuxAction::PlaySession]
    );
    assert!(!run(&mut player, script()).contains(&LinuxAction::PlaySession));
}

#[test]
fn without_a_session_nothing_is_asked() {
    let mut player = player();
    player.presentation.has_session = false;
    let actions = run(&mut player, script());
    assert!(!actions.contains(&LinuxAction::NextEvent));
    assert!(player.playback.loading_started);
}
