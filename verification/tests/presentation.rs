use crossbeam_channel::bounded;
use lumina_video::frame_queue::FrameQueue;
use lumina_video::mailbox::{
    after_first_try, after_second_try, import_for_epoch, take_import_for_epoch,
    try_send_drop_oldest, AfterTry, ReceiveOutcome, SendOutcome,
};
use lumina_video::presentation::{
    active_playback_state, downgrade_budget_expired, ends_sharing, external_frame_outcome_certifies,
    import_failure_classification, renderer_feedback, renderer_transfer, sync_downgrade_budget,
    ColorTransfer, DirectPresentation, DowngradeBudget, ExternalFrameOutcome, Feedback, FrameStep,
    GpuFacts, ImportFailure, PresentationFailure, PresentationTransition, PreviewState, RouteStep,
    UploadOutcome, VideoTransferFunction, SHARING_VENDOR,
};
use lumina_video::session::{
    CapabilityDowngradeReason, CapabilityTier, ConversionMode, DecodeMode, RendererOutcome,
};
use lumina_video::time::{Duration, Instant};
use lumina_video::video::{VideoFrame, VideoState};

const BASE: Instant = Instant { nanos: 5_000_000_000 };

fn seconds(secs: u64) -> Duration {
    Duration::from_secs(secs)
}

#[test]
fn delayed_acceptance_is_the_only_direct_alias_certification() {
    assert!(external_frame_outcome_certifies(true, ExternalFrameOutcome::Accepted));
    assert!(!external_frame_outcome_certifies(false, ExternalFrameOutcome::Accepted));
    assert!(!external_frame_outcome_certifies(true, ExternalFrameOutcome::TransientFailure));
}

#[test]
fn downgrade_transition_is_one_shot() {
    let transition = PresentationTransition::Direct.after_downgrade();
    assert_eq!(transition, PresentationTransition::Downgrading);
    assert_eq!(transition.after_downgrade(), PresentationTransition::Fatal);
}

#[test]
fn renderer_outcomes_map_without_collapsing_failure_kinds() {
    assert_eq!(
        renderer_feedback(ExternalFrameOutcome::Accepted),
        (RendererOutcome::Accepted, None)
    );
    assert_eq!(
        renderer_feedback(ExternalFrameOutcome::Unsupported),
        (
            RendererOutcome::Unsupported,
            Some(CapabilityDowngradeReason::RendererUnsupported)
        )
    );
    assert_eq!(
        renderer_feedback(ExternalFrameOutcome::TransientFailure),
        (
            RendererOutcome::TransientFailure,
            Some(CapabilityDowngradeReason::RendererTransientFailure)
        )
    );
    assert_eq!(
        renderer_feedback(ExternalFrameOutcome::FatalFailure),
        (
            RendererOutcome::FatalFailure,
            Some(CapabilityDowngradeReason::RendererFatalFailure)
        )
    );
}

#[test]
fn downgrade_budget_pauses_and_resumes_without_background_expiry() {
    let base = BASE;
    let timeout = seconds(2);
    let budget = sync_downgrade_budget(
        false,
        DowngradeBudget { remaining: Some(timeout), deadline: None },
        base,
    );
    assert_eq!(budget.remaining, Some(timeout));
    assert!(budget.deadline.is_none());

    let budget = sync_downgrade_budget(true, budget, base);
    assert_eq!(budget.deadline, Some(base.after(timeout)));

    let pause_at = base.after(Duration::from_millis(750));
    let budget = sync_downgrade_budget(false, budget, pause_at);
    assert_eq!(budget.remaining, Some(Duration::from_millis(1250)));
    assert!(budget.deadline.is_none());

    let resume_at = pause_at.after(Duration::from_millis(500));
    let budget = sync_downgrade_budget(true, budget, resume_at);
    assert_eq!(budget.remaining, Some(Duration::from_millis(1250)));
    assert_eq!(budget.deadline, Some(resume_at.after(Duration::from_millis(1250))));
    assert!(!downgrade_budget_expired(false, budget.deadline, resume_at.after(timeout)));
    assert!(downgrade_budget_expired(
        true,
        budget.deadline,
        resume_at.after(Duration::from_millis(1250))
    ));
}

#[test]
fn bounded_import_mailbox_drops_oldest_without_waiting() {
    let (sender, receiver) = bounded(1);
    let drop_receiver = receiver.clone();
    assert!(try_send_drop_oldest(&sender, &drop_receiver, 1).is_ok());
    assert!(try_send_drop_oldest(&sender, &drop_receiver, 2).is_ok());
    assert_eq!(receiver.try_recv(), Ok(2));
}

#[test]
fn seek_epoch_rejects_in_flight_success_and_failure_without_restarting_worker() {
    let (sender, receiver) = bounded(1);
    let before_seek = 0;
    let after_seek = 1;
    // Simulate imports that complete after a seek has been accepted.
    sender.send((before_seek, Ok::<_, &str>("old texture"))).unwrap();
    assert_eq!(take_import_for_epoch(&receiver, after_seek), None);
    sender.send((before_seek, Err::<&str, _>("old import failure"))).unwrap();
    assert_eq!(take_import_for_epoch(&receiver, after_seek), None);
    // The same mailbox still carries current successes and errors.
    sender.send((after_seek, Ok::<_, &str>("seek texture"))).unwrap();
    assert_eq!(take_import_for_epoch(&receiver, after_seek), Some(Ok("seek texture")));
    sender.send((after_seek, Err::<&str, _>("current failure"))).unwrap();
    assert_eq!(take_import_for_epoch(&receiver, after_seek), Some(Err("current failure")));
}

#[test]
fn queue_send_reports_disconnected_without_retry_loop() {
    let (sender, receiver) = bounded::<u8>(1);
    drop(receiver);
    let (_drop_sender, drop_receiver) = bounded::<u8>(1);
    assert!(!try_send_drop_oldest(&sender, &drop_receiver, 1).is_ok());
}

#[test]
fn paused_preview_refresh_survives_retained_image_and_empty_seek_queue() {
    let mut queue = FrameQueue::new(2);
    let frame = |secs: u64| VideoFrame::new(seconds(secs), 1, 1, secs);
    let mut preview = PreviewState::new();
    assert!(queue.try_push(frame(1)));
    let displayed = preview.frame(&queue).unwrap();
    preview.presented();
    assert!(preview.frame(&queue).is_none());
    // The player flushes on seek. The display keeps its owned old image,
    // while the preview request waits across arbitrary empty refreshes.
    queue.flush();
    preview.invalidate();
    assert!(preview.frame(&queue).is_none());
    assert!(preview.frame(&queue).is_none());
    assert_eq!(displayed.pts, seconds(1));
    assert!(queue.try_push(frame(10)));
    let pending = preview.frame(&queue).unwrap();
    assert_eq!(pending.pts, seconds(10));
    assert_eq!(queue.len(), 1); // preview does not advance the presentation clock
    assert_eq!(displayed.pts, seconds(1));
    // Only presentation completes the request; a queued native import does not.
    assert!(preview.frame(&queue).is_some());
    preview.presented();
    assert!(preview.frame(&queue).is_none());
    // Source replacement/fallback uses the same invalidation while paused.
    queue.flush();
    preview.invalidate();
    assert!(queue.try_push(frame(0)));
    assert_eq!(preview.frame(&queue).unwrap().pts, Duration::zero());
}

#[test]
fn refused_items_come_back() {
    let (sender, receiver) = bounded::<u8>(1);
    drop(receiver);
    let (_other, drop_receiver) = bounded::<u8>(1);
    assert_eq!(try_send_drop_oldest(&sender, &drop_receiver, 9), Err(9));
    assert_eq!(after_first_try(SendOutcome::Full(3)), AfterTry::DropOldest(3));
    assert_eq!(after_first_try::<u8>(SendOutcome::Sent), AfterTry::Done(Ok(())));
    assert_eq!(after_first_try(SendOutcome::Disconnected(4)), AfterTry::Done(Err(4)));
    assert_eq!(after_second_try::<u8>(SendOutcome::Sent), Ok(()));
    assert_eq!(after_second_try(SendOutcome::Full(3)), Err(3));
    assert_eq!(after_second_try(SendOutcome::Disconnected(4)), Err(4));
    assert_eq!(import_for_epoch(ReceiveOutcome::Item((2, 'a')), 2), Some('a'));
    assert_eq!(import_for_epoch(ReceiveOutcome::Item((2, 'a')), 3), None);
    assert_eq!(import_for_epoch::<char>(ReceiveOutcome::Empty, 3), None);
    assert_eq!(import_for_epoch::<char>(ReceiveOutcome::Disconnected, 3), None);
}

#[test]
fn import_failures_tell_their_reason() {
    for (failure, outcome, reason) in [
        (
            ImportFailure::UnsupportedAcquireSync,
            RendererOutcome::Unsupported,
            CapabilityDowngradeReason::UnsafeSync,
        ),
        (
            ImportFailure::UnsupportedFrame,
            RendererOutcome::Unsupported,
            CapabilityDowngradeReason::UnsupportedImport,
        ),
        (
            ImportFailure::InvalidLayout,
            RendererOutcome::Unsupported,
            CapabilityDowngradeReason::UnsupportedImport,
        ),
        (
            ImportFailure::ImportFailed,
            RendererOutcome::TransientFailure,
            CapabilityDowngradeReason::TransientImport,
        ),
    ] {
        assert_eq!(import_failure_classification(failure), (outcome, reason));
    }
    assert_eq!(renderer_transfer(ColorTransfer::Srgb), Some(VideoTransferFunction::Srgb));
    assert_eq!(renderer_transfer(ColorTransfer::Bt601), Some(VideoTransferFunction::Bt709));
    assert_eq!(renderer_transfer(ColorTransfer::Other), None);
}

#[test]
fn failures_are_told_to_the_user() {
    for (failure, text) in [
        (
            PresentationFailure::DowngradeRejected,
            "system-memory downgrade command was rejected",
        ),
        (
            PresentationFailure::FailedDuringDowngrade,
            "renderer failed during system-memory downgrade",
        ),
        (PresentationFailure::TimedOut, "system-memory presentation transition timed out"),
        (
            PresentationFailure::NoModeForDirectFrame,
            "decoder mode unavailable for direct frame",
        ),
        (PresentationFailure::NoModeForCpuFrame, "decoder mode unavailable for CPU frame"),
        (
            PresentationFailure::UnsafeAcquire,
            "CPU frame upload acquire synchronization is unsupported",
        ),
        (PresentationFailure::UploadFailed, "CPU frame upload failed"),
        (PresentationFailure::SessionFailed, "presentation transition failed: gone"),
    ] {
        assert_eq!(failure.text("gone"), text);
    }
}

#[test]
fn sharing_begins_where_the_card_can() {
    let mut way = DirectPresentation::new();
    let good = GpuFacts { vulkan: true, vendor: SHARING_VENDOR, nv12: true };
    assert_eq!(way.ensure_direct_import_route(None), RouteStep::Nothing);
    assert_eq!(
        way.ensure_direct_import_route(Some(GpuFacts { nv12: false, ..good })),
        RouteStep::StepDown(
            RendererOutcome::Unsupported,
            CapabilityDowngradeReason::RendererUnsupported
        )
    );
    assert_eq!(way.ensure_direct_import_route(Some(good)), RouteStep::StartWorker);
    assert_eq!(
        way.worker_started(false),
        RouteStep::StepDown(
            RendererOutcome::TransientFailure,
            CapabilityDowngradeReason::TransientImport
        )
    );
    assert_eq!(way.frame_step(true), FrameStep::DropFrame);
    assert_eq!(way.worker_started(true), RouteStep::Nothing);
    assert_eq!(way.ensure_direct_import_route(Some(good)), RouteStep::Nothing);
    assert_eq!(way.frame_step(true), FrameStep::Import(0));
    way = way.invalidated();
    assert_eq!(way.submit_linux_frame(true), FrameStep::Import(1));
    assert_eq!(DirectPresentation::enqueued(true), RouteStep::Nothing);
    assert_eq!(way.capability(), CapabilityTier::DirectAlias);
}

#[test]
fn an_accepted_frame_is_certified_once() {
    let mut way = DirectPresentation::new();
    let step = |way: &mut DirectPresentation, outcome, decode| {
        way.poll_external_outcome(outcome, decode, true, seconds(2), BASE)
    };
    assert_eq!(
        step(&mut way, ExternalFrameOutcome::Accepted, Some(DecodeMode::Hardware)),
        Feedback::nothing()
    );
    assert_eq!(
        way.staged(ExternalFrameOutcome::Accepted, true, seconds(2), BASE),
        Feedback::nothing()
    );
    assert!(!way.stages_import());
    let told = step(&mut way, ExternalFrameOutcome::Accepted, Some(DecodeMode::Hardware));
    let realization = DirectPresentation::direct_frame_realization(DecodeMode::Hardware);
    assert_eq!(told.commit, Some(realization));
    assert_eq!(told.outcome, Some(RendererOutcome::Accepted));
    assert!(way.direct_display);
    way.staged(ExternalFrameOutcome::Accepted, true, seconds(2), BASE);
    let again = step(&mut way, ExternalFrameOutcome::Accepted, Some(DecodeMode::Hardware));
    assert_eq!(again, Feedback::nothing());
    way.staged(ExternalFrameOutcome::Accepted, true, seconds(2), BASE);
    let lost = step(&mut way, ExternalFrameOutcome::Accepted, None);
    assert_eq!(lost.failure, Some(PresentationFailure::NoModeForDirectFrame));
    assert_eq!(way.transition, PresentationTransition::Fatal);
}

#[test]
fn a_refused_frame_steps_down_and_then_ends() {
    let mut way = DirectPresentation::new();
    way.staged(ExternalFrameOutcome::Accepted, true, seconds(2), BASE);
    let told = way.poll_external_outcome(
        ExternalFrameOutcome::FatalFailure,
        Some(DecodeMode::Hardware),
        true,
        seconds(2),
        BASE,
    );
    assert_eq!(told.outcome, Some(RendererOutcome::FatalFailure));
    assert_eq!(told.downgrade, Some(CapabilityDowngradeReason::RendererFatalFailure));
    assert!(told.renegotiate && !told.stop);
    assert_eq!(way.transition, PresentationTransition::Downgrading);
    assert_eq!(way.budget.deadline, Some(BASE.after(seconds(2))));
    let told = way.begin_system_memory_downgrade(
        true,
        seconds(2),
        None,
        CapabilityDowngradeReason::TransientImport,
        true,
        BASE,
    );
    assert_eq!(told.failure, Some(PresentationFailure::FailedDuringDowngrade));
    assert!(told.stop);
    assert_eq!(
        way.renegotiation_rejected(CapabilityDowngradeReason::TransientImport),
        Feedback::nothing()
    );
    assert_eq!(way.submit_linux_frame(false), FrameStep::DropFrame);
}

#[test]
fn a_step_down_ends_with_the_first_upload() {
    let mut way = DirectPresentation::new();
    assert_eq!(
        way.observe_worker_downgrade(None, false, seconds(2), BASE),
        Feedback::nothing()
    );
    assert!(ends_sharing(CapabilityDowngradeReason::HardwareUnavailable));
    let told = way.observe_worker_downgrade(
        Some(CapabilityDowngradeReason::HardwareUnavailable),
        false,
        seconds(2),
        BASE,
    );
    assert!(!told.renegotiate);
    assert_eq!(way.transition, PresentationTransition::Downgrading);
    assert_eq!(way.budget.deadline, None);
    way.follow_playback(true, BASE);
    assert_eq!(way.budget.deadline, Some(BASE.after(seconds(2))));
    assert_eq!(
        way.check_presentation_transition_timeout(true, BASE.after(seconds(1))),
        Feedback::nothing()
    );
    assert_eq!(way.submit_linux_frame(false), FrameStep::Upload);
    assert!(way.pending_frame);
    let (told, tell) = way.finish_upload(UploadOutcome::Uploaded, Some(DecodeMode::Software), true);
    assert!(!tell);
    let realization = told.commit.unwrap();
    assert_eq!(realization.conversion, ConversionMode::YuvShader);
    assert_eq!(way.transition, PresentationTransition::SystemMemory);
    assert_eq!(way.capability(), CapabilityTier::SystemMemoryUpload);
    assert_eq!(
        way.check_presentation_transition_timeout(true, BASE.after(seconds(9))),
        Feedback::nothing()
    );
    let (told, _) = way.finish_upload(UploadOutcome::Uploaded, Some(DecodeMode::Software), true);
    assert_eq!(told, Feedback::nothing());
}

#[test]
fn uploads_can_fail() {
    let fail = |upload, decode| {
        let mut way = DirectPresentation::new();
        let (told, tell) = way.finish_upload(upload, decode, false);
        assert!(!tell && told.stop);
        (told.downgrade, told.failure)
    };
    assert_eq!(
        fail(UploadOutcome::Uploaded, None),
        (None, Some(PresentationFailure::NoModeForCpuFrame))
    );
    assert_eq!(
        fail(UploadOutcome::UnsupportedAcquireSync, Some(DecodeMode::Software)),
        (
            Some(CapabilityDowngradeReason::UnsafeSync),
            Some(PresentationFailure::UnsafeAcquire)
        )
    );
    assert_eq!(
        fail(UploadOutcome::Unsupported, Some(DecodeMode::Software)),
        (
            Some(CapabilityDowngradeReason::UnsupportedImport),
            Some(PresentationFailure::UploadFailed)
        )
    );
}

#[test]
fn a_step_down_times_out_only_while_playing() {
    let mut way = DirectPresentation::new();
    way.begin_system_memory_downgrade(
        true,
        seconds(2),
        None,
        CapabilityDowngradeReason::TransientImport,
        true,
        BASE,
    );
    let late = BASE.after(seconds(3));
    assert_eq!(way.check_presentation_transition_timeout(false, late), Feedback::nothing());
    let told = way.check_presentation_transition_timeout(true, late);
    assert_eq!(told.downgrade, Some(CapabilityDowngradeReason::TransitionTimeout));
    assert_eq!(told.failure, Some(PresentationFailure::TimedOut));
    assert!(active_playback_state(&VideoState::Buffering { position: seconds(0) }));
    assert!(!active_playback_state(&VideoState::Ready));
}

#[test]
fn the_renderer_lets_go_of_shared_frames() {
    let mut way = DirectPresentation::new();
    assert!(!way.retire_external_frame());
    way = way.restarted();
    assert!(way.pending_retirement);
    assert!(way.drain_pending_external_retirement());
    assert!(!way.drain_pending_external_retirement());
    way.staged(ExternalFrameOutcome::Accepted, true, seconds(2), BASE);
    assert!(way.retire_external_frame());
}
