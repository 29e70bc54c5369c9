//! What holds of the way that frames take to the screen.

use crate::presentation::{
    downgrade_budget_expired, ends_sharing, external_frame_outcome_certifies,
    import_failure_classification, renderer_feedback, renderer_transfer, sync_downgrade_budget,
    ColorTransfer, DirectPresentation, DowngradeBudget, ExternalFrameOutcome, FrameStep, GpuFacts,
    ImportFailure, PresentationFailure, PresentationTransition, RouteStep, UploadOutcome,
    VideoTransferFunction,
};
use crate::session::{
    CapabilityDowngradeReason, CapabilityTier, ConversionMode, DecodeMode, ImportMode,
    RendererOutcome,
};
use crate::time::{Duration, Instant};
use vstd::prelude::*;

verus! {

/// The clock of a step down runs from the moment that playback is active, for the time that
/// is left; once it runs it is not set anew; it has run out from its deadline on, but only
/// while playback is active.
pub proof fn law_step_down_has_a_deadline(
    left: Duration,
    now: Instant,
    later: Instant,
    active: bool,
)
    requires
        now.nanos + left.nanos <= u128::MAX,
        now.checked_add(left) is Some,
    ensures
        ({
            let waiting = DowngradeBudget { remaining: Some(left), deadline: None::<Instant> };
            let running = sync_downgrade_budget(true, waiting, now);
            &&& running.deadline is Some
            &&& running.deadline->0.nanos == now.nanos + left.nanos
            &&& sync_downgrade_budget(true, running, later) == running
            &&& downgrade_budget_expired(active, running.deadline, later) <==> active
                && later.nanos >= now.nanos + left.nanos
            &&& !downgrade_budget_expired(active, None::<Instant>, later)
            &&& sync_downgrade_budget(false, waiting, now).remaining == Some(left)
        }),
{
}

/// A frame that the renderer accepts is on display, and is told to the session as shared,
/// once; without a waiting frame an answer means nothing.
pub proof fn law_accepted_frame_is_shown(
    way: DirectPresentation,
    decode: DecodeMode,
    active: bool,
    timeout: Duration,
    now: Instant,
)
    requires
        way.pending_external,
    ensures
        ({
            let (shown, told) = way.answered(
                ExternalFrameOutcome::Accepted,
                Some(decode),
                active,
                timeout,
                now,
            );
            let (again, silence) = (DirectPresentation { pending_external: true, ..shown }).answered(
                ExternalFrameOutcome::Accepted,
                Some(decode),
                active,
                timeout,
                now,
            );
            &&& shown.direct_display
            &&& !shown.pending_external
            &&& shown.transition == way.transition
            &&& shown.frame_realization is Some
            &&& shown.frame_realization->0.decode == decode
            &&& shown.frame_realization->0.import == ImportMode::DirectAlias
            &&& shown.capability() == CapabilityTier::DirectAlias
            &&& told.commit is None || told.commit == shown.frame_realization
            &&& way.frame_realization is None ==> told.commit is Some && told.outcome == Some(
                RendererOutcome::Accepted,
            )
            &&& told.downgrade is None && told.failure is None && !told.stop && !told.renegotiate
            &&& silence.commit is None && silence.outcome is None
            &&& again.frame_realization == shown.frame_realization
        }),
{
}

/// An answer to a frame that was not waiting changes nothing and is not told.
pub proof fn law_answers_need_a_waiting_frame(
    way: DirectPresentation,
    outcome: ExternalFrameOutcome,
    decode: Option<DecodeMode>,
    active: bool,
    timeout: Duration,
    now: Instant,
)
    requires
        !way.pending_external,
    ensures
        ({
            let (after, told) = way.answered(outcome, decode, active, timeout, now);
            &&& after == way
            &&& told.commit is None && told.outcome is None && told.downgrade is None
            &&& !told.renegotiate && !told.stop && told.failure is None
            &&& !external_frame_outcome_certifies(false, outcome)
        }),
{
}

/// The first refusal of a shared frame steps down to system memory: the session is told why
/// and asked for such frames, nothing ends, what is on display stays, and time for the step
/// begins. A second refusal ends presentation and stops the session.
pub proof fn law_refusal_steps_down_once(
    way: DirectPresentation,
    outcome: ExternalFrameOutcome,
    decode: Option<DecodeMode>,
    timeout: Duration,
    now: Instant,
)
    requires
        way.pending_external,
        outcome != ExternalFrameOutcome::Accepted,
        now.checked_add(timeout) is Some,
        now.nanos + timeout.nanos <= u128::MAX,
    ensures
        way.transition == PresentationTransition::Direct ==> ({
            let (after, told) = way.answered(outcome, decode, true, timeout, now);
            &&& after.transition == PresentationTransition::Downgrading
            &&& !after.direct_import
            &&& after.direct_alias_supported == Some(false)
            &&& !after.pending_external
            &&& after.direct_display == way.direct_display
            &&& after.has_presented_frame == way.has_presented_frame
            &&& after.frame_realization == way.frame_realization
            &&& after.budget.deadline is Some
            &&& after.budget.deadline->0.nanos == now.nanos + timeout.nanos
            &&& told.downgrade is Some
            &&& told.outcome is Some && told.outcome != Some(RendererOutcome::Accepted)
            &&& told.renegotiate
            &&& !told.stop && told.failure is None && told.commit is None
        }),
        way.transition == PresentationTransition::Downgrading || way.transition
            == PresentationTransition::SystemMemory ==> ({
            let (after, told) = way.answered(outcome, decode, true, timeout, now);
            &&& after.transition == PresentationTransition::Fatal
            &&& told.stop
            &&& told.failure == Some(PresentationFailure::FailedDuringDowngrade)
            &&& told.downgrade is Some
            &&& !told.renegotiate
            &&& !after.pending_frame && !after.pending_external && !after.direct_import
        }),
{
}

/// Each answer of the renderer is told as itself, and only acceptance gives no reason to
/// step down; different refusals give different reasons.
pub proof fn law_answers_are_told_apart(one: ExternalFrameOutcome, other: ExternalFrameOutcome)
    ensures
        renderer_feedback(one).1 is None <==> one == ExternalFrameOutcome::Accepted,
        renderer_feedback(one).0 == RendererOutcome::Accepted <==> one
            == ExternalFrameOutcome::Accepted,
        renderer_feedback(one).0 == RendererOutcome::FatalFailure <==> one
            == ExternalFrameOutcome::FatalFailure,
        renderer_feedback(one).0 == RendererOutcome::Unsupported <==> one
            == ExternalFrameOutcome::Unsupported,
        renderer_feedback(one).1 == renderer_feedback(other).1 <==> one == other,
        renderer_feedback(ExternalFrameOutcome::Unsupported).1 == Some(
            CapabilityDowngradeReason::RendererUnsupported,
        ),
        renderer_feedback(ExternalFrameOutcome::TransientFailure).1 == Some(
            CapabilityDowngradeReason::RendererTransientFailure,
        ),
        import_failure_classification(ImportFailure::UnsupportedAcquireSync).1
            == CapabilityDowngradeReason::UnsafeSync,
        import_failure_classification(ImportFailure::ImportFailed).1
            == CapabilityDowngradeReason::TransientImport,
        import_failure_classification(ImportFailure::UnsupportedFrame)
            == import_failure_classification(ImportFailure::InvalidLayout),
        import_failure_classification(ImportFailure::InvalidLayout).1
            == CapabilityDowngradeReason::UnsupportedImport,
{
}

/// Failures of the hardware, of importing, of its synchronization and of colour end sharing;
/// those that the renderer reported itself, and a step that took too long, are none of these.
pub proof fn law_what_ends_sharing(reason: CapabilityDowngradeReason)
    ensures
        ends_sharing(CapabilityDowngradeReason::HardwareOpenFailure),
        ends_sharing(CapabilityDowngradeReason::HardwareDecodeFailure),
        ends_sharing(CapabilityDowngradeReason::HardwareUnavailable),
        ends_sharing(CapabilityDowngradeReason::UnsafeSync),
        ends_sharing(CapabilityDowngradeReason::UnsupportedImport),
        ends_sharing(CapabilityDowngradeReason::UnsupportedColor),
        reason == CapabilityDowngradeReason::RendererUnsupported || reason
            == CapabilityDowngradeReason::RendererTransientFailure || reason
            == CapabilityDowngradeReason::RendererFatalFailure || reason
            == CapabilityDowngradeReason::TransientImport || reason
            == CapabilityDowngradeReason::TransitionTimeout ==> !ends_sharing(reason),
{
}

/// The first answer to a shared frame is waited for where it was taken up, and else steps
/// down; one frame is with the renderer at a time.
pub proof fn law_one_frame_is_with_the_renderer(
    way: DirectPresentation,
    outcome: ExternalFrameOutcome,
    active: bool,
    timeout: Duration,
    now: Instant,
)
    requires
        way.transition == PresentationTransition::Direct,
    ensures
        way.stages_import() <==> !way.pending_external,
        outcome == ExternalFrameOutcome::Accepted ==> ({
            let (after, told) = way.staging(outcome, active, timeout, now);
            &&& after.pending_external
            &&& !after.stages_import()
            &&& after.direct_display == way.direct_display
            &&& after.transition == way.transition
            &&& told.commit is None && told.downgrade is None && told.failure is None
        }),
        outcome != ExternalFrameOutcome::Accepted ==> ({
            let (after, told) = way.staging(outcome, active, timeout, now);
            &&& after.transition == PresentationTransition::Downgrading
            &&& !after.pending_external
            &&& told.downgrade is Some
            &&& told.renegotiate
        }),
{
}

/// A frame in system memory is uploaded whatever the way; a shared one is imported only on
/// the direct way once sharing is known to work, under the epoch of the moment, and dropped
/// else.
pub proof fn law_frames_take_their_way(way: DirectPresentation)
    requires
        way.transition != PresentationTransition::Fatal,
    ensures
        way.frame_step(false) == FrameStep::Upload,
        way.transition == PresentationTransition::Direct && way.direct_alias_supported == Some(
            true,
        ) ==> way.frame_step(true) == FrameStep::Import(way.presentation_epoch),
        way.transition != PresentationTransition::Direct || way.direct_alias_supported != Some(
            true,
        ) ==> way.frame_step(true) == FrameStep::DropFrame,
{
}

/// An uploaded frame ends a step down: frames come from system memory from then on, there is
/// no deadline any more, and the renderer lets go of what was shared. The session is told of
/// the way once.
pub proof fn law_upload_ends_the_step_down(way: DirectPresentation, decode: DecodeMode, yuv: bool)
    ensures
        ({
            let (after, told) = way.after_upload(UploadOutcome::Uploaded, Some(decode), yuv);
            let (_, silence) = after.after_upload(UploadOutcome::Uploaded, Some(decode), yuv);
            &&& after.transition == PresentationTransition::SystemMemory
            &&& after.budget.deadline is None && after.budget.remaining is None
            &&& !after.pending_frame
            &&& !after.owns_external_frame()
            &&& after.frame_realization is Some
            &&& after.frame_realization->0.decode == decode
            &&& after.frame_realization->0.import == ImportMode::CpuUpload
            &&& yuv <==> after.frame_realization->0.conversion == ConversionMode::YuvShader
            &&& after.capability() == CapabilityTier::SystemMemoryUpload
            &&& told.commit is None ==> way.frame_realization == after.frame_realization
            &&& told.commit is Some ==> told.commit == after.frame_realization
            &&& told.failure is None && told.downgrade is None && !told.stop
            &&& silence.commit is None
            &&& way.upload_releases(UploadOutcome::Uploaded, Some(decode)) <==> (
            way.pending_retirement || way.pending_external || way.direct_display)
        }),
{
}

/// An upload that fails ends presentation, each kind with its own error; nothing is shared
/// or let go by it.
pub proof fn law_failed_upload_ends_presentation(
    way: DirectPresentation,
    upload: UploadOutcome,
    decode: Option<DecodeMode>,
    yuv: bool,
)
    requires
        way.transition != PresentationTransition::Fatal,
        upload != UploadOutcome::Uploaded || decode is None,
    ensures
        ({
            let (after, told) = way.after_upload(upload, decode, yuv);
            &&& after.transition == PresentationTransition::Fatal
            &&& told.stop
            &&& told.commit is None
            &&& !way.upload_releases(upload, decode)
            &&& upload == UploadOutcome::Uploaded ==> told.failure == Some(
                PresentationFailure::NoModeForCpuFrame,
            ) && told.downgrade is None
            &&& upload == UploadOutcome::UnsupportedAcquireSync ==> told.failure == Some(
                PresentationFailure::UnsafeAcquire,
            ) && told.downgrade == Some(CapabilityDowngradeReason::UnsafeSync)
            &&& upload == UploadOutcome::Unsupported ==> told.failure == Some(
                PresentationFailure::UploadFailed,
            ) && told.downgrade == Some(CapabilityDowngradeReason::UnsupportedImport)
        }),
{
}

/// Presentation that fails stops the session, tells it why, and keeps no frame waiting; what
/// is on display stays.
pub proof fn law_failure_stops_the_session(
    way: DirectPresentation,
    reason: Option<CapabilityDowngradeReason>,
    failure: PresentationFailure,
)
    requires
        way.transition != PresentationTransition::Fatal,
    ensures
        ({
            let (after, told) = way.failing(reason, failure);
            &&& after.transition == PresentationTransition::Fatal
            &&& told.failure == Some(failure)
            &&& told.downgrade == reason
            &&& told.stop
            &&& told.commit is None
            &&& !after.pending_frame && !after.pending_external && !after.direct_import
            &&& after.budget.deadline is None
            &&& after.direct_display == way.direct_display
            &&& after.has_presented_frame == way.has_presented_frame
        }),
{
}

/// Whether frames can be shared is found out once, on the direct way, when the card can be
/// asked: a card of the right vendor with Vulkan and textures in NV12 gets a thread for
/// imports, any other steps down.
pub proof fn law_route_is_found_once(way: DirectPresentation, gpu: GpuFacts)
    ensures
        ({
            let seeks = way.transition == PresentationTransition::Direct && way.has_session
                && way.direct_alias_supported is None;
            let fits = gpu.vulkan && gpu.vendor == 0x8086 && gpu.nv12;
            &&& way.ensure_direct_import_route(None::<GpuFacts>) == RouteStep::Nothing
            &&& way.ensure_direct_import_route(Some(gpu)) == RouteStep::StartWorker <==> seeks
                && fits
            &&& way.ensure_direct_import_route(Some(gpu)) is StepDown <==> seeks && !fits
        }),
{
}

/// A new session starts on the direct way with nothing known, and the renderer is to let go
/// of what the old one shared; a renderer that has let go holds nothing.
pub proof fn law_new_session_starts_direct(way: DirectPresentation)
    ensures
        way.restarted().transition == PresentationTransition::Direct,
        way.restarted().direct_alias_supported is None,
        way.restarted().budget.deadline is None && way.restarted().budget.remaining is None,
        way.restarted().frame_realization is None,
        way.restarted().pending_retirement,
        !way.restarted().pending_frame && !way.restarted().direct_import,
        way.restarted().presentation_epoch == way.presentation_epoch,
        way.restarted().owns_external_frame(),
        !way.retired().owns_external_frame(),
        way.retired().transition == way.transition,
        way.retiring().pending_retirement,
        !way.retiring().direct_display && !way.retiring().pending_external,
        way.invalidated().direct_display == way.direct_display,
        !way.invalidated().pending_frame,
        way.invalidated().transition == way.transition,
        way.presentation_epoch < u64::MAX ==> way.invalidated().presentation_epoch
            == way.presentation_epoch + 1,
{
}

/// Both television transfers are read alike; what the renderer does not know is not read.
pub proof fn law_unknown_transfers_are_not_read(transfer: ColorTransfer)
    ensures
        renderer_transfer(transfer) is None <==> transfer == ColorTransfer::Other,
        renderer_transfer(transfer) == Some(VideoTransferFunction::Srgb) <==> transfer
            == ColorTransfer::Srgb,
{
}

} // verus!
