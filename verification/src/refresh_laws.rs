//! What holds of a refresh of the screen, answer by answer.

use crate::core_refresh::{CoreAction, CoreEvent, CorePhase, CoreProgress, ShownFrame};
use crate::frame_scheduler::DriftEstimate;
use crate::gpui_video_player::GpuiVideoPlayer;
use crate::linux_refresh::{
    ImportOffer, LinuxAction, LinuxEvent, LinuxPhase, LinuxProgress, NextEvent, RefreshStop,
    UploadReport,
};
use crate::player::{FramePollResult, InitEvent};
use crate::presentation::{
    ColorTransfer, DirectPresentation, ExternalFrameOutcome, Feedback, GpuFacts,
    PresentationFailure, PresentationTransition, UploadOutcome, VideoTransferFunction,
};
use crate::session::{SessionEvent, SessionState};
use crate::time::{ClockReading, Duration, Instant};
use vstd::prelude::*;

verus! {

/// While playback is wanted the frame that the scheduler gives is the one that is shown, and
/// where it gives none, none is.
pub proof fn law_refresh_shows_the_frame_that_is_due(
    gpu: bool,
    estimate: DriftEstimate,
    before: GpuiVideoPlayer,
    after: GpuiVideoPlayer,
    clock: ClockReading,
    progress: CoreProgress,
)
    requires
        before.core is Some,
        crate::core_refresh::refreshed(
            CorePhase::Polling,
            gpu,
            CoreEvent::Estimate(estimate),
            before,
            after,
            clock,
            progress,
        ),
    ensures
        ({
            let result = before.core->0.poll_result(clock, estimate);
            &&& result matches FramePollResult::NewFrame(frame) ==> progress.action
                == CoreAction::Show(frame) && progress.phase is Showing
            &&& !(result is NewFrame) ==> progress.action is GoOn && progress.phase is Finishing
            &&& after.preview == before.preview
            &&& after.config == before.config
        }),
{
}

/// A frame is looked for where there is a graphics card: in playback while that is wanted,
/// else the preview, where one is asked for and waits. Without one the refresh goes on to its
/// end.
pub proof fn law_refresh_looks_for_a_frame(
    gpu: bool,
    interval: Option<Duration>,
    before: GpuiVideoPlayer,
    after: GpuiVideoPlayer,
    clock: ClockReading,
    progress: CoreProgress,
)
    requires
        before.core is Some,
        crate::core_refresh::refreshed(
            CorePhase::Syncing,
            gpu,
            CoreEvent::Interval(interval),
            before,
            after,
            clock,
            progress,
        ),
    ensures
        after.core is Some,
        !gpu ==> progress.phase is Finishing,
        gpu && after.core->0.scheduler.playback_requested ==> progress.action is AskEstimate,
        ({
            let waits = !after.core->0.scheduler.playback_requested && (after.state is Ready
                || after.state is Paused) && after.preview.refresh_requested
                && after.core->0.decode.frame_queue.frames@.len() > 0;
            &&& gpu && waits ==> progress.action == CoreAction::Show(
                after.core->0.decode.frame_queue.frames@[0],
            )
            &&& gpu && !waits && !after.core->0.scheduler.playback_requested ==> progress.phase
                is Finishing
        }),
        after.state == before.state,
        after.playback == before.playback,
{
}

/// A frame that was uploaded answers the wish for a preview; one that could not be changes
/// nothing, and the preview is still wanted.
pub proof fn law_shown_frame_answers_the_preview(
    gpu: bool,
    shown: ShownFrame,
    before: GpuiVideoPlayer,
    after: GpuiVideoPlayer,
    clock: ClockReading,
    progress: CoreProgress,
)
    requires
        crate::core_refresh::refreshed(
            CorePhase::Showing,
            gpu,
            CoreEvent::Shown(shown),
            before,
            after,
            clock,
            progress,
        ),
    ensures
        shown is Uploaded ==> !after.preview.refresh_requested && progress.phase is Finishing,
        shown is Failed ==> after == before && progress.phase is Finishing,
        shown is Uploaded && before.platform is Android ==> after.android.disabled,
        after.core == before.core,
        after.playback == before.playback,
{
}

/// A refresh ends with what the core knows. While there is more to show nothing ends. After
/// the last frame playback begins anew at the beginning where it loops, and else has ended.
pub proof fn law_refresh_ends_or_loops_after_the_last_frame(
    gpu: bool,
    before: GpuiVideoPlayer,
    after: GpuiVideoPlayer,
    clock: ClockReading,
    progress: CoreProgress,
)
    requires
        before.core is Some,
        before.core->0.decoding,
        crate::core_refresh::refreshed(
            CorePhase::Finishing,
            gpu,
            CoreEvent::Done,
            before,
            after,
            clock,
            progress,
        ),
    ensures
        ({
            let queue = before.core->0.decode.frame_queue;
            let over = queue.eos && queue.frames@.len() == 0;
            let again = before.config.looping && !before.playback.loop_seek_pending;
            &&& after.core is Some
            &&& after.state == after.core->0.state
            &&& !over ==> after.core == before.core && after.playback.loop_seek_pending
                == before.playback.loop_seek_pending
            &&& over && !again ==> after.state is Ended && !after.playback.loop_seek_pending
            &&& over && again ==> after.state is Playing && after.playback.loop_seek_pending
                && after.preview.refresh_requested
                && after.core->0.scheduler.current_position.nanos == 0
                && after.core->0.scheduler.playback_requested
        }),
{
}

/// A source that is being opened is asked after until it is open, and only then synced.
pub proof fn law_refresh_asks_after_the_opening(
    gpu: bool,
    event: InitEvent,
    before: GpuiVideoPlayer,
    after: GpuiVideoPlayer,
    clock: ClockReading,
    progress: CoreProgress,
)
    requires
        before.core is Some,
        crate::core_refresh::refreshed(
            CorePhase::Opening,
            gpu,
            CoreEvent::Opening(event),
            before,
            after,
            clock,
            progress,
        ),
    ensures
        progress.action is AskInterval,
        CoreProgress::to_open(&before).action is AskOpening <==> !before.playback.initialized,
        CoreProgress::to_open(&before).action is AskInterval <==> before.playback.initialized,
{
}

/// A session that has come to its end is sent to the beginning and played where it loops,
/// once; else the refresh ends.
pub proof fn law_session_loops_once(
    before: GpuiVideoPlayer,
    after: GpuiVideoPlayer,
    now: Instant,
    progress: LinuxProgress,
)
    requires
        crate::linux_refresh::refreshed(
            LinuxPhase::Finishing,
            LinuxEvent::Done,
            before,
            after,
            now,
            progress,
        ),
    ensures
        ({
            let loops = before.state is Ended && before.config.looping
                && !before.playback.loop_seek_pending && before.presentation.has_session;
            &&& loops ==> progress.action == LinuxAction::SeekSession(Duration { nanos: 0 })
                && after.playback.loop_seek_pending && after.preview.refresh_requested
            &&& !loops ==> progress.action is End && after == before
        }),
{
}

/// After the seek of a loop comes its play, whatever the session made of the seek.
pub proof fn law_loop_seeks_then_plays(
    accepted: bool,
    ended: bool,
    before: GpuiVideoPlayer,
    after: GpuiVideoPlayer,
    now: Instant,
    progress: LinuxProgress,
)
    requires
        crate::linux_refresh::refreshed(
            LinuxPhase::LoopSeek,
            LinuxEvent::Ordered { accepted, was_ended: ended },
            before,
            after,
            now,
            progress,
        ),
    ensures
        progress.action is PlaySession,
        accepted ==> after.presentation.presentation_epoch
            != before.presentation.presentation_epoch,
        !accepted ==> after == before,
        after.playback == before.playback,
{
}

/// A frame of the session goes its way: one in the memory of the driver to the import thread
/// where frames are shared, under the epoch of the moment, any other waits to be uploaded.
/// Playback stands at its time.
pub proof fn law_session_frames_go_their_way(
    pts: Duration,
    dmabuf: bool,
    before: GpuiVideoPlayer,
    after: GpuiVideoPlayer,
    now: Instant,
    progress: LinuxProgress,
)
    requires
        before.presentation.transition != PresentationTransition::Fatal,
        crate::linux_refresh::refreshed(
            LinuxPhase::Polling,
            LinuxEvent::Next(NextEvent::Event(SessionEvent::Frame { pts, frame: dmabuf })),
            before,
            after,
            now,
            progress,
        ),
    ensures
        after.playback.position == pts,
        !after.playback.loop_seek_pending,
        !dmabuf ==> after.presentation.pending_frame,
        dmabuf ==> after.presentation.pending_frame == before.presentation.pending_frame,
        ({
            let shares = dmabuf && before.presentation.transition
                == PresentationTransition::Direct && before.presentation.direct_alias_supported
                == Some(true);
            &&& shares ==> progress.action == LinuxAction::Enqueue(
                before.presentation.presentation_epoch,
            )
            &&& !shares ==> !(progress.action is Enqueue)
        }),
        after.state == before.state,
{
}

/// A session that becomes ready for the first time is played where that is wanted.
pub proof fn law_ready_session_is_played(
    before: GpuiVideoPlayer,
    after: GpuiVideoPlayer,
    now: Instant,
    progress: LinuxProgress,
)
    requires
        before.presentation.transition != PresentationTransition::Fatal,
        crate::linux_refresh::refreshed(
            LinuxPhase::Polling,
            LinuxEvent::Next(
                NextEvent::Event(SessionEvent::StateChanged { state: SessionState::Ready }),
            ),
            before,
            after,
            now,
            progress,
        ),
    ensures
        progress.action is PlaySession <==> before.config.autoplay
            && !before.playback.initialized,
        after.state is Ready,
        after.playback.initialized,
{
}

/// An imported frame is handed to the renderer as it is to be read, one at a time; one whose
/// colours the renderer cannot read, or that could not be imported, steps down.
pub proof fn law_imported_frames_are_staged(
    offer: ImportOffer,
    before: GpuiVideoPlayer,
    after: GpuiVideoPlayer,
    now: Instant,
    progress: LinuxProgress,
)
    requires
        before.presentation.transition == PresentationTransition::Direct,
        crate::linux_refresh::refreshed(
            LinuxPhase::Importing,
            LinuxEvent::Import(offer),
            before,
            after,
            now,
            progress,
        ),
    ensures
        offer is Nothing ==> after == before && !(progress.action is Stage),
        offer matches ImportOffer::Imported(transfer) ==> {
            &&& before.presentation.pending_external ==> after == before
            &&& !before.presentation.pending_external && transfer == ColorTransfer::Srgb
                ==> progress.action == LinuxAction::Stage(VideoTransferFunction::Srgb)
            &&& !before.presentation.pending_external && (transfer == ColorTransfer::Bt709
                || transfer == ColorTransfer::Bt601) ==> progress.action == LinuxAction::Stage(
                VideoTransferFunction::Bt709,
            )
            &&& !before.presentation.pending_external && transfer == ColorTransfer::Other
                ==> after.presentation.transition == PresentationTransition::Downgrading
        },
        offer matches ImportOffer::Failed(_) ==> after.presentation.transition
            == PresentationTransition::Downgrading,
{
}

/// A frame that waits is uploaded; once it is, the way is that of system memory, and the
/// renderer lets go of what it held before anything else is told.
pub proof fn law_waiting_frames_are_uploaded(
    report: UploadReport,
    before: GpuiVideoPlayer,
    after: GpuiVideoPlayer,
    now: Instant,
    progress: LinuxProgress,
)
    requires
        report.outcome == UploadOutcome::Uploaded,
        report.decode is Some,
        crate::linux_refresh::refreshed(
            LinuxPhase::Uploading,
            LinuxEvent::Uploaded(Some(report)),
            before,
            after,
            now,
            progress,
        ),
    ensures
        after.presentation.transition == PresentationTransition::SystemMemory,
        !after.presentation.pending_frame,
        before.presentation.owns_external_frame() <==> progress.action is ClearExternal,
        after.state == before.state,
        LinuxProgress::to_upload(before.presentation).action is Upload
            <==> before.presentation.pending_frame,
{
}

/// A session that will not give other frames when asked ends presentation; one that takes
/// what it was told changes nothing.
pub proof fn law_rejected_request_ends_presentation(
    feedback: Feedback,
    stop: RefreshStop,
    accepted: bool,
    before: GpuiVideoPlayer,
    after: GpuiVideoPlayer,
    now: Instant,
    progress: LinuxProgress,
)
    requires
        before.presentation.transition != PresentationTransition::Fatal,
        crate::linux_refresh::refreshed(
            LinuxPhase::Telling(feedback, stop),
            LinuxEvent::Told(accepted),
            before,
            after,
            now,
            progress,
        ),
    ensures
        accepted || !feedback.renegotiate ==> after == before,
        feedback.renegotiate && !accepted ==> {
            &&& after.presentation.transition == PresentationTransition::Fatal
            &&& after.state is Error
            &&& progress.action matches LinuxAction::Tell(told) && told.stop && told.failure
                == Some(PresentationFailure::DowngradeRejected)
        },
{
}

/// The graphics card is asked once whether frames can be shared: one that can gets a thread
/// for imports, which, once it runs, shares; one that cannot steps down.
pub proof fn law_card_decides_on_sharing(
    gpu: GpuFacts,
    before: GpuiVideoPlayer,
    after: GpuiVideoPlayer,
    now: Instant,
    progress: LinuxProgress,
)
    requires
        before.presentation.seeks_route(),
        crate::linux_refresh::refreshed(
            LinuxPhase::Routing,
            LinuxEvent::Gpu(Some(gpu)),
            before,
            after,
            now,
            progress,
        ),
    ensures
        gpu.vulkan && gpu.vendor == 0x8086 && gpu.nv12 <==> progress.action is StartWorker,
        progress.action is StartWorker ==> after == before,
        !(progress.action is StartWorker) ==> after.presentation.transition
            == PresentationTransition::Downgrading,
{
}

/// An import thread that runs shares frames from then on; one that would not start steps
/// down.
pub proof fn law_import_thread_shares(
    started: bool,
    before: GpuiVideoPlayer,
    after: GpuiVideoPlayer,
    now: Instant,
    progress: LinuxProgress,
)
    requires
        before.presentation.transition == PresentationTransition::Direct,
        crate::linux_refresh::refreshed(
            LinuxPhase::StartingWorker,
            LinuxEvent::WorkerStarted(started),
            before,
            after,
            now,
            progress,
        ),
    ensures
        started ==> after.presentation.direct_import && after.presentation.direct_alias_supported
            == Some(true) && after.presentation.transition == PresentationTransition::Direct,
        !started ==> after.presentation.transition == PresentationTransition::Downgrading
            && !after.presentation.direct_import,
{
}

/// Once presentation has ended so does every refresh, at its next step.
pub proof fn law_ended_presentation_ends_the_refresh(
    stop: RefreshStop,
    way: DirectPresentation,
)
    ensures
        way.transition == PresentationTransition::Fatal ==> LinuxProgress::at(stop, way).action
            is End,
        way.transition != PresentationTransition::Fatal ==> !(LinuxProgress::at(stop, way).action
            is End),
{
}

/// A native frame that the renderer accepts answers the wish for a preview; one that it
/// refuses gives native frames up, and the preview is wanted again.
pub proof fn law_accepted_native_frame_answers_the_preview(
    gpu: bool,
    outcome: ExternalFrameOutcome,
    before: GpuiVideoPlayer,
    after: GpuiVideoPlayer,
    clock: ClockReading,
    progress: CoreProgress,
)
    requires
        before.android.pending,
        !before.android.disabled,
        crate::core_refresh::refreshed(
            CorePhase::Answering,
            gpu,
            CoreEvent::Outcome(Some(outcome)),
            before,
            after,
            clock,
            progress,
        ),
    ensures
        outcome == ExternalFrameOutcome::Accepted ==> !after.preview.refresh_requested
            && after.android.native_presented && !after.android.pending,
        outcome != ExternalFrameOutcome::Accepted ==> after.preview.refresh_requested
            && after.android.disabled && progress.action is Restore,
        after.core == before.core,
        after.playback == before.playback,
{
}

/// A native frame goes to the import thread once; without an image of its own it gives native
/// frames up.
pub proof fn law_native_frames_go_to_the_import_thread(
    gpu: bool,
    frame: u64,
    before: GpuiVideoPlayer,
    after: GpuiVideoPlayer,
    clock: ClockReading,
    progress: CoreProgress,
)
    requires
        !before.android.disabled,
        before.android.worker,
        crate::core_refresh::refreshed(
            CorePhase::Showing,
            gpu,
            CoreEvent::Shown(ShownFrame::Native(Some(frame))),
            before,
            after,
            clock,
            progress,
        ),
    ensures
        before.android.last_frame != Some(frame) ==> progress.action == CoreAction::Send(frame),
        before.android.last_frame == Some(frame) ==> progress.phase is Finishing,
        after == before,
{
}

} // verus!
