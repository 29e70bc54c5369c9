//! What holds of the way that native frames of Android take.

use crate::android_import::{
    deadline_after, has_passed, AndroidImport, AndroidStep, ImportReply,
};
use crate::presentation::ExternalFrameOutcome;
use crate::session::{DecodeMode, ImportMode};
use crate::time::{Duration, Instant};
use vstd::prelude::*;

verus! {

/// A deadline is as far off as its time-out, and has passed from then on.
pub proof fn law_deadlines_pass_in_their_time(now: Instant, timeout: Duration, later: Instant)
    requires
        now.checked_add(timeout) is Some,
        now.nanos + timeout.nanos <= u128::MAX,
    ensures
        deadline_after(now, timeout).nanos == now.nanos + timeout.nanos,
        has_passed(Some(deadline_after(now, timeout)), later) <==> later.nanos >= now.nanos
            + timeout.nanos,
        !has_passed(None::<Instant>, later),
{
}

/// A frame is handed to the import thread once: the same frame again is left, the next one
/// is sent. The thread is started for the first frame, where the graphics card is known. A
/// frame without an image of its own gives native frames up.
pub proof fn law_frames_are_sent_once(
    import: AndroidImport,
    frame: u64,
    other: u64,
    now: Instant,
    timeout: Duration,
    gpu: bool,
)
    requires
        !import.disabled,
        import.last_frame != Some(frame),
        other != frame,
    ensures
        import.worker ==> import.queueing(Some(frame), gpu).1 == AndroidStep::Send(frame),
        !import.worker && gpu ==> import.queueing(Some(frame), gpu).1 == AndroidStep::StartWorker(
            frame,
        ),
        !import.worker && !gpu ==> import.queueing(Some(frame), gpu).1 == AndroidStep::Nothing,
        import.queueing(Some(frame), gpu).0 == import,
        ({
            let sent = import.sending(frame, true, now, timeout).0;
            &&& sent.worker
            &&& sent.import_deadline is Some
            &&& sent.queueing(Some(frame), gpu).1 == AndroidStep::Nothing
            &&& sent.queueing(Some(other), gpu).1 == AndroidStep::Send(other)
            &&& sent.pending == import.pending
            &&& import.sending(frame, true, now, timeout).1 == AndroidStep::Nothing
        }),
        import.queueing(None::<u64>, gpu).0.disabled,
        import.queueing(None::<u64>, gpu).1 is GaveUp,
        import.sending(frame, false, now, timeout).0.disabled,
{
}

/// A frame that the import thread has ready is handed to the renderer, one at a time; one
/// that it took up is waited for until a deadline; when it accepts, the frame is on display
/// and nothing is waited for.
pub proof fn law_native_frame_reaches_the_screen(
    import: AndroidImport,
    source: u64,
    now: Instant,
    timeout: Duration,
    later: Instant,
)
    requires
        import.wants_import(),
        now.checked_add(timeout) is Some,
        now.nanos + timeout.nanos <= u128::MAX,
    ensures
        ({
            let ready = import.importing(ImportReply::Ready(source), now, timeout).0;
            let staged = ready.staging(Some(ExternalFrameOutcome::Accepted), now, timeout).0;
            let shown = staged.answered(Some(ExternalFrameOutcome::Accepted)).0;
            &&& !ready.disabled
            &&& staged.pending
            &&& !staged.wants_import()
            &&& staged.owns_external_frame()
            &&& staged.native_presented == import.native_presented
            &&& staged.awaiting(later).0.disabled <==> later.nanos >= now.nanos + timeout.nanos
            &&& staged.answered(None::<ExternalFrameOutcome>).0 == staged
            &&& shown.native_presented
            &&& !shown.pending
            &&& shown.presentation_deadline is None
            &&& shown.wants_import()
            &&& shown.awaiting(later).0 == shown
            &&& shown.owns_external_frame()
        }),
{
}

/// While an import is under way nothing is given up before its deadline; with the frame that
/// was handed over last in hand there is no deadline, with an older one the next has a new
/// one.
pub proof fn law_imports_have_their_time(
    import: AndroidImport,
    last: u64,
    deadline: Instant,
    source: u64,
    now: Instant,
    timeout: Duration,
)
    requires
        !import.disabled,
        import.last_frame == Some(last),
        import.import_deadline == Some(deadline),
        now.checked_add(timeout) is Some,
        now.nanos + timeout.nanos <= u128::MAX,
    ensures
        import.importing(ImportReply::Empty, now, timeout).0.disabled <==> now.nanos
            >= deadline.nanos,
        now.nanos < deadline.nanos ==> import.importing(ImportReply::Empty, now, timeout).0
            == import,
        import.importing(ImportReply::Ready(last), now, timeout).0.import_deadline is None,
        source != last ==> import.importing(
            ImportReply::Ready(source),
            now,
            timeout,
        ).0.import_deadline is Some && import.importing(
            ImportReply::Ready(source),
            now,
            timeout,
        ).0.import_deadline->0.nanos == now.nanos + timeout.nanos,
        import.importing(ImportReply::Failed, now, timeout).0.disabled,
        import.importing(ImportReply::Disconnected, now, timeout).0.disabled,
{
}

/// Native frames are given up once: the decoder is to be asked for others, the thread ends,
/// the renderer is to let go, and a frame that waited is taken back. An answer to a frame
/// that does not wait means nothing; any but acceptance of one that does gives up.
pub proof fn law_giving_up_happens_once(
    import: AndroidImport,
    outcome: ExternalFrameOutcome,
    now: Instant,
    timeout: Duration,
)
    requires
        !import.disabled,
    ensures
        ({
            let (after, step) = import.giving_up();
            &&& after.disabled
            &&& after.fallback_pending
            &&& after.retirement_pending
            &&& !after.worker && !after.pending
            &&& after.last_frame is None
            &&& after.import_deadline is None && after.presentation_deadline is None
            &&& step == AndroidStep::GaveUp { restore: import.pending }
            &&& after.giving_up() == (after, AndroidStep::Nothing)
        }),
        !import.pending ==> import.answered(Some(outcome)) == (import, AndroidStep::Nothing),
        import.pending && outcome != ExternalFrameOutcome::Accepted ==> import.answered(
            Some(outcome),
        ).0.disabled,
        outcome != ExternalFrameOutcome::Accepted ==> import.staging(
            Some(outcome),
            now,
            timeout,
        ).0.disabled,
        import.staging(None::<ExternalFrameOutcome>, now, timeout).0.disabled,
{
}

/// A frame from system memory on display ends the native way: nothing is asked for any more,
/// and the renderer lets go of what it held. Another source tries native frames anew.
pub proof fn law_upload_ends_the_native_way(import: AndroidImport)
    ensures
        import.after_cpu_upload().disabled,
        !import.after_cpu_upload().fallback_pending,
        !import.after_cpu_upload().native_presented,
        !import.after_cpu_upload().pending,
        import.after_cpu_upload().retirement_pending <==> import.owns_external_frame(),
        import.after_cpu_upload().import_deadline is None,
        !import.reopened().disabled,
        !import.reopened().fallback_pending,
        import.reopened().retirement_pending,
        !import.reopened().pending && !import.reopened().worker,
        import.after_reset().native_presented == import.native_presented,
        import.after_reset().disabled == import.disabled,
        import.after_reset().retirement_pending,
        import.after_reset().last_frame is None,
        !import.after_reset().pending,
{
}

/// A native frame counts as copied on the graphics card, another as uploaded, and each as
/// decoded the way it was.
pub proof fn law_native_frames_count_as_gpu_copies(import: AndroidImport, hardware: bool, nv12: bool)
    ensures
        import.frame_realization(hardware, nv12).import == ImportMode::GpuCopy
            <==> import.native_presented,
        import.frame_realization(hardware, nv12).import == ImportMode::CpuUpload
            <==> !import.native_presented,
        import.frame_realization(hardware, nv12).decode == DecodeMode::Hardware <==> hardware,
        import.frame_realization(hardware, nv12).decode == DecodeMode::Software <==> !hardware,
{
}

} // verus!
