//! One refresh of the screen where the player decodes by itself, as a machine: it is
//! told what the decoder, the graphics card and the renderer answered, and says what
//! to ask next.

use crate::android_import::{AndroidImport, AndroidStep, ImportReply};
use crate::frame_scheduler::DriftEstimate;
use crate::gpui_video_player::{FrameSource, GpuiVideoPlayer};
use crate::player::{CorePlayer, DecoderChoice, InitEvent, Platform};
use crate::presentation::{ExternalFrameOutcome, PreviewState};
use crate::session::SessionCommand;
use crate::time::{ClockReading, Duration};
use crate::video::VideoFrame;
use vstd::prelude::*;

verus! {

/// What became of a frame that was to be shown.
#[derive(Debug, Clone, Copy, PartialEq, Eq, Structural)]
pub enum ShownFrame {
    Uploaded,
    /// The frame shown before stays.
    Failed,
    /// It lies with the driver of Android; none where its image is not its own.
    Native(Option<u64>),
}

/// What was answered.
pub enum CoreEvent {
    /// What was to be done is done.
    Done,
    /// How far the opening of the decoder has come.
    Opening(InitEvent),
    /// The time between two frames at the rate that the decode thread published.
    Interval(Option<Duration>),
    /// What the drift filter makes of the newest sample.
    Estimate(DriftEstimate),
    Shown(ShownFrame),
    /// Whether the frame reached the import thread.
    Sent(bool),
    /// The answer of the renderer, where there is one.
    Outcome(Option<ExternalFrameOutcome>),
    /// Whether the decoder heard.
    Heard(bool),
    Import(ImportReply),
    /// Whether the renderer took the texture up; none where it could not be handed
    /// over.
    Staged(Option<ExternalFrameOutcome>),
}

/// What is to be done.
#[derive(Debug, Clone, Copy, PartialEq, Eq, Structural)]
pub enum CoreAction {
    /// Nothing; answer [`CoreEvent::Done`].
    GoOn,
    AskOpening,
    AskInterval,
    AskEstimate,
    Show(VideoFrame),
    /// Start the import thread, then hand it the frame.
    StartWorker(u64),
    /// Hand the frame to the import thread.
    Send(u64),
    /// Show again what was shown before.
    Restore,
    /// Make the renderer let go of native frames, and drop its answer.
    ClearExternal,
    /// Take the answer of the renderer.
    TakeOutcome,
    /// Ask the decoder for frames in system memory.
    AskFallback,
    /// Take what the import thread has made.
    TakeImport,
    /// Hand the texture to the renderer, and drop the echo.
    Stage,
    End,
}

/// Where a refresh goes on.
#[derive(Debug, Clone, Copy, PartialEq, Eq, Structural)]
pub enum CoreStop {
    Finish,
    Android,
    Fallback,
    End,
}

/// How far a refresh has come.
#[derive(Debug, Clone, Copy, PartialEq, Eq, Structural)]
pub enum CorePhase {
    Opening,
    Syncing,
    Polling,
    Showing,
    Sending(u64),
    Restoring(CoreStop),
    Finishing,
    Retiring,
    Answering,
    FallingBack,
    /// The renderer has not answered yet.
    Waiting,
    Importing,
    Staging,
    Finished,
}

/// A phase and what is to be done in it.
#[derive(Debug, Clone, Copy, PartialEq, Eq, Structural)]
pub struct CoreProgress {
    pub phase: CorePhase,
    pub action: CoreAction,
}

impl CoreStop {
    /// Where the stop stands in the order of a refresh.
    pub open spec fn rank(self) -> int {
        match self {
            CoreStop::Finish => 7,
            CoreStop::Android => 9,
            CoreStop::Fallback => 12,
            CoreStop::End => 17,
        }
    }
}

impl CorePhase {
    /// Where the phase stands in the order of a refresh.
    pub open spec fn rank(self) -> int {
        match self {
            CorePhase::Opening => 0,
            CorePhase::Syncing => 1,
            CorePhase::Polling => 2,
            CorePhase::Showing => 3,
            CorePhase::Sending(_) => 4,
            CorePhase::Restoring(stop) => stop.rank() - 1,
            CorePhase::Finishing => 7,
            CorePhase::Retiring => 9,
            CorePhase::Answering => 10,
            CorePhase::FallingBack => 12,
            CorePhase::Waiting => 13,
            CorePhase::Importing => 14,
            CorePhase::Staging => 15,
            CorePhase::Finished => 17,
        }
    }

    /// True where an event can come in this phase.
    pub open spec fn expects(self, event: CoreEvent) -> bool {
        match self {
            CorePhase::Opening => event is Opening,
            CorePhase::Syncing => event is Interval,
            CorePhase::Polling => event is Estimate,
            CorePhase::Showing => event is Shown,
            CorePhase::Sending(_) => event is Sent,
            CorePhase::Restoring(_) | CorePhase::Finishing | CorePhase::Retiring
            | CorePhase::Waiting => event is Done,
            CorePhase::Answering => event is Outcome,
            CorePhase::FallingBack => event is Heard,
            CorePhase::Importing => event is Import,
            CorePhase::Staging => event is Staged,
            CorePhase::Finished => false,
        }
    }

    /// True where an action is the one whose answer this phase waits for.
    pub open spec fn awaits(self, action: CoreAction) -> bool {
        match self {
            CorePhase::Opening => action is AskOpening,
            CorePhase::Syncing => action is AskInterval,
            CorePhase::Polling => action is AskEstimate,
            CorePhase::Showing => action is Show,
            CorePhase::Sending(frame) => action == CoreAction::StartWorker(frame) || action
                == CoreAction::Send(frame),
            CorePhase::Restoring(_) => action is Restore,
            CorePhase::Finishing | CorePhase::Waiting => action is GoOn,
            CorePhase::Retiring => action is GoOn || action is ClearExternal,
            CorePhase::Answering => action is TakeOutcome,
            CorePhase::FallingBack => action is AskFallback,
            CorePhase::Importing => action is TakeImport,
            CorePhase::Staging => action is Stage,
            CorePhase::Finished => action is End,
        }
    }
}

impl CoreProgress {
    #[verifier::allow_in_spec]
    pub fn ended() -> CoreProgress
        returns
            (CoreProgress { phase: CorePhase::Finished, action: CoreAction::End }),
    {
        CoreProgress { phase: CorePhase::Finished, action: CoreAction::End }
    }

    /// What native frames need next.
    #[verifier::allow_in_spec]
    pub fn to_wait(player: &GpuiVideoPlayer) -> CoreProgress
        returns
            (if player.android.disabled {
                CoreProgress::ended()
            } else if player.android.pending {
                CoreProgress { phase: CorePhase::Waiting, action: CoreAction::GoOn }
            } else if player.android.worker {
                CoreProgress { phase: CorePhase::Importing, action: CoreAction::TakeImport }
            } else {
                CoreProgress::ended()
            }),
    {
        if player.android.disabled {
            CoreProgress::ended()
        } else if player.android.pending {
            CoreProgress { phase: CorePhase::Waiting, action: CoreAction::GoOn }
        } else if player.android.worker {
            CoreProgress { phase: CorePhase::Importing, action: CoreAction::TakeImport }
        } else {
            CoreProgress::ended()
        }
    }

    #[verifier::allow_in_spec]
    pub fn to_fallback(player: &GpuiVideoPlayer) -> CoreProgress
        returns
            (if player.android.fallback_pending && player.core is Some {
                CoreProgress { phase: CorePhase::FallingBack, action: CoreAction::AskFallback }
            } else {
                CoreProgress::to_wait(player)
            }),
    {
        if player.android.fallback_pending && player.core.is_some() {
            CoreProgress { phase: CorePhase::FallingBack, action: CoreAction::AskFallback }
        } else {
            CoreProgress::to_wait(player)
        }
    }

    #[verifier::allow_in_spec]
    pub fn to_answer(player: &GpuiVideoPlayer) -> CoreProgress
        returns
            (if player.android.pending {
                CoreProgress { phase: CorePhase::Answering, action: CoreAction::TakeOutcome }
            } else {
                CoreProgress::to_fallback(player)
            }),
    {
        if player.android.pending {
            CoreProgress { phase: CorePhase::Answering, action: CoreAction::TakeOutcome }
        } else {
            CoreProgress::to_fallback(player)
        }
    }

    /// What follows once the player is up to date: native frames, where there are any.
    #[verifier::allow_in_spec]
    pub fn to_android(player: &GpuiVideoPlayer) -> CoreProgress
        returns
            (if !(player.platform is Android) {
                CoreProgress::ended()
            } else if player.android.retirement_pending {
                CoreProgress { phase: CorePhase::Retiring, action: CoreAction::ClearExternal }
            } else {
                CoreProgress { phase: CorePhase::Retiring, action: CoreAction::GoOn }
            }),
    {
        match player.platform {
            Platform::Android => if player.android.retirement_pending {
                CoreProgress { phase: CorePhase::Retiring, action: CoreAction::ClearExternal }
            } else {
                CoreProgress { phase: CorePhase::Retiring, action: CoreAction::GoOn }
            },
            _ => CoreProgress::ended(),
        }
    }

    /// Where a refresh goes on.
    #[verifier::allow_in_spec]
    pub fn at(stop: CoreStop, player: &GpuiVideoPlayer) -> CoreProgress
        returns
            (match stop {
                CoreStop::Finish => CoreProgress {
                    phase: CorePhase::Finishing,
                    action: CoreAction::GoOn,
                },
                CoreStop::Android => CoreProgress::to_android(player),
                CoreStop::Fallback => CoreProgress::to_fallback(player),
                CoreStop::End => CoreProgress::ended(),
            }),
    {
        match stop {
            CoreStop::Finish => CoreProgress {
                phase: CorePhase::Finishing,
                action: CoreAction::GoOn,
            },
            CoreStop::Android => CoreProgress::to_android(player),
            CoreStop::Fallback => CoreProgress::to_fallback(player),
            CoreStop::End => CoreProgress::ended(),
        }
    }

    /// A frame is shown, where there is one.
    #[verifier::allow_in_spec]
    pub fn showing(frame: Option<VideoFrame>, player: &GpuiVideoPlayer) -> CoreProgress
        returns
            (match frame {
                Some(frame) => CoreProgress {
                    phase: CorePhase::Showing,
                    action: CoreAction::Show(frame),
                },
                None => CoreProgress::at(CoreStop::Finish, player),
            }),
    {
        match frame {
            Some(frame) => CoreProgress {
                phase: CorePhase::Showing,
                action: CoreAction::Show(frame),
            },
            None => CoreProgress::at(CoreStop::Finish, player),
        }
    }

    /// The frame to show is looked for, where there is a graphics card.
    #[verifier::allow_in_spec]
    pub fn to_frame(has_gpu: bool, player: &GpuiVideoPlayer) -> CoreProgress
        returns
            (if !has_gpu {
                CoreProgress::at(CoreStop::Finish, player)
            } else {
                match player.frame_source() {
                    FrameSource::Playback => CoreProgress {
                        phase: CorePhase::Polling,
                        action: CoreAction::AskEstimate,
                    },
                    FrameSource::Preview => CoreProgress::showing(player.preview_frame(), player),
                    FrameSource::Nowhere => CoreProgress::at(CoreStop::Finish, player),
                }
            }),
    {
        if !has_gpu {
            CoreProgress::at(CoreStop::Finish, player)
        } else {
            match player.frame_source() {
                FrameSource::Playback => CoreProgress {
                    phase: CorePhase::Polling,
                    action: CoreAction::AskEstimate,
                },
                FrameSource::Preview => CoreProgress::showing(player.preview_frame(), player),
                FrameSource::Nowhere => CoreProgress::at(CoreStop::Finish, player),
            }
        }
    }

    #[verifier::allow_in_spec]
    pub fn to_sync(player: &GpuiVideoPlayer) -> CoreProgress
        returns
            (if player.core is None {
                CoreProgress::to_android(player)
            } else {
                CoreProgress { phase: CorePhase::Syncing, action: CoreAction::AskInterval }
            }),
    {
        if player.core.is_none() {
            CoreProgress::to_android(player)
        } else {
            CoreProgress { phase: CorePhase::Syncing, action: CoreAction::AskInterval }
        }
    }

    /// What a refresh begins with.
    #[verifier::allow_in_spec]
    pub fn to_open(player: &GpuiVideoPlayer) -> CoreProgress
        returns
            (if player.core is Some && !player.playback.initialized {
                CoreProgress { phase: CorePhase::Opening, action: CoreAction::AskOpening }
            } else {
                CoreProgress::to_sync(player)
            }),
    {
        if player.core.is_some() && !player.playback.initialized {
            CoreProgress { phase: CorePhase::Opening, action: CoreAction::AskOpening }
        } else {
            CoreProgress::to_sync(player)
        }
    }
}

/// What a step about native frames comes to. Where they are given up, the preview is
/// asked for anew, and what was shown before a frame in waiting is shown again.
pub open spec fn stepped(
    before: GpuiVideoPlayer,
    after: GpuiVideoPlayer,
    step: AndroidStep,
    stop: CoreStop,
    progress: CoreProgress,
) -> bool {
    match step {
        AndroidStep::Nothing => after == before && progress == CoreProgress::at(stop, &after),
        AndroidStep::StartWorker(frame) => after == before && progress == (CoreProgress {
            phase: CorePhase::Sending(frame),
            action: CoreAction::StartWorker(frame),
        }),
        AndroidStep::Send(frame) => after == before && progress == (CoreProgress {
            phase: CorePhase::Sending(frame),
            action: CoreAction::Send(frame),
        }),
        AndroidStep::GaveUp { restore } => {
            &&& after == (GpuiVideoPlayer {
                preview: PreviewState { refresh_requested: true },
                ..before
            })
            &&& progress == (if restore {
                CoreProgress { phase: CorePhase::Restoring(stop), action: CoreAction::Restore }
            } else {
                CoreProgress::at(stop, &after)
            })
        },
    }
}

/// The player with another state of native frames.
pub open spec fn with_android(
    player: GpuiVideoPlayer,
    android: AndroidImport,
) -> GpuiVideoPlayer {
    GpuiVideoPlayer { android, ..player }
}

/// What looking for the frame that is due comes to.
pub open spec fn polled(
    before: GpuiVideoPlayer,
    after: GpuiVideoPlayer,
    clock: ClockReading,
    estimate: DriftEstimate,
    progress: CoreProgress,
) -> bool {
    exists|frame: Option<VideoFrame>| #[trigger]
        before.advanced(after, frame, clock, estimate) && progress == CoreProgress::showing(
            frame,
            &after,
        )
}

/// A player before and after it began anew.
pub open spec fn looped(
    before: GpuiVideoPlayer,
    after: GpuiVideoPlayer,
    clock: ClockReading,
) -> bool {
    exists|sought: GpuiVideoPlayer, restore: bool|
        {
            &&& #[trigger] before.sought(
                sought,
                (None::<SessionCommand>, restore),
                Duration::zero(),
                clock.unix_us,
            )
            &&& sought.played(after, None::<SessionCommand>, clock.now)
        }
}

/// What the end of a refresh comes to: at the end of the stream playback ends or
/// begins anew; then what the core player knows is taken over.
pub open spec fn finished(
    before: GpuiVideoPlayer,
    after: GpuiVideoPlayer,
    clock: ClockReading,
    progress: CoreProgress,
) -> bool {
    let (ended, loops) = before.core_end();
    let restore = loops && before.platform is Android && before.android.pending;
    &&& if loops {
        exists|anew: GpuiVideoPlayer| #[trigger]
            looped(ended, anew, clock) && after == anew.synced(clock.now)
    } else {
        after == ended.synced(clock.now)
    }
    &&& progress == (if restore {
        CoreProgress {
            phase: CorePhase::Restoring(CoreStop::Android),
            action: CoreAction::Restore,
        }
    } else {
        CoreProgress::to_android(&after)
    })
}

/// What an answer does to the player, and what comes next.
pub open spec fn refreshed(
    phase: CorePhase,
    has_gpu: bool,
    event: CoreEvent,
    before: GpuiVideoPlayer,
    after: GpuiVideoPlayer,
    clock: ClockReading,
    progress: CoreProgress,
) -> bool {
    let timeout = before.config.lifecycle_timeout;
    match (phase, event) {
        (CorePhase::Opening, CoreEvent::Opening(event)) => {
            &&& before.init_advanced(after, event, clock.now)
            &&& progress == CoreProgress::to_sync(&after)
        },
        (CorePhase::Syncing, CoreEvent::Interval(interval)) => {
            &&& after == (GpuiVideoPlayer {
                core: match before.core {
                    Some(core) => Some(core.synced(interval)),
                    None => None::<CorePlayer>,
                },
                ..before
            })
            &&& progress == CoreProgress::to_frame(has_gpu, &after)
        },
        (CorePhase::Polling, CoreEvent::Estimate(estimate)) => polled(
            before,
            after,
            clock,
            estimate,
            progress,
        ),
        (CorePhase::Showing, CoreEvent::Shown(shown)) => match shown {
            ShownFrame::Failed => {
                &&& after == before
                &&& progress == CoreProgress::at(CoreStop::Finish, &after)
            },
            ShownFrame::Uploaded => {
                &&& after == (GpuiVideoPlayer {
                    preview: PreviewState { refresh_requested: false },
                    android: if before.platform is Android {
                        before.android.after_cpu_upload()
                    } else {
                        before.android
                    },
                    ..before
                })
                &&& progress == CoreProgress::at(CoreStop::Finish, &after)
            },
            ShownFrame::Native(frame) => {
                let (android, step) = before.android.queueing(frame, has_gpu);
                stepped(with_android(before, android), after, step, CoreStop::Finish, progress)
            },
        },
        (CorePhase::Sending(frame), CoreEvent::Sent(sent)) => {
            let (android, step) = before.android.sending(frame, sent, clock.now, timeout);
            stepped(with_android(before, android), after, step, CoreStop::Finish, progress)
        },
        (CorePhase::Restoring(stop), CoreEvent::Done) => {
            &&& after == before
            &&& progress == CoreProgress::at(stop, &after)
        },
        (CorePhase::Finishing, CoreEvent::Done) => finished(before, after, clock, progress),
        (CorePhase::Retiring, CoreEvent::Done) => {
            &&& after == with_android(
                before,
                AndroidImport {
                    retirement_pending: false,
                    ..before.android
                },
            )
            &&& progress == CoreProgress::to_answer(&after)
        },
        (CorePhase::Answering, CoreEvent::Outcome(outcome)) => {
            let (android, step) = before.android.answered(outcome);
            let answered = with_android(before, android);
            stepped(
                GpuiVideoPlayer {
                    preview: PreviewState {
                        refresh_requested: before.preview.refresh_requested && !(
                        before.android.pending && outcome == Some(
                            ExternalFrameOutcome::Accepted,
                        )),
                    },
                    ..answered
                },
                after,
                step,
                CoreStop::Fallback,
                progress,
            )
        },
        (CorePhase::FallingBack, CoreEvent::Heard(heard)) => {
            &&& after == with_android(
                before,
                AndroidImport {
                    fallback_pending: before.android.fallback_pending && !heard,
                    ..before.android
                },
            )
            &&& progress == CoreProgress::to_wait(&after)
        },
        (CorePhase::Waiting, CoreEvent::Done) => {
            let (android, step) = before.android.awaiting(clock.now);
            stepped(with_android(before, android), after, step, CoreStop::End, progress)
        },
        (CorePhase::Importing, CoreEvent::Import(reply)) => {
            let (android, step) = before.android.importing(reply, clock.now, timeout);
            let replied = with_android(before, android);
            if reply is Ready {
                &&& after == replied
                &&& progress == (CoreProgress {
                    phase: CorePhase::Staging,
                    action: CoreAction::Stage,
                })
            } else {
                stepped(replied, after, step, CoreStop::End, progress)
            }
        },
        (CorePhase::Staging, CoreEvent::Staged(outcome)) => {
            let (android, step) = before.android.staging(outcome, clock.now, timeout);
            stepped(with_android(before, android), after, step, CoreStop::End, progress)
        },
        _ => true,
    }
}

/// One answer taken in: the player and what comes next are as they should be, and
/// the refresh has gone on.
#[verifier::opaque]
spec fn moved(
    phase: CorePhase,
    has_gpu: bool,
    event: CoreEvent,
    before: GpuiVideoPlayer,
    after: GpuiVideoPlayer,
    clock: ClockReading,
    progress: CoreProgress,
) -> bool {
    &&& refreshed(phase, has_gpu, event, before, after, clock, progress)
    &&& progress.phase.awaits(progress.action)
    &&& progress.phase.rank() > phase.rank()
    &&& after.wf()
}

fn take_step(
    player: &mut GpuiVideoPlayer,
    step: AndroidStep,
    stop: CoreStop,
) -> (progress: CoreProgress)
    requires
        old(player).wf(),
    ensures
        final(player).wf(),
        stepped(*old(player), *final(player), step, stop, progress),
        progress.phase.awaits(progress.action),
{
    match step {
        AndroidStep::Nothing => CoreProgress::at(stop, player),
        AndroidStep::StartWorker(frame) => CoreProgress {
            phase: CorePhase::Sending(frame),
            action: CoreAction::StartWorker(frame),
        },
        AndroidStep::Send(frame) => CoreProgress {
            phase: CorePhase::Sending(frame),
            action: CoreAction::Send(frame),
        },
        AndroidStep::GaveUp { restore } => {
            player.preview.invalidate();
            if restore {
                CoreProgress { phase: CorePhase::Restoring(stop), action: CoreAction::Restore }
            } else {
                CoreProgress::at(stop, player)
            }
        },
    }
}

fn open(
    player: &mut GpuiVideoPlayer,
    has_gpu: bool,
    event: InitEvent,
    clock: ClockReading,
) -> (progress: CoreProgress)
    requires
        old(player).wf(),
    ensures
        moved(
            CorePhase::Opening,
            has_gpu,
            CoreEvent::Opening(event),
            *old(player),
            *final(player),
            clock,
            progress,
        ),
{
    proof {
        reveal(moved);
    }
    player.check_init_complete(event, clock.now);
    CoreProgress::to_sync(player)
}

fn sync(
    player: &mut GpuiVideoPlayer,
    has_gpu: bool,
    interval: Option<Duration>,
    clock: ClockReading,
) -> (progress: CoreProgress)
    requires
        old(player).wf(),
    ensures
        moved(
            CorePhase::Syncing,
            has_gpu,
            CoreEvent::Interval(interval),
            *old(player),
            *final(player),
            clock,
            progress,
        ),
{
    proof {
        reveal(moved);
    }
    match player.core.take() {
        Some(mut core) => {
            core.sync_metadata_from_decode_thread(interval);
            player.core = Some(core);
        },
        None => {},
    }
    CoreProgress::to_frame(has_gpu, player)
}

fn poll(
    player: &mut GpuiVideoPlayer,
    has_gpu: bool,
    estimate: DriftEstimate,
    clock: ClockReading,
) -> (progress: CoreProgress)
    requires
        old(player).wf(),
    ensures
        moved(
            CorePhase::Polling,
            has_gpu,
            CoreEvent::Estimate(estimate),
            *old(player),
            *final(player),
            clock,
            progress,
        ),
{
    proof {
        reveal(moved);
    }
    let frame: Option<VideoFrame> = player.poll_playback_frame(clock, estimate);
    assert(old(player).advanced(*player, frame, clock, estimate));
    let progress: CoreProgress = CoreProgress::showing(frame, player);
    assert(polled(*old(player), *player, clock, estimate, progress));
    progress
}

fn show(
    player: &mut GpuiVideoPlayer,
    has_gpu: bool,
    shown: ShownFrame,
    clock: ClockReading,
) -> (progress: CoreProgress)
    requires
        old(player).wf(),
    ensures
        moved(
            CorePhase::Showing,
            has_gpu,
            CoreEvent::Shown(shown),
            *old(player),
            *final(player),
            clock,
            progress,
        ),
{
    proof {
        reveal(moved);
    }
    match shown {
        ShownFrame::Failed => CoreProgress::at(CoreStop::Finish, player),
        ShownFrame::Uploaded => {
            player.core_frame_shown();
            CoreProgress::at(CoreStop::Finish, player)
        },
        ShownFrame::Native(frame) => {
            let taken: AndroidStep = player.android.queue_frame(frame, has_gpu);
            take_step(player, taken, CoreStop::Finish)
        },
    }
}

fn send(
    player: &mut GpuiVideoPlayer,
    has_gpu: bool,
    frame: u64,
    sent: bool,
    clock: ClockReading,
) -> (progress: CoreProgress)
    requires
        old(player).wf(),
    ensures
        moved(
            CorePhase::Sending(frame),
            has_gpu,
            CoreEvent::Sent(sent),
            *old(player),
            *final(player),
            clock,
            progress,
        ),
{
    proof {
        reveal(moved);
    }
    let timeout: Duration = player.config.lifecycle_timeout;
    let taken: AndroidStep = player.android.frame_sent(frame, sent, clock.now, timeout);
    take_step(player, taken, CoreStop::Finish)
}

fn restore(
    player: &mut GpuiVideoPlayer,
    has_gpu: bool,
    stop: CoreStop,
    clock: ClockReading,
) -> (progress: CoreProgress)
    requires
        old(player).wf(),
    ensures
        moved(
            CorePhase::Restoring(stop),
            has_gpu,
            CoreEvent::Done,
            *old(player),
            *final(player),
            clock,
            progress,
        ),
{
    proof {
        reveal(moved);
    }
    CoreProgress::at(stop, player)
}

fn finish(
    player: &mut GpuiVideoPlayer,
    has_gpu: bool,
    clock: ClockReading,
) -> (progress: CoreProgress)
    requires
        old(player).wf(),
    ensures
        moved(
            CorePhase::Finishing,
            has_gpu,
            CoreEvent::Done,
            *old(player),
            *final(player),
            clock,
            progress,
        ),
{
    proof {
        reveal(moved);
    }
    let mut restore: bool = false;
    if player.handle_core_end() {
        let ghost ended = *player;
        let sought: (Option<SessionCommand>, bool) = player.seek(Duration::zero(), clock.unix_us);
        restore = sought.1;
        let ghost at_start = *player;
        let order: Option<SessionCommand> = player.play(clock.now);
        assert(ended.sought(
            at_start,
            (None::<SessionCommand>, restore),
            Duration::zero(),
            clock.unix_us,
        ));
        assert(looped(ended, *player, clock));
    }
    player.sync_from_core(clock.now);
    let progress: CoreProgress = if restore {
        CoreProgress {
            phase: CorePhase::Restoring(CoreStop::Android),
            action: CoreAction::Restore,
        }
    } else {
        CoreProgress::to_android(player)
    };
    assert(finished(*old(player), *player, clock, progress));
    progress
}

fn retire(
    player: &mut GpuiVideoPlayer,
    has_gpu: bool,
    clock: ClockReading,
) -> (progress: CoreProgress)
    requires
        old(player).wf(),
    ensures
        moved(
            CorePhase::Retiring,
            has_gpu,
            CoreEvent::Done,
            *old(player),
            *final(player),
            clock,
            progress,
        ),
{
    proof {
        reveal(moved);
    }
    let _ = player.android.drain_retirement();
    CoreProgress::to_answer(player)
}

fn answer(
    player: &mut GpuiVideoPlayer,
    has_gpu: bool,
    outcome: Option<ExternalFrameOutcome>,
    clock: ClockReading,
) -> (progress: CoreProgress)
    requires
        old(player).wf(),
    ensures
        moved(
            CorePhase::Answering,
            has_gpu,
            CoreEvent::Outcome(outcome),
            *old(player),
            *final(player),
            clock,
            progress,
        ),
{
    proof {
        reveal(moved);
    }
    let waited: bool = player.android.pending;
    let taken: AndroidStep = player.android.renderer_answered(outcome);
    if let Some(ExternalFrameOutcome::Accepted) = outcome {
        if waited {
            player.preview.presented();
        }
    }
    take_step(player, taken, CoreStop::Fallback)
}

fn fall_back(
    player: &mut GpuiVideoPlayer,
    has_gpu: bool,
    heard: bool,
    clock: ClockReading,
) -> (progress: CoreProgress)
    requires
        old(player).wf(),
    ensures
        moved(
            CorePhase::FallingBack,
            has_gpu,
            CoreEvent::Heard(heard),
            *old(player),
            *final(player),
            clock,
            progress,
        ),
{
    proof {
        reveal(moved);
    }
    player.android.fallback_requested(heard);
    CoreProgress::to_wait(player)
}

fn wait(
    player: &mut GpuiVideoPlayer,
    has_gpu: bool,
    clock: ClockReading,
) -> (progress: CoreProgress)
    requires
        old(player).wf(),
    ensures
        moved(
            CorePhase::Waiting,
            has_gpu,
            CoreEvent::Done,
            *old(player),
            *final(player),
            clock,
            progress,
        ),
{
    proof {
        reveal(moved);
    }
    let taken: AndroidStep = player.android.check_presentation(clock.now);
    take_step(player, taken, CoreStop::End)
}

fn import(
    player: &mut GpuiVideoPlayer,
    has_gpu: bool,
    reply: ImportReply,
    clock: ClockReading,
) -> (progress: CoreProgress)
    requires
        old(player).wf(),
    ensures
        moved(
            CorePhase::Importing,
            has_gpu,
            CoreEvent::Import(reply),
            *old(player),
            *final(player),
            clock,
            progress,
        ),
{
    proof {
        reveal(moved);
    }
    let timeout: Duration = player.config.lifecycle_timeout;
    let taken: AndroidStep = player.android.import_replied(reply, clock.now, timeout);
    match reply {
        ImportReply::Ready(_) => CoreProgress {
            phase: CorePhase::Staging,
            action: CoreAction::Stage,
        },
        _ => take_step(player, taken, CoreStop::End),
    }
}

fn stage(
    player: &mut GpuiVideoPlayer,
    has_gpu: bool,
    outcome: Option<ExternalFrameOutcome>,
    clock: ClockReading,
) -> (progress: CoreProgress)
    requires
        old(player).wf(),
    ensures
        moved(
            CorePhase::Staging,
            has_gpu,
            CoreEvent::Staged(outcome),
            *old(player),
            *final(player),
            clock,
            progress,
        ),
{
    proof {
        reveal(moved);
    }
    let timeout: Duration = player.config.lifecycle_timeout;
    let taken: AndroidStep = player.android.staged(outcome, clock.now, timeout);
    take_step(player, taken, CoreStop::End)
}

/// One refresh of the screen.
#[derive(Debug, Clone, Copy, PartialEq, Eq, Structural)]
pub struct CoreRefresh {
    pub phase: CorePhase,
    /// There is a graphics card to upload frames to.
    pub has_gpu: bool,
}

impl CoreRefresh {
    /// Begins a refresh. Gives the decoder that is to be opened, where that was not
    /// begun before.
    pub fn begin(player: &mut GpuiVideoPlayer, has_gpu: bool) -> (begun: (
        CoreRefresh,
        Option<DecoderChoice>,
        CoreAction,
    ))
        requires
            old(player).wf(),
        ensures
            final(player).wf(),
            old(player).init_started(*final(player), begun.1),
            begun.0.has_gpu == has_gpu,
            (CoreProgress { phase: begun.0.phase, action: begun.2 }) == CoreProgress::to_open(
                final(player),
            ),
            begun.0.phase.awaits(begun.2),
    {
        let choice: Option<DecoderChoice> = player.start_async_init();
        let progress: CoreProgress = CoreProgress::to_open(player);
        (CoreRefresh { phase: progress.phase, has_gpu }, choice, progress.action)
    }

    /// Takes in an answer and says what to do next. A refresh never goes back, so it
    /// ends, and asks the scheduler for one frame at most.
    pub fn advance(
        &mut self,
        event: CoreEvent,
        player: &mut GpuiVideoPlayer,
        clock: ClockReading,
    ) -> (action: CoreAction)
        requires
            old(self).phase.expects(event),
            old(player).wf(),
        ensures
            final(self).has_gpu == old(self).has_gpu,
            final(self).phase.awaits(action),
            final(self).phase.rank() > old(self).phase.rank(),
            final(player).wf(),
            refreshed(
                old(self).phase,
                old(self).has_gpu,
                event,
                *old(player),
                *final(player),
                clock,
                (CoreProgress { phase: final(self).phase, action }),
            ),
    {
        let progress: CoreProgress = match (self.phase, event) {
            (CorePhase::Opening, CoreEvent::Opening(event)) => open(
                player,
                self.has_gpu,
                event,
                clock,
            ),
            (CorePhase::Syncing, CoreEvent::Interval(interval)) => sync(
                player,
                self.has_gpu,
                interval,
                clock,
            ),
            (CorePhase::Polling, CoreEvent::Estimate(estimate)) => poll(
                player,
                self.has_gpu,
                estimate,
                clock,
            ),
            (CorePhase::Showing, CoreEvent::Shown(shown)) => show(
                player,
                self.has_gpu,
                shown,
                clock,
            ),
            (CorePhase::Sending(frame), CoreEvent::Sent(sent)) => send(
                player,
                self.has_gpu,
                frame,
                sent,
                clock,
            ),
            (CorePhase::Restoring(stop), CoreEvent::Done) => restore(
                player,
                self.has_gpu,
                stop,
                clock,
            ),
            (CorePhase::Finishing, CoreEvent::Done) => finish(player, self.has_gpu, clock),
            (CorePhase::Retiring, CoreEvent::Done) => retire(player, self.has_gpu, clock),
            (CorePhase::Answering, CoreEvent::Outcome(outcome)) => answer(
                player,
                self.has_gpu,
                outcome,
                clock,
            ),
            (CorePhase::FallingBack, CoreEvent::Heard(heard)) => fall_back(
                player,
                self.has_gpu,
                heard,
                clock,
            ),
            (CorePhase::Waiting, CoreEvent::Done) => wait(player, self.has_gpu, clock),
            (CorePhase::Importing, CoreEvent::Import(reply)) => import(
                player,
                self.has_gpu,
                reply,
                clock,
            ),
            (CorePhase::Staging, CoreEvent::Staged(outcome)) => stage(
                player,
                self.has_gpu,
                outcome,
                clock,
            ),
            _ => CoreProgress::ended(),
        };
        proof {
            reveal(moved);
        }
        self.phase = progress.phase;
        progress.action
    }
}

/// A refresh ends: every answer takes it on, and there is a last phase.
pub proof fn law_refresh_ends(phase: CorePhase)
    ensures
        0 <= phase.rank() <= CorePhase::Finished.rank(),
{
}

/// A refresh asks the scheduler for one frame at most: past that point nothing leads back to it.
pub proof fn law_scheduler_is_asked_once(later: CorePhase, action: CoreAction)
    requires
        later.rank() > CorePhase::Polling.rank(),
        later.awaits(action),
    ensures
        !(later is Polling),
        !(action is AskEstimate),
{
}

} // verus!
