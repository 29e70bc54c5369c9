//! One refresh of the screen on Linux, as a machine: it is told what the session,
//! the renderer and the graphics card answered, and says what to ask next.

use crate::gpui_video_player::{EventOutcome, GpuiVideoPlayer, PlaybackFacts};
use crate::presentation::{
    import_failure_classification, renderer_transfer, ColorTransfer, DirectPresentation,
    ExternalFrameOutcome, Feedback, FrameStep, GpuFacts, ImportFailure, PresentationTransition,
    PreviewState, RouteStep, UploadOutcome, VideoTransferFunction,
};
use crate::session::{
    CapabilityDowngradeReason, DecodeMode, RendererOutcome, SessionCommand, SessionError,
    SessionEvent,
};
use crate::time::{Duration, Instant};
use vstd::prelude::*;

verus! {

/// What the import thread has to offer.
#[derive(Debug, Clone, Copy, PartialEq, Eq, Structural)]
pub enum ImportOffer {
    Nothing,
    /// A texture whose colours are stored as said.
    Imported(ColorTransfer),
    Failed(ImportFailure),
}

/// What an upload came to.
#[derive(Debug, Clone, Copy, PartialEq, Eq, Structural)]
pub struct UploadReport {
    pub outcome: UploadOutcome,
    /// How the session decodes, where it says so.
    pub decode: Option<DecodeMode>,
    pub is_yuv: bool,
}

/// What the session has to say. Of a frame only this counts: whether it lies in
/// the memory of the driver.
#[derive(Debug)]
pub enum NextEvent {
    Nothing,
    Event(SessionEvent<bool>),
    Failed(SessionError),
}

/// What was answered.
#[derive(Debug)]
pub enum LinuxEvent {
    /// What was to be done is done.
    Done,
    /// Why the session has left a tier, where it has.
    Downgrade(Option<CapabilityDowngradeReason>),
    /// The session was told; true unless it would not give other frames.
    Told(bool),
    /// The graphics card, where it can be asked.
    Gpu(Option<GpuFacts>),
    WorkerStarted(bool),
    /// The answer of the renderer, where there is one, and how the session decodes.
    Outcome(Option<ExternalFrameOutcome>, Option<DecodeMode>),
    Next(NextEvent),
    /// An order was given to the session, which had come to its end or not.
    Ordered { accepted: bool, was_ended: bool },
    Enqueued(bool),
    Import(ImportOffer),
    /// Whether the renderer took the texture up; none where it could not be handed
    /// over.
    Staged(Option<ExternalFrameOutcome>),
    /// What the upload came to; none where there is no graphics card yet.
    Uploaded(Option<UploadReport>),
}

/// What is to be done.
#[derive(Debug, Clone, Copy, PartialEq, Eq, Structural)]
pub enum LinuxAction {
    /// Nothing; answer [`LinuxEvent::Done`].
    GoOn,
    /// Ask the session why it has left a tier.
    AskDowngrade,
    Tell(Feedback),
    /// Make the renderer let go of shared frames, and drop its answer.
    ClearExternal,
    AskGpu,
    StartWorker,
    /// Take the answer of the renderer.
    TakeOutcome,
    NextEvent,
    PlaySession,
    SeekSession(Duration),
    /// Hand the frame to the import thread under this epoch.
    Enqueue(u64),
    /// Take what the import thread has made in this epoch.
    TakeImport(u64),
    /// Hand the texture to the renderer, and drop the echo.
    Stage(VideoTransferFunction),
    /// Upload the frame that waits.
    Upload,
    End,
}

/// Where a refresh goes on.
#[derive(Debug, Clone, Copy, PartialEq, Eq, Structural)]
pub enum RefreshStop {
    Retire,
    Route,
    Certify,
    Poll,
    Import,
    Upload,
    Finish,
}

/// How far a refresh has come.
#[derive(Debug, Clone, Copy, PartialEq, Eq, Structural)]
pub enum LinuxPhase {
    Watching,
    Telling(Feedback, RefreshStop),
    Retiring,
    Routing,
    StartingWorker,
    Certifying,
    Polling,
    /// There is no session to ask.
    Unattended,
    Starting,
    Enqueueing,
    Importing,
    Staging,
    Uploading,
    Releasing(Feedback),
    Finishing,
    LoopSeek,
    LoopPlay,
    Finished,
}

/// A phase and what is to be done in it.
#[derive(Debug, Clone, Copy, PartialEq, Eq, Structural)]
pub struct LinuxProgress {
    pub phase: LinuxPhase,
    pub action: LinuxAction,
}

impl RefreshStop {
    /// Where the stop stands in the order of a refresh.
    pub open spec fn rank(self) -> int {
        match self {
            RefreshStop::Retire => 3,
            RefreshStop::Route => 6,
            RefreshStop::Certify => 10,
            RefreshStop::Poll => 13,
            RefreshStop::Import => 17,
            RefreshStop::Upload => 21,
            RefreshStop::Finish => 25,
        }
    }
}

impl LinuxPhase {
    /// Where the phase stands in the order of a refresh.
    pub open spec fn rank(self) -> int {
        match self {
            LinuxPhase::Watching => 0,
            LinuxPhase::Telling(feedback, stop) => if feedback.renegotiate {
                stop.rank() - 2
            } else {
                stop.rank() - 1
            },
            LinuxPhase::Retiring => 3,
            LinuxPhase::Routing => 6,
            LinuxPhase::StartingWorker => 7,
            LinuxPhase::Certifying => 10,
            LinuxPhase::Polling => 13,
            LinuxPhase::Unattended => 13,
            LinuxPhase::Starting => 14,
            LinuxPhase::Enqueueing => 14,
            LinuxPhase::Importing => 17,
            LinuxPhase::Staging => 18,
            LinuxPhase::Uploading => 21,
            LinuxPhase::Releasing(_) => 22,
            LinuxPhase::Finishing => 25,
            LinuxPhase::LoopSeek => 26,
            LinuxPhase::LoopPlay => 27,
            LinuxPhase::Finished => 28,
        }
    }

    /// What is asked again of the session has a reason; what is told after an
    /// upload asks nothing.
    pub open spec fn wf(self) -> bool {
        match self {
            LinuxPhase::Telling(feedback, _) => feedback.renegotiate ==> feedback.downgrade is Some,
            LinuxPhase::Releasing(feedback) => !feedback.renegotiate,
            _ => true,
        }
    }

    /// True where an event can come in this phase.
    pub open spec fn expects(self, event: LinuxEvent) -> bool {
        match self {
            LinuxPhase::Watching => event is Downgrade,
            LinuxPhase::Telling(_, _) => event is Told,
            LinuxPhase::Retiring | LinuxPhase::Unattended | LinuxPhase::Releasing(_)
            | LinuxPhase::Finishing => event is Done,
            LinuxPhase::Routing => event is Gpu,
            LinuxPhase::StartingWorker => event is WorkerStarted,
            LinuxPhase::Certifying => event is Outcome,
            LinuxPhase::Polling => event is Next,
            LinuxPhase::Starting | LinuxPhase::LoopSeek | LinuxPhase::LoopPlay => event
                is Ordered,
            LinuxPhase::Enqueueing => event is Enqueued,
            LinuxPhase::Importing => event is Import,
            LinuxPhase::Staging => event is Staged,
            LinuxPhase::Uploading => event is Uploaded,
            LinuxPhase::Finished => false,
        }
    }

    /// True where an action is the one whose answer this phase waits for.
    pub open spec fn awaits(self, action: LinuxAction) -> bool {
        match self {
            LinuxPhase::Watching => action is AskDowngrade,
            LinuxPhase::Telling(feedback, _) => action == LinuxAction::Tell(feedback),
            LinuxPhase::Retiring => action is GoOn || action is ClearExternal,
            LinuxPhase::Unattended | LinuxPhase::Finishing => action is GoOn,
            LinuxPhase::Releasing(_) => action is ClearExternal,
            LinuxPhase::Routing => action is AskGpu,
            LinuxPhase::StartingWorker => action is StartWorker,
            LinuxPhase::Certifying => action is TakeOutcome,
            LinuxPhase::Polling => action is NextEvent,
            LinuxPhase::Starting | LinuxPhase::LoopPlay => action is PlaySession,
            LinuxPhase::LoopSeek => action is SeekSession,
            LinuxPhase::Enqueueing => action is Enqueue,
            LinuxPhase::Importing => action is TakeImport,
            LinuxPhase::Staging => action is Stage,
            LinuxPhase::Uploading => action is Upload,
            LinuxPhase::Finished => action is End,
        }
    }
}

impl LinuxProgress {
    #[verifier::allow_in_spec]
    pub fn ended() -> LinuxProgress
        returns
            (LinuxProgress { phase: LinuxPhase::Finished, action: LinuxAction::End }),
    {
        LinuxProgress { phase: LinuxPhase::Finished, action: LinuxAction::End }
    }

    #[verifier::allow_in_spec]
    pub fn to_upload(way: DirectPresentation) -> LinuxProgress
        returns
            (if way.pending_frame {
                LinuxProgress { phase: LinuxPhase::Uploading, action: LinuxAction::Upload }
            } else {
                LinuxProgress { phase: LinuxPhase::Finishing, action: LinuxAction::GoOn }
            }),
    {
        if way.pending_frame {
            LinuxProgress { phase: LinuxPhase::Uploading, action: LinuxAction::Upload }
        } else {
            LinuxProgress { phase: LinuxPhase::Finishing, action: LinuxAction::GoOn }
        }
    }

    #[verifier::allow_in_spec]
    pub fn to_import(way: DirectPresentation) -> LinuxProgress
        returns
            (if way.direct_import {
                LinuxProgress {
                    phase: LinuxPhase::Importing,
                    action: LinuxAction::TakeImport(way.presentation_epoch),
                }
            } else {
                LinuxProgress::to_upload(way)
            }),
    {
        if way.direct_import {
            LinuxProgress {
                phase: LinuxPhase::Importing,
                action: LinuxAction::TakeImport(way.presentation_epoch),
            }
        } else {
            LinuxProgress::to_upload(way)
        }
    }

    #[verifier::allow_in_spec]
    pub fn to_poll(way: DirectPresentation) -> LinuxProgress
        returns
            (if way.has_session {
                LinuxProgress { phase: LinuxPhase::Polling, action: LinuxAction::NextEvent }
            } else {
                LinuxProgress { phase: LinuxPhase::Unattended, action: LinuxAction::GoOn }
            }),
    {
        if way.has_session {
            LinuxProgress { phase: LinuxPhase::Polling, action: LinuxAction::NextEvent }
        } else {
            LinuxProgress { phase: LinuxPhase::Unattended, action: LinuxAction::GoOn }
        }
    }

    #[verifier::allow_in_spec]
    pub fn to_certify(way: DirectPresentation) -> LinuxProgress
        returns
            (if way.pending_external {
                LinuxProgress { phase: LinuxPhase::Certifying, action: LinuxAction::TakeOutcome }
            } else {
                LinuxProgress::to_poll(way)
            }),
    {
        if way.pending_external {
            LinuxProgress { phase: LinuxPhase::Certifying, action: LinuxAction::TakeOutcome }
        } else {
            LinuxProgress::to_poll(way)
        }
    }

    #[verifier::allow_in_spec]
    pub fn to_route(way: DirectPresentation) -> LinuxProgress
        returns
            (if way.seeks_route() {
                LinuxProgress { phase: LinuxPhase::Routing, action: LinuxAction::AskGpu }
            } else {
                LinuxProgress::to_certify(way)
            }),
    {
        if way.seeks_route() {
            LinuxProgress { phase: LinuxPhase::Routing, action: LinuxAction::AskGpu }
        } else {
            LinuxProgress::to_certify(way)
        }
    }

    #[verifier::allow_in_spec]
    pub fn to_retire(way: DirectPresentation) -> LinuxProgress
        returns
            (LinuxProgress {
                phase: LinuxPhase::Retiring,
                action: if way.pending_retirement {
                    LinuxAction::ClearExternal
                } else {
                    LinuxAction::GoOn
                },
            }),
    {
        LinuxProgress {
            phase: LinuxPhase::Retiring,
            action: if way.pending_retirement {
                LinuxAction::ClearExternal
            } else {
                LinuxAction::GoOn
            },
        }
    }

    /// Where a refresh goes on. Once presentation has ended, so does the refresh.
    #[verifier::allow_in_spec]
    pub fn at(stop: RefreshStop, way: DirectPresentation) -> LinuxProgress
        returns
            (if way.transition == PresentationTransition::Fatal {
                LinuxProgress::ended()
            } else {
                match stop {
                    RefreshStop::Retire => LinuxProgress::to_retire(way),
                    RefreshStop::Route => LinuxProgress::to_route(way),
                    RefreshStop::Certify => LinuxProgress::to_certify(way),
                    RefreshStop::Poll => LinuxProgress::to_poll(way),
                    RefreshStop::Import => LinuxProgress::to_import(way),
                    RefreshStop::Upload => LinuxProgress::to_upload(way),
                    RefreshStop::Finish => LinuxProgress {
                        phase: LinuxPhase::Finishing,
                        action: LinuxAction::GoOn,
                    },
                }
            }),
    {
        if way.transition == PresentationTransition::Fatal {
            return LinuxProgress::ended();
        }
        match stop {
            RefreshStop::Retire => LinuxProgress::to_retire(way),
            RefreshStop::Route => LinuxProgress::to_route(way),
            RefreshStop::Certify => LinuxProgress::to_certify(way),
            RefreshStop::Poll => LinuxProgress::to_poll(way),
            RefreshStop::Import => LinuxProgress::to_import(way),
            RefreshStop::Upload => LinuxProgress::to_upload(way),
            RefreshStop::Finish => LinuxProgress {
                phase: LinuxPhase::Finishing,
                action: LinuxAction::GoOn,
            },
        }
    }

    /// What follows from a step of presentation: the session is told first, where
    /// there is anything to tell.
    #[verifier::allow_in_spec]
    pub fn after(feedback: Feedback, stop: RefreshStop, way: DirectPresentation) -> LinuxProgress
        returns
            (if feedback == Feedback::nothing() {
                LinuxProgress::at(stop, way)
            } else {
                LinuxProgress {
                    phase: LinuxPhase::Telling(feedback, stop),
                    action: LinuxAction::Tell(feedback),
                }
            }),
    {
        if feedback == Feedback::nothing() {
            LinuxProgress::at(stop, way)
        } else {
            LinuxProgress {
                phase: LinuxPhase::Telling(feedback, stop),
                action: LinuxAction::Tell(feedback),
            }
        }
    }
}

/// A step down, and where the refresh goes on after it.
pub open spec fn stepped_down(
    before: GpuiVideoPlayer,
    after: GpuiVideoPlayer,
    outcome: RendererOutcome,
    reason: CapabilityDowngradeReason,
    stop: RefreshStop,
    now: Instant,
    progress: LinuxProgress,
) -> bool {
    let step = before.disabling(outcome, reason, now);
    &&& before.fed(after, step, Seq::<char>::empty())
    &&& progress == LinuxProgress::after(step.1, stop, after.presentation)
}

/// The player once the session was looked at.
pub open spec fn attended(player: GpuiVideoPlayer) -> GpuiVideoPlayer {
    GpuiVideoPlayer {
        playback: PlaybackFacts { loading_started: true, ..player.playback },
        ..player
    }
}

/// What an event of the session comes to: a frame is taken up, playback is begun,
/// or the session is told of a failure.
pub open spec fn listened(
    before: GpuiVideoPlayer,
    after: GpuiVideoPlayer,
    event: SessionEvent<bool>,
    now: Instant,
    progress: LinuxProgress,
) -> bool {
    exists|told: GpuiVideoPlayer, outcome: EventOutcome<bool>| #[trigger]
        before.told(event, told, outcome, now) && (match outcome.frame {
            Some(is_dmabuf) => {
                let step = told.presentation.frame_step(is_dmabuf);
                &&& after == (GpuiVideoPlayer {
                    presentation: DirectPresentation {
                        pending_frame: told.presentation.pending_frame || step is Upload,
                        ..told.presentation
                    },
                    ..told
                })
                &&& progress == (match step {
                    FrameStep::Import(epoch) => LinuxProgress {
                        phase: LinuxPhase::Enqueueing,
                        action: LinuxAction::Enqueue(epoch),
                    },
                    _ => LinuxProgress::at(RefreshStop::Import, after.presentation),
                })
            },
            None => {
                &&& after == told
                &&& progress == (if outcome.play {
                    LinuxProgress { phase: LinuxPhase::Starting, action: LinuxAction::PlaySession }
                } else {
                    LinuxProgress::after(outcome.feedback, RefreshStop::Import, after.presentation)
                })
            },
        })
}

/// What an answer does to the player, and what comes next.
pub open spec fn refreshed(
    phase: LinuxPhase,
    event: LinuxEvent,
    before: GpuiVideoPlayer,
    after: GpuiVideoPlayer,
    now: Instant,
    progress: LinuxProgress,
) -> bool {
    let silent = Seq::<char>::empty();
    match (phase, event) {
        (LinuxPhase::Watching, LinuxEvent::Downgrade(reported)) => {
            let step = before.watching(reported, now);
            &&& before.fed(after, step, silent)
            &&& progress == LinuxProgress::after(step.1, RefreshStop::Retire, after.presentation)
        },
        (LinuxPhase::Telling(feedback, stop), LinuxEvent::Told(accepted)) => if feedback.renegotiate
            && !accepted {
            let step = before.rejecting(feedback.downgrade->0);
            &&& before.fed(after, step, silent)
            &&& progress == LinuxProgress::after(step.1, stop, after.presentation)
        } else {
            &&& after == before
            &&& progress == LinuxProgress::at(stop, after.presentation)
        },
        (LinuxPhase::Retiring, LinuxEvent::Done) => {
            let retired = GpuiVideoPlayer {
                presentation: if before.presentation.pending_retirement {
                    before.presentation.retired()
                } else {
                    before.presentation
                },
                ..before
            };
            let step = retired.timing_out(now);
            &&& retired.fed(after, step, silent)
            &&& progress == LinuxProgress::after(step.1, RefreshStop::Route, after.presentation)
        },
        (LinuxPhase::Routing, LinuxEvent::Gpu(gpu)) => {
            match before.presentation.ensure_direct_import_route(gpu) {
                RouteStep::StepDown(outcome, reason) => stepped_down(
                    before,
                    after,
                    outcome,
                    reason,
                    RefreshStop::Certify,
                    now,
                    progress,
                ),
                RouteStep::StartWorker => {
                    &&& after == before
                    &&& progress == (LinuxProgress {
                        phase: LinuxPhase::StartingWorker,
                        action: LinuxAction::StartWorker,
                    })
                },
                RouteStep::Nothing => {
                    &&& after == before
                    &&& progress == LinuxProgress::at(RefreshStop::Certify, after.presentation)
                },
            }
        },
        (LinuxPhase::StartingWorker, LinuxEvent::WorkerStarted(started)) => if started {
            &&& after == (GpuiVideoPlayer {
                presentation: DirectPresentation {
                    direct_alias_supported: Some(true),
                    direct_import: true,
                    ..before.presentation
                },
                ..before
            })
            &&& progress == LinuxProgress::at(RefreshStop::Certify, after.presentation)
        } else {
            stepped_down(
                before,
                after,
                RendererOutcome::TransientFailure,
                CapabilityDowngradeReason::TransientImport,
                RefreshStop::Certify,
                now,
                progress,
            )
        },
        (LinuxPhase::Certifying, LinuxEvent::Outcome(outcome, decode)) => match outcome {
            None => {
                &&& after == before
                &&& progress == LinuxProgress::at(RefreshStop::Poll, after.presentation)
            },
            Some(outcome) => {
                let step = before.answering(outcome, decode, now);
                &&& before.fed(after, step, silent)
                &&& progress == LinuxProgress::after(step.1, RefreshStop::Poll, after.presentation)
            },
        },
        (LinuxPhase::Unattended, LinuxEvent::Done) => {
            &&& after == attended(before)
            &&& progress == LinuxProgress::ended()
        },
        (LinuxPhase::Polling, LinuxEvent::Next(next)) => match next {
            NextEvent::Nothing => {
                &&& after == attended(before)
                &&& progress == LinuxProgress::at(RefreshStop::Import, after.presentation)
            },
            NextEvent::Event(event) => listened(before, after, event, now, progress),
            NextEvent::Failed(error) => exists|feedback: Feedback| #[trigger]
                attended(before).failed(error, false, after, feedback, now) && progress
                    == LinuxProgress::after(feedback, RefreshStop::Import, after.presentation),
        },
        (LinuxPhase::Starting, LinuxEvent::Ordered { accepted, was_ended }) => {
            &&& after == (if accepted {
                before.ordered(SessionCommand::Play, was_ended)
            } else {
                before
            })
            &&& progress == LinuxProgress::at(RefreshStop::Import, after.presentation)
        },
        (LinuxPhase::Enqueueing, LinuxEvent::Enqueued(accepted)) => if accepted {
            &&& after == before
            &&& progress == LinuxProgress::at(RefreshStop::Import, after.presentation)
        } else {
            stepped_down(
                before,
                after,
                RendererOutcome::TransientFailure,
                CapabilityDowngradeReason::TransientImport,
                RefreshStop::Import,
                now,
                progress,
            )
        },
        (LinuxPhase::Importing, LinuxEvent::Import(offer)) => match offer {
            ImportOffer::Nothing => {
                &&& after == before
                &&& progress == LinuxProgress::at(RefreshStop::Upload, after.presentation)
            },
            ImportOffer::Failed(failure) => {
                let (outcome, reason) = import_failure_classification(failure);
                stepped_down(before, after, outcome, reason, RefreshStop::Upload, now, progress)
            },
            ImportOffer::Imported(transfer) => if before.presentation.pending_external {
                &&& after == before
                &&& progress == LinuxProgress::at(RefreshStop::Upload, after.presentation)
            } else {
                match renderer_transfer(transfer) {
                    None => stepped_down(
                        before,
                        after,
                        RendererOutcome::Unsupported,
                        CapabilityDowngradeReason::UnsupportedColor,
                        RefreshStop::Upload,
                        now,
                        progress,
                    ),
                    Some(function) => {
                        &&& after == before
                        &&& progress == (LinuxProgress {
                            phase: LinuxPhase::Staging,
                            action: LinuxAction::Stage(function),
                        })
                    },
                }
            },
        },
        (LinuxPhase::Staging, LinuxEvent::Staged(outcome)) => match outcome {
            None => stepped_down(
                before,
                after,
                RendererOutcome::Unsupported,
                CapabilityDowngradeReason::UnsupportedImport,
                RefreshStop::Upload,
                now,
                progress,
            ),
            Some(outcome) => {
                let step = before.staging(outcome, now);
                &&& before.fed(after, step, silent)
                &&& progress == LinuxProgress::after(
                    step.1,
                    RefreshStop::Upload,
                    after.presentation,
                )
            },
        },
        (LinuxPhase::Uploading, LinuxEvent::Uploaded(report)) => match report {
            None => {
                &&& after == before
                &&& progress == LinuxProgress::at(RefreshStop::Finish, after.presentation)
            },
            Some(report) => {
                let step = before.presentation.after_upload(
                    report.outcome,
                    report.decode,
                    report.is_yuv,
                );
                &&& before.fed(after, step, silent)
                &&& progress == (if before.presentation.upload_releases(
                    report.outcome,
                    report.decode,
                ) {
                    LinuxProgress {
                        phase: LinuxPhase::Releasing(step.1),
                        action: LinuxAction::ClearExternal,
                    }
                } else {
                    LinuxProgress::after(step.1, RefreshStop::Finish, after.presentation)
                })
            },
        },
        (LinuxPhase::Releasing(feedback), LinuxEvent::Done) => {
            &&& after == before
            &&& progress == LinuxProgress::after(
                feedback,
                RefreshStop::Finish,
                after.presentation,
            )
        },
        (LinuxPhase::Finishing, LinuxEvent::Done) => if before.state is Ended
            && before.config.looping && !before.playback.loop_seek_pending
            && before.presentation.has_session {
            &&& after == (GpuiVideoPlayer {
                playback: PlaybackFacts { loop_seek_pending: true, ..before.playback },
                preview: PreviewState { refresh_requested: true },
                ..before
            })
            &&& progress == (LinuxProgress {
                phase: LinuxPhase::LoopSeek,
                action: LinuxAction::SeekSession(Duration::zero()),
            })
        } else {
            &&& after == before
            &&& progress == LinuxProgress::ended()
        },
        (LinuxPhase::LoopSeek, LinuxEvent::Ordered { accepted, was_ended }) => {
            &&& after == (if accepted {
                before.ordered(SessionCommand::Seek { position: Duration::zero() }, was_ended)
            } else {
                before
            })
            &&& progress == (LinuxProgress {
                phase: LinuxPhase::LoopPlay,
                action: LinuxAction::PlaySession,
            })
        },
        (LinuxPhase::LoopPlay, LinuxEvent::Ordered { accepted, was_ended }) => {
            &&& after == (if accepted {
                before.ordered(SessionCommand::Play, was_ended)
            } else {
                before
            })
            &&& progress == LinuxProgress::ended()
        },
        _ => true,
    }
}

/// One answer taken in: the player and what comes next are as they should be, and
/// the refresh has gone on.
#[verifier::opaque]
spec fn moved(
    phase: LinuxPhase,
    event: LinuxEvent,
    before: GpuiVideoPlayer,
    after: GpuiVideoPlayer,
    now: Instant,
    progress: LinuxProgress,
) -> bool {
    &&& refreshed(phase, event, before, after, now, progress)
    &&& progress.phase.wf()
    &&& progress.phase.awaits(progress.action)
    &&& progress.phase.rank() > phase.rank()
    &&& after.core is None
    &&& after.platform is Linux
}

fn step_down(
    player: &mut GpuiVideoPlayer,
    outcome: RendererOutcome,
    reason: CapabilityDowngradeReason,
    stop: RefreshStop,
    now: Instant,
) -> (progress: LinuxProgress)
    requires
        old(player).core is None,
        old(player).platform is Linux,
    ensures
        stepped_down(*old(player), *final(player), outcome, reason, stop, now, progress),
        progress.phase.wf(),
        progress.phase.awaits(progress.action),
        progress.phase.rank() >= stop.rank() - 2,
        final(player).core is None,
        final(player).platform is Linux,
{
    let feedback: Feedback = player.disable_direct_import(outcome, reason, now);
    LinuxProgress::after(feedback, stop, player.presentation)
}

fn watch(
    player: &mut GpuiVideoPlayer,
    reported: Option<CapabilityDowngradeReason>,
    now: Instant,
) -> (progress: LinuxProgress)
    requires
        old(player).core is None,
        old(player).platform is Linux,
    ensures
        moved(
            LinuxPhase::Watching,
            LinuxEvent::Downgrade(reported),
            *old(player),
            *final(player),
            now,
            progress,
        ),
{
    proof {
        reveal(moved);
    }
    let feedback: Feedback = player.observe_worker_downgrade(reported, now);
    LinuxProgress::after(feedback, RefreshStop::Retire, player.presentation)
}

fn tell(
    player: &mut GpuiVideoPlayer,
    feedback: Feedback,
    stop: RefreshStop,
    accepted: bool,
    now: Instant,
) -> (progress: LinuxProgress)
    requires
        old(player).core is None,
        old(player).platform is Linux,
        LinuxPhase::Telling(feedback, stop).wf(),
    ensures
        moved(
            LinuxPhase::Telling(feedback, stop),
            LinuxEvent::Told(accepted),
            *old(player),
            *final(player),
            now,
            progress,
        ),
{
    proof {
        reveal(moved);
    }
    if let Some(reason) = feedback.downgrade {
        if feedback.renegotiate && !accepted {
            let rejected: Feedback = player.renegotiation_rejected(reason);
            return LinuxProgress::after(rejected, stop, player.presentation);
        }
    }
    LinuxProgress::at(stop, player.presentation)
}

fn retire(player: &mut GpuiVideoPlayer, now: Instant) -> (progress: LinuxProgress)
    requires
        old(player).core is None,
        old(player).platform is Linux,
    ensures
        moved(
            LinuxPhase::Retiring,
            LinuxEvent::Done,
            *old(player),
            *final(player),
            now,
            progress,
        ),
{
    proof {
        reveal(moved);
    }
    let _ = player.presentation.drain_pending_external_retirement();
    let feedback: Feedback = player.check_presentation_transition_timeout(now);
    LinuxProgress::after(feedback, RefreshStop::Route, player.presentation)
}

fn route(
    player: &mut GpuiVideoPlayer,
    gpu: Option<GpuFacts>,
    now: Instant,
) -> (progress: LinuxProgress)
    requires
        old(player).core is None,
        old(player).platform is Linux,
    ensures
        moved(
            LinuxPhase::Routing,
            LinuxEvent::Gpu(gpu),
            *old(player),
            *final(player),
            now,
            progress,
        ),
{
    proof {
        reveal(moved);
    }
    match player.presentation.ensure_direct_import_route(gpu) {
        RouteStep::StepDown(outcome, reason) => step_down(
            player,
            outcome,
            reason,
            RefreshStop::Certify,
            now,
        ),
        RouteStep::StartWorker => LinuxProgress {
            phase: LinuxPhase::StartingWorker,
            action: LinuxAction::StartWorker,
        },
        RouteStep::Nothing => LinuxProgress::at(RefreshStop::Certify, player.presentation),
    }
}

fn worker_started(
    player: &mut GpuiVideoPlayer,
    started: bool,
    now: Instant,
) -> (progress: LinuxProgress)
    requires
        old(player).core is None,
        old(player).platform is Linux,
    ensures
        moved(
            LinuxPhase::StartingWorker,
            LinuxEvent::WorkerStarted(started),
            *old(player),
            *final(player),
            now,
            progress,
        ),
{
    proof {
        reveal(moved);
    }
    match player.presentation.worker_started(started) {
        RouteStep::StepDown(outcome, reason) => step_down(
            player,
            outcome,
            reason,
            RefreshStop::Certify,
            now,
        ),
        _ => LinuxProgress::at(RefreshStop::Certify, player.presentation),
    }
}

fn certify(
    player: &mut GpuiVideoPlayer,
    outcome: Option<ExternalFrameOutcome>,
    decode: Option<DecodeMode>,
    now: Instant,
) -> (progress: LinuxProgress)
    requires
        old(player).core is None,
        old(player).platform is Linux,
    ensures
        moved(
            LinuxPhase::Certifying,
            LinuxEvent::Outcome(outcome, decode),
            *old(player),
            *final(player),
            now,
            progress,
        ),
{
    proof {
        reveal(moved);
    }
    match outcome {
        Some(outcome) => {
            let feedback: Feedback = player.poll_external_outcome(outcome, decode, now);
            LinuxProgress::after(feedback, RefreshStop::Poll, player.presentation)
        },
        None => LinuxProgress::at(RefreshStop::Poll, player.presentation),
    }
}

fn listen(
    player: &mut GpuiVideoPlayer,
    event: SessionEvent<bool>,
    now: Instant,
) -> (progress: LinuxProgress)
    requires
        old(player).core is None,
        old(player).platform is Linux,
    ensures
        listened(*old(player), *final(player), event, now, progress),
        progress.phase.wf(),
        progress.phase.awaits(progress.action),
        progress.phase.rank() > LinuxPhase::Polling.rank(),
        final(player).core is None,
        final(player).platform is Linux,
{
    let outcome: EventOutcome<bool> = player.handle_event(event, now);
    let ghost told = *player;
    assert(old(player).told(event, told, outcome, now));
    match outcome.frame {
        Some(is_dmabuf) => match player.presentation.submit_linux_frame(is_dmabuf) {
            FrameStep::Import(epoch) => LinuxProgress {
                phase: LinuxPhase::Enqueueing,
                action: LinuxAction::Enqueue(epoch),
            },
            _ => LinuxProgress::at(RefreshStop::Import, player.presentation),
        },
        None => if outcome.play {
            LinuxProgress { phase: LinuxPhase::Starting, action: LinuxAction::PlaySession }
        } else {
            LinuxProgress::after(outcome.feedback, RefreshStop::Import, player.presentation)
        },
    }
}

fn poll(player: &mut GpuiVideoPlayer, next: NextEvent, now: Instant) -> (progress: LinuxProgress)
    requires
        old(player).core is None,
        old(player).platform is Linux,
    ensures
        moved(
            LinuxPhase::Polling,
            LinuxEvent::Next(next),
            *old(player),
            *final(player),
            now,
            progress,
        ),
{
    proof {
        reveal(moved);
    }
    match next {
        NextEvent::Event(event) => listen(player, event, now),
        NextEvent::Failed(error) => {
            player.playback.loading_started = true;
            let ghost seen = *player;
            let feedback: Feedback = player.handle_poll_error(&error, now);
            assert(seen.failed(error, false, *player, feedback, now));
            LinuxProgress::after(feedback, RefreshStop::Import, player.presentation)
        },
        NextEvent::Nothing => {
            player.playback.loading_started = true;
            LinuxProgress::at(RefreshStop::Import, player.presentation)
        },
    }
}

fn enqueue(player: &mut GpuiVideoPlayer, accepted: bool, now: Instant) -> (progress: LinuxProgress)
    requires
        old(player).core is None,
        old(player).platform is Linux,
    ensures
        moved(
            LinuxPhase::Enqueueing,
            LinuxEvent::Enqueued(accepted),
            *old(player),
            *final(player),
            now,
            progress,
        ),
{
    proof {
        reveal(moved);
    }
    match DirectPresentation::enqueued(accepted) {
        RouteStep::StepDown(outcome, reason) => step_down(
            player,
            outcome,
            reason,
            RefreshStop::Import,
            now,
        ),
        _ => LinuxProgress::at(RefreshStop::Import, player.presentation),
    }
}

fn import(
    player: &mut GpuiVideoPlayer,
    offer: ImportOffer,
    now: Instant,
) -> (progress: LinuxProgress)
    requires
        old(player).core is None,
        old(player).platform is Linux,
    ensures
        moved(
            LinuxPhase::Importing,
            LinuxEvent::Import(offer),
            *old(player),
            *final(player),
            now,
            progress,
        ),
{
    proof {
        reveal(moved);
    }
    match offer {
        ImportOffer::Nothing => LinuxProgress::at(RefreshStop::Upload, player.presentation),
        ImportOffer::Failed(failure) => {
            let (outcome, reason) = import_failure_classification(failure);
            step_down(player, outcome, reason, RefreshStop::Upload, now)
        },
        ImportOffer::Imported(transfer) => if !player.presentation.stages_import() {
            LinuxProgress::at(RefreshStop::Upload, player.presentation)
        } else {
            match renderer_transfer(transfer) {
                None => step_down(
                    player,
                    RendererOutcome::Unsupported,
                    CapabilityDowngradeReason::UnsupportedColor,
                    RefreshStop::Upload,
                    now,
                ),
                Some(function) => LinuxProgress {
                    phase: LinuxPhase::Staging,
                    action: LinuxAction::Stage(function),
                },
            }
        },
    }
}

fn stage(
    player: &mut GpuiVideoPlayer,
    outcome: Option<ExternalFrameOutcome>,
    now: Instant,
) -> (progress: LinuxProgress)
    requires
        old(player).core is None,
        old(player).platform is Linux,
    ensures
        moved(
            LinuxPhase::Staging,
            LinuxEvent::Staged(outcome),
            *old(player),
            *final(player),
            now,
            progress,
        ),
{
    proof {
        reveal(moved);
    }
    match outcome {
        Some(outcome) => {
            let feedback: Feedback = player.stage_imported_frame(outcome, now);
            LinuxProgress::after(feedback, RefreshStop::Upload, player.presentation)
        },
        None => step_down(
            player,
            RendererOutcome::Unsupported,
            CapabilityDowngradeReason::UnsupportedImport,
            RefreshStop::Upload,
            now,
        ),
    }
}

fn upload(
    player: &mut GpuiVideoPlayer,
    report: Option<UploadReport>,
    now: Instant,
) -> (progress: LinuxProgress)
    requires
        old(player).core is None,
        old(player).platform is Linux,
    ensures
        moved(
            LinuxPhase::Uploading,
            LinuxEvent::Uploaded(report),
            *old(player),
            *final(player),
            now,
            progress,
        ),
{
    proof {
        reveal(moved);
    }
    match report {
        Some(report) => {
            let (feedback, release) = player.finish_upload(
                report.outcome,
                report.decode,
                report.is_yuv,
            );
            if release {
                LinuxProgress {
                    phase: LinuxPhase::Releasing(feedback),
                    action: LinuxAction::ClearExternal,
                }
            } else {
                LinuxProgress::after(feedback, RefreshStop::Finish, player.presentation)
            }
        },
        None => LinuxProgress::at(RefreshStop::Finish, player.presentation),
    }
}

fn finish(player: &mut GpuiVideoPlayer, now: Instant) -> (progress: LinuxProgress)
    requires
        old(player).core is None,
        old(player).platform is Linux,
    ensures
        moved(
            LinuxPhase::Finishing,
            LinuxEvent::Done,
            *old(player),
            *final(player),
            now,
            progress,
        ),
{
    proof {
        reveal(moved);
    }
    if !player.presentation.has_session || !player.begin_session_loop() {
        return LinuxProgress::ended();
    }
    let _ = player.seek(Duration::zero(), 0);
    LinuxProgress {
        phase: LinuxPhase::LoopSeek,
        action: LinuxAction::SeekSession(Duration::zero()),
    }
}

fn order(
    player: &mut GpuiVideoPlayer,
    command: &SessionCommand,
    accepted: bool,
    was_ended: bool,
)
    ensures
        *final(player) == (if accepted {
            old(player).ordered(*command, was_ended)
        } else {
            *old(player)
        }),
{
    if accepted {
        player.order_accepted(command, was_ended);
    }
}

fn start(
    player: &mut GpuiVideoPlayer,
    accepted: bool,
    was_ended: bool,
    now: Instant,
) -> (progress: LinuxProgress)
    requires
        old(player).core is None,
        old(player).platform is Linux,
    ensures
        moved(
            LinuxPhase::Starting,
            (LinuxEvent::Ordered { accepted, was_ended }),
            *old(player),
            *final(player),
            now,
            progress,
        ),
{
    proof {
        reveal(moved);
    }
    order(player, &SessionCommand::Play, accepted, was_ended);
    LinuxProgress::at(RefreshStop::Import, player.presentation)
}

fn loop_seek(
    player: &mut GpuiVideoPlayer,
    accepted: bool,
    was_ended: bool,
    now: Instant,
) -> (progress: LinuxProgress)
    requires
        old(player).core is None,
        old(player).platform is Linux,
    ensures
        moved(
            LinuxPhase::LoopSeek,
            (LinuxEvent::Ordered { accepted, was_ended }),
            *old(player),
            *final(player),
            now,
            progress,
        ),
{
    proof {
        reveal(moved);
    }
    order(player, &SessionCommand::Seek { position: Duration::zero() }, accepted, was_ended);
    LinuxProgress { phase: LinuxPhase::LoopPlay, action: LinuxAction::PlaySession }
}

fn loop_play(
    player: &mut GpuiVideoPlayer,
    accepted: bool,
    was_ended: bool,
    now: Instant,
) -> (progress: LinuxProgress)
    requires
        old(player).core is None,
        old(player).platform is Linux,
    ensures
        moved(
            LinuxPhase::LoopPlay,
            (LinuxEvent::Ordered { accepted, was_ended }),
            *old(player),
            *final(player),
            now,
            progress,
        ),
{
    proof {
        reveal(moved);
    }
    order(player, &SessionCommand::Play, accepted, was_ended);
    LinuxProgress::ended()
}

fn unattend(player: &mut GpuiVideoPlayer, now: Instant) -> (progress: LinuxProgress)
    requires
        old(player).core is None,
        old(player).platform is Linux,
    ensures
        moved(
            LinuxPhase::Unattended,
            LinuxEvent::Done,
            *old(player),
            *final(player),
            now,
            progress,
        ),
{
    proof {
        reveal(moved);
    }
    player.playback.loading_started = true;
    LinuxProgress::ended()
}

fn release(
    player: &mut GpuiVideoPlayer,
    feedback: Feedback,
    now: Instant,
) -> (progress: LinuxProgress)
    requires
        old(player).core is None,
        old(player).platform is Linux,
        LinuxPhase::Releasing(feedback).wf(),
    ensures
        moved(
            LinuxPhase::Releasing(feedback),
            LinuxEvent::Done,
            *old(player),
            *final(player),
            now,
            progress,
        ),
{
    proof {
        reveal(moved);
    }
    LinuxProgress::after(feedback, RefreshStop::Finish, player.presentation)
}

/// One refresh of the screen.
#[derive(Debug, Clone, Copy, PartialEq, Eq, Structural)]
pub struct LinuxRefresh {
    pub phase: LinuxPhase,
}

impl LinuxRefresh {
    /// Begins a refresh, unless presentation has ended.
    pub fn begin(player: &GpuiVideoPlayer) -> (begun: (LinuxRefresh, LinuxAction))
        ensures
            begun.0.phase.wf(),
            begun.0.phase.awaits(begun.1),
            begun == (if player.presentation.transition == PresentationTransition::Fatal {
                (LinuxRefresh { phase: LinuxPhase::Finished }, LinuxAction::End)
            } else {
                (LinuxRefresh { phase: LinuxPhase::Watching }, LinuxAction::AskDowngrade)
            }),
    {
        if player.presentation.transition == PresentationTransition::Fatal {
            (LinuxRefresh { phase: LinuxPhase::Finished }, LinuxAction::End)
        } else {
            (LinuxRefresh { phase: LinuxPhase::Watching }, LinuxAction::AskDowngrade)
        }
    }

    /// Takes in an answer and says what to do next. A refresh never goes back, so it
    /// ends, and asks the session for one event at most.
    pub fn advance(
        &mut self,
        event: LinuxEvent,
        player: &mut GpuiVideoPlayer,
        now: Instant,
    ) -> (action: LinuxAction)
        requires
            old(self).phase.wf(),
            old(self).phase.expects(event),
            old(player).core is None,
            old(player).platform is Linux,
        ensures
            final(self).phase.wf(),
            final(self).phase.awaits(action),
            final(self).phase.rank() > old(self).phase.rank(),
            final(player).core is None,
            final(player).platform is Linux,
            refreshed(
                old(self).phase,
                event,
                *old(player),
                *final(player),
                now,
                LinuxProgress { phase: final(self).phase, action },
            ),
    {
        let progress: LinuxProgress = match (self.phase, event) {
            (LinuxPhase::Watching, LinuxEvent::Downgrade(reported)) => watch(player, reported, now),
            (LinuxPhase::Telling(feedback, stop), LinuxEvent::Told(accepted)) => tell(
                player,
                feedback,
                stop,
                accepted,
                now,
            ),
            (LinuxPhase::Retiring, LinuxEvent::Done) => retire(player, now),
            (LinuxPhase::Routing, LinuxEvent::Gpu(gpu)) => route(player, gpu, now),
            (LinuxPhase::StartingWorker, LinuxEvent::WorkerStarted(started)) => worker_started(
                player,
                started,
                now,
            ),
            (LinuxPhase::Certifying, LinuxEvent::Outcome(outcome, decode)) => certify(
                player,
                outcome,
                decode,
                now,
            ),
            (LinuxPhase::Polling, LinuxEvent::Next(next)) => poll(player, next, now),
            (LinuxPhase::Unattended, LinuxEvent::Done) => unattend(player, now),
            (LinuxPhase::Starting, LinuxEvent::Ordered { accepted, was_ended }) => start(
                player,
                accepted,
                was_ended,
                now,
            ),
            (LinuxPhase::Enqueueing, LinuxEvent::Enqueued(accepted)) => enqueue(
                player,
                accepted,
                now,
            ),
            (LinuxPhase::Importing, LinuxEvent::Import(offer)) => import(player, offer, now),
            (LinuxPhase::Staging, LinuxEvent::Staged(outcome)) => stage(player, outcome, now),
            (LinuxPhase::Uploading, LinuxEvent::Uploaded(report)) => upload(player, report, now),
            (LinuxPhase::Releasing(feedback), LinuxEvent::Done) => release(player, feedback, now),
            (LinuxPhase::Finishing, LinuxEvent::Done) => finish(player, now),
            (LinuxPhase::LoopSeek, LinuxEvent::Ordered { accepted, was_ended }) => loop_seek(
                player,
                accepted,
                was_ended,
                now,
            ),
            (LinuxPhase::LoopPlay, LinuxEvent::Ordered { accepted, was_ended }) => loop_play(
                player,
                accepted,
                was_ended,
                now,
            ),
            _ => LinuxProgress::ended(),
        };
        proof {
            reveal(moved);
        }
        self.phase = progress.phase;
        progress.action
    }
}

/// A refresh ends: every answer takes it on, and there is a last phase.
pub proof fn law_refresh_ends(phase: LinuxPhase)
    ensures
        0 <= phase.rank() <= LinuxPhase::Finished.rank(),
{
}

/// A refresh asks the session for one event at most: past that point nothing leads back to it.
pub proof fn law_session_is_asked_once(later: LinuxPhase, action: LinuxAction)
    requires
        later.rank() > LinuxPhase::Polling.rank(),
        later.awaits(action),
    ensures
        !(later is Polling),
        !(action is NextEvent),
{
}

} // verus!
