//! A decode thread as a machine: it is told what happened and says what to do.

use crate::audio::AudioHandle;
use crate::decode_loop::{
    answered, command_result, decoder_call, prepare_decode_command, prepared_for,
    process_decode_command, AfterDecode, DecodeLoop, DecodeOutcome, DecodeThread, DecodeWork,
    DecoderCall, DecoderReport, Dimensions, MediaFacts, PreviewSearch, PreviewStep,
    METADATA_TIMEOUT_MS, STARTUP_RETRY_MS,
};
use crate::frame_queue::{DecodeCommand, FrameQueue};
use crate::time::{Duration, Instant};
use crate::video::VideoFrame;
use vstd::prelude::*;

verus! {

/// What a look at the decoder shows.
#[derive(Debug, Clone, Copy, PartialEq, Eq, Structural)]
pub struct Observation {
    pub report: DecoderReport,
    pub buffering_percent: i32,
    /// Where a decoder that plays its own audio stands.
    pub position: Option<Duration>,
    pub now: Instant,
}

/// What happened since the last action.
#[derive(Debug, Clone, Copy, PartialEq, Eq, Structural)]
pub enum DecodeEvent {
    /// A rest or a wait is over.
    Rested,
    Decoded(DecodeOutcome),
    Observed(Observation),
    /// The decoder was called; true where it did what it was asked.
    CallDone(bool),
}

/// What the thread is to do.
#[derive(Debug, Clone, Copy, PartialEq, Eq, Structural)]
pub enum DecodeAction {
    Decode,
    Observe,
    Call(DecoderCall),
    Rest(Duration),
    /// Rest until there is a command, no longer than the time given.
    WaitForCommand(Duration),
    /// Rest until the queue has space or is closed.
    WaitForSpace,
    End,
}

/// How far a decode thread has come.
#[derive(Debug, Clone, Copy, PartialEq, Eq, Structural)]
pub enum DecodePhase {
    /// A frame to show before playback is being decoded.
    Preview(PreviewSearch),
    PreviewRest(PreviewSearch),
    /// The search for a preview is over; its size is known or not.
    Previewed(Option<Dimensions>),
    /// The decoder is asked for its metadata.
    Metadata(Instant, bool),
    MetadataRest(Instant, bool),
    /// The decoder is being paused, for those that play by themselves.
    Pausing(bool),
    /// A command is being carried out; others may follow.
    Draining(DecodeLoop, DecodeCommand),
    /// The commands are done; the decoder is being looked at.
    Observing(DecodeLoop),
    /// Paused, waiting for a command.
    Waiting(DecodeLoop),
    /// The command that ended the wait is being carried out.
    Answering(DecodeLoop, DecodeCommand),
    Decoding(DecodeLoop),
    Resting(DecodeLoop),
    /// A frame waits for space in the queue.
    Pushing(DecodeLoop, VideoFrame),
    Finished,
}

/// A phase and what is to be done in it.
#[derive(Debug, Clone, Copy, PartialEq, Eq, Structural)]
pub struct Progress {
    pub phase: DecodePhase,
    pub action: DecodeAction,
}

impl Progress {
    #[verifier::allow_in_spec]
    pub fn ended() -> Progress
        returns
            (Progress { phase: DecodePhase::Finished, action: DecodeAction::End }),
    {
        Progress { phase: DecodePhase::Finished, action: DecodeAction::End }
    }

    /// The next try for a preview, unless the thread is to end.
    #[verifier::allow_in_spec]
    pub fn preview(search: PreviewSearch, stop: bool) -> Progress
        returns
            (if stop {
                Progress::ended()
            } else {
                Progress { phase: DecodePhase::Preview(search), action: DecodeAction::Decode }
            }),
    {
        if stop {
            Progress::ended()
        } else {
            Progress { phase: DecodePhase::Preview(search), action: DecodeAction::Decode }
        }
    }

    /// The next look at the metadata, unless the thread is to end.
    #[verifier::allow_in_spec]
    pub fn metadata(since: Instant, is_live: bool, stop: bool) -> Progress
        returns
            (if stop {
                Progress::ended()
            } else {
                Progress {
                    phase: DecodePhase::Metadata(since, is_live),
                    action: DecodeAction::Observe,
                }
            }),
    {
        if stop {
            Progress::ended()
        } else {
            Progress {
                phase: DecodePhase::Metadata(since, is_live),
                action: DecodeAction::Observe,
            }
        }
    }

    /// The pause that ends the start-up.
    #[verifier::allow_in_spec]
    pub fn pausing(is_live: bool) -> Progress
        returns
            (Progress {
                phase: DecodePhase::Pausing(is_live),
                action: DecodeAction::Call(DecoderCall::Pause),
            }),
    {
        Progress {
            phase: DecodePhase::Pausing(is_live),
            action: DecodeAction::Call(DecoderCall::Pause),
        }
    }
}

impl DecodePhase {
    pub open spec fn wf(self) -> bool {
        match self {
            DecodePhase::Preview(search) | DecodePhase::PreviewRest(search) => search.wf(),
            DecodePhase::Draining(_, command) | DecodePhase::Answering(_, command) => command
                !is Stop,
            _ => true,
        }
    }

    /// True where an action is the one that this phase waits for.
    pub open spec fn awaits(self, action: DecodeAction) -> bool {
        match self {
            DecodePhase::Preview(_) | DecodePhase::Decoding(_) => action is Decode,
            DecodePhase::PreviewRest(_) | DecodePhase::MetadataRest(_, _)
            | DecodePhase::Resting(_) => action is Rest,
            DecodePhase::Previewed(_) | DecodePhase::Metadata(_, _) | DecodePhase::Observing(_) =>
                action is Observe,
            DecodePhase::Pausing(_) | DecodePhase::Draining(_, _)
            | DecodePhase::Answering(_, _) => action is Call,
            DecodePhase::Waiting(_) => action is WaitForCommand,
            DecodePhase::Pushing(_, _) => action is WaitForSpace,
            DecodePhase::Finished => action is End,
        }
    }

    /// True where an event can come in this phase.
    pub open spec fn expects(self, event: DecodeEvent) -> bool {
        match self {
            DecodePhase::Preview(_) | DecodePhase::Decoding(_) => event is Decoded,
            DecodePhase::Previewed(_) | DecodePhase::Metadata(_, _) | DecodePhase::Observing(_) =>
                event is Observed,
            DecodePhase::Pausing(_) | DecodePhase::Draining(_, _)
            | DecodePhase::Answering(_, _) => event is CallDone,
            DecodePhase::Finished => false,
            _ => event is Rested,
        }
    }
}

/// A thread before and after its oldest command was taken up.
pub open spec fn took_command(before: DecodeThread, after: DecodeThread) -> bool {
    &&& before.commands@.len() > 0
    &&& after.commands@ =~= before.commands@.skip(1)
    &&& prepared_for(before.commands@[0], before.frame_queue, after.frame_queue)
    &&& after.stop_flag == before.stop_flag
    &&& after.facts == before.facts
    &&& after.buffering_percent == before.buffering_percent
}

/// The commands that wait are carried out one after the other; then the decoder
/// is looked at.
pub open spec fn drained(
    state: DecodeLoop,
    before: DecodeThread,
    after: DecodeThread,
    progress: Progress,
) -> bool {
    if before.commands@.len() == 0 {
        &&& after == before
        &&& progress == (Progress {
            phase: DecodePhase::Observing(state),
            action: DecodeAction::Observe,
        })
    } else {
        let command = before.commands@[0];
        &&& took_command(before, after)
        &&& progress == (if command is Stop {
            Progress::ended()
        } else {
            Progress {
                phase: DecodePhase::Draining(state, command),
                action: DecodeAction::Call(decoder_call(command)),
            }
        })
    }
}

/// A turn of the loop begins.
pub open spec fn turned(
    state: DecodeLoop,
    before: DecodeThread,
    after: DecodeThread,
    progress: Progress,
) -> bool {
    if before.stop_flag {
        after == before && progress == Progress::ended()
    } else {
        drained(state, before, after, progress)
    }
}

/// A wait for a command ends, with one or without.
pub open spec fn woken(
    state: DecodeLoop,
    before: DecodeThread,
    after: DecodeThread,
    progress: Progress,
) -> bool {
    if before.commands@.len() == 0 {
        turned(state, before, after, progress)
    } else {
        let command = before.commands@[0];
        &&& took_command(before, after)
        &&& progress == (if command is Stop {
            Progress::ended()
        } else {
            Progress {
                phase: DecodePhase::Answering(state, command),
                action: DecodeAction::Call(decoder_call(command)),
            }
        })
    }
}

/// A preview was decoded, or not.
pub open spec fn previewed(
    search: PreviewSearch,
    outcome: DecodeOutcome,
    before: DecodeThread,
    after: DecodeThread,
    progress: Progress,
) -> bool {
    let step = PreviewSearch::reaction(
        outcome,
        search.attempts + 1 >= crate::decode_loop::MAX_PREVIEW_ATTEMPTS,
    );
    let shown = match step {
        PreviewStep::Show(frame, _) => Some(frame),
        PreviewStep::ShowPlaceholder(frame) => Some(frame),
        _ => None,
    };
    let queue = before.frame_queue;
    &&& after.commands == before.commands
    &&& after.stop_flag == before.stop_flag
    &&& after.facts == before.facts
    &&& after.buffering_percent == before.buffering_percent
    &&& after.frame_queue.frames@ =~= (if shown is Some && !queue.closed_to_frames()
        && queue.frames@.len() < queue.capacity {
        queue.frames@.push(shown->0)
    } else {
        queue.frames@
    })
    &&& after.frame_queue.same_but_frames(queue)
    &&& progress == (match step {
        PreviewStep::Show(_, dimensions) => Progress {
            phase: DecodePhase::Previewed(Some(dimensions)),
            action: DecodeAction::Observe,
        },
        PreviewStep::ShowPlaceholder(_) | PreviewStep::GiveUp => Progress {
            phase: DecodePhase::Previewed(None),
            action: DecodeAction::Observe,
        },
        PreviewStep::RetryAfter(rest) => Progress {
            phase: DecodePhase::PreviewRest(
                PreviewSearch { attempts: (search.attempts + 1) as u32 },
            ),
            action: DecodeAction::Rest(rest),
        },
    })
}

/// The first look at the decoder after the preview: a live stream whose size is
/// known needs no more; any other waits for its metadata.
pub open spec fn sized_up(
    preview: Option<Dimensions>,
    seen: Observation,
    before: DecodeThread,
    after: DecodeThread,
    progress: Progress,
) -> bool {
    let is_live = seen.report.duration is None;
    if is_live && preview is Some {
        &&& after == (DecodeThread {
            facts: (MediaFacts { dimensions: preview, ..before.facts }).with_frame_rate(
                seen.report.frame_rate_bits,
            ),
            ..before
        })
        &&& progress == Progress::pausing(true)
    } else {
        &&& after == before
        &&& progress == Progress::metadata(seen.now, is_live, before.stop_flag)
    }
}

/// A look at the metadata during start-up.
pub open spec fn settled(
    since: Instant,
    is_live: bool,
    seen: Observation,
    before: DecodeThread,
    after: DecodeThread,
    progress: Progress,
) -> bool {
    if MediaFacts::is_complete(seen.report) || Duration::from_millis(METADATA_TIMEOUT_MS).before(
        seen.now.duration_since(since),
    ) {
        &&& after == (DecodeThread { facts: before.facts.refreshed(seen.report), ..before })
        &&& progress == Progress::pausing(is_live)
    } else {
        &&& after == before
        &&& progress == (Progress {
            phase: DecodePhase::MetadataRest(since, is_live),
            action: DecodeAction::Rest(Duration::from_millis(STARTUP_RETRY_MS)),
        })
    }
}

/// The state of the loop once the decoder has been looked at.
pub open spec fn observed_state(state: DecodeLoop, with_audio: bool, now: Instant) -> DecodeLoop {
    DecodeLoop {
        last_metadata_check: if state.metadata_due(now) {
            now
        } else {
            state.last_metadata_check
        },
        last_position_update: if with_audio && state.position_due(now) {
            now
        } else {
            state.last_position_update
        },
        ..state
    }
}

/// A look at the decoder in the middle of playback.
pub open spec fn observed(
    state: DecodeLoop,
    seen: Observation,
    before: DecodeThread,
    after: DecodeThread,
    audio_before: Option<AudioHandle>,
    audio_after: Option<AudioHandle>,
    progress: Progress,
) -> bool {
    let next = observed_state(state, audio_before is Some, seen.now);
    &&& after == (DecodeThread {
        buffering_percent: seen.buffering_percent,
        facts: if state.metadata_due(seen.now) {
            before.facts.refreshed(seen.report)
        } else {
            before.facts
        },
        ..before
    })
    &&& audio_after == (match audio_before {
        Some(audio) if state.position_due(seen.now) && seen.position is Some => Some(
            AudioHandle { native_position_us: seen.position->0.micros_u64(), ..audio },
        ),
        _ => audio_before,
    })
    &&& progress == (match next.work(before.frame_queue) {
        DecodeWork::WaitForCommand(wait) => Progress {
            phase: DecodePhase::Waiting(next),
            action: DecodeAction::WaitForCommand(wait),
        },
        DecodeWork::Rest(rest) => Progress {
            phase: DecodePhase::Resting(next),
            action: DecodeAction::Rest(rest),
        },
        DecodeWork::DecodeNext => Progress {
            phase: DecodePhase::Decoding(next),
            action: DecodeAction::Decode,
        },
    })
}

/// A frame was decoded, or not.
pub open spec fn decoded(
    state: DecodeLoop,
    outcome: DecodeOutcome,
    before: DecodeThread,
    after: DecodeThread,
    progress: Progress,
) -> bool {
    let next = state.after_outcome(outcome);
    exists|queue: FrameQueue| #[trigger]
        state.decoded(before.frame_queue, queue, outcome) && (match state.follow_up(
            before.frame_queue,
            outcome,
        ) {
            AfterDecode::GoOn => turned(
                next,
                DecodeThread { frame_queue: queue, ..before },
                after,
                progress,
            ),
            AfterDecode::Rest(rest) => after == (DecodeThread { frame_queue: queue, ..before })
                && progress == (Progress {
                phase: DecodePhase::Resting(next),
                action: DecodeAction::Rest(rest),
            }),
            AfterDecode::PushAgain(frame) => after == (DecodeThread {
                frame_queue: queue,
                ..before
            }) && progress == (Progress {
                phase: DecodePhase::Pushing(next, frame),
                action: DecodeAction::WaitForSpace,
            }),
        })
}

/// A frame that waited for space is offered again.
pub open spec fn pushed(
    state: DecodeLoop,
    frame: VideoFrame,
    before: DecodeThread,
    after: DecodeThread,
    progress: Progress,
) -> bool {
    let queue = before.frame_queue;
    if !queue.closed_to_frames() && queue.frames@.len() >= queue.capacity {
        &&& after == before
        &&& progress == (Progress {
            phase: DecodePhase::Pushing(state, frame),
            action: DecodeAction::WaitForSpace,
        })
    } else if queue.closed_to_frames() {
        turned(state, before, after, progress)
    } else {
        exists|longer: FrameQueue|
            #![trigger longer.same_but_frames(queue)]
            longer.frames@ =~= queue.frames@.push(frame) && longer.same_but_frames(queue) && turned(
                state,
                DecodeThread { frame_queue: longer, ..before },
                after,
                progress,
            )
    }
}

/// What an event does to a thread, and what comes next.
pub open spec fn progressed(
    task: DecodeTask,
    event: DecodeEvent,
    before: DecodeThread,
    after: DecodeThread,
    audio_before: Option<AudioHandle>,
    audio_after: Option<AudioHandle>,
    progress: Progress,
) -> bool {
    match (task.phase, event) {
        (DecodePhase::Observing(state), DecodeEvent::Observed(seen)) => observed(
            state,
            seen,
            before,
            after,
            audio_before,
            audio_after,
            progress,
        ),
        _ => audio_after == audio_before && (match (task.phase, event) {
            (DecodePhase::Preview(search), DecodeEvent::Decoded(outcome)) => previewed(
                search,
                outcome,
                before,
                after,
                progress,
            ),
            (DecodePhase::PreviewRest(search), DecodeEvent::Rested) => after == before && progress
                == Progress::preview(search, before.stop_flag),
            (DecodePhase::Previewed(preview), DecodeEvent::Observed(seen)) => sized_up(
                preview,
                seen,
                before,
                after,
                progress,
            ),
            (DecodePhase::Metadata(since, is_live), DecodeEvent::Observed(seen)) => settled(
                since,
                is_live,
                seen,
                before,
                after,
                progress,
            ),
            (DecodePhase::MetadataRest(since, is_live), DecodeEvent::Rested) => after == before
                && progress == Progress::metadata(since, is_live, before.stop_flag),
            (DecodePhase::Pausing(is_live), DecodeEvent::CallDone(_)) => turned(
                DecodeLoop {
                    playing: false,
                    is_live,
                    last_metadata_check: task.started,
                    last_position_update: task.started,
                },
                before,
                after,
                progress,
            ),
            (DecodePhase::Draining(state, command), DecodeEvent::CallDone(succeeded)) => drained(
                state.applied(command_result(command)),
                DecodeThread {
                    frame_queue: answered(command, succeeded, before.frame_queue),
                    ..before
                },
                after,
                progress,
            ),
            (DecodePhase::Waiting(state), DecodeEvent::Rested) => woken(
                state,
                before,
                after,
                progress,
            ),
            (DecodePhase::Answering(state, command), DecodeEvent::CallDone(succeeded)) => turned(
                state.applied(command_result(command)),
                DecodeThread {
                    frame_queue: answered(command, succeeded, before.frame_queue),
                    ..before
                },
                after,
                progress,
            ),
            (DecodePhase::Decoding(state), DecodeEvent::Decoded(outcome)) => decoded(
                state,
                outcome,
                before,
                after,
                progress,
            ),
            (DecodePhase::Resting(state), DecodeEvent::Rested) => turned(
                state,
                before,
                after,
                progress,
            ),
            (DecodePhase::Pushing(state, frame), DecodeEvent::Rested) => pushed(
                state,
                frame,
                before,
                after,
                progress,
            ),
            _ => true,
        }),
    }
}

fn drain(state: DecodeLoop, thread: &mut DecodeThread) -> (progress: Progress)
    requires
        old(thread).wf(),
    ensures
        final(thread).wf(),
        drained(state, *old(thread), *final(thread), progress),
{
    if thread.commands.len() == 0 {
        return Progress { phase: DecodePhase::Observing(state), action: DecodeAction::Observe };
    }
    match thread.commands.pop_front() {
        None => Progress::ended(),
        Some(command) => {
            let call: DecoderCall = prepare_decode_command(command, &mut thread.frame_queue);
            match command {
                DecodeCommand::Stop => Progress::ended(),
                _ => Progress {
                    phase: DecodePhase::Draining(state, command),
                    action: DecodeAction::Call(call),
                },
            }
        },
    }
}

fn turn(state: DecodeLoop, thread: &mut DecodeThread) -> (progress: Progress)
    requires
        old(thread).wf(),
    ensures
        final(thread).wf(),
        turned(state, *old(thread), *final(thread), progress),
{
    if thread.stop_flag {
        Progress::ended()
    } else {
        drain(state, thread)
    }
}

fn wake(state: DecodeLoop, thread: &mut DecodeThread) -> (progress: Progress)
    requires
        old(thread).wf(),
    ensures
        final(thread).wf(),
        woken(state, *old(thread), *final(thread), progress),
{
    if thread.commands.len() == 0 {
        return turn(state, thread);
    }
    match thread.commands.pop_front() {
        None => Progress::ended(),
        Some(command) => {
            let call: DecoderCall = prepare_decode_command(command, &mut thread.frame_queue);
            match command {
                DecodeCommand::Stop => Progress::ended(),
                _ => Progress {
                    phase: DecodePhase::Answering(state, command),
                    action: DecodeAction::Call(call),
                },
            }
        },
    }
}

fn answer(
    state: DecodeLoop,
    command: DecodeCommand,
    succeeded: bool,
    thread: &mut DecodeThread,
) -> (next: DecodeLoop)
    requires
        old(thread).wf(),
    ensures
        final(thread).wf(),
        next == state.applied(command_result(command)),
        *final(thread) == (DecodeThread {
            frame_queue: answered(command, succeeded, old(thread).frame_queue),
            ..*old(thread)
        }),
{
    let mut next: DecodeLoop = state;
    let _ = next.apply(process_decode_command(command, succeeded, &mut thread.frame_queue));
    next
}

fn preview(search: PreviewSearch, outcome: DecodeOutcome, thread: &mut DecodeThread) -> (progress:
    Progress)
    requires
        old(thread).wf(),
        search.wf(),
    ensures
        final(thread).wf(),
        previewed(search, outcome, *old(thread), *final(thread), progress),
{
    let mut search: PreviewSearch = search;
    match search.step(outcome) {
        PreviewStep::Show(frame, dimensions) => {
            let _ = thread.frame_queue.try_push(frame);
            Progress {
                phase: DecodePhase::Previewed(Some(dimensions)),
                action: DecodeAction::Observe,
            }
        },
        PreviewStep::ShowPlaceholder(frame) => {
            let _ = thread.frame_queue.try_push(frame);
            Progress { phase: DecodePhase::Previewed(None), action: DecodeAction::Observe }
        },
        PreviewStep::GiveUp => Progress {
            phase: DecodePhase::Previewed(None),
            action: DecodeAction::Observe,
        },
        PreviewStep::RetryAfter(rest) => Progress {
            phase: DecodePhase::PreviewRest(search),
            action: DecodeAction::Rest(rest),
        },
    }
}

fn size_up(preview: Option<Dimensions>, seen: Observation, thread: &mut DecodeThread) -> (progress:
    Progress)
    requires
        old(thread).wf(),
    ensures
        final(thread).wf(),
        sized_up(preview, seen, *old(thread), *final(thread), progress),
{
    if thread.facts.settle_live(seen.report.duration, preview, seen.report.frame_rate_bits) {
        Progress::pausing(true)
    } else {
        Progress::metadata(seen.now, seen.report.duration.is_none(), thread.stop_flag)
    }
}

fn settle(since: Instant, is_live: bool, seen: Observation, thread: &mut DecodeThread) -> (progress:
    Progress)
    requires
        old(thread).wf(),
    ensures
        final(thread).wf(),
        settled(since, is_live, seen, *old(thread), *final(thread), progress),
{
    if thread.facts.await_metadata(seen.report, seen.now.duration_since(since)) {
        Progress::pausing(is_live)
    } else {
        Progress {
            phase: DecodePhase::MetadataRest(since, is_live),
            action: DecodeAction::Rest(Duration::from_millis(STARTUP_RETRY_MS)),
        }
    }
}

fn observe(
    state: DecodeLoop,
    seen: Observation,
    thread: &mut DecodeThread,
    audio: &mut Option<AudioHandle>,
) -> (progress: Progress)
    requires
        old(thread).wf(),
    ensures
        final(thread).wf(),
        observed(
            state,
            seen,
            *old(thread),
            *final(thread),
            *old(audio),
            *final(audio),
            progress,
        ),
{
    let mut state: DecodeLoop = state;
    thread.buffering_percent = seen.buffering_percent;
    state.refresh_metadata(&mut thread.facts, seen.report, seen.now);
    if let Some(mut handle) = audio.take() {
        state.track_position(&mut handle, seen.position, seen.now);
        *audio = Some(handle);
    }
    match state.next_work(&thread.frame_queue) {
        DecodeWork::WaitForCommand(wait) => Progress {
            phase: DecodePhase::Waiting(state),
            action: DecodeAction::WaitForCommand(wait),
        },
        DecodeWork::Rest(rest) => Progress {
            phase: DecodePhase::Resting(state),
            action: DecodeAction::Rest(rest),
        },
        DecodeWork::DecodeNext => Progress {
            phase: DecodePhase::Decoding(state),
            action: DecodeAction::Decode,
        },
    }
}

fn finish_decode(state: DecodeLoop, outcome: DecodeOutcome, thread: &mut DecodeThread) -> (progress:
    Progress)
    requires
        old(thread).wf(),
    ensures
        final(thread).wf(),
        decoded(state, outcome, *old(thread), *final(thread), progress),
{
    let mut next: DecodeLoop = state;
    let after: AfterDecode = next.after_decode(&mut thread.frame_queue, outcome);
    assert(state.decoded(old(thread).frame_queue, thread.frame_queue, outcome));
    match after {
        AfterDecode::GoOn => turn(next, thread),
        AfterDecode::Rest(rest) => Progress {
            phase: DecodePhase::Resting(next),
            action: DecodeAction::Rest(rest),
        },
        AfterDecode::PushAgain(frame) => Progress {
            phase: DecodePhase::Pushing(next, frame),
            action: DecodeAction::WaitForSpace,
        },
    }
}

fn push_again(state: DecodeLoop, frame: VideoFrame, thread: &mut DecodeThread) -> (progress:
    Progress)
    requires
        old(thread).wf(),
    ensures
        final(thread).wf(),
        pushed(state, frame, *old(thread), *final(thread), progress),
{
    if thread.frame_queue.flushing || thread.frame_queue.stopped {
        return turn(state, thread);
    }
    if thread.frame_queue.is_full() {
        return Progress {
            phase: DecodePhase::Pushing(state, frame),
            action: DecodeAction::WaitForSpace,
        };
    }
    let _ = thread.frame_queue.push(frame);
    assert(thread.frame_queue.same_but_frames(old(thread).frame_queue));
    turn(state, thread)
}

/// The work of a decode thread.
#[derive(Debug, Clone, Copy, PartialEq, Eq, Structural)]
pub struct DecodeTask {
    /// When the thread began.
    pub started: Instant,
    pub phase: DecodePhase,
}

impl DecodeTask {
    /// Begins the work.
    pub fn begin(thread: &DecodeThread, now: Instant) -> (begun: (DecodeTask, DecodeAction))
        ensures
            ({
                let first = Progress::preview(PreviewSearch { attempts: 0 }, thread.stop_flag);
                &&& begun.0 == (DecodeTask { started: now, phase: first.phase })
                &&& begun.1 == first.action
            }),
            begun.0.phase.wf(),
            begun.0.phase.awaits(begun.1),
    {
        let first: Progress = Progress::preview(PreviewSearch::new(), thread.stop_flag);
        (DecodeTask { started: now, phase: first.phase }, first.action)
    }

    /// Takes in what happened and says what to do next.
    pub fn advance(
        &mut self,
        event: DecodeEvent,
        thread: &mut DecodeThread,
        audio: &mut Option<AudioHandle>,
    ) -> (action: DecodeAction)
        requires
            old(self).phase.wf(),
            old(self).phase.expects(event),
            old(thread).wf(),
        ensures
            final(thread).wf(),
            final(self).phase.wf(),
            final(self).phase.awaits(action),
            final(self).started == old(self).started,
            progressed(
                *old(self),
                event,
                *old(thread),
                *final(thread),
                *old(audio),
                *final(audio),
                Progress { phase: final(self).phase, action },
            ),
    {
        let progress: Progress = match self.phase {
            DecodePhase::Preview(search) => match event {
                DecodeEvent::Decoded(outcome) => preview(search, outcome, thread),
                _ => Progress::ended(),
            },
            DecodePhase::PreviewRest(search) => Progress::preview(search, thread.stop_flag),
            DecodePhase::Previewed(sized) => match event {
                DecodeEvent::Observed(seen) => size_up(sized, seen, thread),
                _ => Progress::ended(),
            },
            DecodePhase::Metadata(since, is_live) => match event {
                DecodeEvent::Observed(seen) => settle(since, is_live, seen, thread),
                _ => Progress::ended(),
            },
            DecodePhase::MetadataRest(since, is_live) => Progress::metadata(
                since,
                is_live,
                thread.stop_flag,
            ),
            DecodePhase::Pausing(is_live) => turn(DecodeLoop::new(is_live, self.started), thread),
            DecodePhase::Draining(state, command) => match event {
                DecodeEvent::CallDone(succeeded) => {
                    let state: DecodeLoop = answer(state, command, succeeded, thread);
                    drain(state, thread)
                },
                _ => Progress::ended(),
            },
            DecodePhase::Observing(state) => match event {
                DecodeEvent::Observed(seen) => observe(state, seen, thread, audio),
                _ => Progress::ended(),
            },
            DecodePhase::Waiting(state) => wake(state, thread),
            DecodePhase::Answering(state, command) => match event {
                DecodeEvent::CallDone(succeeded) => {
                    let state: DecodeLoop = answer(state, command, succeeded, thread);
                    turn(state, thread)
                },
                _ => Progress::ended(),
            },
            DecodePhase::Decoding(state) => match event {
                DecodeEvent::Decoded(outcome) => finish_decode(state, outcome, thread),
                _ => Progress::ended(),
            },
            DecodePhase::Resting(state) => turn(state, thread),
            DecodePhase::Pushing(state, frame) => push_again(state, frame, thread),
            DecodePhase::Finished => Progress::ended(),
        };
        self.phase = progress.phase;
        progress.action
    }
}

/// A stopped thread ends as soon as a rest, a wait for space or a turn is over:
/// nothing is decoded, and the decoder is not called again.
pub proof fn law_stop_ends_the_thread(
    task: DecodeTask,
    before: DecodeThread,
    after: DecodeThread,
    audio_before: Option<AudioHandle>,
    audio_after: Option<AudioHandle>,
    progress: Progress,
)
    requires
        before.stop_flag,
        before.frame_queue.stopped,
        task.phase is PreviewRest || task.phase is MetadataRest || task.phase is Resting
            || task.phase is Pushing,
        progressed(
            task,
            DecodeEvent::Rested,
            before,
            after,
            audio_before,
            audio_after,
            progress,
        ),
    ensures
        progress == Progress::ended(),
{
}

/// Playback that is paused decodes nothing: the loop looks at the decoder and
/// goes back to waiting.
pub proof fn law_paused_decodes_nothing(
    task: DecodeTask,
    seen: Observation,
    before: DecodeThread,
    after: DecodeThread,
    audio_before: Option<AudioHandle>,
    audio_after: Option<AudioHandle>,
    progress: Progress,
)
    requires
        task.phase matches DecodePhase::Observing(state) && !state.playing,
        progressed(
            task,
            DecodeEvent::Observed(seen),
            before,
            after,
            audio_before,
            audio_after,
            progress,
        ),
    ensures
        progress.phase is Waiting,
        progress.action is WaitForCommand,
        after.frame_queue == before.frame_queue,
{
}

} // verus!
