//! What holds of a decode thread from one event to the next.

use crate::audio::AudioHandle;
use crate::decode_loop::{DecodeLoop, DecodeOutcome, DecodeThread, DecoderCall, PreviewSearch};
use crate::decode_task::{
    progressed, DecodeAction, DecodeEvent, DecodePhase, DecodeTask, Observation, Progress,
};
use crate::frame_queue::DecodeCommand;
use crate::time::Instant;
use crate::video::VideoFrame;
use vstd::prelude::*;

verus! {

/// The first picture is queued as the preview, and its size is kept; a decoder that fails
/// ends the search; one that has nothing yet is asked again after a tenth of a second, thirty
/// times in all.
pub proof fn law_thread_begins_with_a_preview(
    task: DecodeTask,
    search: PreviewSearch,
    outcome: DecodeOutcome,
    before: DecodeThread,
    after: DecodeThread,
    audio_before: Option<AudioHandle>,
    audio_after: Option<AudioHandle>,
    progress: Progress,
)
    requires
        task.phase == DecodePhase::Preview(search),
        search.wf(),
        !before.frame_queue.closed_to_frames(),
        before.frame_queue.frames@.len() < before.frame_queue.capacity,
        progressed(
            task,
            DecodeEvent::Decoded(outcome),
            before,
            after,
            audio_before,
            audio_after,
            progress,
        ),
    ensures
        outcome matches DecodeOutcome::Frame(frame) ==> (frame.width > 1 && frame.height > 1 ==> {
            &&& after.frame_queue.frames@ =~= before.frame_queue.frames@.push(frame)
            &&& progress.action == DecodeAction::Observe
            &&& progress.phase matches DecodePhase::Previewed(Some(size)) && size.width
                == frame.width && size.height == frame.height
        }),
        outcome is Failed ==> progress.phase matches DecodePhase::Previewed(None),
        outcome is Failed || outcome is Nothing || outcome is EndOfStream
            ==> after.frame_queue.frames@ =~= before.frame_queue.frames@,
        outcome is Nothing || outcome is EndOfStream ==> {
            &&& search.attempts + 1 < 30 ==> (progress.action matches DecodeAction::Rest(rest)
                && rest.nanos == 100_000_000) && (
            progress.phase matches DecodePhase::PreviewRest(again) && again.attempts
                == search.attempts + 1)
            &&& search.attempts + 1 >= 30 ==> progress.phase matches DecodePhase::Previewed(None)
        },
        after.commands == before.commands,
        after.facts == before.facts,
        audio_after == audio_before,
{
}

/// Start-up waits for metadata until a report has a duration and the size of a picture, or
/// for more than three seconds; what is reported then is kept, and the decoder is paused.
pub proof fn law_thread_waits_for_metadata(
    task: DecodeTask,
    since: Instant,
    live: bool,
    seen: Observation,
    before: DecodeThread,
    after: DecodeThread,
    audio_before: Option<AudioHandle>,
    audio_after: Option<AudioHandle>,
    progress: Progress,
)
    requires
        task.phase == DecodePhase::Metadata(since, live),
        since.nanos <= seen.now.nanos,
        progressed(
            task,
            DecodeEvent::Observed(seen),
            before,
            after,
            audio_before,
            audio_after,
            progress,
        ),
    ensures
        ({
            let known = seen.report.duration is Some && seen.report.dimensions.width > 1
                && seen.report.dimensions.height > 1;
            let late = seen.now.nanos > since.nanos + 3_000_000_000;
            &&& known || late ==> {
                &&& progress.action == DecodeAction::Call(DecoderCall::Pause)
                &&& progress.phase == DecodePhase::Pausing(live)
                &&& seen.report.duration is Some ==> after.facts.duration == seen.report.duration
                &&& seen.report.dimensions.width > 0 && seen.report.dimensions.height > 0
                    ==> after.facts.dimensions == Some(seen.report.dimensions)
            }
            &&& !known && !late ==> {
                &&& progress.action matches DecodeAction::Rest(rest) && rest.nanos == 100_000_000
                &&& progress.phase == DecodePhase::MetadataRest(since, live)
                &&& after == before
            }
        }),
{
}

/// A stream without a duration is live: with a preview its size is that of the preview and
/// there is nothing to wait for. Any other stream, and a live one without a preview, goes on
/// to wait.
pub proof fn law_live_stream_waits_for_nothing(
    task: DecodeTask,
    seen: Observation,
    before: DecodeThread,
    after: DecodeThread,
    audio_before: Option<AudioHandle>,
    audio_after: Option<AudioHandle>,
    progress: Progress,
)
    requires
        task.phase is Previewed,
        !before.stop_flag,
        progressed(
            task,
            DecodeEvent::Observed(seen),
            before,
            after,
            audio_before,
            audio_after,
            progress,
        ),
    ensures
        seen.report.duration is None && task.phase->Previewed_0 is Some ==> progress.phase
            == DecodePhase::Pausing(true) && after.facts.dimensions == task.phase->Previewed_0,
        seen.report.duration is None && task.phase->Previewed_0 is None ==> progress.phase
            == DecodePhase::Metadata(seen.now, true) && after == before,
        seen.report.duration is Some ==> progress.phase == DecodePhase::Metadata(seen.now, false)
            && after == before,
{
}

/// Orders are taken up one by one in the order in which they were given, before anything is
/// decoded; each is handed to the decoder, but for the one that ends the thread.
pub proof fn law_orders_are_taken_in_order(
    task: DecodeTask,
    before: DecodeThread,
    after: DecodeThread,
    audio_before: Option<AudioHandle>,
    audio_after: Option<AudioHandle>,
    progress: Progress,
)
    requires
        task.phase is Resting || task.phase is Waiting,
        !before.stop_flag,
        before.commands@.len() > 0,
        progressed(
            task,
            DecodeEvent::Rested,
            before,
            after,
            audio_before,
            audio_after,
            progress,
        ),
    ensures
        after.commands@ =~= before.commands@.skip(1),
        before.commands@[0] is Stop ==> progress.action is End,
        before.commands@[0] is Play ==> progress.action == DecodeAction::Call(DecoderCall::Resume),
        before.commands@[0] is Pause ==> progress.action == DecodeAction::Call(DecoderCall::Pause),
        before.commands@[0] matches DecodeCommand::Seek(position) ==> progress.action
            == DecodeAction::Call(DecoderCall::Seek(position)) && after.frame_queue.frames@.len()
            == 0,
        before.commands@[0] matches DecodeCommand::SetMuted(muted) ==> progress.action
            == DecodeAction::Call(DecoderCall::SetMuted(muted)),
        before.commands@[0] matches DecodeCommand::SetVolume(volume) ==> progress.action
            == DecodeAction::Call(DecoderCall::SetVolume(volume)),
        !(before.commands@[0] is Stop) ==> progress.phase is Draining || progress.phase
            is Answering,
{
}

/// With its last order carried out the thread looks at the decoder: playing after play,
/// paused after pause, and else as it was.
pub proof fn law_orders_change_playback(
    task: DecodeTask,
    state: DecodeLoop,
    command: DecodeCommand,
    succeeded: bool,
    before: DecodeThread,
    after: DecodeThread,
    audio_before: Option<AudioHandle>,
    audio_after: Option<AudioHandle>,
    progress: Progress,
)
    requires
        task.phase == DecodePhase::Draining(state, command) || task.phase
            == DecodePhase::Answering(state, command),
        !(command is Stop),
        !before.stop_flag,
        before.commands@.len() == 0,
        progressed(
            task,
            DecodeEvent::CallDone(succeeded),
            before,
            after,
            audio_before,
            audio_after,
            progress,
        ),
    ensures
        progress.action == DecodeAction::Observe,
        progress.phase matches DecodePhase::Observing(next) && next.playing == (if command
            is Play {
            true
        } else if command is Pause {
            false
        } else {
            state.playing
        }) && next.is_live == state.is_live,
        after.frame_queue.frames@ == before.frame_queue.frames@,
        command is Seek && succeeded ==> !after.frame_queue.eos,
{
}

/// A look at the decoder tells how much is buffered, and decides: paused waits for an order,
/// a full queue of a recording rests, and else the next frame is decoded. Metadata is renewed
/// after more than half a second, the position of a decoder with its own audio after more
/// than sixteen milliseconds of playback.
pub proof fn law_thread_watches_the_decoder(
    task: DecodeTask,
    state: DecodeLoop,
    seen: Observation,
    before: DecodeThread,
    after: DecodeThread,
    audio: AudioHandle,
    audio_after: Option<AudioHandle>,
    progress: Progress,
)
    requires
        task.phase == DecodePhase::Observing(state),
        state.last_metadata_check.nanos <= seen.now.nanos,
        state.last_position_update.nanos <= seen.now.nanos,
        progressed(
            task,
            DecodeEvent::Observed(seen),
            before,
            after,
            Some(audio),
            audio_after,
            progress,
        ),
    ensures
        after.buffering_percent == seen.buffering_percent,
        after.frame_queue == before.frame_queue,
        after.commands == before.commands,
        !state.playing ==> progress.action is WaitForCommand,
        state.playing && (state.is_live || before.frame_queue.frames@.len()
            < before.frame_queue.capacity) ==> progress.action == DecodeAction::Decode,
        state.playing && !state.is_live && before.frame_queue.frames@.len()
            >= before.frame_queue.capacity ==> (progress.action matches DecodeAction::Rest(rest)
            && rest.nanos == 5_000_000),
        seen.now.nanos > state.last_metadata_check.nanos + 500_000_000 && seen.report.duration
            is Some ==> after.facts.duration == seen.report.duration,
        seen.now.nanos <= state.last_metadata_check.nanos + 500_000_000 ==> after.facts
            == before.facts,
        audio_after is Some,
        state.playing && seen.now.nanos > state.last_position_update.nanos + 16_000_000
            && seen.position is Some && seen.position->0.nanos / 1000 <= u64::MAX
            ==> audio_after->0.native_position_us == seen.position->0.nanos / 1000,
        !state.playing || seen.now.nanos <= state.last_position_update.nanos + 16_000_000
            || seen.position is None ==> audio_after->0 == audio,
        audio_after->0.samples_played == audio.samples_played,
{
}

/// A decoded frame goes to the end of the queue, and the thread looks at the decoder again.
/// A frame of a recording that finds no space waits; the end of the stream is noted and ends
/// playback; a failure rests for ten milliseconds. Nothing else leaves or enters the queue.
pub proof fn law_thread_queues_what_it_decodes(
    task: DecodeTask,
    state: DecodeLoop,
    outcome: DecodeOutcome,
    before: DecodeThread,
    after: DecodeThread,
    audio_before: Option<AudioHandle>,
    audio_after: Option<AudioHandle>,
    progress: Progress,
)
    requires
        task.phase == DecodePhase::Decoding(state),
        !before.stop_flag,
        before.commands@.len() == 0,
        before.wf(),
        !before.frame_queue.closed_to_frames(),
        progressed(
            task,
            DecodeEvent::Decoded(outcome),
            before,
            after,
            audio_before,
            audio_after,
            progress,
        ),
    ensures
        ({
            let full = before.frame_queue.frames@.len() >= before.frame_queue.capacity;
            &&& outcome matches DecodeOutcome::Frame(frame) ==> {
                &&& !full ==> after.frame_queue.frames@ =~= before.frame_queue.frames@.push(frame)
                    && progress.phase == DecodePhase::Observing(state)
                &&& full && !state.is_live ==> after.frame_queue.frames@
                    =~= before.frame_queue.frames@ && progress.phase == DecodePhase::Pushing(
                    state,
                    frame,
                )
                &&& full && state.is_live ==> after.frame_queue.frames@
                    =~= before.frame_queue.frames@.skip(1).push(frame) && progress.phase
                    == DecodePhase::Observing(state)
            }
            &&& !(outcome is Frame) ==> after.frame_queue.frames@ =~= before.frame_queue.frames@
            &&& outcome is EndOfStream ==> after.frame_queue.eos && progress.phase
                == DecodePhase::Observing(DecodeLoop { playing: false, ..state })
            &&& outcome is Nothing ==> after.frame_queue.eos == before.frame_queue.eos
                && progress.phase == DecodePhase::Observing(state)
            &&& outcome is Failed ==> progress.phase == DecodePhase::Resting(state)
                && (progress.action matches DecodeAction::Rest(rest) && rest.nanos == 10_000_000)
        }),
{
}

/// A frame that waits for space is not lost: it waits on while there is none, and goes to the
/// end of the queue once there is; only a queue that is closed drops it.
pub proof fn law_waiting_frame_is_queued_at_last(
    task: DecodeTask,
    state: DecodeLoop,
    frame: VideoFrame,
    before: DecodeThread,
    after: DecodeThread,
    audio_before: Option<AudioHandle>,
    audio_after: Option<AudioHandle>,
    progress: Progress,
)
    requires
        task.phase == DecodePhase::Pushing(state, frame),
        !before.stop_flag,
        before.commands@.len() == 0,
        progressed(
            task,
            DecodeEvent::Rested,
            before,
            after,
            audio_before,
            audio_after,
            progress,
        ),
    ensures
        ({
            let queue = before.frame_queue;
            let full = queue.frames@.len() >= queue.capacity;
            &&& !queue.closed_to_frames() && full ==> after == before && progress.phase
                == DecodePhase::Pushing(state, frame)
            &&& !queue.closed_to_frames() && !full ==> after.frame_queue.frames@
                =~= queue.frames@.push(frame) && progress.phase == DecodePhase::Observing(state)
            &&& queue.closed_to_frames() ==> after.frame_queue.frames@ == queue.frames@
                && progress.phase == DecodePhase::Observing(state)
        }),
{
}

} // verus!
