//! What is heard, how it is counted, and what the audio thread makes of its orders.

use crate::audio::{
    after_stall_detection, some_config_covers, AudioHandle, AudioSamples, CallbackRun,
    CallbackState, OutputFrame, SampleFormat, SupportedConfig,
};
use crate::audio_player::{
    audio_call, audio_drained, audio_progressed, audio_turned, audio_woken, backpressure,
    flushed_for, noted_samples, AudioAction, AudioCall, AudioEvent, AudioLoop, AudioOutcome,
    AudioPhase, AudioProgress, AudioView,
};
use crate::audio_ring_buffer::{
    law_reads_give_back_what_was_written, read_many, ReadSample, RingBufferShared,
};
use crate::frame_queue::DecodeCommand;
use crate::time::Duration;
use vstd::prelude::*;

verus! {

/// The audio position is the time of the first sample plus the time that the samples heard
/// since take, to the microsecond below.
pub proof fn law_audio_position_counts_samples(handle: AudioHandle, base: u64)
    requires
        handle.playback_epoch_us != 0,
        handle.native_position_us == 0,
        handle.audio_base_pts_us == Some(base),
        handle.sample_rate > 0,
        handle.channels > 0,
    ensures
        ({
            let frames: int = handle.samples_played as int / handle.channels as int;
            let heard_us: int = (handle.position().nanos - base * 1_000) / 1_000;
            &&& handle.position().nanos >= base * 1_000
            &&& (handle.position().nanos - base * 1_000) % 1_000 == 0
            &&& heard_us * handle.sample_rate <= frames * 1_000_000
            &&& frames * 1_000_000 < (heard_us + 1) * handle.sample_rate
        }),
{
    let rate: int = handle.sample_rate as int;
    let channels: int = handle.channels as int;
    let frames: int = handle.samples_played as int / channels;
    assert(0 <= frames <= handle.samples_played) by (nonlinear_arith)
        requires
            frames == handle.samples_played as int / channels,
            channels > 0,
            handle.samples_played >= 0,
    ;
    let us: int = frames * 1_000_000 / rate;
    assert(0 <= us <= frames * 1_000_000 && us * rate <= frames * 1_000_000 && frames * 1_000_000
        < (us + 1) * rate) by (nonlinear_arith)
        requires
            us == frames * 1_000_000 / rate,
            rate > 0,
            frames >= 0,
    ;
    assert(handle.position().nanos == base * 1_000 + us * 1_000);
    assert((us * 1_000) % 1_000 == 0 && (us * 1_000) / 1_000 == us);
}

/// Whole seconds of samples are whole seconds of sound, for every rate and every number of
/// channels.
pub proof fn law_seconds_of_samples_are_seconds(handle: AudioHandle, base: u64, seconds: nat)
    requires
        handle.playback_epoch_us != 0,
        handle.native_position_us == 0,
        handle.audio_base_pts_us == Some(base),
        handle.sample_rate > 0,
        handle.channels > 0,
        handle.samples_played == (seconds * handle.sample_rate) * handle.channels,
    ensures
        handle.position().nanos == base * 1_000 + seconds * 1_000_000_000,
{
    let rate: int = handle.sample_rate as int;
    let channels: int = handle.channels as int;
    let frames: int = seconds * rate;
    assert((frames * channels) / channels == frames) by (nonlinear_arith)
        requires
            channels > 0,
    ;
    assert(frames * 1_000_000 == (seconds * 1_000_000) * rate) by (nonlinear_arith)
        requires
            frames == seconds * rate,
    ;
    assert(((seconds * 1_000_000) * rate) / rate == seconds * 1_000_000) by (nonlinear_arith)
        requires
            rate > 0,
    ;
    assert(frames <= handle.samples_played) by (nonlinear_arith)
        requires
            handle.samples_played == frames * channels,
            channels >= 1,
            frames >= 0,
    ;
    assert(seconds <= frames) by (nonlinear_arith)
        requires
            frames == seconds * rate,
            rate >= 1,
    ;
}

/// A position that the platform gives outranks what was counted, once audio may be heard.
/// Without the time of a first sample there is no position.
pub proof fn law_native_position_outranks(handle: AudioHandle)
    ensures
        handle.playback_epoch_us != 0 && handle.native_position_us > 0 ==> handle.position().nanos
            == handle.native_position_us * 1_000,
        handle.native_position_us == 0 && handle.audio_base_pts_us is None
            ==> handle.position().nanos == 0,
{
}

/// On the timeline of the video the audio is where it is less the time by which its stream
/// starts later, and never before the start.
pub proof fn law_stream_offset_is_taken_off(handle: AudioHandle)
    requires
        handle.position().nanos / 1_000 <= i64::MAX,
        i64::MIN <= handle.position().nanos / 1_000 - handle.stream_pts_offset_us <= i64::MAX,
    ensures
        ({
            let us: int = handle.position().nanos as int / 1_000;
            let offset: int = handle.stream_pts_offset_us as int;
            &&& offset == 0 ==> handle.position_for_sync() == handle.position()
            &&& offset != 0 && us > offset ==> handle.position_for_sync().nanos == (us - offset)
                * 1_000
            &&& offset != 0 && us <= offset ==> handle.position_for_sync().nanos == 0
        }),
{
}

/// The offset between the streams is how much later the audio starts; zero where either
/// start is not known.
pub proof fn law_stream_offset_is_the_difference(audio: Option<Duration>, video: Option<Duration>)
    ensures
        audio is None || video is None ==> AudioHandle::start_offset_us(audio, video) == 0,
        audio is Some && video is Some && audio->0.nanos / 1_000 <= i64::MAX && video->0.nanos
            / 1_000 <= i64::MAX ==> AudioHandle::start_offset_us(audio, video) == audio->0.nanos
            / 1_000 - video->0.nanos / 1_000,
        AudioHandle::start_offset_us(audio, audio) == 0,
{
}

/// A buffer that hands out samples: filled up, with no flush asked for and no write under
/// way.
pub open spec fn is_flowing(run: CallbackRun) -> bool {
    &&& run.shared.wf()
    &&& run.shared.prefilled
    &&& run.shared.flush_generation == run.generation
    &&& run.shared.write_head == run.shared.write_pos
}

proof fn lemma_source_sample_flows(run: CallbackRun)
    requires
        is_flowing(run),
        run.shared.pending().len() > 0,
        run.pending < u64::MAX,
    ensures
        ({
            let (next, sample) = run.after_source_sample();
            &&& is_flowing(next)
            &&& sample == Some(run.shared.pending()[0])
            &&& next.shared.pending() =~= run.shared.pending().skip(1)
            &&& next.handle == run.handle
            &&& next.pending == run.pending + 1
            &&& next.any_valid == run.any_valid
        }),
{
    law_reads_give_back_what_was_written(run.shared, run.generation, 1);
    reveal_with_fuel(read_many, 2);
    assert(read_many(run.shared, run.generation, 1).1[0] == ReadSample::Sample(
        run.shared.pending()[0],
    ));
}

/// The frame that is made of the next samples of a source.
pub open spec fn frame_of(
    source: Seq<u32>,
    at: int,
    mono_source: bool,
    mono_output: bool,
) -> OutputFrame {
    if mono_source && mono_output {
        OutputFrame::Mono(source[at])
    } else if mono_source {
        OutputFrame::Stereo(source[at], source[at])
    } else if mono_output {
        OutputFrame::Downmix(source[2 * at], source[2 * at + 1])
    } else {
        OutputFrame::Stereo(source[2 * at], source[2 * at + 1])
    }
}

proof fn lemma_frame_flows(run: CallbackRun, mono_source: bool, mono_output: bool)
    requires
        is_flowing(run),
        run.pending < 256,
        run.shared.pending().len() >= 2 || (mono_source && run.shared.pending().len() >= 1),
        run.handle.samples_played + run.pending + 2 <= u64::MAX,
    ensures
        ({
            let (next, frame) = run.after_frame(mono_source, mono_output);
            let used: int = if mono_source {
                1
            } else {
                2
            };
            &&& is_flowing(next)
            &&& frame == frame_of(run.shared.pending(), 0, mono_source, mono_output)
            &&& next.shared.pending() =~= run.shared.pending().skip(used)
            &&& next.pending < 256
            &&& next.handle.samples_played + next.pending == run.handle.samples_played
                + run.pending + used
            &&& next.any_valid
            &&& next.handle.audio_base_pts_us == run.handle.audio_base_pts_us
        }),
{
    lemma_source_sample_flows(run);
    let one = run.after_source_sample().0;
    if !mono_source {
        lemma_source_sample_flows(one);
        assert(one.shared.pending()[0] == run.shared.pending()[1]);
        assert(run.shared.pending().skip(1).skip(1) =~= run.shared.pending().skip(2));
    }
}

/// [`is_flowing`], kept folded.
#[verifier::opaque]
spec fn flows(run: CallbackRun) -> bool {
    is_flowing(run)
}

/// The samples that wait in the buffer, kept folded.
#[verifier::opaque]
spec fn waiting(run: CallbackRun) -> Seq<u32> {
    run.shared.pending()
}

/// [`CallbackRun::after_frame`], kept folded.
#[verifier::opaque]
spec fn one_frame(run: CallbackRun, mono_source: bool, mono_output: bool) -> (
    CallbackRun,
    OutputFrame,
) {
    run.after_frame(mono_source, mono_output)
}

/// [`CallbackRun::after_frames`], kept folded.
#[verifier::opaque]
spec fn some_frames(run: CallbackRun, mono_source: bool, mono_output: bool, n: nat) -> (
    CallbackRun,
    Seq<OutputFrame>,
) {
    run.after_frames(mono_source, mono_output, n)
}

proof fn lemma_frames_come_one_by_one(
    run: CallbackRun,
    mono_source: bool,
    mono_output: bool,
    n: nat,
)
    ensures
        n == 0 ==> some_frames(run, mono_source, mono_output, n) == (
            run,
            Seq::<OutputFrame>::empty(),
        ),
        n > 0 ==> ({
            let (before, made) = some_frames(run, mono_source, mono_output, (n - 1) as nat);
            let (after, frame) = one_frame(before, mono_source, mono_output);
            some_frames(run, mono_source, mono_output, n) == (after, made.push(frame))
        }),
{
    reveal(some_frames);
    reveal(one_frame);
}

proof fn lemma_frame_flows_on(run: CallbackRun, mono_source: bool, mono_output: bool)
    requires
        flows(run),
        run.pending < 256,
        waiting(run).len() >= 2 || (mono_source && waiting(run).len() >= 1),
        run.handle.samples_played + run.pending + 2 <= u64::MAX,
    ensures
        ({
            let (next, frame) = one_frame(run, mono_source, mono_output);
            let used: int = if mono_source {
                1
            } else {
                2
            };
            &&& flows(next)
            &&& frame == frame_of(waiting(run), 0, mono_source, mono_output)
            &&& waiting(next) =~= waiting(run).skip(used)
            &&& next.pending < 256
            &&& next.handle.samples_played + next.pending == run.handle.samples_played
                + run.pending + used
            &&& next.any_valid
            &&& next.handle.audio_base_pts_us == run.handle.audio_base_pts_us
        }),
{
    reveal(flows);
    reveal(waiting);
    reveal(one_frame);
    lemma_frame_flows(run, mono_source, mono_output);
}

proof fn lemma_frames_flow(
    run: CallbackRun,
    mono_source: bool,
    mono_output: bool,
    n: nat,
)
    requires
        flows(run),
        run.pending < 256,
        mono_source ==> waiting(run).len() >= n,
        !mono_source ==> waiting(run).len() >= 2 * n,
        run.handle.samples_played + run.pending + 2 * n <= u64::MAX,
    ensures
        ({
            let (end, made) = some_frames(run, mono_source, mono_output, n);
            let source = waiting(run);
            let used: int = if mono_source {
                n as int
            } else {
                2 * n as int
            };
            &&& flows(end)
            &&& made.len() == n
            &&& forall|i: int|
                0 <= i < n ==> #[trigger] made[i] == frame_of(source, i, mono_source, mono_output)
            &&& waiting(end) =~= source.skip(used)
            &&& end.pending < 256
            &&& end.handle.samples_played + end.pending == run.handle.samples_played + run.pending
                + used
            &&& n > 0 ==> end.any_valid
            &&& end.handle.audio_base_pts_us == run.handle.audio_base_pts_us
        }),
    decreases n,
{
    let source = waiting(run);
    lemma_frames_come_one_by_one(run, mono_source, mono_output, n);
    if n > 0 {
        let less: nat = (n - 1) as nat;
        lemma_frames_flow(run, mono_source, mono_output, less);
        let (before, made) = some_frames(run, mono_source, mono_output, less);
        let used: int = if mono_source {
            less as int
        } else {
            2 * less as int
        };
        let left = waiting(before);
        assert(left == source.skip(used));
        lemma_frame_flows_on(before, mono_source, mono_output);
        let (after, frame) = one_frame(before, mono_source, mono_output);
        assert(frame == frame_of(source, less as int, mono_source, mono_output)) by {
            assert(left[0] == source[used]);
            if !mono_source {
                assert(left[1] == source[used + 1]);
            }
        }
        assert(source.skip(used).skip(1) =~= source.skip(used + 1));
        if !mono_source {
            assert(source.skip(used).skip(2) =~= source.skip(used + 2));
        }
    } else {
        assert(source.skip(0) =~= source);
    }
}

/// What is played is what was written, in order: where enough is buffered, each output
/// frame holds the next sample of a mono source, or the next two of a stereo source, left
/// before right. Exactly those leave the buffer, and each is counted once as played.
pub proof fn law_samples_are_played_in_order(
    run: CallbackRun,
    mono_source: bool,
    mono_output: bool,
    n: nat,
)
    requires
        is_flowing(run),
        run.pending < 256,
        mono_source ==> run.shared.pending().len() >= n,
        !mono_source ==> run.shared.pending().len() >= 2 * n,
        run.handle.samples_played + run.pending + 2 * n <= u64::MAX,
    ensures
        ({
            let (end, made) = run.after_frames(mono_source, mono_output, n);
            let source = run.shared.pending();
            let used: int = if mono_source {
                n as int
            } else {
                2 * n as int
            };
            &&& is_flowing(end)
            &&& made.len() == n
            &&& forall|i: int|
                0 <= i < n ==> #[trigger] made[i] == frame_of(source, i, mono_source, mono_output)
            &&& end.shared.pending() =~= source.skip(used)
            &&& end.pending < 256
            &&& end.handle.samples_played + end.pending == run.handle.samples_played + run.pending
                + used
            &&& n > 0 ==> end.any_valid
            &&& end.handle.audio_base_pts_us == run.handle.audio_base_pts_us
        }),
{
    reveal(flows);
    reveal(waiting);
    reveal(some_frames);
    lemma_frames_flow(run, mono_source, mono_output, n);
}

/// A flush starts the count of what was heard anew: nothing read before it counts.
pub proof fn law_flush_starts_the_count_anew(run: CallbackRun)
    requires
        run.shared.flush_generation != run.generation,
    ensures
        run.after_source_sample().1 is None,
        run.after_source_sample().0.handle.samples_played == 0,
        run.after_source_sample().0.pending == 0,
        run.after_source_sample().0.shared.pending().len() == 0,
{
}

/// The state and the handle after `n` callbacks in a row without a sound.
pub open spec fn after_silence(state: CallbackState, handle: AudioHandle, n: nat) -> (
    CallbackState,
    AudioHandle,
)
    decreases n,
{
    if n == 0 {
        (state, handle)
    } else {
        let (state, handle) = after_silence(state, handle, (n - 1) as nat);
        after_stall_detection(state, handle, false)
    }
}

/// Three callbacks in a row without a sound are a stall, fewer are not; the first that
/// plays ends it. Nothing else of the audio changes.
pub proof fn law_three_silent_callbacks_are_a_stall(
    state: CallbackState,
    handle: AudioHandle,
    n: nat,
)
    requires
        state.empty_callback_count == 0,
        !handle.audio_stalled,
        n < u32::MAX,
    ensures
        ({
            let (later, heard) = after_silence(state, handle, n);
            let (last, back) = after_stall_detection(later, heard, true);
            &&& heard.audio_stalled == (n >= 3)
            &&& heard == (AudioHandle { audio_stalled: n >= 3, ..handle })
            &&& later.empty_callback_count == n
            &&& !back.audio_stalled
            &&& last.empty_callback_count == 0
        }),
    decreases n,
{
    if n > 0 {
        law_three_silent_callbacks_are_a_stall(state, handle, (n - 1) as nat);
    }
}

/// The decoder is held back by how full the buffer is: not at all up to a quarter, by five
/// milliseconds up to a half, by twenty beyond.
pub proof fn law_full_buffer_holds_the_decoder_back(fill: usize, capacity: usize)
    ensures
        4 * fill <= capacity ==> backpressure(fill, capacity) is None,
        2 * fill > capacity + 1 ==> backpressure(fill, capacity) == Some(
            Duration { nanos: 20_000_000 },
        ),
        2 * fill <= capacity && 4 * fill > capacity + 3 ==> backpressure(fill, capacity) == Some(
            Duration { nanos: 5_000_000 },
        ),
{
}

/// The orders of the audio thread: it plays, pauses and seeks as told, forgets how often it
/// came away empty when it seeks, and leaves volume and mute to the video side.
pub proof fn law_audio_orders_are_carried_out(
    state: AudioLoop,
    command: DecodeCommand,
    ring: RingBufferShared,
    generation: u64,
)
    requires
        ring.wf(),
        ring.flush_generation == generation,
    ensures
        state.applied(command).playing == (if command is Play {
            true
        } else if command is Pause {
            false
        } else {
            state.playing
        }),
        command is Seek ==> state.applied(command).seeking && state.applied(command).first_samples
            && state.applied(command).empty_decodes == 0,
        command matches DecodeCommand::Seek(position) ==> audio_call(command) == AudioCall::Seek(
            position,
        ),
        command is Play ==> audio_call(command) is Play,
        command is Pause ==> audio_call(command) is Pause,
        command is SetMuted || command is SetVolume ==> audio_call(command) is NoCall
            && state.applied(command) == state,
        command is Seek ==> flushed_for(command, ring).after_read(generation).1 is Flushed,
        !(command is Seek) ==> flushed_for(command, ring) == ring,
{
}

/// Orders are taken first in, first out, one at a time, and before anything is decoded. A
/// stop ends the thread; without orders it decodes while it plays, and else waits.
pub proof fn law_audio_orders_come_first(
    state: AudioLoop,
    thread: AudioView,
    ring: RingBufferShared,
)
    ensures
        ({
            let (after, left, progress) = audio_turned(state, thread, ring);
            let woken = audio_woken(state, thread, ring);
            &&& thread.stop_flag ==> progress.action is End
            &&& !thread.stop_flag && thread.commands.len() > 0 ==> {
                &&& after.commands =~= thread.commands.skip(1)
                &&& thread.commands[0] is Stop ==> progress.action is End
                &&& !(thread.commands[0] is Stop) ==> progress.action == AudioAction::Call(
                    audio_call(thread.commands[0]),
                )
                &&& !(thread.commands[0] is Stop) ==> progress.phase == AudioPhase::Draining(
                    state.applied(thread.commands[0]),
                )
            }
            &&& !thread.stop_flag && thread.commands.len() == 0 ==> {
                &&& after == thread
                &&& left == ring
                &&& state.playing ==> progress.action is Decode
                &&& !state.playing ==> progress.action is WaitForCommand
            }
            &&& thread.commands.len() > 0 ==> woken.0.commands =~= thread.commands.skip(1)
            &&& audio_drained(state, thread, ring).0.stop_flag == thread.stop_flag
        }),
{
}

/// The first samples after a start or a seek set the format and the time of the first one;
/// those that follow change neither.
pub proof fn law_first_samples_set_the_time(
    state: AudioLoop,
    handle: AudioHandle,
    samples: AudioSamples,
)
    requires
        samples.pts.nanos / 1_000 < u64::MAX,
    ensures
        state.first_samples ==> noted_samples(state, handle, samples).sample_rate
            == samples.sample_rate,
        state.first_samples ==> noted_samples(state, handle, samples).channels == samples.channels,
        state.first_samples ==> noted_samples(state, handle, samples).audio_base_pts_us is Some
            && noted_samples(state, handle, samples).audio_base_pts_us->0 == samples.pts.nanos
            / 1_000,
        !state.first_samples ==> noted_samples(state, handle, samples) == handle,
        noted_samples(state, handle, samples).samples_played == handle.samples_played,
        !state.after_samples().first_samples,
        !state.after_samples().seeking,
        state.after_samples().playing == state.playing,
{
}

/// A rate is supported exactly where one range of the device holds it, for these channels and
/// in this format.
pub proof fn law_rates_within_a_range_are_supported(
    configs: Seq<SupportedConfig>,
    i: int,
    channels: u16,
    format: SampleFormat,
    rate: u32,
)
    requires
        0 <= i < configs.len(),
    ensures
        configs[i].channels == channels && configs[i].sample_format == format
            && configs[i].min_sample_rate <= rate && rate <= configs[i].max_sample_rate
            ==> some_config_covers(configs, channels, format, rate),
        (forall|k: int|
            0 <= k < configs.len() ==> (#[trigger] configs[k]).channels != channels
                || configs[k].sample_format != format || rate < configs[k].min_sample_rate || rate
                > configs[k].max_sample_rate) ==> !some_config_covers(
            configs,
            channels,
            format,
            rate,
        ),
{
    assert(configs[i].covers(channels, format, rate) ==> some_config_covers(
        configs,
        channels,
        format,
        rate,
    ));
}

/// A device, a stream and a decoder are needed: without one there is no audio, and the thread
/// ends. The buffer of a device holds half a second of two channels, and is played from a
/// twentieth of a second on.
pub proof fn law_audio_needs_its_parts(
    phase: AudioPhase,
    event: AudioEvent,
    before: AudioView,
    after: AudioView,
    ring_before: RingBufferShared,
    ring_after: RingBufferShared,
    handle_before: AudioHandle,
    handle_after: AudioHandle,
    progress: AudioProgress,
)
    requires
        phase is QueryingDevice || phase is OpeningStream || phase is OpeningDecoder,
        phase.expects(event),
        audio_progressed(
            phase,
            event,
            before,
            after,
            ring_before,
            ring_after,
            handle_before,
            handle_after,
            progress,
        ),
    ensures
        ({
            let missing = event == AudioEvent::DeviceRate(None) || event
                == AudioEvent::StreamOpened(false) || event == AudioEvent::DecoderOpened(None);
            &&& missing ==> !handle_after.available && progress.action is End
            &&& !missing ==> handle_after.available == handle_before.available
            &&& event matches AudioEvent::DeviceRate(Some(rate)) ==> (
            progress.action matches AudioAction::OpenStream(config) && config.capacity_samples
                == rate && config.prefill_samples == rate / 10)
            &&& event == AudioEvent::StreamOpened(true) ==> progress.action is OpenDecoder
        }),
{
}

/// Samples go to the buffer behind those before them, and end a seek; a decode that gave
/// nothing, or failed, rests for ten milliseconds and writes nothing.
pub proof fn law_audio_samples_go_to_the_buffer(
    state: AudioLoop,
    outcome: AudioOutcome,
    before: AudioView,
    after: AudioView,
    ring_before: RingBufferShared,
    ring_after: RingBufferShared,
    handle_before: AudioHandle,
    handle_after: AudioHandle,
    progress: AudioProgress,
)
    requires
        audio_progressed(
            AudioPhase::Decoding(state),
            AudioEvent::Decoded(outcome),
            before,
            after,
            ring_before,
            ring_after,
            handle_before,
            handle_after,
            progress,
        ),
        before.commands.len() == 0,
        !before.stop_flag,
    ensures
        outcome matches AudioOutcome::Samples(samples) ==> ring_before.wrote(
            ring_after,
            samples.data@,
        ) && (progress.action is Rest || progress.action is Decode || progress.action
            is WaitForCommand),
        outcome is Samples ==> (progress.phase matches AudioPhase::Resting(next) ==> !next.seeking
            && next.empty_decodes == 0 && !next.first_samples && next.playing == state.playing),
        outcome is Nothing || outcome is Failed ==> ring_after == ring_before && (
        progress.action matches AudioAction::Rest(rest) && rest.nanos == 10_000_000)
            && handle_after == handle_before,
        outcome is Failed ==> progress.phase == AudioPhase::Resting(state),
        outcome is Nothing && state.empty_decodes < u32::MAX ==> (
        progress.phase matches AudioPhase::Resting(next) && next.empty_decodes
            == state.empty_decodes + 1 && next.playing == (state.playing && (state.seeking
            || state.empty_decodes + 1 < 10))),
        after == before,
{
}

} // verus!
