//! What holds of the GStreamer decoder: its place in the stream, its seeks, its start-up,
//! and the layout of its frames.

use crate::dmabuf::{copy_refusal, plane_bytes, plane_rows, BufferFacts, PlaneLayout};
use crate::gst_decoder::{
    BusMessage, BusOutcome, CapsFacts, DecodeStart, GstAudioHandle, InitMessage, InitStep,
    PipelineInit, PipelineReset, Playhead, SeekAction, SeekReply, SeekRun, ShareAttempt,
    ZeroCopyGStreamerDecoder,
};
use crate::gst_pipeline::{
    choose_audio_sink, choose_route, first_try, zero_copy_refusal, AudioSink, DecoderFlags,
    PipelineMode, PipelineRoute, PipelineTry,
};
use crate::time::{Duration, Instant};
use crate::video::VideoError;
use vstd::prelude::*;

verus! {

/// A frame belongs to the place that a seek has left where it is more than two seconds past
/// the target, or, after a seek forward, more than a tenth of a second before it. Without a
/// seek no frame does.
pub proof fn law_stale_frames_are_told_by_their_time(
    head: Playhead,
    target: Duration,
    pts: Duration,
    discarded: u32,
    max_stale: u32,
)
    requires
        head.seek_target == Some(target),
        target.nanos + 2_000_000_000 <= u128::MAX,
        pts.nanos + 100_000_000 <= u128::MAX,
    ensures
        head.is_stale_frame(pts, discarded, max_stale) <==> head.seeking && discarded < max_stale
            && (pts.nanos > target.nanos + 2_000_000_000 || (!head.last_seek_backward && pts.nanos
            + 100_000_000 < target.nanos)),
        !head.not_seeking().is_stale_frame(pts, discarded, max_stale),
{
}

/// A seek goes backward where its target is before the position; when it has arrived the
/// position is the target and the stream is not at its end; a frame that is shown ends it.
pub proof fn law_playhead_follows_seeks_and_frames(
    head: Playhead,
    target: Duration,
    pts: Duration,
    now: Instant,
)
    ensures
        head.seeking_to(target).seeking,
        head.seeking_to(target).seek_target == Some(target),
        head.seeking_to(target).last_seek_backward == (target.nanos < head.position.nanos),
        head.seeking_to(target).position == head.position,
        head.arrived(target, now).position == target,
        !head.arrived(target, now).eof,
        head.arrived(target, now).last_seek_time == Some(now),
        head.showing(pts).position == pts,
        !head.showing(pts).seeking,
        head.showing(pts).eof == head.eof,
        head.paused().user_paused,
        !head.resumed(now).user_paused,
        head.resumed(now).position == head.position,
        head.paused().position == head.position,
{
}

/// A stream that was fully buffered once has been; what it is buffered to is what the
/// pipeline said last. Pulls are given a second while it seeks or buffers, and a tenth of
/// one else.
pub proof fn law_buffering_is_remembered(head: Playhead, percent: i32)
    ensures
        head.buffered(percent).buffering_percent == percent,
        head.was_fully_buffered ==> head.buffered(percent).was_fully_buffered,
        percent >= 100 && percent != head.buffering_percent ==> head.buffered(
            percent,
        ).was_fully_buffered,
        percent < 100 ==> head.buffered(percent).was_fully_buffered == head.was_fully_buffered,
        head.buffered(percent).position == head.position,
        head.seeking || head.buffering_percent < 100 ==> head.pull_timeout().nanos
            == 1_000_000_000,
        !head.seeking && head.buffering_percent >= 100 ==> head.pull_timeout().nanos
            == 100_000_000,
{
}

/// A pipeline that was resumed and brings no sample is stuck with the twentieth pull in
/// vain, two seconds or more after; that is reported once. A sample starts the count anew,
/// and the end of the stream ends a seek.
pub proof fn law_stuck_pipeline_is_reported_once(
    head: Playhead,
    resumed: Instant,
    at_end: bool,
    now: Instant,
    later: Instant,
)
    requires
        head.buffering_resume_time == Some(resumed),
        resumed.nanos <= now.nanos,
    ensures
        head.is_stuck(now) <==> now.nanos >= resumed.nanos + 2_000_000_000
            && head.no_sample_after_resume == 19,
        head.is_stuck(now) ==> !head.without_sample(at_end, now).is_stuck(later)
            && head.without_sample(at_end, now).no_sample_after_resume == 0,
        !head.is_stuck(now) && head.no_sample_after_resume < u32::MAX ==> head.without_sample(
            at_end,
            now,
        ).no_sample_after_resume == head.no_sample_after_resume + 1,
        head.with_sample().no_sample_after_resume == 0,
        !head.with_sample().is_stuck(later),
        at_end ==> head.without_sample(at_end, now).eof && !head.without_sample(
            at_end,
            now,
        ).seeking,
        !at_end ==> head.without_sample(at_end, now).eof == head.eof,
        head.without_sample(at_end, now).position == head.position,
{
}

/// An error that the pipeline reports during a seek is not lost: the next decode fails with
/// it, once. Otherwise it fails at once.
pub proof fn law_pipeline_errors_are_raised(
    before: ZeroCopyGStreamerDecoder,
    cause: String,
    heard: ZeroCopyGStreamerDecoder,
    outcome: Option<BusOutcome>,
    after: ZeroCopyGStreamerDecoder,
    start: DecodeStart,
)
    requires
        before.heard(BusMessage::Error(cause), heard, outcome),
        heard.begun(after, start),
    ensures
        before.head.seeking ==> {
            &&& outcome is None
            &&& start is Failed
            &&& start->Failed_0 is DecodeFailed
            &&& start->Failed_0->DecodeFailed_0@ == "Pipeline error: "@ + cause@
            &&& after.pending_error is None
            &&& !after.head.seeking
        },
        !before.head.seeking ==> {
            &&& outcome matches Some(BusOutcome::Failed(VideoError::DecodeFailed(text))) && text@
                == "Pipeline error: "@ + cause@
            &&& heard == before
        },
{
}

/// The end of the stream is the end of decoding, unless a seek is under way, which leaves
/// it. A decode that begins fails with an error that waits, ends at the end, and takes the
/// frame of the start-up once.
pub proof fn law_end_of_stream_ends_decoding(
    before: ZeroCopyGStreamerDecoder,
    heard: ZeroCopyGStreamerDecoder,
    outcome: Option<BusOutcome>,
    after: ZeroCopyGStreamerDecoder,
    start: DecodeStart,
)
    requires
        before.heard(BusMessage::EndOfStream, heard, outcome),
        heard.begun(after, start),
    ensures
        before.head.seeking ==> outcome is None && heard == before,
        !before.head.seeking ==> outcome == Some(BusOutcome::Ended) && heard.head.eof,
        before.pending_error is Some ==> start == DecodeStart::Failed(before.pending_error->0),
        before.pending_error is None && heard.head.eof ==> start is Ended && after == heard,
        before.pending_error is None && !heard.head.eof && heard.head.preroll ==> start
            is TakePreroll && !after.head.preroll,
        before.pending_error is None && !heard.head.eof && !heard.head.preroll ==> start is Pull,
{
}

/// Each frame is counted once, as shared or as copied; it is shared only where that was
/// tried and succeeded in a pipeline that shares.
pub proof fn law_frames_are_counted_once(
    decoder: ZeroCopyGStreamerDecoder,
    attempt: ShareAttempt,
)
    requires
        decoder.metrics.zero_copy_frames < u64::MAX,
        decoder.metrics.fallback_frames < u64::MAX,
    ensures
        ({
            let (after, (shared, report)) = decoder.noting(attempt);
            &&& shared == (decoder.mode == PipelineMode::ZeroCopy && attempt
                == ShareAttempt::Shared)
            &&& after.metrics.zero_copy_frames == decoder.metrics.zero_copy_frames + (if shared {
                1int
            } else {
                0int
            })
            &&& after.metrics.fallback_frames == decoder.metrics.fallback_frames + (if shared {
                0int
            } else {
                1int
            })
            &&& report is Some ==> !shared && report == Some(after.metrics.fallback_frames)
            &&& decoder.mode == PipelineMode::ZeroCopy && !shared
                && !decoder.metrics.logged_fallback ==> report is Some
            &&& after.head == decoder.head
            &&& after.metadata == decoder.metadata
        }),
{
}

/// What is heard is silence while muted, and else the volume that is set; without an
/// element for it nothing is set.
pub proof fn law_mute_silences_the_pipeline(handle: GstAudioHandle)
    ensures
        handle.has_volume_element && handle.muted ==> handle.effective_volume() == Some(0u32),
        handle.has_volume_element && !handle.muted ==> handle.effective_volume() == Some(
            handle.volume,
        ),
        !handle.has_volume_element ==> handle.effective_volume() is None,
{
}

/// A seek waits for an earlier one for three seconds at most, and then for the stream to be
/// buffered for five at most, a file on this machine not at all; then it is made, to the
/// position that was asked for, to the very frame where it goes back.
pub proof fn law_seek_is_made_after_its_waits(
    position: Duration,
    since: Instant,
    now: Instant,
    before: ZeroCopyGStreamerDecoder,
    after: ZeroCopyGStreamerDecoder,
    run: SeekRun,
    action: SeekAction,
)
    requires
        SeekRun::previous(position, since, now, before, after, run, action),
        since.nanos <= now.nanos,
    ensures
        run.position == position,
        ({
            let behind = before.head.seeking && now.nanos < since.nanos + 3_000_000_000;
            let dry = before.head.buffering_percent < 100 && !before.is_local_file;
            &&& behind || dry ==> action is Listen && action->rest.nanos == 50_000_000
            &&& !behind && !dry ==> action == (SeekAction::Seek {
                position,
                accurate: position.nanos < before.head.position.nanos,
                wait: Duration { nanos: 10_000_000_000 },
            })
            &&& action is Seek ==> after.head.seeking && after.head.seek_target == Some(position)
            &&& action is Listen ==> after.head.position == before.head.position
        }),
{
}

/// The wait for buffering ends after five seconds, whatever is buffered.
pub proof fn law_seek_does_not_wait_for_ever(
    position: Duration,
    since: Instant,
    now: Instant,
    before: ZeroCopyGStreamerDecoder,
    after: ZeroCopyGStreamerDecoder,
    run: SeekRun,
    action: SeekAction,
)
    requires
        SeekRun::buffering(position, since, now, before, after, run, action),
        since.nanos <= now.nanos,
    ensures
        action is Seek <==> before.head.buffering_percent >= 100 || before.is_local_file
            || now.nanos >= since.nanos + 5_000_000_000,
        action is Seek || action is Listen,
{
}

/// A refusal, an error and a time-out are failures of a seek, each with its own words; no
/// answer is none.
pub proof fn law_seek_failures_are_told_apart(cause: String)
    ensures
        SeekRun::complaint(SeekReply::Refused(cause)) == Some("Seek failed: "@ + cause@),
        SeekRun::complaint(SeekReply::Error(cause)) == Some("Seek error: "@ + cause@),
        SeekRun::complaint(SeekReply::TimedOut) == Some("Seek timed out"@),
        SeekRun::complaint(SeekReply::Done) is None,
        SeekRun::complaint(SeekReply::NoAnswer) is None,
{
}

/// A pipeline that is reset is given half a second to pause and to play, is paused again
/// only where it was left paused, and rests half a second.
pub proof fn law_reset_leaves_the_pipeline_as_it_was(paused: bool)
    ensures
        PipelineReset::new(paused).wait.nanos == 500_000_000,
        PipelineReset::new(paused).rest.nanos == 500_000_000,
        PipelineReset::new(paused).leave_paused is Some <==> paused,
        paused ==> PipelineReset::new(paused).leave_paused->0.nanos == 100_000_000,
        SeekAction::finish(paused) matches SeekAction::Finish { ensure_playing } && (ensure_playing
            is Some <==> !paused),
{
}

/// What is learnt while a pipeline starts: a duration and a percentage as they are told, an
/// error ends it, and a size comes from the format that was agreed on, or else from the
/// first frame.
pub proof fn law_startup_learns_from_messages(
    init: PipelineInit,
    message: InitMessage,
    after: PipelineInit,
    step: InitStep,
)
    requires
        init.heard(message, after, step),
    ensures
        message matches InitMessage::AsyncDone(duration) ==> step is Settled && (duration is Some
            ==> after.duration == duration) && (duration is None ==> after.duration
            == init.duration),
        message matches InitMessage::Buffering(percent) ==> step is GoOn
            && after.buffering_percent == percent,
        message is Error <==> step is Failed,
        message is Other ==> after == init && step is GoOn,
        after.width == init.width,
        after.height == init.height,
{
}

/// The size and the rate of a stream are those of the format that the sink agreed on; the
/// first frame fills in what that left open, and changes nothing that is known.
pub proof fn law_startup_learns_the_size(init: PipelineInit, caps: CapsFacts)
    requires
        caps.width is Some && caps.width->0 > 0,
        caps.height is Some && caps.height->0 > 0,
    ensures
        init.negotiated(Some(caps)).width == caps.width->0,
        init.negotiated(Some(caps)).height == caps.height->0,
        init.negotiated(None) == init,
        init.negotiated(Some(caps)).duration == init.duration,
        init.width != 0 && init.height != 0 ==> init.prerolled(Some(caps)) == init,
        init.width == 0 ==> init.prerolled(Some(caps)).width == caps.width->0,
        init.height == 0 ==> init.prerolled(Some(caps)).height == caps.height->0,
        init.width != 0 ==> init.prerolled(Some(caps)).width == init.width,
        init.height != 0 ==> init.prerolled(Some(caps)).height == init.height,
        caps.rate is Some && caps.rate->0.denominator != 0 ==> init.negotiated(
            Some(caps),
        ).rate_bits == caps.rate->0.bits,
        caps.rate is None || caps.rate->0.denominator == 0 ==> init.negotiated(
            Some(caps),
        ).rate_bits == init.rate_bits,
{
}

/// A start-up gives a decoder exactly where the size is known; it stands at the beginning,
/// with the size, duration and rate that were learnt, and a copying pipeline has counted its
/// first frame.
pub proof fn law_startup_needs_a_size(
    init: PipelineInit,
    url: Seq<char>,
    mode: PipelineMode,
    codec: String,
    audio: GstAudioHandle,
    preroll: bool,
    decoder: Result<ZeroCopyGStreamerDecoder, VideoError>,
)
    requires
        init.finished(url, mode, codec, audio, preroll, decoder),
    ensures
        decoder is Ok <==> init.width > 0 && init.height > 0,
        decoder matches Ok(made) ==> {
            &&& made.metadata.width == init.width
            &&& made.metadata.height == init.height
            &&& made.metadata.duration == init.duration
            &&& made.metadata.frame_rate_bits == init.rate_bits
            &&& made.metadata.codec == codec
            &&& made.head.position.nanos == 0
            &&& !made.head.eof
            &&& !made.head.seeking
            &&& made.head.preroll == preroll
            &&& made.is_local_file ==> made.head.buffering_percent == 100
            &&& !made.is_local_file ==> made.head.buffering_percent == init.buffering_percent
            &&& made.mode == mode
            &&& made.audio_handle == audio
            &&& made.pending_error is None
            &&& made.metrics.zero_copy_frames == 0
            &&& mode == PipelineMode::CpuCopy ==> made.metrics.fallback_frames == 1
            &&& mode == PipelineMode::ZeroCopy ==> made.metrics.fallback_frames == 0
        },
{
}

/// A frame is copied row by row: every byte of a row of the copy is the byte at its place
/// in the frame.
pub proof fn law_copied_rows_are_the_frames(
    data: Seq<u8>,
    offset: int,
    stride: int,
    rows: int,
    row: int,
    column: int,
)
    requires
        0 <= offset,
        0 <= stride,
        0 <= rows,
        offset + stride * rows <= data.len(),
        0 <= row < rows,
        0 <= column < stride,
    ensures
        plane_bytes(data, offset, stride, rows).len() == stride * rows,
        0 <= row * stride + column < stride * rows,
        plane_bytes(data, offset, stride, rows)[row * stride + column] == data[offset + row * stride
            + column],
{
    assert(stride * rows >= 0) by (nonlinear_arith)
        requires
            stride >= 0,
            rows >= 0,
    ;
    assert(0 <= row * stride + column < stride * rows) by (nonlinear_arith)
        requires
            0 <= row < rows,
            0 <= column < stride,
    ;
}

/// A frame can be copied exactly where both planes are described and lie inside the data;
/// the second plane has half the rows, rounded up.
pub proof fn law_only_whole_frames_are_copied(data_len: nat, height: u32, layout: PlaneLayout)
    ensures
        copy_refusal(data_len, height, layout) is None <==> {
            &&& layout.strides@.len() >= 2
            &&& layout.offsets@.len() >= 2
            &&& layout.offsets@[0] + layout.strides@[0] * height <= data_len
            &&& layout.offsets@[1] + layout.strides@[1] * ((height + 1) / 2) <= data_len
        },
        plane_rows(0, height) == height,
        plane_rows(1, height) == (height + 1) / 2,
{
}

/// The planes of a frame that can be shared are those of the layout that came with it, and
/// else those of its format: each begins where the layout says, and holds its rows.
pub proof fn law_shared_planes_follow_the_layout(facts: BufferFacts, i: int)
    requires
        facts.is_shareable(),
        facts.sizes_fit(),
        0 <= i < facts.share_planes().len(),
    ensures
        ({
            let plane = facts.share_planes()[i];
            &&& facts.is_dmabuf
            &&& facts.fd >= 0
            &&& facts.meta matches Some(meta) ==> plane.stride == meta.strides@[i] as u32
                && plane.offset == meta.offsets@[i] as u32
            &&& facts.meta is None && facts.info_planes > 0 ==> plane.stride
                == facts.info.strides@[i] as u32 && plane.offset == facts.info.offsets@[i] as u32
            &&& i == 0 ==> plane.size == plane.stride * facts.height
            &&& i > 0 ==> plane.size == plane.stride * ((facts.height + 1) / 2)
        }),
{
    let planes = crate::dmabuf::plane_count(
        crate::dmabuf::fourcc_named(facts.name())->0,
    );
    let layout = facts.layout(planes)->0;
    assert(layout.0[i] * plane_rows(i as usize, facts.height) <= u32::MAX);
    assert(layout.0[i] * plane_rows(i as usize, facts.height) >= 0) by (nonlinear_arith);
}

/// Which pipeline is tried: the wishes of the environment in their order, copies first; and
/// where there is none, shared frames, with copies to fall back on.
pub proof fn law_route_follows_the_wishes(flags: DecoderFlags, local: bool)
    ensures
        ({
            let route = choose_route(flags, local);
            &&& flags.force_cpu_copy ==> route is CpuCopy
            &&& !flags.force_cpu_copy && flags.direct_dmabuf ==> route is DirectDmaBuf
            &&& route is PlaybinCpu ==> !local && flags.cpu_http
            &&& route is ZeroCopyOnly ==> flags.force_zero_copy
            &&& !flags.force_cpu_copy && !flags.direct_dmabuf && !flags.cpu_http
                && !flags.force_zero_copy ==> route is ZeroCopyOrCpu && first_try(route)
                is ZeroCopy
            &&& first_try(PipelineRoute::CpuCopy) is CpuCopy
            &&& first_try(PipelineRoute::DirectDmaBuf) is DirectDmaBuf
            &&& first_try(PipelineRoute::PlaybinCpu) is PlaybinCpu
            &&& first_try(PipelineRoute::ZeroCopyOnly) == PipelineTry::ZeroCopy
        }),
{
}

/// Where audio goes: a wish counts, the first of three; without one ALSA where it is there.
pub proof fn law_audio_goes_where_wished(flags: DecoderFlags, alsa: bool)
    ensures
        flags.pulse_audio ==> choose_audio_sink(flags, alsa) == AudioSink::Pulse,
        !flags.pulse_audio && flags.pipewire_audio ==> choose_audio_sink(flags, alsa)
            == AudioSink::PipeWire,
        choose_audio_sink(flags, alsa) == AudioSink::Fake ==> flags.fake_audio,
        !flags.pulse_audio && !flags.pipewire_audio && !flags.fake_audio ==> choose_audio_sink(
            flags,
            alsa,
        ) == (if alsa {
            AudioSink::Alsa
        } else {
            AudioSink::Auto
        }),
{
}

/// Frames are not shared on cards of Intel and AMD, nor on those of NVIDIA without mode
/// setting; on others they are.
pub proof fn law_sharing_depends_on_the_vendor(vendor: u32, modeset: bool)
    ensures
        vendor == 0x8086 || vendor == 0x1002 ==> zero_copy_refusal(vendor, modeset) is Some,
        vendor == 0x10DE ==> (zero_copy_refusal(vendor, modeset) is None <==> modeset),
        vendor != 0x8086 && vendor != 0x1002 && vendor != 0x10DE ==> zero_copy_refusal(
            vendor,
            modeset,
        ) is None,
{
}

/// A pipeline that had to be helped has recovered with the thirtieth sample in a row; until
/// then it is not forgotten how often it was helped.
pub proof fn law_thirty_samples_are_a_recovery(head: Playhead)
    requires
        head.recovery_attempts > 0,
        head.consecutive_samples < u32::MAX,
    ensures
        head.consecutive_samples + 1 >= 30 ==> head.with_sample().recovery_attempts == 0
            && head.with_sample().consecutive_samples == 0,
        head.consecutive_samples + 1 < 30 ==> head.with_sample().recovery_attempts
            == head.recovery_attempts && head.with_sample().consecutive_samples
            == head.consecutive_samples + 1,
        head.with_sample().position == head.position,
        head.with_sample().seeking == head.seeking,
        head.with_sample().buffering_resume_time is None,
{
}

/// A message on buffering is noted and ends nothing; any other message that is no error and
/// no end does nothing.
pub proof fn law_other_messages_end_nothing(
    before: ZeroCopyGStreamerDecoder,
    message: BusMessage,
    after: ZeroCopyGStreamerDecoder,
    outcome: Option<BusOutcome>,
)
    requires
        before.heard(message, after, outcome),
    ensures
        message matches BusMessage::Buffering(percent) ==> outcome is None
            && after.head.buffering_percent == percent && after.head.position
            == before.head.position && after.head.eof == before.head.eof,
        message is Other ==> outcome is None && after == before,
        after.metadata == before.metadata,
        after.metrics == before.metrics,
{
}

} // verus!
