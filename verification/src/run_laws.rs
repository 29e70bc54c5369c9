//! What holds of a pipeline while it starts and while it decodes a frame.

use crate::dmabuf::copy_refusal;
use crate::gst_decoder::{
    CapsFacts, FramePull, GstAudioHandle, InitMessage, ZeroCopyGStreamerDecoder,
};
use crate::gst_pipeline::PipelineMode;
use crate::gst_run::{
    decoded, DecodeReply, InitAction, InitPhase, InitReply, InitRun, MappedFrame, SampleAction,
    SampleFacts, SampleFault, SamplePhase,
};
use crate::text::occurs_in;
use crate::time::{Duration, Instant};
use vstd::prelude::*;

verus! {

/// A pipeline that cannot be started or listened to gives no decoder, and each failure its
/// own words.
pub proof fn law_start_fails_with_its_cause(
    run: InitRun,
    cause: String,
    url: Seq<char>,
    mode: PipelineMode,
    after: InitRun,
    action: InitAction,
)
    requires
        run.phase is Starting,
        run.advanced(InitReply::Started(Some(cause)), url, mode, after, action),
    ensures
        action is Done,
        action->Done_0 is Err,
        action->Done_0->Err_0 is DecoderInit,
        action->Done_0->Err_0->DecoderInit_0@ == "Failed to start pipeline: "@ + cause@,
{
}

/// A pipeline that starts is listened to, for ten seconds at a time, until it has settled,
/// failed or fallen silent.
pub proof fn law_start_listens_until_it_settles(
    run: InitRun,
    message: Option<InitMessage>,
    url: Seq<char>,
    mode: PipelineMode,
    after: InitRun,
    action: InitAction,
)
    requires
        run.phase is Listening,
        run.advanced(InitReply::Heard(message), url, mode, after, action),
    ensures
        message is None ==> action == InitAction::AskCaps && after.facts == run.facts,
        message matches Some(InitMessage::AsyncDone(duration)) ==> action == InitAction::AskCaps
            && (duration is Some ==> after.facts.duration == duration),
        message matches Some(InitMessage::Buffering(percent)) ==> (
        action matches InitAction::Listen(wait) && wait.nanos == 10_000_000_000)
            && after.facts.buffering_percent == percent,
        message matches Some(InitMessage::Error(_)) ==> action == (InitAction::Shut { wait: true }),
        action is Listen ==> after.phase is Listening,
        action is AskCaps ==> after.phase is Negotiating,
{
}

/// The first frame is pulled once the format is known; without a size there is no decoder,
/// and the pipeline is shut down.
pub proof fn law_start_needs_a_size(
    run: InitRun,
    came: bool,
    caps: Option<CapsFacts>,
    url: Seq<char>,
    mode: PipelineMode,
    after: InitRun,
    action: InitAction,
)
    requires
        run.phase is Prerolling,
        run.advanced(InitReply::Preroll { came, caps }, url, mode, after, action),
    ensures
        action == InitAction::AskNames || action == (InitAction::Shut { wait: true }),
        action == InitAction::AskNames <==> after.facts.width > 0 && after.facts.height > 0,
        action == InitAction::AskNames ==> after.phase == (InitPhase::Naming { preroll: came }),
        run.facts.width > 0 && run.facts.height > 0 ==> action == InitAction::AskNames
            && after.facts.width == run.facts.width && after.facts.height == run.facts.height,
        !came ==> after.facts == run.facts,
{
}

/// With the names of the elements the start ends in a decoder of the size that was learnt,
/// standing at the beginning; one that was being shut down ends in its error.
pub proof fn law_start_ends_in_a_decoder(
    run: InitRun,
    names: Vec<String>,
    audio: GstAudioHandle,
    url: Seq<char>,
    mode: PipelineMode,
    after: InitRun,
    action: InitAction,
)
    requires
        run.phase is Naming,
        run.facts.width > 0,
        run.facts.height > 0,
        run.advanced(InitReply::Names(names, audio), url, mode, after, action),
    ensures
        action is Done,
        action->Done_0 is Ok,
        action->Done_0->Ok_0.metadata.width == run.facts.width,
        action->Done_0->Ok_0.metadata.height == run.facts.height,
        action->Done_0->Ok_0.metadata.duration == run.facts.duration,
        action->Done_0->Ok_0.mode == mode,
        action->Done_0->Ok_0.head.position.nanos == 0,
        action->Done_0->Ok_0.audio_handle == audio,
{
}

/// A decode first hears all messages, then pulls: up to five frames of an old place may be
/// dropped after a seek, and none else.
pub proof fn law_decode_pulls_after_the_messages(
    before: ZeroCopyGStreamerDecoder,
    after: ZeroCopyGStreamerDecoder,
    now: Instant,
    next: SamplePhase,
    action: SampleAction,
)
    requires
        decoded(
            SamplePhase::Listening,
            DecodeReply::Message(None),
            before,
            after,
            now,
            next,
            action,
        ),
    ensures
        after == before,
        action matches SampleAction::Pull(wait) && wait.nanos == (if before.head.seeking
            || before.head.buffering_percent < 100 {
            1_000_000_000int
        } else {
            100_000_000int
        }),
        next matches SamplePhase::Pulling(pull) && pull.discarded == 0 && pull.max_stale == (
        if before.head.seeking {
            5int
        } else {
            0int
        }),
{
}

/// Without a sample there is no frame and no error; the end of the stream is noted.
pub proof fn law_no_sample_is_no_error(
    pull: FramePull,
    at_end: bool,
    before: ZeroCopyGStreamerDecoder,
    after: ZeroCopyGStreamerDecoder,
    now: Instant,
    next: SamplePhase,
    action: SampleAction,
)
    requires
        decoded(
            SamplePhase::Pulling(pull),
            DecodeReply::NoSample { at_end },
            before,
            after,
            now,
            next,
            action,
        ),
    ensures
        action is Done && action->Done_0 is Ok && action->Done_0->Ok_0 is None,
        after.head.eof == (before.head.eof || at_end),
        after.head.position == before.head.position,
        after.metrics == before.metrics,
{
}

/// What is wrong with a sample is the error of the decode.
pub proof fn law_faulty_sample_is_an_error(
    pull: FramePull,
    fault: SampleFault,
    before: ZeroCopyGStreamerDecoder,
    after: ZeroCopyGStreamerDecoder,
    now: Instant,
    next: SamplePhase,
    action: SampleAction,
)
    requires
        decoded(
            SamplePhase::Pulling(pull),
            DecodeReply::Sample(Err(fault)),
            before,
            after,
            now,
            next,
            action,
        ),
    ensures
        action is Done && action->Done_0 is Err && action->Done_0->Err_0 is DecodeFailed,
        fault is NoBuffer ==> action->Done_0->Err_0->DecodeFailed_0@ == "Sample has no buffer"@,
        fault is NoCaps ==> action->Done_0->Err_0->DecodeFailed_0@ == "Sample has no caps"@,
        fault matches SampleFault::BadCaps(cause) ==> action->Done_0->Err_0->DecodeFailed_0@
            == "Invalid video caps: "@ + cause@,
        after.head.position == before.head.position,
{
}

/// A frame is shared only by a pipeline that shares, and only where the frame can be; what is
/// handed over is the frame itself. Any other frame is copied where it is in NV12, by its
/// format, or, where that is not known, by its description, and else is an error.
pub proof fn law_frames_are_shared_or_copied(
    pull: FramePull,
    facts: SampleFacts,
    before: ZeroCopyGStreamerDecoder,
    after: ZeroCopyGStreamerDecoder,
    now: Instant,
    next: SamplePhase,
    action: SampleAction,
)
    requires
        decoded(
            SamplePhase::Pulling(pull),
            DecodeReply::Sample(Ok(facts)),
            before,
            after,
            now,
            next,
            action,
        ),
        before.metrics.fallback_frames < u64::MAX,
    ensures
        ({
            let shares = before.mode == PipelineMode::ZeroCopy && facts.buffer.is_plannable();
            &&& action is Share <==> shares
            &&& action matches SampleAction::Share(plan) ==> plan.fd == facts.buffer.fd
            &&& shares ==> after.metrics == before.metrics
            &&& !shares && (facts.is_nv12 || facts.name@ == "NV12"@ || (facts.name@ == "UNKNOWN"@ && (
            occurs_in(facts.caps@, "NV12"@) || occurs_in(facts.caps@, "nv12"@))))
                ==> action is ReadBytes
            &&& !shares && action !is ReadBytes ==> action is Done && action->Done_0 is Err
                && action->Done_0->Err_0 is UnsupportedFormat
            &&& !shares && !facts.is_nv12 && facts.name@ != "NV12"@ && (facts.name@ != "UNKNOWN"@
                || !(occurs_in(facts.caps@, "NV12"@) || occurs_in(facts.caps@, "nv12"@)))
                ==> action is Done
            &&& !shares ==> after.metrics.fallback_frames == before.metrics.fallback_frames + 1
            &&& action is ReadBytes ==> (next matches SamplePhase::Mapping { pts, .. } && pts == (
            match facts.pts {
                Some(pts) => pts,
                None => before.head.position,
            }))
        }),
{
}

/// A shared frame is delivered with its own time and without a copy, and the decoder stands
/// at it, unless it belongs to a place that a seek has left: then the next is pulled. One
/// that could not be shared is copied.
pub proof fn law_shared_frame_is_delivered(
    pull: FramePull,
    facts: SampleFacts,
    pts: Duration,
    shared: bool,
    before: ZeroCopyGStreamerDecoder,
    after: ZeroCopyGStreamerDecoder,
    now: Instant,
    next: SamplePhase,
    action: SampleAction,
)
    requires
        facts.pts == Some(pts),
        decoded(
            SamplePhase::Sharing { pull: Some(pull), facts },
            DecodeReply::Shared(shared),
            before,
            after,
            now,
            next,
            action,
        ),
    ensures
        shared && !before.head.seeking ==> {
            &&& action is Done && action->Done_0 is Ok && action->Done_0->Ok_0 is Some
            &&& action->Done_0->Ok_0->0.pts == pts
            &&& action->Done_0->Ok_0->0.copy is None
            &&& after.head.position == pts
        },
        shared && before.head.is_stale_frame(pts, pull.discarded, pull.max_stale) ==> {
            &&& action is Pull
            &&& (next matches SamplePhase::Pulling(later) && later.discarded == pull.discarded + 1
                && later.max_stale == pull.max_stale)
            &&& after.head.position == before.head.position
        },
        !shared && facts.is_nv12 ==> action is ReadBytes,
{
}

/// A copied frame is delivered with its own time, its size and its bytes, and the decoder
/// stands at it. One whose planes do not lie inside its bytes, or whose bytes cannot be read,
/// is an error.
pub proof fn law_copied_frame_is_delivered(
    pull: FramePull,
    pts: Duration,
    frame: MappedFrame,
    before: ZeroCopyGStreamerDecoder,
    after: ZeroCopyGStreamerDecoder,
    now: Instant,
    next: SamplePhase,
    action: SampleAction,
)
    requires
        decoded(
            SamplePhase::Mapping { pull: Some(pull), pts },
            DecodeReply::Mapped(Ok(frame)),
            before,
            after,
            now,
            next,
            action,
        ),
    ensures
        copy_refusal(frame.data@.len(), frame.height, frame.layout) is Some ==> action is Done
            && action->Done_0 is Err && after == before,
        copy_refusal(frame.data@.len(), frame.height, frame.layout) is None
            && !before.head.seeking ==> {
            &&& action is Done && action->Done_0 is Ok && action->Done_0->Ok_0 is Some
            &&& action->Done_0->Ok_0->0.pts == pts
            &&& action->Done_0->Ok_0->0.copy is Some
            &&& action->Done_0->Ok_0->0.copy->0.width == frame.width
            &&& action->Done_0->Ok_0->0.copy->0.height == frame.height
            &&& action->Done_0->Ok_0->0.copy->0.planes@.len() == 2
            &&& action->Done_0->Ok_0->0.copy->0.planes@[0].data@.len() == frame.layout.strides@[0]
                * frame.height || frame.layout.strides@[0] < 0
            &&& after.head.position == pts
        },
{
    if copy_refusal(frame.data@.len(), frame.height, frame.layout) is None
        && frame.layout.strides@[0] >= 0 {
        assert(frame.layout.strides@[0] * frame.height >= 0) by (nonlinear_arith)
            requires
                frame.layout.strides@[0] >= 0,
        ;
    }
}

} // verus!
