//! How a GStreamer decoder is started and how it decodes one frame, as machines: they
//! are told what the pipeline answered, and say what to ask next.

use crate::dmabuf::{
    copy_refusal, cpu_copy_frame, plan_share, plane_bytes, plane_rows, BufferFacts, CpuFrame,
    PixelFormat, PlaneLayout, ShareDecision, SharePlan,
};
use crate::gst_decoder::{
    check_copy_format, copy_format_refusal, BusMessage, BusOutcome, CapsFacts, DecodeStart,
    FramePull, GstAudioHandle, InitMessage, InitStep, PipelineInit, Playhead, ShareAttempt,
    ZeroCopyGStreamerDecoder,
};
use crate::gst_pipeline::{extract_codec_name, is_codec_name, PipelineMode};
use crate::time::{Duration, Instant};
use crate::video::VideoError;
use vstd::prelude::*;
use vstd::string::StringExecFns;

verus! {

/// How long each message of a starting pipeline, and its first frame, is waited for.
pub const START_WAIT_SECS: u64 = 10;

/// What a starting pipeline answered.
#[derive(Debug, PartialEq, Eq)]
pub enum InitReply {
    /// The pipeline was told to get ready; what is wrong with that, where anything
    /// is.
    Started(Option<String>),
    /// Whether the pipeline can be listened to.
    Bus(bool),
    /// The next message; none where none has come in time.
    Heard(Option<InitMessage>),
    /// The format that the sink has agreed on.
    Caps(Option<CapsFacts>),
    /// The first frame, where it has come, with its format.
    Preroll { came: bool, caps: Option<CapsFacts> },
    /// The names of the elements, and the handle of the audio.
    Names(Vec<String>, GstAudioHandle),
    /// The pipeline is shut down.
    Shut,
}

/// What is to be asked of a starting pipeline.
#[derive(Debug, PartialEq, Eq)]
pub enum InitAction {
    Start,
    AskBus,
    Listen(Duration),
    AskCaps,
    PullPreroll(Duration),
    AskNames,
    /// Shut the pipeline down, and wait for that or not.
    Shut { wait: bool },
    Done(Result<ZeroCopyGStreamerDecoder, VideoError>),
}

/// How far a start has come.
#[derive(Debug, PartialEq, Eq)]
pub enum InitPhase {
    Starting,
    FindingBus,
    Listening,
    Negotiating,
    Prerolling,
    Naming { preroll: bool },
    Shutting(VideoError),
    Finished,
}

/// The start of a pipeline.
#[derive(Debug, PartialEq, Eq)]
pub struct InitRun {
    pub phase: InitPhase,
    pub facts: PipelineInit,
}

impl InitPhase {
    /// True where an answer can come in this phase.
    pub open spec fn expects(self, reply: InitReply) -> bool {
        match self {
            InitPhase::Starting => reply is Started,
            InitPhase::FindingBus => reply is Bus,
            InitPhase::Listening => reply is Heard,
            InitPhase::Negotiating => reply is Caps,
            InitPhase::Prerolling => reply is Preroll,
            InitPhase::Naming { .. } => reply is Names,
            InitPhase::Shutting(_) => reply is Shut,
            InitPhase::Finished => false,
        }
    }

    /// Where the phase stands in the order of a start.
    pub open spec fn rank(self) -> int {
        match self {
            InitPhase::Starting => 0,
            InitPhase::FindingBus => 1,
            InitPhase::Listening => 2,
            InitPhase::Negotiating => 3,
            InitPhase::Prerolling => 4,
            InitPhase::Naming { .. } => 5,
            InitPhase::Shutting(_) => 6,
            InitPhase::Finished => 7,
        }
    }
}

/// True of an error in the start of a decoder with this text.
pub open spec fn is_init_error(error: VideoError, text: Seq<char>) -> bool {
    error is DecoderInit && error->DecoderInit_0@ == text
}

/// True of an error in a decode with this text.
pub open spec fn is_decode_error(error: VideoError, text: Seq<char>) -> bool {
    error is DecodeFailed && error->DecodeFailed_0@ == text
}

impl InitRun {
    pub open spec fn listening(self) -> bool {
        self.phase is Listening
    }

    /// A start before and after an answer, and what comes next.
    pub open spec fn advanced(
        self,
        reply: InitReply,
        url: Seq<char>,
        mode: PipelineMode,
        after: InitRun,
        action: InitAction,
    ) -> bool {
        let wait = Duration::from_secs(START_WAIT_SECS);
        match (self.phase, reply) {
            (InitPhase::Starting, InitReply::Started(failure)) => {
                &&& after.facts == self.facts
                &&& match failure {
                    Some(cause) => {
                        &&& after.phase is Finished
                        &&& action matches InitAction::Done(Err(error)) && is_init_error(
                            error,
                            "Failed to start pipeline: "@ + cause@,
                        )
                    },
                    None => after.phase is FindingBus && action == InitAction::AskBus,
                }
            },
            (InitPhase::FindingBus, InitReply::Bus(found)) => {
                &&& after.facts == self.facts
                &&& if found {
                    after.phase is Listening && action == InitAction::Listen(wait)
                } else {
                    &&& after.phase matches InitPhase::Shutting(error) && is_init_error(
                        error,
                        "Pipeline has no bus"@,
                    )
                    &&& action == InitAction::Shut { wait: false }
                }
            },
            (InitPhase::Listening, InitReply::Heard(message)) => match message {
                None => {
                    &&& after == (InitRun { phase: InitPhase::Negotiating, facts: self.facts })
                    &&& action == InitAction::AskCaps
                },
                Some(message) => exists|step: InitStep|
                    {
                        &&& #[trigger] self.facts.heard(message, after.facts, step)
                        &&& match step {
                            InitStep::GoOn => {
                                &&& after.phase is Listening
                                &&& action == InitAction::Listen(wait)
                            },
                            InitStep::Settled => {
                                &&& after.phase is Negotiating
                                &&& action == InitAction::AskCaps
                            },
                            InitStep::Failed(error) => {
                                &&& after.phase == InitPhase::Shutting(error)
                                &&& action == InitAction::Shut { wait: true }
                            },
                        }
                    },
            },
            (InitPhase::Negotiating, InitReply::Caps(caps)) => {
                &&& after == (InitRun {
                    phase: InitPhase::Prerolling,
                    facts: self.facts.negotiated(caps),
                })
                &&& action == InitAction::PullPreroll(wait)
            },
            (InitPhase::Prerolling, InitReply::Preroll { came, caps }) => {
                let facts = self.facts.prerolled(
                    if came {
                        caps
                    } else {
                        None
                    },
                );
                &&& after.facts == facts
                &&& if facts.width == 0 || facts.height == 0 {
                    &&& after.phase matches InitPhase::Shutting(error) && is_init_error(
                        error,
                        "Could not determine video dimensions"@,
                    )
                    &&& action == InitAction::Shut { wait: true }
                } else {
                    &&& after.phase == InitPhase::Naming { preroll: came }
                    &&& action == InitAction::AskNames
                }
            },
            (InitPhase::Naming { preroll }, InitReply::Names(names, audio)) => {
                &&& after == (InitRun { phase: InitPhase::Finished, facts: self.facts })
                &&& exists|codec: String, result: Result<ZeroCopyGStreamerDecoder, VideoError>|
                    {
                        &&& is_codec_name(names@, codec@)
                        &&& #[trigger] self.facts.finished(url, mode, codec, audio, preroll, result)
                        &&& action == InitAction::Done(result)
                    }
            },
            (InitPhase::Shutting(error), InitReply::Shut) => {
                &&& after == (InitRun { phase: InitPhase::Finished, facts: self.facts })
                &&& action == InitAction::Done(
                    Err::<ZeroCopyGStreamerDecoder, VideoError>(error),
                )
            },
            _ => true,
        }
    }

    /// Begins a start.
    pub fn begin() -> (begun: (InitRun, InitAction))
        ensures
            begun == (
                InitRun { phase: InitPhase::Starting, facts: PipelineInit::new() },
                InitAction::Start,
            ),
    {
        (InitRun { phase: InitPhase::Starting, facts: PipelineInit::new() }, InitAction::Start)
    }

    /// Takes in an answer. Messages apart, of which there may be many, a start goes
    /// on with every answer.
    pub fn advance(
        self,
        reply: InitReply,
        url: &str,
        mode: PipelineMode,
    ) -> (next: (InitRun, InitAction))
        requires
            self.phase.expects(reply),
        ensures
            self.advanced(reply, url@, mode, next.0, next.1),
            next.0.phase.rank() > self.phase.rank() || (self.listening() && next.0.listening()),
            next.1 is Done == next.0.phase is Finished,
    {
        let wait: Duration = Duration::from_secs(START_WAIT_SECS);
        let mut facts: PipelineInit = self.facts;
        let (phase, action): (InitPhase, InitAction) = match (self.phase, reply) {
            (InitPhase::Starting, InitReply::Started(failure)) => match failure {
                Some(cause) => {
                    let error = VideoError::DecoderInit(
                        "Failed to start pipeline: ".to_owned().concat(cause.as_str()),
                    );
                    (InitPhase::Finished, InitAction::Done(Err(error)))
                },
                None => (InitPhase::FindingBus, InitAction::AskBus),
            },
            (InitPhase::FindingBus, InitReply::Bus(found)) => if found {
                (InitPhase::Listening, InitAction::Listen(wait))
            } else {
                let error = VideoError::DecoderInit("Pipeline has no bus".to_owned());
                (InitPhase::Shutting(error), InitAction::Shut { wait: false })
            },
            (InitPhase::Listening, InitReply::Heard(message)) => match message {
                None => (InitPhase::Negotiating, InitAction::AskCaps),
                Some(message) => {
                    let ghost said = message;
                    let step: InitStep = facts.hear(message);
                    assert(self.facts.heard(said, facts, step));
                    match step {
                        InitStep::GoOn => (InitPhase::Listening, InitAction::Listen(wait)),
                        InitStep::Settled => (InitPhase::Negotiating, InitAction::AskCaps),
                        InitStep::Failed(error) => (
                            InitPhase::Shutting(error),
                            InitAction::Shut { wait: true },
                        ),
                    }
                },
            },
            (InitPhase::Negotiating, InitReply::Caps(caps)) => {
                facts.note_negotiated(caps);
                (InitPhase::Prerolling, InitAction::PullPreroll(wait))
            },
            (InitPhase::Prerolling, InitReply::Preroll { came, caps }) => {
                if came {
                    facts.note_preroll(caps);
                }
                if facts.width == 0 || facts.height == 0 {
                    let error = VideoError::DecoderInit(
                        "Could not determine video dimensions".to_owned(),
                    );
                    (InitPhase::Shutting(error), InitAction::Shut { wait: true })
                } else {
                    (InitPhase::Naming { preroll: came }, InitAction::AskNames)
                }
            },
            (InitPhase::Naming { preroll }, InitReply::Names(names, audio)) => {
                let codec: String = extract_codec_name(names.as_slice());
                let ghost named = codec;
                let ghost heard = audio;
                let result: Result<ZeroCopyGStreamerDecoder, VideoError> = facts.finish(
                    url,
                    mode,
                    codec,
                    audio,
                    preroll,
                );
                assert(self.facts.finished(url@, mode, named, heard, preroll, result));
                (InitPhase::Finished, InitAction::Done(result))
            },
            (InitPhase::Shutting(error), _) => (
                InitPhase::Finished,
                InitAction::Done(Err(error)),
            ),
            _ => (
                InitPhase::Finished,
                InitAction::Done(Err(VideoError::DecoderInit("Pipeline has no bus".to_owned()))),
            ),
        };
        (InitRun { phase, facts }, action)
    }
}

/// What a sample says of its frame.
#[derive(Debug, PartialEq, Eq)]
pub struct SampleFacts {
    pub pts: Option<Duration>,
    pub buffer: BufferFacts,
    /// The format is NV12.
    pub is_nv12: bool,
    /// The name of the format, its description, and that of the stream.
    pub name: String,
    pub debug: String,
    pub caps: String,
}

/// What is wrong with a sample.
#[derive(Debug, PartialEq, Eq)]
pub enum SampleFault {
    NoBuffer,
    NoCaps,
    BadCaps(String),
}

impl SampleFault {
    pub open spec fn words(self) -> Seq<char> {
        match self {
            SampleFault::NoBuffer => "Sample has no buffer"@,
            SampleFault::NoCaps => "Sample has no caps"@,
            SampleFault::BadCaps(cause) => "Invalid video caps: "@ + cause@,
        }
    }

    pub fn text(&self) -> (text: String)
        ensures
            text@ == self.words(),
    {
        match self {
            SampleFault::NoBuffer => "Sample has no buffer".to_owned(),
            SampleFault::NoCaps => "Sample has no caps".to_owned(),
            SampleFault::BadCaps(cause) => "Invalid video caps: ".to_owned().concat(
                cause.as_str(),
            ),
        }
    }
}

/// The bytes of a frame and how they are laid out.
#[derive(Debug, PartialEq, Eq)]
pub struct MappedFrame {
    pub data: Vec<u8>,
    pub width: u32,
    pub height: u32,
    pub layout: PlaneLayout,
}

impl MappedFrame {
    /// No row is of negative length.
    pub open spec fn wf(self) -> bool {
        forall|i: int|
            0 <= i < self.layout.strides@.len() ==> #[trigger] self.layout.strides@[i] >= 0
    }

    /// True of the copy of a frame.
    pub open spec fn is_copied(self, frame: CpuFrame) -> bool {
        &&& copy_refusal(self.data@.len(), self.height, self.layout) is None
        &&& frame.format == PixelFormat::Nv12
        &&& frame.width == self.width
        &&& frame.height == self.height
        &&& frame.planes@.len() == 2
        &&& frame.planes@[0].data@ =~= plane_bytes(
            self.data@,
            self.layout.offsets@[0] as int,
            self.layout.strides@[0] as int,
            self.height as int,
        )
        &&& frame.planes@[0].stride == self.layout.strides@[0]
        &&& frame.planes@[1].data@ =~= plane_bytes(
            self.data@,
            self.layout.offsets@[1] as int,
            self.layout.strides@[1] as int,
            plane_rows(1, self.height) as int,
        )
        &&& frame.planes@[1].stride == self.layout.strides@[1]
    }
}

/// A frame that was decoded; with its copy, where it is not shared.
#[derive(Debug, PartialEq, Eq)]
pub struct DecodedSample {
    pub pts: Duration,
    pub copy: Option<CpuFrame>,
}

/// What the pipeline answered.
#[derive(Debug, PartialEq, Eq)]
pub enum DecodeReply {
    /// The next message, where there is one.
    Message(Option<BusMessage>),
    /// What a sample holds.
    Sample(Result<SampleFacts, SampleFault>),
    /// No sample has come; the stream may be at its end.
    NoSample { at_end: bool },
    /// Whether the frame could be shared.
    Shared(bool),
    /// The bytes of the frame, or why they cannot be read.
    Mapped(Result<MappedFrame, String>),
}

impl DecodeReply {
    /// True where the sizes in an answer can be worked with: those of the planes,
    /// where frames are shared, and those of the rows.
    pub open spec fn wf(self, mode: PipelineMode) -> bool {
        match self {
            DecodeReply::Sample(Ok(facts)) => mode == PipelineMode::ZeroCopy
                ==> facts.buffer.sizes_fit(),
            DecodeReply::Mapped(Ok(frame)) => frame.wf(),
            _ => true,
        }
    }
}

/// What is to be asked of the pipeline.
#[derive(Debug, PartialEq, Eq)]
pub enum SampleAction {
    PopMessage,
    /// Read the frame that was decoded during start-up.
    ReadPreroll,
    /// Pull the next sample, and read it.
    Pull(Duration),
    Share(SharePlan),
    /// Read the bytes of the frame.
    ReadBytes,
    Done(Result<Option<DecodedSample>, VideoError>),
}

/// How far a decode has come. The search is none for the frame of the start-up.
#[derive(Debug, PartialEq, Eq)]
pub enum SamplePhase {
    Listening,
    Prerolling,
    Pulling(FramePull),
    Sharing { pull: Option<FramePull>, facts: SampleFacts },
    Mapping { pull: Option<FramePull>, pts: Duration },
    Finished,
}

impl SamplePhase {
    pub open spec fn wf(self) -> bool {
        match self {
            SamplePhase::Pulling(pull) => pull.wf(),
            SamplePhase::Sharing { pull, .. } => pull matches Some(pull) ==> pull.wf(),
            SamplePhase::Mapping { pull, .. } => pull matches Some(pull) ==> pull.wf(),
            _ => true,
        }
    }

    /// True where an answer can come in this phase.
    pub open spec fn expects(self, reply: DecodeReply) -> bool {
        match self {
            SamplePhase::Listening => reply is Message,
            SamplePhase::Prerolling => reply is Sample,
            SamplePhase::Pulling(_) => reply is Sample || reply is NoSample,
            SamplePhase::Sharing { .. } => reply is Shared,
            SamplePhase::Mapping { .. } => reply is Mapped,
            SamplePhase::Finished => false,
        }
    }

    /// Frames of the old place that may still be dropped, and one for the messages
    /// before.
    pub open spec fn pulls_left(self) -> int {
        match self {
            SamplePhase::Listening => 7,
            SamplePhase::Pulling(pull) => pull.max_stale - pull.discarded + 1,
            SamplePhase::Sharing { pull: Some(pull), .. } => pull.max_stale - pull.discarded + 1,
            SamplePhase::Mapping { pull: Some(pull), .. } => pull.max_stale - pull.discarded + 1,
            _ => 0,
        }
    }

    /// Where the phase stands in the way of one frame.
    pub open spec fn rank(self) -> int {
        match self {
            SamplePhase::Listening => 0,
            SamplePhase::Prerolling => 0,
            SamplePhase::Pulling(_) => 1,
            SamplePhase::Sharing { .. } => 2,
            SamplePhase::Mapping { .. } => 3,
            SamplePhase::Finished => 4,
        }
    }

    /// True where a decode has come nearer to its end.
    pub open spec fn is_before(self, next: SamplePhase) -> bool {
        ||| self is Listening && next is Listening
        ||| next.pulls_left() < self.pulls_left()
        ||| next.pulls_left() <= self.pulls_left() && self.rank() < next.rank()
    }
}

/// A decode that has failed.
pub open spec fn failed_with(phase: SamplePhase, action: SampleAction, error: VideoError) -> bool {
    phase is Finished && action == SampleAction::Done(
        Err::<Option<DecodedSample>, VideoError>(error),
    )
}

/// A decode that shows its frame, or drops it for the next.
pub open spec fn delivered(
    pull: Option<FramePull>,
    sample: DecodedSample,
    before: ZeroCopyGStreamerDecoder,
    after: ZeroCopyGStreamerDecoder,
    phase: SamplePhase,
    action: SampleAction,
) -> bool {
    let head = before.head;
    let stale = pull is Some && head.is_stale_frame(
        sample.pts,
        pull->0.discarded,
        pull->0.max_stale,
    );
    if stale {
        &&& after == before
        &&& phase == SamplePhase::Pulling(
            FramePull { discarded: (pull->0.discarded + 1) as u32, ..pull->0 },
        )
        &&& action == SampleAction::Pull(head.pull_timeout())
    } else {
        &&& after == (ZeroCopyGStreamerDecoder {
            head: if pull is Some {
                head.showing(sample.pts)
            } else {
                Playhead { position: sample.pts, ..head }
            },
            ..before
        })
        &&& phase is Finished
        &&& action == SampleAction::Done(
            Ok::<Option<DecodedSample>, VideoError>(Some(sample)),
        )
    }
}

/// A decode that goes on to copy its frame, where the frame can be copied.
pub open spec fn copying(
    pull: Option<FramePull>,
    facts: SampleFacts,
    attempt: ShareAttempt,
    before: ZeroCopyGStreamerDecoder,
    after: ZeroCopyGStreamerDecoder,
    phase: SamplePhase,
    action: SampleAction,
) -> bool {
    &&& after == before.noting(attempt).0
    &&& match copy_format_refusal(facts.is_nv12, facts.name@, facts.debug@, facts.caps@) {
        Some(text) => {
            &&& phase is Finished
            &&& action matches SampleAction::Done(Err(error)) && error is UnsupportedFormat
                && error->UnsupportedFormat_0@ == text
        },
        None => {
            &&& phase == (SamplePhase::Mapping {
                pull,
                pts: match facts.pts {
                    Some(pts) => pts,
                    None => before.head.position,
                },
            })
            &&& action == SampleAction::ReadBytes
        },
    }
}

/// What is done with a sample: it is shared where the decoder shares frames and the
/// frame allows it, and copied otherwise.
pub open spec fn read(
    pull: Option<FramePull>,
    sample: Result<SampleFacts, SampleFault>,
    before: ZeroCopyGStreamerDecoder,
    after: ZeroCopyGStreamerDecoder,
    phase: SamplePhase,
    action: SampleAction,
) -> bool {
    match sample {
        Err(fault) => {
            &&& after == before
            &&& phase is Finished
            &&& action matches SampleAction::Done(Err(error)) && is_decode_error(
                error,
                fault.words(),
            )
        },
        Ok(facts) => if before.mode == PipelineMode::ZeroCopy && facts.buffer.is_plannable() {
            &&& after == before
            &&& phase == (SamplePhase::Sharing { pull, facts })
            &&& action matches SampleAction::Share(plan) && {
                &&& plan.fd == facts.buffer.fd
                &&& plan.format == facts.buffer.share_format()->0
                &&& plan.planes@ =~= facts.buffer.share_planes()
                &&& plan.modifier == facts.buffer.modifier()
                &&& plan.single_fd == (facts.buffer.share_planes().len() > 1
                    && facts.buffer.n_memory == 1)
            }
        } else {
            copying(
                pull,
                facts,
                if before.mode == PipelineMode::ZeroCopy && facts.buffer.is_shareable() {
                    ShareAttempt::Failed
                } else {
                    ShareAttempt::NotShareable
                },
                before,
                after,
                phase,
                action,
            )
        },
    }
}

/// What an answer does to a decoder, and what comes next.
pub open spec fn decoded(
    phase: SamplePhase,
    reply: DecodeReply,
    before: ZeroCopyGStreamerDecoder,
    after: ZeroCopyGStreamerDecoder,
    now: Instant,
    next: SamplePhase,
    action: SampleAction,
) -> bool {
    match (phase, reply) {
        (SamplePhase::Listening, DecodeReply::Message(None)) => {
            &&& after == before
            &&& next == SamplePhase::Pulling(
                FramePull {
                    discarded: 0,
                    max_stale: if before.head.seeking {
                        crate::gst_decoder::MAX_STALE_FRAMES
                    } else {
                        0
                    },
                },
            )
            &&& action == SampleAction::Pull(before.head.pull_timeout())
        },
        (SamplePhase::Listening, DecodeReply::Message(Some(message))) => exists|
            outcome: Option<BusOutcome>,
        |
            {
                &&& #[trigger] before.heard(message, after, outcome)
                &&& match outcome {
                    None => next is Listening && action == SampleAction::PopMessage,
                    Some(BusOutcome::Failed(error)) => failed_with(next, action, error),
                    Some(BusOutcome::Ended) => {
                        &&& next is Finished
                        &&& action == SampleAction::Done(
                            Ok::<Option<DecodedSample>, VideoError>(None),
                        )
                    },
                }
            },
        (SamplePhase::Prerolling, DecodeReply::Sample(sample)) => read(
            None,
            sample,
            before,
            after,
            next,
            action,
        ),
        (SamplePhase::Pulling(pull), DecodeReply::NoSample { at_end }) => {
            &&& after == (ZeroCopyGStreamerDecoder {
                head: before.head.without_sample(at_end, now),
                ..before
            })
            &&& next is Finished
            &&& action == SampleAction::Done(Ok::<Option<DecodedSample>, VideoError>(None))
        },
        (SamplePhase::Pulling(pull), DecodeReply::Sample(sample)) => read(
            Some(pull),
            sample,
            ZeroCopyGStreamerDecoder { head: before.head.with_sample(), ..before },
            after,
            next,
            action,
        ),
        (SamplePhase::Sharing { pull, facts }, DecodeReply::Shared(shared)) => if shared {
            delivered(
                pull,
                DecodedSample {
                    pts: match facts.pts {
                        Some(pts) => pts,
                        None => before.head.position,
                    },
                    copy: None,
                },
                before.noting(ShareAttempt::Shared).0,
                after,
                next,
                action,
            )
        } else {
            copying(pull, facts, ShareAttempt::Failed, before, after, next, action)
        },
        (SamplePhase::Mapping { pull, pts }, DecodeReply::Mapped(mapped)) => match mapped {
            Err(cause) => {
                &&& after == before
                &&& next is Finished
                &&& action matches SampleAction::Done(Err(error)) && is_decode_error(
                    error,
                    "Failed to map buffer: "@ + cause@,
                )
            },
            Ok(frame) => match copy_refusal(frame.data@.len(), frame.height, frame.layout) {
                Some(text) => {
                    &&& after == before
                    &&& next is Finished
                    &&& action matches SampleAction::Done(Err(error)) && is_decode_error(
                        error,
                        text,
                    )
                },
                None => exists|copy: CpuFrame|
                    {
                        &&& #[trigger] frame.is_copied(copy)
                        &&& delivered(
                            pull,
                            DecodedSample { pts, copy: Some(copy) },
                            before,
                            after,
                            next,
                            action,
                        )
                    },
            },
        },
        _ => true,
    }
}

fn deliver(
    pull: Option<FramePull>,
    sample: DecodedSample,
    decoder: &mut ZeroCopyGStreamerDecoder,
) -> (next: (SamplePhase, SampleAction))
    requires
        pull matches Some(pull) ==> pull.wf(),
    ensures
        delivered(pull, sample, *old(decoder), *final(decoder), next.0, next.1),
        next.0.wf(),
{
    match pull {
        Some(mut pull) => {
            if pull.offer(&mut decoder.head, sample.pts) {
                (SamplePhase::Finished, SampleAction::Done(Ok(Some(sample))))
            } else {
                (SamplePhase::Pulling(pull), SampleAction::Pull(decoder.head.pull_timeout()))
            }
        },
        None => {
            decoder.preroll_shown(sample.pts);
            (SamplePhase::Finished, SampleAction::Done(Ok(Some(sample))))
        },
    }
}

fn copy(
    pull: Option<FramePull>,
    facts: SampleFacts,
    attempt: ShareAttempt,
    decoder: &mut ZeroCopyGStreamerDecoder,
) -> (next: (SamplePhase, SampleAction))
    requires
        pull matches Some(pull) ==> pull.wf(),
        old(decoder).mode == PipelineMode::CpuCopy || attempt != ShareAttempt::Shared,
    ensures
        copying(pull, facts, attempt, *old(decoder), *final(decoder), next.0, next.1),
        next.0.wf(),
{
    let pts: Duration = decoder.frame_pts(facts.pts);
    let _ = decoder.note_frame(attempt);
    match check_copy_format(
        facts.is_nv12,
        facts.name.as_str(),
        facts.debug.as_str(),
        facts.caps.as_str(),
    ) {
        Ok(_) => (SamplePhase::Mapping { pull, pts }, SampleAction::ReadBytes),
        Err(error) => (SamplePhase::Finished, SampleAction::Done(Err(error))),
    }
}

fn take_sample(
    pull: Option<FramePull>,
    sample: Result<SampleFacts, SampleFault>,
    decoder: &mut ZeroCopyGStreamerDecoder,
) -> (next: (SamplePhase, SampleAction))
    requires
        pull matches Some(pull) ==> pull.wf(),
        DecodeReply::Sample(sample).wf(old(decoder).mode),
    ensures
        read(pull, sample, *old(decoder), *final(decoder), next.0, next.1),
        next.0.wf(),
{
    match sample {
        Err(fault) => (
            SamplePhase::Finished,
            SampleAction::Done(Err(VideoError::DecodeFailed(fault.text()))),
        ),
        Ok(facts) => if decoder.mode == PipelineMode::CpuCopy {
            copy(pull, facts, ShareAttempt::NotShareable, decoder)
        } else {
            match plan_share(&facts.buffer) {
                ShareDecision::Plan(plan) => (
                    SamplePhase::Sharing { pull, facts },
                    SampleAction::Share(plan),
                ),
                ShareDecision::Failed(_) => copy(pull, facts, ShareAttempt::Failed, decoder),
                ShareDecision::NotShareable => copy(
                    pull,
                    facts,
                    ShareAttempt::NotShareable,
                    decoder,
                ),
            }
        },
    }
}

fn take_bytes(
    pull: Option<FramePull>,
    pts: Duration,
    mapped: Result<MappedFrame, String>,
    decoder: &mut ZeroCopyGStreamerDecoder,
) -> (next: (SamplePhase, SampleAction))
    requires
        pull matches Some(pull) ==> pull.wf(),
        mapped matches Ok(frame) ==> frame.wf(),
    ensures
        decoded(
            (SamplePhase::Mapping { pull, pts }),
            DecodeReply::Mapped(mapped),
            *old(decoder),
            *final(decoder),
            Instant::from_nanos(0),
            next.0,
            next.1,
        ),
        next.0.wf(),
{
    match mapped {
        Err(cause) => (
            SamplePhase::Finished,
            SampleAction::Done(
                Err(
                    VideoError::DecodeFailed(
                        "Failed to map buffer: ".to_owned().concat(cause.as_str()),
                    ),
                ),
            ),
        ),
        Ok(frame) => match cpu_copy_frame(
            frame.data.as_slice(),
            frame.width,
            frame.height,
            &frame.layout,
        ) {
            Ok(copy) => {
                assert(frame.is_copied(copy));
                deliver(pull, DecodedSample { pts, copy: Some(copy) }, decoder)
            },
            Err(error) => (SamplePhase::Finished, SampleAction::Done(Err(error))),
        },
    }
}

/// The decode of one frame.
#[derive(Debug, PartialEq, Eq)]
pub struct DecodeRun {
    pub phase: SamplePhase,
}

impl DecodeRun {
    /// Begins a decode. An error that was kept is raised, and the frame of the
    /// start-up comes first.
    pub fn begin(decoder: &mut ZeroCopyGStreamerDecoder) -> (begun: (DecodeRun, SampleAction))
        ensures
            begun.0.phase.wf(),
            begun.1 is Done == begun.0.phase is Finished,
            exists|start: DecodeStart|
                {
                    &&& #[trigger] old(decoder).begun(*final(decoder), start)
                    &&& match start {
                        DecodeStart::Failed(error) => failed_with(begun.0.phase, begun.1, error),
                        DecodeStart::Ended => {
                            &&& begun.0.phase is Finished
                            &&& begun.1 == SampleAction::Done(
                                Ok::<Option<DecodedSample>, VideoError>(None),
                            )
                        },
                        DecodeStart::TakePreroll => {
                            &&& begun.0.phase is Prerolling
                            &&& begun.1 == SampleAction::ReadPreroll
                        },
                        DecodeStart::Pull => {
                            &&& begun.0.phase is Listening
                            &&& begun.1 == SampleAction::PopMessage
                        },
                    }
                },
    {
        let start: DecodeStart = decoder.begin_decode();
        assert(old(decoder).begun(*decoder, start));
        match start {
            DecodeStart::Failed(error) => (
                DecodeRun { phase: SamplePhase::Finished },
                SampleAction::Done(Err(error)),
            ),
            DecodeStart::Ended => (
                DecodeRun { phase: SamplePhase::Finished },
                SampleAction::Done(Ok(None)),
            ),
            DecodeStart::TakePreroll => (
                DecodeRun { phase: SamplePhase::Prerolling },
                SampleAction::ReadPreroll,
            ),
            DecodeStart::Pull => (
                DecodeRun { phase: SamplePhase::Listening },
                SampleAction::PopMessage,
            ),
        }
    }

    /// Takes in an answer. Messages apart, of which there may be many, a decode comes
    /// nearer to its end with every answer.
    pub fn advance(
        self,
        reply: DecodeReply,
        decoder: &mut ZeroCopyGStreamerDecoder,
        now: Instant,
    ) -> (next: (DecodeRun, SampleAction))
        requires
            self.phase.wf(),
            self.phase.expects(reply),
            reply.wf(old(decoder).mode),
        ensures
            next.0.phase.wf(),
            self.phase.is_before(next.0.phase),
            next.1 is Done == next.0.phase is Finished,
            decoded(
                self.phase,
                reply,
                *old(decoder),
                *final(decoder),
                now,
                next.0.phase,
                next.1,
            ),
    {
        let (phase, action): (SamplePhase, SampleAction) = match (self.phase, reply) {
            (SamplePhase::Listening, DecodeReply::Message(None)) => {
                let pull: FramePull = FramePull::begin(&decoder.head);
                (SamplePhase::Pulling(pull), SampleAction::Pull(decoder.head.pull_timeout()))
            },
            (SamplePhase::Listening, DecodeReply::Message(Some(message))) => {
                let ghost said = message;
                let outcome: Option<BusOutcome> = decoder.process_bus_message(message);
                assert(old(decoder).heard(said, *decoder, outcome));
                match outcome {
                    None => (SamplePhase::Listening, SampleAction::PopMessage),
                    Some(BusOutcome::Failed(error)) => (
                        SamplePhase::Finished,
                        SampleAction::Done(Err(error)),
                    ),
                    Some(BusOutcome::Ended) => (
                        SamplePhase::Finished,
                        SampleAction::Done(Ok(None)),
                    ),
                }
            },
            (SamplePhase::Prerolling, DecodeReply::Sample(sample)) => take_sample(
                None,
                sample,
                decoder,
            ),
            (SamplePhase::Pulling(_), DecodeReply::NoSample { at_end }) => {
                let _ = decoder.head.no_sample(at_end, now);
                (SamplePhase::Finished, SampleAction::Done(Ok(None)))
            },
            (SamplePhase::Pulling(pull), DecodeReply::Sample(sample)) => {
                decoder.head.sample_received();
                take_sample(Some(pull), sample, decoder)
            },
            (SamplePhase::Sharing { pull, facts }, DecodeReply::Shared(shared)) => if shared {
                let pts: Duration = decoder.frame_pts(facts.pts);
                let _ = decoder.note_frame(ShareAttempt::Shared);
                deliver(pull, DecodedSample { pts, copy: None }, decoder)
            } else {
                copy(pull, facts, ShareAttempt::Failed, decoder)
            },
            (SamplePhase::Mapping { pull, pts }, DecodeReply::Mapped(mapped)) => take_bytes(
                pull,
                pts,
                mapped,
                decoder,
            ),
            _ => (SamplePhase::Finished, SampleAction::Done(Ok(None))),
        };
        (DecodeRun { phase }, action)
    }
}

} // verus!
