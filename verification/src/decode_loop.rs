//! The decisions of a video decode thread: when to look for a preview, when to
//! wait for metadata, when to decode and what to do with what was decoded.

use crate::audio::AudioHandle;
use crate::frame_queue::{DecodeCommand, FrameQueue, PushOutcome};
use crate::time::{Duration, Instant};
use crate::video::{is_positive_float, VideoFrame};
use std::collections::VecDeque;
use vstd::prelude::*;

verus! {

/// Tries to decode a preview before playback is asked for.
pub const MAX_PREVIEW_ATTEMPTS: u32 = 30;

/// Pause between two tries for a preview, or two looks at the metadata.
pub const STARTUP_RETRY_MS: u64 = 100;

/// How long a decoder may take to report its metadata.
pub const METADATA_TIMEOUT_MS: u64 = 3000;

/// How often the published metadata is renewed.
pub const METADATA_REFRESH_MS: u64 = 500;

/// How often the position of a decoder that plays its own audio is published.
pub const POSITION_UPDATE_MS: u64 = 16;

/// How long a paused loop waits for a command before it looks around again.
pub const PAUSED_WAIT_MS: u64 = 100;

/// How long the loop rests while the queue is full.
pub const FULL_QUEUE_REST_MS: u64 = 5;

/// How long the loop rests after a decode error.
pub const ERROR_REST_MS: u64 = 10;

/// Size of a picture.
#[derive(Debug, Clone, Copy, PartialEq, Eq, Structural)]
pub struct Dimensions {
    pub width: u32,
    pub height: u32,
}

/// What a decoder says of its stream.
#[derive(Debug, Clone, Copy, PartialEq, Eq, Structural)]
pub struct DecoderReport {
    pub duration: Option<Duration>,
    pub dimensions: Dimensions,
    /// The bits of a 32-bit float.
    pub frame_rate_bits: u32,
}

/// What is published of a stream.
#[derive(Debug, Clone, Copy, PartialEq, Eq, Structural)]
pub struct MediaFacts {
    pub duration: Option<Duration>,
    pub dimensions: Option<Dimensions>,
    /// The bits of a positive 32-bit float.
    pub frame_rate_bits: Option<u32>,
}

impl MediaFacts {
    #[verifier::allow_in_spec]
    pub fn unknown() -> MediaFacts
        returns
            (MediaFacts {
                duration: None::<Duration>,
                dimensions: None::<Dimensions>,
                frame_rate_bits: None::<u32>,
            }),
    {
        MediaFacts { duration: None, dimensions: None, frame_rate_bits: None }
    }

    /// The facts with a frame rate, where it is one.
    #[verifier::allow_in_spec]
    pub fn with_frame_rate(self, bits: u32) -> MediaFacts
        returns
            (if is_positive_float(bits) {
                MediaFacts { frame_rate_bits: Some(bits), ..self }
            } else {
                self
            }),
    {
        if is_positive_float(bits) {
            MediaFacts { frame_rate_bits: Some(bits), ..self }
        } else {
            self
        }
    }

    /// The facts after a report: what the report knows replaces what was known.
    pub open spec fn refreshed(self, report: DecoderReport) -> MediaFacts {
        MediaFacts {
            duration: if report.duration is Some {
                report.duration
            } else {
                self.duration
            },
            dimensions: if report.dimensions.width > 0 && report.dimensions.height > 0 {
                Some(report.dimensions)
            } else {
                self.dimensions
            },
            ..self
        }.with_frame_rate(report.frame_rate_bits)
    }

    pub fn refresh(&mut self, report: DecoderReport)
        ensures
            *final(self) == old(self).refreshed(report),
            report.duration is Some ==> final(self).duration == report.duration,
            report.dimensions.width > 0 && report.dimensions.height > 0
                ==> final(self).dimensions == Some(report.dimensions),
    {
        if report.duration.is_some() {
            self.duration = report.duration;
        }
        if report.dimensions.width > 0 && report.dimensions.height > 0 {
            self.dimensions = Some(report.dimensions);
        }
        *self = self.with_frame_rate(report.frame_rate_bits);
    }

    /// A report that needs no more waiting: it has a duration, and dimensions
    /// beyond those of a placeholder.
    pub open spec fn is_complete(report: DecoderReport) -> bool {
        &&& report.duration is Some
        &&& report.dimensions.width > 1
        &&& report.dimensions.height > 1
    }

    /// Takes in a report at start-up; false where it is worth waiting for a
    /// better one.
    pub fn await_metadata(&mut self, report: DecoderReport, waited: Duration) -> (settled: bool)
        ensures
            settled == (Self::is_complete(report) || Duration::from_millis(
                METADATA_TIMEOUT_MS,
            ).before(waited)),
            *final(self) == (if settled {
                old(self).refreshed(report)
            } else {
                *old(self)
            }),
    {
        if (report.duration.is_some() && report.dimensions.width > 1 && report.dimensions.height
            > 1) || Duration::from_millis(METADATA_TIMEOUT_MS).before(waited) {
            self.refresh(report);
            true
        } else {
            false
        }
    }

    /// A stream without a duration is live. It never reports one, so there is
    /// nothing to wait for once a preview has shown its size.
    pub fn settle_live(
        &mut self,
        duration: Option<Duration>,
        preview: Option<Dimensions>,
        frame_rate_bits: u32,
    ) -> (settled: bool)
        ensures
            settled == (duration is None && preview is Some),
            *final(self) == (if settled {
                (MediaFacts { dimensions: preview, ..*old(self) }).with_frame_rate(frame_rate_bits)
            } else {
                *old(self)
            }),
    {
        if duration.is_none() && preview.is_some() {
            self.dimensions = preview;
            *self = self.with_frame_rate(frame_rate_bits);
            true
        } else {
            false
        }
    }
}

/// What came of asking a decoder for a frame.
#[derive(Debug, Clone, Copy, PartialEq, Eq, Structural)]
pub enum DecodeOutcome {
    Frame(VideoFrame),
    /// No frame yet: the stream buffers.
    Nothing,
    /// No frame, and none will come.
    EndOfStream,
    Failed,
}

/// What to do next about a preview.
#[derive(Debug, Clone, Copy, PartialEq, Eq, Structural)]
pub enum PreviewStep {
    /// Queue the frame and go on; its size is known.
    Show(VideoFrame, Dimensions),
    /// Queue the placeholder and go on.
    ShowPlaceholder(VideoFrame),
    /// Go on without a preview.
    GiveUp,
    RetryAfter(Duration),
}

/// The search for a frame to show before playback is asked for.
#[derive(Debug, Clone, Copy, PartialEq, Eq, Structural)]
pub struct PreviewSearch {
    pub attempts: u32,
}

impl PreviewSearch {
    pub open spec fn wf(self) -> bool {
        self.attempts < MAX_PREVIEW_ATTEMPTS
    }

    pub fn new() -> (search: Self)
        ensures
            search.wf(),
            search.attempts == 0,
    {
        PreviewSearch { attempts: 0 }
    }

    /// True of a frame that is no placeholder.
    #[verifier::allow_in_spec]
    pub fn is_picture(frame: VideoFrame) -> bool
        returns
            frame.width > 1 && frame.height > 1,
    {
        frame.width > 1 && frame.height > 1
    }

    /// What a decode calls for, this being the last attempt or not.
    pub open spec fn reaction(outcome: DecodeOutcome, last: bool) -> PreviewStep {
        match outcome {
            DecodeOutcome::Failed => PreviewStep::GiveUp,
            DecodeOutcome::Frame(frame) => if Self::is_picture(frame) {
                PreviewStep::Show(frame, Dimensions { width: frame.width, height: frame.height })
            } else if last {
                PreviewStep::ShowPlaceholder(frame)
            } else {
                PreviewStep::RetryAfter(Duration::from_millis(STARTUP_RETRY_MS))
            },
            DecodeOutcome::Nothing | DecodeOutcome::EndOfStream => if last {
                PreviewStep::GiveUp
            } else {
                PreviewStep::RetryAfter(Duration::from_millis(STARTUP_RETRY_MS))
            },
        }
    }

    /// Decides what a decode means for the preview. A decoder that has nothing
    /// yet mostly still buffers, so an end of stream is not believed here.
    pub fn step(&mut self, outcome: DecodeOutcome) -> (step: PreviewStep)
        requires
            old(self).wf(),
        ensures
            step == Self::reaction(outcome, old(self).attempts + 1 >= MAX_PREVIEW_ATTEMPTS),
            final(self).attempts == (match outcome {
                DecodeOutcome::Failed => old(self).attempts as int,
                DecodeOutcome::Frame(frame) if Self::is_picture(frame) => old(self).attempts as int,
                _ => old(self).attempts + 1,
            }),
            step is RetryAfter ==> final(self).wf(),
    {
        match outcome {
            DecodeOutcome::Failed => PreviewStep::GiveUp,
            DecodeOutcome::Frame(frame) => {
                if Self::is_picture(frame) {
                    return PreviewStep::Show(
                        frame,
                        Dimensions { width: frame.width, height: frame.height },
                    );
                }
                self.attempts = self.attempts + 1;
                if self.attempts >= MAX_PREVIEW_ATTEMPTS {
                    PreviewStep::ShowPlaceholder(frame)
                } else {
                    PreviewStep::RetryAfter(Duration::from_millis(STARTUP_RETRY_MS))
                }
            },
            DecodeOutcome::Nothing | DecodeOutcome::EndOfStream => {
                self.attempts = self.attempts + 1;
                if self.attempts >= MAX_PREVIEW_ATTEMPTS {
                    PreviewStep::GiveUp
                } else {
                    PreviewStep::RetryAfter(Duration::from_millis(STARTUP_RETRY_MS))
                }
            },
        }
    }
}

/// What a command asks of the decoder itself.
#[derive(Debug, Clone, Copy, PartialEq, Eq, Structural)]
pub enum DecoderCall {
    NoCall,
    Resume,
    Pause,
    Seek(Duration),
    SetMuted(bool),
    SetVolume(u32),
}

/// What a command means for the loop.
#[derive(Debug, Clone, Copy, PartialEq, Eq, Structural)]
pub enum CommandResult {
    /// Go on, with a new playing state where there is one.
    Continue(Option<bool>),
    Stop,
}

/// The call that a command makes to the decoder.
#[verifier::allow_in_spec]
pub fn decoder_call(command: DecodeCommand) -> DecoderCall
    returns
        (match command {
            DecodeCommand::Stop => DecoderCall::NoCall,
            DecodeCommand::Play => DecoderCall::Resume,
            DecodeCommand::Pause => DecoderCall::Pause,
            DecodeCommand::Seek(position) => DecoderCall::Seek(position),
            DecodeCommand::SetMuted(muted) => DecoderCall::SetMuted(muted),
            DecodeCommand::SetVolume(volume) => DecoderCall::SetVolume(volume),
        }),
{
    match command {
        DecodeCommand::Stop => DecoderCall::NoCall,
        DecodeCommand::Play => DecoderCall::Resume,
        DecodeCommand::Pause => DecoderCall::Pause,
        DecodeCommand::Seek(position) => DecoderCall::Seek(position),
        DecodeCommand::SetMuted(muted) => DecoderCall::SetMuted(muted),
        DecodeCommand::SetVolume(volume) => DecoderCall::SetVolume(volume),
    }
}

/// A queue before and after it is made ready for a command: playing forgets an
/// earlier end of stream, seeking drops what was decoded.
pub open spec fn prepared_for(command: DecodeCommand, before: FrameQueue, after: FrameQueue) -> bool {
    match command {
        DecodeCommand::Play => after == (FrameQueue { eos: false, ..before }),
        DecodeCommand::Seek(_) => {
            &&& after.frames@ =~= Seq::<VideoFrame>::empty()
            &&& !after.eos
            &&& !after.flushing
            &&& after.capacity == before.capacity
            &&& after.stopped == before.stopped
            &&& after.live_frames_dropped == before.live_frames_dropped
        },
        _ => after == before,
    }
}

/// Makes the queue ready for a command, before the decoder is called.
pub fn prepare_decode_command(command: DecodeCommand, queue: &mut FrameQueue) -> (call: DecoderCall)
    ensures
        call == decoder_call(command),
        old(queue).wf() ==> final(queue).wf(),
        prepared_for(command, *old(queue), *final(queue)),
{
    match command {
        DecodeCommand::Play => {
            queue.clear_eos();
        },
        DecodeCommand::Seek(_) => {
            queue.flush();
        },
        _ => {},
    }
    decoder_call(command)
}

/// What a command means for the loop.
pub open spec fn command_result(command: DecodeCommand) -> CommandResult {
    match command {
        DecodeCommand::Stop => CommandResult::Stop,
        DecodeCommand::Play => CommandResult::Continue(Some(true)),
        DecodeCommand::Pause => CommandResult::Continue(Some(false)),
        _ => CommandResult::Continue(None),
    }
}

/// The queue once the decoder has answered the call of a command.
pub open spec fn answered(command: DecodeCommand, call_succeeded: bool, queue: FrameQueue) -> FrameQueue {
    if command is Seek && call_succeeded {
        FrameQueue { eos: false, ..queue }
    } else {
        queue
    }
}

/// What a command means for the loop once the decoder has answered. A failed
/// call is reported and otherwise ignored, but for a seek: only one that
/// succeeds clears an end of stream that was noted meanwhile.
pub fn process_decode_command(
    command: DecodeCommand,
    call_succeeded: bool,
    queue: &mut FrameQueue,
) -> (result: CommandResult)
    ensures
        result == command_result(command),
        *final(queue) == answered(command, call_succeeded, *old(queue)),
{
    match command {
        DecodeCommand::Stop => CommandResult::Stop,
        DecodeCommand::Play => CommandResult::Continue(Some(true)),
        DecodeCommand::Pause => CommandResult::Continue(Some(false)),
        DecodeCommand::Seek(_) => {
            if call_succeeded {
                queue.clear_eos();
            }
            CommandResult::Continue(None)
        },
        DecodeCommand::SetMuted(_) | DecodeCommand::SetVolume(_) => CommandResult::Continue(None),
    }
}

/// What the loop does next.
#[derive(Debug, Clone, Copy, PartialEq, Eq, Structural)]
pub enum DecodeWork {
    WaitForCommand(Duration),
    Rest(Duration),
    DecodeNext,
}

/// What the loop does after a decode.
#[derive(Debug, Clone, Copy, PartialEq, Eq, Structural)]
pub enum AfterDecode {
    GoOn,
    Rest(Duration),
    /// Push the frame again once the queue has space.
    PushAgain(VideoFrame),
}

/// The state of a decode loop once start-up is over.
#[derive(Debug, Clone, Copy, PartialEq, Eq, Structural)]
pub struct DecodeLoop {
    pub playing: bool,
    pub is_live: bool,
    pub last_metadata_check: Instant,
    pub last_position_update: Instant,
}

impl DecodeLoop {
    pub fn new(is_live: bool, now: Instant) -> (state: Self)
        ensures
            state == (DecodeLoop {
                playing: false,
                is_live,
                last_metadata_check: now,
                last_position_update: now,
            }),
    {
        DecodeLoop {
            playing: false,
            is_live,
            last_metadata_check: now,
            last_position_update: now,
        }
    }

    /// The state once a command has taken effect.
    pub open spec fn applied(self, result: CommandResult) -> DecodeLoop {
        match result {
            CommandResult::Continue(Some(playing)) => DecodeLoop { playing, ..self },
            _ => self,
        }
    }

    /// Takes in what a command means; false where the loop is to end.
    pub fn apply(&mut self, result: CommandResult) -> (goes_on: bool)
        ensures
            goes_on == (result !is Stop),
            *final(self) == old(self).applied(result),
    {
        match result {
            CommandResult::Stop => false,
            CommandResult::Continue(Some(playing)) => {
                self.playing = playing;
                true
            },
            _ => true,
        }
    }

    #[verifier::allow_in_spec]
    pub fn metadata_due(self, now: Instant) -> bool
        returns
            Duration::from_millis(METADATA_REFRESH_MS).before(
                now.duration_since(self.last_metadata_check),
            ),
    {
        Duration::from_millis(METADATA_REFRESH_MS).before(
            now.duration_since(self.last_metadata_check),
        )
    }

    #[verifier::allow_in_spec]
    pub fn position_due(self, now: Instant) -> bool
        returns
            self.playing && Duration::from_millis(POSITION_UPDATE_MS).before(
                now.duration_since(self.last_position_update),
            ),
    {
        self.playing && Duration::from_millis(POSITION_UPDATE_MS).before(
            now.duration_since(self.last_position_update),
        )
    }

    /// Renews the published metadata where that is due.
    pub fn refresh_metadata(&mut self, facts: &mut MediaFacts, report: DecoderReport, now: Instant)
        ensures
            *final(facts) == (if old(self).metadata_due(now) {
                old(facts).refreshed(report)
            } else {
                *old(facts)
            }),
            *final(self) == (if old(self).metadata_due(now) {
                DecodeLoop { last_metadata_check: now, ..*old(self) }
            } else {
                *old(self)
            }),
    {
        if self.metadata_due(now) {
            facts.refresh(report);
            self.last_metadata_check = now;
        }
    }

    /// Publishes the position of a decoder that plays its own audio, where that
    /// is due.
    pub fn track_position(
        &mut self,
        audio: &mut AudioHandle,
        position: Option<Duration>,
        now: Instant,
    )
        ensures
            *final(self) == (if old(self).position_due(now) {
                DecodeLoop { last_position_update: now, ..*old(self) }
            } else {
                *old(self)
            }),
            *final(audio) == (if old(self).position_due(now) && position is Some {
                AudioHandle { native_position_us: position->0.micros_u64(), ..*old(audio) }
            } else {
                *old(audio)
            }),
    {
        if self.position_due(now) {
            if let Some(position) = position {
                audio.set_native_position(position);
            }
            self.last_position_update = now;
        }
    }

    /// What there is to do.
    pub open spec fn work(self, queue: FrameQueue) -> DecodeWork {
        if !self.playing {
            DecodeWork::WaitForCommand(Duration::from_millis(PAUSED_WAIT_MS))
        } else if !self.is_live && queue.frames@.len() >= queue.capacity {
            DecodeWork::Rest(Duration::from_millis(FULL_QUEUE_REST_MS))
        } else {
            DecodeWork::DecodeNext
        }
    }

    /// What the loop does next. A recorded stream waits while the queue is full;
    /// a live one decodes on and lets the oldest frame go.
    pub fn next_work(&self, queue: &FrameQueue) -> (work: DecodeWork)
        ensures
            work == self.work(*queue),
    {
        if !self.playing {
            DecodeWork::WaitForCommand(Duration::from_millis(PAUSED_WAIT_MS))
        } else if !self.is_live && queue.is_full() {
            DecodeWork::Rest(Duration::from_millis(FULL_QUEUE_REST_MS))
        } else {
            DecodeWork::DecodeNext
        }
    }

    /// The frames of a queue after a decode.
    pub open spec fn queued_after(self, queue: FrameQueue, outcome: DecodeOutcome) -> Seq<
        VideoFrame,
    > {
        match outcome {
            DecodeOutcome::Frame(frame) => if queue.closed_to_frames() {
                queue.frames@
            } else if queue.frames@.len() < queue.capacity {
                queue.frames@.push(frame)
            } else if self.is_live {
                queue.frames@.skip(1).push(frame)
            } else {
                queue.frames@
            },
            _ => queue.frames@,
        }
    }

    /// A queue before and after a decode.
    pub open spec fn decoded(self, before: FrameQueue, after: FrameQueue, outcome: DecodeOutcome) -> bool {
        &&& after.frames@ =~= self.queued_after(before, outcome)
        &&& after.eos == (before.eos || outcome is EndOfStream)
        &&& after.capacity == before.capacity
        &&& after.stopped == before.stopped
        &&& after.flushing == before.flushing
        &&& after.live_frames_dropped == (if outcome is Frame && self.is_live
            && !before.closed_to_frames() && before.frames@.len() >= before.capacity {
            before.live_frames_dropped.wrapping_add(1)
        } else {
            before.live_frames_dropped
        })
    }

    /// The state after a decode: the end of the stream ends playback.
    pub open spec fn after_outcome(self, outcome: DecodeOutcome) -> DecodeLoop {
        if outcome is EndOfStream {
            DecodeLoop { playing: false, ..self }
        } else {
            self
        }
    }

    /// What a decode leaves to do.
    pub open spec fn follow_up(self, queue: FrameQueue, outcome: DecodeOutcome) -> AfterDecode {
        match outcome {
            DecodeOutcome::Failed => AfterDecode::Rest(Duration::from_millis(ERROR_REST_MS)),
            DecodeOutcome::Frame(frame) if !self.is_live && !queue.closed_to_frames()
                && queue.frames@.len() >= queue.capacity => AfterDecode::PushAgain(frame),
            _ => AfterDecode::GoOn,
        }
    }

    /// Deals with what the decoder gave.
    pub fn after_decode(&mut self, queue: &mut FrameQueue, outcome: DecodeOutcome) -> (next:
        AfterDecode)
        requires
            old(queue).wf(),
        ensures
            final(queue).wf(),
            old(self).decoded(*old(queue), *final(queue), outcome),
            *final(self) == old(self).after_outcome(outcome),
            next == old(self).follow_up(*old(queue), outcome),
    {
        match outcome {
            DecodeOutcome::Frame(frame) => {
                if self.is_live {
                    let _ = queue.push_live(frame);
                    AfterDecode::GoOn
                } else {
                    match queue.push(frame) {
                        PushOutcome::WaitForSpace => AfterDecode::PushAgain(frame),
                        _ => AfterDecode::GoOn,
                    }
                }
            },
            DecodeOutcome::Nothing => AfterDecode::GoOn,
            DecodeOutcome::EndOfStream => {
                queue.set_eos();
                self.playing = false;
                AfterDecode::GoOn
            },
            DecodeOutcome::Failed => AfterDecode::Rest(Duration::from_millis(ERROR_REST_MS)),
        }
    }
}

/// What a player and its decode thread share: the orders of the one, and what
/// the other has decoded and found out.
pub struct DecodeThread {
    pub commands: VecDeque<DecodeCommand>,
    pub frame_queue: FrameQueue,
    pub stop_flag: bool,
    pub facts: MediaFacts,
    /// From nought to a hundred.
    pub buffering_percent: i32,
}

impl DecodeThread {
    pub open spec fn wf(self) -> bool {
        self.frame_queue.wf()
    }

    /// Nothing but an order was added to `other`.
    pub open spec fn ordered(self, other: DecodeThread, command: DecodeCommand) -> bool {
        &&& self.commands@ =~= other.commands@.push(command)
        &&& self.frame_queue == other.frame_queue
        &&& self.stop_flag == other.stop_flag
        &&& self.facts == other.facts
        &&& self.buffering_percent == other.buffering_percent
    }

    /// A thread that is to decode into `frame_queue`. It starts paused, with
    /// nothing buffered.
    pub fn new(frame_queue: FrameQueue) -> (thread: Self)
        ensures
            thread.commands@ =~= Seq::<DecodeCommand>::empty(),
            thread.frame_queue == frame_queue,
            !thread.stop_flag,
            thread.facts == MediaFacts::unknown(),
            thread.buffering_percent == 0,
    {
        DecodeThread {
            commands: VecDeque::new(),
            frame_queue,
            stop_flag: false,
            facts: MediaFacts::unknown(),
            buffering_percent: 0,
        }
    }

    pub fn play(&mut self)
        ensures
            final(self).ordered(*old(self), DecodeCommand::Play),
    {
        self.commands.push_back(DecodeCommand::Play);
    }

    pub fn pause(&mut self)
        ensures
            final(self).ordered(*old(self), DecodeCommand::Pause),
    {
        self.commands.push_back(DecodeCommand::Pause);
    }

    /// Drops what is queued at once, shows that nothing is buffered, and leaves
    /// the rest of the seek to the thread.
    pub fn seek(&mut self, position: Duration)
        ensures
            old(self).wf() ==> final(self).wf(),
            final(self).commands@ =~= old(self).commands@.push(DecodeCommand::Seek(position)),
            final(self).frame_queue.frames@ =~= Seq::<VideoFrame>::empty(),
            !final(self).frame_queue.flushing,
            !final(self).frame_queue.eos,
            final(self).frame_queue.capacity == old(self).frame_queue.capacity,
            final(self).frame_queue.stopped == old(self).frame_queue.stopped,
            final(self).frame_queue.live_frames_dropped == old(
                self,
            ).frame_queue.live_frames_dropped,
            final(self).stop_flag == old(self).stop_flag,
            final(self).facts == old(self).facts,
            final(self).buffering_percent == 0,
    {
        self.frame_queue.flush();
        self.buffering_percent = 0;
        self.commands.push_back(DecodeCommand::Seek(position));
    }

    /// Ends the thread. The queue is closed first, so that a push that waits for
    /// space cannot keep the thread from seeing the end.
    pub fn stop(&mut self)
        ensures
            final(self).commands@ =~= old(self).commands@.push(DecodeCommand::Stop),
            final(self).frame_queue == (FrameQueue { stopped: true, ..old(self).frame_queue }),
            final(self).stop_flag,
            final(self).facts == old(self).facts,
            final(self).buffering_percent == old(self).buffering_percent,
    {
        self.frame_queue.stop();
        self.stop_flag = true;
        self.commands.push_back(DecodeCommand::Stop);
    }

    pub fn set_muted(&mut self, muted: bool)
        ensures
            final(self).ordered(*old(self), DecodeCommand::SetMuted(muted)),
    {
        self.commands.push_back(DecodeCommand::SetMuted(muted));
    }

    pub fn set_volume(&mut self, percent: u32)
        ensures
            final(self).ordered(*old(self), DecodeCommand::SetVolume(percent)),
    {
        self.commands.push_back(DecodeCommand::SetVolume(percent));
    }

    pub fn frame_queue(&self) -> (queue: &FrameQueue)
        ensures
            *queue == self.frame_queue,
    {
        &self.frame_queue
    }

    pub fn duration(&self) -> (duration: Option<Duration>)
        ensures
            duration == self.facts.duration,
    {
        self.facts.duration
    }

    pub fn dimensions(&self) -> (dimensions: Option<Dimensions>)
        ensures
            dimensions == self.facts.dimensions,
    {
        self.facts.dimensions
    }

    /// The bits of the frame rate, where it is known.
    pub fn frame_rate(&self) -> (bits: Option<u32>)
        ensures
            bits == self.facts.frame_rate_bits,
    {
        self.facts.frame_rate_bits
    }

    pub fn buffering_percent(&self) -> (percent: i32)
        ensures
            percent == self.buffering_percent,
    {
        self.buffering_percent
    }
}

/// The facts after a run of reports.
pub open spec fn refreshed_by(facts: MediaFacts, reports: Seq<DecoderReport>) -> MediaFacts
    decreases reports.len(),
{
    if reports.len() == 0 {
        facts
    } else {
        refreshed_by(facts, reports.drop_last()).refreshed(reports.last())
    }
}

/// What is known of a stream stays known, whatever a decoder reports later.
pub proof fn law_facts_are_never_forgotten(facts: MediaFacts, reports: Seq<DecoderReport>)
    ensures
        facts.duration is Some ==> refreshed_by(facts, reports).duration is Some,
        facts.dimensions is Some ==> refreshed_by(facts, reports).dimensions is Some,
        facts.frame_rate_bits is Some ==> refreshed_by(facts, reports).frame_rate_bits is Some,
    decreases reports.len(),
{
    if reports.len() > 0 {
        law_facts_are_never_forgotten(facts, reports.drop_last());
    }
}

/// What a decoder reports is what is published, whatever was known before; what it does
/// not report stays as it was known. A size counts where neither side is zero, a rate
/// where it is above zero.
pub proof fn law_report_replaces_what_was_known(facts: MediaFacts, report: DecoderReport)
    ensures
        ({
            let known = facts.refreshed(report);
            let sized = report.dimensions.width > 0 && report.dimensions.height > 0;
            let rated = 0 < report.frame_rate_bits <= 0x7F80_0000;
            &&& report.duration is Some ==> known.duration == report.duration
            &&& report.duration is None ==> known.duration == facts.duration
            &&& sized ==> known.dimensions == Some(report.dimensions)
            &&& !sized ==> known.dimensions == facts.dimensions
            &&& rated ==> known.frame_rate_bits == Some(report.frame_rate_bits)
            &&& !rated ==> known.frame_rate_bits == facts.frame_rate_bits
        }),
{
}

/// Of a run of reports the last that names a thing counts: the duration that is published
/// is that of the last report that had one, and so for the size.
pub proof fn law_latest_report_counts(facts: MediaFacts, reports: Seq<DecoderReport>, i: int)
    requires
        0 <= i < reports.len(),
    ensures
        reports[i].duration is Some && (forall|k: int|
            i < k < reports.len() ==> (#[trigger] reports[k]).duration is None) ==> refreshed_by(
            facts,
            reports,
        ).duration == reports[i].duration,
        reports[i].dimensions.width > 0 && reports[i].dimensions.height > 0 && (forall|k: int|
            i < k < reports.len() ==> (#[trigger] reports[k]).dimensions.width == 0)
            ==> refreshed_by(facts, reports).dimensions == Some(reports[i].dimensions),
    decreases reports.len(),
{
    let last = reports.len() - 1;
    assert(reports.last() == reports[last]);
    if i < last {
        let early = reports.drop_last();
        assert(early[i] == reports[i]);
        law_latest_report_counts(facts, early, i);
        if reports[i].duration is Some && (forall|k: int|
            i < k < reports.len() ==> (#[trigger] reports[k]).duration is None) {
            assert forall|k: int| i < k < early.len() implies (
            #[trigger] early[k]).duration is None by {
                assert(early[k] == reports[k]);
            }
            assert(reports[last].duration is None);
        }
        if reports[i].dimensions.width > 0 && reports[i].dimensions.height > 0 && (forall|k: int|
            i < k < reports.len() ==> (#[trigger] reports[k]).dimensions.width == 0) {
            assert forall|k: int| i < k < early.len() implies (
            #[trigger] early[k]).dimensions.width == 0 by {
                assert(early[k] == reports[k]);
            }
            assert(reports[last].dimensions.width == 0);
        }
    }
}

/// A preview is a picture with two sides of more than one pixel, and is shown as soon as
/// there is one, with its own size. Until the last try nothing else ends the search but a
/// failure, an end of stream that is reported meanwhile included; with the last try it
/// ends in any case.
pub proof fn law_preview_is_the_first_picture(outcome: DecodeOutcome, last: bool)
    ensures
        ({
            let step = PreviewSearch::reaction(outcome, last);
            &&& outcome matches DecodeOutcome::Frame(frame) ==> (frame.width > 1 && frame.height > 1
                ==> step == PreviewStep::Show(
                frame,
                Dimensions { width: frame.width, height: frame.height },
            ))
            &&& step is Show ==> outcome == DecodeOutcome::Frame(step->Show_0)
                && step->Show_0.width > 1 && step->Show_0.height > 1
            &&& outcome is Failed ==> step is GiveUp
            &&& !last && !(outcome is Failed) && !(step is Show) ==> step == PreviewStep::RetryAfter(
                Duration { nanos: 100_000_000 },
            )
            &&& last ==> !(step is RetryAfter)
            &&& step is ShowPlaceholder ==> last && outcome == DecodeOutcome::Frame(
                step->ShowPlaceholder_0,
            )
            &&& last && outcome is Frame && !(step is Show) ==> step is ShowPlaceholder
        }),
{
}

/// An order reaches the decoder as it was given, and the queue and the loop follow it:
/// playing forgets an end of stream, a seek drops what was decoded for the old place, and
/// only play and pause change whether there is playback.
pub proof fn law_orders_are_carried_out(
    command: DecodeCommand,
    before: FrameQueue,
    after: FrameQueue,
    state: DecodeLoop,
)
    requires
        prepared_for(command, before, after),
    ensures
        command matches DecodeCommand::Seek(position) ==> decoder_call(command)
            == DecoderCall::Seek(position) && after.frames@.len() == 0 && !after.eos,
        command matches DecodeCommand::SetMuted(muted) ==> decoder_call(command)
            == DecoderCall::SetMuted(muted),
        command matches DecodeCommand::SetVolume(volume) ==> decoder_call(command)
            == DecoderCall::SetVolume(volume),
        command is Play ==> decoder_call(command) is Resume && !after.eos && after.frames@
            == before.frames@,
        command is Pause ==> decoder_call(command) is Pause,
        !(command is Seek) ==> after.frames@ == before.frames@,
        !(command is Seek) && !(command is Play) ==> after.eos == before.eos,
        state.applied(command_result(command)).playing == (if command is Play {
            true
        } else if command is Pause {
            false
        } else {
            state.playing
        }),
        command_result(command) is Stop <==> command is Stop,
{
}

/// What a decode leaves behind. A frame that finds space goes to the end of the queue;
/// one of a recording that finds none is offered again, itself; a closed queue takes
/// none. Only the end of the stream is noted as one, and only it ends the decoding.
pub proof fn law_decoded_frames_are_queued(
    state: DecodeLoop,
    before: FrameQueue,
    after: FrameQueue,
    outcome: DecodeOutcome,
)
    requires
        before.wf(),
        state.decoded(before, after, outcome),
    ensures
        after.eos == (before.eos || outcome is EndOfStream),
        state.after_outcome(outcome).playing == (state.playing && !(outcome is EndOfStream)),
        state.after_outcome(outcome).is_live == state.is_live,
        outcome matches DecodeOutcome::Frame(frame) ==> {
            &&& !before.closed_to_frames() && before.frames@.len() < before.capacity
                ==> after.frames@ =~= before.frames@.push(frame) && state.follow_up(before, outcome)
                is GoOn
            &&& !before.closed_to_frames() && before.frames@.len() >= before.capacity
                && !state.is_live ==> after.frames@ =~= before.frames@ && state.follow_up(
                before,
                outcome,
            ) == AfterDecode::PushAgain(frame)
            &&& !before.closed_to_frames() && state.is_live ==> after.frames@.last() == frame
                && state.follow_up(before, outcome) is GoOn
            &&& before.closed_to_frames() ==> after.frames@ =~= before.frames@ && state.follow_up(
                before,
                outcome,
            ) is GoOn
        },
        !(outcome is Frame) ==> after.frames@ =~= before.frames@,
        after.live_frames_dropped != before.live_frames_dropped ==> state.is_live,
{
}

/// Nothing is decoded while paused, and nothing of a recording while its queue is full; a
/// stream that plays is decoded otherwise, a live one always.
pub proof fn law_decoding_waits_for_space(state: DecodeLoop, queue: FrameQueue)
    ensures
        state.work(queue) is DecodeNext <==> state.playing && (state.is_live || queue.frames@.len()
            < queue.capacity),
        state.work(queue) is WaitForCommand <==> !state.playing,
        state.work(queue) matches DecodeWork::WaitForCommand(span) ==> span.nanos == 100_000_000,
        state.work(queue) matches DecodeWork::Rest(span) ==> span.nanos == 5_000_000,
{
}

/// A live stream always shows its newest frame: it never waits for space, and
/// an open queue ends with the frame that was decoded last.
pub proof fn law_live_keeps_up(state: DecodeLoop, queue: FrameQueue, frame: VideoFrame)
    requires
        queue.wf(),
        state.is_live,
        !queue.closed_to_frames(),
    ensures
        state.queued_after(queue, DecodeOutcome::Frame(frame)).len() > 0,
        state.queued_after(queue, DecodeOutcome::Frame(frame)).last() == frame,
        state.queued_after(queue, DecodeOutcome::Frame(frame)).len() <= queue.capacity,
{
}

/// A recorded stream loses no frame that it decoded: the frames queued before
/// are still queued, in their order.
pub proof fn law_recorded_frames_are_kept(
    state: DecodeLoop,
    queue: FrameQueue,
    outcome: DecodeOutcome,
)
    requires
        queue.wf(),
        !state.is_live,
    ensures
        queue.frames@.is_prefix_of(state.queued_after(queue, outcome)),
{
}

} // verus!
