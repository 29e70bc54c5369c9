//! An output stream of decoded audio, and the thread that feeds it.

use crate::audio::{
    choose_stream_format, some_config_covers, AudioHandle, AudioSamples, AudioState, SampleFormat,
    StreamFormat, SupportedConfig,
};
use crate::audio_ring_buffer::{
    audio_ring_buffer, is_fresh_ring, RingBufferConfig, RingBufferConsumer, RingBufferProducer,
    RingBufferShared,
};
use crate::frame_queue::DecodeCommand;
use crate::time::Duration;
use std::collections::VecDeque;
use vstd::prelude::*;

verus! {

/// Empty decodes that are put up with after a seek.
pub const MAX_EMPTY_DECODES_SEEKING: u32 = 100;

/// Empty decodes in a row that mean the end of the stream.
pub const MAX_EMPTY_DECODES_NORMAL: u32 = 10;

/// How long a paused thread waits for a command before it looks around again.
pub const AUDIO_PAUSED_WAIT_MS: u64 = 100;

/// Rest after a decode that gave nothing.
pub const EMPTY_DECODE_REST_MS: u64 = 10;

/// Rest while the buffer is more than half full.
pub const FULL_BUFFER_REST_MS: u64 = 20;

/// Rest while the buffer is more than a quarter full.
pub const FILLING_BUFFER_REST_MS: u64 = 5;

/// The default format of an output device.
#[derive(Debug, Clone, Copy, PartialEq, Eq, Structural)]
pub struct DeviceFormat {
    pub sample_rate: u32,
    pub channels: u16,
    pub sample_format: SampleFormat,
}

/// An output stream.
#[derive(Debug, PartialEq, Eq, Structural)]
pub struct AudioPlayer {
    /// The handle of a stream that plays for nobody else.
    pub handle: Option<AudioHandle>,
    /// The rate at which the stream runs.
    pub device_sample_rate: u32,
    pub state: AudioState,
    /// Read by the callback, which is silent while this is false.
    pub playing: bool,
}

impl AudioPlayer {
    /// Makes a stream for a device, with a buffer between decoder and callback.
    ///
    /// A wanted rate that the device cannot do gives way to the device's own. The
    /// handle of the audio is told that there is a stream; without one the stream
    /// has a handle of its own.
    pub fn new_ring_buffer(
        ring_config: RingBufferConfig,
        external_handle: Option<&mut AudioHandle>,
        output_sample_rate: Option<u32>,
        device: DeviceFormat,
        configs: &[SupportedConfig],
    ) -> (made: (AudioPlayer, StreamFormat, RingBufferProducer, RingBufferConsumer, RingBufferShared))
        requires
            ring_config.capacity_samples <= usize::MAX / 16 + 1,
        ensures
            made.1.channels == (if device.channels <= 1 {
                1
            } else {
                2u16
            }),
            made.1.sample_rate == (match output_sample_rate {
                Some(rate) => if some_config_covers(
                    configs@,
                    made.1.channels,
                    device.sample_format,
                    rate,
                ) {
                    rate
                } else {
                    device.sample_rate
                },
                None => device.sample_rate,
            }),
            made.0 == (AudioPlayer {
                handle: (if external_handle is Some {
                    None
                } else {
                    Some(AudioHandle { available: true, ..AudioHandle::fresh() })
                }),
                device_sample_rate: made.1.sample_rate,
                state: AudioState::Paused,
                playing: false,
            }),
            match external_handle {
                Some(handle) => *final(handle) == (AudioHandle { available: true, ..*handle }),
                None => true,
            },
            is_fresh_ring(ring_config, made.3, made.4),
    {
        let format: StreamFormat = choose_stream_format(
            device.sample_rate,
            device.channels,
            device.sample_format,
            output_sample_rate,
            configs,
        );
        let handle: Option<AudioHandle> = match external_handle {
            Some(handle) => {
                handle.set_available(true);
                None
            },
            None => {
                let mut handle: AudioHandle = AudioHandle::new();
                handle.set_available(true);
                Some(handle)
            },
        };
        let (producer, consumer, shared) = audio_ring_buffer(ring_config);
        let player = AudioPlayer {
            handle,
            device_sample_rate: format.sample_rate,
            state: AudioState::Paused,
            playing: false,
        };
        (player, format, producer, consumer, shared)
    }

    pub fn device_sample_rate(&self) -> (rate: u32)
        ensures
            rate == self.device_sample_rate,
    {
        self.device_sample_rate
    }

    /// The stream's own handle; none where it was made for another's.
    pub fn handle(&self) -> (handle: Option<&AudioHandle>)
        ensures
            handle == (match self.handle {
                Some(handle) => Some(&handle),
                None => None,
            }),
    {
        self.handle.as_ref()
    }

    pub fn state(&self) -> (state: AudioState)
        ensures
            state == self.state,
    {
        self.state
    }

    pub fn play(&mut self)
        ensures
            *final(self) == (AudioPlayer {
                state: AudioState::Playing,
                playing: true,
                ..*old(self)
            }),
    {
        self.playing = true;
        self.state = AudioState::Playing;
    }

    pub fn pause(&mut self)
        ensures
            *final(self) == (AudioPlayer {
                state: AudioState::Paused,
                playing: false,
                ..*old(self)
            }),
    {
        self.playing = false;
        self.state = AudioState::Paused;
    }
}

/// What a command asks of the stream or of the decoder.
#[derive(Debug, Clone, Copy, PartialEq, Eq, Structural)]
pub enum AudioCall {
    NoCall,
    Play,
    Pause,
    Seek(Duration),
}

/// The call that a command makes. Volume and mute are the business of the video
/// side.
#[verifier::allow_in_spec]
pub fn audio_call(command: DecodeCommand) -> AudioCall
    returns
        (match command {
            DecodeCommand::Play => AudioCall::Play,
            DecodeCommand::Pause => AudioCall::Pause,
            DecodeCommand::Seek(position) => AudioCall::Seek(position),
            _ => AudioCall::NoCall,
        }),
{
    match command {
        DecodeCommand::Play => AudioCall::Play,
        DecodeCommand::Pause => AudioCall::Pause,
        DecodeCommand::Seek(position) => AudioCall::Seek(position),
        _ => AudioCall::NoCall,
    }
}

/// Rest that a buffer calls for after a write. The buffer overwrites rather than
/// waits, so it is the decoder that must be held back.
#[verifier::allow_in_spec]
pub fn backpressure(fill: usize, capacity: usize) -> Option<Duration>
    returns
        (if fill > capacity / 2 {
            Some(Duration::from_millis(FULL_BUFFER_REST_MS))
        } else if fill > capacity / 4 {
            Some(Duration::from_millis(FILLING_BUFFER_REST_MS))
        } else {
            None::<Duration>
        }),
{
    if fill > capacity / 2 {
        Some(Duration::from_millis(FULL_BUFFER_REST_MS))
    } else if fill > capacity / 4 {
        Some(Duration::from_millis(FILLING_BUFFER_REST_MS))
    } else {
        None
    }
}

/// The state of the loop of an audio thread.
#[derive(Debug, Clone, Copy, PartialEq, Eq, Structural)]
pub struct AudioLoop {
    pub playing: bool,
    /// A seek was made and no samples have come since.
    pub seeking: bool,
    pub empty_decodes: u32,
    /// The next samples set the format and the base timestamp.
    pub first_samples: bool,
}

impl AudioLoop {
    #[verifier::allow_in_spec]
    pub fn new() -> AudioLoop
        returns
            (AudioLoop { playing: false, seeking: false, empty_decodes: 0, first_samples: true }),
    {
        AudioLoop { playing: false, seeking: false, empty_decodes: 0, first_samples: true }
    }

    /// The state once a command has taken effect.
    #[verifier::allow_in_spec]
    pub fn applied(self, command: DecodeCommand) -> AudioLoop
        returns
            (match command {
                DecodeCommand::Play => AudioLoop { playing: true, ..self },
                DecodeCommand::Pause => AudioLoop { playing: false, ..self },
                DecodeCommand::Seek(_) => AudioLoop {
                    seeking: true,
                    empty_decodes: 0,
                    first_samples: true,
                    ..self
                },
                _ => self,
            }),
    {
        match command {
            DecodeCommand::Play => AudioLoop { playing: true, ..self },
            DecodeCommand::Pause => AudioLoop { playing: false, ..self },
            DecodeCommand::Seek(_) => AudioLoop {
                seeking: true,
                empty_decodes: 0,
                first_samples: true,
                ..self
            },
            _ => self,
        }
    }

    /// The state after a decode that gave nothing. Too many in a row end
    /// playback, unless a seek is under way.
    #[verifier::allow_in_spec]
    pub fn after_empty(self) -> AudioLoop
        returns
            ({
                let empty_decodes = if self.empty_decodes == u32::MAX {
                    u32::MAX
                } else {
                    (self.empty_decodes + 1) as u32
                };
                AudioLoop {
                    playing: self.playing && (self.seeking || empty_decodes
                        < MAX_EMPTY_DECODES_NORMAL),
                    empty_decodes,
                    ..self
                }
            }),
    {
        let empty_decodes: u32 = if self.empty_decodes == u32::MAX {
            u32::MAX
        } else {
            self.empty_decodes + 1
        };
        AudioLoop {
            playing: self.playing && (self.seeking || empty_decodes < MAX_EMPTY_DECODES_NORMAL),
            empty_decodes,
            ..self
        }
    }

    /// True where a seek has gone without samples for so long that it is worth a
    /// warning.
    #[verifier::allow_in_spec]
    pub fn seek_is_slow(self) -> bool
        returns
            self.seeking && self.empty_decodes >= MAX_EMPTY_DECODES_SEEKING,
    {
        self.seeking && self.empty_decodes >= MAX_EMPTY_DECODES_SEEKING
    }

    /// The state after samples were decoded.
    #[verifier::allow_in_spec]
    pub fn after_samples(self) -> AudioLoop
        returns
            (AudioLoop { seeking: false, empty_decodes: 0, first_samples: false, ..self }),
    {
        AudioLoop { seeking: false, empty_decodes: 0, first_samples: false, ..self }
    }
}

/// What a player and its audio thread share.
pub struct AudioThread {
    pub commands: VecDeque<DecodeCommand>,
    pub stop_flag: bool,
}

impl AudioThread {
    /// Nothing but an order was added to `other`.
    pub open spec fn ordered(self, other: AudioThread, command: DecodeCommand) -> bool {
        &&& self.commands@ =~= other.commands@.push(command)
        &&& self.stop_flag == other.stop_flag
    }

    /// A thread for the audio of a stream whose video starts at
    /// `video_start_time`, and the handle of that audio.
    pub fn new(video_start_time: Option<Duration>) -> (made: (AudioThread, AudioHandle))
        ensures
            made.0.commands@ =~= Seq::<DecodeCommand>::empty(),
            !made.0.stop_flag,
            made.1 == (AudioHandle {
                available: true,
                video_start_time_us: (match video_start_time {
                    Some(start) => Some(start.micros_u64()),
                    None => None,
                }),
                ..AudioHandle::fresh()
            }),
    {
        let mut handle: AudioHandle = AudioHandle::new();
        handle.set_available(true);
        handle.set_video_start_time(video_start_time);
        (AudioThread { commands: VecDeque::new(), stop_flag: false }, handle)
    }

    pub fn play(&mut self)
        ensures
            final(self).ordered(*old(self), DecodeCommand::Play),
    {
        self.commands.push_back(DecodeCommand::Play);
    }

    pub fn pause(&mut self)
        ensures
            final(self).ordered(*old(self), DecodeCommand::Pause),
    {
        self.commands.push_back(DecodeCommand::Pause);
    }

    pub fn seek(&mut self, position: Duration)
        ensures
            final(self).ordered(*old(self), DecodeCommand::Seek(position)),
    {
        self.commands.push_back(DecodeCommand::Seek(position));
    }

    pub fn stop(&mut self)
        ensures
            final(self).commands@ =~= old(self).commands@.push(DecodeCommand::Stop),
            final(self).stop_flag,
    {
        self.stop_flag = true;
        self.commands.push_back(DecodeCommand::Stop);
    }
}

/// What came of asking the audio decoder for samples.
pub enum AudioOutcome {
    Samples(AudioSamples),
    Nothing,
    Failed,
}

/// What happened since the last action.
pub enum AudioEvent {
    /// A rest or a wait is over.
    Rested,
    /// The rate of the output device, where there is one.
    DeviceRate(Option<u32>),
    /// The stream was opened, or not.
    StreamOpened(bool),
    /// The decoder was opened, and says when its stream starts; or not.
    DecoderOpened(Option<Option<Duration>>),
    CallDone,
    Decoded(AudioOutcome),
}

/// What the thread is to do.
#[derive(Debug, Clone, Copy, PartialEq, Eq, Structural)]
pub enum AudioAction {
    QueryDevice,
    OpenStream(RingBufferConfig),
    /// Open the decoder, resampling to the rate given.
    OpenDecoder(u32),
    Call(AudioCall),
    Decode,
    Rest(Duration),
    WaitForCommand(Duration),
    End,
}

/// How far an audio thread has come.
#[derive(Debug, Clone, Copy, PartialEq, Eq, Structural)]
pub enum AudioPhase {
    QueryingDevice,
    OpeningStream(u32),
    OpeningDecoder,
    /// A command is being carried out; others may follow.
    Draining(AudioLoop),
    /// Paused, waiting for a command.
    Waiting(AudioLoop),
    /// The command that ended the wait is being carried out.
    Answering(AudioLoop),
    Decoding(AudioLoop),
    Resting(AudioLoop),
    Finished,
}

/// A phase and what is to be done in it.
#[derive(Debug, Clone, Copy, PartialEq, Eq, Structural)]
pub struct AudioProgress {
    pub phase: AudioPhase,
    pub action: AudioAction,
}

impl AudioProgress {
    #[verifier::allow_in_spec]
    pub fn ended() -> AudioProgress
        returns
            (AudioProgress { phase: AudioPhase::Finished, action: AudioAction::End }),
    {
        AudioProgress { phase: AudioPhase::Finished, action: AudioAction::End }
    }

    /// What follows once the commands are done.
    #[verifier::allow_in_spec]
    pub fn at_work(state: AudioLoop) -> AudioProgress
        returns
            (if state.playing {
                AudioProgress { phase: AudioPhase::Decoding(state), action: AudioAction::Decode }
            } else {
                AudioProgress {
                    phase: AudioPhase::Waiting(state),
                    action: AudioAction::WaitForCommand(
                        Duration::from_millis(AUDIO_PAUSED_WAIT_MS),
                    ),
                }
            }),
    {
        if state.playing {
            AudioProgress { phase: AudioPhase::Decoding(state), action: AudioAction::Decode }
        } else {
            AudioProgress {
                phase: AudioPhase::Waiting(state),
                action: AudioAction::WaitForCommand(Duration::from_millis(AUDIO_PAUSED_WAIT_MS)),
            }
        }
    }

    #[verifier::allow_in_spec]
    pub fn resting(state: AudioLoop, rest: Duration) -> AudioProgress
        returns
            (AudioProgress { phase: AudioPhase::Resting(state), action: AudioAction::Rest(rest) }),
    {
        AudioProgress { phase: AudioPhase::Resting(state), action: AudioAction::Rest(rest) }
    }
}

impl AudioPhase {
    /// True where an action is the one that this phase waits for.
    pub open spec fn awaits(self, action: AudioAction) -> bool {
        match self {
            AudioPhase::QueryingDevice => action is QueryDevice,
            AudioPhase::OpeningStream(_) => action is OpenStream,
            AudioPhase::OpeningDecoder => action is OpenDecoder,
            AudioPhase::Draining(_) | AudioPhase::Answering(_) => action is Call,
            AudioPhase::Waiting(_) => action is WaitForCommand,
            AudioPhase::Decoding(_) => action is Decode,
            AudioPhase::Resting(_) => action is Rest,
            AudioPhase::Finished => action is End,
        }
    }

    /// True where an event can come in this phase.
    pub open spec fn expects(self, event: AudioEvent) -> bool {
        match self {
            AudioPhase::QueryingDevice => event is DeviceRate && (event->DeviceRate_0 is Some
                ==> event->DeviceRate_0->0 * 2 <= usize::MAX),
            AudioPhase::OpeningStream(_) => event is StreamOpened,
            AudioPhase::OpeningDecoder => event is DecoderOpened,
            AudioPhase::Draining(_) | AudioPhase::Answering(_) => event is CallDone,
            AudioPhase::Waiting(_) | AudioPhase::Resting(_) => event is Rested,
            AudioPhase::Decoding(_) => event is Decoded,
            AudioPhase::Finished => false,
        }
    }
}

/// What a player and its audio thread share, at one moment.
pub struct AudioView {
    pub commands: Seq<DecodeCommand>,
    pub stop_flag: bool,
}

impl View for AudioThread {
    type V = AudioView;

    open spec fn view(&self) -> AudioView {
        AudioView { commands: self.commands@, stop_flag: self.stop_flag }
    }
}

/// The buffer once the oldest command is taken up: a seek asks for a flush.
pub open spec fn flushed_for(command: DecodeCommand, ring: RingBufferShared) -> RingBufferShared {
    if command is Seek {
        RingBufferShared {
            prefilled: false,
            flush_generation: ring.flush_generation.wrapping_add(1),
            ..ring
        }
    } else {
        ring
    }
}

/// What there is to do, commands first.
pub open spec fn audio_drained(
    state: AudioLoop,
    thread: AudioView,
    ring: RingBufferShared,
) -> (AudioView, RingBufferShared, AudioProgress) {
    if thread.commands.len() == 0 {
        (thread, ring, AudioProgress::at_work(state))
    } else {
        let command = thread.commands[0];
        (
            AudioView { commands: thread.commands.skip(1), ..thread },
            flushed_for(command, ring),
            if command is Stop {
                AudioProgress::ended()
            } else {
                AudioProgress {
                    phase: AudioPhase::Draining(state.applied(command)),
                    action: AudioAction::Call(audio_call(command)),
                }
            },
        )
    }
}

/// A turn of the loop begins.
pub open spec fn audio_turned(
    state: AudioLoop,
    thread: AudioView,
    ring: RingBufferShared,
) -> (AudioView, RingBufferShared, AudioProgress) {
    if thread.stop_flag {
        (thread, ring, AudioProgress::ended())
    } else {
        audio_drained(state, thread, ring)
    }
}

/// A wait for a command ends, with one or without.
pub open spec fn audio_woken(
    state: AudioLoop,
    thread: AudioView,
    ring: RingBufferShared,
) -> (AudioView, RingBufferShared, AudioProgress) {
    if thread.commands.len() == 0 {
        audio_turned(state, thread, ring)
    } else {
        let command = thread.commands[0];
        (
            AudioView { commands: thread.commands.skip(1), ..thread },
            flushed_for(command, ring),
            if command is Stop {
                AudioProgress::ended()
            } else {
                AudioProgress {
                    phase: AudioPhase::Answering(state.applied(command)),
                    action: AudioAction::Call(audio_call(command)),
                }
            },
        )
    }
}

/// The handle once samples have come: the first ones after a start or a seek set
/// the format and the base timestamp.
pub open spec fn noted_samples(
    state: AudioLoop,
    handle: AudioHandle,
    samples: AudioSamples,
) -> AudioHandle {
    if state.first_samples {
        AudioHandle {
            sample_rate: samples.sample_rate,
            channels: samples.channels as u32,
            audio_base_pts_us: Some(
                if samples.pts.micros_u64() == u64::MAX {
                    (u64::MAX - 1) as u64
                } else {
                    samples.pts.micros_u64()
                },
            ),
            ..handle
        }
    } else {
        handle
    }
}

/// What an event does to a thread, its buffer and the handle of its audio, and what
/// comes next.
pub open spec fn audio_progressed(
    phase: AudioPhase,
    event: AudioEvent,
    before: AudioView,
    after: AudioView,
    ring_before: RingBufferShared,
    ring_after: RingBufferShared,
    handle_before: AudioHandle,
    handle_after: AudioHandle,
    progress: AudioProgress,
) -> bool {
    let outcome = (after, ring_after, progress);
    &&& handle_after == handle_progressed(phase, event, handle_before)
    &&& ring_progressed(phase, event, before, ring_before, outcome)
}

/// The handle of the audio once an event has come: there is no audio where a device,
/// a stream or a decoder is missing, and the first samples set the format.
pub open spec fn handle_progressed(
    phase: AudioPhase,
    event: AudioEvent,
    handle: AudioHandle,
) -> AudioHandle {
    match (phase, event) {
        (AudioPhase::QueryingDevice, AudioEvent::DeviceRate(None)) | (
            AudioPhase::OpeningStream(_),
            AudioEvent::StreamOpened(false),
        ) | (AudioPhase::OpeningDecoder, AudioEvent::DecoderOpened(None)) => AudioHandle {
            available: false,
            ..handle
        },
        (AudioPhase::OpeningDecoder, AudioEvent::DecoderOpened(Some(start))) => AudioHandle {
            stream_pts_offset_us: AudioHandle::start_offset_us(
                start,
                match handle.video_start_time_us {
                    Some(us) => Some(Duration::from_micros(us)),
                    None => None,
                },
            ),
            ..handle
        },
        (
            AudioPhase::Decoding(state),
            AudioEvent::Decoded(AudioOutcome::Samples(samples)),
        ) => noted_samples(state, handle, samples),
        _ => handle,
    }
}

/// What an event does to a thread and its buffer, and what comes next.
pub open spec fn ring_progressed(
    phase: AudioPhase,
    event: AudioEvent,
    before: AudioView,
    ring_before: RingBufferShared,
    outcome: (AudioView, RingBufferShared, AudioProgress),
) -> bool {
    match (phase, event) {
        (AudioPhase::QueryingDevice, AudioEvent::DeviceRate(None)) => outcome == (
            before,
            ring_before,
            AudioProgress::ended(),
        ),
        (AudioPhase::QueryingDevice, AudioEvent::DeviceRate(Some(rate))) => outcome == (
            before,
            ring_before,
            AudioProgress {
                phase: AudioPhase::OpeningStream(rate),
                action: AudioAction::OpenStream(
                    RingBufferConfig {
                        capacity_samples: ((rate * 2) / 2) as usize,
                        prefill_samples: ((rate * 2) / 20) as usize,
                    },
                ),
            },
        ),
        (AudioPhase::OpeningStream(rate), AudioEvent::StreamOpened(opened)) => outcome == (if opened {
            (
                before,
                ring_before,
                AudioProgress {
                    phase: AudioPhase::OpeningDecoder,
                    action: AudioAction::OpenDecoder(rate),
                },
            )
        } else {
            (before, ring_before, AudioProgress::ended())
        }),
        (AudioPhase::OpeningDecoder, AudioEvent::DecoderOpened(None)) => outcome == (
            before,
            ring_before,
            AudioProgress::ended(),
        ),
        (AudioPhase::OpeningDecoder, AudioEvent::DecoderOpened(Some(start))) => outcome
            == audio_turned(
            AudioLoop::new(),
            before,
            ring_before,
        ),
        (AudioPhase::Draining(state), AudioEvent::CallDone) => outcome == audio_drained(
            state,
            before,
            ring_before,
        ),
        (AudioPhase::Waiting(state), AudioEvent::Rested) => outcome == audio_woken(
            state,
            before,
            ring_before,
        ),
        (AudioPhase::Answering(state), AudioEvent::CallDone) => outcome == audio_turned(
            state,
            before,
            ring_before,
        ),
        (AudioPhase::Resting(state), AudioEvent::Rested) => outcome == audio_turned(
            state,
            before,
            ring_before,
        ),
        (AudioPhase::Decoding(state), AudioEvent::Decoded(AudioOutcome::Nothing)) => outcome == (
            before,
            ring_before,
            AudioProgress::resting(
                state.after_empty(),
                Duration::from_millis(EMPTY_DECODE_REST_MS),
            ),
        ),
        (AudioPhase::Decoding(state), AudioEvent::Decoded(AudioOutcome::Failed)) => outcome == (
            before,
            ring_before,
            AudioProgress::resting(state, Duration::from_millis(EMPTY_DECODE_REST_MS)),
        ),
        (AudioPhase::Decoding(state), AudioEvent::Decoded(AudioOutcome::Samples(samples))) =>
            exists|ring: RingBufferShared| #[trigger]
                ring_before.wrote(ring, samples.data@) && outcome == (match backpressure(
                    ring.spec_metrics().fill_samples,
                    ring.capacity,
                ) {
                    Some(rest) => (
                        before,
                        ring,
                        AudioProgress::resting(state.after_samples(), rest),
                    ),
                    None => audio_turned(state.after_samples(), before, ring),
                }),
        _ => true,
    }
}

fn take_command(
    command: DecodeCommand,
    producer: &RingBufferProducer,
    ring: &mut RingBufferShared,
)
    requires
        old(ring).wf(),
    ensures
        final(ring).wf(),
        *final(ring) == flushed_for(command, *old(ring)),
{
    if let DecodeCommand::Seek(_) = command {
        producer.request_flush(ring);
    }
}

fn audio_drain(
    state: AudioLoop,
    thread: &mut AudioThread,
    producer: &RingBufferProducer,
    ring: &mut RingBufferShared,
) -> (progress: AudioProgress)
    requires
        old(ring).wf(),
    ensures
        final(ring).wf(),
        (final(thread)@, *final(ring), progress) == audio_drained(state, old(thread)@, *old(ring)),
{
    match thread.commands.pop_front() {
        None => AudioProgress::at_work(state),
        Some(command) => {
            take_command(command, producer, ring);
            match command {
                DecodeCommand::Stop => AudioProgress::ended(),
                _ => AudioProgress {
                    phase: AudioPhase::Draining(state.applied(command)),
                    action: AudioAction::Call(audio_call(command)),
                },
            }
        },
    }
}

fn audio_turn(
    state: AudioLoop,
    thread: &mut AudioThread,
    producer: &RingBufferProducer,
    ring: &mut RingBufferShared,
) -> (progress: AudioProgress)
    requires
        old(ring).wf(),
    ensures
        final(ring).wf(),
        (final(thread)@, *final(ring), progress) == audio_turned(state, old(thread)@, *old(ring)),
{
    if thread.stop_flag {
        AudioProgress::ended()
    } else {
        audio_drain(state, thread, producer, ring)
    }
}

fn audio_wake(
    state: AudioLoop,
    thread: &mut AudioThread,
    producer: &RingBufferProducer,
    ring: &mut RingBufferShared,
) -> (progress: AudioProgress)
    requires
        old(ring).wf(),
    ensures
        final(ring).wf(),
        (final(thread)@, *final(ring), progress) == audio_woken(state, old(thread)@, *old(ring)),
{
    match thread.commands.pop_front() {
        None => audio_turn(state, thread, producer, ring),
        Some(command) => {
            take_command(command, producer, ring);
            match command {
                DecodeCommand::Stop => AudioProgress::ended(),
                _ => AudioProgress {
                    phase: AudioPhase::Answering(state.applied(command)),
                    action: AudioAction::Call(audio_call(command)),
                },
            }
        },
    }
}

fn write_samples(
    state: AudioLoop,
    samples: &AudioSamples,
    handle: &mut AudioHandle,
    producer: &RingBufferProducer,
    ring: &mut RingBufferShared,
) -> (rest: Option<Duration>)
    requires
        old(ring).wf(),
    ensures
        final(ring).wf(),
        old(ring).wrote(*final(ring), samples.data@),
        *final(handle) == noted_samples(state, *old(handle), *samples),
        rest == backpressure(final(ring).spec_metrics().fill_samples, final(ring).capacity),
{
    if state.first_samples {
        handle.set_audio_format(samples.sample_rate, samples.channels as u32);
        handle.set_audio_base_pts(samples.pts);
    }
    producer.write(ring, samples.data.as_slice());
    backpressure(producer.fill_level(ring), producer.capacity(ring))
}

/// The work of an audio thread.
#[derive(Debug, Clone, Copy, PartialEq, Eq, Structural)]
pub struct AudioTask {
    pub phase: AudioPhase,
}

impl AudioTask {
    /// Begins the work: the rate of the device decides the size of the buffer.
    pub fn begin() -> (begun: (AudioTask, AudioAction))
        ensures
            begun.0.phase == AudioPhase::QueryingDevice,
            begun.1 == AudioAction::QueryDevice,
    {
        (AudioTask { phase: AudioPhase::QueryingDevice }, AudioAction::QueryDevice)
    }

    /// Takes in what happened and says what to do next. `handle` is the one that the
    /// player follows.
    pub fn advance(
        &mut self,
        event: AudioEvent,
        thread: &mut AudioThread,
        handle: &mut AudioHandle,
        producer: &RingBufferProducer,
        ring: &mut RingBufferShared,
    ) -> (action: AudioAction)
        requires
            old(self).phase.expects(event),
            old(ring).wf(),
        ensures
            final(ring).wf(),
            final(self).phase.awaits(action),
            audio_progressed(
                old(self).phase,
                event,
                old(thread)@,
                final(thread)@,
                *old(ring),
                *final(ring),
                *old(handle),
                *final(handle),
                AudioProgress { phase: final(self).phase, action },
            ),
    {
        let progress: AudioProgress = match self.phase {
            AudioPhase::QueryingDevice => match event {
                AudioEvent::DeviceRate(Some(rate)) => AudioProgress {
                    phase: AudioPhase::OpeningStream(rate),
                    action: AudioAction::OpenStream(RingBufferConfig::for_vod(rate, 2)),
                },
                _ => {
                    handle.set_available(false);
                    AudioProgress::ended()
                },
            },
            AudioPhase::OpeningStream(rate) => match event {
                AudioEvent::StreamOpened(true) => AudioProgress {
                    phase: AudioPhase::OpeningDecoder,
                    action: AudioAction::OpenDecoder(rate),
                },
                _ => {
                    handle.set_available(false);
                    AudioProgress::ended()
                },
            },
            AudioPhase::OpeningDecoder => match event {
                AudioEvent::DecoderOpened(Some(start)) => {
                    handle.finalize_stream_pts_offset(start);
                    audio_turn(AudioLoop::new(), thread, producer, ring)
                },
                _ => {
                    handle.set_available(false);
                    AudioProgress::ended()
                },
            },
            AudioPhase::Draining(state) => audio_drain(state, thread, producer, ring),
            AudioPhase::Waiting(state) => audio_wake(state, thread, producer, ring),
            AudioPhase::Answering(state) => audio_turn(state, thread, producer, ring),
            AudioPhase::Resting(state) => audio_turn(state, thread, producer, ring),
            AudioPhase::Decoding(state) => match event {
                AudioEvent::Decoded(AudioOutcome::Samples(samples)) => {
                    match write_samples(state, &samples, handle, producer, ring) {
                        Some(rest) => AudioProgress::resting(state.after_samples(), rest),
                        None => audio_turn(state.after_samples(), thread, producer, ring),
                    }
                },
                AudioEvent::Decoded(AudioOutcome::Nothing) => AudioProgress::resting(
                    state.after_empty(),
                    Duration::from_millis(EMPTY_DECODE_REST_MS),
                ),
                _ => AudioProgress::resting(state, Duration::from_millis(EMPTY_DECODE_REST_MS)),
            },
            AudioPhase::Finished => AudioProgress::ended(),
        };
        self.phase = progress.phase;
        progress.action
    }
}

/// The state after a run of decodes that gave nothing.
pub open spec fn after_empties(state: AudioLoop, n: nat) -> AudioLoop
    decreases n,
{
    if n == 0 {
        state
    } else {
        after_empties(state, (n - 1) as nat).after_empty()
    }
}

/// However long a seek takes, audio goes on trying: no run of empty decodes ends
/// playback before the first samples have come.
pub proof fn law_seek_outlasts_empty_decodes(state: AudioLoop, n: nat)
    requires
        state.playing,
        state.seeking,
    ensures
        after_empties(state, n).playing,
        after_empties(state, n).seeking,
    decreases n,
{
    if n > 0 {
        law_seek_outlasts_empty_decodes(state, (n - 1) as nat);
    }
}

/// Without a seek, playback ends with the tenth empty decode in a row and not
/// before.
pub proof fn law_empty_decodes_end_playback(state: AudioLoop, n: nat)
    requires
        state.playing,
        !state.seeking,
        state.empty_decodes == 0,
    ensures
        after_empties(state, n).playing == (n < MAX_EMPTY_DECODES_NORMAL),
        !after_empties(state, n).seeking,
        n <= u32::MAX ==> after_empties(state, n).empty_decodes == n,
        n > u32::MAX ==> after_empties(state, n).empty_decodes == u32::MAX,
    decreases n,
{
    if n > 0 {
        law_empty_decodes_end_playback(state, (n - 1) as nat);
    }
}

} // verus!
