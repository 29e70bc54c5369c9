//! Audio playback: the shared handle, the clock that video follows, and what an
//! output callback does with the samples of the ring buffer.
//!
//! Audio is the master clock: frames are presented relative to the audio
//! position.

use crate::audio_ring_buffer::{ReadSample, RingBufferConsumer, RingBufferShared};
use crate::time::{Duration, Instant};
use vstd::prelude::*;

verus! {

/// Samples that are gathered before the played counter is moved.
pub const FLUSH_SAMPLES: u64 = 256;

/// Empty callbacks in a row that make a stall: about 30 ms of silence.
pub const STALL_CALLBACK_THRESHOLD: u32 = 3;

/// State of an audio player.
#[derive(Debug, Clone, Copy, PartialEq, Eq, Structural)]
pub enum AudioState {
    Uninitialized,
    Playing,
    Paused,
    Error,
}

/// Wanted output format.
#[derive(Debug, Clone, Copy, PartialEq, Eq, Structural)]
pub struct AudioConfig {
    pub sample_rate: u32,
    pub channels: u16,
    /// Frames per callback.
    pub buffer_size: u32,
}

impl Default for AudioConfig {
    fn default() -> (config: Self)
        ensures
            config.sample_rate == 48_000,
            config.channels == 2,
            config.buffer_size == 1024,
    {
        AudioConfig { sample_rate: 48_000, channels: 2, buffer_size: 1024 }
    }
}

/// Volume, mute and position of the audio of one player.
///
/// There is one of these for a player, and no copy of it: who needs it borrows it,
/// so that the player, its controls, its scheduler and its audio thread see the
/// same values.
///
/// The position stands still until a playback epoch is set. It is the native
/// player's own where that is known, else the timestamp of the first sample
/// plus the samples that were heard.
#[derive(Debug, PartialEq, Eq, Structural)]
pub struct AudioHandle {
    /// Percent.
    pub volume: u32,
    pub muted: bool,
    pub available: bool,
    /// When playback began, in microseconds since the Unix epoch; zero for not yet.
    pub playback_epoch_us: u64,
    pub samples_played: u64,
    pub sample_rate: u32,
    pub channels: u32,
    /// Timestamp of the first sample.
    pub audio_base_pts_us: Option<u64>,
    /// Audio start minus video start.
    pub stream_pts_offset_us: i64,
    pub video_start_time_us: Option<u64>,
    /// Position of a native player; zero for none.
    pub native_position_us: u64,
    pub audio_stalled: bool,
}

impl AudioHandle {
    /// A volume is a percentage.
    pub open spec fn wf(&self) -> bool {
        self.volume <= 100
    }

    pub open spec fn fresh() -> AudioHandle {
        AudioHandle {
            volume: 100,
            muted: false,
            available: false,
            playback_epoch_us: 0,
            samples_played: 0,
            sample_rate: 48_000,
            channels: 2,
            audio_base_pts_us: None,
            stream_pts_offset_us: 0,
            video_start_time_us: None,
            native_position_us: 0,
            audio_stalled: false,
        }
    }

    pub fn new() -> (handle: Self)
        ensures
            handle == AudioHandle::fresh(),
            handle.wf(),
    {
        AudioHandle {
            volume: 100,
            muted: false,
            available: false,
            playback_epoch_us: 0,
            samples_played: 0,
            sample_rate: 48_000,
            channels: 2,
            audio_base_pts_us: None,
            stream_pts_offset_us: 0,
            video_start_time_us: None,
            native_position_us: 0,
            audio_stalled: false,
        }
    }

    pub fn volume(&self) -> (volume: u32)
        ensures
            volume == self.volume,
    {
        self.volume
    }

    /// Sets the volume, at most 100 percent.
    pub fn set_volume(&mut self, volume: u32)
        ensures
            *final(self) == (AudioHandle {
                volume: (if volume <= 100 {
                    volume
                } else {
                    100
                }),
                ..*old(self)
            }),
            final(self).wf(),
    {
        self.volume = if volume <= 100 {
            volume
        } else {
            100
        };
    }

    pub fn is_muted(&self) -> (muted: bool)
        ensures
            muted == self.muted,
    {
        self.muted
    }

    pub fn set_muted(&mut self, muted: bool)
        ensures
            *final(self) == (AudioHandle { muted, ..*old(self) }),
    {
        self.muted = muted;
    }

    pub fn toggle_mute(&mut self)
        ensures
            *final(self) == (AudioHandle { muted: !old(self).muted, ..*old(self) }),
    {
        self.muted = !self.muted;
    }

    /// The volume that is heard, in percent.
    pub fn effective_volume(&self) -> (volume: u32)
        ensures
            volume == (if self.muted {
                0
            } else {
                self.volume
            }),
    {
        if self.muted {
            0
        } else {
            self.volume
        }
    }

    /// Time that the samples heard so far take, in whole microseconds.
    #[verifier::allow_in_spec]
    pub fn samples_played_duration(&self) -> Duration
        returns
            (if self.sample_rate == 0 || self.channels == 0 {
                Duration::zero()
            } else {
                Duration {
                    nanos: (((self.samples_played as int / self.channels as int) * 1_000_000
                        / self.sample_rate as int) * 1_000) as u128,
                }
            }),
    {
        if self.sample_rate == 0 || self.channels == 0 {
            return Duration::zero();
        }
        let frames: u64 = self.samples_played / self.channels as u64;
        proof {
            assert(frames * 1_000_000 / self.sample_rate as int <= frames * 1_000_000)
                by (nonlinear_arith)
                requires
                    self.sample_rate > 0,
                    frames >= 0,
            ;
        }
        let us: u128 = frames as u128 * 1_000_000 / self.sample_rate as u128;
        Duration { nanos: us * 1_000 }
    }

    /// Position of the audio that is heard.
    #[verifier::allow_in_spec]
    pub fn position(&self) -> Duration
        returns
            (if self.playback_epoch_us == 0 {
                Duration::zero()
            } else if self.native_position_us > 0 {
                Duration::from_micros(self.native_position_us)
            } else {
                match self.audio_base_pts_us {
                    None => Duration::zero(),
                    Some(base) => Duration::from_micros(base).saturating_add(
                        self.samples_played_duration(),
                    ),
                }
            }),
    {
        if self.playback_epoch_us == 0 {
            return Duration::zero();
        }
        if self.native_position_us > 0 {
            return Duration::from_micros(self.native_position_us);
        }
        match self.audio_base_pts_us {
            None => Duration::zero(),
            Some(base) => {
                Duration::from_micros(base).saturating_add(self.samples_played_duration())
            },
        }
    }

    #[verifier::allow_in_spec]
    pub fn is_using_native_position(&self) -> bool
        returns
            self.native_position_us > 0,
    {
        self.native_position_us > 0
    }

    pub fn set_native_position(&mut self, position: Duration)
        ensures
            *final(self) == (AudioHandle {
                native_position_us: position.micros_u64(),
                ..*old(self)
            }),
    {
        self.native_position_us = position.micros_u64();
    }

    pub fn clear_native_position(&mut self)
        ensures
            *final(self) == (AudioHandle { native_position_us: 0, ..*old(self) }),
    {
        self.native_position_us = 0;
    }

    /// Sets the timestamp of the first sample, in whole microseconds below the
    /// largest count.
    pub fn set_audio_base_pts(&mut self, pts: Duration)
        ensures
            *final(self) == (AudioHandle {
                audio_base_pts_us: Some(
                    if pts.micros_u64() == u64::MAX {
                        (u64::MAX - 1) as u64
                    } else {
                        pts.micros_u64()
                    },
                ),
                ..*old(self)
            }),
    {
        let us: u64 = pts.micros_u64();
        self.audio_base_pts_us = Some(
            if us == u64::MAX {
                u64::MAX - 1
            } else {
                us
            },
        );
    }

    #[verifier::allow_in_spec]
    pub fn audio_base_pts(&self) -> Option<Duration>
        returns
            (match self.audio_base_pts_us {
                None => None::<Duration>,
                Some(us) => Some(Duration::from_micros(us)),
            }),
    {
        match self.audio_base_pts_us {
            None => None,
            Some(us) => Some(Duration::from_micros(us)),
        }
    }

    pub fn clear_audio_base_pts(&mut self)
        ensures
            *final(self) == (AudioHandle { audio_base_pts_us: None, ..*old(self) }),
    {
        self.audio_base_pts_us = None;
    }

    /// By how much the audio stream starts later than the video stream; zero
    /// where either start is not known.
    pub open spec fn start_offset_us(
        audio_start: Option<Duration>,
        video_start: Option<Duration>,
    ) -> i64 {
        match (audio_start, video_start) {
            (Some(audio), Some(video)) => audio.micros_i64().wrapping_sub(video.micros_i64()),
            _ => 0,
        }
    }

    pub fn set_stream_pts_offset(
        &mut self,
        audio_start: Option<Duration>,
        video_start: Option<Duration>,
    )
        ensures
            *final(self) == (AudioHandle {
                stream_pts_offset_us: AudioHandle::start_offset_us(audio_start, video_start),
                ..*old(self)
            }),
    {
        self.stream_pts_offset_us =
        match (audio_start, video_start) {
            (Some(audio), Some(video)) => audio.micros_i64().wrapping_sub(video.micros_i64()),
            _ => 0,
        };
    }

    pub fn stream_pts_offset_us(&self) -> (offset_us: i64)
        ensures
            offset_us == self.stream_pts_offset_us,
    {
        self.stream_pts_offset_us
    }

    /// The position on the timeline of the video stream, not below zero.
    #[verifier::allow_in_spec]
    pub fn position_for_sync(&self) -> Duration
        returns
            (if self.stream_pts_offset_us == 0 {
                self.position()
            } else {
                let us = self.position().micros_i64().wrapping_sub(self.stream_pts_offset_us);
                if us <= 0 {
                    Duration::zero()
                } else {
                    Duration::from_micros(us as u64)
                }
            }),
    {
        let raw_pos: Duration = self.position();
        if self.stream_pts_offset_us == 0 {
            return raw_pos;
        }
        let us: i64 = raw_pos.micros_i64().wrapping_sub(self.stream_pts_offset_us);
        if us <= 0 {
            Duration::zero()
        } else {
            Duration::from_micros(us as u64)
        }
    }

    pub fn clear_stream_pts_offset(&mut self)
        ensures
            *final(self) == (AudioHandle { stream_pts_offset_us: 0, ..*old(self) }),
    {
        self.stream_pts_offset_us = 0;
    }

    pub fn set_video_start_time(&mut self, start_time: Option<Duration>)
        ensures
            *final(self) == (AudioHandle {
                video_start_time_us: (match start_time {
                    Some(start) => Some(start.micros_u64()),
                    None => None,
                }),
                ..*old(self)
            }),
    {
        self.video_start_time_us =
        match start_time {
            Some(start) => Some(start.micros_u64()),
            None => None,
        };
    }

    /// Works out the stream offset once the audio start is known, from the
    /// video start that was noted before.
    pub fn finalize_stream_pts_offset(&mut self, audio_start: Option<Duration>)
        ensures
            *final(self) == (AudioHandle {
                stream_pts_offset_us: AudioHandle::start_offset_us(
                    audio_start,
                    match old(self).video_start_time_us {
                        Some(us) => Some(Duration::from_micros(us)),
                        None => None,
                    },
                ),
                ..*old(self)
            }),
    {
        let video_start: Option<Duration> = match self.video_start_time_us {
            Some(us) => Some(Duration::from_micros(us)),
            None => None,
        };
        self.set_stream_pts_offset(audio_start, video_start);
    }

    #[verifier::allow_in_spec]
    pub fn is_available(&self) -> bool
        returns
            self.available,
    {
        self.available
    }

    pub fn set_available(&mut self, available: bool)
        ensures
            *final(self) == (AudioHandle { available, ..*old(self) }),
    {
        self.available = available;
    }

    #[verifier::allow_in_spec]
    pub fn is_audio_stalled(&self) -> bool
        returns
            self.audio_stalled,
    {
        self.audio_stalled
    }

    pub fn set_audio_stalled(&mut self, stalled: bool)
        ensures
            *final(self) == (AudioHandle { audio_stalled: stalled, ..*old(self) }),
    {
        self.audio_stalled = stalled;
    }

    pub open spec fn with_epoch_started(self, unix_us: u64) -> AudioHandle {
        AudioHandle { samples_played: 0, playback_epoch_us: unix_us, ..self }
    }

    pub open spec fn with_epoch_enabled(self, unix_us: u64) -> AudioHandle {
        if self.playback_epoch_us == 0 {
            AudioHandle { playback_epoch_us: unix_us, ..self }
        } else {
            self
        }
    }

    /// Starts the clock together with video; only samples from here on count.
    pub fn start_playback_epoch(&mut self, unix_us: u64)
        ensures
            *final(self) == old(self).with_epoch_started(unix_us),
    {
        self.samples_played = 0;
        self.playback_epoch_us = unix_us;
    }

    /// Sets the clock going again and keeps what was heard. A clock that is
    /// going is left alone.
    pub fn enable_playback_epoch(&mut self, unix_us: u64)
        ensures
            *final(self) == old(self).with_epoch_enabled(unix_us),
    {
        if self.playback_epoch_us == 0 {
            self.playback_epoch_us = unix_us;
        }
    }

    #[verifier::allow_in_spec]
    pub fn playback_epoch(&self) -> Option<u64>
        returns
            (if self.playback_epoch_us == 0 {
                None::<u64>
            } else {
                Some(self.playback_epoch_us)
            }),
    {
        if self.playback_epoch_us == 0 {
            None
        } else {
            Some(self.playback_epoch_us)
        }
    }

    pub fn clear_playback_epoch(&mut self)
        ensures
            *final(self) == (AudioHandle { playback_epoch_us: 0, ..*old(self) }),
    {
        self.playback_epoch_us = 0;
    }

    pub fn set_audio_format(&mut self, sample_rate: u32, channels: u32)
        ensures
            *final(self) == (AudioHandle { sample_rate, channels, ..*old(self) }),
    {
        self.sample_rate = sample_rate;
        self.channels = channels;
    }

    pub fn channels(&self) -> (channels: u32)
        ensures
            channels == self.channels,
    {
        self.channels
    }

    pub fn add_samples_played(&mut self, samples: u64)
        ensures
            *final(self) == (AudioHandle {
                samples_played: old(self).samples_played.wrapping_add(samples),
                ..*old(self)
            }),
    {
        self.samples_played = self.samples_played.wrapping_add(samples);
    }

    pub fn samples_played(&self) -> (samples: u64)
        ensures
            samples == self.samples_played,
    {
        self.samples_played
    }

    pub fn reset_samples_played(&mut self)
        ensures
            *final(self) == (AudioHandle { samples_played: 0, ..*old(self) }),
    {
        self.samples_played = 0;
    }
}

impl Default for AudioHandle {
    fn default() -> (handle: Self)
        ensures
            handle == AudioHandle::fresh(),
    {
        AudioHandle::new()
    }
}

/// A clock that follows audio, or the wall clock where there is none.
#[derive(Debug, Clone, Copy, PartialEq, Eq, Structural)]
pub struct AudioSync {
    pub use_audio_clock: bool,
    pub fallback_start: Instant,
}

impl AudioSync {
    /// A clock that would rather follow audio.
    pub fn new(now: Instant) -> (sync: Self)
        ensures
            sync == (AudioSync { use_audio_clock: true, fallback_start: now }),
    {
        AudioSync { use_audio_clock: true, fallback_start: now }
    }

    /// The position of `audio` as it now stands, or the time since the clock was
    /// made.
    pub fn position(&self, audio: &AudioHandle, now: Instant) -> (position: Duration)
        ensures
            position == (if self.use_audio_clock && audio.available {
                audio.position()
            } else {
                now.duration_since(self.fallback_start)
            }),
    {
        if self.use_audio_clock && audio.is_available() {
            audio.position()
        } else {
            now.duration_since(self.fallback_start)
        }
    }

    pub fn set_use_audio_clock(&mut self, use_audio: bool)
        ensures
            *final(self) == (AudioSync { use_audio_clock: use_audio, ..*old(self) }),
    {
        self.use_audio_clock = use_audio;
    }

    /// True where `audio`, as it now stands, is what the clock follows.
    pub fn using_audio_clock(&self, audio: &AudioHandle) -> (using: bool)
        ensures
            using == (self.use_audio_clock && audio.available),
    {
        self.use_audio_clock && audio.is_available()
    }
}

/// A run of decoded samples, each the bit pattern of a 32-bit float.
#[derive(Debug, Clone)]
pub struct AudioSamples {
    pub data: Vec<u32>,
    pub sample_rate: u32,
    pub channels: u16,
    pub pts: Duration,
}

/// Numeric format of an output device.
#[derive(Debug, Clone, Copy, PartialEq, Eq, Structural)]
pub enum SampleFormat {
    I8,
    I16,
    I24,
    I32,
    I64,
    U8,
    U16,
    U32,
    U64,
    F32,
    F64,
}

/// One range of formats that an output device supports.
#[derive(Debug, Clone, Copy, PartialEq, Eq, Structural)]
pub struct SupportedConfig {
    pub channels: u16,
    pub sample_format: SampleFormat,
    pub min_sample_rate: u32,
    pub max_sample_rate: u32,
}

impl SupportedConfig {
    pub open spec fn covers(
        self,
        channels: u16,
        sample_format: SampleFormat,
        sample_rate: u32,
    ) -> bool {
        &&& self.channels == channels
        &&& self.sample_format == sample_format
        &&& self.min_sample_rate <= sample_rate <= self.max_sample_rate
    }
}

/// True where some range of the device covers the format.
pub open spec fn some_config_covers(
    configs: Seq<SupportedConfig>,
    channels: u16,
    sample_format: SampleFormat,
    sample_rate: u32,
) -> bool {
    exists|i: int|
        0 <= i < configs.len() && #[trigger] configs[i].covers(channels, sample_format, sample_rate)
}

pub fn is_sample_rate_supported(
    configs: &[SupportedConfig],
    channels: u16,
    sample_format: SampleFormat,
    sample_rate: u32,
) -> (supported: bool)
    ensures
        supported == some_config_covers(configs@, channels, sample_format, sample_rate),
{
    let mut i: usize = 0;
    while i < configs.len()
        invariant
            i <= configs@.len(),
            forall|k: int|
                0 <= k < i ==> !#[trigger] configs@[k].covers(channels, sample_format, sample_rate),
        decreases configs@.len() - i,
    {
        let cfg: SupportedConfig = configs[i];
        if cfg.channels == channels && cfg.sample_format == sample_format && sample_rate
            >= cfg.min_sample_rate && sample_rate <= cfg.max_sample_rate {
            assert(configs@[i as int].covers(channels, sample_format, sample_rate));
            return true;
        }
        i = i + 1;
    }
    false
}

/// The format in which an output stream is opened.
#[derive(Debug, Clone, Copy, PartialEq, Eq, Structural)]
pub struct StreamFormat {
    pub sample_rate: u32,
    pub channels: u16,
}

/// Mono or stereo as the device has it; the wanted rate where the device can do
/// it, else the device's own.
pub fn choose_stream_format(
    device_sample_rate: u32,
    device_channels: u16,
    sample_format: SampleFormat,
    wanted_sample_rate: Option<u32>,
    configs: &[SupportedConfig],
) -> (format: StreamFormat)
    ensures
        format.channels == (if device_channels <= 1 {
            1
        } else {
            2u16
        }),
        format.sample_rate == (match wanted_sample_rate {
            Some(rate) => if some_config_covers(configs@, format.channels, sample_format, rate) {
                rate
            } else {
                device_sample_rate
            },
            None => device_sample_rate,
        }),
{
    let channels: u16 = if device_channels <= 1 {
        1
    } else {
        2
    };
    let sample_rate: u32 = match wanted_sample_rate {
        Some(rate) => if rate == device_sample_rate || is_sample_rate_supported(
            configs,
            channels,
            sample_format,
            rate,
        ) {
            rate
        } else {
            device_sample_rate
        },
        None => device_sample_rate,
    };
    StreamFormat { sample_rate, channels }
}

/// What one output frame is made of. The bits are those of source samples, to
/// which the volume is still to be applied.
#[derive(Debug, Clone, Copy, PartialEq, Eq, Structural)]
pub enum OutputFrame {
    Silence,
    /// One source sample on the only output channel.
    Mono(u32),
    /// The mean of two source samples on the only output channel.
    Downmix(u32, u32),
    /// One sample for each of two output channels.
    Stereo(u32, u32),
}

/// A callback under way: the buffer, the handle and the counts so far.
pub struct CallbackRun {
    pub shared: RingBufferShared,
    pub generation: u64,
    pub handle: AudioHandle,
    /// Samples read but not yet added to the played counter.
    pub pending: u64,
    pub any_valid: bool,
}

impl CallbackRun {
    /// Reads one source sample. A flush drops what was pending and starts the
    /// played counter anew.
    pub open spec fn after_source_sample(self) -> (CallbackRun, Option<u32>) {
        let (shared, read) = self.shared.after_read(self.generation);
        let next = CallbackRun { shared, generation: self.shared.flush_generation, ..self };
        match read {
            ReadSample::Sample(bits) => (
                CallbackRun { pending: (self.pending + 1) as u64, ..next },
                Some(bits),
            ),
            ReadSample::Flushed => (
                CallbackRun {
                    pending: 0,
                    handle: AudioHandle { samples_played: 0, ..self.handle },
                    ..next
                },
                None,
            ),
            ReadSample::Empty => (next, None),
        }
    }

    /// Adds what is pending to the played counter.
    pub open spec fn counted(self) -> CallbackRun {
        CallbackRun {
            handle: AudioHandle {
                samples_played: self.handle.samples_played.wrapping_add(self.pending),
                ..self.handle
            },
            pending: 0,
            ..self
        }
    }

    /// Makes one output frame: one source sample for a mono source, two for a
    /// stereo source, and silence unless all of them were there.
    pub open spec fn after_frame(
        self,
        mono_source: bool,
        mono_output: bool,
    ) -> (CallbackRun, OutputFrame) {
        let (one, left) = self.after_source_sample();
        let (read, right) = if mono_source {
            (one, left)
        } else {
            one.after_source_sample()
        };
        let frame = match (left, right) {
            (Some(l), Some(r)) => if mono_output {
                if mono_source {
                    OutputFrame::Mono(l)
                } else {
                    OutputFrame::Downmix(l, r)
                }
            } else {
                OutputFrame::Stereo(l, r)
            },
            _ => OutputFrame::Silence,
        };
        let valid = CallbackRun { any_valid: read.any_valid || frame !is Silence, ..read };
        if valid.pending >= FLUSH_SAMPLES {
            (valid.counted(), frame)
        } else {
            (valid, frame)
        }
    }

    /// Makes `n` output frames.
    pub open spec fn after_frames(
        self,
        mono_source: bool,
        mono_output: bool,
        n: nat,
    ) -> (CallbackRun, Seq<OutputFrame>)
        decreases n,
    {
        if n == 0 {
            (self, Seq::empty())
        } else {
            let (before, frames) = self.after_frames(mono_source, mono_output, (n - 1) as nat);
            let (after, frame) = before.after_frame(mono_source, mono_output);
            (after, frames.push(frame))
        }
    }
}

/// What an output callback remembers from one call to the next.
#[derive(Debug, Clone, Copy, PartialEq, Eq, Structural)]
pub struct CallbackState {
    /// Callbacks in a row that had nothing to play.
    pub empty_callback_count: u32,
}

/// A handle and a callback state after a callback that did or did not play
/// anything.
pub open spec fn after_stall_detection(
    state: CallbackState,
    handle: AudioHandle,
    any_valid: bool,
) -> (CallbackState, AudioHandle) {
    if any_valid {
        (
            CallbackState { empty_callback_count: 0 },
            AudioHandle {
                audio_stalled: handle.audio_stalled && state.empty_callback_count
                    < STALL_CALLBACK_THRESHOLD,
                ..handle
            },
        )
    } else {
        let count = if state.empty_callback_count == u32::MAX {
            u32::MAX
        } else {
            (state.empty_callback_count + 1) as u32
        };
        (
            CallbackState { empty_callback_count: count },
            AudioHandle {
                audio_stalled: handle.audio_stalled || count >= STALL_CALLBACK_THRESHOLD,
                ..handle
            },
        )
    }
}

fn read_source_sample(
    consumer: &mut RingBufferConsumer,
    shared: &mut RingBufferShared,
    handle: &mut AudioHandle,
    pending: &mut u64,
    Ghost(any_valid): Ghost<bool>,
) -> (sample: Option<u32>)
    requires
        old(shared).wf(),
        *old(pending) < u64::MAX,
    ensures
        final(shared).wf(),
        *final(pending) <= *old(pending) + 1,
        ({
            let run = CallbackRun {
                shared: *old(shared),
                generation: old(consumer).consumer_generation,
                handle: *old(handle),
                pending: *old(pending),
                any_valid,
            };
            &&& sample == run.after_source_sample().1
            &&& run.after_source_sample().0 == (CallbackRun {
                shared: *final(shared),
                generation: final(consumer).consumer_generation,
                handle: *final(handle),
                pending: *final(pending),
                any_valid,
            })
        }),
{
    match consumer.read_sample(shared) {
        ReadSample::Sample(bits) => {
            *pending = *pending + 1;
            Some(bits)
        },
        ReadSample::Flushed => {
            *pending = 0;
            handle.reset_samples_played();
            None
        },
        ReadSample::Empty => None,
    }
}

impl CallbackState {
    pub fn new() -> (state: Self)
        ensures
            state.empty_callback_count == 0,
    {
        CallbackState { empty_callback_count: 0 }
    }

    /// Fills `frames` output frames from the ring buffer.
    ///
    /// Outside of playback, and before the playback epoch is set, there is
    /// silence and the buffer is left alone. Three callbacks in a row with
    /// nothing to play are a stall, which the next one that plays ends.
    pub fn fill_output(
        &mut self,
        playing: bool,
        handle: &mut AudioHandle,
        consumer: &mut RingBufferConsumer,
        shared: &mut RingBufferShared,
        frames: usize,
        output_channels: u16,
    ) -> (output: Vec<OutputFrame>)
        requires
            old(shared).wf(),
        ensures
            final(shared).wf(),
            output@.len() == frames,
            !playing || old(handle).playback_epoch_us == 0 ==> {
                &&& *final(self) == *old(self)
                &&& *final(handle) == *old(handle)
                &&& *final(shared) == *old(shared)
                &&& *final(consumer) == *old(consumer)
                &&& forall|i: int| 0 <= i < frames ==> output@[i] is Silence
            },
            playing && old(handle).playback_epoch_us != 0 ==> {
                let start = CallbackRun {
                    shared: *old(shared),
                    generation: old(consumer).consumer_generation,
                    handle: *old(handle),
                    pending: 0,
                    any_valid: false,
                };
                let (end, made) = start.after_frames(
                    old(handle).channels <= 1,
                    output_channels == 1,
                    frames as nat,
                );
                let (state, heard) = after_stall_detection(
                    *old(self),
                    end.counted().handle,
                    end.any_valid,
                );
                &&& output@ =~= made
                &&& *final(shared) == end.shared
                &&& final(consumer).consumer_generation == end.generation
                &&& *final(self) == state
                &&& *final(handle) == heard
            },
    {
        let mut output: Vec<OutputFrame> = Vec::new();
        if !playing || handle.playback_epoch().is_none() {
            let mut i: usize = 0;
            while i < frames
                invariant
                    i <= frames,
                    output@.len() == i,
                    forall|k: int| 0 <= k < i ==> output@[k] is Silence,
                decreases frames - i,
            {
                output.push(OutputFrame::Silence);
                i = i + 1;
            }
            return output;
        }
        let mono_source: bool = handle.channels <= 1;
        let mono_output: bool = output_channels == 1;
        let mut pending: u64 = 0;
        let mut any_valid: bool = false;
        let ghost start = CallbackRun {
            shared: *shared,
            generation: consumer.consumer_generation,
            handle: *handle,
            pending: 0,
            any_valid: false,
        };
        let mut i: usize = 0;
        while i < frames
            invariant
                i <= frames,
                shared.wf(),
                pending < FLUSH_SAMPLES,
                output@.len() == i,
                start.after_frames(mono_source, mono_output, i as nat).0 == (CallbackRun {
                    shared: *shared,
                    generation: consumer.consumer_generation,
                    handle: *handle,
                    pending,
                    any_valid,
                }),
                start.after_frames(mono_source, mono_output, i as nat).1 =~= output@,
            decreases frames - i,
        {
            let left: Option<u32> = read_source_sample(
                consumer,
                shared,
                handle,
                &mut pending,
                Ghost(any_valid),
            );
            let right: Option<u32> = if mono_source {
                left
            } else {
                read_source_sample(consumer, shared, handle, &mut pending, Ghost(any_valid))
            };
            let frame: OutputFrame = match (left, right) {
                (Some(l), Some(r)) => {
                    any_valid = true;
                    if mono_output {
                        if mono_source {
                            OutputFrame::Mono(l)
                        } else {
                            OutputFrame::Downmix(l, r)
                        }
                    } else {
                        OutputFrame::Stereo(l, r)
                    }
                },
                _ => OutputFrame::Silence,
            };
            output.push(frame);
            if pending >= FLUSH_SAMPLES {
                handle.add_samples_played(pending);
                pending = 0;
            }
            i = i + 1;
        }
        if pending > 0 {
            handle.add_samples_played(pending);
        }
        if any_valid {
            if self.empty_callback_count >= STALL_CALLBACK_THRESHOLD {
                handle.set_audio_stalled(false);
            }
            self.empty_callback_count = 0;
        } else {
            self.empty_callback_count = self.empty_callback_count.saturating_add(1);
            if self.empty_callback_count >= STALL_CALLBACK_THRESHOLD {
                handle.set_audio_stalled(true);
            }
        }
        output
    }
}

/// The audio clock stands at zero until a playback epoch is set, whatever was
/// buffered or played before.
pub proof fn law_position_waits_for_epoch(handle: AudioHandle)
    requires
        handle.playback_epoch_us == 0,
    ensures
        handle.position() == Duration::zero(),
        handle.stream_pts_offset_us == 0 ==> handle.position_for_sync() == Duration::zero(),
{
}

/// Enabling the epoch again keeps what was heard, and so the position;
/// starting it anew goes back to the first sample.
pub proof fn law_enabling_keeps_what_was_heard(handle: AudioHandle, unix_us: u64)
    ensures
        handle.with_epoch_enabled(unix_us).samples_played == handle.samples_played,
        handle.playback_epoch_us != 0 ==> handle.with_epoch_enabled(unix_us) == handle,
        handle.with_epoch_started(unix_us).samples_played == 0,
        handle.native_position_us == 0 && unix_us != 0 ==> (match handle.audio_base_pts_us {
            Some(base) => handle.with_epoch_started(unix_us).position() == Duration::from_micros(
                base,
            ),
            None => handle.with_epoch_started(unix_us).position() == Duration::zero(),
        }),
{
    if handle.channels != 0 {
        let channels: int = handle.channels as int;
        assert(0int / channels == 0) by (nonlinear_arith)
            requires
                channels > 0,
        ;
    }
    if handle.sample_rate != 0 {
        let sample_rate: int = handle.sample_rate as int;
        assert(0int / sample_rate == 0) by (nonlinear_arith)
            requires
                sample_rate > 0,
        ;
    }
}

} // verus!
