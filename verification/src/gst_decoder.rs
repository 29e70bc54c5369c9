//! The state of a GStreamer decoder: start-up, frames, seeks and what is heard
//! from the pipeline.

use crate::gst_pipeline::{is_local_file, PipelineMode};
use crate::sync_metrics::Share;
use crate::text::{contains, decimal, decimal_digits, occurs_at, occurs_in, same_text};
use crate::time::{Duration, Instant};
use crate::video::{VideoError, VideoMetadata};
use vstd::prelude::*;
use vstd::string::StringExecFns;

verus! {

/// A stream is fully buffered at this percentage.
pub const BUFFER_HIGH_THRESHOLD: i32 = 100;

/// Frames of the old place that are dropped after a seek.
pub const MAX_STALE_FRAMES: u32 = 5;

/// How far behind the target a frame may lie after a seek.
pub const STALE_AFTER_MS: u64 = 2000;

/// How far before the target a frame may lie after a seek forward.
pub const STALE_BEFORE_MS: u64 = 100;

/// Wait for a sample while the stream seeks or buffers.
pub const SLOW_PULL_MS: u64 = 1000;

/// Wait for a sample otherwise.
pub const PULL_MS: u64 = 100;

/// Samples in a row that end a recovery.
pub const RECOVERED_SAMPLES: u32 = 30;

/// Empty pulls after which a pipeline counts as stuck.
pub const STUCK_PULLS: u32 = 20;

/// How long a pipeline must have been without samples to count as stuck.
pub const STUCK_MS: u64 = 2000;

/// How long a seek waits for the one before it.
pub const PREVIOUS_SEEK_MS: u64 = 3000;

/// How long a seek waits for the stream to be buffered.
pub const SEEK_BUFFERING_MS: u64 = 5000;

/// How often a seek that failed is tried again.
pub const MAX_SEEK_RETRIES: u32 = 3;

/// Rest between two looks at the pipeline while a seek waits, in milliseconds.
pub const SEEK_REST_MS: u64 = 50;

/// How long the pipeline may take to answer a seek, in milliseconds.
pub const SEEK_ANSWER_MS: u64 = 10_000;

/// How long the pipeline may take to pause or to play, in milliseconds.
pub const STATE_CHANGE_MS: u64 = 500;

/// How long it may take to pause once more after it was reset, in milliseconds.
pub const PAUSE_AGAIN_MS: u64 = 100;

/// Rest before a seek that failed is tried again, in milliseconds.
pub const RESET_REST_MS: u64 = 500;

/// The bits of thirty as a 32-bit float, the rate of a stream that names none.
pub const DEFAULT_RATE_BITS: u32 = 0x41F0_0000;

/// The bits of one as a 32-bit float.
pub const ONE_BITS: u32 = 0x3F80_0000;

/// Counts of frames that were shared and frames that had to be copied.
#[derive(Debug, PartialEq, Eq, Structural)]
pub struct ZeroCopyMetrics {
    pub zero_copy_frames: u64,
    pub fallback_frames: u64,
    /// A copy was reported before.
    pub logged_fallback: bool,
}

impl ZeroCopyMetrics {
    #[verifier::allow_in_spec]
    pub fn new() -> ZeroCopyMetrics
        returns
            (ZeroCopyMetrics { zero_copy_frames: 0, fallback_frames: 0, logged_fallback: false }),
    {
        ZeroCopyMetrics { zero_copy_frames: 0, fallback_frames: 0, logged_fallback: false }
    }

    /// Counts a shared frame, and gives the new count.
    pub fn record_zero_copy(&mut self) -> (count: u64)
        ensures
            count == old(self).zero_copy_frames.wrapping_add(1),
            *final(self) == (ZeroCopyMetrics { zero_copy_frames: count, ..*old(self) }),
    {
        self.zero_copy_frames = self.zero_copy_frames.wrapping_add(1);
        self.zero_copy_frames
    }

    /// Counts a copied frame. Gives the count where it is to be reported: the
    /// first time, and with every hundredth frame.
    pub fn record_fallback(&mut self) -> (report: Option<u64>)
        ensures
            ({
                let count = old(self).fallback_frames.wrapping_add(1);
                &&& *final(self) == (ZeroCopyMetrics {
                    fallback_frames: count,
                    logged_fallback: true,
                    ..*old(self)
                })
                &&& report == (if !old(self).logged_fallback || count % 100 == 0 {
                    Some(count)
                } else {
                    None::<u64>
                })
            }),
    {
        self.fallback_frames = self.fallback_frames.wrapping_add(1);
        let logged: bool = self.logged_fallback;
        self.logged_fallback = true;
        if !logged || self.fallback_frames % 100 == 0 {
            Some(self.fallback_frames)
        } else {
            None
        }
    }

    /// The share of frames that were copied.
    pub fn fallback_rate(&self) -> (rate: Share)
        ensures
            rate.part == self.fallback_frames,
            rate.whole == self.zero_copy_frames + self.fallback_frames,
    {
        Share {
            part: self.fallback_frames,
            whole: self.zero_copy_frames as u128 + self.fallback_frames as u128,
        }
    }

    pub open spec fn spec_snapshot(self) -> LinuxZeroCopyMetricsSnapshot {
        LinuxZeroCopyMetricsSnapshot {
            zero_copy_frames: self.zero_copy_frames,
            fallback_frames: self.fallback_frames,
        }
    }

    pub fn snapshot(&self) -> (snapshot: LinuxZeroCopyMetricsSnapshot)
        ensures
            snapshot == self.spec_snapshot(),
    {
        LinuxZeroCopyMetricsSnapshot {
            zero_copy_frames: self.zero_copy_frames,
            fallback_frames: self.fallback_frames,
        }
    }
}

/// The counts at one moment.
#[derive(Debug, Clone, Copy, PartialEq, Eq, Structural)]
pub struct LinuxZeroCopyMetricsSnapshot {
    pub zero_copy_frames: u64,
    pub fallback_frames: u64,
}

impl LinuxZeroCopyMetricsSnapshot {
    /// True where all frames can be counted together.
    pub open spec fn wf(self) -> bool {
        self.zero_copy_frames + self.fallback_frames <= u64::MAX
    }

    pub fn total_frames(&self) -> (total: u64)
        requires
            self.wf(),
        ensures
            total == self.zero_copy_frames + self.fallback_frames,
    {
        self.zero_copy_frames + self.fallback_frames
    }

    /// The share of frames that were shared.
    pub fn zero_copy_percentage(&self) -> (share: Share)
        requires
            self.wf(),
        ensures
            share == (Share {
                part: self.zero_copy_frames,
                whole: (self.zero_copy_frames + self.fallback_frames) as u128,
            }),
    {
        Share { part: self.zero_copy_frames, whole: self.total_frames() as u128 }
    }

    /// The share of frames that were copied.
    pub fn fallback_percentage(&self) -> (share: Share)
        requires
            self.wf(),
        ensures
            share == (Share {
                part: self.fallback_frames,
                whole: (self.zero_copy_frames + self.fallback_frames) as u128,
            }),
    {
        Share { part: self.fallback_frames, whole: self.total_frames() as u128 }
    }

    /// True where frames are shared and none had to be copied.
    #[verifier::allow_in_spec]
    pub fn is_zero_copy_active(&self) -> bool
        returns
            self.zero_copy_frames > 0 && self.fallback_frames == 0,
    {
        self.zero_copy_frames > 0 && self.fallback_frames == 0
    }

    /// What a user is told. `percent` is the share of shared frames, written out.
    pub fn status_string(&self, percent: &str) -> (text: String)
        requires
            self.wf(),
        ensures
            text@ == (if self.zero_copy_frames + self.fallback_frames == 0 {
                "No frames rendered yet"@
            } else if self.is_zero_copy_active() {
                "✓ Zero-copy active ("@ + decimal_digits(self.zero_copy_frames as nat)
                    + " frames, 100%)"@
            } else {
                "⚠ Partial fallback: "@ + decimal_digits(self.zero_copy_frames as nat) + "/"@
                    + decimal_digits((self.zero_copy_frames + self.fallback_frames) as nat)
                    + " zero-copy ("@ + percent@ + "%)"@
            }),
    {
        if self.total_frames() == 0 {
            return "No frames rendered yet".to_owned();
        }
        if self.is_zero_copy_active() {
            let mut text: String = "✓ Zero-copy active (".to_owned();
            text.append(decimal(self.zero_copy_frames).as_str());
            text.append(" frames, 100%)");
            return text;
        }
        let mut text: String = "⚠ Partial fallback: ".to_owned();
        text.append(decimal(self.zero_copy_frames).as_str());
        text.append("/");
        text.append(decimal(self.total_frames()).as_str());
        text.append(" zero-copy (");
        text.append(percent);
        text.append("%)");
        text
    }
}

/// Control of the audio that a pipeline plays. A decoder has one, which is borrowed from
/// it.
#[derive(Debug, PartialEq, Eq, Structural)]
pub struct GstAudioHandle {
    /// The pipeline has an element for the volume.
    pub has_volume_element: bool,
    pub has_audio: bool,
    pub muted: bool,
    /// Percent.
    pub volume: u32,
}

impl GstAudioHandle {
    pub fn new(has_volume_element: bool) -> (handle: Self)
        ensures
            handle == (GstAudioHandle {
                has_volume_element,
                has_audio: false,
                muted: false,
                volume: 100,
            }),
    {
        GstAudioHandle { has_volume_element, has_audio: false, muted: false, volume: 100 }
    }

    /// The percentage to be set on the element, where there is one.
    #[verifier::allow_in_spec]
    pub fn effective_volume(&self) -> Option<u32>
        returns
            (if !self.has_volume_element {
                None::<u32>
            } else if self.muted {
                Some(0u32)
            } else {
                Some(self.volume)
            }),
    {
        if !self.has_volume_element {
            None
        } else if self.muted {
            Some(0)
        } else {
            Some(self.volume)
        }
    }

    pub fn set_audio_connected(&mut self)
        ensures
            *final(self) == (GstAudioHandle { has_audio: true, ..*old(self) }),
    {
        self.has_audio = true;
    }

    pub fn has_audio(&self) -> (has_audio: bool)
        ensures
            has_audio == self.has_audio,
    {
        self.has_audio
    }

    pub fn is_muted(&self) -> (muted: bool)
        ensures
            muted == self.muted,
    {
        self.muted
    }

    /// Mutes or not, and gives the percentage to be set.
    pub fn set_muted(&mut self, muted: bool) -> (apply: Option<u32>)
        ensures
            *final(self) == (GstAudioHandle { muted, ..*old(self) }),
            apply == final(self).effective_volume(),
    {
        self.muted = muted;
        self.effective_volume()
    }

    pub fn toggle_mute(&mut self) -> (apply: Option<u32>)
        ensures
            *final(self) == (GstAudioHandle { muted: !old(self).muted, ..*old(self) }),
            apply == final(self).effective_volume(),
    {
        self.muted = !self.muted;
        self.effective_volume()
    }

    pub fn volume(&self) -> (volume: u32)
        ensures
            volume == self.volume,
    {
        self.volume
    }

    pub fn set_volume(&mut self, volume: u32) -> (apply: Option<u32>)
        ensures
            *final(self) == (GstAudioHandle {
                volume: (if volume > 100 {
                    100
                } else {
                    volume
                }),
                ..*old(self)
            }),
            apply == final(self).effective_volume(),
    {
        self.volume = if volume > 100 {
            100
        } else {
            volume
        };
        self.effective_volume()
    }
}

/// Where a decoder stands in its stream.
#[derive(Debug, Clone, Copy, PartialEq, Eq, Structural)]
pub struct Playhead {
    pub position: Duration,
    pub eof: bool,
    /// A seek was made, and its first frame has not come.
    pub seeking: bool,
    pub seek_target: Option<Duration>,
    pub last_seek_backward: bool,
    /// The first frame was decoded during start-up and waits to be taken.
    pub preroll: bool,
    pub buffering_percent: i32,
    pub was_fully_buffered: bool,
    pub user_paused: bool,
    pub buffering_resume_time: Option<Instant>,
    pub last_seek_time: Option<Instant>,
    pub no_sample_after_resume: u32,
    pub recovery_attempts: u32,
    pub consecutive_samples: u32,
    pub samples_since_resume: u32,
}

impl Playhead {
    /// The start of a stream that is buffered to `percent`.
    #[verifier::allow_in_spec]
    pub fn at_start(preroll: bool, percent: i32) -> Playhead
        returns
            (Playhead {
                position: Duration::zero(),
                eof: false,
                seeking: false,
                seek_target: None::<Duration>,
                last_seek_backward: false,
                preroll,
                buffering_percent: percent,
                was_fully_buffered: percent >= BUFFER_HIGH_THRESHOLD,
                user_paused: false,
                buffering_resume_time: None::<Instant>,
                last_seek_time: None::<Instant>,
                no_sample_after_resume: 0,
                recovery_attempts: 0,
                consecutive_samples: 0,
                samples_since_resume: 0,
            }),
    {
        Playhead {
            position: Duration::zero(),
            eof: false,
            seeking: false,
            seek_target: None,
            last_seek_backward: false,
            preroll,
            buffering_percent: percent,
            was_fully_buffered: percent >= BUFFER_HIGH_THRESHOLD,
            user_paused: false,
            buffering_resume_time: None,
            last_seek_time: None,
            no_sample_after_resume: 0,
            recovery_attempts: 0,
            consecutive_samples: 0,
            samples_since_resume: 0,
        }
    }

    #[verifier::allow_in_spec]
    pub fn not_seeking(self) -> Playhead
        returns
            (Playhead { seeking: false, seek_target: None::<Duration>, ..self }),
    {
        Playhead { seeking: false, seek_target: None, ..self }
    }

    /// The pipeline has buffered `percent`. Nothing is paused or resumed on that
    /// account: the pipeline sees to it.
    #[verifier::allow_in_spec]
    pub fn buffered(self, percent: i32) -> Playhead
        returns
            (Playhead {
                buffering_percent: percent,
                was_fully_buffered: self.was_fully_buffered || (percent != self.buffering_percent
                    && percent >= BUFFER_HIGH_THRESHOLD),
                ..self
            }),
    {
        Playhead {
            buffering_percent: percent,
            was_fully_buffered: self.was_fully_buffered || (percent != self.buffering_percent
                && percent >= BUFFER_HIGH_THRESHOLD),
            ..self
        }
    }

    /// How long to wait for the next sample.
    #[verifier::allow_in_spec]
    pub fn pull_timeout(self) -> Duration
        returns
            (if self.seeking || self.buffering_percent < BUFFER_HIGH_THRESHOLD {
                Duration::from_millis(SLOW_PULL_MS)
            } else {
                Duration::from_millis(PULL_MS)
            }),
    {
        if self.seeking || self.buffering_percent < BUFFER_HIGH_THRESHOLD {
            Duration::from_millis(SLOW_PULL_MS)
        } else {
            Duration::from_millis(PULL_MS)
        }
    }

    /// True of a frame that belongs to the place that a seek has left.
    #[verifier::allow_in_spec]
    pub fn is_stale_frame(self, pts: Duration, discarded: u32, max_stale: u32) -> bool
        returns
            (match self.seek_target {
                None => false,
                Some(target) => self.seeking && discarded < max_stale && (target.saturating_add(
                    Duration::from_millis(STALE_AFTER_MS),
                ).before(pts) || (!self.last_seek_backward && pts.saturating_add(
                    Duration::from_millis(STALE_BEFORE_MS),
                ).before(target))),
            }),
    {
        match self.seek_target {
            None => false,
            Some(target) => self.seeking && discarded < max_stale && (target.saturating_add(
                Duration::from_millis(STALE_AFTER_MS),
            ).before(pts) || (!self.last_seek_backward && pts.saturating_add(
                Duration::from_millis(STALE_BEFORE_MS),
            ).before(target))),
        }
    }

    /// A sample has come.
    pub open spec fn with_sample(self) -> Playhead {
        let consecutive = if self.consecutive_samples == u32::MAX {
            u32::MAX
        } else {
            (self.consecutive_samples + 1) as u32
        };
        let recovering = self.recovery_attempts > 0;
        let recovered = recovering && consecutive >= RECOVERED_SAMPLES;
        Playhead {
            samples_since_resume: self.samples_since_resume.wrapping_add(1),
            buffering_resume_time: None,
            no_sample_after_resume: 0,
            recovery_attempts: if recovered {
                0
            } else {
                self.recovery_attempts
            },
            consecutive_samples: if recovered {
                0
            } else if recovering {
                consecutive
            } else {
                self.consecutive_samples
            },
            ..self
        }
    }

    pub fn sample_received(&mut self)
        ensures
            *final(self) == old(self).with_sample(),
    {
        self.samples_since_resume = self.samples_since_resume.wrapping_add(1);
        self.buffering_resume_time = None;
        self.no_sample_after_resume = 0;
        if self.recovery_attempts > 0 {
            self.consecutive_samples = if self.consecutive_samples == u32::MAX {
                u32::MAX
            } else {
                self.consecutive_samples + 1
            };
            if self.consecutive_samples >= RECOVERED_SAMPLES {
                self.recovery_attempts = 0;
                self.consecutive_samples = 0;
            }
        }
    }

    /// No sample has come. A pipeline that has been without one for long after it
    /// was resumed counts as stuck, which is reported once; the end of the stream
    /// ends a seek.
    pub open spec fn without_sample(self, at_end: bool, now: Instant) -> Playhead {
        let missed = if self.no_sample_after_resume == u32::MAX {
            u32::MAX
        } else {
            (self.no_sample_after_resume + 1) as u32
        };
        let stuck = self.is_stuck(now);
        let counted = Playhead {
            no_sample_after_resume: if stuck {
                0
            } else {
                missed
            },
            buffering_resume_time: if stuck {
                None
            } else {
                self.buffering_resume_time
            },
            ..self
        };
        if at_end {
            Playhead { eof: true, ..counted.not_seeking() }
        } else {
            counted
        }
    }

    /// True where the pull that is about to be counted shows a stuck pipeline.
    pub open spec fn is_stuck(self, now: Instant) -> bool {
        match self.buffering_resume_time {
            None => false,
            Some(resumed) => !now.duration_since(resumed).before(Duration::from_millis(STUCK_MS))
                && self.no_sample_after_resume + 1 == STUCK_PULLS,
        }
    }

    /// Takes in that no sample has come; true where the pipeline counts as stuck.
    pub fn no_sample(&mut self, at_end: bool, now: Instant) -> (stuck: bool)
        ensures
            *final(self) == old(self).without_sample(at_end, now),
            stuck == old(self).is_stuck(now),
    {
        self.no_sample_after_resume = if self.no_sample_after_resume == u32::MAX {
            u32::MAX
        } else {
            self.no_sample_after_resume + 1
        };
        let mut stuck: bool = false;
        if let Some(resumed) = self.buffering_resume_time {
            if !now.duration_since(resumed).before(Duration::from_millis(STUCK_MS))
                && self.no_sample_after_resume == STUCK_PULLS {
                stuck = true;
                self.buffering_resume_time = None;
                self.no_sample_after_resume = 0;
            }
        }
        if at_end {
            self.eof = true;
            *self = self.not_seeking();
        }
        stuck
    }

    /// A frame is shown.
    #[verifier::allow_in_spec]
    pub fn showing(self, pts: Duration) -> Playhead
        returns
            (Playhead { position: pts, ..self.not_seeking() }),
    {
        Playhead { position: pts, ..self.not_seeking() }
    }

    /// A seek to `position` begins.
    #[verifier::allow_in_spec]
    pub fn seeking_to(self, position: Duration) -> Playhead
        returns
            (Playhead {
                seeking: true,
                seek_target: Some(position),
                last_seek_backward: position.before(self.position),
                ..self
            }),
    {
        Playhead {
            seeking: true,
            seek_target: Some(position),
            last_seek_backward: position.before(self.position),
            ..self
        }
    }

    /// A seek to `position` has succeeded.
    #[verifier::allow_in_spec]
    pub fn arrived(self, position: Duration, now: Instant) -> Playhead
        returns
            (Playhead {
                position,
                eof: false,
                buffering_resume_time: None::<Instant>,
                no_sample_after_resume: 0,
                samples_since_resume: 0,
                last_seek_time: Some(now),
                ..self
            }),
    {
        Playhead {
            position,
            eof: false,
            buffering_resume_time: None,
            no_sample_after_resume: 0,
            samples_since_resume: 0,
            last_seek_time: Some(now),
            ..self
        }
    }

    #[verifier::allow_in_spec]
    pub fn paused(self) -> Playhead
        returns
            (Playhead { user_paused: true, ..self }),
    {
        Playhead { user_paused: true, ..self }
    }

    #[verifier::allow_in_spec]
    pub fn resumed(self, now: Instant) -> Playhead
        returns
            (Playhead {
                user_paused: false,
                buffering_resume_time: Some(now),
                no_sample_after_resume: 0,
                samples_since_resume: 0,
                ..self
            }),
    {
        Playhead {
            user_paused: false,
            buffering_resume_time: Some(now),
            no_sample_after_resume: 0,
            samples_since_resume: 0,
            ..self
        }
    }
}

/// What a pipeline says.
#[derive(Debug, PartialEq, Eq)]
pub enum BusMessage {
    Error(String),
    EndOfStream,
    Buffering(i32),
    Other,
}

/// What a message of the pipeline ends a decode with.
#[derive(Debug, PartialEq, Eq)]
pub enum BusOutcome {
    Failed(VideoError),
    Ended,
}

/// How a decode begins.
#[derive(Debug, PartialEq, Eq)]
pub enum DecodeStart {
    Failed(VideoError),
    Ended,
    /// The frame that was decoded during start-up.
    TakePreroll,
    /// Hear what the pipeline says, then pull.
    Pull,
}

/// Whether a frame could be shared with the graphics card.
#[derive(Debug, Clone, Copy, PartialEq, Eq, Structural)]
pub enum ShareAttempt {
    /// The frame does not lie in the driver's memory.
    NotShareable,
    Failed,
    Shared,
}

/// A decoder.
#[derive(Debug, PartialEq, Eq)]
pub struct ZeroCopyGStreamerDecoder {
    pub metadata: VideoMetadata,
    pub head: Playhead,
    /// An error that the pipeline reported during a seek.
    pub pending_error: Option<VideoError>,
    pub audio_handle: GstAudioHandle,
    pub mode: PipelineMode,
    pub metrics: ZeroCopyMetrics,
    pub is_local_file: bool,
}

impl ZeroCopyGStreamerDecoder {
    /// A decoder before and after a decode was begun.
    pub open spec fn begun(self, after: ZeroCopyGStreamerDecoder, start: DecodeStart) -> bool {
        match self.pending_error {
            Some(error) => {
                &&& start == DecodeStart::Failed(error)
                &&& after == (ZeroCopyGStreamerDecoder {
                    pending_error: None,
                    head: self.head.not_seeking(),
                    ..self
                })
            },
            None => if self.head.eof {
                start == DecodeStart::Ended && after == self
            } else if self.head.preroll {
                &&& start == DecodeStart::TakePreroll
                &&& after == (ZeroCopyGStreamerDecoder {
                    head: Playhead { preroll: false, ..self.head },
                    ..self
                })
            } else {
                start == DecodeStart::Pull && after == self
            },
        }
    }

    /// Begins a decode.
    pub fn begin_decode(&mut self) -> (start: DecodeStart)
        ensures
            old(self).begun(*final(self), start),
    {
        match self.pending_error.take() {
            Some(error) => {
                self.head = self.head.not_seeking();
                return DecodeStart::Failed(error);
            },
            None => {},
        }
        if self.head.eof {
            DecodeStart::Ended
        } else if self.head.preroll {
            self.head.preroll = false;
            DecodeStart::TakePreroll
        } else {
            DecodeStart::Pull
        }
    }

    /// The position once the frame of the start-up is shown.
    pub fn preroll_shown(&mut self, pts: Duration)
        ensures
            *final(self) == (ZeroCopyGStreamerDecoder {
                head: Playhead { position: pts, ..old(self).head },
                ..*old(self)
            }),
    {
        self.head.position = pts;
    }

    /// A decoder before and after it heard what the pipeline says.
    pub open spec fn heard(
        self,
        message: BusMessage,
        after: ZeroCopyGStreamerDecoder,
        outcome: Option<BusOutcome>,
    ) -> bool {
        match message {
            BusMessage::Error(cause) => {
                let raised = if self.head.seeking {
                    after.pending_error
                } else {
                    match outcome {
                        Some(BusOutcome::Failed(error)) => Some(error),
                        _ => None,
                    }
                };
                &&& raised is Some
                &&& raised->0 is DecodeFailed
                &&& raised->0->DecodeFailed_0@ == "Pipeline error: "@ + cause@
                &&& if self.head.seeking {
                    &&& outcome is None
                    &&& after == (ZeroCopyGStreamerDecoder {
                        pending_error: after.pending_error,
                        ..self
                    })
                } else {
                    after == self
                }
            },
            BusMessage::EndOfStream => if self.head.seeking {
                outcome is None && after == self
            } else {
                &&& outcome == Some(BusOutcome::Ended)
                &&& after == (ZeroCopyGStreamerDecoder {
                    head: Playhead { eof: true, ..self.head },
                    ..self
                })
            },
            BusMessage::Buffering(percent) => {
                &&& outcome is None
                &&& after == (ZeroCopyGStreamerDecoder {
                    head: self.head.buffered(percent),
                    ..self
                })
            },
            BusMessage::Other => outcome is None && after == self,
        }
    }

    /// Hears what the pipeline says. An error during a seek is kept for later;
    /// an end of stream during a seek is not believed.
    pub fn process_bus_message(&mut self, message: BusMessage) -> (outcome: Option<BusOutcome>)
        ensures
            old(self).heard(message, *final(self), outcome),
    {
        match message {
            BusMessage::Error(cause) => {
                let error = VideoError::DecodeFailed(
                    "Pipeline error: ".to_owned().concat(cause.as_str()),
                );
                if self.head.seeking {
                    self.pending_error = Some(error);
                    None
                } else {
                    Some(BusOutcome::Failed(error))
                }
            },
            BusMessage::EndOfStream => {
                if self.head.seeking {
                    None
                } else {
                    self.head.eof = true;
                    Some(BusOutcome::Ended)
                }
            },
            BusMessage::Buffering(percent) => {
                self.head = self.head.buffered(percent);
                None
            },
            BusMessage::Other => None,
        }
    }

    /// The decoder once a frame was counted, whether the frame is shared, and the
    /// count of copies, where that is to be reported.
    pub open spec fn noting(self, attempt: ShareAttempt) -> (
        ZeroCopyGStreamerDecoder,
        (bool, Option<u64>),
    ) {
        let shared = self.mode == PipelineMode::ZeroCopy && attempt == ShareAttempt::Shared;
        let copies = self.metrics.fallback_frames.wrapping_add(1);
        let reported = !shared && self.mode == PipelineMode::ZeroCopy && (
        !self.metrics.logged_fallback || copies % 100 == 0);
        (
            ZeroCopyGStreamerDecoder {
                metrics: if shared {
                    ZeroCopyMetrics {
                        zero_copy_frames: self.metrics.zero_copy_frames.wrapping_add(1),
                        ..self.metrics
                    }
                } else {
                    ZeroCopyMetrics {
                        fallback_frames: copies,
                        logged_fallback: self.metrics.logged_fallback || self.mode
                            == PipelineMode::ZeroCopy,
                        ..self.metrics
                    }
                },
                ..self
            },
            (
                shared,
                if reported {
                    Some(copies)
                } else {
                    None::<u64>
                },
            ),
        )
    }

    /// Counts a frame as shared or copied. True where it is shared; with it the
    /// count of copies, where that is to be reported.
    pub fn note_frame(&mut self, attempt: ShareAttempt) -> (noted: (bool, Option<u64>))
        ensures
            (*final(self), noted) == old(self).noting(attempt),
    {
        if self.mode == PipelineMode::CpuCopy {
            self.metrics.fallback_frames = self.metrics.fallback_frames.wrapping_add(1);
            return (false, None);
        }
        if attempt == ShareAttempt::Shared {
            let _ = self.metrics.record_zero_copy();
            (true, None)
        } else {
            (false, self.metrics.record_fallback())
        }
    }

    /// The timestamp of a frame; the position where it has none.
    pub fn frame_pts(&self, pts: Option<Duration>) -> (shown: Duration)
        ensures
            shown == (match pts {
                Some(pts) => pts,
                None => self.head.position,
            }),
    {
        match pts {
            Some(pts) => pts,
            None => self.head.position,
        }
    }

    pub fn audio_handle(&self) -> (handle: &GstAudioHandle)
        ensures
            *handle == self.audio_handle,
    {
        &self.audio_handle
    }

    /// The control of the audio, to change it.
    pub fn audio_handle_mut(&mut self) -> (handle: &mut GstAudioHandle)
        ensures
            *handle == old(self).audio_handle,
            *final(self) == (ZeroCopyGStreamerDecoder {
                audio_handle: *final(handle),
                ..*old(self)
            }),
    {
        &mut self.audio_handle
    }

    pub fn mode(&self) -> (mode: PipelineMode)
        ensures
            mode == self.mode,
    {
        self.mode
    }

    pub fn metrics(&self) -> (metrics: &ZeroCopyMetrics)
        ensures
            *metrics == self.metrics,
    {
        &self.metrics
    }

    pub fn metadata(&self) -> (metadata: &VideoMetadata)
        ensures
            *metadata == self.metadata,
    {
        &self.metadata
    }

    pub fn is_eof(&self) -> (eof: bool)
        ensures
            eof == self.head.eof,
    {
        self.head.eof
    }

    pub fn buffering_percent(&self) -> (percent: i32)
        ensures
            percent == self.head.buffering_percent,
    {
        self.head.buffering_percent
    }

    pub fn pause(&mut self)
        ensures
            *final(self) == (ZeroCopyGStreamerDecoder {
                head: old(self).head.paused(),
                ..*old(self)
            }),
    {
        self.head = self.head.paused();
    }

    pub fn resume(&mut self, now: Instant)
        ensures
            *final(self) == (ZeroCopyGStreamerDecoder {
                head: old(self).head.resumed(now),
                ..*old(self)
            }),
    {
        self.head = self.head.resumed(now);
    }
}

/// What is wrong with the format of a frame that is to be copied.
pub open spec fn copy_format_refusal(
    is_nv12: bool,
    name: Seq<char>,
    debug: Seq<char>,
    caps: Seq<char>,
) -> Option<Seq<char>> {
    if is_nv12 || name == "NV12"@ {
        None
    } else if name != "UNKNOWN"@ {
        Some("CPU fallback only supports NV12, got: "@ + name + " ("@ + debug + ")"@)
    } else if occurs_in(caps, "NV12"@) || occurs_in(caps, "nv12"@) {
        None
    } else {
        Some("CPU fallback only supports NV12, caps indicate: "@ + caps)
    }
}

/// Checks that a frame can be copied: it must be in NV12, by its format or, where
/// that is not known, by its description.
pub fn check_copy_format(is_nv12: bool, name: &str, debug: &str, caps: &str) -> (checked: Result<
    (),
    VideoError,
>)
    ensures
        match checked {
            Ok(_) => copy_format_refusal(is_nv12, name@, debug@, caps@) is None,
            Err(error) => error is UnsupportedFormat && copy_format_refusal(
                is_nv12,
                name@,
                debug@,
                caps@,
            ) == Some(error->UnsupportedFormat_0@),
        },
{
    if is_nv12 || same_text(name, "NV12") {
        return Ok(());
    }
    if !same_text(name, "UNKNOWN") {
        let mut text: String = "CPU fallback only supports NV12, got: ".to_owned();
        text.append(name);
        text.append(" (");
        text.append(debug);
        text.append(")");
        return Err(VideoError::UnsupportedFormat(text));
    }
    if contains(caps, "NV12") || contains(caps, "nv12") {
        return Ok(());
    }
    Err(
        VideoError::UnsupportedFormat(
            "CPU fallback only supports NV12, caps indicate: ".to_owned().concat(caps),
        ),
    )
}

/// A search for the next frame to show, frames of the old place being dropped.
#[derive(Debug, Clone, Copy, PartialEq, Eq, Structural)]
pub struct FramePull {
    pub discarded: u32,
    pub max_stale: u32,
}

impl FramePull {
    pub open spec fn wf(self) -> bool {
        self.discarded <= self.max_stale <= MAX_STALE_FRAMES
    }

    /// Begins a search. Only a seek has frames of an old place.
    pub fn begin(head: &Playhead) -> (pull: Self)
        ensures
            pull.wf(),
            pull == (FramePull {
                discarded: 0,
                max_stale: if head.seeking {
                    MAX_STALE_FRAMES
                } else {
                    0
                },
            }),
    {
        FramePull {
            discarded: 0,
            max_stale: if head.seeking {
                MAX_STALE_FRAMES
            } else {
                0
            },
        }
    }

    /// Offers a frame; true where it is shown, false where it is dropped and
    /// another is to be pulled.
    pub fn offer(&mut self, head: &mut Playhead, pts: Duration) -> (shown: bool)
        requires
            old(self).wf(),
        ensures
            final(self).wf(),
            shown == !old(head).is_stale_frame(pts, old(self).discarded, old(self).max_stale),
            *final(self) == (if shown {
                *old(self)
            } else {
                FramePull { discarded: (old(self).discarded + 1) as u32, ..*old(self) }
            }),
            *final(head) == (if shown {
                old(head).showing(pts)
            } else {
                *old(head)
            }),
    {
        if head.is_stale_frame(pts, self.discarded, self.max_stale) {
            self.discarded = self.discarded + 1;
            false
        } else {
            *head = head.showing(pts);
            true
        }
    }
}

/// After at most five frames of the old place, the next frame is shown whatever
/// its timestamp.
pub proof fn law_stale_frames_run_out(head: Playhead, pull: FramePull, pts: Duration)
    requires
        pull.wf(),
        pull.discarded == MAX_STALE_FRAMES,
    ensures
        !head.is_stale_frame(pts, pull.discarded, pull.max_stale),
{
}

/// How the pipeline answers a seek.
#[derive(Debug, PartialEq, Eq)]
pub enum SeekReply {
    /// The pipeline did not take the seek.
    Refused(String),
    Done,
    Error(String),
    TimedOut,
    /// The pipeline has no way to answer, or answered something else.
    NoAnswer,
}

/// What a seek does next.
#[derive(Debug, PartialEq, Eq)]
pub enum SeekAction {
    /// Hear what the pipeline says, rest, and look again.
    Listen { rest: Duration },
    /// Seek; to the very frame, or to the key frame before it. Wait so long for the
    /// answer.
    Seek { position: Duration, accurate: bool, wait: Duration },
    /// Pause and play the pipeline once, leave it paused or not, and try again.
    ResetPipeline(PipelineReset),
    /// The seek is over. The pipeline is to be playing, and is given time for it;
    /// or it may stay paused.
    Finish { ensure_playing: Option<Duration> },
    Fail(VideoError),
}

/// How a pipeline is reset.
#[derive(Debug, Clone, Copy, PartialEq, Eq, Structural)]
pub struct PipelineReset {
    /// Time to pause, and time to play after that.
    pub wait: Duration,
    /// Time to pause once more, where it is left paused.
    pub leave_paused: Option<Duration>,
    /// Rest before the next try.
    pub rest: Duration,
}

impl PipelineReset {
    #[verifier::allow_in_spec]
    pub fn new(leave_paused: bool) -> PipelineReset
        returns
            (PipelineReset {
                wait: Duration::from_millis(STATE_CHANGE_MS),
                leave_paused: if leave_paused {
                    Some(Duration::from_millis(PAUSE_AGAIN_MS))
                } else {
                    None::<Duration>
                },
                rest: Duration::from_millis(RESET_REST_MS),
            }),
    {
        PipelineReset {
            wait: Duration::from_millis(STATE_CHANGE_MS),
            leave_paused: if leave_paused {
                Some(Duration::from_millis(PAUSE_AGAIN_MS))
            } else {
                None
            },
            rest: Duration::from_millis(RESET_REST_MS),
        }
    }
}

impl SeekAction {
    #[verifier::allow_in_spec]
    pub fn listen() -> SeekAction
        returns
            (SeekAction::Listen { rest: Duration::from_millis(SEEK_REST_MS) }),
    {
        SeekAction::Listen { rest: Duration::from_millis(SEEK_REST_MS) }
    }

    /// The end of a seek: what plays is to play on.
    #[verifier::allow_in_spec]
    pub fn finish(user_paused: bool) -> SeekAction
        returns
            (SeekAction::Finish {
                ensure_playing: if user_paused {
                    None::<Duration>
                } else {
                    Some(Duration::from_millis(STATE_CHANGE_MS))
                },
            }),
    {
        SeekAction::Finish {
            ensure_playing: if user_paused {
                None
            } else {
                Some(Duration::from_millis(STATE_CHANGE_MS))
            },
        }
    }
}

/// How far a seek has come.
#[derive(Debug, Clone, Copy, PartialEq, Eq, Structural)]
pub enum SeekStage {
    /// Waiting for an earlier seek since the time given.
    PreviousSeek(Instant),
    /// Waiting for the stream to be buffered since the time given.
    Buffering(Instant),
    /// Trying for the time given, counted from nought.
    Attempt(u32),
    Over,
}

/// A seek under way.
#[derive(Debug, Clone, Copy, PartialEq, Eq, Structural)]
pub struct SeekRun {
    pub position: Duration,
    pub stage: SeekStage,
}

impl SeekRun {
    pub open spec fn wf(self) -> bool {
        self.stage matches SeekStage::Attempt(n) ==> n <= MAX_SEEK_RETRIES
    }

    /// The outcome where a try begins.
    pub open spec fn attempting(
        position: Duration,
        attempt: u32,
        before: ZeroCopyGStreamerDecoder,
        after: ZeroCopyGStreamerDecoder,
        run: SeekRun,
        action: SeekAction,
    ) -> bool {
        &&& after == (ZeroCopyGStreamerDecoder { head: before.head.seeking_to(position), ..before })
        &&& run == (SeekRun { position, stage: SeekStage::Attempt(attempt) })
        &&& action == (SeekAction::Seek {
            position,
            accurate: position.before(before.head.position),
            wait: Duration::from_millis(SEEK_ANSWER_MS),
        })
    }

    /// The outcome where it is looked whether the stream is buffered. A file on
    /// this machine never says so, and is not waited for.
    pub open spec fn buffering(
        position: Duration,
        since: Instant,
        now: Instant,
        before: ZeroCopyGStreamerDecoder,
        after: ZeroCopyGStreamerDecoder,
        run: SeekRun,
        action: SeekAction,
    ) -> bool {
        if before.head.buffering_percent < BUFFER_HIGH_THRESHOLD && !before.is_local_file
            && now.duration_since(since).before(Duration::from_millis(SEEK_BUFFERING_MS)) {
            &&& after == before
            &&& run == (SeekRun { position, stage: SeekStage::Buffering(since) })
            &&& action == SeekAction::listen()
        } else {
            Self::attempting(position, 0, before, after, run, action)
        }
    }

    /// The outcome where it is looked whether an earlier seek is over. One that
    /// takes too long is given up.
    pub open spec fn previous(
        position: Duration,
        since: Instant,
        now: Instant,
        before: ZeroCopyGStreamerDecoder,
        after: ZeroCopyGStreamerDecoder,
        run: SeekRun,
        action: SeekAction,
    ) -> bool {
        if before.head.seeking && now.duration_since(since).before(
            Duration::from_millis(PREVIOUS_SEEK_MS),
        ) {
            &&& after == before
            &&& run == (SeekRun { position, stage: SeekStage::PreviousSeek(since) })
            &&& action == SeekAction::listen()
        } else {
            Self::buffering(
                position,
                now,
                now,
                ZeroCopyGStreamerDecoder {
                    head: Playhead { seeking: false, ..before.head },
                    ..before
                },
                after,
                run,
                action,
            )
        }
    }

    fn attempt(decoder: &mut ZeroCopyGStreamerDecoder, position: Duration, attempt: u32) -> (step: (
        SeekRun,
        SeekAction,
    ))
        ensures
            Self::attempting(position, attempt, *old(decoder), *final(decoder), step.0, step.1),
    {
        decoder.head = decoder.head.seeking_to(position);
        (
            SeekRun { position, stage: SeekStage::Attempt(attempt) },
            SeekAction::Seek {
                position,
                accurate: decoder.head.last_seek_backward,
                wait: Duration::from_millis(SEEK_ANSWER_MS),
            },
        )
    }

    fn look_at_buffering(
        decoder: &mut ZeroCopyGStreamerDecoder,
        position: Duration,
        since: Instant,
        now: Instant,
    ) -> (step: (SeekRun, SeekAction))
        ensures
            Self::buffering(
                position,
                since,
                now,
                *old(decoder),
                *final(decoder),
                step.0,
                step.1,
            ),
    {
        if decoder.head.buffering_percent < BUFFER_HIGH_THRESHOLD && !decoder.is_local_file
            && now.duration_since(since).before(Duration::from_millis(SEEK_BUFFERING_MS)) {
            (SeekRun { position, stage: SeekStage::Buffering(since) }, SeekAction::listen())
        } else {
            Self::attempt(decoder, position, 0)
        }
    }

    fn look_at_previous(
        decoder: &mut ZeroCopyGStreamerDecoder,
        position: Duration,
        since: Instant,
        now: Instant,
    ) -> (step: (SeekRun, SeekAction))
        ensures
            Self::previous(position, since, now, *old(decoder), *final(decoder), step.0, step.1),
    {
        if decoder.head.seeking && now.duration_since(since).before(
            Duration::from_millis(PREVIOUS_SEEK_MS),
        ) {
            return (
                SeekRun { position, stage: SeekStage::PreviousSeek(since) },
                SeekAction::listen(),
            );
        }
        decoder.head.seeking = false;
        Self::look_at_buffering(decoder, position, now, now)
    }

    /// Begins a seek.
    pub fn begin(decoder: &mut ZeroCopyGStreamerDecoder, position: Duration, now: Instant) -> (step:
        (SeekRun, SeekAction))
        ensures
            step.0.wf(),
            Self::previous(position, now, now, *old(decoder), *final(decoder), step.0, step.1),
    {
        Self::look_at_previous(decoder, position, now, now)
    }

    /// Looks again after having heard what the pipeline says.
    pub fn listened(self, decoder: &mut ZeroCopyGStreamerDecoder, now: Instant) -> (step: (
        SeekRun,
        SeekAction,
    ))
        requires
            self.stage is PreviousSeek || self.stage is Buffering,
        ensures
            step.0.wf(),
            match self.stage {
                SeekStage::PreviousSeek(since) => Self::previous(
                    self.position,
                    since,
                    now,
                    *old(decoder),
                    *final(decoder),
                    step.0,
                    step.1,
                ),
                SeekStage::Buffering(since) => Self::buffering(
                    self.position,
                    since,
                    now,
                    *old(decoder),
                    *final(decoder),
                    step.0,
                    step.1,
                ),
                _ => true,
            },
    {
        match self.stage {
            SeekStage::PreviousSeek(since) => Self::look_at_previous(
                decoder,
                self.position,
                since,
                now,
            ),
            SeekStage::Buffering(since) => Self::look_at_buffering(
                decoder,
                self.position,
                since,
                now,
            ),
            _ => (self, SeekAction::listen()),
        }
    }

    /// The error that an answer of the pipeline means, where it means one.
    pub open spec fn complaint(reply: SeekReply) -> Option<Seq<char>> {
        match reply {
            SeekReply::Refused(cause) => Some("Seek failed: "@ + cause@),
            SeekReply::Error(cause) => Some("Seek error: "@ + cause@),
            SeekReply::TimedOut => Some("Seek timed out"@),
            SeekReply::Done | SeekReply::NoAnswer => None,
        }
    }

    /// Takes in the answer of the pipeline to a try. A try that failed is made
    /// again, up to the limit.
    pub fn replied(self, decoder: &mut ZeroCopyGStreamerDecoder, reply: SeekReply, now: Instant) -> (
        step: (SeekRun, SeekAction))
        requires
            self.wf(),
            self.stage is Attempt,
        ensures
            step.0.wf(),
            step.0.position == self.position,
            ({
                let head = if reply is NoAnswer {
                    old(decoder).head
                } else {
                    old(decoder).head.not_seeking()
                };
                let attempt = self.stage->Attempt_0;
                match Self::complaint(reply) {
                    None => {
                        &&& *final(decoder) == (ZeroCopyGStreamerDecoder {
                            head: head.arrived(self.position, now),
                            ..*old(decoder)
                        })
                        &&& step.0.stage == SeekStage::Over
                        &&& step.1 == SeekAction::finish(head.user_paused)
                    },
                    Some(message) => {
                        &&& *final(decoder) == (ZeroCopyGStreamerDecoder { head, ..*old(decoder) })
                        &&& if attempt < MAX_SEEK_RETRIES {
                            &&& step.0.stage == SeekStage::Attempt((attempt + 1) as u32)
                            &&& step.1 == SeekAction::ResetPipeline(
                                PipelineReset::new(head.user_paused),
                            )
                        } else {
                            &&& step.0.stage == SeekStage::Over
                            &&& step.1 is Fail
                            &&& step.1->Fail_0 is SeekFailed
                            &&& step.1->Fail_0->SeekFailed_0@ == message
                        }
                    },
                }
            }),
    {
        let attempt: u32 = match self.stage {
            SeekStage::Attempt(attempt) => attempt,
            _ => 0,
        };
        let complaint: Option<String> = match reply {
            SeekReply::Refused(cause) => {
                decoder.head = decoder.head.not_seeking();
                Some("Seek failed: ".to_owned().concat(cause.as_str()))
            },
            SeekReply::Error(cause) => {
                decoder.head = decoder.head.not_seeking();
                Some("Seek error: ".to_owned().concat(cause.as_str()))
            },
            SeekReply::TimedOut => {
                decoder.head = decoder.head.not_seeking();
                Some("Seek timed out".to_owned())
            },
            SeekReply::Done => {
                decoder.head = decoder.head.not_seeking();
                None
            },
            SeekReply::NoAnswer => None,
        };
        match complaint {
            None => {
                decoder.head = decoder.head.arrived(self.position, now);
                (
                    SeekRun { position: self.position, stage: SeekStage::Over },
                    SeekAction::finish(decoder.head.user_paused),
                )
            },
            Some(message) => {
                if attempt < MAX_SEEK_RETRIES {
                    (
                        SeekRun {
                            position: self.position,
                            stage: SeekStage::Attempt(attempt + 1),
                        },
                        SeekAction::ResetPipeline(PipelineReset::new(decoder.head.user_paused)),
                    )
                } else {
                    (
                        SeekRun { position: self.position, stage: SeekStage::Over },
                        SeekAction::Fail(VideoError::SeekFailed(message)),
                    )
                }
            },
        }
    }

    /// Tries again once the pipeline is reset.
    pub fn reset_done(self, decoder: &mut ZeroCopyGStreamerDecoder) -> (step: (SeekRun, SeekAction))
        requires
            self.wf(),
            self.stage is Attempt,
        ensures
            step.0.wf(),
            Self::attempting(
                self.position,
                self.stage->Attempt_0,
                *old(decoder),
                *final(decoder),
                step.0,
                step.1,
            ),
    {
        let attempt: u32 = match self.stage {
            SeekStage::Attempt(attempt) => attempt,
            _ => 0,
        };
        Self::attempt(decoder, self.position, attempt)
    }
}

/// What a pipeline says while it starts.
#[derive(Debug, PartialEq, Eq)]
pub enum InitMessage {
    /// The pipeline is ready, and knows the duration or not.
    AsyncDone(Option<Duration>),
    Error(String),
    Buffering(i32),
    Other,
}

/// What a message of a starting pipeline leads to.
#[derive(Debug, PartialEq, Eq)]
pub enum InitStep {
    GoOn,
    Settled,
    Failed(VideoError),
}

/// A frame rate as a stream names it.
#[derive(Debug, Clone, Copy, PartialEq, Eq, Structural)]
pub struct RateFact {
    pub denominator: i32,
    /// The bits of the quotient as a 32-bit float.
    pub bits: u32,
}

/// What the format of a stream says.
#[derive(Debug, Clone, Copy, PartialEq, Eq, Structural)]
pub struct CapsFacts {
    pub width: Option<i32>,
    pub height: Option<i32>,
    pub rate: Option<RateFact>,
}

impl CapsFacts {
    /// A size, where it is given.
    pub open spec fn size(given: Option<i32>) -> u32 {
        match given {
            Some(size) => size as u32,
            None => 0,
        }
    }

    fn size_of(given: Option<i32>) -> (size: u32)
        ensures
            size == Self::size(given),
    {
        match given {
            Some(size) => #[verifier::truncate] (size as u32),
            None => 0,
        }
    }

    /// The frame rate, where it is one.
    #[verifier::allow_in_spec]
    pub fn rate_bits(self, default: u32) -> u32
        returns
            (match self.rate {
                Some(rate) => if rate.denominator != 0 {
                    rate.bits
                } else {
                    default
                },
                None => default,
            }),
    {
        match self.rate {
            Some(rate) => if rate.denominator != 0 {
                rate.bits
            } else {
                default
            },
            None => default,
        }
    }
}

/// What is known of a pipeline that starts.
#[derive(Debug, Clone, Copy, PartialEq, Eq, Structural)]
pub struct PipelineInit {
    pub width: u32,
    pub height: u32,
    pub duration: Option<Duration>,
    pub buffering_percent: i32,
    pub rate_bits: u32,
}

impl PipelineInit {
    #[verifier::allow_in_spec]
    pub fn new() -> PipelineInit
        returns
            (PipelineInit {
                width: 0,
                height: 0,
                duration: None::<Duration>,
                buffering_percent: 0,
                rate_bits: DEFAULT_RATE_BITS,
            }),
    {
        PipelineInit {
            width: 0,
            height: 0,
            duration: None,
            buffering_percent: 0,
            rate_bits: DEFAULT_RATE_BITS,
        }
    }

    /// What is known before and after a message.
    pub open spec fn heard(self, message: InitMessage, after: PipelineInit, step: InitStep) -> bool {
        match message {
            InitMessage::AsyncDone(duration) => {
                &&& step == InitStep::Settled
                &&& after == (PipelineInit {
                    duration: if duration is Some {
                        duration
                    } else {
                        self.duration
                    },
                    ..self
                })
            },
            InitMessage::Error(cause) => {
                &&& step is Failed
                &&& step->Failed_0 is DecoderInit
                &&& step->Failed_0->DecoderInit_0@ == "Pipeline error: "@ + cause@
                &&& after == self
            },
            InitMessage::Buffering(percent) => {
                &&& step == InitStep::GoOn
                &&& after == (PipelineInit { buffering_percent: percent, ..self })
            },
            InitMessage::Other => step == InitStep::GoOn && after == self,
        }
    }

    /// Hears what the pipeline says until it is ready.
    pub fn hear(&mut self, message: InitMessage) -> (step: InitStep)
        ensures
            old(self).heard(message, *final(self), step),
    {
        match message {
            InitMessage::AsyncDone(duration) => {
                if duration.is_some() {
                    self.duration = duration;
                }
                InitStep::Settled
            },
            InitMessage::Error(cause) => InitStep::Failed(
                VideoError::DecoderInit("Pipeline error: ".to_owned().concat(cause.as_str())),
            ),
            InitMessage::Buffering(percent) => {
                self.buffering_percent = percent;
                InitStep::GoOn
            },
            InitMessage::Other => InitStep::GoOn,
        }
    }

    /// What the format that the sink has agreed on adds.
    pub open spec fn negotiated(self, caps: Option<CapsFacts>) -> PipelineInit {
        match caps {
            Some(caps) => PipelineInit {
                width: CapsFacts::size(caps.width),
                height: CapsFacts::size(caps.height),
                rate_bits: caps.rate_bits(self.rate_bits),
                ..self
            },
            None => self,
        }
    }

    pub fn note_negotiated(&mut self, caps: Option<CapsFacts>)
        ensures
            *final(self) == old(self).negotiated(caps),
    {
        if let Some(caps) = caps {
            self.width = CapsFacts::size_of(caps.width);
            self.height = CapsFacts::size_of(caps.height);
            self.rate_bits = caps.rate_bits(self.rate_bits);
        }
    }

    /// What the format of the first frame adds, where the size is not known yet.
    pub open spec fn prerolled(self, caps: Option<CapsFacts>) -> PipelineInit {
        match caps {
            Some(caps) if self.width == 0 || self.height == 0 => PipelineInit {
                width: if self.width == 0 {
                    CapsFacts::size(caps.width)
                } else {
                    self.width
                },
                height: if self.height == 0 {
                    CapsFacts::size(caps.height)
                } else {
                    self.height
                },
                rate_bits: if self.rate_bits == DEFAULT_RATE_BITS {
                    caps.rate_bits(self.rate_bits)
                } else {
                    self.rate_bits
                },
                ..self
            },
            _ => self,
        }
    }

    pub fn note_preroll(&mut self, caps: Option<CapsFacts>)
        ensures
            *final(self) == old(self).prerolled(caps),
    {
        if self.width == 0 || self.height == 0 {
            if let Some(caps) = caps {
                if self.width == 0 {
                    self.width = CapsFacts::size_of(caps.width);
                }
                if self.height == 0 {
                    self.height = CapsFacts::size_of(caps.height);
                }
                if self.rate_bits == DEFAULT_RATE_BITS {
                    self.rate_bits = caps.rate_bits(self.rate_bits);
                }
            }
        }
    }

    /// What the start-up has come to.
    pub open spec fn finished(
        self,
        url: Seq<char>,
        mode: PipelineMode,
        codec: String,
        audio_handle: GstAudioHandle,
        preroll: bool,
        decoder: Result<ZeroCopyGStreamerDecoder, VideoError>,
    ) -> bool {
        if self.width == 0 || self.height == 0 {
            &&& decoder is Err
            &&& decoder->Err_0 is DecoderInit
            &&& decoder->Err_0->DecoderInit_0@ == "Could not determine video dimensions"@
        } else {
            let local = occurs_at(url, "file://"@, 0);
            decoder == Ok::<ZeroCopyGStreamerDecoder, VideoError>(
                ZeroCopyGStreamerDecoder {
                    metadata: VideoMetadata {
                        width: self.width,
                        height: self.height,
                        duration: self.duration,
                        frame_rate_bits: self.rate_bits,
                        codec,
                        pixel_aspect_ratio_bits: ONE_BITS,
                        start_time: None,
                    },
                    head: Playhead::at_start(
                        preroll,
                        if local {
                            100
                        } else {
                            self.buffering_percent
                        },
                    ),
                    pending_error: None,
                    audio_handle,
                    mode,
                    metrics: if mode == PipelineMode::CpuCopy {
                        ZeroCopyMetrics {
                            zero_copy_frames: 0,
                            fallback_frames: 1,
                            logged_fallback: true,
                        }
                    } else {
                        ZeroCopyMetrics::new()
                    },
                    is_local_file: local,
                },
            )
        }
    }

    /// Ends the start-up. A pipeline whose size is not known is of no use.
    pub fn finish(
        self,
        url: &str,
        mode: PipelineMode,
        codec: String,
        audio_handle: GstAudioHandle,
        preroll: bool,
    ) -> (decoder: Result<ZeroCopyGStreamerDecoder, VideoError>)
        ensures
            self.finished(url@, mode, codec, audio_handle, preroll, decoder),
    {
        if self.width == 0 || self.height == 0 {
            return Err(VideoError::DecoderInit("Could not determine video dimensions".to_owned()));
        }
        let is_local_file: bool = is_local_file(url);
        let mut metrics: ZeroCopyMetrics = ZeroCopyMetrics::new();
        if mode == PipelineMode::CpuCopy {
            let _ = metrics.record_fallback();
        }
        Ok(
            ZeroCopyGStreamerDecoder {
                metadata: VideoMetadata {
                    width: self.width,
                    height: self.height,
                    duration: self.duration,
                    frame_rate_bits: self.rate_bits,
                    codec,
                    pixel_aspect_ratio_bits: ONE_BITS,
                    start_time: None,
                },
                head: Playhead::at_start(
                    preroll,
                    if is_local_file {
                        100
                    } else {
                        self.buffering_percent
                    },
                ),
                pending_error: None,
                audio_handle,
                mode,
                metrics,
                is_local_file,
            },
        )
    }
}

} // verus!
