//! How well video keeps to audio: drift, stalls, recoveries and frame rate.

use crate::text::{decimal, decimal_digits, plus_decimal, plus_digits};
use crate::time::Duration;
use crate::wrapping::lemma_wraps_on;
use vstd::arithmetic::div_mod::lemma_small_mod;
use vstd::prelude::*;
use vstd::string::StringExecFns;

verus! {

/// Drift that is still acceptable when streaming.
pub const SYNC_DRIFT_THRESHOLD_MS: i64 = 100;

/// Drift that is noticeable.
pub const SYNC_DRIFT_WARNING_MS: i64 = 150;

/// Drift that is clearly out of sync.
pub const SYNC_DRIFT_SEVERE_MS: i64 = 200;

/// Samples that a sync test needs before it can pass.
pub const MIN_SYNC_SAMPLES: u64 = 10;

/// Share of samples, in percent, from which a sync test fails.
pub const MAX_OUT_OF_SYNC_PERCENT: u64 = 5;

/// Shortest window over which a frame rate is measured.
pub const FPS_WINDOW_US: u64 = 500_000;

/// Why frames did not come.
#[derive(Debug, Clone, Copy, PartialEq, Eq, Structural)]
pub enum StallType {
    /// The decoder could not produce them.
    Decode,
    /// The network did not deliver them.
    Network,
}

/// The absolute value of a signed count.
#[verifier::allow_in_spec]
pub fn magnitude(x: i64) -> u64
    returns
        (if x < 0 {
            -x
        } else {
            x as int
        }) as u64,
{
    if x >= 0 {
        x as u64
    } else if x == i64::MIN {
        0x8000_0000_0000_0000
    } else {
        (-x) as u64
    }
}

/// The product, or the largest count where it is larger than that.
#[verifier::allow_in_spec]
pub fn saturating_product(x: u64, y: u64) -> u64
    returns
        (if x * y > u64::MAX {
            u64::MAX as int
        } else {
            x * y
        }) as u64,
{
    match x.checked_mul(y) {
        Some(z) => z,
        None => u64::MAX,
    }
}

/// The quotient, or zero where the divisor is zero.
#[verifier::allow_in_spec]
pub fn quotient_or_zero(x: u64, y: u64) -> u64
    returns
        (if y == 0 {
            0
        } else {
            x / y
        }),
{
    if y == 0 {
        0
    } else {
        x / y
    }
}

/// Milliseconds of a signed microsecond count, rounded toward zero.
#[verifier::allow_in_spec]
pub fn millis_of(us: i64) -> i64
    returns
        (if us < 0 {
            -(-us as int / 1000)
        } else {
            us as int / 1000
        }) as i64,
{
    let whole: i64 = (magnitude(us) / 1000) as i64;
    if us < 0 {
        -whole
    } else {
        whole
    }
}

/// A share of a whole.
#[derive(Debug, Clone, Copy, PartialEq, Eq, Structural)]
pub struct Share {
    pub part: u64,
    /// Zero where there is nothing to have a share of; the share is then zero.
    pub whole: u128,
}

/// Counters of one playback session. There is one of these for a session, which is
/// borrowed; [`SyncMetrics::snapshot`] is what can be kept.
#[derive(Debug, PartialEq, Eq, Structural)]
pub struct SyncMetrics {
    pub enabled: bool,
    /// Video minus audio: positive where video is ahead.
    pub current_drift_us: i64,
    pub max_drift_ahead_us: i64,
    pub max_drift_behind_us: i64,
    /// Sum of the absolute drifts.
    pub total_drift_us: u64,
    pub sample_count: u64,
    pub out_of_sync_count: u64,
    pub last_video_pts_us: u64,
    pub last_audio_pos_us: u64,
    pub using_audio_clock: bool,
    pub start_time_us: u64,
    pub underrun_count: u64,
    pub last_underrun_time_us: u64,
    pub stall_count: u64,
    pub decode_stall_count: u64,
    pub network_stall_count: u64,
    pub in_recovery: bool,
    pub recovery_samples: u64,
    pub recovery_total_drift_us: u64,
    pub recovery_start_time_us: u64,
    pub total_recovery_time_us: u64,
    pub recovery_count: u64,
    pub recovery_out_of_sync_count: u64,
    pub stream_pts_offset_us: i64,
    pub fps_window_start_us: u64,
    pub fps_window_frames: u64,
    /// Frames per hundred seconds.
    pub current_fps_x100: u64,
    /// Samples to come whose drift is not shown.
    pub grace_samples: u64,
    /// A native player keeps audio and video together by itself.
    pub sync_externally_managed: bool,
}

/// A reading of [`SyncMetrics`] with the averages worked out.
#[derive(Debug, Clone, Copy, PartialEq, Eq, Structural)]
pub struct SyncMetricsSnapshot {
    pub current_drift_us: i64,
    pub max_drift_ahead_us: i64,
    pub max_drift_behind_us: i64,
    pub avg_drift_us: i64,
    pub sample_count: u64,
    pub out_of_sync_count: u64,
    pub last_video_pts: Duration,
    pub last_audio_pos: Duration,
    pub using_audio_clock: bool,
    pub underrun_count: u64,
    pub stall_count: u64,
    pub decode_stall_count: u64,
    pub network_stall_count: u64,
    pub in_recovery: bool,
    pub recovery_samples: u64,
    pub recovery_avg_drift_us: i64,
    pub recovery_count: u64,
    pub total_recovery_time_us: u64,
    pub time_since_last_underrun_us: u64,
    /// Samples outside of recovery.
    pub steady_samples: u64,
    pub steady_avg_drift_us: i64,
    pub steady_out_of_sync_count: u64,
    pub stream_pts_offset_us: i64,
    pub current_fps_x100: u64,
    pub sync_externally_managed: bool,
}

/// True where a drift counts as out of sync: it exceeds the threshold, be it by a
/// microsecond.
pub open spec fn drift_is_out_of_sync(drift_us: i64) -> bool {
    magnitude(drift_us) > SYNC_DRIFT_THRESHOLD_MS * 1000
}

impl SyncMetrics {
    /// A tracker that has seen nothing.
    pub open spec fn fresh() -> SyncMetrics {
        SyncMetrics {
            enabled: true,
            current_drift_us: 0,
            max_drift_ahead_us: 0,
            max_drift_behind_us: 0,
            total_drift_us: 0,
            sample_count: 0,
            out_of_sync_count: 0,
            last_video_pts_us: 0,
            last_audio_pos_us: 0,
            using_audio_clock: false,
            start_time_us: 0,
            underrun_count: 0,
            last_underrun_time_us: 0,
            stall_count: 0,
            decode_stall_count: 0,
            network_stall_count: 0,
            in_recovery: false,
            recovery_samples: 0,
            recovery_total_drift_us: 0,
            recovery_start_time_us: 0,
            total_recovery_time_us: 0,
            recovery_count: 0,
            recovery_out_of_sync_count: 0,
            stream_pts_offset_us: 0,
            fps_window_start_us: 0,
            fps_window_frames: 0,
            current_fps_x100: 0,
            grace_samples: 0,
            sync_externally_managed: false,
        }
    }

    /// What a reset keeps: the switches and the stream offset.
    pub open spec fn after_reset(self, unix_us: u64) -> SyncMetrics {
        SyncMetrics {
            enabled: self.enabled,
            using_audio_clock: self.using_audio_clock,
            stream_pts_offset_us: self.stream_pts_offset_us,
            start_time_us: unix_us,
            ..SyncMetrics::fresh()
        }
    }

    /// The frame-rate window after one more frame.
    pub open spec fn after_fps_tick(self, unix_us: u64) -> SyncMetrics {
        let elapsed_us = if unix_us < self.fps_window_start_us {
            0
        } else {
            (unix_us - self.fps_window_start_us) as u64
        };
        let frames = self.fps_window_frames.wrapping_add(1);
        if self.fps_window_start_us == 0 {
            SyncMetrics { fps_window_start_us: unix_us, fps_window_frames: 1, ..self }
        } else if elapsed_us >= FPS_WINDOW_US {
            SyncMetrics {
                fps_window_start_us: unix_us,
                fps_window_frames: 0,
                current_fps_x100: quotient_or_zero(
                    saturating_product(frames, 100_000_000),
                    elapsed_us,
                ),
                ..self
            }
        } else {
            SyncMetrics { fps_window_frames: frames, ..self }
        }
    }

    /// The drift counters after one sample, the frame rate aside.
    pub open spec fn after_drift(self, video_pts: Duration, audio_position: Duration) -> SyncMetrics {
        let drift = video_pts.micros_i64().wrapping_sub(audio_position.micros_i64());
        let shown = self.grace_samples == 0;
        let out = drift_is_out_of_sync(drift);
        SyncMetrics {
            grace_samples: (if shown {
                0
            } else {
                (self.grace_samples - 1) as u64
            }),
            current_drift_us: (if shown {
                drift
            } else {
                self.current_drift_us
            }),
            max_drift_ahead_us: (if shown && drift > 0 && drift > self.max_drift_ahead_us {
                drift
            } else {
                self.max_drift_ahead_us
            }),
            max_drift_behind_us: (if shown && drift <= 0 && drift < self.max_drift_behind_us {
                drift
            } else {
                self.max_drift_behind_us
            }),
            last_video_pts_us: video_pts.micros_u64(),
            last_audio_pos_us: audio_position.micros_u64(),
            total_drift_us: self.total_drift_us.wrapping_add(magnitude(drift)),
            sample_count: self.sample_count.wrapping_add(1),
            out_of_sync_count: (if out {
                self.out_of_sync_count.wrapping_add(1)
            } else {
                self.out_of_sync_count
            }),
            recovery_samples: (if self.in_recovery {
                self.recovery_samples.wrapping_add(1)
            } else {
                self.recovery_samples
            }),
            recovery_total_drift_us: (if self.in_recovery {
                self.recovery_total_drift_us.wrapping_add(magnitude(drift))
            } else {
                self.recovery_total_drift_us
            }),
            recovery_out_of_sync_count: (if self.in_recovery && out {
                self.recovery_out_of_sync_count.wrapping_add(1)
            } else {
                self.recovery_out_of_sync_count
            }),
            ..self
        }
    }

    /// The tracker after a frame at `video_pts` was shown while audio stood at
    /// `audio_position`.
    pub open spec fn after_frame(
        self,
        video_pts: Duration,
        audio_position: Duration,
        unix_us: u64,
    ) -> SyncMetrics {
        if !self.enabled {
            self
        } else {
            self.after_drift(video_pts, audio_position).after_fps_tick(unix_us)
        }
    }

    pub open spec fn after_underrun(self, unix_us: u64) -> SyncMetrics {
        if !self.enabled {
            self
        } else {
            SyncMetrics {
                underrun_count: self.underrun_count.wrapping_add(1),
                last_underrun_time_us: unix_us,
                ..self
            }
        }
    }

    pub open spec fn after_stall(self, stall_type: StallType) -> SyncMetrics {
        if !self.enabled {
            self
        } else {
            SyncMetrics {
                stall_count: self.stall_count.wrapping_add(1),
                decode_stall_count: (if stall_type is Decode {
                    self.decode_stall_count.wrapping_add(1)
                } else {
                    self.decode_stall_count
                }),
                network_stall_count: (if stall_type is Network {
                    self.network_stall_count.wrapping_add(1)
                } else {
                    self.network_stall_count
                }),
                ..self
            }
        }
    }

    pub open spec fn after_recovery_start(self, unix_us: u64) -> SyncMetrics {
        if !self.enabled || self.in_recovery {
            self
        } else {
            SyncMetrics { in_recovery: true, recovery_start_time_us: unix_us, ..self }
        }
    }

    pub open spec fn after_recovery_end(self, unix_us: u64) -> SyncMetrics {
        if !self.enabled || !self.in_recovery {
            self
        } else {
            let took = if unix_us < self.recovery_start_time_us {
                0
            } else {
                (unix_us - self.recovery_start_time_us) as u64
            };
            SyncMetrics {
                in_recovery: false,
                total_recovery_time_us: self.total_recovery_time_us.wrapping_add(took),
                recovery_count: self.recovery_count.wrapping_add(1),
                ..self
            }
        }
    }

    /// Recovery counters never exceed the counters they are a part of.
    pub open spec fn parts_within_totals(self) -> bool {
        &&& self.recovery_samples <= self.sample_count
        &&& self.recovery_out_of_sync_count <= self.out_of_sync_count
        &&& self.recovery_total_drift_us <= self.total_drift_us
        &&& self.out_of_sync_count <= self.sample_count
    }

    pub fn new() -> (m: Self)
        ensures
            m == SyncMetrics::fresh(),
            m.parts_within_totals(),
    {
        SyncMetrics {
            enabled: true,
            current_drift_us: 0,
            max_drift_ahead_us: 0,
            max_drift_behind_us: 0,
            total_drift_us: 0,
            sample_count: 0,
            out_of_sync_count: 0,
            last_video_pts_us: 0,
            last_audio_pos_us: 0,
            using_audio_clock: false,
            start_time_us: 0,
            underrun_count: 0,
            last_underrun_time_us: 0,
            stall_count: 0,
            decode_stall_count: 0,
            network_stall_count: 0,
            in_recovery: false,
            recovery_samples: 0,
            recovery_total_drift_us: 0,
            recovery_start_time_us: 0,
            total_recovery_time_us: 0,
            recovery_count: 0,
            recovery_out_of_sync_count: 0,
            stream_pts_offset_us: 0,
            fps_window_start_us: 0,
            fps_window_frames: 0,
            current_fps_x100: 0,
            grace_samples: 0,
            sync_externally_managed: false,
        }
    }

    pub fn set_enabled(&mut self, enabled: bool)
        ensures
            *final(self) == (SyncMetrics { enabled, ..*old(self) }),
    {
        self.enabled = enabled;
    }

    pub fn is_enabled(&self) -> (enabled: bool)
        ensures
            enabled == self.enabled,
    {
        self.enabled
    }

    pub fn set_using_audio_clock(&mut self, using: bool)
        ensures
            *final(self) == (SyncMetrics { using_audio_clock: using, ..*old(self) }),
    {
        self.using_audio_clock = using;
    }

    pub fn set_sync_externally_managed(&mut self, managed: bool)
        ensures
            *final(self) == (SyncMetrics { sync_externally_managed: managed, ..*old(self) }),
    {
        self.sync_externally_managed = managed;
    }

    pub fn is_sync_externally_managed(&self) -> (managed: bool)
        ensures
            managed == self.sync_externally_managed,
    {
        self.sync_externally_managed
    }

    pub fn set_stream_pts_offset(&mut self, offset_us: i64)
        ensures
            *final(self) == (SyncMetrics { stream_pts_offset_us: offset_us, ..*old(self) }),
    {
        self.stream_pts_offset_us = offset_us;
    }

    pub fn stream_pts_offset_us(&self) -> (offset_us: i64)
        ensures
            offset_us == self.stream_pts_offset_us,
    {
        self.stream_pts_offset_us
    }

    /// Takes one sample of the drift, and returns by how much video is ahead.
    ///
    /// During a grace period the sample is counted but not shown.
    pub fn record_frame(
        &mut self,
        video_pts: Duration,
        audio_position: Duration,
        unix_us: u64,
    ) -> (ahead: Duration)
        ensures
            *final(self) == old(self).after_frame(video_pts, audio_position, unix_us),
            ahead == ({
                let drift = video_pts.micros_i64().wrapping_sub(audio_position.micros_i64());
                if old(self).enabled && drift > 0 {
                    Duration::from_micros(drift as u64)
                } else {
                    Duration::zero()
                }
            }),
    {
        if !self.enabled {
            return Duration::zero();
        }
        let video_us: i64 = video_pts.micros_i64();
        let audio_us: i64 = audio_position.micros_i64();
        let drift_us: i64 = video_us.wrapping_sub(audio_us);
        let in_grace: bool = self.grace_samples > 0;
        if in_grace {
            self.grace_samples = self.grace_samples - 1;
        } else {
            self.current_drift_us = drift_us;
            if drift_us > 0 {
                if drift_us > self.max_drift_ahead_us {
                    self.max_drift_ahead_us = drift_us;
                }
            } else if drift_us < self.max_drift_behind_us {
                self.max_drift_behind_us = drift_us;
            }
        }
        self.last_video_pts_us = video_pts.micros_u64();
        self.last_audio_pos_us = audio_position.micros_u64();
        let size: u64 = magnitude(drift_us);
        self.total_drift_us = self.total_drift_us.wrapping_add(size);
        self.sample_count = self.sample_count.wrapping_add(1);
        let out_of_sync: bool = size > SYNC_DRIFT_THRESHOLD_MS as u64 * 1000;
        if self.in_recovery {
            self.recovery_samples = self.recovery_samples.wrapping_add(1);
            self.recovery_total_drift_us = self.recovery_total_drift_us.wrapping_add(size);
            if out_of_sync {
                self.recovery_out_of_sync_count = self.recovery_out_of_sync_count.wrapping_add(1);
            }
        }
        if out_of_sync {
            self.out_of_sync_count = self.out_of_sync_count.wrapping_add(1);
        }
        self.update_fps_tracking(unix_us);
        if drift_us >= 0 {
            Duration::from_micros(drift_us as u64)
        } else {
            Duration::zero()
        }
    }

    /// Counts one frame toward the frame rate.
    pub fn update_fps_tracking(&mut self, unix_us: u64)
        ensures
            *final(self) == old(self).after_fps_tick(unix_us),
    {
        let window_start: u64 = self.fps_window_start_us;
        if window_start == 0 {
            self.fps_window_start_us = unix_us;
            self.fps_window_frames = 1;
            return;
        }
        let elapsed_us: u64 = unix_us.saturating_sub(window_start);
        let frames: u64 = self.fps_window_frames.wrapping_add(1);
        self.fps_window_frames = frames;
        if elapsed_us >= FPS_WINDOW_US {
            self.current_fps_x100 =
            quotient_or_zero(saturating_product(frames, 100_000_000), elapsed_us);
            self.fps_window_start_us = unix_us;
            self.fps_window_frames = 0;
        }
    }

    /// The frame rate that was measured last, in frames per hundred seconds.
    pub fn current_fps_x100(&self) -> (fps: u64)
        ensures
            fps == self.current_fps_x100,
    {
        self.current_fps_x100
    }

    pub fn record_underrun(&mut self, unix_us: u64)
        ensures
            *final(self) == old(self).after_underrun(unix_us),
    {
        if self.enabled {
            self.underrun_count = self.underrun_count.wrapping_add(1);
            self.last_underrun_time_us = unix_us;
        }
    }

    pub fn record_stall(&mut self, stall_type: StallType)
        ensures
            *final(self) == old(self).after_stall(stall_type),
    {
        if self.enabled {
            self.stall_count = self.stall_count.wrapping_add(1);
            match stall_type {
                StallType::Decode => {
                    self.decode_stall_count = self.decode_stall_count.wrapping_add(1);
                },
                StallType::Network => {
                    self.network_stall_count = self.network_stall_count.wrapping_add(1);
                },
            }
        }
    }

    /// Samples from here on count toward the recovery.
    pub fn start_recovery(&mut self, unix_us: u64)
        ensures
            *final(self) == old(self).after_recovery_start(unix_us),
    {
        if self.enabled && !self.in_recovery {
            self.in_recovery = true;
            self.recovery_start_time_us = unix_us;
        }
    }

    pub fn end_recovery(&mut self, unix_us: u64)
        ensures
            *final(self) == old(self).after_recovery_end(unix_us),
    {
        if self.enabled && self.in_recovery {
            self.in_recovery = false;
            let took: u64 = unix_us.saturating_sub(self.recovery_start_time_us);
            self.total_recovery_time_us = self.total_recovery_time_us.wrapping_add(took);
            self.recovery_count = self.recovery_count.wrapping_add(1);
        }
    }

    pub fn is_in_recovery(&self) -> (in_recovery: bool)
        ensures
            in_recovery == self.in_recovery,
    {
        self.in_recovery
    }

    pub fn underrun_count(&self) -> (count: u64)
        ensures
            count == self.underrun_count,
    {
        self.underrun_count
    }

    pub fn stall_count(&self) -> (count: u64)
        ensures
            count == self.stall_count,
    {
        self.stall_count
    }

    /// Forgets what was measured. The switches and the stream offset, which
    /// are set from outside, stay.
    pub fn reset(&mut self, unix_us: u64)
        ensures
            *final(self) == old(self).after_reset(unix_us),
    {
        let mut next = SyncMetrics::new();
        next.enabled = self.enabled;
        next.using_audio_clock = self.using_audio_clock;
        next.stream_pts_offset_us = self.stream_pts_offset_us;
        next.start_time_us = unix_us;
        *self = next;
    }

    /// Keeps the drift of the next `samples` samples out of sight, so that the
    /// spikes after a seek do not stick.
    pub fn set_grace_period(&mut self, samples: u64)
        ensures
            *final(self) == (SyncMetrics { grace_samples: samples, ..*old(self) }),
    {
        self.grace_samples = samples;
    }

    pub open spec fn spec_snapshot(self, unix_us: u64) -> SyncMetricsSnapshot {
        let steady_samples = if self.sample_count < self.recovery_samples {
            0
        } else {
            (self.sample_count - self.recovery_samples) as u64
        };
        let steady_total = if self.total_drift_us < self.recovery_total_drift_us {
            0
        } else {
            (self.total_drift_us - self.recovery_total_drift_us) as u64
        };
        SyncMetricsSnapshot {
            current_drift_us: self.current_drift_us,
            max_drift_ahead_us: self.max_drift_ahead_us,
            max_drift_behind_us: self.max_drift_behind_us,
            avg_drift_us: #[verifier::truncate] (quotient_or_zero(
                self.total_drift_us,
                self.sample_count,
            ) as i64),
            sample_count: self.sample_count,
            out_of_sync_count: self.out_of_sync_count,
            last_video_pts: Duration::from_micros(self.last_video_pts_us),
            last_audio_pos: Duration::from_micros(self.last_audio_pos_us),
            using_audio_clock: self.using_audio_clock,
            underrun_count: self.underrun_count,
            stall_count: self.stall_count,
            decode_stall_count: self.decode_stall_count,
            network_stall_count: self.network_stall_count,
            in_recovery: self.in_recovery,
            recovery_samples: self.recovery_samples,
            recovery_avg_drift_us: #[verifier::truncate] (quotient_or_zero(
                self.recovery_total_drift_us,
                self.recovery_samples,
            ) as i64),
            recovery_count: self.recovery_count,
            total_recovery_time_us: self.total_recovery_time_us,
            time_since_last_underrun_us: (if self.last_underrun_time_us == 0 || unix_us
                < self.last_underrun_time_us {
                0
            } else {
                (unix_us - self.last_underrun_time_us) as u64
            }),
            steady_samples,
            steady_avg_drift_us: #[verifier::truncate] (quotient_or_zero(
                steady_total,
                steady_samples,
            ) as i64),
            steady_out_of_sync_count: (if self.out_of_sync_count < self.recovery_out_of_sync_count {
                0
            } else {
                (self.out_of_sync_count - self.recovery_out_of_sync_count) as u64
            }),
            stream_pts_offset_us: self.stream_pts_offset_us,
            current_fps_x100: self.current_fps_x100,
            sync_externally_managed: self.sync_externally_managed,
        }
    }

    pub fn snapshot(&self, unix_us: u64) -> (snap: SyncMetricsSnapshot)
        ensures
            snap == self.spec_snapshot(unix_us),
    {
        let steady_samples: u64 = self.sample_count.saturating_sub(self.recovery_samples);
        let steady_total: u64 = self.total_drift_us.saturating_sub(self.recovery_total_drift_us);
        let avg: u64 = quotient_or_zero(self.total_drift_us, self.sample_count);
        let recovery_avg: u64 = quotient_or_zero(
            self.recovery_total_drift_us,
            self.recovery_samples,
        );
        let steady_avg: u64 = quotient_or_zero(steady_total, steady_samples);
        SyncMetricsSnapshot {
            current_drift_us: self.current_drift_us,
            max_drift_ahead_us: self.max_drift_ahead_us,
            max_drift_behind_us: self.max_drift_behind_us,
            avg_drift_us: #[verifier::truncate] (avg as i64),
            sample_count: self.sample_count,
            out_of_sync_count: self.out_of_sync_count,
            last_video_pts: Duration::from_micros(self.last_video_pts_us),
            last_audio_pos: Duration::from_micros(self.last_audio_pos_us),
            using_audio_clock: self.using_audio_clock,
            underrun_count: self.underrun_count,
            stall_count: self.stall_count,
            decode_stall_count: self.decode_stall_count,
            network_stall_count: self.network_stall_count,
            in_recovery: self.in_recovery,
            recovery_samples: self.recovery_samples,
            recovery_avg_drift_us: #[verifier::truncate] (recovery_avg as i64),
            recovery_count: self.recovery_count,
            total_recovery_time_us: self.total_recovery_time_us,
            time_since_last_underrun_us: if self.last_underrun_time_us > 0 {
                unix_us.saturating_sub(self.last_underrun_time_us)
            } else {
                0
            },
            steady_samples,
            steady_avg_drift_us: #[verifier::truncate] (steady_avg as i64),
            steady_out_of_sync_count: self.out_of_sync_count.saturating_sub(
                self.recovery_out_of_sync_count,
            ),
            stream_pts_offset_us: self.stream_pts_offset_us,
            current_fps_x100: self.current_fps_x100,
            sync_externally_managed: self.sync_externally_managed,
        }
    }

    pub fn current_drift_us(&self) -> (drift_us: i64)
        ensures
            drift_us == self.current_drift_us,
    {
        self.current_drift_us
    }

    pub fn is_in_sync(&self) -> (in_sync: bool)
        ensures
            in_sync == (magnitude(self.current_drift_us) <= SYNC_DRIFT_THRESHOLD_MS * 1000),
    {
        magnitude(self.current_drift_us) <= SYNC_DRIFT_THRESHOLD_MS as u64 * 1000
    }

    /// The line that is logged of the state of synchronization.
    pub fn log_status(&self, unix_us: u64) -> (line: String)
        ensures
            line@ == self.spec_snapshot(unix_us).status_line(),
    {
        let snap: SyncMetricsSnapshot = self.snapshot(unix_us);
        let mut line: String = "A/V Sync: current=".to_owned();
        line.append(plus_decimal(millis_of(snap.current_drift_us)).as_str());
        line.append("ms, max_ahead=");
        line.append(plus_decimal(millis_of(snap.max_drift_ahead_us)).as_str());
        line.append("ms, max_behind=");
        line.append(plus_decimal(millis_of(snap.max_drift_behind_us)).as_str());
        line.append("ms, avg=");
        line.append(plus_decimal(millis_of(snap.avg_drift_us)).as_str());
        line.append("ms, samples=");
        line.append(decimal(snap.sample_count).as_str());
        line.append(", out_of_sync=");
        line.append(decimal(snap.out_of_sync_count).as_str());
        line.append(", audio_clock=");
        line.append(
            if snap.using_audio_clock {
                "true"
            } else {
                "false"
            },
        );
        line
    }
}

impl Default for SyncMetrics {
    fn default() -> (m: Self)
        ensures
            m == SyncMetrics::fresh(),
    {
        SyncMetrics::new()
    }
}

/// How a session is rated.
#[derive(Debug, Clone, Copy, PartialEq, Eq, Structural)]
pub enum SyncQuality {
    Excellent,
    Good,
    Fair,
    Poor,
}

/// The figures of a quality summary.
#[derive(Debug, Clone, Copy, PartialEq, Eq, Structural)]
pub struct QualitySummary {
    pub quality: SyncQuality,
    pub max_drift_ms: i64,
    pub avg_drift_ms: i64,
    pub out_of_sync: Share,
}

impl SyncMetricsSnapshot {
    #[verifier::allow_in_spec]
    pub fn current_drift_ms(&self) -> i64
        returns
            millis_of(self.current_drift_us),
    {
        millis_of(self.current_drift_us)
    }

    /// The larger of the two extremes, whichever way it went.
    #[verifier::allow_in_spec]
    pub fn max_drift_ms(&self) -> i64
        returns
            (if magnitude(self.max_drift_ahead_us) >= magnitude(self.max_drift_behind_us) {
                magnitude(self.max_drift_ahead_us) / 1000
            } else {
                magnitude(self.max_drift_behind_us) / 1000
            }) as i64,
    {
        let ahead: u64 = magnitude(self.max_drift_ahead_us);
        let behind: u64 = magnitude(self.max_drift_behind_us);
        let most: u64 = if ahead >= behind {
            ahead
        } else {
            behind
        };
        (most / 1000) as i64
    }

    /// The frames that were out of sync, as a share of all of them.
    #[verifier::allow_in_spec]
    pub fn out_of_sync_percentage(&self) -> Share
        returns
            (Share { part: self.out_of_sync_count, whole: self.sample_count as u128 }),
    {
        Share { part: self.out_of_sync_count, whole: self.sample_count as u128 }
    }

    /// The same outside of recovery.
    #[verifier::allow_in_spec]
    pub fn steady_out_of_sync_percentage(&self) -> Share
        returns
            (Share { part: self.steady_out_of_sync_count, whole: self.steady_samples as u128 }),
    {
        Share { part: self.steady_out_of_sync_count, whole: self.steady_samples as u128 }
    }

    #[verifier::allow_in_spec]
    pub fn steady_avg_drift_ms(&self) -> i64
        returns
            millis_of(self.steady_avg_drift_us),
    {
        millis_of(self.steady_avg_drift_us)
    }

    #[verifier::allow_in_spec]
    pub fn stream_pts_offset_ms(&self) -> i64
        returns
            millis_of(self.stream_pts_offset_us),
    {
        millis_of(self.stream_pts_offset_us)
    }

    /// True where enough samples were taken, none drifted severely and fewer
    /// than a twentieth were out of sync.
    pub fn passed_sync_test(&self) -> (passed: bool)
        ensures
            passed == (self.sample_count >= MIN_SYNC_SAMPLES && self.max_drift_ms()
                < SYNC_DRIFT_SEVERE_MS && self.out_of_sync_count * 100 < MAX_OUT_OF_SYNC_PERCENT
                * self.sample_count),
    {
        self.sample_count >= MIN_SYNC_SAMPLES && self.max_drift_ms() < SYNC_DRIFT_SEVERE_MS
            && (self.out_of_sync_count as u128 * 100 < MAX_OUT_OF_SYNC_PERCENT as u128
            * self.sample_count as u128)
    }

    /// The rating by the largest drift.
    #[verifier::allow_in_spec]
    pub fn quality(&self) -> SyncQuality
        returns
            (if self.max_drift_ms() < SYNC_DRIFT_THRESHOLD_MS {
                SyncQuality::Excellent
            } else if self.max_drift_ms() < SYNC_DRIFT_WARNING_MS {
                SyncQuality::Good
            } else if self.max_drift_ms() < SYNC_DRIFT_SEVERE_MS {
                SyncQuality::Fair
            } else {
                SyncQuality::Poor
            }),
    {
        let max_drift: i64 = self.max_drift_ms();
        if max_drift < SYNC_DRIFT_THRESHOLD_MS {
            SyncQuality::Excellent
        } else if max_drift < SYNC_DRIFT_WARNING_MS {
            SyncQuality::Good
        } else if max_drift < SYNC_DRIFT_SEVERE_MS {
            SyncQuality::Fair
        } else {
            SyncQuality::Poor
        }
    }

    /// The rating with its figures: those outside of recovery where there are
    /// any, else those of the whole session.
    pub fn quality_summary(&self) -> (summary: QualitySummary)
        ensures
            summary.quality == self.quality(),
            summary.max_drift_ms == self.max_drift_ms(),
            self.steady_samples > 0 ==> summary.avg_drift_ms == self.steady_avg_drift_ms()
                && summary.out_of_sync == self.steady_out_of_sync_percentage(),
            self.steady_samples == 0 ==> summary.avg_drift_ms == millis_of(self.avg_drift_us)
                && summary.out_of_sync == self.out_of_sync_percentage(),
    {
        if self.steady_samples > 0 {
            QualitySummary {
                quality: self.quality(),
                max_drift_ms: self.max_drift_ms(),
                avg_drift_ms: self.steady_avg_drift_ms(),
                out_of_sync: self.steady_out_of_sync_percentage(),
            }
        } else {
            QualitySummary {
                quality: self.quality(),
                max_drift_ms: self.max_drift_ms(),
                avg_drift_ms: millis_of(self.avg_drift_us),
                out_of_sync: self.out_of_sync_percentage(),
            }
        }
    }

    /// The line that is logged of a snapshot.
    pub open spec fn status_line(self) -> Seq<char> {
        "A/V Sync: current="@ + plus_digits(millis_of(self.current_drift_us) as int)
            + "ms, max_ahead="@ + plus_digits(millis_of(self.max_drift_ahead_us) as int)
            + "ms, max_behind="@ + plus_digits(millis_of(self.max_drift_behind_us) as int)
            + "ms, avg="@ + plus_digits(millis_of(self.avg_drift_us) as int) + "ms, samples="@
            + decimal_digits(self.sample_count as nat) + ", out_of_sync="@ + decimal_digits(
            self.out_of_sync_count as nat,
        ) + ", audio_clock="@ + (if self.using_audio_clock {
            "true"@
        } else {
            "false"@
        })
    }

    /// The snapshot as it is shown to a user. `percent` is the share of frames out
    /// of sync, written out.
    pub fn text(&self, percent: &str) -> (text: String)
        ensures
            text@ == "A/V Sync: drift="@ + plus_digits(self.current_drift_ms() as int)
                + "ms (max ahead="@ + plus_digits(millis_of(self.max_drift_ahead_us) as int)
                + "ms, behind="@ + plus_digits(millis_of(self.max_drift_behind_us) as int)
                + "ms), "@ + decimal_digits(self.sample_count as nat) + " samples, "@ + percent@
                + "% out of sync"@,
    {
        let mut text: String = "A/V Sync: drift=".to_owned();
        text.append(plus_decimal(self.current_drift_ms()).as_str());
        text.append("ms (max ahead=");
        text.append(plus_decimal(millis_of(self.max_drift_ahead_us)).as_str());
        text.append("ms, behind=");
        text.append(plus_decimal(millis_of(self.max_drift_behind_us)).as_str());
        text.append("ms), ");
        text.append(decimal(self.sample_count).as_str());
        text.append(" samples, ");
        text.append(percent);
        text.append("% out of sync");
        text
    }
}

impl SyncQuality {
    pub open spec fn word(self) -> Seq<char> {
        match self {
            SyncQuality::Excellent => "Excellent"@,
            SyncQuality::Good => "Good"@,
            SyncQuality::Fair => "Fair"@,
            SyncQuality::Poor => "Poor"@,
        }
    }

    pub fn text(self) -> (text: &'static str)
        ensures
            text@ == self.word(),
    {
        match self {
            SyncQuality::Excellent => "Excellent",
            SyncQuality::Good => "Good",
            SyncQuality::Fair => "Fair",
            SyncQuality::Poor => "Poor",
        }
    }
}

impl QualitySummary {
    /// The summary as it is shown to a user. `percent` is the share of frames out
    /// of sync, written out.
    pub fn text(&self, percent: &str) -> (text: String)
        ensures
            text@ == self.quality.word() + " (max drift: "@ + plus_digits(self.max_drift_ms as int)
                + "ms, steady-state avg: "@ + plus_digits(self.avg_drift_ms as int) + "ms, "@
                + percent@ + "% out of sync)"@,
    {
        let mut text: String = self.quality.text().to_owned();
        text.append(" (max drift: ");
        text.append(plus_decimal(self.max_drift_ms).as_str());
        text.append("ms, steady-state avg: ");
        text.append(plus_decimal(self.avg_drift_ms).as_str());
        text.append("ms, ");
        text.append(percent);
        text.append("% out of sync)");
        text
    }
}

/// A tracker that is switched off keeps every counter as it is.
pub proof fn law_disabled_tracker_counts_nothing(
    m: SyncMetrics,
    video_pts: Duration,
    audio_position: Duration,
    stall_type: StallType,
    unix_us: u64,
)
    requires
        !m.enabled,
    ensures
        m.after_frame(video_pts, audio_position, unix_us) == m,
        m.after_underrun(unix_us) == m,
        m.after_stall(stall_type) == m,
        m.after_recovery_start(unix_us) == m,
        m.after_recovery_end(unix_us) == m,
{
}

/// Every operation keeps the recovery counters within the totals, as long as
/// the totals do not run over; so what a snapshot gives for the time outside of
/// recovery and for the recovery adds up to the whole.
pub proof fn law_steady_and_recovery_add_up(
    m: SyncMetrics,
    video_pts: Duration,
    audio_position: Duration,
    unix_us: u64,
)
    requires
        m.parts_within_totals(),
        m.sample_count < u64::MAX,
        m.total_drift_us + magnitude(
            video_pts.micros_i64().wrapping_sub(audio_position.micros_i64()),
        ) <= u64::MAX,
    ensures
        m.after_frame(video_pts, audio_position, unix_us).parts_within_totals(),
        m.after_reset(unix_us).parts_within_totals(),
        m.after_underrun(unix_us).parts_within_totals(),
        m.after_recovery_start(unix_us).parts_within_totals(),
        m.after_recovery_end(unix_us).parts_within_totals(),
        m.spec_snapshot(unix_us).steady_samples + m.spec_snapshot(unix_us).recovery_samples
            == m.sample_count,
        m.spec_snapshot(unix_us).steady_out_of_sync_count + m.recovery_out_of_sync_count
            == m.out_of_sync_count,
{
}

/// During a grace period no drift is shown and no extreme moves, though the
/// sample is counted.
pub proof fn law_grace_period_hides_spikes(
    m: SyncMetrics,
    video_pts: Duration,
    audio_position: Duration,
    unix_us: u64,
)
    requires
        m.enabled,
        m.grace_samples > 0,
    ensures
        ({
            let next = m.after_frame(video_pts, audio_position, unix_us);
            &&& next.current_drift_us == m.current_drift_us
            &&& next.max_drift_ahead_us == m.max_drift_ahead_us
            &&& next.max_drift_behind_us == m.max_drift_behind_us
            &&& next.grace_samples == m.grace_samples - 1
            &&& next.sample_count == m.sample_count.wrapping_add(1)
        }),
{
}

/// A recovery that is started twice is the one that was started first, and one
/// that is ended twice is counted once.
pub proof fn law_recovery_starts_and_ends_once(m: SyncMetrics, first: u64, second: u64)
    ensures
        m.after_recovery_start(first).after_recovery_start(second) == m.after_recovery_start(first),
        m.after_recovery_end(first).after_recovery_end(second) == m.after_recovery_end(first),
{
}

/// A frame that is shown out of sync is counted as such, and no other is: outside of a
/// grace period the count and [`SyncMetrics::is_in_sync`] agree on every drift.
pub proof fn law_count_agrees_with_in_sync(
    m: SyncMetrics,
    video_pts: Duration,
    audio_position: Duration,
    unix_us: u64,
)
    requires
        m.enabled,
        m.grace_samples == 0,
    ensures
        ({
            let next = m.after_frame(video_pts, audio_position, unix_us);
            next.out_of_sync_count == (if magnitude(next.current_drift_us)
                <= SYNC_DRIFT_THRESHOLD_MS * 1000 {
                m.out_of_sync_count
            } else {
                m.out_of_sync_count.wrapping_add(1)
            })
        }),
{
}

/// What happens to a tracker that stays switched on.
#[derive(Debug, Clone, Copy, PartialEq, Eq, Structural)]
pub enum SyncEvent {
    Frame { video_pts: Duration, audio_position: Duration, unix_us: u64 },
    Underrun(u64),
    Stall(StallType),
    RecoveryStart(u64),
    RecoveryEnd(u64),
    /// A switch or an offset was set.
    Setting {
        using_audio_clock: bool,
        stream_pts_offset_us: i64,
        grace_samples: u64,
        sync_externally_managed: bool,
    },
}

impl SyncMetrics {
    pub open spec fn after_event(self, event: SyncEvent) -> SyncMetrics {
        match event {
            SyncEvent::Frame { video_pts, audio_position, unix_us } => self.after_frame(
                video_pts,
                audio_position,
                unix_us,
            ),
            SyncEvent::Underrun(unix_us) => self.after_underrun(unix_us),
            SyncEvent::Stall(stall_type) => self.after_stall(stall_type),
            SyncEvent::RecoveryStart(unix_us) => self.after_recovery_start(unix_us),
            SyncEvent::RecoveryEnd(unix_us) => self.after_recovery_end(unix_us),
            SyncEvent::Setting {
                using_audio_clock,
                stream_pts_offset_us,
                grace_samples,
                sync_externally_managed,
            } => SyncMetrics {
                using_audio_clock,
                stream_pts_offset_us,
                grace_samples,
                sync_externally_managed,
                ..self
            },
        }
    }

    /// The tracker after a run of events.
    pub open spec fn after_events(self, events: Seq<SyncEvent>) -> SyncMetrics
        decreases events.len(),
    {
        if events.len() == 0 {
            self
        } else {
            self.after_events(events.drop_last()).after_event(events.last())
        }
    }

    /// The frames of a run of events, each with its drift and with whether it came
    /// during a recovery.
    pub open spec fn frames_of(self, events: Seq<SyncEvent>) -> Seq<(i64, bool)>
        decreases events.len(),
    {
        if events.len() == 0 {
            Seq::empty()
        } else {
            let frames = self.frames_of(events.drop_last());
            match events.last() {
                SyncEvent::Frame { video_pts, audio_position, .. } => frames.push(
                    (
                        video_pts.micros_i64().wrapping_sub(audio_position.micros_i64()),
                        self.after_events(events.drop_last()).in_recovery,
                    ),
                ),
                _ => frames,
            }
        }
    }
}

/// The frames that came during recoveries, or the others.
pub open spec fn frames_in(frames: Seq<(i64, bool)>, recovery: bool) -> Seq<(i64, bool)>
    decreases frames.len(),
{
    if frames.len() == 0 {
        Seq::empty()
    } else {
        let before = frames_in(frames.drop_last(), recovery);
        if frames.last().1 == recovery {
            before.push(frames.last())
        } else {
            before
        }
    }
}

/// The sum of the absolute drifts.
pub open spec fn drift_sum(frames: Seq<(i64, bool)>) -> nat
    decreases frames.len(),
{
    if frames.len() == 0 {
        0
    } else {
        drift_sum(frames.drop_last()) + magnitude(frames.last().0) as nat
    }
}

/// How many of the frames are out of sync.
pub open spec fn out_of_sync_in(frames: Seq<(i64, bool)>) -> nat
    decreases frames.len(),
{
    if frames.len() == 0 {
        0
    } else {
        out_of_sync_in(frames.drop_last()) + (if drift_is_out_of_sync(frames.last().0) {
            1nat
        } else {
            0
        })
    }
}

/// The mean of the absolute drifts, rounded down; zero where there are no frames.
pub open spec fn drift_mean(frames: Seq<(i64, bool)>) -> int {
    if frames.len() == 0 {
        0
    } else {
        drift_sum(frames) as int / frames.len() as int
    }
}

/// Frames, sums and counts of the two parts add up to the whole.
proof fn lemma_parts_add_up(frames: Seq<(i64, bool)>)
    ensures
        frames_in(frames, true).len() + frames_in(frames, false).len() == frames.len(),
        drift_sum(frames_in(frames, true)) + drift_sum(frames_in(frames, false)) == drift_sum(
            frames,
        ),
        out_of_sync_in(frames_in(frames, true)) + out_of_sync_in(frames_in(frames, false))
            == out_of_sync_in(frames),
        out_of_sync_in(frames) <= frames.len(),
    decreases frames.len(),
{
    if frames.len() > 0 {
        let front = frames.drop_last();
        lemma_parts_add_up(front);
        let mine = frames_in(front, frames.last().1).push(frames.last());
        assert(mine.drop_last() =~= frames_in(front, frames.last().1));
    }
}

/// The counters of frames since the last reset. They wrap around at their width.
pub open spec fn has_summed(m: SyncMetrics, frames: Seq<(i64, bool)>) -> bool {
    let wide: int = u64::MAX + 1;
    let recovering = frames_in(frames, true);
    &&& m.sample_count == frames.len() as int % wide
    &&& m.total_drift_us == drift_sum(frames) as int % wide
    &&& m.out_of_sync_count == out_of_sync_in(frames) as int % wide
    &&& m.recovery_samples == recovering.len() as int % wide
    &&& m.recovery_total_drift_us == drift_sum(recovering) as int % wide
    &&& m.recovery_out_of_sync_count == out_of_sync_in(recovering) as int % wide
}

proof fn lemma_frame_is_summed(
    before: SyncMetrics,
    frames: Seq<(i64, bool)>,
    video_pts: Duration,
    audio_position: Duration,
    unix_us: u64,
)
    requires
        before.enabled,
        has_summed(before, frames),
    ensures
        has_summed(
            before.after_frame(video_pts, audio_position, unix_us),
            frames.push(
                (
                    video_pts.micros_i64().wrapping_sub(audio_position.micros_i64()),
                    before.in_recovery,
                ),
            ),
        ),
{
    let wide: int = u64::MAX + 1;
    let drift: i64 = video_pts.micros_i64().wrapping_sub(audio_position.micros_i64());
    let more = frames.push((drift, before.in_recovery));
    let recovering = frames_in(frames, true);
    assert(more.drop_last() =~= frames);
    assert(recovering.push(more.last()).drop_last() =~= recovering);
    lemma_wraps_on(frames.len() as int, 1, wide);
    lemma_wraps_on(drift_sum(frames) as int, magnitude(drift) as int, wide);
    lemma_wraps_on(out_of_sync_in(frames) as int, 1, wide);
    lemma_wraps_on(recovering.len() as int, 1, wide);
    lemma_wraps_on(drift_sum(recovering) as int, magnitude(drift) as int, wide);
    lemma_wraps_on(out_of_sync_in(recovering) as int, 1, wide);
}

proof fn lemma_run_is_summed(start: SyncMetrics, events: Seq<SyncEvent>)
    requires
        start.enabled,
        has_summed(start, Seq::empty()),
    ensures
        start.after_events(events).enabled,
        has_summed(start.after_events(events), start.frames_of(events)),
    decreases events.len(),
{
    if events.len() > 0 {
        let before = events.drop_last();
        lemma_run_is_summed(start, before);
        match events.last() {
            SyncEvent::Frame { video_pts, audio_position, unix_us } => {
                lemma_frame_is_summed(
                    start.after_events(before),
                    start.frames_of(before),
                    video_pts,
                    audio_position,
                    unix_us,
                );
            },
            _ => {},
        }
    }
}

/// What a snapshot gives of a run of frames since the last reset: how many there were,
/// how far they drifted on average and how many were out of sync, for all of them, for
/// those that came during recoveries, and for the rest. Counters wrap around at their
/// width; the averages are exact until a sum has, and where they fit.
pub proof fn law_snapshot_sums_up_a_run(
    before: SyncMetrics,
    reset_us: u64,
    events: Seq<SyncEvent>,
    unix_us: u64,
)
    requires
        before.enabled,
    ensures
        ({
            let start = before.after_reset(reset_us);
            let last = start.after_events(events);
            let snap = last.spec_snapshot(unix_us);
            let frames = start.frames_of(events);
            let recovering = frames_in(frames, true);
            let steady = frames_in(frames, false);
            &&& has_summed(last, frames)
            &&& snap.sample_count == last.sample_count
            &&& snap.recovery_samples == last.recovery_samples
            &&& snap.out_of_sync_count == last.out_of_sync_count
            &&& frames.len() <= u64::MAX ==> {
                &&& snap.sample_count == frames.len()
                &&& snap.recovery_samples == recovering.len()
                &&& snap.steady_samples == steady.len()
                &&& snap.out_of_sync_count == out_of_sync_in(frames)
                &&& snap.steady_out_of_sync_count == out_of_sync_in(steady)
            }
            &&& frames.len() <= u64::MAX && drift_sum(frames) <= u64::MAX ==> {
                &&& drift_mean(frames) <= i64::MAX ==> snap.avg_drift_us == drift_mean(frames)
                &&& drift_mean(recovering) <= i64::MAX ==> snap.recovery_avg_drift_us
                    == drift_mean(recovering)
                &&& drift_mean(steady) <= i64::MAX ==> snap.steady_avg_drift_us == drift_mean(
                    steady,
                )
            }
        }),
{
    let wide: nat = (u64::MAX + 1) as nat;
    let start = before.after_reset(reset_us);
    let frames = start.frames_of(events);
    let recovering = frames_in(frames, true);
    lemma_small_mod(0, wide);
    lemma_run_is_summed(start, events);
    lemma_parts_add_up(frames);
    lemma_parts_add_up(recovering);
    if frames.len() <= u64::MAX {
        lemma_small_mod(frames.len(), wide);
        lemma_small_mod(out_of_sync_in(frames), wide);
        lemma_small_mod(recovering.len(), wide);
        lemma_small_mod(out_of_sync_in(recovering), wide);
        if drift_sum(frames) <= u64::MAX {
            lemma_small_mod(drift_sum(frames), wide);
            lemma_small_mod(drift_sum(recovering), wide);
            lemma_mean_is_natural(frames);
            lemma_mean_is_natural(recovering);
            lemma_mean_is_natural(frames_in(frames, false));
        }
    }
}

proof fn lemma_mean_is_natural(frames: Seq<(i64, bool)>)
    ensures
        0 <= drift_mean(frames) <= drift_sum(frames),
{
    if frames.len() > 0 {
        let sum: int = drift_sum(frames) as int;
        let n: int = frames.len() as int;
        assert(0 <= sum / n <= sum) by (nonlinear_arith)
            requires
                sum >= 0,
                n >= 1,
        ;
    }
}

} // verus!
