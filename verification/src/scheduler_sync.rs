//! What the frame scheduler measures of a frame that was shown.

use crate::frame_scheduler::{
    ClockDeltas, FrameScheduler, CLOCK_REPORT_FIRST_MS, CLOCK_REPORT_INTERVAL_MS,
    REBASELINE_DRIFT_MS, REBASELINE_MIN_AGE_MS,
};
use crate::sync_metrics::SyncMetrics;
use crate::time::{ClockReading, Duration, Instant};
use vstd::prelude::*;

verus! {

/// [`SyncMetrics::after_frame`], kept folded where only its outcome matters.
#[verifier::opaque]
pub open spec fn measured(
    metrics: SyncMetrics,
    video_pts: Duration,
    audio_position: Duration,
    unix_us: u64,
) -> SyncMetrics {
    metrics.after_frame(video_pts, audio_position, unix_us)
}

fn measure(
    metrics: &mut SyncMetrics,
    video_pts: Duration,
    audio_position: Duration,
    unix_us: u64,
)
    ensures
        *final(metrics) == measured(*old(metrics), video_pts, audio_position, unix_us),
{
    reveal(measured);
    let _ = metrics.record_frame(video_pts, audio_position, unix_us);
}

impl FrameScheduler {
    /// True where a report on the clocks is due.
    pub open spec fn clock_report_due(self, elapsed: Duration, now: Instant) -> bool {
        match self.last_clock_report {
            None => Duration::from_millis(CLOCK_REPORT_FIRST_MS).before(elapsed),
            Some(last) => !now.duration_since(last).before(
                Duration::from_millis(CLOCK_REPORT_INTERVAL_MS),
            ),
        }
    }

    fn is_clock_report_due(&self, elapsed: Duration, now: Instant) -> (due: bool)
        ensures
            due == self.clock_report_due(elapsed, now),
    {
        match self.last_clock_report {
            None => Duration::from_millis(CLOCK_REPORT_FIRST_MS).before(elapsed),
            Some(last) => !now.duration_since(last).before(
                Duration::from_millis(CLOCK_REPORT_INTERVAL_MS),
            ),
        }
    }

    /// Time since the drift baseline was taken.
    #[verifier::allow_in_spec]
    pub fn audio_running_for(&self, now: Instant) -> Duration
        returns
            (match self.audio_start_time {
                Some(start) => now.duration_since(start),
                None => Duration::zero(),
            }),
    {
        match self.audio_start_time {
            Some(start) => now.duration_since(start),
            None => Duration::zero(),
        }
    }

    /// The drift baseline, taken now where there is none.
    pub open spec fn with_audio_baseline(self, now: Instant) -> FrameScheduler {
        if self.audio_start_time is None {
            FrameScheduler {
                audio_start_time: Some(now),
                audio_start_pos: self.audio_position(),
                ..self
            }
        } else {
            self
        }
    }

    /// True where the drift baseline is old enough and too far off to be kept.
    pub open spec fn baseline_is_off(self, now: Instant) -> bool {
        let age = self.audio_running_for(now);
        let audio_delta = self.audio_position().saturating_sub(self.audio_start_pos);
        &&& self.audio_start_time is Some
        &&& !age.before(Duration::from_millis(REBASELINE_MIN_AGE_MS))
        &&& Duration::from_millis(REBASELINE_DRIFT_MS).before(age.abs_diff(audio_delta))
    }

    /// A new drift baseline, with what was measured against the old one
    /// forgotten.
    pub open spec fn rebaselined(self, clock: ClockReading) -> FrameScheduler {
        FrameScheduler {
            audio_start_time: Some(clock.now),
            audio_start_pos: self.audio_position(),
            sync_metrics: self.sync_metrics.after_reset(clock.unix_us),
            ..self
        }
    }

    /// The stream offset of the audio, noted in the metrics.
    pub open spec fn with_stream_offset_noted(self) -> FrameScheduler {
        FrameScheduler {
            sync_metrics: SyncMetrics {
                stream_pts_offset_us: (match self.audio_handle {
                    Some(handle) => handle.stream_pts_offset_us,
                    None => self.sync_metrics.stream_pts_offset_us,
                }),
                ..self.sync_metrics
            },
            ..self
        }
    }

    pub open spec fn with_sync_managed(self, externally: bool) -> FrameScheduler {
        FrameScheduler {
            sync_metrics: SyncMetrics { sync_externally_managed: externally, ..self.sync_metrics },
            ..self
        }
    }

    /// Measured where a native player keeps the two together: no drift.
    pub open spec fn with_native_sync(self, clock: ClockReading) -> FrameScheduler {
        let s = self.with_sync_managed(true);
        FrameScheduler {
            sync_metrics: measured(
                s.sync_metrics,
                s.audio_position(),
                s.audio_position(),
                clock.unix_us,
            ),
            ..s
        }
    }

    /// Measured where the wall clock drives the frames: the frame against the
    /// audio that is heard with it.
    pub open spec fn with_content_sync(self, video_pts: Duration, clock: ClockReading) -> FrameScheduler {
        let s = self.with_sync_managed(false).with_audio_baseline(clock.now);
        FrameScheduler {
            sync_metrics: measured(s.sync_metrics, video_pts, s.audio_position(), clock.unix_us),
            last_clock_report: (if s.clock_report_due(
                s.audio_running_for(clock.now),
                clock.now,
            ) {
                Some(clock.now)
            } else {
                s.last_clock_report
            }),
            ..s
        }
    }

    /// Measured where audio drives the frames: the wall clock against audio,
    /// both since the baseline, which is replaced where it is too far off.
    pub open spec fn with_rate_sync(self, clock: ClockReading) -> FrameScheduler {
        let based = self.with_sync_managed(false).with_audio_baseline(clock.now);
        let s = if based.baseline_is_off(clock.now) {
            based.rebaselined(clock)
        } else {
            based
        };
        let elapsed = s.audio_running_for(clock.now);
        let audio_delta = s.audio_position().saturating_sub(s.audio_start_pos);
        let due = s.clock_report_due(elapsed, clock.now);
        FrameScheduler {
            sync_metrics: measured(s.sync_metrics, elapsed, audio_delta, clock.unix_us),
            last_clock_report: (if due {
                Some(clock.now)
            } else {
                s.last_clock_report
            }),
            last_clock_report_values: (if due {
                Some(ClockDeltas { wall: elapsed, audio: audio_delta })
            } else {
                s.last_clock_report_values
            }),
            ..s
        }
    }

    /// The scheduler after a frame was measured. Before audio begins only the
    /// stream offset is noted.
    pub open spec fn with_sync_recorded(self, video_pts: Duration, clock: ClockReading) -> FrameScheduler {
        let s = self.with_stream_offset_noted();
        if s.audio_position().is_zero() {
            s
        } else if s.audio_handle is Some && s.audio_handle->0.is_using_native_position() {
            s.with_native_sync(clock)
        } else if !s.use_audio_as_sync_master {
            s.with_content_sync(video_pts, clock)
        } else {
            s.with_rate_sync(clock)
        }
    }

    fn record_native_sync(&mut self, clock: ClockReading)
        ensures
            *final(self) == old(self).with_native_sync(clock),
    {
        let audio_pos: Duration = self.audio_position();
        self.sync_metrics.set_sync_externally_managed(true);
        measure(&mut self.sync_metrics, audio_pos, audio_pos, clock.unix_us);
    }

    fn record_content_sync(&mut self, video_pts: Duration, clock: ClockReading)
        ensures
            *final(self) == old(self).with_content_sync(video_pts, clock),
    {
        let audio_pos: Duration = self.audio_position();
        self.sync_metrics.set_sync_externally_managed(false);
        if self.audio_start_time.is_none() {
            self.audio_start_time = Some(clock.now);
            self.audio_start_pos = audio_pos;
        }
        measure(&mut self.sync_metrics, video_pts, audio_pos, clock.unix_us);
        let elapsed: Duration = self.audio_running_for(clock.now);
        if self.is_clock_report_due(elapsed, clock.now) {
            self.last_clock_report = Some(clock.now);
        }
    }

    fn keep_baseline(&mut self, clock: ClockReading)
        ensures
            *final(self) == ({
                let based = old(self).with_sync_managed(false).with_audio_baseline(clock.now);
                if based.baseline_is_off(clock.now) {
                    based.rebaselined(clock)
                } else {
                    based
                }
            }),
    {
        let audio_pos: Duration = self.audio_position();
        self.sync_metrics.set_sync_externally_managed(false);
        if self.audio_start_time.is_none() {
            self.audio_start_time = Some(clock.now);
            self.audio_start_pos = audio_pos;
        }
        let age: Duration = self.audio_running_for(clock.now);
        if !age.before(Duration::from_millis(REBASELINE_MIN_AGE_MS)) {
            let audio_delta: Duration = audio_pos.saturating_sub(self.audio_start_pos);
            if Duration::from_millis(REBASELINE_DRIFT_MS).before(age.abs_diff(audio_delta)) {
                self.audio_start_time = Some(clock.now);
                self.audio_start_pos = audio_pos;
                self.sync_metrics.reset(clock.unix_us);
            }
        }
    }

    fn record_rate_sync(&mut self, clock: ClockReading)
        ensures
            *final(self) == old(self).with_rate_sync(clock),
    {
        self.keep_baseline(clock);
        let elapsed: Duration = self.audio_running_for(clock.now);
        let audio_delta: Duration = self.audio_position().saturating_sub(self.audio_start_pos);
        let due: bool = self.is_clock_report_due(elapsed, clock.now);
        measure(&mut self.sync_metrics, elapsed, audio_delta, clock.unix_us);
        if due {
            self.last_clock_report = Some(clock.now);
            self.last_clock_report_values =
            Some(ClockDeltas { wall: elapsed, audio: audio_delta });
        }
    }

    /// Measures how well a frame that is shown keeps to audio.
    pub(crate) fn record_sync(&mut self, video_pts: Duration, clock: ClockReading)
        ensures
            *final(self) == old(self).with_sync_recorded(video_pts, clock),
    {
        let mut uses_native_audio: bool = false;
        if let Some(handle) = &self.audio_handle {
            self.sync_metrics.set_stream_pts_offset(handle.stream_pts_offset_us());
            uses_native_audio = handle.is_using_native_position();
        }
        let audio_pos: Duration = self.audio_position();
        if audio_pos.is_zero() {
            return;
        }
        if uses_native_audio {
            self.record_native_sync(clock);
        } else if !self.use_audio_as_sync_master {
            self.record_content_sync(video_pts, clock);
        } else {
            self.record_rate_sync(clock);
        }
    }
}

} // verus!
