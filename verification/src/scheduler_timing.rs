//! How the frame scheduler follows the clock: drift correction, tolerances and
//! the handling of frames that are out of reach.

use crate::frame_scheduler::{
    DriftController, DriftEstimate, DriftInputs, FrameScheduler, RejectBurst, RejectHandlingState,
    RejectWindow, AUDIO_STARTUP_AHEAD_TOLERANCE_MS, AUDIO_STARTUP_MAX_TOLERANCE_MS, DRIFT_ENTER_US,
    DRIFT_EXIT_US, DRIFT_MAX_INTERVAL_MS, DRIFT_MIN_INTERVAL_MS, DRIFT_NANOS_PER_MICRO,
    DRIFT_STEP_THRESHOLD_US,
    DRIFT_WARMUP_MS, LIVE_AHEAD_MARGIN_MS, LIVE_BASE_AHEAD_TOLERANCE_MS,
    LIVE_MAX_AHEAD_TOLERANCE_MS, LIVE_NEAR_BOUNDARY_RANGE_MS, MAX_VIDEO_PTS_BIAS_MS,
    MAX_VIDEO_PTS_BIAS_US, OFFSET_REBASE_MIN_LEAD_MS, OFFSET_REBASE_MIN_STABLE_SAMPLES,
    OFFSET_REBASE_STABILITY_TOLERANCE_MS, OFFSET_REBASE_TARGET_LEAD_MS, REJECT_BURST_THRESHOLD,
    REJECT_BURST_TOLERANCE_HOLD_MS, REJECT_BURST_WINDOW_MS, RESYNC_GRACE_SAMPLES, TOLERANCE_STEP_MS,
    VOD_AHEAD_TOLERANCE_MS,
};
use crate::sync_metrics::{magnitude, SyncMetrics};
use crate::time::{Duration, Instant};
use vstd::prelude::*;

verus! {

/// A signed count, kept within the bound of the bias.
#[verifier::allow_in_spec]
pub fn clamp_bias(us: i128) -> i64
    returns
        (if us > MAX_VIDEO_PTS_BIAS_US {
            MAX_VIDEO_PTS_BIAS_US as int
        } else if us < -MAX_VIDEO_PTS_BIAS_US {
            -MAX_VIDEO_PTS_BIAS_US
        } else {
            us as int
        }) as i64,
{
    if us > MAX_VIDEO_PTS_BIAS_US as i128 {
        MAX_VIDEO_PTS_BIAS_US
    } else if us < -(MAX_VIDEO_PTS_BIAS_US as i128) {
        -MAX_VIDEO_PTS_BIAS_US
    } else {
        us as i64
    }
}

/// By how much one turn of the drift controller moves the correction: by what the filter
/// asks for, against the drift, at 10 ms a second at most. `since` is the time since the
/// last turn, of which half a second counts.
#[verifier::allow_in_spec]
pub fn drift_step_us(estimate: DriftEstimate, since: Duration) -> i64
    returns
        ({
            let limit = since.shorter(Duration::from_millis(DRIFT_MAX_INTERVAL_MS)).nanos
                / DRIFT_NANOS_PER_MICRO;
            if estimate.drift_us > 0 && estimate.delta_us < 0 {
                if estimate.delta_us < -limit {
                    -limit
                } else {
                    estimate.delta_us as int
                }
            } else if estimate.drift_us < 0 && estimate.delta_us > 0 {
                if estimate.delta_us > limit {
                    limit as int
                } else {
                    estimate.delta_us as int
                }
            } else {
                0
            }
        }) as i64,
{
    let span: Duration = since.shorter(Duration::from_millis(DRIFT_MAX_INTERVAL_MS));
    let limit: i64 = (span.nanos / DRIFT_NANOS_PER_MICRO) as i64;
    if estimate.drift_us > 0 && estimate.delta_us < 0 {
        if estimate.delta_us < -limit {
            -limit
        } else {
            estimate.delta_us
        }
    } else if estimate.drift_us < 0 && estimate.delta_us > 0 {
        if estimate.delta_us > limit {
            limit
        } else {
            estimate.delta_us
        }
    } else {
        0
    }
}

/// True where a gap is only just beyond the base tolerance of a live stream.
#[verifier::allow_in_spec]
pub fn is_near_boundary(gap: Duration) -> bool
    returns
        Duration::from_millis(LIVE_BASE_AHEAD_TOLERANCE_MS).nanos < gap.nanos
            <= Duration::from_millis(LIVE_BASE_AHEAD_TOLERANCE_MS).nanos + Duration::from_millis(
            LIVE_NEAR_BOUNDARY_RANGE_MS,
        ).nanos,
{
    let base: Duration = Duration::from_millis(LIVE_BASE_AHEAD_TOLERANCE_MS);
    let range: Duration = Duration::from_millis(LIVE_NEAR_BOUNDARY_RANGE_MS);
    base.before(gap) && gap.nanos <= base.nanos + range.nanos
}

impl FrameScheduler {
    /// Sets the wall clock to the audio position.
    pub open spec fn resynced_to_audio(self, now: Instant) -> FrameScheduler {
        FrameScheduler {
            playback_start_position: self.audio_position(),
            playback_start_time: Some(now),
            current_position: self.audio_position(),
            drift: DriftController::idle(),
            sync_metrics: SyncMetrics {
                grace_samples: RESYNC_GRACE_SAMPLES,
                ..self.sync_metrics
            },
            ..self
        }
    }

    pub(crate) fn resync_to_audio(&mut self, now: Instant)
        ensures
            *final(self) == old(self).resynced_to_audio(now),
    {
        let audio_pos: Duration = self.audio_position();
        self.playback_start_position = audio_pos;
        self.playback_start_time = Some(now);
        self.current_position = audio_pos;
        self.drift = DriftController::idle();
        self.sync_metrics.set_grace_period(RESYNC_GRACE_SAMPLES);
    }

    /// True where drift is nothing for the scheduler to correct: audio is the
    /// master, or a native player keeps the two together.
    pub open spec fn drift_is_not_ours(self) -> bool {
        ||| self.use_audio_as_sync_master
        ||| self.audio_handle is Some && self.audio_handle->0.is_using_native_position()
        ||| self.sync_metrics.sync_externally_managed
    }

    /// True once audio has been heard for the warm-up time.
    pub open spec fn drift_is_warm(self, now: Instant) -> bool {
        &&& !self.audio_position().is_zero()
        &&& self.audio_start_time is Some
        &&& !now.duration_since(self.audio_start_time->0).before(
            Duration::from_millis(DRIFT_WARMUP_MS),
        )
    }

    /// The drift controller with the newest estimate in it: nothing is
    /// corrected below the deadband, whose edge is higher for beginning a
    /// correction than for ending one. `since` is the time since the last turn.
    pub open spec fn drift_with(
        self,
        now: Instant,
        since: Duration,
        estimate: DriftEstimate,
    ) -> DriftController {
        let noted = DriftController {
            last_update: Some(now),
            smoothed_bits: estimate.smoothed_bits,
            ..self.drift
        };
        let edge = if self.drift.active {
            DRIFT_EXIT_US
        } else {
            DRIFT_ENTER_US
        };
        if magnitude(estimate.drift_us) < edge {
            DriftController { active: false, ..noted }
        } else {
            DriftController {
                active: true,
                correction_us: clamp_bias(
                    (self.drift.correction_us + drift_step_us(estimate, since)) as i128,
                ),
                ..noted
            }
        }
    }

    /// The scheduler after the drift controller had its turn.
    ///
    /// A stall restarts the filter. A correction is made at most every 200 ms.
    /// A drift beyond 100 ms is not slewed: the clock is set to audio at once.
    pub open spec fn with_drift_corrected(
        self,
        now: Instant,
        estimate: DriftEstimate,
    ) -> FrameScheduler {
        if self.drift_is_not_ours() {
            self
        } else if self.stalled || self.audio_stalled {
            FrameScheduler { drift: self.drift.restarted(), ..self }
        } else if !self.drift_is_warm(now) {
            self
        } else {
            match self.drift.last_update {
                None => FrameScheduler {
                    drift: DriftController { last_update: Some(now), ..self.drift },
                    ..self
                },
                Some(last) => if now.duration_since(last).before(
                    Duration::from_millis(DRIFT_MIN_INTERVAL_MS),
                ) {
                    self
                } else if magnitude(self.sync_metrics.current_drift_us)
                    > DRIFT_STEP_THRESHOLD_US {
                    self.resynced_to_audio(now)
                } else {
                    FrameScheduler {
                        drift: self.drift_with(now, now.duration_since(last), estimate),
                        ..self
                    }
                },
            }
        }
    }

    /// What the drift filter is to work on at this poll.
    pub fn drift_inputs(&self, now: Instant) -> (inputs: DriftInputs)
        ensures
            inputs == (DriftInputs {
                smoothed_bits: self.drift.smoothed_bits,
                raw_drift_us: self.sync_metrics.current_drift_us,
                interval: (match self.drift.last_update {
                    Some(last) => now.duration_since(last).shorter(
                        Duration::from_millis(DRIFT_MAX_INTERVAL_MS),
                    ),
                    None => Duration::zero(),
                }),
            }),
    {
        DriftInputs {
            smoothed_bits: self.drift.smoothed_bits,
            raw_drift_us: self.sync_metrics.current_drift_us,
            interval: match self.drift.last_update {
                Some(last) => now.duration_since(last).shorter(
                    Duration::from_millis(DRIFT_MAX_INTERVAL_MS),
                ),
                None => Duration::zero(),
            },
        }
    }

    /// Corrects the drift between the wall clock and the audio clock.
    pub fn update_clock_drift_correction(&mut self, now: Instant, estimate: DriftEstimate)
        ensures
            *final(self) == old(self).with_drift_corrected(now, estimate),
    {
        if self.use_audio_as_sync_master {
            return;
        }
        if let Some(handle) = &self.audio_handle {
            if handle.is_using_native_position() {
                return;
            }
        }
        if self.sync_metrics.is_sync_externally_managed() {
            return;
        }
        if self.stalled || self.audio_stalled {
            self.drift = self.drift.restarted();
            return;
        }
        if self.audio_position().is_zero() {
            return;
        }
        match self.audio_start_time {
            Some(start) => {
                if now.duration_since(start).before(Duration::from_millis(DRIFT_WARMUP_MS)) {
                    return;
                }
            },
            None => return,
        }
        let since: Duration = match self.drift.last_update {
            Some(last) => now.duration_since(last),
            None => {
                self.drift.last_update = Some(now);
                return;
            },
        };
        if since.before(Duration::from_millis(DRIFT_MIN_INTERVAL_MS)) {
            return;
        }
        if magnitude(self.sync_metrics.current_drift_us()) > DRIFT_STEP_THRESHOLD_US {
            self.resync_to_audio(now);
            return;
        }
        self.drift.last_update = Some(now);
        self.drift.smoothed_bits = estimate.smoothed_bits;
        let size: u64 = magnitude(estimate.drift_us);
        if self.drift.active {
            if size < DRIFT_EXIT_US {
                self.drift.active = false;
                return;
            }
        } else {
            if size < DRIFT_ENTER_US {
                return;
            }
            self.drift.active = true;
        }
        self.drift.correction_us =
        clamp_bias(self.drift.correction_us as i128 + drift_step_us(estimate, since) as i128);
    }

    /// The bias that is added to the position, in microseconds.
    #[verifier::allow_in_spec]
    pub fn effective_bias_us(&self) -> i64
        returns
            clamp_bias((self.video_pts_bias.micros_i64() + self.drift.correction_us) as i128),
    {
        clamp_bias(self.video_pts_bias.micros_i64() as i128 + self.drift.correction_us as i128)
    }

    /// A position with the bias added, not below zero.
    #[verifier::allow_in_spec]
    pub fn biased(&self, position: Duration) -> Duration
        returns
            (if self.effective_bias_us() >= 0 {
                position.saturating_add(Duration::from_micros(self.effective_bias_us() as u64))
            } else {
                position.saturating_sub(Duration::from_micros((-self.effective_bias_us()) as u64))
            }),
    {
        let bias_us: i64 = self.effective_bias_us();
        if bias_us >= 0 {
            position.saturating_add(Duration::from_micros(bias_us as u64))
        } else {
            position.saturating_sub(Duration::from_micros((-bias_us) as u64))
        }
    }

    /// Whole steps for which the reject window has been open.
    #[verifier::allow_in_spec]
    pub fn stuck_steps(&self, now: Instant) -> u128
        returns
            (match self.reject.start_time {
                Some(start) => now.duration_since(start).as_millis() / TOLERANCE_STEP_MS,
                None => 0u128,
            }) as u128,
    {
        match self.reject.start_time {
            Some(start) => now.duration_since(start).as_millis() / TOLERANCE_STEP_MS,
            None => 0,
        }
    }

    /// How far ahead of the clock a frame may be.
    ///
    /// Little for a file. For a live stream before audio begins, half a second
    /// and more the longer frames are rejected; after that two seconds, more
    /// for a frame that is only just out of reach or long rejected, and the
    /// most during a burst of rejections.
    pub open spec fn ahead_tolerance(
        self,
        audio_started: bool,
        gap: Duration,
        now: Instant,
    ) -> Duration {
        let steps = self.stuck_steps(now);
        if self.frame_pacing_interval.is_zero() {
            Duration::from_millis(VOD_AHEAD_TOLERANCE_MS)
        } else if !audio_started {
            if self.reject.start_time is Some {
                Duration::from_millis(AUDIO_STARTUP_AHEAD_TOLERANCE_MS).saturating_add(
                    Duration::from_millis(
                        #[verifier::truncate] ((steps * LIVE_AHEAD_MARGIN_MS) as u64),
                    ),
                ).shorter(Duration::from_millis(AUDIO_STARTUP_MAX_TOLERANCE_MS))
            } else {
                Duration::from_millis(AUDIO_STARTUP_AHEAD_TOLERANCE_MS)
            }
        } else if self.burst.tolerance_until is Some && now.before(
            self.burst.tolerance_until->0,
        ) {
            Duration::from_millis(LIVE_MAX_AHEAD_TOLERANCE_MS)
        } else {
            let near = if is_near_boundary(gap) {
                gap.saturating_add(Duration::from_millis(LIVE_AHEAD_MARGIN_MS))
            } else {
                Duration::from_millis(LIVE_BASE_AHEAD_TOLERANCE_MS)
            };
            let escalated_ms = LIVE_BASE_AHEAD_TOLERANCE_MS + steps * LIVE_AHEAD_MARGIN_MS;
            let escalated = Duration::from_millis(
                (if escalated_ms > LIVE_MAX_AHEAD_TOLERANCE_MS {
                    LIVE_MAX_AHEAD_TOLERANCE_MS as int
                } else {
                    escalated_ms
                }) as u64,
            );
            near.longer(escalated).shorter(Duration::from_millis(LIVE_MAX_AHEAD_TOLERANCE_MS))
        }
    }

    pub fn compute_ahead_tolerance(
        &self,
        audio_started: bool,
        gap: Duration,
        now: Instant,
    ) -> (tolerance: Duration)
        ensures
            tolerance == self.ahead_tolerance(audio_started, gap, now),
    {
        if self.frame_pacing_interval.is_zero() {
            return Duration::from_millis(VOD_AHEAD_TOLERANCE_MS);
        }
        let steps: u128 = self.stuck_steps(now);
        assert(steps <= u128::MAX / 500_000_000);
        assert(steps * LIVE_AHEAD_MARGIN_MS <= u128::MAX);
        if !audio_started {
            let tolerance: Duration = Duration::from_millis(AUDIO_STARTUP_AHEAD_TOLERANCE_MS);
            if self.reject.start_time.is_none() {
                return tolerance;
            }
            let extra_ms: u64 = #[verifier::truncate]
            ((steps * LIVE_AHEAD_MARGIN_MS as u128) as u64);
            return tolerance.saturating_add(Duration::from_millis(extra_ms)).shorter(
                Duration::from_millis(AUDIO_STARTUP_MAX_TOLERANCE_MS),
            );
        }
        if let Some(until) = self.burst.tolerance_until {
            if now.before(until) {
                return Duration::from_millis(LIVE_MAX_AHEAD_TOLERANCE_MS);
            }
        }
        let near: Duration = if is_near_boundary(gap) {
            gap.saturating_add(Duration::from_millis(LIVE_AHEAD_MARGIN_MS))
        } else {
            Duration::from_millis(LIVE_BASE_AHEAD_TOLERANCE_MS)
        };
        let escalated_ms: u128 = LIVE_BASE_AHEAD_TOLERANCE_MS as u128 + steps
            * LIVE_AHEAD_MARGIN_MS as u128;
        let escalated: Duration = Duration::from_millis(
            if escalated_ms > LIVE_MAX_AHEAD_TOLERANCE_MS as u128 {
                LIVE_MAX_AHEAD_TOLERANCE_MS
            } else {
                escalated_ms as u64
            },
        );
        near.longer(escalated).shorter(Duration::from_millis(LIVE_MAX_AHEAD_TOLERANCE_MS))
    }

    /// One more reject window has begun. Enough of them in quick succession
    /// raise the tolerance for a while.
    pub open spec fn with_reject_window_noted(self, now: Instant) -> FrameScheduler {
        let count = match self.burst.last_start {
            Some(last) if now.duration_since(last).nanos <= Duration::from_millis(
                REJECT_BURST_WINDOW_MS,
            ).nanos => if self.burst.count == u32::MAX {
                u32::MAX
            } else {
                (self.burst.count + 1) as u32
            },
            _ => 1,
        };
        FrameScheduler {
            burst: RejectBurst {
                last_start: Some(now),
                count,
                tolerance_until: (if count >= REJECT_BURST_THRESHOLD {
                    Some(now.after(Duration::from_millis(REJECT_BURST_TOLERANCE_HOLD_MS)))
                } else {
                    self.burst.tolerance_until
                }),
            },
            ..self
        }
    }

    pub(crate) fn record_reject_window_start(&mut self, now: Instant)
        ensures
            *final(self) == old(self).with_reject_window_noted(now),
    {
        self.burst.count =
        match self.burst.last_start {
            Some(last) => if now.duration_since(last).nanos <= Duration::from_millis(
                REJECT_BURST_WINDOW_MS,
            ).nanos {
                self.burst.count.saturating_add(1)
            } else {
                1
            },
            None => 1,
        };
        self.burst.last_start = Some(now);
        if self.burst.count >= REJECT_BURST_THRESHOLD {
            self.burst.tolerance_until =
            Some(now.after(Duration::from_millis(REJECT_BURST_TOLERANCE_HOLD_MS)));
        }
    }

    /// The reject window with one more sample of the lead in it.
    pub open spec fn with_lead_noted(self, lead: Duration) -> FrameScheduler {
        let stable = self.reject.last_lead is Some && lead.abs_diff(self.reject.last_lead->0).nanos
            <= Duration::from_millis(OFFSET_REBASE_STABILITY_TOLERANCE_MS).nanos;
        FrameScheduler {
            reject: RejectWindow {
                last_lead: Some(lead),
                stable_lead_samples: (if !stable {
                    1
                } else if self.reject.stable_lead_samples == u32::MAX {
                    u32::MAX
                } else {
                    (self.reject.stable_lead_samples + 1) as u32
                }),
                ..self.reject
            },
            ..self
        }
    }

    /// True where the lead is long and stable and was not made up for yet.
    pub open spec fn lead_calls_for_rebase(self, lead: Duration) -> bool {
        &&& !self.reject.offset_rebased
        &&& !lead.before(Duration::from_millis(OFFSET_REBASE_MIN_LEAD_MS))
        &&& self.reject.stable_lead_samples >= OFFSET_REBASE_MIN_STABLE_SAMPLES
    }

    /// The bias takes the lead over, but for what is left on purpose.
    pub open spec fn with_lead_rebased(self, lead: Duration) -> FrameScheduler {
        FrameScheduler {
            video_pts_bias: self.video_pts_bias.saturating_add(
                lead.saturating_sub(Duration::from_millis(OFFSET_REBASE_TARGET_LEAD_MS)),
            ).shorter(Duration::from_millis(MAX_VIDEO_PTS_BIAS_MS)),
            reject: RejectWindow {
                offset_rebased: true,
                state: RejectHandlingState::CatchUp,
                ..self.reject
            },
            drift: self.drift.restarted(),
            ..self
        }
    }

    pub(crate) fn maybe_rebase_offset_for_stable_lead(&mut self, lead: Duration) -> (rebased: bool)
        ensures
            rebased == old(self).with_lead_noted(lead).lead_calls_for_rebase(lead),
            *final(self) == (if rebased {
                old(self).with_lead_noted(lead).with_lead_rebased(lead)
            } else {
                old(self).with_lead_noted(lead)
            }),
    {
        let stable: bool = match self.reject.last_lead {
            Some(prev_lead) => lead.abs_diff(prev_lead).nanos <= Duration::from_millis(
                OFFSET_REBASE_STABILITY_TOLERANCE_MS,
            ).nanos,
            None => false,
        };
        self.reject.last_lead = Some(lead);
        self.reject.stable_lead_samples =
        if stable {
            self.reject.stable_lead_samples.saturating_add(1)
        } else {
            1
        };
        if self.reject.offset_rebased || lead.before(
            Duration::from_millis(OFFSET_REBASE_MIN_LEAD_MS),
        ) || self.reject.stable_lead_samples < OFFSET_REBASE_MIN_STABLE_SAMPLES {
            return false;
        }
        let delta: Duration = lead.saturating_sub(
            Duration::from_millis(OFFSET_REBASE_TARGET_LEAD_MS),
        );
        self.video_pts_bias =
        self.video_pts_bias.saturating_add(delta).shorter(
            Duration::from_millis(MAX_VIDEO_PTS_BIAS_MS),
        );
        self.reject.offset_rebased = true;
        self.reject.state = RejectHandlingState::CatchUp;
        self.drift = self.drift.restarted();
        true
    }
}

} // verus!
