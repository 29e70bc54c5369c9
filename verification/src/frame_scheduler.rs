//! Decides which frame is shown when.
//!
//! Frames are timed by their presentation timestamps. Where audio is the master
//! clock the position is that of the audio that is heard; otherwise the wall
//! clock drives it, and audio is only measured. The position moves only while
//! frames are delivered, so that it stands still during buffering.

use crate::audio::AudioHandle;
use crate::sync_metrics::SyncMetrics;
use crate::time::{ClockReading, Duration, Instant};
use crate::video::VideoFrame;
use vstd::prelude::*;

verus! {

/// Smooth frames that end a recovery.
pub const RECOVERY_FRAME_THRESHOLD: u32 = 30;

/// Time after which a rejected frame is forced.
pub const STUCK_TIMEOUT_MS: u64 = 3_000;

/// The same for a frame that is only just out of reach.
pub const NEAR_BOUNDARY_FORCE_TIMEOUT_MS: u64 = 900;

/// How far ahead a live frame may be while audio has not begun.
pub const AUDIO_STARTUP_AHEAD_TOLERANCE_MS: u64 = 500;

/// The most that this tolerance grows to.
pub const AUDIO_STARTUP_MAX_TOLERANCE_MS: u64 = 30_000;

/// How far ahead of the clock a frame of a file may be.
pub const VOD_AHEAD_TOLERANCE_MS: u64 = 5;

/// How far ahead of the clock a live frame may be.
pub const LIVE_BASE_AHEAD_TOLERANCE_MS: u64 = 2_000;

/// The most that this tolerance adapts to.
pub const LIVE_MAX_AHEAD_TOLERANCE_MS: u64 = 4_600;

/// Margin that an adaptation adds.
pub const LIVE_AHEAD_MARGIN_MS: u64 = 180;

/// Gap beyond the base tolerance that still counts as only just out of reach.
pub const LIVE_NEAR_BOUNDARY_RANGE_MS: u64 = 2_600;

/// Jitter that a live frame is allowed on top.
pub const LIVE_ACCEPT_JITTER_TOLERANCE_MS: u64 = 90;

/// Time a reject window is stuck for one step of tolerance.
pub const TOLERANCE_STEP_MS: u128 = 500;

/// Reject windows that begin this soon after one another are a burst.
pub const REJECT_BURST_WINDOW_MS: u64 = 140;

pub const REJECT_BURST_THRESHOLD: u32 = 8;

/// Time for which a burst raises the tolerance.
pub const REJECT_BURST_TOLERANCE_HOLD_MS: u64 = 2_000;

/// Time after which the audio clock counts as started in any case.
pub const AUDIO_CLOCK_START_GRACE_MS: u64 = 2_000;

/// Time for which video is held at its start until audio begins.
pub const AUDIO_START_HOLD_MS: u64 = 500;

/// Shortest time between two reports that audio stands at zero.
pub const AUDIO_ZERO_DIAG_COOLDOWN_MS: u64 = 2_000;

/// A hold this long is a reject window rather than one frame interval.
pub const REJECT_WINDOW_REPORT_THRESHOLD_MS: u64 = 200;

/// Gap at which the last frame of a stream is still shown.
pub const EOS_LAST_FRAME_TOLERANCE_MS: u64 = 250;

/// Gap from which a frame that is stuck is dropped.
pub const STALE_GAP_THRESHOLD_MS: u64 = 10_000;

/// Forced resyncs in one reject window before its head frame is dropped.
pub const MAX_FORCED_RESYNCS_PER_WINDOW: u32 = 2;

/// Lead that is left after a rebase.
pub const OFFSET_REBASE_TARGET_LEAD_MS: u64 = 150;

/// Lead from which a rebase is made.
pub const OFFSET_REBASE_MIN_LEAD_MS: u64 = 2_500;

/// Samples for which the lead must be stable before a rebase.
pub const OFFSET_REBASE_MIN_STABLE_SAMPLES: u32 = 6;

/// Wobble within which a lead is stable.
pub const OFFSET_REBASE_STABILITY_TOLERANCE_MS: u64 = 220;

/// Bound on the bias of the scheduler, either way.
pub const MAX_VIDEO_PTS_BIAS_MS: u64 = 8_000;

/// The same in microseconds.
pub const MAX_VIDEO_PTS_BIAS_US: i64 = 8_000_000;

/// Pause between two polls that shows the application was in the background.
pub const RENDERING_GAP_THRESHOLD_MS: u64 = 100;

/// Lag behind audio from which a frame is not shown any more.
pub const STALE_FRAME_LAG_THRESHOLD_MS: u64 = 100;

/// Frames that a catch-up shows before it escalates.
pub const CATCH_UP_MAX_FRAMES: u32 = 10;

/// Time after which a catch-up escalates.
pub const CATCH_UP_MAX_DURATION_MS: u64 = 1_300;

/// Gap to the next frame over which the clock jumps.
pub const CLOCK_JUMP_GAP_MS: u64 = 1_000;

/// The same right after a frame was shown.
pub const CLOCK_JUMP_AFTER_FRAME_MS: u64 = 500;

/// How far before the next frame a jump lands.
pub const CLOCK_JUMP_LEAD_MS: u64 = 42;

/// How far the wall clock may run ahead of the frame on display.
pub const POSITION_RUNAWAY_MS: u64 = 3_000;

/// The same when playback is paused.
pub const PAUSE_RUNAWAY_MS: u64 = 1_000;

/// Least time between a stall and its end.
pub const STALL_COOLDOWN_MS: u64 = 33;

/// Time after which an audio stall is ignored.
pub const AUDIO_STALL_TIMEOUT_MS: u64 = 3_000;

/// Lead of audio over video at a live join from which the clock is rebased.
pub const JOIN_REBASE_MIN_OFFSET_MS: u64 = 100;

/// Samples hidden from the drift after a seek.
pub const SEEK_GRACE_SAMPLES: u64 = 30;

/// Samples hidden from the drift after the clock was set to audio.
pub const RESYNC_GRACE_SAMPLES: u64 = 10;

/// Time after the audio start before drift is corrected.
pub const DRIFT_WARMUP_MS: u64 = 5_000;

/// Least and greatest time between two corrections.
pub const DRIFT_MIN_INTERVAL_MS: u64 = 200;

pub const DRIFT_MAX_INTERVAL_MS: u64 = 500;

/// The correction of drift moves by at most a microsecond in so many nanoseconds: by
/// 10 ms in a second.
pub const DRIFT_NANOS_PER_MICRO: u128 = 100_000;

/// The most that one turn of the drift controller moves the correction: the half second
/// that counts, at 10 ms a second.
pub const MAX_DRIFT_STEP_US: i64 = 5_000;

/// Drift that is corrected in one step.
pub const DRIFT_STEP_THRESHOLD_US: u64 = 100_000;

/// Drift at which the correction begins and ends.
pub const DRIFT_ENTER_US: u64 = 40_000;

pub const DRIFT_EXIT_US: u64 = 20_000;

/// Least age of a drift baseline before it is replaced, and the drift that
/// replaces it.
pub const REBASELINE_MIN_AGE_MS: u64 = 2_000;

pub const REBASELINE_DRIFT_MS: u64 = 200;

/// Time to the first and between further clock reports.
pub const CLOCK_REPORT_FIRST_MS: u64 = 1_000;

pub const CLOCK_REPORT_INTERVAL_MS: u64 = 10_000;

/// How frames that are out of reach are dealt with.
#[derive(Debug, Clone, Copy, PartialEq, Eq, Structural)]
pub enum RejectHandlingState {
    Normal,
    /// Frames are shown although they are out of reach.
    CatchUp,
    /// The clock is set to the frames.
    Resync,
}

/// A run of polls in which the head frame was out of reach.
#[derive(Debug, Clone, Copy, PartialEq, Eq, Structural)]
pub struct RejectWindow {
    pub start_time: Option<Instant>,
    pub count: u32,
    pub peak_gap: Duration,
    pub forced_resyncs: u32,
    /// The window has lasted long enough to count.
    pub reported: bool,
    pub state: RejectHandlingState,
    pub catch_up_frames: u32,
    /// The one rebase of the window was made.
    pub offset_rebased: bool,
    pub last_lead: Option<Duration>,
    pub stable_lead_samples: u32,
}

impl RejectWindow {
    #[verifier::allow_in_spec]
    pub fn closed() -> RejectWindow
        returns
            (RejectWindow {
                start_time: None,
                count: 0,
                peak_gap: Duration::zero(),
                forced_resyncs: 0,
                reported: false,
                state: RejectHandlingState::Normal,
                catch_up_frames: 0,
                offset_rebased: false,
                last_lead: None,
                stable_lead_samples: 0,
            }),
    {
        RejectWindow {
            start_time: None,
            count: 0,
            peak_gap: Duration::zero(),
            forced_resyncs: 0,
            reported: false,
            state: RejectHandlingState::Normal,
            catch_up_frames: 0,
            offset_rebased: false,
            last_lead: None,
            stable_lead_samples: 0,
        }
    }
}

/// Reject windows that follow one another quickly.
#[derive(Debug, Clone, Copy, PartialEq, Eq, Structural)]
pub struct RejectBurst {
    pub last_start: Option<Instant>,
    pub count: u32,
    /// Until when the tolerance is raised.
    pub tolerance_until: Option<Instant>,
}

impl RejectBurst {
    #[verifier::allow_in_spec]
    pub fn none() -> RejectBurst
        returns
            (RejectBurst { last_start: None, count: 0, tolerance_until: None }),
    {
        RejectBurst { last_start: None, count: 0, tolerance_until: None }
    }
}

/// Correction for the drift between the wall clock and the audio clock.
#[derive(Debug, Clone, Copy, PartialEq, Eq, Structural)]
pub struct DriftController {
    /// Added to the position, in microseconds.
    pub correction_us: i64,
    pub last_update: Option<Instant>,
    /// The correction is under way.
    pub active: bool,
    /// The smoothed drift, as the bits of a 64-bit float.
    pub smoothed_bits: u64,
}

impl DriftController {
    #[verifier::allow_in_spec]
    pub fn idle() -> DriftController
        returns
            (DriftController {
                correction_us: 0,
                last_update: None,
                active: false,
                smoothed_bits: 0,
            }),
    {
        DriftController { correction_us: 0, last_update: None, active: false, smoothed_bits: 0 }
    }

    /// The filter starts anew; the correction that was reached stays.
    #[verifier::allow_in_spec]
    pub fn restarted(self) -> DriftController
        returns
            (DriftController {
                correction_us: self.correction_us,
                last_update: None,
                active: false,
                smoothed_bits: 0,
            }),
    {
        DriftController {
            correction_us: self.correction_us,
            last_update: None,
            active: false,
            smoothed_bits: 0,
        }
    }
}

/// What the drift filter makes of the values of [`DriftInputs`].
#[derive(Debug, Clone, Copy, PartialEq, Eq, Structural)]
pub struct DriftEstimate {
    /// The smoothed drift with the newest sample in it, as float bits.
    pub smoothed_bits: u64,
    /// The same in whole microseconds.
    pub drift_us: i64,
    /// By how much the correction is to move; what is taken of it is
    /// [`crate::scheduler_timing::drift_step_us`].
    pub delta_us: i64,
}

/// What the drift filter works on.
#[derive(Debug, Clone, Copy, PartialEq, Eq, Structural)]
pub struct DriftInputs {
    pub smoothed_bits: u64,
    pub raw_drift_us: i64,
    /// Time since the last correction, at most half a second.
    pub interval: Duration,
}

/// How far the wall clock and audio had come at a clock report.
#[derive(Debug, Clone, Copy, PartialEq, Eq, Structural)]
pub struct ClockDeltas {
    pub wall: Duration,
    pub audio: Duration,
}

/// Chooses frames from a queue.
#[derive(Debug, PartialEq, Eq, Structural)]
pub struct FrameScheduler {
    pub current_position: Duration,
    /// The frame on display.
    pub current_frame: Option<VideoFrame>,
    /// Counts the frames that were put on display.
    pub presentation_generation: u64,
    /// When the clock was set going; none while it stands.
    pub playback_start_time: Option<Instant>,
    /// The position at that time.
    pub playback_start_position: Duration,
    pub waiting_for_first_frame: bool,
    pub playback_requested: bool,
    /// No frame came during playback.
    pub stalled: bool,
    pub stall_cooldown_until: Option<Instant>,
    pub sync_metrics: SyncMetrics,
    /// The audio that the clock follows. It is here and nowhere else; a player, its
    /// controls and its threads borrow it from the scheduler.
    pub audio_handle: Option<AudioHandle>,
    pub frames_since_recovery: u32,
    /// Counts seeks, so that frames of an earlier one can be told apart.
    pub seek_generation: u64,
    /// Baseline of the drift between audio and wall clock.
    pub audio_start_time: Option<Instant>,
    pub audio_start_pos: Duration,
    pub last_clock_report: Option<Instant>,
    pub last_clock_report_values: Option<ClockDeltas>,
    pub reject: RejectWindow,
    pub burst: RejectBurst,
    pub last_audio_zero_diag: Option<Instant>,
    pub audio_clock_fallback_reported: bool,
    /// Added to the position for video that leads audio.
    pub video_pts_bias: Duration,
    pub drift: DriftController,
    pub next_frame_due: Option<Instant>,
    /// Least time between two frames; zero for no pacing.
    pub frame_pacing_interval: Duration,
    /// Audio drives the position; else the wall clock does.
    pub use_audio_as_sync_master: bool,
    /// Frozen because the audio buffer ran empty.
    pub audio_stalled: bool,
    pub audio_stall_start: Option<Instant>,
    /// An audio stall timed out and is not entered again until audio is back.
    pub ignore_audio_stall_until_recovered: bool,
    pub initial_pts_bias_applied: bool,
    /// The timestamp from which audio may be heard.
    pub deferred_epoch_pts: Option<Duration>,
    pub last_get_next_frame_time: Option<Instant>,
}

impl FrameScheduler {
    pub open spec fn fresh() -> FrameScheduler {
        FrameScheduler {
            current_position: Duration::zero(),
            current_frame: None,
            presentation_generation: 0,
            playback_start_time: None,
            playback_start_position: Duration::zero(),
            waiting_for_first_frame: false,
            playback_requested: false,
            stalled: false,
            stall_cooldown_until: None,
            sync_metrics: SyncMetrics::fresh(),
            audio_handle: None,
            frames_since_recovery: 0,
            seek_generation: 0,
            audio_start_time: None,
            audio_start_pos: Duration::zero(),
            last_clock_report: None,
            last_clock_report_values: None,
            reject: RejectWindow::closed(),
            burst: RejectBurst::none(),
            last_audio_zero_diag: None,
            audio_clock_fallback_reported: false,
            video_pts_bias: Duration::zero(),
            drift: DriftController::idle(),
            next_frame_due: None,
            frame_pacing_interval: Duration::zero(),
            use_audio_as_sync_master: true,
            audio_stalled: false,
            audio_stall_start: None,
            ignore_audio_stall_until_recovered: false,
            initial_pts_bias_applied: false,
            deferred_epoch_pts: None,
            last_get_next_frame_time: None,
        }
    }

    /// Both biases stay within their bound.
    pub open spec fn wf(&self) -> bool {
        &&& self.video_pts_bias.nanos <= Duration::from_millis(MAX_VIDEO_PTS_BIAS_MS).nanos
        &&& -MAX_VIDEO_PTS_BIAS_US <= self.drift.correction_us <= MAX_VIDEO_PTS_BIAS_US
    }

    pub fn new() -> (scheduler: Self)
        ensures
            scheduler == FrameScheduler::fresh(),
            scheduler.wf(),
    {
        FrameScheduler {
            current_position: Duration::zero(),
            current_frame: None,
            presentation_generation: 0,
            playback_start_time: None,
            playback_start_position: Duration::zero(),
            waiting_for_first_frame: false,
            playback_requested: false,
            stalled: false,
            stall_cooldown_until: None,
            sync_metrics: SyncMetrics::new(),
            audio_handle: None,
            frames_since_recovery: 0,
            seek_generation: 0,
            audio_start_time: None,
            audio_start_pos: Duration::zero(),
            last_clock_report: None,
            last_clock_report_values: None,
            reject: RejectWindow::closed(),
            burst: RejectBurst::none(),
            last_audio_zero_diag: None,
            audio_clock_fallback_reported: false,
            video_pts_bias: Duration::zero(),
            drift: DriftController::idle(),
            next_frame_due: None,
            frame_pacing_interval: Duration::zero(),
            use_audio_as_sync_master: true,
            audio_stalled: false,
            audio_stall_start: None,
            ignore_audio_stall_until_recovered: false,
            initial_pts_bias_applied: false,
            deferred_epoch_pts: None,
            last_get_next_frame_time: None,
        }
    }

    pub open spec fn with_audio(self, audio_handle: AudioHandle, master: bool) -> FrameScheduler {
        FrameScheduler {
            audio_handle: Some(audio_handle),
            last_audio_zero_diag: None,
            audio_clock_fallback_reported: false,
            sync_metrics: SyncMetrics { using_audio_clock: true, ..self.sync_metrics },
            use_audio_as_sync_master: master,
            ..self
        }
    }

    /// A scheduler that follows an audio handle.
    pub fn with_audio_handle(audio_handle: AudioHandle) -> (scheduler: Self)
        ensures
            scheduler == FrameScheduler::fresh().with_audio(audio_handle, true),
    {
        let mut scheduler = FrameScheduler::new();
        let _ = scheduler.set_audio_handle(audio_handle);
        scheduler
    }

    /// Follows an audio handle as the master clock, and gives back the one that it
    /// followed before.
    pub fn set_audio_handle(&mut self, audio_handle: AudioHandle) -> (before: Option<AudioHandle>)
        ensures
            *final(self) == old(self).with_audio(audio_handle, true),
            before == old(self).audio_handle,
    {
        let before: Option<AudioHandle> = self.audio_handle.take();
        self.audio_handle = Some(audio_handle);
        self.last_audio_zero_diag = None;
        self.audio_clock_fallback_reported = false;
        self.sync_metrics.set_using_audio_clock(true);
        self.use_audio_as_sync_master = true;
        before
    }

    /// Measures an audio handle while the wall clock drives the frames, as for
    /// a live stream whose audio comes late. Gives back the handle that it had.
    pub fn set_audio_handle_metrics_only(&mut self, audio_handle: AudioHandle) -> (before: Option<
        AudioHandle,
    >)
        ensures
            *final(self) == old(self).with_audio(audio_handle, false),
            before == old(self).audio_handle,
    {
        let before: Option<AudioHandle> = self.audio_handle.take();
        self.audio_handle = Some(audio_handle);
        self.last_audio_zero_diag = None;
        self.audio_clock_fallback_reported = false;
        self.sync_metrics.set_using_audio_clock(true);
        self.use_audio_as_sync_master = false;
        before
    }

    /// Gives the audio handle back; the wall clock drives the frames.
    pub fn clear_audio_handle(&mut self) -> (before: Option<AudioHandle>)
        ensures
            before == old(self).audio_handle,
            *final(self) == (FrameScheduler {
                audio_handle: None,
                audio_clock_fallback_reported: false,
                sync_metrics: SyncMetrics { using_audio_clock: false, ..old(self).sync_metrics },
                use_audio_as_sync_master: true,
                audio_start_time: None,
                audio_start_pos: Duration::zero(),
                initial_pts_bias_applied: false,
                deferred_epoch_pts: None,
                audio_stalled: false,
                audio_stall_start: None,
                ignore_audio_stall_until_recovered: false,
                last_get_next_frame_time: None,
                drift: DriftController::idle(),
                ..*old(self)
            }),
    {
        let before: Option<AudioHandle> = self.audio_handle.take();
        self.audio_clock_fallback_reported = false;
        self.sync_metrics.set_using_audio_clock(false);
        self.use_audio_as_sync_master = true;
        self.audio_start_time = None;
        self.audio_start_pos = Duration::zero();
        self.initial_pts_bias_applied = false;
        self.deferred_epoch_pts = None;
        self.audio_stalled = false;
        self.audio_stall_start = None;
        self.ignore_audio_stall_until_recovered = false;
        self.last_get_next_frame_time = None;
        self.drift = DriftController::idle();
        before
    }

    /// The audio that the clock follows, to change it.
    pub fn audio_handle_mut(&mut self) -> (handle: Option<&mut AudioHandle>)
        ensures
            match old(self).audio_handle {
                Some(audio) => {
                    &&& handle is Some
                    &&& *handle->0 == audio
                    &&& *final(self) == (FrameScheduler {
                        audio_handle: Some(*final(handle->0)),
                        ..*old(self)
                    })
                },
                None => handle is None && *final(self) == *old(self),
            },
    {
        self.audio_handle.as_mut()
    }

    /// The position at which the clock was set going.
    pub fn playback_start_position(&self) -> (position: Duration)
        ensures
            position == self.playback_start_position,
    {
        self.playback_start_position
    }

    /// Sets the bias for audio that is ahead of video when a live stream is
    /// joined, within its bound. A bias of zero changes nothing.
    pub fn set_initial_pts_bias(&mut self, bias: Duration)
        ensures
            *final(self) == (FrameScheduler {
                video_pts_bias: (if bias.is_zero() {
                    old(self).video_pts_bias
                } else {
                    bias.shorter(Duration::from_millis(MAX_VIDEO_PTS_BIAS_MS))
                }),
                ..*old(self)
            }),
    {
        let clamped: Duration = bias.shorter(Duration::from_millis(MAX_VIDEO_PTS_BIAS_MS));
        if !clamped.is_zero() {
            self.video_pts_bias = clamped;
        }
    }

    pub open spec fn with_pacing(self, interval: Option<Duration>) -> FrameScheduler {
        FrameScheduler {
            frame_pacing_interval: (match interval {
                Some(interval) => interval,
                None => self.frame_pacing_interval,
            }),
            ..self
        }
    }

    pub open spec fn without_pacing(self) -> FrameScheduler {
        if self.frame_pacing_interval.is_zero() {
            self
        } else {
            FrameScheduler {
                frame_pacing_interval: Duration::zero(),
                next_frame_due: None,
                ..self
            }
        }
    }

    /// Paces the frames of a live stream by deadlines `interval` apart, so that those
    /// that arrive together are not shown at once. The deadlines keep their cadence: a
    /// frame that is taken late does not put the next one off. None, for a rate that is
    /// not above zero, leaves the pacing as it is.
    pub fn set_frame_rate_pacing(&mut self, interval: Option<Duration>)
        ensures
            *final(self) == old(self).with_pacing(interval),
    {
        if let Some(interval) = interval {
            self.frame_pacing_interval = interval;
        }
    }

    /// Ends the pacing of frames.
    pub fn clear_frame_rate_pacing(&mut self)
        ensures
            *final(self) == old(self).without_pacing(),
    {
        if !self.frame_pacing_interval.is_zero() {
            self.frame_pacing_interval = Duration::zero();
            self.next_frame_due = None;
        }
    }

    /// The deadline one interval on; where that is more than an interval late,
    /// one interval from now, so that there is no burst to catch up.
    pub open spec fn paced(self, now: Instant) -> FrameScheduler {
        if self.frame_pacing_interval.is_zero() {
            self
        } else {
            let interval = self.frame_pacing_interval;
            let due = match self.next_frame_due {
                Some(due) => {
                    let next = due.after(interval);
                    if next.after(interval).before(now) {
                        now.after(interval)
                    } else {
                        next
                    }
                },
                None => now.after(interval),
            };
            FrameScheduler { next_frame_due: Some(due), ..self }
        }
    }

    pub(crate) fn advance_frame_pacing(&mut self, now: Instant)
        ensures
            *final(self) == old(self).paced(now),
    {
        if self.frame_pacing_interval.is_zero() {
            return;
        }
        let interval: Duration = self.frame_pacing_interval;
        let due: Instant = match self.next_frame_due {
            Some(due) => {
                let next: Instant = due.after(interval);
                if next.after(interval).before(now) {
                    now.after(interval)
                } else {
                    next
                }
            },
            None => now.after(interval),
        };
        self.next_frame_due = Some(due);
    }

    pub fn sync_metrics(&self) -> (metrics: &SyncMetrics)
        ensures
            *metrics == self.sync_metrics,
    {
        &self.sync_metrics
    }

    /// The audio position on the timeline of the video; zero without audio.
    #[verifier::allow_in_spec]
    pub fn audio_position(&self) -> Duration
        returns
            (match self.audio_handle {
                Some(handle) => handle.position_for_sync(),
                None => Duration::zero(),
            }),
    {
        match &self.audio_handle {
            Some(handle) => handle.position_for_sync(),
            None => Duration::zero(),
        }
    }

    /// The position that the wall clock gives, while it goes.
    #[verifier::allow_in_spec]
    pub fn wall_clock_position(&self, now: Instant) -> Option<Duration>
        returns
            (match self.playback_start_time {
                Some(start) => Some(
                    self.playback_start_position.saturating_add(now.duration_since(start)),
                ),
                None => None::<Duration>,
            }),
    {
        match self.playback_start_time {
            Some(start) => Some(
                self.playback_start_position.saturating_add(now.duration_since(start)),
            ),
            None => None,
        }
    }

    /// The playback position.
    ///
    /// It stands still while playback is stalled. It does not run further than
    /// three seconds ahead of the frame on display.
    #[verifier::allow_in_spec]
    pub fn position(&self, now: Instant) -> Duration
        returns
            (if self.stalled || self.audio_stalled {
                self.current_position
            } else {
                match self.wall_clock_position(now) {
                    None => self.current_position,
                    Some(wall) => match self.current_frame {
                        Some(frame) if frame.pts.saturating_add(
                            Duration::from_millis(POSITION_RUNAWAY_MS),
                        ).before(wall) => frame.pts,
                        _ => wall,
                    },
                }
            }),
    {
        if self.stalled || self.audio_stalled {
            return self.current_position;
        }
        let wall: Duration = match self.wall_clock_position(now) {
            Some(wall) => wall,
            None => return self.current_position,
        };
        if let Some(frame) = self.current_frame {
            let max_pos: Duration = frame.pts.saturating_add(
                Duration::from_millis(POSITION_RUNAWAY_MS),
            );
            if max_pos.before(wall) {
                return frame.pts;
            }
        }
        wall
    }

    /// True where audio could be the master clock but has not begun.
    pub open spec fn waits_for_audio(self) -> bool {
        &&& self.use_audio_as_sync_master
        &&& self.audio_handle is Some
        &&& self.audio_handle->0.available
        &&& self.audio_position().is_zero()
    }

    /// True where audio is the master clock and has begun.
    pub open spec fn follows_audio(self) -> bool {
        &&& self.use_audio_as_sync_master
        &&& self.audio_handle is Some
        &&& self.audio_handle->0.available
        &&& !self.audio_position().is_zero()
    }

    /// Time since the clock was set going.
    #[verifier::allow_in_spec]
    pub fn running_for(&self, now: Instant) -> Duration
        returns
            (match self.playback_start_time {
                Some(start) => now.duration_since(start),
                None => Duration::zero(),
            }),
    {
        match self.playback_start_time {
            Some(start) => now.duration_since(start),
            None => Duration::zero(),
        }
    }

    /// The position by which frames are chosen.
    ///
    /// Audio that has begun is followed, even where it is behind the wall
    /// clock. Audio that has not begun holds video at its start for half a
    /// second; after that, and without audio, the wall clock is followed.
    pub open spec fn chosen_position(self, now: Instant) -> Duration {
        if self.follows_audio() {
            self.audio_position()
        } else if self.waits_for_audio() && self.running_for(now).before(
            Duration::from_millis(AUDIO_START_HOLD_MS),
        ) {
            self.playback_start_position
        } else {
            self.position(now)
        }
    }

    /// Notes whether the wall clock stands in for audio that should have begun.
    pub open spec fn with_fallback_noted(self, now: Instant) -> FrameScheduler {
        FrameScheduler {
            audio_clock_fallback_reported: (if self.follows_audio() {
                false
            } else if self.waits_for_audio() && !self.running_for(now).before(
                Duration::from_millis(AUDIO_START_HOLD_MS),
            ) {
                true
            } else {
                self.audio_clock_fallback_reported
            }),
            ..self
        }
    }

    pub fn sync_position(&mut self, now: Instant) -> (position: Duration)
        ensures
            position == old(self).chosen_position(now),
            *final(self) == old(self).with_fallback_noted(now),
    {
        let wall: Duration = self.position(now);
        if !self.use_audio_as_sync_master {
            return wall;
        }
        if let Some(audio) = &self.audio_handle {
            if audio.is_available() {
                let audio_pos: Duration = audio.position_for_sync();
                if !audio_pos.is_zero() {
                    self.audio_clock_fallback_reported = false;
                    return audio_pos;
                }
                if self.running_for(now).before(Duration::from_millis(AUDIO_START_HOLD_MS)) {
                    return self.playback_start_position;
                }
                self.audio_clock_fallback_reported = true;
            }
        }
        wall
    }

    pub open spec fn after_start(self) -> FrameScheduler {
        FrameScheduler {
            playback_requested: true,
            waiting_for_first_frame: true,
            stalled: false,
            stall_cooldown_until: None,
            reject: RejectWindow::closed(),
            last_clock_report: None,
            last_clock_report_values: None,
            ..self
        }
    }

    /// Asks for playback. The clock is set going by the first frame.
    pub fn start(&mut self)
        ensures
            *final(self) == old(self).after_start(),
    {
        self.playback_requested = true;
        self.waiting_for_first_frame = true;
        self.stalled = false;
        self.stall_cooldown_until = None;
        self.reject = RejectWindow::closed();
        self.last_clock_report = None;
        self.last_clock_report_values = None;
    }

    /// The position at which playback is paused: that of the wall clock, or of
    /// the frame on display where the wall clock has run away from it.
    pub open spec fn pause_position(self, now: Instant) -> Duration {
        match self.wall_clock_position(now) {
            None => self.current_position,
            Some(wall) => match self.current_frame {
                Some(frame) if frame.pts.saturating_add(
                    Duration::from_millis(PAUSE_RUNAWAY_MS),
                ).before(wall) => frame.pts,
                _ => wall,
            },
        }
    }

    pub open spec fn after_pause(self, now: Instant) -> FrameScheduler {
        FrameScheduler {
            playback_requested: false,
            waiting_for_first_frame: false,
            stalled: false,
            stall_cooldown_until: None,
            reject: RejectWindow::closed(),
            audio_start_time: None,
            audio_start_pos: Duration::zero(),
            last_clock_report: None,
            last_clock_report_values: None,
            drift: self.drift.restarted(),
            playback_start_time: None,
            current_position: self.pause_position(now),
            ..self
        }
    }

    pub fn pause(&mut self, now: Instant)
        ensures
            *final(self) == old(self).after_pause(now),
    {
        self.playback_requested = false;
        self.waiting_for_first_frame = false;
        self.stalled = false;
        self.stall_cooldown_until = None;
        self.reject = RejectWindow::closed();
        self.audio_start_time = None;
        self.audio_start_pos = Duration::zero();
        self.last_clock_report = None;
        self.last_clock_report_values = None;
        self.drift = self.drift.restarted();
        if let Some(wall) = self.wall_clock_position(now) {
            self.current_position =
            match self.current_frame {
                Some(frame) => {
                    let max_pos: Duration = frame.pts.saturating_add(
                        Duration::from_millis(PAUSE_RUNAWAY_MS),
                    );
                    if max_pos.before(wall) {
                        frame.pts
                    } else {
                        wall
                    }
                },
                None => wall,
            };
        }
        self.playback_start_time = None;
    }

    pub open spec fn after_seek(self, position: Duration, unix_us: u64) -> FrameScheduler {
        let sought = FrameScheduler {
            current_position: position,
            playback_start_position: position,
            current_frame: None,
            stalled: false,
            stall_cooldown_until: None,
            reject: RejectWindow::closed(),
            seek_generation: self.seek_generation.wrapping_add(1),
            video_pts_bias: Duration::zero(),
            drift: DriftController::idle(),
            initial_pts_bias_applied: false,
            deferred_epoch_pts: None,
            last_get_next_frame_time: None,
            sync_metrics: SyncMetrics {
                grace_samples: SEEK_GRACE_SAMPLES,
                ..self.sync_metrics.after_reset(unix_us)
            },
            audio_handle: (match self.audio_handle {
                Some(audio) => Some(
                    AudioHandle {
                        playback_epoch_us: 0,
                        native_position_us: 0,
                        samples_played: 0,
                        audio_base_pts_us: None,
                        ..audio
                    },
                ),
                None => None,
            }),
            ..self
        };
        if self.playback_requested {
            FrameScheduler {
                waiting_for_first_frame: true,
                playback_start_time: None,
                audio_start_time: None,
                audio_start_pos: Duration::zero(),
                last_clock_report: None,
                last_clock_report_values: None,
                ..sought
            }
        } else {
            sought
        }
    }

    /// Goes to a position. Nothing of the old place is left: neither its frame
    /// nor its audio clock nor its drift.
    pub fn seek(&mut self, position: Duration, unix_us: u64)
        ensures
            *final(self) == old(self).after_seek(position, unix_us),
    {
        self.current_position = position;
        self.playback_start_position = position;
        self.current_frame = None;
        self.stalled = false;
        self.stall_cooldown_until = None;
        self.reject = RejectWindow::closed();
        self.seek_generation = self.seek_generation.wrapping_add(1);
        self.video_pts_bias = Duration::zero();
        self.drift = DriftController::idle();
        self.initial_pts_bias_applied = false;
        self.deferred_epoch_pts = None;
        self.last_get_next_frame_time = None;
        self.sync_metrics.reset(unix_us);
        self.sync_metrics.set_grace_period(SEEK_GRACE_SAMPLES);
        if let Some(mut audio) = self.audio_handle.take() {
            audio.clear_playback_epoch();
            audio.clear_native_position();
            audio.reset_samples_played();
            audio.clear_audio_base_pts();
            self.audio_handle = Some(audio);
        }
        if self.playback_requested {
            self.waiting_for_first_frame = true;
            self.playback_start_time = None;
            self.audio_start_time = None;
            self.audio_start_pos = Duration::zero();
            self.last_clock_report = None;
            self.last_clock_report_values = None;
        }
    }

    /// True while the clock goes.
    #[verifier::allow_in_spec]
    pub fn is_playing(&self) -> bool
        returns
            self.playback_start_time is Some,
    {
        self.playback_start_time.is_some()
    }

    #[verifier::allow_in_spec]
    pub fn is_playback_requested(&self) -> bool
        returns
            self.playback_requested,
    {
        self.playback_requested
    }

    #[verifier::allow_in_spec]
    pub fn is_stalled(&self) -> bool
        returns
            self.stalled || self.audio_stalled,
    {
        self.stalled || self.audio_stalled
    }

    #[verifier::allow_in_spec]
    pub fn is_audio_stall(&self) -> bool
        returns
            self.audio_stalled,
    {
        self.audio_stalled
    }

    /// Ends an audio stall because the audio is gone.
    pub fn clear_audio_stall(&mut self, now: Instant)
        ensures
            *final(self) == (if old(self).audio_stalled {
                FrameScheduler {
                    ignore_audio_stall_until_recovered: false,
                    audio_stalled: false,
                    audio_stall_start: None,
                    playback_start_time: (if old(self).playback_requested {
                        Some(now)
                    } else {
                        old(self).playback_start_time
                    }),
                    playback_start_position: (if old(self).playback_requested {
                        old(self).current_position
                    } else {
                        old(self).playback_start_position
                    }),
                    frames_since_recovery: 0,
                    ..*old(self)
                }
            } else {
                FrameScheduler { ignore_audio_stall_until_recovered: false, ..*old(self) }
            }),
    {
        self.ignore_audio_stall_until_recovered = false;
        if self.audio_stalled {
            self.audio_stalled = false;
            self.audio_stall_start = None;
            if self.playback_requested {
                self.playback_start_time = Some(now);
                self.playback_start_position = self.current_position;
            }
            self.frames_since_recovery = 0;
        }
    }

    /// The clock is set going by the first frame after a start or a seek. Where
    /// audio is the master its clock starts with it.
    pub open spec fn with_clock_started(self, frame_pts: Duration, clock: ClockReading) -> FrameScheduler {
        if self.waiting_for_first_frame && self.playback_requested {
            FrameScheduler {
                playback_start_time: Some(clock.now),
                playback_start_position: frame_pts,
                waiting_for_first_frame: false,
                audio_handle: (match self.audio_handle {
                    Some(audio) if self.use_audio_as_sync_master => Some(
                        audio.with_epoch_started(clock.unix_us),
                    ),
                    _ => self.audio_handle,
                }),
                ..self
            }
        } else {
            self
        }
    }

    pub(crate) fn on_frame_received(&mut self, frame_pts: Duration, clock: ClockReading)
        ensures
            *final(self) == old(self).with_clock_started(frame_pts, clock),
    {
        if self.waiting_for_first_frame && self.playback_requested {
            self.playback_start_time = Some(clock.now);
            self.playback_start_position = frame_pts;
            self.waiting_for_first_frame = false;
            if self.use_audio_as_sync_master {
                if let Some(mut audio) = self.audio_handle.take() {
                    audio.start_playback_epoch(clock.unix_us);
                    self.audio_handle = Some(audio);
                }
            }
        }
    }

    /// True where audio is not waited for any more: there is none, it cannot be
    /// had, it has begun, or it had its time to begin.
    #[verifier::allow_in_spec]
    pub fn audio_started_for_timing(&self, now: Instant) -> bool
        returns
            (match self.audio_handle {
                None => true,
                Some(handle) => !handle.available || !handle.position_for_sync().is_zero() || (
                self.playback_start_time is Some && !self.running_for(now).before(
                    Duration::from_millis(AUDIO_CLOCK_START_GRACE_MS),
                )),
            }),
    {
        match &self.audio_handle {
            None => true,
            Some(handle) => {
                if !handle.is_available() {
                    return true;
                }
                if !handle.position_for_sync().is_zero() {
                    return true;
                }
                match self.playback_start_time {
                    Some(start) => !now.duration_since(start).before(
                        Duration::from_millis(AUDIO_CLOCK_START_GRACE_MS),
                    ),
                    None => false,
                }
            },
        }
    }

    /// Notes the time of a report that audio stands at zero, unless there was
    /// one a moment ago.
    pub open spec fn with_audio_zero_noted(self, now: Instant) -> FrameScheduler {
        if self.audio_handle is Some && self.audio_position().is_zero() && !(
        self.last_audio_zero_diag is Some && now.duration_since(
            self.last_audio_zero_diag->0,
        ).before(Duration::from_millis(AUDIO_ZERO_DIAG_COOLDOWN_MS))) {
            FrameScheduler { last_audio_zero_diag: Some(now), ..self }
        } else {
            self
        }
    }

    pub(crate) fn note_audio_zero(&mut self, now: Instant)
        ensures
            *final(self) == old(self).with_audio_zero_noted(now),
    {
        let audio: &AudioHandle = match &self.audio_handle {
            Some(audio) => audio,
            None => return,
        };
        if !audio.position_for_sync().is_zero() {
            return;
        }
        if let Some(last) = self.last_audio_zero_diag {
            if now.duration_since(last).before(
                Duration::from_millis(AUDIO_ZERO_DIAG_COOLDOWN_MS),
            ) {
                return;
            }
        }
        self.last_audio_zero_diag = Some(now);
    }
}

impl Default for FrameScheduler {
    fn default() -> (scheduler: Self)
        ensures
            scheduler == FrameScheduler::fresh(),
    {
        FrameScheduler::new()
    }
}

} // verus!
