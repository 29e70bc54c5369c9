//! The choice of the next frame.

use crate::audio::AudioHandle;
use crate::frame_queue::FrameQueue;
use crate::frame_scheduler::{
    DriftController, DriftEstimate, FrameScheduler, RejectHandlingState, RejectWindow,
    AUDIO_STALL_TIMEOUT_MS, CATCH_UP_MAX_DURATION_MS, CATCH_UP_MAX_FRAMES,
    CLOCK_JUMP_AFTER_FRAME_MS, CLOCK_JUMP_GAP_MS, CLOCK_JUMP_LEAD_MS, EOS_LAST_FRAME_TOLERANCE_MS,
    JOIN_REBASE_MIN_OFFSET_MS, LIVE_ACCEPT_JITTER_TOLERANCE_MS, MAX_FORCED_RESYNCS_PER_WINDOW,
    NEAR_BOUNDARY_FORCE_TIMEOUT_MS, REJECT_WINDOW_REPORT_THRESHOLD_MS, RENDERING_GAP_THRESHOLD_MS,
    STALE_FRAME_LAG_THRESHOLD_MS, STALE_GAP_THRESHOLD_MS, STUCK_TIMEOUT_MS,
};
use crate::scheduler_timing::is_near_boundary;
use crate::time::{ClockReading, Duration, Instant};
use crate::video::VideoFrame;
use vstd::prelude::*;

verus! {

/// What one look at the head of the queue led to.
#[derive(Debug, Clone, Copy, PartialEq, Eq, Structural)]
pub enum Step {
    /// Look again. `jumped` tells that the clock has jumped for this head.
    Again { jumped: bool },
    /// Show this.
    Done(Option<VideoFrame>),
}

/// What is done about a head frame that is out of reach.
#[derive(Debug, Clone, Copy, PartialEq, Eq, Structural)]
pub enum Verdict {
    /// Keep what is on display.
    Hold,
    /// Drop the frame and look at the next one.
    DropHead,
    /// Show the frame all the same.
    CatchUp,
    /// Show the frame and set the clock to it.
    Resync,
}

/// Frames at the head of a queue that are due at `limit`.
pub open spec fn leading_due(frames: Seq<VideoFrame>, limit: Duration) -> nat
    decreases frames.len(),
{
    if frames.len() == 0 || limit.before(frames[0].pts) {
        0
    } else {
        1 + leading_due(frames.skip(1), limit)
    }
}

/// Takes the head of a queue and the frames behind it that are due, and returns
/// the last one taken.
fn take_newest_due(queue: &mut FrameQueue, limit: Duration) -> (frame: VideoFrame)
    requires
        old(queue).wf(),
        old(queue).frames@.len() > 0,
    ensures
        final(queue).wf(),
        final(queue).same_but_frames(*old(queue)),
        ({
            let taken = 1 + leading_due(old(queue).frames@.skip(1), limit) as int;
            &&& taken <= old(queue).frames@.len()
            &&& frame == old(queue).frames@[taken - 1]
            &&& final(queue).frames@ =~= old(queue).frames@.skip(taken)
        }),
{
    let ghost frames = queue.frames@;
    let mut frame: VideoFrame = queue.frames[0];
    let _ = queue.pop();
    let ghost mut taken: int = 1;
    loop
        invariant
            queue.wf(),
            queue.same_but_frames(*old(queue)),
            1 <= taken <= frames.len(),
            frame == frames[taken - 1],
            queue.frames@ =~= frames.skip(taken),
            leading_due(frames.skip(1), limit) == taken - 1 + leading_due(queue.frames@, limit),
        ensures
            queue.wf(),
            queue.same_but_frames(*old(queue)),
            1 <= taken <= frames.len(),
            frame == frames[taken - 1],
            queue.frames@ =~= frames.skip(taken),
            leading_due(frames.skip(1), limit) == taken - 1,
        decreases queue.frames@.len(),
    {
        let due: bool = match queue.peek_pts() {
            Some(pts) => !limit.before(pts),
            None => false,
        };
        if !due {
            break;
        }
        let ghost before = queue.frames@;
        if let Some(newer) = queue.pop() {
            frame = newer;
        }
        proof {
            taken = taken + 1;
            assert(queue.frames@ =~= before.skip(1));
            assert(before.skip(1) =~= frames.skip(taken));
        }
    }
    frame
}

proof fn lemma_leading_due_bound(frames: Seq<VideoFrame>, limit: Duration)
    ensures
        leading_due(frames, limit) <= frames.len(),
    decreases frames.len(),
{
    if frames.len() > 0 {
        lemma_leading_due_bound(frames.skip(1), limit);
    }
}

impl RejectWindow {
    /// The window, opened where it was not, with one more rejection.
    pub open spec fn counted(self, gap: Duration, now: Instant) -> RejectWindow {
        RejectWindow {
            start_time: (match self.start_time {
                Some(start) => Some(start),
                None => Some(now),
            }),
            count: (if self.count == u32::MAX {
                u32::MAX
            } else {
                (self.count + 1) as u32
            }),
            peak_gap: self.peak_gap.longer(gap),
            ..self
        }
    }

    fn count_one(self, gap: Duration, now: Instant) -> (window: RejectWindow)
        ensures
            window == self.counted(gap, now),
    {
        let mut window: RejectWindow = self;
        if window.start_time.is_none() {
            window.start_time = Some(now);
        }
        window.count = window.count.saturating_add(1);
        window.peak_gap = window.peak_gap.longer(gap);
        window
    }

    /// True where a catch-up has gone on for long enough.
    pub open spec fn catch_up_is_over(self, stuck: Duration, timeout: Duration) -> bool {
        ||| !stuck.before(timeout.saturating_add(Duration::from_millis(CATCH_UP_MAX_DURATION_MS)))
        ||| self.catch_up_frames >= CATCH_UP_MAX_FRAMES
    }

    /// What is done about a head frame that has been out of reach for `stuck`.
    ///
    /// Until `timeout`, nothing. Then frames are shown all the same; when that
    /// does not help the clock is set to them, at most twice; and when that does
    /// not help either, or the head is very far away, it is dropped.
    pub open spec fn verdict(self, stuck: Duration, timeout: Duration, gap: Duration) -> Verdict {
        if stuck.before(timeout) {
            Verdict::Hold
        } else if !gap.before(Duration::from_millis(STALE_GAP_THRESHOLD_MS)) {
            Verdict::DropHead
        } else if self.state !is Resync && !self.catch_up_is_over(stuck, timeout) {
            Verdict::CatchUp
        } else if self.forced_resyncs < MAX_FORCED_RESYNCS_PER_WINDOW {
            Verdict::Resync
        } else {
            Verdict::DropHead
        }
    }

    /// The window after the verdict.
    pub open spec fn judged(self, verdict: Verdict) -> RejectWindow {
        match verdict {
            Verdict::Hold => self,
            Verdict::DropHead => RejectWindow::closed(),
            Verdict::CatchUp => RejectWindow {
                state: RejectHandlingState::CatchUp,
                catch_up_frames: (self.catch_up_frames + 1) as u32,
                ..self
            },
            Verdict::Resync => RejectWindow {
                state: RejectHandlingState::Resync,
                forced_resyncs: (self.forced_resyncs + 1) as u32,
                ..self
            },
        }
    }

    fn judge(self, stuck: Duration, timeout: Duration, gap: Duration) -> (judged: (
        RejectWindow,
        Verdict,
    ))
        ensures
            judged.1 == self.verdict(stuck, timeout, gap),
            judged.0 == self.judged(judged.1),
    {
        let mut window: RejectWindow = self;
        if stuck.before(timeout) {
            return (window, Verdict::Hold);
        }
        if !gap.before(Duration::from_millis(STALE_GAP_THRESHOLD_MS)) {
            return (RejectWindow::closed(), Verdict::DropHead);
        }
        if window.state != RejectHandlingState::Resync {
            let timed_out: bool = !stuck.before(
                timeout.saturating_add(Duration::from_millis(CATCH_UP_MAX_DURATION_MS)),
            );
            if !timed_out && window.catch_up_frames < CATCH_UP_MAX_FRAMES {
                window.state = RejectHandlingState::CatchUp;
                window.catch_up_frames = window.catch_up_frames + 1;
                return (window, Verdict::CatchUp);
            }
            window.state = RejectHandlingState::Resync;
        }
        if window.forced_resyncs < MAX_FORCED_RESYNCS_PER_WINDOW {
            window.forced_resyncs = window.forced_resyncs + 1;
            (window, Verdict::Resync)
        } else {
            (RejectWindow::closed(), Verdict::DropHead)
        }
    }
}

impl FrameScheduler {
    /// A frame goes on display.
    pub open spec fn presenting(self, frame: VideoFrame) -> FrameScheduler {
        FrameScheduler {
            current_position: frame.pts,
            current_frame: Some(frame),
            presentation_generation: self.presentation_generation.wrapping_add(1),
            ..self
        }
    }

    fn present(&mut self, frame: VideoFrame)
        ensures
            *final(self) == old(self).presenting(frame),
    {
        self.current_position = frame.pts;
        self.current_frame = Some(frame);
        self.presentation_generation = self.presentation_generation.wrapping_add(1);
    }

    /// The clock runs from `position` on.
    pub open spec fn running_from(self, position: Duration, now: Instant) -> FrameScheduler {
        FrameScheduler {
            playback_start_time: Some(now),
            playback_start_position: position,
            ..self
        }
    }

    /// The clock jumps to just before a frame.
    pub open spec fn jumped_before(self, next_pts: Duration, now: Instant) -> FrameScheduler {
        let jump_to = next_pts.saturating_sub(Duration::from_millis(CLOCK_JUMP_LEAD_MS));
        FrameScheduler { current_position: jump_to, ..self.running_from(jump_to, now) }
    }

    fn jump_before(&mut self, next_pts: Duration, now: Instant)
        ensures
            *final(self) == old(self).jumped_before(next_pts, now),
    {
        let jump_to: Duration = next_pts.saturating_sub(Duration::from_millis(CLOCK_JUMP_LEAD_MS));
        self.current_position = jump_to;
        self.playback_start_position = jump_to;
        self.playback_start_time = Some(now);
    }

    /// Takes the first frame after a start or a seek, whatever its time.
    ///
    /// A frame at zero is shown but does not set the clock going: it may be a
    /// probe of the decoder, with the content beginning later. Where the next
    /// frame is more than a second later the clock jumps to it.
    pub open spec fn with_first_frame(
        self,
        frames: Seq<VideoFrame>,
        clock: ClockReading,
    ) -> FrameScheduler {
        if frames.len() == 0 {
            self
        } else if frames[0].pts.is_zero() {
            self.presenting(frames[0])
        } else {
            let shown = FrameScheduler {
                stalled: false,
                stall_cooldown_until: None,
                ..self.with_clock_started(frames[0].pts, clock).presenting(frames[0])
            }.paced(clock.now).with_sync_recorded(frames[0].pts, clock);
            if frames.len() > 1 && Duration::from_millis(CLOCK_JUMP_GAP_MS).before(
                frames[1].pts.saturating_sub(frames[0].pts),
            ) {
                shown.jumped_before(frames[1].pts, clock.now)
            } else {
                shown
            }
        }
    }

    fn take_first_frame(&mut self, queue: &mut FrameQueue, clock: ClockReading) -> (shown: Option<
        VideoFrame,
    >)
        requires
            old(queue).wf(),
            old(self).waiting_for_first_frame,
        ensures
            final(queue).wf(),
            final(queue).same_but_frames(*old(queue)),
            *final(self) == old(self).with_first_frame(old(queue).frames@, clock),
            final(queue).frames@ =~= (if old(queue).frames@.len() == 0 {
                old(queue).frames@
            } else {
                old(queue).frames@.skip(1)
            }),
            shown == final(self).current_frame,
    {
        let frame: VideoFrame = match queue.pop() {
            Some(frame) => frame,
            None => return self.current_frame,
        };
        if frame.pts.is_zero() {
            self.present(frame);
            return Some(frame);
        }
        self.on_frame_received(frame.pts, clock);
        self.present(frame);
        self.stalled = false;
        self.stall_cooldown_until = None;
        self.advance_frame_pacing(clock.now);
        self.record_sync(frame.pts, clock);
        proof {
            lemma_sync_recorded_keeps(
                FrameScheduler {
                    stalled: false,
                    stall_cooldown_until: None,
                    ..old(self).with_clock_started(frame.pts, clock).presenting(frame)
                }.paced(clock.now),
                frame.pts,
                clock,
            );
        }
        if let Some(next_pts) = queue.peek_pts() {
            if Duration::from_millis(CLOCK_JUMP_GAP_MS).before(
                next_pts.saturating_sub(frame.pts),
            ) {
                self.jump_before(next_pts, clock.now);
            }
        }
        Some(frame)
    }

    /// True where polls paused for so long that the application was in the
    /// background, with audio playing on.
    pub open spec fn was_in_background(self, now: Instant) -> bool {
        &&& self.last_get_next_frame_time is Some
        &&& Duration::from_millis(RENDERING_GAP_THRESHOLD_MS).before(
            now.duration_since(self.last_get_next_frame_time->0),
        )
        &&& !self.audio_position().is_zero()
    }

    /// True where pauses between polls matter: the wall clock drives and goes.
    pub open spec fn minds_gaps(self) -> bool {
        !self.use_audio_as_sync_master && self.playback_start_time is Some
    }

    /// After a pause in the background the clock is set to audio; the frames
    /// that waited are stale.
    pub open spec fn with_gap_handled(self, now: Instant) -> FrameScheduler {
        if !self.minds_gaps() {
            self
        } else if self.was_in_background(now) {
            FrameScheduler {
                next_frame_due: None,
                last_get_next_frame_time: Some(now),
                ..self.resynced_to_audio(now)
            }
        } else {
            FrameScheduler { last_get_next_frame_time: Some(now), ..self }
        }
    }

    /// The frames that are left after a pause was handled.
    pub open spec fn frames_after_gap(self, frames: Seq<VideoFrame>, now: Instant) -> Seq<VideoFrame> {
        if self.minds_gaps() && self.was_in_background(now) {
            Seq::empty()
        } else {
            frames
        }
    }

    fn handle_gap(&mut self, queue: &mut FrameQueue, now: Instant)
        requires
            old(queue).wf(),
        ensures
            final(queue).wf(),
            final(queue).same_but_frames(*old(queue)),
            *final(self) == old(self).with_gap_handled(now),
            final(queue).frames@ =~= old(self).frames_after_gap(old(queue).frames@, now),
    {
        if self.use_audio_as_sync_master || self.playback_start_time.is_none() {
            return;
        }
        if let Some(last) = self.last_get_next_frame_time {
            if Duration::from_millis(RENDERING_GAP_THRESHOLD_MS).before(now.duration_since(last)) {
                if !self.audio_position().is_zero() {
                    while !queue.is_empty()
                        invariant
                            queue.wf(),
                            queue.same_but_frames(*old(queue)),
                        decreases queue.frames@.len(),
                    {
                        let _ = queue.pop();
                    }
                    self.resync_to_audio(now);
                    self.next_frame_due = None;
                }
            }
        }
        self.last_get_next_frame_time = Some(now);
    }

    /// True where the pacing holds the frame on display a little longer.
    #[verifier::allow_in_spec]
    pub fn holds_for_pacing(&self, now: Instant) -> bool
        returns
            !self.frame_pacing_interval.is_zero() && self.next_frame_due is Some && now.before(
                self.next_frame_due->0,
            ),
    {
        if self.frame_pacing_interval.is_zero() {
            return false;
        }
        match self.next_frame_due {
            Some(due) => now.before(due),
            None => false,
        }
    }

    /// When a live stream is joined in the middle, its first frame is older
    /// than its first audio. The clock is set to audio, so that the old frames
    /// pass at once, and audio is held back until video has caught up.
    pub open spec fn with_join_rebased(self, now: Instant) -> FrameScheduler {
        if !self.initial_pts_bias_applied && !self.use_audio_as_sync_master && self.audio_handle
            is Some && self.audio_handle->0.audio_base_pts() is Some {
            let audio_start = self.audio_handle->0.audio_base_pts()->0;
            let noted = FrameScheduler {
                initial_pts_bias_applied: true,
                deferred_epoch_pts: Some(audio_start),
                drift: DriftController::idle(),
                ..self
            };
            if Duration::from_millis(JOIN_REBASE_MIN_OFFSET_MS).before(
                audio_start.saturating_sub(self.playback_start_position),
            ) {
                FrameScheduler {
                    current_position: audio_start,
                    ..noted.running_from(audio_start, now)
                }
            } else {
                noted
            }
        } else {
            self
        }
    }

    fn rebase_join(&mut self, now: Instant)
        ensures
            *final(self) == old(self).with_join_rebased(now),
    {
        if self.initial_pts_bias_applied || self.use_audio_as_sync_master {
            return;
        }
        let audio: &AudioHandle = match &self.audio_handle {
            Some(audio) => audio,
            None => return,
        };
        let audio_start: Duration = match audio.audio_base_pts() {
            Some(audio_start) => audio_start,
            None => return,
        };
        self.initial_pts_bias_applied = true;
        let offset: Duration = audio_start.saturating_sub(self.playback_start_position);
        if Duration::from_millis(JOIN_REBASE_MIN_OFFSET_MS).before(offset) {
            self.playback_start_position = audio_start;
            self.playback_start_time = Some(now);
            self.current_position = audio_start;
        }
        self.deferred_epoch_pts = Some(audio_start);
        self.drift = DriftController::idle();
    }

    /// True where audio had begun and has run dry.
    pub open spec fn audio_ran_dry(self) -> bool {
        &&& self.audio_handle is Some
        &&& self.audio_handle->0.available
        &&& !self.audio_position().is_zero()
        &&& self.audio_handle->0.audio_stalled
    }

    /// True where an audio stall has lasted too long to wait on.
    pub open spec fn audio_stall_timed_out(self, now: Instant) -> bool {
        self.audio_stall_start is Some && Duration::from_millis(AUDIO_STALL_TIMEOUT_MS).before(
            now.duration_since(self.audio_stall_start->0),
        )
    }

    /// True where the frame on display is held because audio ran dry.
    pub open spec fn holds_for_audio(self, now: Instant) -> bool {
        &&& !self.use_audio_as_sync_master
        &&& self.audio_ran_dry()
        &&& !self.ignore_audio_stall_until_recovered
        &&& !self.audio_stall_timed_out(now)
    }

    /// The scheduler after a look at the state of audio, which freezes video
    /// only where the wall clock drives.
    pub open spec fn with_audio_gate(self, clock: ClockReading) -> FrameScheduler {
        if self.use_audio_as_sync_master || self.audio_handle is None {
            self
        } else if self.audio_ran_dry() {
            if self.ignore_audio_stall_until_recovered {
                self
            } else if self.audio_stall_timed_out(clock.now) {
                FrameScheduler {
                    ignore_audio_stall_until_recovered: true,
                    ..self.with_audio_stall_left(clock.now)
                }
            } else {
                self.with_audio_stall_entered(clock)
            }
        } else {
            let recovered = FrameScheduler { ignore_audio_stall_until_recovered: false, ..self };
            if self.audio_stalled {
                recovered.with_audio_stall_left(clock.now)
            } else {
                recovered
            }
        }
    }

    fn audio_gate(&mut self, clock: ClockReading) -> (hold: bool)
        ensures
            hold == old(self).holds_for_audio(clock.now),
            *final(self) == old(self).with_audio_gate(clock),
    {
        if self.use_audio_as_sync_master {
            return false;
        }
        let audio: &AudioHandle = match &self.audio_handle {
            Some(audio) => audio,
            None => return false,
        };
        let producing: bool = audio.is_available() && !audio.position_for_sync().is_zero();
        if producing && audio.is_audio_stalled() {
            if self.ignore_audio_stall_until_recovered {
                return false;
            }
            let timed_out: bool = match self.audio_stall_start {
                Some(start) => Duration::from_millis(AUDIO_STALL_TIMEOUT_MS).before(
                    clock.now.duration_since(start),
                ),
                None => false,
            };
            if timed_out {
                self.exit_audio_stall(clock.now);
                self.ignore_audio_stall_until_recovered = true;
                false
            } else {
                self.enter_audio_stall(clock);
                true
            }
        } else {
            self.ignore_audio_stall_until_recovered = false;
            if self.audio_stalled {
                self.exit_audio_stall(clock.now);
            }
            false
        }
    }

    /// The scheduler when it looks at the head of a queue that has frames.
    #[verifier::opaque]
    pub open spec fn looking(self, clock: ClockReading, estimate: DriftEstimate) -> FrameScheduler {
        self.with_stall_cleared(clock).with_drift_corrected(clock.now, estimate).with_fallback_noted(
            clock.now,
        )
    }

    /// The biased position by which the head is judged.
    #[verifier::opaque]
    pub open spec fn judging_position(
        self,
        clock: ClockReading,
        estimate: DriftEstimate,
    ) -> Duration {
        let s = self.with_stall_cleared(clock).with_drift_corrected(clock.now, estimate);
        s.biased(s.chosen_position(clock.now))
    }

    fn look(&mut self, clock: ClockReading, estimate: DriftEstimate) -> (position: Duration)
        ensures
            *final(self) == old(self).looking(clock, estimate),
            position == old(self).judging_position(clock, estimate),
    {
        reveal(FrameScheduler::looking);
        reveal(FrameScheduler::judging_position);
        self.clear_stall_if_needed(clock);
        self.update_clock_drift_correction(clock.now, estimate);
        let raw: Duration = self.sync_position(clock.now);
        self.biased(raw)
    }

    /// The latest timestamp that may be shown now.
    pub open spec fn accept_limit(
        self,
        next_pts: Duration,
        position: Duration,
        now: Instant,
    ) -> Duration {
        let tolerance = self.ahead_tolerance(
            self.audio_started_for_timing(now),
            next_pts.abs_diff(position),
            now,
        );
        if self.frame_pacing_interval.is_zero() {
            position.saturating_add(tolerance)
        } else {
            position.saturating_add(
                tolerance.saturating_add(Duration::from_millis(LIVE_ACCEPT_JITTER_TOLERANCE_MS)),
            )
        }
    }

    fn find_accept_limit(
        &self,
        next_pts: Duration,
        position: Duration,
        now: Instant,
    ) -> (limit: Duration)
        ensures
            limit == self.accept_limit(next_pts, position, now),
    {
        let tolerance: Duration = self.compute_ahead_tolerance(
            self.audio_started_for_timing(now),
            next_pts.abs_diff(position),
            now,
        );
        if self.frame_pacing_interval.is_zero() {
            position.saturating_add(tolerance)
        } else {
            position.saturating_add(
                tolerance.saturating_add(Duration::from_millis(LIVE_ACCEPT_JITTER_TOLERANCE_MS)),
            )
        }
    }

    /// True where the head may be shown: it is due, there is nothing else to
    /// show, or it is the tail of a stream that has ended.
    pub open spec fn accepts(
        self,
        next_pts: Duration,
        position: Duration,
        eos: bool,
        now: Instant,
    ) -> bool {
        ||| !self.accept_limit(next_pts, position, now).before(next_pts)
        ||| self.current_frame is None
        ||| eos && next_pts.abs_diff(position).nanos <= Duration::from_millis(
            EOS_LAST_FRAME_TOLERANCE_MS,
        ).nanos
    }

    fn count_rejection(&mut self, gap: Duration, now: Instant)
        ensures
            *final(self) == (FrameScheduler {
                reject: old(self).reject.counted(gap, now),
                ..*old(self)
            }),
    {
        self.reject = self.reject.count_one(gap, now);
    }

    /// Time for which the reject window has been open.
    #[verifier::allow_in_spec]
    pub fn stuck_for(&self, now: Instant) -> Duration
        returns
            (match self.reject.start_time {
                Some(start) => now.duration_since(start),
                None => Duration::zero(),
            }),
    {
        match self.reject.start_time {
            Some(start) => now.duration_since(start),
            None => Duration::zero(),
        }
    }

    /// A window that has lasted long enough is reported, once.
    pub open spec fn with_window_reported(self, now: Instant) -> FrameScheduler {
        if !self.reject.reported && !self.stuck_for(now).before(
            Duration::from_millis(REJECT_WINDOW_REPORT_THRESHOLD_MS),
        ) {
            let noted = FrameScheduler {
                reject: RejectWindow { reported: true, ..self.reject },
                ..self
            }.with_reject_window_noted(now);
            if self.audio_position().is_zero() {
                noted.with_audio_zero_noted(now)
            } else {
                noted
            }
        } else {
            self
        }
    }

    /// A rejection, with all that is noted of it.
    #[verifier::opaque]
    pub open spec fn with_rejection_noted(
        self,
        next_pts: Duration,
        position: Duration,
        now: Instant,
    ) -> FrameScheduler {
        FrameScheduler {
            reject: self.reject.counted(next_pts.abs_diff(position), now),
            ..self
        }.with_window_reported(now).with_lead_noted(next_pts.saturating_sub(position))
    }

    fn report_window(&mut self, now: Instant)
        ensures
            *final(self) == old(self).with_window_reported(now),
    {
        if !self.reject.reported && !self.stuck_for(now).before(
            Duration::from_millis(REJECT_WINDOW_REPORT_THRESHOLD_MS),
        ) {
            self.reject.reported = true;
            self.record_reject_window_start(now);
            if self.audio_position().is_zero() {
                self.note_audio_zero(now);
            }
        }
    }

    fn note_rejection(
        &mut self,
        next_pts: Duration,
        position: Duration,
        now: Instant,
    ) -> (rebased: bool)
        ensures
            ({
                let lead = next_pts.saturating_sub(position);
                let noted = old(self).with_rejection_noted(next_pts, position, now);
                &&& rebased == noted.lead_calls_for_rebase(lead)
                &&& *final(self) == (if rebased {
                    noted.with_lead_rebased(lead)
                } else {
                    noted
                })
            }),
    {
        reveal(FrameScheduler::with_rejection_noted);
        self.count_rejection(next_pts.abs_diff(position), now);
        self.report_window(now);
        self.maybe_rebase_offset_for_stable_lead(next_pts.saturating_sub(position))
    }

    /// Time after which a head with this gap is forced.
    #[verifier::allow_in_spec]
    pub fn force_timeout(&self, gap: Duration, now: Instant) -> Duration
        returns
            (if self.audio_started_for_timing(now) && is_near_boundary(gap) {
                Duration::from_millis(NEAR_BOUNDARY_FORCE_TIMEOUT_MS)
            } else {
                Duration::from_millis(STUCK_TIMEOUT_MS)
            }),
    {
        if self.audio_started_for_timing(now) && is_near_boundary(gap) {
            Duration::from_millis(NEAR_BOUNDARY_FORCE_TIMEOUT_MS)
        } else {
            Duration::from_millis(STUCK_TIMEOUT_MS)
        }
    }

    /// What is done about a head that was rejected.
    pub open spec fn verdict(self, gap: Duration, now: Instant) -> Verdict {
        self.reject.verdict(self.stuck_for(now), self.force_timeout(gap, now), gap)
    }

    pub open spec fn judged(self, verdict: Verdict) -> FrameScheduler {
        FrameScheduler { reject: self.reject.judged(verdict), ..self }
    }

    fn judge(&mut self, gap: Duration, now: Instant) -> (verdict: Verdict)
        ensures
            verdict == old(self).verdict(gap, now),
            *final(self) == old(self).judged(verdict),
    {
        let stuck: Duration = self.stuck_for(now);
        let timeout: Duration = self.force_timeout(gap, now);
        let (reject, verdict) = self.reject.judge(stuck, timeout, gap);
        self.reject = reject;
        verdict
    }

    /// A frame that is forced on display, with the clock set to it.
    #[verifier::opaque]
    pub open spec fn forcing(
        self,
        frame: VideoFrame,
        verdict: Verdict,
        clock: ClockReading,
    ) -> FrameScheduler {
        let shown = self.presenting(frame).running_from(frame.pts, clock.now).paced(clock.now);
        if verdict is CatchUp {
            shown.with_sync_recorded(frame.pts, clock).with_recovery_tracked(clock.unix_us)
        } else {
            shown
        }
    }

    fn force(&mut self, frame: VideoFrame, verdict: Verdict, clock: ClockReading)
        ensures
            *final(self) == old(self).forcing(frame, verdict, clock),
    {
        reveal(FrameScheduler::forcing);
        self.present(frame);
        self.playback_start_time = Some(clock.now);
        self.playback_start_position = frame.pts;
        self.advance_frame_pacing(clock.now);
        if let Verdict::CatchUp = verdict {
            self.record_sync(frame.pts, clock);
            self.track_recovery_frame(clock.unix_us);
        }
    }

    /// Audio that was held back begins with the first frame that reaches it.
    pub open spec fn with_epoch_released(self, frame_pts: Duration, unix_us: u64) -> FrameScheduler {
        if self.deferred_epoch_pts is Some && !frame_pts.before(self.deferred_epoch_pts->0) {
            FrameScheduler {
                deferred_epoch_pts: None,
                audio_handle: (match self.audio_handle {
                    Some(audio) => Some(audio.with_epoch_started(unix_us)),
                    None => None,
                }),
                ..self
            }
        } else {
            self
        }
    }

    fn release_epoch(&mut self, frame_pts: Duration, unix_us: u64)
        ensures
            *final(self) == old(self).with_epoch_released(frame_pts, unix_us),
    {
        if let Some(threshold) = self.deferred_epoch_pts {
            if !frame_pts.before(threshold) {
                if let Some(mut audio) = self.audio_handle.take() {
                    audio.start_playback_epoch(unix_us);
                    self.audio_handle = Some(audio);
                }
                self.deferred_epoch_pts = None;
            }
        }
    }

    /// True where a frame is not worth showing: it is older than the one on
    /// display, or, where the wall clock drives, too far behind audio.
    pub open spec fn is_outdated(self, frame: VideoFrame) -> bool {
        ||| self.current_frame is Some && frame.pts.before(self.current_frame->0.pts)
        ||| !self.use_audio_as_sync_master && !self.audio_position().is_zero()
            && Duration::from_millis(STALE_FRAME_LAG_THRESHOLD_MS).before(
            self.audio_position().saturating_sub(frame.pts),
        )
    }

    fn check_outdated(&self, frame: VideoFrame) -> (outdated: bool)
        ensures
            outdated == self.is_outdated(frame),
    {
        if let Some(current) = self.current_frame {
            if frame.pts.before(current.pts) {
                return true;
            }
        }
        if !self.use_audio_as_sync_master {
            let audio_pos: Duration = self.audio_position();
            if !audio_pos.is_zero() {
                return Duration::from_millis(STALE_FRAME_LAG_THRESHOLD_MS).before(
                    audio_pos.saturating_sub(frame.pts),
                );
            }
        }
        false
    }

    /// A frame that is due goes on display. Where the next one is more than
    /// half a second later the clock jumps to it.
    #[verifier::opaque]
    pub open spec fn showing(
        self,
        frame: VideoFrame,
        rest: Seq<VideoFrame>,
        clock: ClockReading,
    ) -> FrameScheduler {
        let shown = self.presenting(frame).paced(clock.now).with_epoch_released(
            frame.pts,
            clock.unix_us,
        );
        let settled = if rest.len() > 0 && Duration::from_millis(CLOCK_JUMP_AFTER_FRAME_MS).before(
            rest[0].pts.saturating_sub(frame.pts),
        ) {
            shown.jumped_before(rest[0].pts, clock.now)
        } else {
            shown
        };
        settled.with_sync_recorded(frame.pts, clock).with_recovery_tracked(clock.unix_us)
    }

    fn show(&mut self, frame: VideoFrame, queue: &FrameQueue, clock: ClockReading)
        ensures
            *final(self) == old(self).showing(frame, queue.frames@, clock),
    {
        reveal(FrameScheduler::showing);
        self.present(frame);
        self.advance_frame_pacing(clock.now);
        self.release_epoch(frame.pts, clock.unix_us);
        if let Some(next_pts) = queue.peek_pts() {
            if Duration::from_millis(CLOCK_JUMP_AFTER_FRAME_MS).before(
                next_pts.saturating_sub(frame.pts),
            ) {
                self.jump_before(next_pts, clock.now);
            }
        }
        self.record_sync(frame.pts, clock);
        self.track_recovery_frame(clock.unix_us);
    }

    /// One look at the head of the queue: the scheduler and the queue after it,
    /// and what it led to.
    #[verifier::opaque]
    pub open spec fn step(
        self,
        frames: Seq<VideoFrame>,
        eos: bool,
        clock: ClockReading,
        estimate: DriftEstimate,
        jumped: bool,
    ) -> (FrameScheduler, Seq<VideoFrame>, Step) {
        if frames.len() == 0 {
            let held = if self.current_frame is None {
                self.with_stall_entered(clock)
            } else {
                self
            };
            (held, frames, Step::Done(self.current_frame))
        } else {
            let next_pts = frames[0].pts;
            let position = self.judging_position(clock, estimate);
            let s = self.looking(clock, estimate);
            if Duration::from_millis(CLOCK_JUMP_GAP_MS).before(next_pts.saturating_sub(position)) {
                let leapt = FrameScheduler {
                    reject: RejectWindow::closed(),
                    ..s.jumped_before(next_pts, clock.now)
                };
                (
                    leapt,
                    frames,
                    if jumped {
                        Step::Done(self.current_frame)
                    } else {
                        Step::Again { jumped: true }
                    },
                )
            } else if s.accepts(next_pts, position, eos, clock.now) {
                s.step_accept(frames, s.accept_limit(next_pts, position, clock.now), clock)
            } else {
                s.step_reject(frames, position, clock, jumped)
            }
        }
    }

    /// The newest of the frames that are due is shown; those before it are
    /// passed over.
    #[verifier::opaque]
    pub open spec fn step_accept(
        self,
        frames: Seq<VideoFrame>,
        limit: Duration,
        clock: ClockReading,
    ) -> (FrameScheduler, Seq<VideoFrame>, Step) {
        let taken = 1 + leading_due(frames.skip(1), limit) as int;
        let frame = frames[taken - 1];
        let rest = frames.skip(taken);
        let s = FrameScheduler { reject: RejectWindow::closed(), ..self };
        if s.is_outdated(frame) {
            (s, rest, Step::Again { jumped: false })
        } else {
            (s.showing(frame, rest, clock), rest, Step::Done(Some(frame)))
        }
    }

    #[verifier::opaque]
    pub open spec fn step_reject(
        self,
        frames: Seq<VideoFrame>,
        position: Duration,
        clock: ClockReading,
        jumped: bool,
    ) -> (FrameScheduler, Seq<VideoFrame>, Step) {
        let next_pts = frames[0].pts;
        let gap = next_pts.abs_diff(position);
        let lead = next_pts.saturating_sub(position);
        let noted = self.with_rejection_noted(next_pts, position, clock.now);
        let verdict = noted.verdict(gap, clock.now);
        let judged = noted.judged(verdict);
        if noted.lead_calls_for_rebase(lead) {
            (noted.with_lead_rebased(lead), frames, Step::Again { jumped })
        } else {
            match verdict {
                Verdict::Hold => (judged, frames, Step::Done(self.current_frame)),
                Verdict::DropHead => (judged, frames.skip(1), Step::Again { jumped: false }),
                _ => (
                    judged.forcing(frames[0], verdict, clock),
                    frames.skip(1),
                    Step::Done(Some(frames[0])),
                ),
            }
        }
    }
}

/// Measuring a frame leaves the choice of frames alone.
proof fn lemma_sync_recorded_keeps(s: FrameScheduler, video_pts: Duration, clock: ClockReading)
    ensures
        s.with_sync_recorded(video_pts, clock).current_frame == s.current_frame,
        s.with_sync_recorded(video_pts, clock).presentation_generation
            == s.presentation_generation,
{
}

/// Looking at the head changes neither the reject window nor the display.
pub(crate) proof fn lemma_looking_keeps(s: FrameScheduler, clock: ClockReading, estimate: DriftEstimate)
    ensures
        s.looking(clock, estimate).reject == s.reject,
        s.looking(clock, estimate).current_frame == s.current_frame,
        s.looking(clock, estimate).presentation_generation == s.presentation_generation,
{
    reveal(FrameScheduler::looking);
}

/// Noting a rejection changes neither the display nor what was rebased.
pub(crate) proof fn lemma_rejection_keeps(
    s: FrameScheduler,
    next_pts: Duration,
    position: Duration,
    now: Instant,
)
    ensures
        s.with_rejection_noted(next_pts, position, now).reject.offset_rebased
            == s.reject.offset_rebased,
        s.with_rejection_noted(next_pts, position, now).current_frame == s.current_frame,
        s.with_rejection_noted(next_pts, position, now).presentation_generation
            == s.presentation_generation,
{
    reveal(FrameScheduler::with_rejection_noted);
}

/// How often the same head can still be looked at again: once for a jump, and
/// once for a rebase.
pub open spec fn looks_left(jumped: bool) -> nat {
    if jumped {
        0
    } else {
        1
    }
}

/// A poll comes to an end: a look that calls for another has taken a frame,
/// used up the one jump of its head, or the one rebase of the reject window.
pub proof fn law_looks_run_out(
    s: FrameScheduler,
    frames: Seq<VideoFrame>,
    eos: bool,
    clock: ClockReading,
    estimate: DriftEstimate,
    jumped: bool,
)
    ensures
        ({
            let (next, rest, step) = s.step(frames, eos, clock, estimate, jumped);
            step matches Step::Again { jumped: again } ==> {
                ||| rest.len() < frames.len()
                ||| rest.len() == frames.len() && looks_left(again) < looks_left(jumped)
                ||| rest.len() == frames.len() && again == jumped && looks_left(
                    next.reject.offset_rebased,
                ) < looks_left(s.reject.offset_rebased)
            }
        }),
{
    reveal(FrameScheduler::step);
    reveal(FrameScheduler::step_accept);
    reveal(FrameScheduler::step_reject);
    if frames.len() > 0 {
        let position = s.judging_position(clock, estimate);
        let looking = s.looking(clock, estimate);
        lemma_looking_keeps(s, clock, estimate);
        lemma_rejection_keeps(looking, frames[0].pts, position, clock.now);
        lemma_leading_due_bound(
            frames.skip(1),
            looking.accept_limit(frames[0].pts, position, clock.now),
        );
    }
}

impl FrameScheduler {
    /// Looks at the head of the queue until there is something to show.
    pub open spec fn selection(
        self,
        frames: Seq<VideoFrame>,
        eos: bool,
        clock: ClockReading,
        estimate: DriftEstimate,
        jumped: bool,
    ) -> (FrameScheduler, Seq<VideoFrame>, Option<VideoFrame>)
        decreases frames.len(), looks_left(jumped), looks_left(self.reject.offset_rebased),
    {
        let (next, rest, step) = self.step(frames, eos, clock, estimate, jumped);
        proof {
            law_looks_run_out(self, frames, eos, clock, estimate, jumped);
        }
        match step {
            Step::Done(shown) => (next, rest, shown),
            Step::Again { jumped: again } => next.selection(rest, eos, clock, estimate, again),
        }
    }

    /// The scheduler, the queue and what is shown after one poll.
    pub open spec fn poll(
        self,
        frames: Seq<VideoFrame>,
        eos: bool,
        clock: ClockReading,
        estimate: DriftEstimate,
    ) -> (FrameScheduler, Seq<VideoFrame>, Option<VideoFrame>) {
        if self.waiting_for_first_frame {
            let next = self.with_first_frame(frames, clock);
            (
                next,
                if frames.len() == 0 {
                    frames
                } else {
                    frames.skip(1)
                },
                next.current_frame,
            )
        } else {
            let rest = self.frames_after_gap(frames, clock.now);
            let s = self.with_gap_handled(clock.now);
            let joined = s.with_join_rebased(clock.now);
            let gated = joined.with_audio_gate(clock);
            if s.holds_for_pacing(clock.now) {
                (s, rest, s.current_frame)
            } else if joined.holds_for_audio(clock.now) {
                (gated, rest, gated.current_frame)
            } else {
                gated.selection(rest, eos, clock, estimate, false)
            }
        }
    }

    fn accept_step(
        &mut self,
        queue: &mut FrameQueue,
        limit: Duration,
        clock: ClockReading,
    ) -> (step: Step)
        requires
            old(queue).wf(),
            old(queue).frames@.len() > 0,
        ensures
            final(queue).wf(),
            final(queue).same_but_frames(*old(queue)),
            (*final(self), final(queue).frames@, step) == old(self).step_accept(
                old(queue).frames@,
                limit,
                clock,
            ),
    {
        reveal(FrameScheduler::step_accept);
        self.reject = RejectWindow::closed();
        let frame: VideoFrame = take_newest_due(queue, limit);
        if self.check_outdated(frame) {
            return Step::Again { jumped: false };
        }
        self.show(frame, queue, clock);
        Step::Done(Some(frame))
    }

    fn reject_step(
        &mut self,
        queue: &mut FrameQueue,
        position: Duration,
        clock: ClockReading,
        jumped: bool,
    ) -> (step: Step)
        requires
            old(queue).wf(),
            old(queue).frames@.len() > 0,
        ensures
            final(queue).wf(),
            final(queue).same_but_frames(*old(queue)),
            (*final(self), final(queue).frames@, step) == old(self).step_reject(
                old(queue).frames@,
                position,
                clock,
                jumped,
            ),
    {
        reveal(FrameScheduler::step_reject);
        let next_pts: Duration = match queue.peek_pts() {
            Some(pts) => pts,
            None => return Step::Done(self.current_frame),
        };
        let gap: Duration = next_pts.abs_diff(position);
        let shown: Option<VideoFrame> = self.current_frame;
        if self.note_rejection(next_pts, position, clock.now) {
            return Step::Again { jumped };
        }
        let verdict: Verdict = self.judge(gap, clock.now);
        match verdict {
            Verdict::Hold => Step::Done(shown),
            Verdict::DropHead => {
                let _ = queue.pop();
                Step::Again { jumped: false }
            },
            Verdict::CatchUp | Verdict::Resync => {
                match queue.pop() {
                    Some(frame) => {
                        self.force(frame, verdict, clock);
                        Step::Done(Some(frame))
                    },
                    None => Step::Done(shown),
                }
            },
        }
    }

    fn take_step(
        &mut self,
        queue: &mut FrameQueue,
        clock: ClockReading,
        estimate: DriftEstimate,
        jumped: bool,
    ) -> (step: Step)
        requires
            old(queue).wf(),
        ensures
            final(queue).wf(),
            final(queue).same_but_frames(*old(queue)),
            (*final(self), final(queue).frames@, step) == old(self).step(
                old(queue).frames@,
                old(queue).eos,
                clock,
                estimate,
                jumped,
            ),
    {
        reveal(FrameScheduler::step);
        let shown: Option<VideoFrame> = self.current_frame;
        let next_pts: Duration = match queue.peek_pts() {
            Some(pts) => pts,
            None => {
                // A frame that stays on display is held, not missed.
                if self.current_frame.is_none() {
                    self.handle_stall(clock);
                }
                return Step::Done(shown);
            },
        };
        let position: Duration = self.look(clock, estimate);
        if Duration::from_millis(CLOCK_JUMP_GAP_MS).before(next_pts.saturating_sub(position)) {
            self.jump_before(next_pts, clock.now);
            self.reject = RejectWindow::closed();
            return if jumped {
                Step::Done(shown)
            } else {
                Step::Again { jumped: true }
            };
        }
        let limit: Duration = self.find_accept_limit(next_pts, position, clock.now);
        let accepts: bool = !limit.before(next_pts) || self.current_frame.is_none() || (
        queue.is_eos() && next_pts.abs_diff(position).nanos <= Duration::from_millis(
            EOS_LAST_FRAME_TOLERANCE_MS,
        ).nanos);
        if accepts {
            self.accept_step(queue, limit, clock)
        } else {
            self.reject_step(queue, position, clock, jumped)
        }
    }

    /// Chooses the frame to show now, and takes it and those it passes over
    /// from the queue.
    ///
    /// A frame that is due is shown; of several, the newest. A frame that is
    /// ahead of the clock waits, and what is on display stays. A frame more than
    /// a second ahead makes the clock jump to it; where the position does not
    /// follow, because audio drives it or the frame on display holds it back,
    /// what is on display stays until the next poll.
    pub fn get_next_frame(
        &mut self,
        queue: &mut FrameQueue,
        clock: ClockReading,
        estimate: DriftEstimate,
    ) -> (shown: Option<VideoFrame>)
        requires
            old(queue).wf(),
        ensures
            final(queue).wf(),
            final(queue).same_but_frames(*old(queue)),
            (*final(self), final(queue).frames@, shown) == old(self).poll(
                old(queue).frames@,
                old(queue).eos,
                clock,
                estimate,
            ),
    {
        if self.waiting_for_first_frame {
            return self.take_first_frame(queue, clock);
        }
        self.handle_gap(queue, clock.now);
        if self.holds_for_pacing(clock.now) {
            return self.current_frame;
        }
        self.rebase_join(clock.now);
        if self.audio_gate(clock) {
            return self.current_frame;
        }
        let ghost eos = queue.eos;
        let ghost outcome = self.selection(queue.frames@, eos, clock, estimate, false);
        let mut jumped: bool = false;
        loop
            invariant
                queue.wf(),
                queue.same_but_frames(*old(queue)),
                eos == queue.eos,
                outcome == self.selection(queue.frames@, eos, clock, estimate, jumped),
                outcome == old(self).poll(old(queue).frames@, old(queue).eos, clock, estimate),
            decreases
                    queue.frames@.len(),
                    looks_left(jumped),
                    looks_left(self.reject.offset_rebased),
        {
            proof {
                law_looks_run_out(*self, queue.frames@, eos, clock, estimate, jumped);
            }
            match self.take_step(queue, clock, estimate, jumped) {
                Step::Done(shown) => return shown,
                Step::Again { jumped: again } => {
                    jumped = again;
                },
            }
        }
    }

    /// The frame on display.
    pub fn current_frame(&self) -> (frame: Option<&VideoFrame>)
        ensures
            frame == (match self.current_frame {
                Some(shown) => Some(&shown),
                None => None,
            }),
    {
        self.current_frame.as_ref()
    }

    /// Counts the frames that were put on display.
    pub fn presentation_generation(&self) -> (generation: u64)
        ensures
            generation == self.presentation_generation,
    {
        self.presentation_generation
    }

    /// Counts the seeks.
    pub fn seek_generation(&self) -> (generation: u64)
        ensures
            generation == self.seek_generation,
    {
        self.seek_generation
    }
}

} // verus!
