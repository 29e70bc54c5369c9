//! What holds of the frame scheduler as a whole.

use crate::audio::AudioHandle;
use crate::frame_scheduler::{
    DriftEstimate, FrameScheduler, RejectWindow, CLOCK_JUMP_AFTER_FRAME_MS, MAX_DRIFT_STEP_US,
    MAX_VIDEO_PTS_BIAS_US,
};
use crate::frame_selection::{
    law_looks_run_out, leading_due, lemma_looking_keeps, lemma_rejection_keeps, looks_left, Step,
    Verdict,
};
use crate::time::{ClockReading, Duration, Instant};
use crate::video::VideoFrame;
use vstd::prelude::*;

verus! {

/// While playback is stalled the position does not move, whatever the time.
pub proof fn law_position_stands_still_while_stalled(
    s: FrameScheduler,
    now: Instant,
    later: Instant,
)
    requires
        s.is_stalled(),
    ensures
        s.position(now) == s.position(later),
{
}

/// After a pause the position does not move, and it is at most a second ahead
/// of the frame on display.
pub proof fn law_pause_freezes_the_position(s: FrameScheduler, now: Instant, later: Instant)
    ensures
        s.after_pause(now).position(later) == s.pause_position(now),
        !s.after_pause(now).is_playing(),
        !s.after_pause(now).is_playback_requested(),
{
}

/// The position after a seek is the one that was sought, and nothing of the old
/// place is on display. Frames can be told apart from those before the seek.
pub proof fn law_seek_lands(s: FrameScheduler, target: Duration, unix_us: u64, now: Instant)
    requires
        s.playback_requested || s.playback_start_time is None,
    ensures
        s.after_seek(target, unix_us).position(now) == target,
        s.after_seek(target, unix_us).current_frame is None,
        s.after_seek(target, unix_us).seek_generation != s.seek_generation,
        s.after_seek(target, unix_us).audio_handle matches Some(audio) ==> audio.position()
            == Duration::zero(),
        s.playback_requested ==> s.after_seek(target, unix_us).waiting_for_first_frame,
{
}

/// Audio that has begun is the master clock: frames are chosen by it alone,
/// whatever the wall clock shows.
pub proof fn law_video_follows_audio(s: FrameScheduler, now: Instant)
    requires
        s.use_audio_as_sync_master,
        s.audio_handle is Some,
        s.audio_handle->0.available,
        !s.audio_handle->0.position_for_sync().is_zero(),
    ensures
        s.chosen_position(now) == s.audio_handle->0.position_for_sync(),
{
}

/// The position never runs more than three seconds ahead of the frame on
/// display while the clock goes.
pub proof fn law_position_stays_near_the_frame(s: FrameScheduler, now: Instant, frame: VideoFrame)
    requires
        !s.is_stalled(),
        s.is_playing(),
        s.current_frame == Some(frame),
    ensures
        s.position(now).nanos <= frame.pts.nanos + Duration::from_secs(3).nanos,
{
}

/// A frame that stays on display while none is queued is a hold, not an
/// underrun: nothing is counted and nothing stalls.
pub proof fn law_held_frame_is_no_underrun(
    s: FrameScheduler,
    eos: bool,
    clock: ClockReading,
    estimate: DriftEstimate,
    jumped: bool,
)
    requires
        s.current_frame is Some,
    ensures
        s.step(Seq::empty(), eos, clock, estimate, jumped) == (
            s,
            Seq::<VideoFrame>::empty(),
            Step::Done(s.current_frame),
        ),
{
    reveal(FrameScheduler::step);
}

/// With nothing to show and nothing queued, playback that was asked for stalls:
/// one underrun is counted and a recovery begins.
pub proof fn law_missing_frame_is_an_underrun(
    s: FrameScheduler,
    eos: bool,
    clock: ClockReading,
    estimate: DriftEstimate,
    jumped: bool,
)
    requires
        s.current_frame is None,
        s.playback_requested,
        !s.stalled,
        s.sync_metrics.enabled,
    ensures
        ({
            let next = s.step(Seq::empty(), eos, clock, estimate, jumped).0;
            &&& next.is_stalled()
            &&& next.sync_metrics.underrun_count == s.sync_metrics.underrun_count.wrapping_add(1)
            &&& next.sync_metrics.in_recovery
        }),
{
    reveal(FrameScheduler::step);
}

/// Of the frames that are due the newest is taken: the one behind it, if any, is
/// not due.
pub proof fn law_newest_due_frame_is_taken(frames: Seq<VideoFrame>, limit: Duration)
    ensures
        leading_due(frames, limit) <= frames.len(),
        forall|i: int|
            0 <= i < leading_due(frames, limit) ==> #[trigger] frames[i].pts.nanos <= limit.nanos,
        leading_due(frames, limit) < frames.len() ==> limit.before(
            frames[leading_due(frames, limit) as int].pts,
        ),
    decreases frames.len(),
{
    if frames.len() > 0 && !limit.before(frames[0].pts) {
        law_newest_due_frame_is_taken(frames.skip(1), limit);
        let n: int = leading_due(frames, limit) as int;
        assert(n == 1 + leading_due(frames.skip(1), limit));
        assert forall|i: int| 0 <= i < n implies #[trigger] frames[i].pts.nanos
            <= limit.nanos by {
            if i > 0 {
                assert(frames.skip(1)[i - 1] == frames[i]);
            }
        }
        if n < frames.len() {
            assert(frames.skip(1)[n - 1] == frames[n]);
        }
    }
}

/// How a poll may leave the display and the queue: frames are taken from the
/// head only, and the display either stays or turns to the last one taken.
pub open spec fn display_is_sound(
    before: FrameScheduler,
    frames: Seq<VideoFrame>,
    after: FrameScheduler,
    rest: Seq<VideoFrame>,
    shown: Option<VideoFrame>,
) -> bool {
    let taken = frames.len() - rest.len();
    &&& 0 <= taken
    &&& rest =~= frames.skip(taken)
    &&& shown == after.current_frame
    &&& {
        ||| {
            &&& after.current_frame == before.current_frame
            &&& after.presentation_generation == before.presentation_generation
        }
        ||| {
            &&& taken >= 1
            &&& after.current_frame == Some(frames[taken - 1])
            &&& after.presentation_generation == before.presentation_generation.wrapping_add(1)
        }
    }
}

proof fn lemma_settling_keeps_display(s: FrameScheduler, video_pts: Duration, clock: ClockReading)
    ensures
        s.with_sync_recorded(video_pts, clock).current_frame == s.current_frame,
        s.with_sync_recorded(video_pts, clock).presentation_generation
            == s.presentation_generation,
        s.with_recovery_tracked(clock.unix_us).current_frame == s.current_frame,
        s.with_recovery_tracked(clock.unix_us).presentation_generation
            == s.presentation_generation,
{
}

proof fn lemma_showing_display(
    s: FrameScheduler,
    frame: VideoFrame,
    rest: Seq<VideoFrame>,
    clock: ClockReading,
)
    ensures
        s.showing(frame, rest, clock).current_frame == Some(frame),
        s.showing(frame, rest, clock).presentation_generation
            == s.presentation_generation.wrapping_add(1),
{
    reveal(FrameScheduler::showing);
    let shown = s.presenting(frame).paced(clock.now).with_epoch_released(frame.pts, clock.unix_us);
    let settled = if rest.len() > 0 && Duration::from_millis(
        CLOCK_JUMP_AFTER_FRAME_MS,
    ).before(rest[0].pts.saturating_sub(frame.pts)) {
        shown.jumped_before(rest[0].pts, clock.now)
    } else {
        shown
    };
    lemma_settling_keeps_display(settled, frame.pts, clock);
    lemma_settling_keeps_display(
        settled.with_sync_recorded(frame.pts, clock),
        frame.pts,
        clock,
    );
}

/// What a step may do to the display and the queue.
spec fn step_is_sound(
    before: FrameScheduler,
    frames: Seq<VideoFrame>,
    outcome: (FrameScheduler, Seq<VideoFrame>, Step),
) -> bool {
    let (next, rest, step) = outcome;
    let taken = frames.len() - rest.len();
    &&& 0 <= taken
    &&& rest =~= frames.skip(taken)
    &&& match step {
        Step::Again { .. } => next.current_frame == before.current_frame
            && next.presentation_generation == before.presentation_generation,
        Step::Done(shown) => display_is_sound(before, frames, next, rest, shown),
    }
}

proof fn lemma_accept_display(
    s: FrameScheduler,
    frames: Seq<VideoFrame>,
    limit: Duration,
    clock: ClockReading,
)
    requires
        frames.len() > 0,
    ensures
        step_is_sound(s, frames, s.step_accept(frames, limit, clock)),
{
    reveal(FrameScheduler::step_accept);
    law_newest_due_frame_is_taken(frames.skip(1), limit);
    let taken: int = 1 + leading_due(frames.skip(1), limit) as int;
    lemma_showing_display(
        FrameScheduler { reject: RejectWindow::closed(), ..s },
        frames[taken - 1],
        frames.skip(taken),
        clock,
    );
}

proof fn lemma_reject_display(
    s: FrameScheduler,
    frames: Seq<VideoFrame>,
    position: Duration,
    clock: ClockReading,
    jumped: bool,
)
    requires
        frames.len() > 0,
    ensures
        step_is_sound(s, frames, s.step_reject(frames, position, clock, jumped)),
{
    reveal(FrameScheduler::step_reject);
    let next_pts = frames[0].pts;
    lemma_rejection_keeps(s, next_pts, position, clock.now);
    let noted = s.with_rejection_noted(next_pts, position, clock.now);
    let verdict = noted.verdict(next_pts.abs_diff(position), clock.now);
    lemma_forcing_display(noted.judged(verdict), frames[0], verdict, clock);
    assert(frames.skip(0) =~= frames);
}

proof fn lemma_step_display(
    s: FrameScheduler,
    frames: Seq<VideoFrame>,
    eos: bool,
    clock: ClockReading,
    estimate: DriftEstimate,
    jumped: bool,
)
    ensures
        step_is_sound(s, frames, s.step(frames, eos, clock, estimate, jumped)),
{
    reveal(FrameScheduler::step);
    assert(frames.skip(0) =~= frames);
    if frames.len() > 0 {
        let position = s.judging_position(clock, estimate);
        let looking = s.looking(clock, estimate);
        lemma_looking_keeps(s, clock, estimate);
        let limit = looking.accept_limit(frames[0].pts, position, clock.now);
        lemma_accept_display(looking, frames, limit, clock);
        lemma_reject_display(looking, frames, position, clock, jumped);
    }
}

proof fn lemma_forcing_display(
    s: FrameScheduler,
    frame: VideoFrame,
    verdict: Verdict,
    clock: ClockReading,
)
    ensures
        s.forcing(frame, verdict, clock).current_frame == Some(frame),
        s.forcing(frame, verdict, clock).presentation_generation
            == s.presentation_generation.wrapping_add(1),
{
    reveal(FrameScheduler::forcing);
    let shown = s.presenting(frame).running_from(frame.pts, clock.now).paced(clock.now);
    lemma_settling_keeps_display(shown, frame.pts, clock);
    lemma_settling_keeps_display(shown.with_sync_recorded(frame.pts, clock), frame.pts, clock);
}

proof fn lemma_selection_display(
    s: FrameScheduler,
    frames: Seq<VideoFrame>,
    eos: bool,
    clock: ClockReading,
    estimate: DriftEstimate,
    jumped: bool,
)
    ensures
        ({
            let (next, rest, shown) = s.selection(frames, eos, clock, estimate, jumped);
            display_is_sound(s, frames, next, rest, shown)
        }),
    decreases frames.len(), looks_left(jumped), looks_left(s.reject.offset_rebased),
{
    lemma_step_display(s, frames, eos, clock, estimate, jumped);
    law_looks_run_out(s, frames, eos, clock, estimate, jumped);
    let (next, rest, step) = s.step(frames, eos, clock, estimate, jumped);
    if let Step::Again { jumped: again } = step {
        lemma_selection_display(next, rest, eos, clock, estimate, again);
        let (last, left, shown) = next.selection(rest, eos, clock, estimate, again);
        assert(left =~= frames.skip(frames.len() - left.len()));
    }
}

/// What a poll returns is what is on display afterwards. The display changes
/// only to a frame of the queue, and then to the last one taken from it; frames
/// are taken in order, and those behind them stay.
pub proof fn law_poll_shows_what_is_on_display(
    s: FrameScheduler,
    frames: Seq<VideoFrame>,
    eos: bool,
    clock: ClockReading,
    estimate: DriftEstimate,
)
    ensures
        ({
            let (next, rest, shown) = s.poll(frames, eos, clock, estimate);
            display_is_sound(s, frames, next, rest, shown)
        }),
{
    assert(frames.skip(0) =~= frames);
    if s.waiting_for_first_frame {
        if frames.len() > 0 && !frames[0].pts.is_zero() {
            let shown = FrameScheduler {
                stalled: false,
                stall_cooldown_until: None,
                ..s.with_clock_started(frames[0].pts, clock).presenting(frames[0])
            }.paced(clock.now);
            lemma_settling_keeps_display(shown, frames[0].pts, clock);
        }
    } else {
        let rest = s.frames_after_gap(frames, clock.now);
        let gap = s.with_gap_handled(clock.now);
        let gated = gap.with_join_rebased(clock.now).with_audio_gate(clock);
        assert(gated.current_frame == s.current_frame);
        assert(gated.presentation_generation == s.presentation_generation);
        lemma_selection_display(gated, rest, eos, clock, estimate, false);
        assert(frames.skip(frames.len() as int) =~= Seq::<VideoFrame>::empty());
    }
}

proof fn lemma_settling_keeps_bounds(s: FrameScheduler, video_pts: Duration, clock: ClockReading)
    requires
        s.wf(),
    ensures
        s.with_sync_recorded(video_pts, clock).wf(),
        s.with_recovery_tracked(clock.unix_us).wf(),
{
}

proof fn lemma_showing_keeps_bounds(
    s: FrameScheduler,
    frame: VideoFrame,
    rest: Seq<VideoFrame>,
    clock: ClockReading,
)
    requires
        s.wf(),
    ensures
        s.showing(frame, rest, clock).wf(),
{
    reveal(FrameScheduler::showing);
    let shown = s.presenting(frame).paced(clock.now).with_epoch_released(frame.pts, clock.unix_us);
    let settled = if rest.len() > 0 && Duration::from_millis(
        CLOCK_JUMP_AFTER_FRAME_MS,
    ).before(rest[0].pts.saturating_sub(frame.pts)) {
        shown.jumped_before(rest[0].pts, clock.now)
    } else {
        shown
    };
    assert(settled.wf());
    lemma_settling_keeps_bounds(settled, frame.pts, clock);
    lemma_settling_keeps_bounds(settled.with_sync_recorded(frame.pts, clock), frame.pts, clock);
}

proof fn lemma_looking_keeps_bounds(s: FrameScheduler, clock: ClockReading, estimate: DriftEstimate)
    requires
        s.wf(),
    ensures
        s.looking(clock, estimate).wf(),
{
    reveal(FrameScheduler::looking);
}

proof fn lemma_accept_keeps_bounds(
    s: FrameScheduler,
    frames: Seq<VideoFrame>,
    limit: Duration,
    clock: ClockReading,
)
    requires
        frames.len() > 0,
        s.wf(),
    ensures
        s.step_accept(frames, limit, clock).0.wf(),
{
    reveal(FrameScheduler::step_accept);
    let taken: int = 1 + leading_due(frames.skip(1), limit) as int;
    lemma_showing_keeps_bounds(
        FrameScheduler { reject: RejectWindow::closed(), ..s },
        frames[taken - 1],
        frames.skip(taken),
        clock,
    );
}

proof fn lemma_forcing_keeps_bounds(
    s: FrameScheduler,
    frame: VideoFrame,
    verdict: Verdict,
    clock: ClockReading,
)
    requires
        s.wf(),
    ensures
        s.forcing(frame, verdict, clock).wf(),
{
    reveal(FrameScheduler::forcing);
    let shown = s.presenting(frame).running_from(frame.pts, clock.now).paced(clock.now);
    assert(shown.wf());
    lemma_settling_keeps_bounds(shown, frame.pts, clock);
    lemma_settling_keeps_bounds(shown.with_sync_recorded(frame.pts, clock), frame.pts, clock);
}

proof fn lemma_reject_keeps_bounds(
    s: FrameScheduler,
    frames: Seq<VideoFrame>,
    position: Duration,
    clock: ClockReading,
    jumped: bool,
)
    requires
        frames.len() > 0,
        s.wf(),
    ensures
        s.step_reject(frames, position, clock, jumped).0.wf(),
{
    reveal(FrameScheduler::step_reject);
    let next_pts = frames[0].pts;
    let noted = s.with_rejection_noted(next_pts, position, clock.now);
    assert(noted.wf()) by {
        reveal(FrameScheduler::with_rejection_noted);
    }
    let verdict = noted.verdict(next_pts.abs_diff(position), clock.now);
    assert(noted.judged(verdict).wf());
    lemma_forcing_keeps_bounds(noted.judged(verdict), frames[0], verdict, clock);
}

proof fn lemma_selection_keeps_bounds(
    s: FrameScheduler,
    frames: Seq<VideoFrame>,
    eos: bool,
    clock: ClockReading,
    estimate: DriftEstimate,
    jumped: bool,
)
    requires
        s.wf(),
    ensures
        s.selection(frames, eos, clock, estimate, jumped).0.wf(),
    decreases frames.len(), looks_left(jumped), looks_left(s.reject.offset_rebased),
{
    let (next, rest, step) = s.step(frames, eos, clock, estimate, jumped);
    assert(next.wf()) by {
        reveal(FrameScheduler::step);
        if frames.len() > 0 {
            let position = s.judging_position(clock, estimate);
            let looking = s.looking(clock, estimate);
            lemma_looking_keeps_bounds(s, clock, estimate);
            let limit = looking.accept_limit(frames[0].pts, position, clock.now);
            lemma_accept_keeps_bounds(looking, frames, limit, clock);
            lemma_reject_keeps_bounds(looking, frames, position, clock, jumped);
        }
    }
    law_looks_run_out(s, frames, eos, clock, estimate, jumped);
    if let Step::Again { jumped: again } = step {
        lemma_selection_keeps_bounds(next, rest, eos, clock, estimate, again);
    }
}

/// What is added to the times of frames stays within eight seconds, and so does the
/// correction of drift, whatever the estimates are: no poll leaves these bounds.
pub proof fn law_corrections_stay_bounded(
    s: FrameScheduler,
    frames: Seq<VideoFrame>,
    eos: bool,
    clock: ClockReading,
    estimate: DriftEstimate,
)
    requires
        s.wf(),
    ensures
        s.poll(frames, eos, clock, estimate).0.wf(),
{
    if s.waiting_for_first_frame {
        if frames.len() > 0 && !frames[0].pts.is_zero() {
            let shown = FrameScheduler {
                stalled: false,
                stall_cooldown_until: None,
                ..s.with_clock_started(frames[0].pts, clock).presenting(frames[0])
            }.paced(clock.now);
            assert(shown.wf());
            lemma_settling_keeps_bounds(shown, frames[0].pts, clock);
        }
    } else {
        let rest = s.frames_after_gap(frames, clock.now);
        let gated = s.with_gap_handled(clock.now).with_join_rebased(clock.now).with_audio_gate(
            clock,
        );
        assert(gated.wf());
        lemma_selection_keeps_bounds(gated, rest, eos, clock, estimate, false);
    }
}

/// The orders of a player keep the same bounds.
pub proof fn law_orders_keep_corrections_bounded(
    s: FrameScheduler,
    target: Duration,
    clock: ClockReading,
)
    requires
        s.wf(),
    ensures
        s.after_start().wf(),
        s.after_pause(clock.now).wf(),
        s.after_seek(target, clock.unix_us).wf(),
        s.after_seek(target, clock.unix_us).video_pts_bias.is_zero(),
{
}

/// A turn of the drift controller either sets the clock to audio, and with it the
/// correction to nought, or moves the correction by at most 5 ms, and never the way that
/// the drift goes. Where audio is the master, or playback is stalled, it stays.
pub proof fn law_correction_is_slewed(s: FrameScheduler, now: Instant, estimate: DriftEstimate)
    requires
        s.wf(),
    ensures
        ({
            let before = s.drift.correction_us;
            let after = s.with_drift_corrected(now, estimate).drift.correction_us;
            &&& -MAX_VIDEO_PTS_BIAS_US <= after <= MAX_VIDEO_PTS_BIAS_US
            &&& after == 0 || -MAX_DRIFT_STEP_US <= after - before <= MAX_DRIFT_STEP_US
            &&& after == 0 || (estimate.drift_us >= 0 ==> after <= before)
            &&& after == 0 || (estimate.drift_us <= 0 ==> after >= before)
            &&& s.use_audio_as_sync_master || s.stalled || s.audio_stalled ==> after == before
        }),
{
}

/// Two states of one audio differ at most in when its clock started and in what was
/// heard since.
#[verifier::opaque]
pub open spec fn audio_kept(was: Option<AudioHandle>, is: Option<AudioHandle>) -> bool {
    match (was, is) {
        (Some(was), Some(is)) => is == (AudioHandle {
            playback_epoch_us: is.playback_epoch_us,
            samples_played: is.samples_played,
            ..was
        }),
        (None, None) => true,
        _ => false,
    }
}

proof fn lemma_audio_kept(a: Option<AudioHandle>, b: Option<AudioHandle>, c: Option<AudioHandle>)
    ensures
        audio_kept(a, a),
        audio_kept(a, b) && audio_kept(b, c) ==> audio_kept(a, c),
{
    reveal(audio_kept);
}

proof fn lemma_settling_keeps_audio(s: FrameScheduler, video_pts: Duration, clock: ClockReading)
    ensures
        s.with_sync_recorded(video_pts, clock).audio_handle == s.audio_handle,
        s.with_recovery_tracked(clock.unix_us).audio_handle == s.audio_handle,
{
}

proof fn lemma_releasing_keeps_audio(s: FrameScheduler, frame_pts: Duration, unix_us: u64)
    ensures
        audio_kept(s.audio_handle, s.with_epoch_released(frame_pts, unix_us).audio_handle),
{
    reveal(audio_kept);
}

proof fn lemma_showing_keeps_audio(
    s: FrameScheduler,
    frame: VideoFrame,
    rest: Seq<VideoFrame>,
    clock: ClockReading,
)
    ensures
        audio_kept(s.audio_handle, s.showing(frame, rest, clock).audio_handle),
{
    reveal(FrameScheduler::showing);
    let placed = s.presenting(frame).paced(clock.now);
    assert(placed.audio_handle == s.audio_handle);
    lemma_releasing_keeps_audio(placed, frame.pts, clock.unix_us);
    let shown = placed.with_epoch_released(frame.pts, clock.unix_us);
    let settled = if rest.len() > 0 && Duration::from_millis(
        CLOCK_JUMP_AFTER_FRAME_MS,
    ).before(rest[0].pts.saturating_sub(frame.pts)) {
        shown.jumped_before(rest[0].pts, clock.now)
    } else {
        shown
    };
    assert(settled.audio_handle == shown.audio_handle);
    lemma_settling_keeps_audio(settled, frame.pts, clock);
    lemma_settling_keeps_audio(settled.with_sync_recorded(frame.pts, clock), frame.pts, clock);
}

proof fn lemma_accept_keeps_audio(
    s: FrameScheduler,
    frames: Seq<VideoFrame>,
    limit: Duration,
    clock: ClockReading,
)
    requires
        frames.len() > 0,
    ensures
        audio_kept(s.audio_handle, s.step_accept(frames, limit, clock).0.audio_handle),
{
    reveal(FrameScheduler::step_accept);
    let taken: int = 1 + leading_due(frames.skip(1), limit) as int;
    lemma_audio_kept(s.audio_handle, s.audio_handle, s.audio_handle);
    lemma_showing_keeps_audio(
        FrameScheduler { reject: RejectWindow::closed(), ..s },
        frames[taken - 1],
        frames.skip(taken),
        clock,
    );
}

proof fn lemma_forcing_keeps_audio(
    s: FrameScheduler,
    frame: VideoFrame,
    verdict: Verdict,
    clock: ClockReading,
)
    ensures
        s.forcing(frame, verdict, clock).audio_handle == s.audio_handle,
{
    reveal(FrameScheduler::forcing);
    let shown = s.presenting(frame).running_from(frame.pts, clock.now).paced(clock.now);
    assert(shown.audio_handle == s.audio_handle);
    lemma_settling_keeps_audio(shown, frame.pts, clock);
    lemma_settling_keeps_audio(shown.with_sync_recorded(frame.pts, clock), frame.pts, clock);
}

proof fn lemma_reject_keeps_audio(
    s: FrameScheduler,
    frames: Seq<VideoFrame>,
    position: Duration,
    clock: ClockReading,
    jumped: bool,
)
    requires
        frames.len() > 0,
    ensures
        s.step_reject(frames, position, clock, jumped).0.audio_handle == s.audio_handle,
{
    reveal(FrameScheduler::step_reject);
    let next_pts = frames[0].pts;
    let noted = s.with_rejection_noted(next_pts, position, clock.now);
    assert(noted.audio_handle == s.audio_handle) by {
        reveal(FrameScheduler::with_rejection_noted);
    }
    let verdict = noted.verdict(next_pts.abs_diff(position), clock.now);
    assert(noted.judged(verdict).audio_handle == s.audio_handle);
    lemma_forcing_keeps_audio(noted.judged(verdict), frames[0], verdict, clock);
}

proof fn lemma_looking_keeps_audio(s: FrameScheduler, clock: ClockReading, estimate: DriftEstimate)
    ensures
        audio_kept(s.audio_handle, s.looking(clock, estimate).audio_handle),
{
    reveal(FrameScheduler::looking);
    let cleared = s.with_stall_cleared(clock);
    assert(audio_kept(s.audio_handle, cleared.audio_handle)) by {
        reveal(audio_kept);
    }
    let corrected = cleared.with_drift_corrected(clock.now, estimate);
    assert(corrected.audio_handle == cleared.audio_handle);
    assert(corrected.with_fallback_noted(clock.now).audio_handle == corrected.audio_handle);
}

proof fn lemma_step_keeps_audio(
    s: FrameScheduler,
    frames: Seq<VideoFrame>,
    eos: bool,
    clock: ClockReading,
    estimate: DriftEstimate,
    jumped: bool,
)
    ensures
        audio_kept(
            s.audio_handle,
            s.step(frames, eos, clock, estimate, jumped).0.audio_handle,
        ),
{
    let next = s.step(frames, eos, clock, estimate, jumped).0;
    reveal(FrameScheduler::step);
    if frames.len() > 0 {
        let position = s.judging_position(clock, estimate);
        let looking = s.looking(clock, estimate);
        lemma_looking_keeps_audio(s, clock, estimate);
        let limit = looking.accept_limit(frames[0].pts, position, clock.now);
        lemma_accept_keeps_audio(looking, frames, limit, clock);
        lemma_reject_keeps_audio(looking, frames, position, clock, jumped);
        lemma_audio_kept(s.audio_handle, looking.audio_handle, next.audio_handle);
    } else {
        reveal(audio_kept);
    }
}

proof fn lemma_selection_keeps_audio(
    s: FrameScheduler,
    frames: Seq<VideoFrame>,
    eos: bool,
    clock: ClockReading,
    estimate: DriftEstimate,
    jumped: bool,
)
    ensures
        audio_kept(
            s.audio_handle,
            s.selection(frames, eos, clock, estimate, jumped).0.audio_handle,
        ),
    decreases frames.len(), looks_left(jumped), looks_left(s.reject.offset_rebased),
{
    let (next, rest, step) = s.step(frames, eos, clock, estimate, jumped);
    lemma_step_keeps_audio(s, frames, eos, clock, estimate, jumped);
    law_looks_run_out(s, frames, eos, clock, estimate, jumped);
    if let Step::Again { jumped: again } = step {
        lemma_selection_keeps_audio(next, rest, eos, clock, estimate, again);
        lemma_audio_kept(
            s.audio_handle,
            next.audio_handle,
            next.selection(rest, eos, clock, estimate, again).0.audio_handle,
        );
    }
}

proof fn lemma_start_keeps_audio(s: FrameScheduler, frame: VideoFrame, clock: ClockReading)
    ensures
        ({
            let shown = FrameScheduler {
                stalled: false,
                stall_cooldown_until: None,
                ..s.with_clock_started(frame.pts, clock).presenting(frame)
            }.paced(clock.now);
            audio_kept(s.audio_handle, shown.audio_handle)
        }),
{
    reveal(audio_kept);
}

proof fn lemma_gate_keeps_audio(s: FrameScheduler, clock: ClockReading)
    ensures
        s.with_gap_handled(clock.now).with_join_rebased(clock.now).with_audio_gate(
            clock,
        ).audio_handle == s.audio_handle,
{
    let gap = s.with_gap_handled(clock.now);
    assert(gap.audio_handle == s.audio_handle);
    let joined = gap.with_join_rebased(clock.now);
    assert(joined.audio_handle == gap.audio_handle);
}

/// A poll follows audio and does not change it, but for its clock, which it starts and
/// stops: volume and mute, format, offset and the position of a native player stay.
pub proof fn law_poll_keeps_audio(
    s: FrameScheduler,
    frames: Seq<VideoFrame>,
    eos: bool,
    clock: ClockReading,
    estimate: DriftEstimate,
)
    ensures
        audio_kept(s.audio_handle, s.poll(frames, eos, clock, estimate).0.audio_handle),
{
    lemma_audio_kept(s.audio_handle, s.audio_handle, s.audio_handle);
    if s.waiting_for_first_frame {
        if frames.len() > 0 && !frames[0].pts.is_zero() {
            lemma_start_keeps_audio(s, frames[0], clock);
            let shown = FrameScheduler {
                stalled: false,
                stall_cooldown_until: None,
                ..s.with_clock_started(frames[0].pts, clock).presenting(frames[0])
            }.paced(clock.now);
            lemma_settling_keeps_audio(shown, frames[0].pts, clock);
        }
    } else {
        let rest = s.frames_after_gap(frames, clock.now);
        let gated = s.with_gap_handled(clock.now).with_join_rebased(clock.now).with_audio_gate(
            clock,
        );
        lemma_gate_keeps_audio(s, clock);
        lemma_selection_keeps_audio(gated, rest, eos, clock, estimate, false);
    }
}

} // verus!
