//! How the frames of a live stream are paced.

use crate::frame_scheduler::{DriftEstimate, FrameScheduler, RejectWindow};
use crate::frame_selection::{law_looks_run_out, leading_due, looks_left, Step, Verdict};
use crate::time::{ClockReading, Duration, Instant};
use crate::video::VideoFrame;
use vstd::prelude::*;

verus! {

/// How a frame that goes on display moves the deadline of the next one: by one interval
/// while the frame is at most two intervals late, else to one interval from now.
spec fn deadline_moved(before: FrameScheduler, after: FrameScheduler, now: Instant) -> bool {
    let interval = before.frame_pacing_interval;
    if interval.is_zero() {
        after.next_frame_due == before.next_frame_due
    } else {
        &&& after.next_frame_due is Some
        &&& match before.next_frame_due {
            Some(due) => after.next_frame_due->0 == (if due.after(interval).after(
                interval,
            ).nanos < now.nanos {
                now.after(interval)
            } else {
                due.after(interval)
            }),
            None => after.next_frame_due->0 == now.after(interval),
        }
    }
}

/// The pace and the deadline are as they were.
spec fn pace_kept(before: FrameScheduler, after: FrameScheduler) -> bool {
    &&& after.next_frame_due == before.next_frame_due
    &&& after.frame_pacing_interval == before.frame_pacing_interval
}

/// The outcome of a look or a poll: where a frame goes on display its deadline moves.
spec fn paced_along(before: FrameScheduler, after: FrameScheduler, now: Instant) -> bool {
    &&& after.frame_pacing_interval == before.frame_pacing_interval
    &&& if after.presentation_generation == before.presentation_generation {
        after.next_frame_due == before.next_frame_due
    } else {
        deadline_moved(before, after, now)
    }
}

proof fn lemma_settling_keeps_pace(s: FrameScheduler, pts: Duration, clock: ClockReading)
    ensures
        pace_kept(s, s.with_sync_recorded(pts, clock)),
        pace_kept(s, s.with_recovery_tracked(clock.unix_us)),
        s.with_sync_recorded(pts, clock).presentation_generation == s.presentation_generation,
        s.with_recovery_tracked(clock.unix_us).presentation_generation
            == s.presentation_generation,
{
}

proof fn lemma_showing_paces(
    s: FrameScheduler,
    frame: VideoFrame,
    rest: Seq<VideoFrame>,
    clock: ClockReading,
)
    ensures
        paced_along(s, s.showing(frame, rest, clock), clock.now),
{
    reveal(FrameScheduler::showing);
    let shown = s.presenting(frame).paced(clock.now).with_epoch_released(frame.pts, clock.unix_us);
    let settled = if rest.len() > 0 && Duration::from_millis(500).before(
        rest[0].pts.saturating_sub(frame.pts),
    ) {
        shown.jumped_before(rest[0].pts, clock.now)
    } else {
        shown
    };
    assert(paced_along(s, settled, clock.now));
    lemma_settling_keeps_pace(settled, frame.pts, clock);
    lemma_settling_keeps_pace(settled.with_sync_recorded(frame.pts, clock), frame.pts, clock);
}

proof fn lemma_forcing_paces(
    s: FrameScheduler,
    frame: VideoFrame,
    verdict: Verdict,
    clock: ClockReading,
)
    ensures
        paced_along(s, s.forcing(frame, verdict, clock), clock.now),
{
    reveal(FrameScheduler::forcing);
    let shown = s.presenting(frame).running_from(frame.pts, clock.now).paced(clock.now);
    assert(paced_along(s, shown, clock.now));
    lemma_settling_keeps_pace(shown, frame.pts, clock);
    lemma_settling_keeps_pace(shown.with_sync_recorded(frame.pts, clock), frame.pts, clock);
}

proof fn lemma_looking_keeps_pace(s: FrameScheduler, clock: ClockReading, estimate: DriftEstimate)
    ensures
        pace_kept(s, s.looking(clock, estimate)),
        s.looking(clock, estimate).presentation_generation == s.presentation_generation,
{
    reveal(FrameScheduler::looking);
}

proof fn lemma_rejecting_paces(
    s: FrameScheduler,
    frames: Seq<VideoFrame>,
    position: Duration,
    clock: ClockReading,
    jumped: bool,
)
    requires
        frames.len() > 0,
    ensures
        ({
            let (next, rest, step) = s.step_reject(frames, position, clock, jumped);
            paced_along(s, next, clock.now) && (step is Again ==> next.presentation_generation
                == s.presentation_generation)
        }),
{
    reveal(FrameScheduler::step_reject);
    let next_pts = frames[0].pts;
    let noted = s.with_rejection_noted(next_pts, position, clock.now);
    assert(pace_kept(s, noted) && noted.presentation_generation == s.presentation_generation) by {
        reveal(FrameScheduler::with_rejection_noted);
    }
    let verdict = noted.verdict(next_pts.abs_diff(position), clock.now);
    lemma_forcing_paces(noted.judged(verdict), frames[0], verdict, clock);
}

proof fn lemma_step_paces(
    s: FrameScheduler,
    frames: Seq<VideoFrame>,
    eos: bool,
    clock: ClockReading,
    estimate: DriftEstimate,
    jumped: bool,
)
    ensures
        ({
            let (next, rest, step) = s.step(frames, eos, clock, estimate, jumped);
            paced_along(s, next, clock.now) && (step is Again ==> next.presentation_generation
                == s.presentation_generation)
        }),
{
    reveal(FrameScheduler::step);
    if frames.len() > 0 {
        let position = s.judging_position(clock, estimate);
        let looking = s.looking(clock, estimate);
        lemma_looking_keeps_pace(s, clock, estimate);
        lemma_rejecting_paces(looking, frames, position, clock, jumped);
        let limit = looking.accept_limit(frames[0].pts, position, clock.now);
        let taken = 1 + leading_due(frames.skip(1), limit) as int;
        lemma_showing_paces(
            FrameScheduler { reject: RejectWindow::closed(), ..looking },
            frames[taken - 1],
            frames.skip(taken),
            clock,
        );
        reveal(FrameScheduler::step_accept);
    }
}

proof fn lemma_selection_paces(
    s: FrameScheduler,
    frames: Seq<VideoFrame>,
    eos: bool,
    clock: ClockReading,
    estimate: DriftEstimate,
    jumped: bool,
)
    ensures
        paced_along(s, s.selection(frames, eos, clock, estimate, jumped).0, clock.now),
    decreases frames.len(), looks_left(jumped), looks_left(s.reject.offset_rebased),
{
    lemma_step_paces(s, frames, eos, clock, estimate, jumped);
    law_looks_run_out(s, frames, eos, clock, estimate, jumped);
    let (next, rest, step) = s.step(frames, eos, clock, estimate, jumped);
    if let Step::Again { jumped: again } = step {
        lemma_selection_paces(next, rest, eos, clock, estimate, again);
    }
}

proof fn lemma_empty_queue_shows_nothing_new(
    s: FrameScheduler,
    eos: bool,
    clock: ClockReading,
    estimate: DriftEstimate,
)
    ensures
        s.selection(Seq::empty(), eos, clock, estimate, false).0.presentation_generation
            == s.presentation_generation,
{
    reveal(FrameScheduler::step);
}

/// True of a poll that puts a frame on display.
pub open spec fn shows_anew(before: FrameScheduler, after: FrameScheduler) -> bool {
    after.presentation_generation != before.presentation_generation
}

/// With pacing on, nothing new is shown before its deadline: the frame on display stays
/// and the queue is as it was, but for frames that waited while the application was in the
/// background.
pub proof fn law_nothing_is_shown_before_its_deadline(
    s: FrameScheduler,
    frames: Seq<VideoFrame>,
    eos: bool,
    clock: ClockReading,
    estimate: DriftEstimate,
    due: Instant,
)
    requires
        !s.waiting_for_first_frame,
        !s.frame_pacing_interval.is_zero(),
        s.next_frame_due == Some(due),
        clock.now.nanos < due.nanos,
    ensures
        ({
            let (next, rest, shown) = s.poll(frames, eos, clock, estimate);
            &&& !shows_anew(s, next)
            &&& shown == s.current_frame
            &&& s.use_audio_as_sync_master || s.audio_handle is None ==> rest == frames
                && next.next_frame_due == Some(due)
        }),
{
    let gap = s.with_gap_handled(clock.now);
    let joined = gap.with_join_rebased(clock.now);
    let gated = joined.with_audio_gate(clock);
    lemma_empty_queue_shows_nothing_new(gated, eos, clock, estimate);
    if s.minds_gaps() && s.was_in_background(clock.now) {
        assert(gated.current_frame == s.current_frame);
        reveal(FrameScheduler::step);
    }
}

/// With pacing on, a frame that goes on display moves the deadline of the next one by
/// exactly one interval, as long as it is at most two intervals late itself. One that is
/// later puts it an interval from now, so that what was missed is not caught up in a
/// burst. The deadline always moves on by an interval or more, and the frame was not
/// shown before its own.
pub proof fn law_each_frame_moves_the_deadline(
    s: FrameScheduler,
    frames: Seq<VideoFrame>,
    eos: bool,
    clock: ClockReading,
    estimate: DriftEstimate,
    due: Instant,
)
    requires
        !s.waiting_for_first_frame,
        !s.frame_pacing_interval.is_zero(),
        s.next_frame_due == Some(due),
        due.nanos + 2 * s.frame_pacing_interval.nanos <= u128::MAX,
        clock.now.nanos + s.frame_pacing_interval.nanos <= u128::MAX,
        shows_anew(s, s.poll(frames, eos, clock, estimate).0),
    ensures
        ({
            let next = s.poll(frames, eos, clock, estimate).0;
            let interval: int = s.frame_pacing_interval.nanos as int;
            &&& due.nanos <= clock.now.nanos
            &&& next.frame_pacing_interval == s.frame_pacing_interval
            &&& next.next_frame_due is Some
            &&& next.next_frame_due->0.nanos >= due.nanos + interval
            &&& clock.now.nanos <= due.nanos + 2 * interval ==> next.next_frame_due->0.nanos
                == due.nanos + interval
            &&& clock.now.nanos > due.nanos + 2 * interval ==> next.next_frame_due->0.nanos
                == clock.now.nanos + interval
        }),
{
    if clock.now.nanos < due.nanos {
        law_nothing_is_shown_before_its_deadline(s, frames, eos, clock, estimate, due);
    }
    let gap = s.with_gap_handled(clock.now);
    let gated = gap.with_join_rebased(clock.now).with_audio_gate(clock);
    let rest = s.frames_after_gap(frames, clock.now);
    assert(gated.presentation_generation == s.presentation_generation);
    lemma_selection_paces(gated, rest, eos, clock, estimate, false);
    lemma_empty_queue_shows_nothing_new(gated, eos, clock, estimate);
    if s.minds_gaps() && s.was_in_background(clock.now) {
        assert(rest =~= Seq::<VideoFrame>::empty());
    } else {
        assert(pace_kept(s, gated));
    }
}

/// The first frame that goes on display while there is no deadline sets one, an interval
/// from now; so does the first frame after a start, and after a seek, where it has a time.
pub proof fn law_first_paced_frame_sets_a_deadline(
    s: FrameScheduler,
    frames: Seq<VideoFrame>,
    eos: bool,
    clock: ClockReading,
    estimate: DriftEstimate,
)
    requires
        !s.frame_pacing_interval.is_zero(),
        s.next_frame_due is None,
        clock.now.nanos + s.frame_pacing_interval.nanos <= u128::MAX,
        shows_anew(s, s.poll(frames, eos, clock, estimate).0),
        s.waiting_for_first_frame ==> !frames[0].pts.is_zero(),
    ensures
        s.poll(frames, eos, clock, estimate).0.next_frame_due == Some(
            Instant { nanos: (clock.now.nanos + s.frame_pacing_interval.nanos) as u128 },
        ),
{
    if s.waiting_for_first_frame {
        let shown = FrameScheduler {
            stalled: false,
            stall_cooldown_until: None,
            ..s.with_clock_started(frames[0].pts, clock).presenting(frames[0])
        }.paced(clock.now);
        lemma_settling_keeps_pace(shown, frames[0].pts, clock);
    } else {
        let gated = s.with_gap_handled(clock.now).with_join_rebased(clock.now).with_audio_gate(
            clock,
        );
        let rest = s.frames_after_gap(frames, clock.now);
        assert(gated.presentation_generation == s.presentation_generation);
        assert(pace_kept(s, gated));
        lemma_selection_paces(gated, rest, eos, clock, estimate, false);
    }
}

/// A poll that shows nothing new leaves the deadline as it was, or, after a pause in the
/// background, without one.
pub proof fn law_deadline_waits_for_a_frame(
    s: FrameScheduler,
    frames: Seq<VideoFrame>,
    eos: bool,
    clock: ClockReading,
    estimate: DriftEstimate,
)
    requires
        !s.waiting_for_first_frame,
        !shows_anew(s, s.poll(frames, eos, clock, estimate).0),
    ensures
        ({
            let next = s.poll(frames, eos, clock, estimate).0;
            &&& next.frame_pacing_interval == s.frame_pacing_interval
            &&& next.next_frame_due == s.next_frame_due || next.next_frame_due is None
            &&& s.use_audio_as_sync_master || s.audio_handle is None ==> next.next_frame_due
                == s.next_frame_due
        }),
{
    let gated = s.with_gap_handled(clock.now).with_join_rebased(clock.now).with_audio_gate(clock);
    let rest = s.frames_after_gap(frames, clock.now);
    assert(gated.presentation_generation == s.presentation_generation);
    lemma_selection_paces(gated, rest, eos, clock, estimate, false);
}

/// One poll of a run.
pub struct PacedPoll {
    pub before: FrameScheduler,
    pub frames: Seq<VideoFrame>,
    pub eos: bool,
    pub clock: ClockReading,
    pub estimate: DriftEstimate,
}

impl PacedPoll {
    pub open spec fn after(self) -> FrameScheduler {
        self.before.poll(self.frames, self.eos, self.clock, self.estimate).0
    }
}

/// A run of polls, one upon the other, each of which puts a frame on display.
pub open spec fn shows_each_time(polls: Seq<PacedPoll>) -> bool {
    &&& forall|i: int| 0 <= i < polls.len() ==> shows_anew(
        (#[trigger] polls[i]).before,
        polls[i].after(),
    ) && !polls[i].before.waiting_for_first_frame
    &&& forall|i: int, j: int|
        0 <= i && j == i + 1 && j < polls.len() ==> (#[trigger] polls[j]).before == (
        #[trigger] polls[i]).after()
}

/// Frames that are shown one after another take their time, however quickly they arrive
/// and however often it is polled: the n-th of them is not shown before n - 1 intervals
/// after the deadline of the first.
pub proof fn law_a_burst_is_spread_out(polls: Seq<PacedPoll>, due: Instant, interval: Duration)
    requires
        polls.len() > 0,
        shows_each_time(polls),
        interval.nanos > 0,
        polls[0].before.frame_pacing_interval == interval,
        polls[0].before.next_frame_due == Some(due),
        forall|i: int|
            0 <= i < polls.len() ==> (#[trigger] polls[i]).clock.now.nanos + 3 * interval.nanos
                <= u128::MAX,
    ensures
        polls.last().clock.now.nanos >= due.nanos + (polls.len() - 1) * interval.nanos,
        polls.last().before.frame_pacing_interval == interval,
        polls.last().before.next_frame_due is Some,
        polls.last().before.next_frame_due->0.nanos >= due.nanos + (polls.len() - 1)
            * interval.nanos,
    decreases polls.len(),
{
    let n = polls.len() - 1;
    let last = polls[n];
    if polls.len() > 1 {
        let early = polls.drop_last();
        assert forall|i: int| 0 <= i < early.len() implies shows_anew(
            (#[trigger] early[i]).before,
            early[i].after(),
        ) && !early[i].before.waiting_for_first_frame by {
            assert(early[i] == polls[i]);
        }
        assert forall|i: int, j: int|
            0 <= i && j == i + 1 && j < early.len() implies (#[trigger] early[j]).before == (
        #[trigger] early[i]).after() by {
            assert(early[i] == polls[i] && early[j] == polls[j]);
        }
        assert forall|i: int| 0 <= i < early.len() implies (
        #[trigger] early[i]).clock.now.nanos + 3 * interval.nanos <= u128::MAX by {
            assert(early[i] == polls[i]);
        }
        law_a_burst_is_spread_out(early, due, interval);
        let previous = polls[n - 1];
        assert(early.last() == previous);
        assert(last.before == previous.after());
        let before = previous.before.next_frame_due->0;
        if before.nanos <= previous.clock.now.nanos {
            law_each_frame_moves_the_deadline(
                previous.before,
                previous.frames,
                previous.eos,
                previous.clock,
                previous.estimate,
                before,
            );
        } else {
            law_nothing_is_shown_before_its_deadline(
                previous.before,
                previous.frames,
                previous.eos,
                previous.clock,
                previous.estimate,
                before,
            );
        }
        assert(n * interval.nanos == (n - 1) * interval.nanos + interval.nanos)
            by (nonlinear_arith);
    }
    let reached = last.before.next_frame_due->0;
    if last.clock.now.nanos < reached.nanos {
        law_nothing_is_shown_before_its_deadline(
            last.before,
            last.frames,
            last.eos,
            last.clock,
            last.estimate,
            reached,
        );
    }
}

/// Without pacing there is no deadline, and none holds a frame back.
pub proof fn law_pacing_can_be_switched_off(s: FrameScheduler, now: Instant)
    requires
        !s.frame_pacing_interval.is_zero(),
    ensures
        s.without_pacing().frame_pacing_interval.is_zero(),
        s.without_pacing().next_frame_due is None,
        !s.without_pacing().holds_for_pacing(now),
        s.with_pacing(None) == s,
        forall|interval: Duration|
            (#[trigger] s.with_pacing(Some(interval))).frame_pacing_interval == interval,
{
}

/// Each frame that goes on display counts as a new picture, once, however it got there: as
/// the first after a start, because it was due, or because it was forced.
pub proof fn law_each_shown_frame_is_a_new_picture(
    s: FrameScheduler,
    frame: VideoFrame,
    rest: Seq<VideoFrame>,
    verdict: Verdict,
    clock: ClockReading,
)
    ensures
        ({
            let due = s.showing(frame, rest, clock);
            let first = s.with_first_frame(seq![frame] + rest, clock);
            let forced = s.forcing(frame, verdict, clock);
            let next = if s.presentation_generation == u64::MAX {
                0
            } else {
                s.presentation_generation + 1
            };
            &&& due.presentation_generation == next
            &&& first.presentation_generation == next
            &&& forced.presentation_generation == next
        }),
{
    let frames = seq![frame] + rest;
    assert(frames[0] == frame);
    let shown = s.presenting(frame).paced(clock.now).with_epoch_released(frame.pts, clock.unix_us);
    let settled = if rest.len() > 0 && rest[0].pts.nanos > frame.pts.nanos + 500_000_000 {
        shown.jumped_before(rest[0].pts, clock.now)
    } else {
        shown
    };
    let begun = FrameScheduler {
        stalled: false,
        stall_cooldown_until: None,
        ..s.with_clock_started(frame.pts, clock).presenting(frame)
    }.paced(clock.now);
    let forced = s.presenting(frame).running_from(frame.pts, clock.now).paced(clock.now);
    lemma_settling_keeps_pace(settled, frame.pts, clock);
    lemma_settling_keeps_pace(settled.with_sync_recorded(frame.pts, clock), frame.pts, clock);
    lemma_settling_keeps_pace(begun, frame.pts, clock);
    lemma_settling_keeps_pace(forced, frame.pts, clock);
    lemma_settling_keeps_pace(forced.with_sync_recorded(frame.pts, clock), frame.pts, clock);
    reveal(FrameScheduler::showing);
    reveal(FrameScheduler::forcing);
    assert(s.showing(frame, rest, clock) == settled.with_sync_recorded(
        frame.pts,
        clock,
    ).with_recovery_tracked(clock.unix_us));
}

} // verus!
