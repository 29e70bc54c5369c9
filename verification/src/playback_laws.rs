//! Which frame a poll shows, and how the position moves.

use crate::frame_scheduler::{DriftEstimate, FrameScheduler, RejectWindow};
use crate::frame_selection::{law_looks_run_out, leading_due, looks_left, Step, Verdict};
use crate::scheduler_laws::law_newest_due_frame_is_taken;
use crate::time::{ClockReading, Duration, Instant};
use crate::video::VideoFrame;
use vstd::prelude::*;

verus! {

/// While the clock goes and nothing stalls, the position is where playback was set going
/// plus the time since, as long as that is within three seconds of the frame on display.
/// It moves as fast as time does.
pub proof fn law_position_moves_with_time(
    s: FrameScheduler,
    start: Instant,
    now: Instant,
    later: Instant,
)
    requires
        s.playback_start_time == Some(start),
        !s.stalled,
        !s.audio_stalled,
        start.nanos <= now.nanos <= later.nanos,
        s.playback_start_position.nanos + (later.nanos - start.nanos) <= u128::MAX,
        s.current_frame matches Some(frame) ==> s.playback_start_position.nanos + (later.nanos
            - start.nanos) <= frame.pts.nanos + 3_000_000_000,
    ensures
        s.position(now).nanos == s.playback_start_position.nanos + (now.nanos - start.nanos),
        s.position(later).nanos - s.position(now).nanos == later.nanos - now.nanos,
{
}

/// A wall clock that has run away from the frame on display does not count: the position
/// is then that of the frame.
pub proof fn law_position_returns_to_the_frame(
    s: FrameScheduler,
    start: Instant,
    now: Instant,
    frame: VideoFrame,
)
    requires
        s.playback_start_time == Some(start),
        s.current_frame == Some(frame),
        !s.stalled,
        !s.audio_stalled,
        start.nanos <= now.nanos,
        s.playback_start_position.nanos + (now.nanos - start.nanos) <= u128::MAX,
        s.playback_start_position.nanos + (now.nanos - start.nanos) > frame.pts.nanos
            + 3_000_000_000,
    ensures
        s.position(now) == frame.pts,
{
}

/// Pausing keeps the position: where the clock goes, nothing stalls and the wall clock is
/// at most a second past the frame on display, the position after a pause, however much
/// later, is the position just before it, and that is where playback was set going plus
/// the time since.
pub proof fn law_pause_keeps_the_position(
    s: FrameScheduler,
    start: Instant,
    now: Instant,
    later: Instant,
)
    requires
        s.playback_start_time == Some(start),
        !s.stalled,
        !s.audio_stalled,
        start.nanos <= now.nanos,
        s.playback_start_position.nanos + (now.nanos - start.nanos) <= u128::MAX,
        s.current_frame matches Some(frame) ==> s.playback_start_position.nanos + (now.nanos
            - start.nanos) <= frame.pts.nanos + 1_000_000_000,
    ensures
        s.after_pause(now).position(later) == s.position(now),
        s.after_pause(now).position(later).nanos == s.playback_start_position.nanos + (now.nanos
            - start.nanos),
{
}

/// Where the wall clock has run more than a second past the frame on display, playback is
/// paused at the frame; where the clock stands, at the position that was reached. A second
/// pause changes the position no more.
pub proof fn law_pause_stops_at_the_frame(s: FrameScheduler, now: Instant, later: Instant)
    ensures
        s.playback_start_time is None ==> s.after_pause(now).position(later) == s.current_position,
        s.playback_start_time matches Some(start) ==> (s.current_frame matches Some(frame) ==> (
        start.nanos <= now.nanos && s.playback_start_position.nanos + (now.nanos - start.nanos)
            > frame.pts.nanos + 1_000_000_000 ==> s.after_pause(now).position(later) == frame.pts
            || s.playback_start_position.nanos + (now.nanos - start.nanos) > u128::MAX)),
        s.after_pause(now).after_pause(later).position(later) == s.after_pause(now).position(later),
        s.after_pause(now).current_frame == s.current_frame,
        s.after_pause(now).audio_handle == s.audio_handle,
        !s.after_pause(now).playback_requested,
        s.after_pause(now).playback_start_time is None,
{
}

/// Playback that was asked for begins with the first frame that has a time: it is shown,
/// whatever its time, the clock runs from it, and the queue loses it alone.
pub proof fn law_first_frame_sets_the_clock_going(
    s: FrameScheduler,
    frames: Seq<VideoFrame>,
    eos: bool,
    clock: ClockReading,
    estimate: DriftEstimate,
    later: Instant,
)
    requires
        frames.len() > 0,
        !frames[0].pts.is_zero(),
        frames.len() > 1 ==> frames[1].pts.nanos <= frames[0].pts.nanos + 1_000_000_000,
        clock.now.nanos <= later.nanos <= clock.now.nanos + 3_000_000_000,
        frames[0].pts.nanos + 3_000_000_000 <= u128::MAX,
    ensures
        ({
            let before = s.after_start();
            let (next, rest, shown) = before.poll(frames, eos, clock, estimate);
            &&& shown == Some(frames[0])
            &&& next.current_frame == Some(frames[0])
            &&& rest =~= frames.skip(1)
            &&& !next.waiting_for_first_frame
            &&& next.playback_requested
            &&& next.playback_start_time == Some(clock.now)
            &&& next.playback_start_position == frames[0].pts
            &&& !s.audio_stalled ==> next.position(later).nanos == frames[0].pts.nanos + (later.nanos
                - clock.now.nanos)
        }),
{
    let before = s.after_start();
    let begun = FrameScheduler {
        stalled: false,
        stall_cooldown_until: None,
        ..before.with_clock_started(frames[0].pts, clock).presenting(frames[0])
    }.paced(clock.now);
    assert(before.with_first_frame(frames, clock) == begun.with_sync_recorded(
        frames[0].pts,
        clock,
    ));
    lemma_recording_keeps_the_clock(begun, frames[0].pts, clock);
}

proof fn lemma_recording_keeps_the_clock(s: FrameScheduler, pts: Duration, clock: ClockReading)
    ensures
        ({
            let t = s.with_sync_recorded(pts, clock);
            &&& t.current_frame == s.current_frame
            &&& t.current_position == s.current_position
            &&& t.playback_start_time == s.playback_start_time
            &&& t.playback_start_position == s.playback_start_position
            &&& t.waiting_for_first_frame == s.waiting_for_first_frame
            &&& t.playback_requested == s.playback_requested
            &&& t.stalled == s.stalled
            &&& t.audio_stalled == s.audio_stalled
        }),
{
}

/// A frame at zero may be a probe of the decoder: it is shown, and the clock still waits.
pub proof fn law_probe_frame_does_not_start_the_clock(
    s: FrameScheduler,
    frames: Seq<VideoFrame>,
    eos: bool,
    clock: ClockReading,
    estimate: DriftEstimate,
)
    requires
        s.waiting_for_first_frame,
        frames.len() > 0,
        frames[0].pts.is_zero(),
    ensures
        ({
            let (next, rest, shown) = s.poll(frames, eos, clock, estimate);
            &&& shown == Some(frames[0])
            &&& rest =~= frames.skip(1)
            &&& next.waiting_for_first_frame
            &&& next.playback_start_time == s.playback_start_time
            &&& next.audio_handle == s.audio_handle
        }),
{
}

/// With nothing queued, playback that waits for its first frame goes on waiting.
pub proof fn law_start_waits_for_a_frame(
    s: FrameScheduler,
    eos: bool,
    clock: ClockReading,
    estimate: DriftEstimate,
)
    requires
        s.waiting_for_first_frame,
    ensures
        s.poll(Seq::empty(), eos, clock, estimate) == (
            s,
            Seq::<VideoFrame>::empty(),
            s.current_frame,
        ),
{
}

/// Audio is the master clock, can be heard, and has begun.
pub open spec fn audio_leads(s: FrameScheduler) -> bool {
    &&& s.use_audio_as_sync_master
    &&& s.audio_handle is Some
    &&& s.audio_handle->0.available
    &&& s.audio_handle->0.position_for_sync().nanos > 0
}

/// No frame has been out of reach for as long as 900 ms, after which it could be forced.
pub open spec fn nothing_is_stuck(s: FrameScheduler, now: Instant) -> bool {
    s.reject.start_time matches Some(start) ==> now.nanos < start.nanos + 900_000_000
}

/// What the wall clock and the reject window have no part in.
spec fn same_footing(s: FrameScheduler, t: FrameScheduler) -> bool {
    &&& t.use_audio_as_sync_master == s.use_audio_as_sync_master
    &&& t.audio_handle == s.audio_handle
    &&& t.current_frame == s.current_frame
    &&& t.video_pts_bias == s.video_pts_bias
    &&& t.drift.correction_us == s.drift.correction_us
    &&& t.frame_pacing_interval == s.frame_pacing_interval
}

/// The frames that are left and the one on display after a poll of a file by a position.
spec fn picked(frames: Seq<VideoFrame>, eos: bool, current: VideoFrame, position: Duration) -> (
    Seq<VideoFrame>,
    VideoFrame,
)
    decreases frames.len(),
{
    let limit = position.saturating_add(Duration { nanos: 5_000_000 });
    if frames.len() == 0 || frames[0].pts.nanos > position.nanos + 1_000_000_000 {
        (frames, current)
    } else if frames[0].pts.nanos <= limit.nanos || (eos && frames[0].pts.abs_diff(position).nanos
        <= 250_000_000) {
        let taken = 1 + leading_due(frames.skip(1), limit) as int;
        if taken > frames.len() {
            (frames, current)
        } else if frames[taken - 1].pts.nanos < current.pts.nanos {
            picked(frames.skip(taken), eos, current, position)
        } else {
            (frames.skip(taken), frames[taken - 1])
        }
    } else {
        (frames, current)
    }
}

proof fn lemma_looking_by_audio(s: FrameScheduler, clock: ClockReading, estimate: DriftEstimate)
    requires
        audio_leads(s),
    ensures
        s.judging_position(clock, estimate) == s.biased(s.audio_handle->0.position_for_sync()),
        same_footing(s, s.looking(clock, estimate)),
        s.looking(clock, estimate).reject == s.reject,
{
    reveal(FrameScheduler::looking);
    reveal(FrameScheduler::judging_position);
}

proof fn lemma_young_window_holds(
    s: FrameScheduler,
    frames: Seq<VideoFrame>,
    position: Duration,
    clock: ClockReading,
    jumped: bool,
)
    requires
        frames.len() > 0,
        frames[0].pts.nanos <= position.nanos + 1_000_000_000,
        nothing_is_stuck(s, clock.now),
    ensures
        s.step_reject(frames, position, clock, jumped).1 == frames,
        s.step_reject(frames, position, clock, jumped).2 == Step::Done(s.current_frame),
        same_footing(s, s.step_reject(frames, position, clock, jumped).0),
{
    reveal(FrameScheduler::step_reject);
    reveal(FrameScheduler::with_rejection_noted);
    let next_pts = frames[0].pts;
    let noted = s.with_rejection_noted(next_pts, position, clock.now);
    assert(noted.reject.start_time == (match s.reject.start_time {
        Some(start) => Some(start),
        None => Some(clock.now),
    }));
    assert(!noted.lead_calls_for_rebase(next_pts.saturating_sub(position)));
    assert(noted.verdict(next_pts.abs_diff(position), clock.now) == Verdict::Hold);
}

proof fn lemma_accept_of_a_file(
    s: FrameScheduler,
    frames: Seq<VideoFrame>,
    limit: Duration,
    clock: ClockReading,
    current: VideoFrame,
)
    requires
        frames.len() > 0,
        s.use_audio_as_sync_master || s.audio_handle is None,
        s.current_frame == Some(current),
    ensures
        ({
            let taken = 1 + leading_due(frames.skip(1), limit) as int;
            let (next, rest, step) = s.step_accept(frames, limit, clock);
            &&& 1 <= taken <= frames.len()
            &&& rest == frames.skip(taken)
            &&& if frames[taken - 1].pts.nanos < current.pts.nanos {
                &&& step == Step::Again { jumped: false }
                &&& next == (FrameScheduler { reject: RejectWindow::closed(), ..s })
            } else {
                step == Step::Done(Some(frames[taken - 1]))
            }
        }),
{
    reveal(FrameScheduler::step_accept);
    law_newest_due_frame_is_taken(frames.skip(1), limit);
}

proof fn lemma_step_by_audio(
    s: FrameScheduler,
    frames: Seq<VideoFrame>,
    eos: bool,
    clock: ClockReading,
    estimate: DriftEstimate,
    jumped: bool,
    current: VideoFrame,
)
    requires
        audio_leads(s),
        s.frame_pacing_interval.is_zero(),
        nothing_is_stuck(s, clock.now),
        s.current_frame == Some(current),
    ensures
        ({
            let position = s.biased(s.audio_handle->0.position_for_sync());
            let limit = position.saturating_add(Duration { nanos: 5_000_000 });
            let taken = 1 + leading_due(frames.skip(1), limit) as int;
            let (next, rest, step) = s.step(frames, eos, clock, estimate, jumped);
            if frames.len() == 0 {
                rest == frames && step == Step::Done(Some(current))
            } else if frames[0].pts.nanos > position.nanos + 1_000_000_000 {
                &&& rest == frames
                &&& step == (if jumped {
                    Step::Done(Some(current))
                } else {
                    Step::Again { jumped: true }
                })
                &&& same_footing(s, next)
                &&& nothing_is_stuck(next, clock.now)
            } else if frames[0].pts.nanos <= limit.nanos || (eos && frames[0].pts.abs_diff(
                position,
            ).nanos <= 250_000_000) {
                &&& 1 <= taken <= frames.len()
                &&& rest == frames.skip(taken)
                &&& if frames[taken - 1].pts.nanos < current.pts.nanos {
                    &&& step == Step::Again { jumped: false }
                    &&& same_footing(s, next)
                    &&& nothing_is_stuck(next, clock.now)
                } else {
                    step == Step::Done(Some(frames[taken - 1]))
                }
            } else {
                rest == frames && step == Step::Done(Some(current))
            }
        }),
{
    reveal(FrameScheduler::step);
    if frames.len() > 0 {
        lemma_looking_by_audio(s, clock, estimate);
        let looking = s.looking(clock, estimate);
        let position = s.judging_position(clock, estimate);
        let limit = position.saturating_add(Duration { nanos: 5_000_000 });
        assert(looking.accept_limit(frames[0].pts, position, clock.now) == limit);
        lemma_accept_of_a_file(looking, frames, limit, clock, current);
        if frames[0].pts.nanos <= position.nanos + 1_000_000_000 {
            lemma_young_window_holds(looking, frames, position, clock, jumped);
        }
    }
}

proof fn lemma_selection_by_audio(
    s: FrameScheduler,
    frames: Seq<VideoFrame>,
    eos: bool,
    clock: ClockReading,
    estimate: DriftEstimate,
    jumped: bool,
    current: VideoFrame,
)
    requires
        audio_leads(s),
        s.frame_pacing_interval.is_zero(),
        nothing_is_stuck(s, clock.now),
        s.current_frame == Some(current),
    ensures
        ({
            let position = s.biased(s.audio_handle->0.position_for_sync());
            let (_, rest, shown) = s.selection(frames, eos, clock, estimate, jumped);
            let (left, frame) = picked(frames, eos, current, position);
            rest == left && shown == Some(frame)
        }),
    decreases frames.len(), looks_left(jumped), looks_left(s.reject.offset_rebased),
{
    lemma_step_by_audio(s, frames, eos, clock, estimate, jumped, current);
    law_looks_run_out(s, frames, eos, clock, estimate, jumped);
    let (next, rest, step) = s.step(frames, eos, clock, estimate, jumped);
    if let Step::Again { jumped: again } = step {
        lemma_selection_by_audio(next, rest, eos, clock, estimate, again, current);
    }
}

proof fn lemma_poll_by_audio(
    s: FrameScheduler,
    frames: Seq<VideoFrame>,
    eos: bool,
    clock: ClockReading,
    estimate: DriftEstimate,
    current: VideoFrame,
)
    requires
        audio_leads(s),
        !s.waiting_for_first_frame,
        s.frame_pacing_interval.is_zero(),
        nothing_is_stuck(s, clock.now),
        s.current_frame == Some(current),
    ensures
        ({
            let position = s.biased(s.audio_handle->0.position_for_sync());
            let (_, rest, shown) = s.poll(frames, eos, clock, estimate);
            let (left, frame) = picked(frames, eos, current, position);
            rest == left && shown == Some(frame)
        }),
{
    lemma_selection_by_audio(s, frames, eos, clock, estimate, false, current);
}

proof fn lemma_picked_is_due(
    frames: Seq<VideoFrame>,
    eos: bool,
    current: VideoFrame,
    position: Duration,
)
    ensures
        ({
            let (rest, frame) = picked(frames, eos, current, position);
            ||| frame == current
            ||| frame.pts.nanos <= position.nanos + 5_000_000
            ||| eos && frame.pts.nanos <= position.nanos + 250_000_000
        }),
    decreases frames.len(),
{
    let limit = position.saturating_add(Duration { nanos: 5_000_000 });
    if frames.len() > 0 {
        law_newest_due_frame_is_taken(frames.skip(1), limit);
        let taken = 1 + leading_due(frames.skip(1), limit) as int;
        if taken >= 2 {
            assert(frames.skip(1)[taken - 2] == frames[taken - 1]);
        }
        lemma_picked_is_due(frames.skip(taken), eos, current, position);
    }
}

/// Where audio is the master and has begun, a frame of a file goes on display only when
/// its sound is heard, five milliseconds early at most, however far the wall clock is
/// ahead. At the end of the stream the last frames may be a quarter of a second early.
/// The position of the audio counts with the bias that is set.
pub proof fn law_no_frame_is_shown_before_its_sound(
    s: FrameScheduler,
    frames: Seq<VideoFrame>,
    eos: bool,
    clock: ClockReading,
    estimate: DriftEstimate,
)
    requires
        audio_leads(s),
        !s.waiting_for_first_frame,
        s.frame_pacing_interval.is_zero(),
        nothing_is_stuck(s, clock.now),
        s.current_frame is Some,
    ensures
        ({
            let heard = s.biased(s.audio_handle->0.position_for_sync());
            let shown = s.poll(frames, eos, clock, estimate).2;
            &&& shown is Some
            &&& shown != s.current_frame ==> {
                ||| shown->0.pts.nanos <= heard.nanos + 5_000_000
                ||| eos && shown->0.pts.nanos <= heard.nanos + 250_000_000
            }
        }),
{
    let heard = s.biased(s.audio_handle->0.position_for_sync());
    lemma_poll_by_audio(s, frames, eos, clock, estimate, s.current_frame->0);
    lemma_picked_is_due(frames, eos, s.current_frame->0, heard);
}

/// The same without a bias: the position of the audio is what counts.
pub proof fn law_unbiased_frames_keep_to_their_sound(
    s: FrameScheduler,
    frames: Seq<VideoFrame>,
    clock: ClockReading,
    estimate: DriftEstimate,
)
    requires
        audio_leads(s),
        !s.waiting_for_first_frame,
        s.frame_pacing_interval.is_zero(),
        nothing_is_stuck(s, clock.now),
        s.current_frame is Some,
        s.video_pts_bias.is_zero(),
        s.drift.correction_us == 0,
    ensures
        ({
            let heard = s.audio_handle->0.position_for_sync();
            let shown = s.poll(frames, false, clock, estimate).2;
            shown is Some && (shown == s.current_frame || shown->0.pts.nanos <= heard.nanos
                + 5_000_000)
        }),
{
    law_no_frame_is_shown_before_its_sound(s, frames, false, clock, estimate);
}

/// Video neither races ahead of the audio nor stays behind it: of the frames that are due
/// by the audio the newest is shown, and those before it are passed over. A frame that is
/// not due is left in the queue, and what is on display stays.
pub proof fn law_newest_frame_of_the_sound_is_shown(
    s: FrameScheduler,
    frames: Seq<VideoFrame>,
    clock: ClockReading,
    estimate: DriftEstimate,
)
    requires
        audio_leads(s),
        !s.waiting_for_first_frame,
        s.frame_pacing_interval.is_zero(),
        nothing_is_stuck(s, clock.now),
        s.current_frame is Some,
        s.video_pts_bias.is_zero(),
        s.drift.correction_us == 0,
        s.audio_handle->0.position_for_sync().nanos + 5_000_000 <= u128::MAX,
        forall|i: int|
            0 <= i < frames.len() ==> s.current_frame->0.pts.nanos <= (#[trigger] frames[i]).pts.nanos,
    ensures
        ({
            let heard = s.audio_handle->0.position_for_sync();
            let (next, rest, shown) = s.poll(frames, false, clock, estimate);
            let taken = frames.len() - rest.len();
            &&& rest =~= frames.skip(taken)
            &&& frames.len() > 0 && frames[0].pts.nanos <= heard.nanos + 5_000_000 ==> {
                &&& taken >= 1
                &&& shown == Some(frames[taken - 1])
                &&& shown->0.pts.nanos <= heard.nanos + 5_000_000
                &&& rest.len() > 0 ==> rest[0].pts.nanos > heard.nanos + 5_000_000
            }
            &&& frames.len() == 0 || frames[0].pts.nanos > heard.nanos + 5_000_000 ==> {
                &&& rest =~= frames
                &&& shown == s.current_frame
            }
        }),
{
    let current = s.current_frame->0;
    let heard = s.audio_handle->0.position_for_sync();
    let limit = heard.saturating_add(Duration { nanos: 5_000_000 });
    lemma_poll_by_audio(s, frames, false, clock, estimate, current);
    assert(s.biased(heard) == heard);
    assert(frames.skip(0) =~= frames);
    if frames.len() > 0 {
        law_newest_due_frame_is_taken(frames.skip(1), limit);
        let taken = 1 + leading_due(frames.skip(1), limit) as int;
        if taken >= 2 {
            assert(frames.skip(1)[taken - 2] == frames[taken - 1]);
        }
        if taken < frames.len() {
            assert(frames.skip(1)[taken - 1] == frames[taken]);
        }
    }
}

/// The wall clock has no part in it: two schedulers that hear the same audio and show the
/// same frame take the same frames from the same queue, whatever their wall clocks show,
/// wherever they were set going, and whenever they are polled.
pub proof fn law_wall_clock_does_not_choose(
    s: FrameScheduler,
    t: FrameScheduler,
    frames: Seq<VideoFrame>,
    eos: bool,
    clock: ClockReading,
    other_clock: ClockReading,
    estimate: DriftEstimate,
    other_estimate: DriftEstimate,
)
    requires
        audio_leads(s),
        audio_leads(t),
        s.audio_handle->0.position_for_sync() == t.audio_handle->0.position_for_sync(),
        s.current_frame is Some,
        s.current_frame == t.current_frame,
        s.video_pts_bias == t.video_pts_bias,
        s.drift.correction_us == t.drift.correction_us,
        !s.waiting_for_first_frame,
        !t.waiting_for_first_frame,
        s.frame_pacing_interval.is_zero(),
        t.frame_pacing_interval.is_zero(),
        nothing_is_stuck(s, clock.now),
        nothing_is_stuck(t, other_clock.now),
    ensures
        s.poll(frames, eos, clock, estimate).1 == t.poll(
            frames,
            eos,
            other_clock,
            other_estimate,
        ).1,
        s.poll(frames, eos, clock, estimate).2 == t.poll(
            frames,
            eos,
            other_clock,
            other_estimate,
        ).2,
{
    lemma_poll_by_audio(s, frames, eos, clock, estimate, s.current_frame->0);
    lemma_poll_by_audio(t, frames, eos, other_clock, other_estimate, s.current_frame->0);
}

/// Without audio the wall clock chooses: of the frames that are due by the position, five
/// milliseconds early at most, the newest is shown; where none is, what is on display
/// stays and the queue is left alone.
pub proof fn law_wall_clock_chooses_without_audio(
    s: FrameScheduler,
    start: Instant,
    frames: Seq<VideoFrame>,
    clock: ClockReading,
    estimate: DriftEstimate,
)
    requires
        s.audio_handle is None,
        !s.waiting_for_first_frame,
        s.playback_start_time == Some(start),
        start.nanos <= clock.now.nanos,
        !s.stalled,
        !s.audio_stalled,
        s.frame_pacing_interval.is_zero(),
        nothing_is_stuck(s, clock.now),
        s.current_frame is Some,
        s.video_pts_bias.is_zero(),
        s.drift.correction_us == 0,
        s.playback_start_position.nanos + (clock.now.nanos - start.nanos) + 1_000_000_000
            <= u128::MAX,
        s.playback_start_position.nanos + (clock.now.nanos - start.nanos)
            <= s.current_frame->0.pts.nanos + 3_000_000_000,
        forall|i: int|
            0 <= i < frames.len() ==> s.current_frame->0.pts.nanos <= (#[trigger] frames[i]).pts.nanos,
        frames.len() > 0 ==> frames[0].pts.nanos <= s.playback_start_position.nanos + (
        clock.now.nanos - start.nanos) + 1_000_000_000,
    ensures
        ({
            let due: int = s.playback_start_position.nanos + (clock.now.nanos - start.nanos)
                + 5_000_000;
            let (next, rest, shown) = s.poll(frames, false, clock, estimate);
            let taken = frames.len() - rest.len();
            &&& rest =~= frames.skip(taken)
            &&& frames.len() > 0 && frames[0].pts.nanos <= due ==> {
                &&& taken >= 1
                &&& shown == Some(frames[taken - 1])
                &&& shown->0.pts.nanos <= due
                &&& rest.len() > 0 ==> rest[0].pts.nanos > due
            }
            &&& frames.len() == 0 || frames[0].pts.nanos > due ==> {
                &&& rest =~= frames
                &&& shown == s.current_frame
            }
        }),
{
    let current = s.current_frame->0;
    let gated = s.with_gap_handled(clock.now).with_join_rebased(clock.now).with_audio_gate(clock);
    assert(s.frames_after_gap(frames, clock.now) == frames);
    assert(same_footing(s, gated));
    assert(gated.reject == s.reject);
    assert(gated.playback_start_time == s.playback_start_time);
    assert(gated.playback_start_position == s.playback_start_position);
    assert(!gated.stalled && !gated.audio_stalled);
    assert(frames.skip(0) =~= frames);
    reveal(FrameScheduler::step);
    if frames.len() > 0 {
        lemma_looking_by_wall(gated, start, clock, estimate);
        let looking = gated.looking(clock, estimate);
        let position = gated.judging_position(clock, estimate);
        let limit = position.saturating_add(Duration { nanos: 5_000_000 });
        assert(looking.accept_limit(frames[0].pts, position, clock.now) == limit);
        lemma_accept_of_a_file(looking, frames, limit, clock, current);
        lemma_young_window_holds(looking, frames, position, clock, false);
        law_newest_due_frame_is_taken(frames.skip(1), limit);
        let taken = 1 + leading_due(frames.skip(1), limit) as int;
        if taken >= 2 {
            assert(frames.skip(1)[taken - 2] == frames[taken - 1]);
        }
        if taken < frames.len() {
            assert(frames.skip(1)[taken - 1] == frames[taken]);
        }
        let (next, rest, step) = gated.step(frames, false, clock, estimate, false);
        assert(step is Done);
        assert(gated.selection(frames, false, clock, estimate, false) == (next, rest, step->Done_0));
    } else {
        assert(gated.selection(frames, false, clock, estimate, false) == (
            gated,
            frames,
            gated.current_frame,
        ));
    }
}

proof fn lemma_looking_by_wall(
    s: FrameScheduler,
    start: Instant,
    clock: ClockReading,
    estimate: DriftEstimate,
)
    requires
        s.audio_handle is None,
        s.playback_start_time == Some(start),
        start.nanos <= clock.now.nanos,
        !s.stalled,
        !s.audio_stalled,
        s.current_frame is Some,
        s.video_pts_bias.is_zero(),
        s.drift.correction_us == 0,
        s.playback_start_position.nanos + (clock.now.nanos - start.nanos) <= u128::MAX,
        s.playback_start_position.nanos + (clock.now.nanos - start.nanos)
            <= s.current_frame->0.pts.nanos + 3_000_000_000,
    ensures
        s.judging_position(clock, estimate).nanos == s.playback_start_position.nanos + (
        clock.now.nanos - start.nanos),
        same_footing(s, s.looking(clock, estimate)),
        s.looking(clock, estimate).reject == s.reject,
{
    reveal(FrameScheduler::looking);
    reveal(FrameScheduler::judging_position);
}

} // verus!
