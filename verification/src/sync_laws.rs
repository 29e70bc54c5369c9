//! What holds of the frame scheduler as it shows a frame and measures how well it keeps to
//! its sound.

use crate::frame_scheduler::{DriftEstimate, FrameScheduler, RejectWindow};
use crate::frame_selection::{Step, Verdict};
use crate::scheduler_sync::measured;
use crate::time::{ClockReading, Duration, Instant};
use crate::video::VideoFrame;
use vstd::prelude::*;

verus! {

/// Before audio is heard nothing is measured of a frame.
pub proof fn law_nothing_is_measured_before_audio(
    s: FrameScheduler,
    pts: Duration,
    clock: ClockReading,
)
    requires
        s.audio_position().nanos == 0,
    ensures
        ({
            let after = s.with_sync_recorded(pts, clock);
            &&& after.sync_metrics.sample_count == s.sync_metrics.sample_count
            &&& after.sync_metrics.current_drift_us == s.sync_metrics.current_drift_us
            &&& after.audio_start_time == s.audio_start_time
            &&& s.audio_handle matches Some(handle)
                ==> after.sync_metrics.stream_pts_offset_us == handle.stream_pts_offset_us
        }),
{
}

/// Where the wall clock drives the frames, a frame is measured against the audio that is
/// heard with it.
pub proof fn law_frames_are_measured_against_their_sound(
    s: FrameScheduler,
    pts: Duration,
    clock: ClockReading,
)
    requires
        s.audio_position().nanos > 0,
        s.audio_handle is Some,
        !s.audio_handle->0.is_using_native_position(),
        !s.use_audio_as_sync_master,
        s.sync_metrics.enabled,
        s.sync_metrics.grace_samples == 0,
        pts.nanos / 1000 <= i64::MAX,
        s.audio_position().nanos / 1000 <= i64::MAX,
    ensures
        ({
            let after = s.with_sync_recorded(pts, clock);
            &&& after.sync_metrics.current_drift_us == pts.nanos / 1000 - s.audio_position().nanos
                / 1000
            &&& !after.sync_metrics.sync_externally_managed
            &&& s.audio_start_time is None ==> after.audio_start_time == Some(clock.now)
                && after.audio_start_pos == s.audio_position()
            &&& s.audio_start_time is Some ==> after.audio_start_time == s.audio_start_time
            &&& after.current_frame == s.current_frame
            &&& after.playback_start_position == s.playback_start_position
        }),
{
    reveal(measured);
}

/// A native player keeps sound and picture together by itself: no drift is measured.
pub proof fn law_native_players_do_not_drift(
    s: FrameScheduler,
    pts: Duration,
    clock: ClockReading,
)
    requires
        s.audio_position().nanos > 0,
        s.audio_handle is Some,
        s.audio_handle->0.is_using_native_position(),
        s.sync_metrics.enabled,
        s.sync_metrics.grace_samples == 0,
    ensures
        s.with_sync_recorded(pts, clock).sync_metrics.current_drift_us == 0,
        s.with_sync_recorded(pts, clock).sync_metrics.sync_externally_managed,
        s.with_sync_recorded(pts, clock).audio_start_time == s.audio_start_time,
{
    reveal(measured);
}

/// Where audio drives the frames, what is measured is by how much the wall clock has run
/// ahead of audio since both were last compared. That point is set anew, and what was
/// measured forgotten, where it is two seconds old and the two are more than a fifth of a
/// second apart.
pub proof fn law_clocks_are_measured_against_each_other(
    s: FrameScheduler,
    pts: Duration,
    start: Instant,
    clock: ClockReading,
)
    requires
        s.audio_position().nanos > 0,
        s.audio_handle is Some,
        !s.audio_handle->0.is_using_native_position(),
        s.use_audio_as_sync_master,
        s.sync_metrics.enabled,
        s.sync_metrics.grace_samples == 0,
        s.audio_start_time == Some(start),
        start.nanos <= clock.now.nanos,
        s.audio_start_pos.nanos <= s.audio_position().nanos,
        (clock.now.nanos - start.nanos) / 1000 <= i64::MAX,
        s.audio_position().nanos / 1000 <= i64::MAX,
    ensures
        ({
            let after = s.with_sync_recorded(pts, clock);
            let wall: int = clock.now.nanos - start.nanos;
            let audio: int = s.audio_position().nanos - s.audio_start_pos.nanos;
            let apart: int = if wall >= audio {
                wall - audio
            } else {
                audio - wall
            };
            let off = wall >= 2_000_000_000 && apart > 200_000_000;
            &&& !off ==> after.sync_metrics.current_drift_us == wall / 1000 - audio / 1000
                && after.audio_start_time == Some(start) && after.audio_start_pos
                == s.audio_start_pos
            &&& off ==> after.sync_metrics.current_drift_us == 0 && after.sync_metrics.sample_count
                == 1 && after.audio_start_time == Some(clock.now) && after.audio_start_pos
                == s.audio_position()
        }),
{
    reveal(measured);
}

/// Measuring a frame leaves the display and the clock alone.
proof fn lemma_measuring_keeps_the_clock(s: FrameScheduler, pts: Duration, clock: ClockReading)
    ensures
        ({
            let t = s.with_sync_recorded(pts, clock);
            &&& t.current_frame == s.current_frame
            &&& t.presentation_generation == s.presentation_generation
            &&& t.current_position == s.current_position
            &&& t.playback_start_time == s.playback_start_time
            &&& t.playback_start_position == s.playback_start_position
        }),
        ({
            let t = s.with_recovery_tracked(clock.unix_us);
            &&& t.current_frame == s.current_frame
            &&& t.presentation_generation == s.presentation_generation
            &&& t.current_position == s.current_position
            &&& t.playback_start_time == s.playback_start_time
            &&& t.playback_start_position == s.playback_start_position
        }),
{
}

/// A frame that is shown is on display, counts as a new one, and the clock goes on, unless
/// the next is more than half a second later: then it jumps to 42 ms before that.
pub proof fn law_shown_frame_is_on_display(
    s: FrameScheduler,
    frame: VideoFrame,
    rest: Seq<VideoFrame>,
    clock: ClockReading,
)
    requires
        rest.len() > 0 ==> frame.pts.nanos <= rest[0].pts.nanos,
    ensures
        ({
            let after = s.showing(frame, rest, clock);
            let far = rest.len() > 0 && rest[0].pts.nanos > frame.pts.nanos + 500_000_000;
            &&& after.current_frame == Some(frame)
            &&& after.presentation_generation != s.presentation_generation
            &&& !far ==> after.current_position == frame.pts && after.playback_start_time
                == s.playback_start_time && after.playback_start_position
                == s.playback_start_position
            &&& far ==> after.playback_start_time == Some(clock.now)
                && after.playback_start_position.nanos == rest[0].pts.nanos - 42_000_000
                && after.current_position.nanos == rest[0].pts.nanos - 42_000_000
        }),
{
    reveal(FrameScheduler::showing);
    let shown = s.presenting(frame).paced(clock.now).with_epoch_released(frame.pts, clock.unix_us);
    let far = rest.len() > 0 && rest[0].pts.nanos > frame.pts.nanos + 500_000_000;
    let settled = if far {
        shown.jumped_before(rest[0].pts, clock.now)
    } else {
        shown
    };
    let noted = settled.with_sync_recorded(frame.pts, clock);
    lemma_measuring_keeps_the_clock(settled, frame.pts, clock);
    lemma_measuring_keeps_the_clock(noted, frame.pts, clock);
    assert(s.showing(frame, rest, clock) == noted.with_recovery_tracked(clock.unix_us));
}

/// A queue whose head is more than a second away makes the clock jump to 42 ms before it;
/// nothing is taken from the queue, and the head is looked at again, once.
pub proof fn law_clock_jumps_a_long_gap(
    s: FrameScheduler,
    frames: Seq<VideoFrame>,
    eos: bool,
    clock: ClockReading,
    estimate: DriftEstimate,
    jumped: bool,
)
    requires
        frames.len() > 0,
        frames[0].pts.nanos > s.judging_position(clock, estimate).nanos + 1_000_000_000,
    ensures
        ({
            let (after, rest, step) = s.step(frames, eos, clock, estimate, jumped);
            &&& rest == frames
            &&& after.playback_start_time == Some(clock.now)
            &&& after.playback_start_position.nanos == frames[0].pts.nanos - 42_000_000
            &&& after.reject == RejectWindow::closed()
            &&& !jumped ==> step == Step::Again { jumped: true }
            &&& jumped ==> step == Step::Done(s.current_frame)
        }),
{
    reveal(FrameScheduler::step);
}

/// An empty queue shows what is on display already; where nothing is, playback stalls.
pub proof fn law_empty_queue_keeps_the_display(
    s: FrameScheduler,
    eos: bool,
    clock: ClockReading,
    estimate: DriftEstimate,
    jumped: bool,
)
    ensures
        ({
            let (after, rest, step) = s.step(
                Seq::<VideoFrame>::empty(),
                eos,
                clock,
                estimate,
                jumped,
            );
            &&& rest.len() == 0
            &&& step == Step::Done(s.current_frame)
            &&& s.current_frame is Some ==> after == s
            &&& after.current_frame == s.current_frame
        }),
{
    reveal(FrameScheduler::step);
}

/// A frame that is rejected opens a window, which lasts from the first rejection, counts each
/// of them and remembers the widest gap.
pub proof fn law_rejections_are_counted(window: RejectWindow, gap: Duration, now: Instant)
    requires
        window.count < u32::MAX,
    ensures
        window.counted(gap, now).count == window.count + 1,
        window.start_time is None ==> window.counted(gap, now).start_time == Some(now),
        window.start_time is Some ==> window.counted(gap, now).start_time == window.start_time,
        window.counted(gap, now).peak_gap.nanos >= gap.nanos,
        window.counted(gap, now).peak_gap.nanos >= window.peak_gap.nanos,
        window.counted(gap, now).peak_gap == gap || window.counted(gap, now).peak_gap
            == window.peak_gap,
        window.counted(gap, now).state == window.state,
        RejectWindow::closed().start_time is None,
        RejectWindow::closed().count == 0,
{
}

/// A window is reported once it is a fifth of a second old, and once only.
pub proof fn law_windows_are_reported_once(s: FrameScheduler, start: Instant, now: Instant)
    requires
        s.reject.start_time == Some(start),
        start.nanos <= now.nanos,
    ensures
        s.with_window_reported(now).reject.reported <==> s.reject.reported || now.nanos
            >= start.nanos + 200_000_000,
        s.reject.reported ==> s.with_window_reported(now) == s,
        s.with_window_reported(now).current_frame == s.current_frame,
        s.with_window_reported(now).reject.count == s.reject.count,
{
}

/// The scheduler after smooth frames were shown at the times given.
pub open spec fn smoothed(s: FrameScheduler, times: Seq<u64>) -> FrameScheduler
    decreases times.len(),
{
    if times.len() == 0 {
        s
    } else {
        smoothed(s, times.drop_last()).with_recovery_tracked(times.last())
    }
}

proof fn lemma_smooth_frames_count(s: FrameScheduler, times: Seq<u64>)
    requires
        s.sync_metrics.enabled,
        s.sync_metrics.in_recovery,
        s.frames_since_recovery == 0,
        times.len() < 30,
    ensures
        smoothed(s, times) == (FrameScheduler {
            frames_since_recovery: times.len() as u32,
            ..s
        }),
    decreases times.len(),
{
    if times.len() > 0 {
        lemma_smooth_frames_count(s, times.drop_last());
    }
}

/// A recovery ends with its thirtieth smooth frame, not before; its time runs to that frame.
pub proof fn law_recovery_takes_thirty_smooth_frames(s: FrameScheduler, times: Seq<u64>)
    requires
        s.sync_metrics.enabled,
        s.sync_metrics.in_recovery,
        s.frames_since_recovery == 0,
        0 < times.len() <= 30,
        s.sync_metrics.recovery_start_time_us <= times.last(),
        s.sync_metrics.total_recovery_time_us + times.last() <= u64::MAX,
        s.sync_metrics.recovery_count < u64::MAX,
    ensures
        times.len() < 30 ==> smoothed(s, times).sync_metrics == s.sync_metrics,
        times.len() == 30 ==> {
            let after = smoothed(s, times);
            &&& !after.sync_metrics.in_recovery
            &&& after.sync_metrics.recovery_count == s.sync_metrics.recovery_count + 1
            &&& after.sync_metrics.total_recovery_time_us == s.sync_metrics.total_recovery_time_us
                + (times.last() - s.sync_metrics.recovery_start_time_us)
            &&& after.frames_since_recovery == 0
        },
        smoothed(s, times).current_frame == s.current_frame,
{
    lemma_smooth_frames_count(s, times.drop_last());
    if times.len() < 30 {
        lemma_smooth_frames_count(s, times);
    }
}

/// Frames are chosen by the audio once it is followed; audio that should begin holds them at
/// the start for half a second; and else the wall clock chooses.
pub proof fn law_audio_chooses_once_it_is_heard(s: FrameScheduler, now: Instant)
    ensures
        s.use_audio_as_sync_master && s.audio_handle is Some && s.audio_handle->0.available
            && s.audio_handle->0.position_for_sync().nanos > 0 ==> s.chosen_position(now)
            == s.audio_handle->0.position_for_sync() && !s.with_fallback_noted(
            now,
        ).audio_clock_fallback_reported,
        s.use_audio_as_sync_master && s.audio_handle is Some && s.audio_handle->0.available
            && s.audio_handle->0.position_for_sync().nanos == 0 ==> {
            &&& s.running_for(now).nanos < 500_000_000 ==> s.chosen_position(now)
                == s.playback_start_position
            &&& s.running_for(now).nanos >= 500_000_000 ==> s.chosen_position(now) == s.position(
                now,
            ) && s.with_fallback_noted(now).audio_clock_fallback_reported
        },
        !s.use_audio_as_sync_master || s.audio_handle is None || !s.audio_handle->0.available
            ==> s.chosen_position(now) == s.position(now),
{
}

/// That audio stands at zero is noted once in two seconds.
pub proof fn law_silent_audio_is_noted_now_and_then(
    s: FrameScheduler,
    last: Instant,
    now: Instant,
)
    requires
        s.audio_handle is Some,
        s.audio_position().nanos == 0,
        s.last_audio_zero_diag == Some(last),
        last.nanos <= now.nanos,
    ensures
        now.nanos < last.nanos + 2_000_000_000 ==> s.with_audio_zero_noted(now) == s,
        now.nanos >= last.nanos + 2_000_000_000 ==> s.with_audio_zero_noted(
            now,
        ).last_audio_zero_diag == Some(now),
{
}

/// What becomes of a head that is out of reach: while it is held, it waits and the display
/// stays; one that is dropped leaves, and the next is looked at; one that is forced is shown.
/// Nothing behind it is touched.
pub proof fn law_rejected_head_waits_leaves_or_is_forced(
    s: FrameScheduler,
    frames: Seq<VideoFrame>,
    position: Duration,
    clock: ClockReading,
    jumped: bool,
)
    requires
        frames.len() > 0,
    ensures
        ({
            let (after, rest, step) = s.step_reject(frames, position, clock, jumped);
            let waits = rest =~= frames && (step == Step::Done(s.current_frame) || step
                == Step::Again { jumped });
            let leaves = rest =~= frames.skip(1) && step == Step::Again { jumped: false };
            let forced = rest =~= frames.skip(1) && step == Step::Done(Some(frames[0]))
                && after.current_frame == Some(frames[0]) && after.playback_start_position
                == frames[0].pts && after.playback_start_time == Some(clock.now);
            &&& waits || leaves || forced
            &&& waits && !forced && !leaves ==> after.playback_start_time == s.playback_start_time
                && after.playback_start_position == s.playback_start_position
        }),
{
    reveal(FrameScheduler::step_reject);
    lemma_rejection_keeps_the_clock(s, frames[0].pts, position, clock.now);
    let noted = s.with_rejection_noted(frames[0].pts, position, clock.now);
    let verdict = noted.verdict(frames[0].pts.abs_diff(position), clock.now);
    lemma_forcing_sets_the_clock(noted.judged(verdict), frames[0], verdict, clock);
}

proof fn lemma_rejection_keeps_the_clock(
    s: FrameScheduler,
    pts: Duration,
    position: Duration,
    now: Instant,
)
    ensures
        s.with_rejection_noted(pts, position, now).current_frame == s.current_frame,
        s.with_rejection_noted(pts, position, now).playback_start_time == s.playback_start_time,
        s.with_rejection_noted(pts, position, now).playback_start_position
            == s.playback_start_position,
{
    reveal(FrameScheduler::with_rejection_noted);
}

proof fn lemma_forcing_sets_the_clock(
    s: FrameScheduler,
    frame: VideoFrame,
    verdict: Verdict,
    clock: ClockReading,
)
    ensures
        s.forcing(frame, verdict, clock).current_frame == Some(frame),
        s.forcing(frame, verdict, clock).playback_start_time == Some(clock.now),
        s.forcing(frame, verdict, clock).playback_start_position == frame.pts,
{
    reveal(FrameScheduler::forcing);
    let shown = s.presenting(frame).running_from(frame.pts, clock.now).paced(clock.now);
    lemma_measuring_keeps_the_clock(shown, frame.pts, clock);
    lemma_measuring_keeps_the_clock(shown.with_sync_recorded(frame.pts, clock), frame.pts, clock);
}

/// A head that has just been rejected for the first time is held.
pub proof fn law_first_rejection_only_waits(
    s: FrameScheduler,
    frames: Seq<VideoFrame>,
    position: Duration,
    clock: ClockReading,
    jumped: bool,
)
    requires
        frames.len() > 0,
        s.reject == RejectWindow::closed(),
    ensures
        ({
            let (after, rest, step) = s.step_reject(frames, position, clock, jumped);
            &&& rest == frames
            &&& step == Step::Done(s.current_frame)
            &&& after.reject.start_time == Some(clock.now)
            &&& after.reject.count == 1
            &&& after.current_frame == s.current_frame
        }),
{
    reveal(FrameScheduler::step_reject);
    reveal(FrameScheduler::with_rejection_noted);
}

/// The clocks are first reported once audio has run for more than a second, and from then on
/// every ten seconds.
pub proof fn law_clocks_are_reported(
    s: FrameScheduler,
    elapsed: Duration,
    last: Instant,
    now: Instant,
)
    ensures
        s.last_clock_report is None ==> (s.clock_report_due(elapsed, now) <==> elapsed.nanos
            > 1_000_000_000),
        s.last_clock_report == Some(last) ==> (s.clock_report_due(elapsed, now) <==> now.nanos
            >= last.nanos + 10_000_000_000),
{
}

/// A report that was made puts off the next one.
pub proof fn law_a_report_puts_off_the_next(
    s: FrameScheduler,
    first: ClockReading,
    second: ClockReading,
)
    requires
        first.now.nanos <= second.now.nanos < first.now.nanos + 10_000_000_000,
        s.with_rate_sync(first).last_clock_report == Some(first.now),
        !s.with_rate_sync(first).baseline_is_off(second.now),
    ensures
        s.with_rate_sync(first).with_rate_sync(second).last_clock_report == Some(first.now),
{
}

} // verus!
