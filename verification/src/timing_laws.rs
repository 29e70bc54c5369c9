//! How playback stalls and goes on, how live streams are joined, and how frames that are
//! out of reach are dealt with.

use crate::audio::AudioHandle;
use crate::frame_scheduler::{DriftEstimate, FrameScheduler, RejectWindow};
use crate::frame_selection::Verdict;
use crate::scheduler_timing::{drift_step_us, is_near_boundary};
use crate::time::{ClockReading, Duration, Instant};
use crate::video::VideoFrame;
use vstd::prelude::*;

verus! {

/// Audio that has not begun holds video where playback was set going, for half a second
/// and no longer; after that the wall clock counts. Without audio, or where audio is only
/// measured, it counts from the start.
pub proof fn law_video_waits_for_audio(s: FrameScheduler, start: Instant, now: Instant)
    requires
        s.playback_start_time == Some(start),
        start.nanos <= now.nanos,
    ensures
        s.use_audio_as_sync_master && s.audio_handle is Some && s.audio_handle->0.available
            && s.audio_handle->0.position_for_sync().nanos == 0 && now.nanos < start.nanos
            + 500_000_000 ==> s.chosen_position(now) == s.playback_start_position,
        s.use_audio_as_sync_master && s.audio_handle is Some && s.audio_handle->0.available
            && s.audio_handle->0.position_for_sync().nanos == 0 && now.nanos >= start.nanos
            + 500_000_000 ==> s.chosen_position(now) == s.position(now),
        !s.use_audio_as_sync_master || s.audio_handle is None || !s.audio_handle->0.available
            ==> s.chosen_position(now) == s.position(now),
{
}

/// A stall for want of frames loses no time and invents none: the position freezes where
/// it was, stays there however long the stall lasts, and goes on from there once frames are
/// back. Where the wall clock drives, the audio is silent meanwhile.
pub proof fn law_stall_loses_no_time(
    s: FrameScheduler,
    start: Instant,
    clock: ClockReading,
    during: Instant,
    back: ClockReading,
)
    requires
        s.playback_requested,
        !s.stalled,
        !s.audio_stalled,
        s.current_frame is None,
        s.playback_start_time == Some(start),
        start.nanos <= clock.now.nanos,
        s.playback_start_position.nanos + (clock.now.nanos - start.nanos) <= u128::MAX,
        clock.now.nanos + 33_000_000 <= back.now.nanos,
    ensures
        ({
            let stalled = s.with_stall_entered(clock);
            let resumed = stalled.with_stall_cleared(back);
            &&& stalled.stalled
            &&& stalled.position(during) == s.position(clock.now)
            &&& stalled.position(during).nanos == s.playback_start_position.nanos + (
            clock.now.nanos - start.nanos)
            &&& !resumed.stalled
            &&& resumed.position(back.now) == s.position(clock.now)
            &&& resumed.playback_start_time == Some(back.now)
            &&& !s.use_audio_as_sync_master && s.audio_handle is Some
                ==> stalled.audio_handle->0.position().nanos == 0
            &&& s.use_audio_as_sync_master ==> stalled.audio_handle == s.audio_handle
            &&& !s.use_audio_as_sync_master && s.audio_handle is Some && back.unix_us != 0
                ==> resumed.audio_handle->0.samples_played == s.audio_handle->0.samples_played
                && resumed.audio_handle->0.playback_epoch_us == back.unix_us
        }),
{
}

/// A stall ends no sooner than 33 ms after it began, and is not begun twice.
pub proof fn law_stall_has_a_cooldown(s: FrameScheduler, clock: ClockReading, again: ClockReading)
    requires
        s.playback_requested,
        !s.stalled,
        clock.now.nanos + 33_000_000 <= u128::MAX,
    ensures
        s.with_stall_entered(clock).with_stall_entered(again) == s.with_stall_entered(clock),
        again.now.nanos < clock.now.nanos + 33_000_000 ==> s.with_stall_entered(
            clock,
        ).with_stall_cleared(again) == s.with_stall_entered(clock),
        again.now.nanos >= clock.now.nanos + 33_000_000 ==> !s.with_stall_entered(
            clock,
        ).with_stall_cleared(again).stalled,
{
}

/// A scheduler of which no playback is asked does not stall.
pub proof fn law_nothing_stalls_while_paused(s: FrameScheduler, clock: ClockReading)
    requires
        !s.playback_requested,
    ensures
        s.with_stall_entered(clock) == s,
        s.with_audio_stall_entered(clock) == s,
{
}

/// Audio that runs dry stops the clock where it is; when audio is back it goes on from
/// there.
pub proof fn law_audio_stall_loses_no_time(
    s: FrameScheduler,
    start: Instant,
    clock: ClockReading,
    during: Instant,
    back: Instant,
    later: Instant,
)
    requires
        s.playback_requested,
        !s.stalled,
        !s.audio_stalled,
        s.playback_start_time == Some(start),
        start.nanos <= clock.now.nanos,
        back.nanos <= later.nanos,
        s.playback_start_position.nanos + (clock.now.nanos - start.nanos) + (later.nanos
            - back.nanos) <= u128::MAX,
        s.current_frame matches Some(frame) ==> s.playback_start_position.nanos + (clock.now.nanos
            - start.nanos) + (later.nanos - back.nanos) <= frame.pts.nanos + 3_000_000_000,
    ensures
        ({
            let dry = s.with_audio_stall_entered(clock);
            let wet = dry.with_audio_stall_left(back);
            &&& dry.audio_stalled
            &&& dry.position(during) == s.position(clock.now)
            &&& dry.current_frame == s.current_frame
            &&& !wet.audio_stalled
            &&& wet.position(back) == s.position(clock.now)
            &&& wet.position(later).nanos == s.position(clock.now).nanos + (later.nanos
                - back.nanos)
        }),
{
}

/// Video is held while the audio of a live stream has run dry, for three seconds at most;
/// a stall that lasted longer is not entered again until audio has been back. Where audio
/// is the master it never holds video that way.
pub proof fn law_dry_audio_holds_for_three_seconds(s: FrameScheduler, clock: ClockReading)
    requires
        s.audio_handle is Some,
        s.audio_handle->0.available,
        s.audio_handle->0.position_for_sync().nanos > 0,
    ensures
        s.use_audio_as_sync_master ==> !s.holds_for_audio(clock.now) && s.with_audio_gate(clock)
            == s,
        !s.audio_handle->0.audio_stalled ==> !s.holds_for_audio(clock.now),
        !s.use_audio_as_sync_master && s.audio_handle->0.audio_stalled
            && !s.ignore_audio_stall_until_recovered && s.audio_stall_start is None
            ==> s.holds_for_audio(clock.now),
        !s.use_audio_as_sync_master && s.audio_handle->0.audio_stalled
            && !s.ignore_audio_stall_until_recovered && s.audio_stall_start is Some
            && s.audio_stall_start->0.nanos <= clock.now.nanos ==> s.holds_for_audio(clock.now) == (
        clock.now.nanos <= s.audio_stall_start->0.nanos + 3_000_000_000),
        s.ignore_audio_stall_until_recovered ==> !s.holds_for_audio(clock.now),
        !s.use_audio_as_sync_master && s.audio_handle->0.audio_stalled
            && !s.ignore_audio_stall_until_recovered && s.audio_stall_start is Some
            && clock.now.nanos > s.audio_stall_start->0.nanos + 3_000_000_000
            ==> s.with_audio_gate(clock).ignore_audio_stall_until_recovered
            && !s.with_audio_gate(clock).audio_stalled,
        !s.use_audio_as_sync_master && !s.audio_handle->0.audio_stalled ==> !s.with_audio_gate(
            clock,
        ).ignore_audio_stall_until_recovered && !s.with_audio_gate(clock).audio_stalled,
        s.with_audio_gate(clock).current_frame == s.current_frame,
{
}

/// After a pause in the background, a tenth of a second and more without a poll while audio
/// played on, the frames that waited are stale: they are dropped and the clock is set to
/// the audio. A shorter pause changes neither.
pub proof fn law_background_pause_resyncs(
    s: FrameScheduler,
    frames: Seq<VideoFrame>,
    last: Instant,
    now: Instant,
)
    requires
        !s.use_audio_as_sync_master,
        s.playback_start_time is Some,
        s.last_get_next_frame_time == Some(last),
        last.nanos <= now.nanos,
    ensures
        ({
            let woken = s.with_gap_handled(now);
            let left = s.frames_after_gap(frames, now);
            let slept = now.nanos > last.nanos + 100_000_000 && s.audio_position().nanos > 0;
            &&& slept ==> left.len() == 0 && woken.current_position == s.audio_position()
            &&& slept ==> woken.playback_start_time == Some(now) && woken.playback_start_position
                == s.audio_position() && woken.next_frame_due is None
            &&& !slept ==> left == frames && woken.playback_start_time == s.playback_start_time
                && woken.playback_start_position == s.playback_start_position
                && woken.next_frame_due == s.next_frame_due
            &&& woken.current_frame == s.current_frame
            &&& woken.last_get_next_frame_time == Some(now)
        }),
{
}

/// A live stream that is joined in the middle: where its audio starts more than a tenth of
/// a second after its first frame, the clock is set to the audio, once; and the audio is
/// held back until video has come that far.
pub proof fn law_join_catches_up_with_audio(
    s: FrameScheduler,
    audio_start: Duration,
    now: Instant,
    later: Instant,
)
    requires
        !s.use_audio_as_sync_master,
        !s.initial_pts_bias_applied,
        s.audio_handle is Some,
        s.audio_handle->0.audio_base_pts() == Some(audio_start),
    ensures
        ({
            let joined = s.with_join_rebased(now);
            let behind = audio_start.nanos > s.playback_start_position.nanos + 100_000_000;
            &&& joined.deferred_epoch_pts == Some(audio_start)
            &&& joined.initial_pts_bias_applied
            &&& joined.with_join_rebased(later) == joined
            &&& behind ==> joined.playback_start_position == audio_start
                && joined.playback_start_time == Some(now) && joined.current_position
                == audio_start
            &&& !behind ==> joined.playback_start_position == s.playback_start_position
                && joined.playback_start_time == s.playback_start_time && joined.current_position
                == s.current_position
            &&& joined.audio_handle == s.audio_handle
        }),
{
}

/// Audio that was held back begins with the first frame that reaches it, and with none
/// before.
pub proof fn law_held_audio_begins_with_its_frame(
    s: FrameScheduler,
    threshold: Duration,
    pts: Duration,
    unix_us: u64,
)
    requires
        s.deferred_epoch_pts == Some(threshold),
        s.audio_handle is Some,
    ensures
        pts.nanos < threshold.nanos ==> s.with_epoch_released(pts, unix_us) == s,
        pts.nanos >= threshold.nanos ==> {
            let released = s.with_epoch_released(pts, unix_us);
            &&& released.deferred_epoch_pts is None
            &&& released.audio_handle is Some
            &&& released.audio_handle->0.playback_epoch_us == unix_us
            &&& released.audio_handle->0.samples_played == 0
        },
{
}

/// How far ahead of the clock a frame may be. Of a file, five milliseconds. Of a live
/// stream, half a second and up to thirty before audio has begun, and two seconds and up
/// to 4.6 after that; never less the longer frames are rejected.
pub proof fn law_tolerance_is_bounded(
    s: FrameScheduler,
    audio_started: bool,
    gap: Duration,
    now: Instant,
)
    ensures
        ({
            let tolerance = s.ahead_tolerance(audio_started, gap, now).nanos;
            let live = !s.frame_pacing_interval.is_zero();
            &&& !live ==> tolerance == 5_000_000
            &&& live && !audio_started ==> 500_000_000 <= tolerance <= 30_000_000_000
            &&& live && !audio_started && s.reject.start_time is None ==> tolerance == 500_000_000
            &&& live && audio_started ==> 2_000_000_000 <= tolerance <= 4_600_000_000
            &&& live && audio_started && s.burst.tolerance_until is Some && now.nanos
                < s.burst.tolerance_until->0.nanos ==> tolerance == 4_600_000_000
            &&& live && audio_started && s.burst.tolerance_until is None && s.reject.start_time
                is None && gap.nanos <= 2_000_000_000 ==> tolerance == 2_000_000_000
            &&& live && audio_started && s.burst.tolerance_until is None && s.reject.start_time
                is None && 2_000_000_000 < gap.nanos <= 4_420_000_000 ==> tolerance == gap.nanos
                + 180_000_000
        }),
{
}

/// The latest time that may be shown is the position and the tolerance, and 90 ms more for
/// a live stream.
pub proof fn law_limit_is_position_and_tolerance(
    s: FrameScheduler,
    next_pts: Duration,
    position: Duration,
    now: Instant,
)
    requires
        position.nanos + 40_000_000_000 <= u128::MAX,
    ensures
        s.frame_pacing_interval.is_zero() ==> s.accept_limit(next_pts, position, now).nanos
            == position.nanos + 5_000_000,
        !s.frame_pacing_interval.is_zero() && s.audio_started_for_timing(now) ==> position.nanos
            + 2_090_000_000 <= s.accept_limit(next_pts, position, now).nanos <= position.nanos
            + 4_690_000_000,
        !s.frame_pacing_interval.is_zero() && !s.audio_started_for_timing(now) ==> position.nanos
            + 590_000_000 <= s.accept_limit(next_pts, position, now).nanos <= position.nanos
            + 30_090_000_000,
{
    law_tolerance_is_bounded(
        s,
        s.audio_started_for_timing(now),
        next_pts.abs_diff(position),
        now,
    );
}

/// What is done about a frame that stays out of reach, in turn: nothing until its time is
/// up; then it is dropped where it is ten seconds away or more, and else shown all the
/// same, for ten frames and 1.3 seconds at most; then the clock is set to it, twice at most
/// in one window; then it is dropped.
pub proof fn law_stuck_frames_are_dealt_with_in_turn(
    window: RejectWindow,
    stuck: Duration,
    timeout: Duration,
    gap: Duration,
)
    requires
        timeout.nanos + 1_300_000_000 <= u128::MAX,
    ensures
        ({
            let verdict = window.verdict(stuck, timeout, gap);
            let due = stuck.nanos >= timeout.nanos;
            let near = gap.nanos < 10_000_000_000;
            let patient = !(window.state is Resync) && stuck.nanos < timeout.nanos + 1_300_000_000
                && window.catch_up_frames < 10;
            &&& verdict is Hold <==> !due
            &&& due && !near ==> verdict is DropHead
            &&& due && near && patient ==> verdict is CatchUp
            &&& due && near && !patient && window.forced_resyncs < 2 ==> verdict is Resync
            &&& due && near && !patient && window.forced_resyncs >= 2 ==> verdict is DropHead
            &&& verdict is CatchUp ==> window.judged(verdict).catch_up_frames
                == window.catch_up_frames + 1
            &&& verdict is Resync ==> window.judged(verdict).forced_resyncs
                == window.forced_resyncs + 1 && window.judged(verdict).state is Resync
            &&& verdict is DropHead ==> window.judged(verdict) == RejectWindow::closed()
            &&& verdict is Hold ==> window.judged(verdict) == window
        }),
{
}

/// The time after which a frame is forced: 0.9 seconds for one that is only just out of
/// reach, two to 4.6 seconds away, once audio has begun; three seconds for any other.
pub proof fn law_forcing_takes_its_time(s: FrameScheduler, gap: Duration, now: Instant)
    ensures
        s.audio_started_for_timing(now) && 2_000_000_000 < gap.nanos <= 4_600_000_000
            ==> s.force_timeout(gap, now).nanos == 900_000_000,
        !s.audio_started_for_timing(now) || gap.nanos <= 2_000_000_000 || gap.nanos
            > 4_600_000_000 ==> s.force_timeout(gap, now).nanos == 3_000_000_000,
{
}

/// A frame that is forced is on display, and the clock runs from it.
pub proof fn law_forced_frame_sets_the_clock(
    s: FrameScheduler,
    frame: VideoFrame,
    verdict: Verdict,
    clock: ClockReading,
)
    ensures
        s.forcing(frame, verdict, clock).current_frame == Some(frame),
        s.forcing(frame, verdict, clock).playback_start_time == Some(clock.now),
        s.forcing(frame, verdict, clock).playback_start_position == frame.pts,
        !s.stalled && !s.audio_stalled ==> s.forcing(frame, verdict, clock).position(clock.now)
            == frame.pts,
{
    reveal(FrameScheduler::forcing);
    let shown = s.presenting(frame).running_from(frame.pts, clock.now).paced(clock.now);
    lemma_settling_keeps_the_clock(shown, frame.pts, clock);
    lemma_settling_keeps_the_clock(shown.with_sync_recorded(frame.pts, clock), frame.pts, clock);
}

proof fn lemma_settling_keeps_the_clock(s: FrameScheduler, pts: Duration, clock: ClockReading)
    ensures
        ({
            let t = s.with_sync_recorded(pts, clock);
            &&& t.current_frame == s.current_frame
            &&& t.playback_start_time == s.playback_start_time
            &&& t.playback_start_position == s.playback_start_position
            &&& t.stalled == s.stalled
            &&& t.audio_stalled == s.audio_stalled
            &&& t.current_position == s.current_position
        }),
        ({
            let t = s.with_recovery_tracked(clock.unix_us);
            &&& t.current_frame == s.current_frame
            &&& t.playback_start_time == s.playback_start_time
            &&& t.playback_start_position == s.playback_start_position
            &&& t.stalled == s.stalled
            &&& t.audio_stalled == s.audio_stalled
            &&& t.current_position == s.current_position
        }),
{
}

/// A long and stable lead of the frames, 2.5 seconds and more in six samples, is taken over
/// by the bias, but for 150 ms, once in a window and within eight seconds.
pub proof fn law_stable_lead_becomes_a_bias(s: FrameScheduler, lead: Duration)
    requires
        s.video_pts_bias.nanos <= 8_000_000_000,
    ensures
        s.lead_calls_for_rebase(lead) <==> !s.reject.offset_rebased && lead.nanos >= 2_500_000_000
            && s.reject.stable_lead_samples >= 6,
        !s.with_lead_rebased(lead).lead_calls_for_rebase(lead),
        lead.nanos >= 150_000_000 && s.video_pts_bias.nanos + (lead.nanos - 150_000_000)
            <= 8_000_000_000 ==> s.with_lead_rebased(lead).video_pts_bias.nanos
            == s.video_pts_bias.nanos + (lead.nanos - 150_000_000),
        lead.nanos >= 150_000_000 && s.video_pts_bias.nanos + (lead.nanos - 150_000_000)
            > 8_000_000_000 ==> s.with_lead_rebased(lead).video_pts_bias.nanos == 8_000_000_000,
        s.with_lead_noted(lead).reject.last_lead == Some(lead),
        s.reject.last_lead is None ==> s.with_lead_noted(lead).reject.stable_lead_samples == 1,
{
}

/// The bias moves a position by as much as it says, and not below zero.
pub proof fn law_bias_moves_the_position(s: FrameScheduler, position: Duration)
    requires
        s.wf(),
        position.nanos + 16_000_000_000 <= u128::MAX,
    ensures
        ({
            let bias_us: int = s.video_pts_bias.nanos as int / 1_000 + s.drift.correction_us;
            &&& 0 <= bias_us <= 8_000_000 ==> s.biased(position).nanos == position.nanos + bias_us
                * 1_000
            &&& -8_000_000 <= bias_us < 0 && position.nanos >= -bias_us * 1_000 ==> s.biased(
                position,
            ).nanos == position.nanos + bias_us * 1_000
            &&& -8_000_000 <= bias_us < 0 && position.nanos < -bias_us * 1_000 ==> s.biased(
                position,
            ).nanos == 0
            &&& bias_us > 8_000_000 ==> s.biased(position).nanos == position.nanos + 8_000_000_000
        }),
{
}

/// A drift of more than a tenth of a second is not slewed: the clock is set to the audio.
/// Smaller ones than 20 ms are never corrected, and none is before audio has been heard for
/// five seconds or twice within a fifth of a second.
pub proof fn law_large_drift_is_stepped(
    s: FrameScheduler,
    start: Instant,
    last: Instant,
    now: Instant,
    estimate: DriftEstimate,
)
    requires
        !s.drift_is_not_ours(),
        !s.stalled,
        !s.audio_stalled,
        s.audio_position().nanos > 0,
        s.audio_start_time == Some(start),
        s.drift.last_update == Some(last),
        start.nanos <= now.nanos,
        last.nanos <= now.nanos,
    ensures
        ({
            let after = s.with_drift_corrected(now, estimate);
            let drift = s.sync_metrics.current_drift_us;
            let early = now.nanos < start.nanos + 5_000_000_000 || now.nanos < last.nanos
                + 200_000_000;
            let large = drift > 100_000 || drift < -100_000;
            &&& early ==> after == s
            &&& !early && large ==> after.playback_start_position == s.audio_position()
                && after.playback_start_time == Some(now) && after.drift.correction_us == 0
            &&& !early && !large ==> after.playback_start_position == s.playback_start_position
                && after.playback_start_time == s.playback_start_time
            &&& !large && -20_000 < estimate.drift_us < 20_000 ==> after.drift.correction_us
                == s.drift.correction_us
            &&& !large && !s.drift.active && -40_000 < estimate.drift_us < 40_000
                ==> after.drift.correction_us == s.drift.correction_us && !after.drift.active
        }),
{
}

/// A reject window that opens within 140 ms of the last one adds to the burst; eight of
/// them raise the tolerance for two seconds.
pub proof fn law_bursts_raise_the_tolerance(s: FrameScheduler, last: Instant, now: Instant)
    requires
        s.burst.last_start == Some(last),
        last.nanos <= now.nanos,
        now.nanos + 2_000_000_000 <= u128::MAX,
        s.burst.count < u32::MAX,
    ensures
        ({
            let after = s.with_reject_window_noted(now).burst;
            let quick = now.nanos <= last.nanos + 140_000_000;
            &&& after.last_start == Some(now)
            &&& quick ==> after.count == s.burst.count + 1
            &&& !quick ==> after.count == 1
            &&& after.count >= 8 ==> after.tolerance_until is Some
                && after.tolerance_until->0.nanos == now.nanos + 2_000_000_000
            &&& after.count < 8 ==> after.tolerance_until == s.burst.tolerance_until
        }),
{
}

/// A frame that is older than the one on display is never shown; nor, where the wall clock
/// drives, one that is more than a tenth of a second behind the audio.
pub proof fn law_outdated_frames_are_passed_over(
    s: FrameScheduler,
    frames: Seq<VideoFrame>,
    limit: Duration,
    clock: ClockReading,
)
    requires
        frames.len() > 0,
    ensures
        ({
            let step = s.step_accept(frames, limit, clock).2;
            step matches crate::frame_selection::Step::Done(Some(frame)) ==> {
                &&& s.current_frame matches Some(current) ==> current.pts.nanos <= frame.pts.nanos
                &&& !s.use_audio_as_sync_master && s.audio_position().nanos > 0
                    ==> s.audio_position().nanos <= frame.pts.nanos + 100_000_000
            }
        }),
{
    reveal(FrameScheduler::step_accept);
}

/// The tolerance of a live stream grows by 180 ms with each half second for which frames are
/// rejected, to its most: from half a second before audio has begun, from two seconds after.
pub proof fn law_tolerance_grows_while_frames_are_rejected(
    s: FrameScheduler,
    start: Instant,
    gap: Duration,
    now: Instant,
)
    requires
        s.frame_pacing_interval.nanos > 0,
        s.reject.start_time == Some(start),
        start.nanos <= now.nanos <= start.nanos + 1_000_000_000_000,
        s.burst.tolerance_until is None,
        gap.nanos <= 2_000_000_000,
    ensures
        ({
            let steps: int = (now.nanos - start.nanos) / 500_000_000;
            let begun: int = 2_000_000_000 + steps * 180_000_000;
            let silent: int = 500_000_000 + steps * 180_000_000;
            &&& s.ahead_tolerance(true, gap, now).nanos == (if begun <= 4_600_000_000 {
                begun
            } else {
                4_600_000_000
            })
            &&& s.ahead_tolerance(false, gap, now).nanos == (if silent <= 30_000_000_000 {
                silent
            } else {
                30_000_000_000
            })
        }),
{
    let span: int = now.nanos - start.nanos;
    assert(span / 1_000_000 / 500 == span / 500_000_000);
}

/// A lead is stable while it stays within 220 ms of the last one; each such sample counts,
/// and one that does not begins the count anew.
pub proof fn law_stable_leads_are_counted(s: FrameScheduler, last: Duration, lead: Duration)
    requires
        s.reject.last_lead == Some(last),
        s.reject.stable_lead_samples < u32::MAX,
    ensures
        ({
            let near = lead.nanos <= last.nanos + 220_000_000 && last.nanos <= lead.nanos
                + 220_000_000;
            let after = s.with_lead_noted(lead).reject;
            &&& near ==> after.stable_lead_samples == s.reject.stable_lead_samples + 1
            &&& !near ==> after.stable_lead_samples == 1
            &&& after.last_lead == Some(lead)
            &&& after.count == s.reject.count
        }),
{
}

/// A frame is accepted where it is due, where nothing is on display, and, once the stream has
/// ended, within a quarter of a second either way.
pub proof fn law_last_frames_are_let_through(
    s: FrameScheduler,
    pts: Duration,
    position: Duration,
    eos: bool,
    now: Instant,
)
    requires
        s.current_frame is Some,
        s.frame_pacing_interval.nanos == 0,
        position.nanos + 5_000_000 <= u128::MAX,
    ensures
        ({
            let due = pts.nanos <= position.nanos + 5_000_000;
            let close = pts.nanos <= position.nanos + 250_000_000;
            &&& s.accepts(pts, position, eos, now) <==> due || (eos && close)
        }),
        (FrameScheduler { current_frame: None, ..s }).accepts(pts, position, eos, now),
{
}

/// Audio counts as begun for the timing of frames where there is none to be had, where it is
/// heard, and after two seconds of playback in any case.
pub proof fn law_audio_has_two_seconds_to_begin(s: FrameScheduler, start: Instant, now: Instant)
    requires
        s.playback_start_time == Some(start),
        start.nanos <= now.nanos,
    ensures
        s.audio_handle is None ==> s.audio_started_for_timing(now),
        s.audio_handle matches Some(audio) ==> (!audio.available || audio.position_for_sync().nanos
            > 0 ==> s.audio_started_for_timing(now)),
        s.audio_handle matches Some(audio) ==> (audio.available && audio.position_for_sync().nanos
            == 0 ==> (s.audio_started_for_timing(now) <==> now.nanos >= start.nanos
            + 2_000_000_000)),
{
}

/// A stall is counted with its cause, frames for a stall of the decoder and audio for one of
/// the network, as one underrun each, and begins a recovery.
pub proof fn law_stalls_are_measured(s: FrameScheduler, clock: ClockReading)
    requires
        s.playback_requested,
        !s.stalled,
        !s.audio_stalled,
        s.sync_metrics.enabled,
        !s.sync_metrics.in_recovery,
        s.sync_metrics.stall_count < u64::MAX,
        s.sync_metrics.underrun_count < u64::MAX,
        s.sync_metrics.decode_stall_count < u64::MAX,
        s.sync_metrics.network_stall_count < u64::MAX,
    ensures
        ({
            let m = s.sync_metrics;
            let frames = s.with_stall_entered(clock).sync_metrics;
            let audio = s.with_audio_stall_entered(clock).sync_metrics;
            &&& frames.stall_count == m.stall_count + 1 && audio.stall_count == m.stall_count + 1
            &&& frames.underrun_count == m.underrun_count + 1 && audio.underrun_count
                == m.underrun_count + 1
            &&& frames.decode_stall_count == m.decode_stall_count + 1
                && frames.network_stall_count == m.network_stall_count
            &&& audio.network_stall_count == m.network_stall_count + 1 && audio.decode_stall_count
                == m.decode_stall_count
            &&& frames.in_recovery && audio.in_recovery
            &&& frames.recovery_start_time_us == clock.unix_us && audio.recovery_start_time_us
                == clock.unix_us
            &&& frames.last_underrun_time_us == clock.unix_us
        }),
{
}

/// After a seek nothing of the old place counts: no bias, no correction, no rejection, no
/// sample of audio, no measurement, and the next thirty samples of drift are not shown.
pub proof fn law_seek_forgets_the_old_place(s: FrameScheduler, target: Duration, unix_us: u64)
    ensures
        ({
            let after = s.after_seek(target, unix_us);
            &&& after.current_position == target
            &&& after.playback_start_position == target
            &&& after.current_frame is None
            &&& !after.stalled && after.stall_cooldown_until is None
            &&& after.reject == RejectWindow::closed()
            &&& after.video_pts_bias.nanos == 0
            &&& after.drift.correction_us == 0 && !after.drift.active
            &&& after.deferred_epoch_pts is None
            &&& !after.initial_pts_bias_applied
            &&& after.last_get_next_frame_time is None
            &&& after.sync_metrics.sample_count == 0
            &&& after.sync_metrics.grace_samples == 30
            &&& s.audio_handle matches Some(audio) ==> after.audio_handle is Some
                && after.audio_handle->0.samples_played == 0
                && after.audio_handle->0.playback_epoch_us == 0
                && after.audio_handle->0.native_position_us == 0
                && after.audio_handle->0.audio_base_pts_us is None
                && after.audio_handle->0.volume == audio.volume && after.audio_handle->0.muted
                == audio.muted
            &&& s.playback_requested ==> after.waiting_for_first_frame && after.playback_start_time
                is None && after.audio_start_time is None
            &&& !s.playback_requested ==> after.waiting_for_first_frame
                == s.waiting_for_first_frame && after.playback_start_time == s.playback_start_time
            &&& after.playback_requested == s.playback_requested
            &&& after.frame_pacing_interval == s.frame_pacing_interval
        }),
{
}

/// The clock that is set to audio runs from the audio, without a correction, and the next ten
/// samples of drift are not shown.
pub proof fn law_resync_starts_from_audio(s: FrameScheduler, now: Instant)
    ensures
        s.resynced_to_audio(now).playback_start_position == s.audio_position(),
        s.resynced_to_audio(now).playback_start_time == Some(now),
        s.resynced_to_audio(now).current_position == s.audio_position(),
        s.resynced_to_audio(now).drift.correction_us == 0,
        s.resynced_to_audio(now).sync_metrics.grace_samples == 10,
        s.resynced_to_audio(now).sync_metrics.sample_count == s.sync_metrics.sample_count,
        s.resynced_to_audio(now).current_frame == s.current_frame,
        s.resynced_to_audio(now).audio_handle == s.audio_handle,
{
}

/// A correction works against the drift, by what was estimated, ten milliseconds in a second
/// at most, of which no more than half counts at once; a drift that already shrinks is left.
pub proof fn law_correction_works_against_the_drift(estimate: DriftEstimate, since: Duration)
    ensures
        ({
            let step = drift_step_us(estimate, since);
            let limit: int = if since.nanos <= 500_000_000 {
                since.nanos as int / 100_000
            } else {
                5_000
            };
            &&& -limit <= step <= limit
            &&& estimate.drift_us > 0 && -limit <= estimate.delta_us < 0 ==> step
                == estimate.delta_us
            &&& estimate.drift_us > 0 && estimate.delta_us < -limit ==> step == -limit
            &&& estimate.drift_us < 0 && 0 < estimate.delta_us <= limit ==> step
                == estimate.delta_us
            &&& estimate.drift_us < 0 && estimate.delta_us > limit ==> step == limit
            &&& estimate.drift_us == 0 ==> step == 0
            &&& estimate.drift_us > 0 && estimate.delta_us >= 0 ==> step == 0
            &&& estimate.drift_us < 0 && estimate.delta_us <= 0 ==> step == 0
        }),
{
}

/// Drift beyond the deadband is corrected: 40 ms begin a correction, which goes on down to
/// 20 ms.
pub proof fn law_drift_beyond_the_deadband_is_corrected(
    s: FrameScheduler,
    start: Instant,
    last: Instant,
    now: Instant,
    estimate: DriftEstimate,
)
    requires
        s.wf(),
        !s.drift_is_not_ours(),
        !s.stalled,
        !s.audio_stalled,
        s.audio_position().nanos > 0,
        s.audio_start_time == Some(start),
        s.drift.last_update == Some(last),
        start.nanos + 5_000_000_000 <= now.nanos,
        last.nanos + 200_000_000 <= now.nanos,
        -100_000 <= s.sync_metrics.current_drift_us <= 100_000,
        -7_000_000 <= s.drift.correction_us <= 7_000_000,
        estimate.drift_us > i64::MIN,
    ensures
        ({
            let after = s.with_drift_corrected(now, estimate).drift;
            let size: int = if estimate.drift_us < 0 {
                -estimate.drift_us
            } else {
                estimate.drift_us as int
            };
            let acts = size >= 40_000 || (s.drift.active && size >= 20_000);
            &&& after.active == acts
            &&& acts ==> after.correction_us == s.drift.correction_us + drift_step_us(
                estimate,
                Duration { nanos: (now.nanos - last.nanos) as u128 },
            )
            &&& !acts ==> after.correction_us == s.drift.correction_us
            &&& after.last_update == Some(now)
            &&& after.smoothed_bits == estimate.smoothed_bits
        }),
{
}

/// Drift is left alone where audio is the master, where a native player keeps the two
/// together, and while the scheduler says so.
pub proof fn law_others_keep_their_own_sync(
    s: FrameScheduler,
    now: Instant,
    estimate: DriftEstimate,
)
    requires
        s.use_audio_as_sync_master || (s.audio_handle is Some
            && s.audio_handle->0.is_using_native_position())
            || s.sync_metrics.sync_externally_managed,
    ensures
        s.with_drift_corrected(now, estimate) == s,
{
}

/// A gap is near the boundary where it is over two seconds, the base tolerance of a live
/// stream, and not over four seconds and six tenths.
pub proof fn law_boundary_is_near_after_two_seconds(gap: Duration)
    ensures
        is_near_boundary(gap) <==> 2_000_000_000 < gap.nanos <= 4_600_000_000,
{
}

/// Playing and pausing begin anew what is watched of playback: no stall, no pause between
/// stalls and no rejected frame is carried over. A pause also forgets the times by which
/// audio was measured. Both keep the place in the stream, its corrections, the frame on
/// display and the pace; the correction of the drift stays, and starts again to be measured.
pub proof fn law_play_and_pause_begin_anew(s: FrameScheduler, now: Instant)
    ensures
        ({
            let playing = s.after_start();
            let paused = s.after_pause(now);
            &&& playing.playback_requested && !paused.playback_requested
            &&& playing.waiting_for_first_frame && !paused.waiting_for_first_frame
            &&& !playing.stalled && !paused.stalled
            &&& playing.stall_cooldown_until is None && paused.stall_cooldown_until is None
            &&& playing.reject.start_time is None && paused.reject.start_time is None
            &&& playing.reject.count == 0 && paused.reject.count == 0
            &&& !playing.reject.offset_rebased && !paused.reject.offset_rebased
            &&& playing.last_clock_report is None && paused.last_clock_report is None
            &&& playing.audio_start_time == s.audio_start_time && paused.audio_start_time is None
            &&& playing.playback_start_time == s.playback_start_time
            &&& paused.playback_start_time is None
            &&& playing.current_position == s.current_position
            &&& playing.current_frame == s.current_frame && paused.current_frame == s.current_frame
            &&& playing.video_pts_bias == s.video_pts_bias
            &&& paused.video_pts_bias == s.video_pts_bias
            &&& playing.seek_generation == s.seek_generation
            &&& paused.seek_generation == s.seek_generation
            &&& playing.frame_pacing_interval == s.frame_pacing_interval
            &&& paused.frame_pacing_interval == s.frame_pacing_interval
            &&& playing.sync_metrics == s.sync_metrics && paused.sync_metrics == s.sync_metrics
            &&& playing.audio_stalled == s.audio_stalled && paused.audio_stalled == s.audio_stalled
            &&& playing.drift == s.drift
            &&& paused.drift.correction_us == s.drift.correction_us
            &&& paused.drift.last_update is None && !paused.drift.active
        }),
{
}

/// Audio that is joined is followed from then on, by a master or not; nothing else of
/// playback changes.
pub proof fn law_joined_audio_is_followed(s: FrameScheduler, audio: AudioHandle, master: bool)
    ensures
        ({
            let joined = s.with_audio(audio, master);
            &&& joined.audio_handle == Some(audio)
            &&& joined.use_audio_as_sync_master == master
            &&& joined.sync_metrics.using_audio_clock
            &&& joined.sync_metrics.sample_count == s.sync_metrics.sample_count
            &&& joined.sync_metrics.current_drift_us == s.sync_metrics.current_drift_us
            &&& joined.playback_requested == s.playback_requested
            &&& joined.playback_start_time == s.playback_start_time
            &&& joined.playback_start_position == s.playback_start_position
            &&& joined.current_position == s.current_position
            &&& joined.current_frame == s.current_frame
            &&& joined.seek_generation == s.seek_generation
            &&& joined.video_pts_bias == s.video_pts_bias
        }),
{
}

/// The first frame after a start or a seek sets the clock going from its own time. Where
/// audio is the master its clock starts in the same moment, and only what it plays from
/// there on counts; else audio is left alone. Later frames set nothing.
pub proof fn law_first_frame_starts_both_clocks(
    s: FrameScheduler,
    pts: Duration,
    clock: ClockReading,
)
    ensures
        ({
            let begun = s.with_clock_started(pts, clock);
            let first = s.waiting_for_first_frame && s.playback_requested;
            &&& first ==> begun.playback_start_time == Some(clock.now)
                && begun.playback_start_position == pts && !begun.waiting_for_first_frame
            &&& first && s.use_audio_as_sync_master ==> (s.audio_handle matches Some(audio)
                ==> begun.audio_handle is Some && begun.audio_handle->0.playback_epoch_us
                == clock.unix_us && begun.audio_handle->0.samples_played == 0
                && begun.audio_handle->0.volume == audio.volume && begun.audio_handle->0.muted
                == audio.muted)
            &&& !s.use_audio_as_sync_master ==> begun.audio_handle == s.audio_handle
            &&& !first ==> begun == s
            &&& begun.with_clock_started(pts, clock) == begun
        }),
{
}

} // verus!
