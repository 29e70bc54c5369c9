//! What holds of the measurements of a session: drift, stalls, recoveries and frame rate.

use crate::sync_metrics::{
    millis_of, StallType, SyncMetrics, SyncMetricsSnapshot, SyncQuality,
};
use crate::time::Duration;
use vstd::prelude::*;

verus! {

/// Between times that fit, drift is video less audio in microseconds: it is shown as it is,
/// summed by its size, and out of sync from beyond a tenth of a second either way.
pub proof fn law_drift_is_video_less_audio(
    m: SyncMetrics,
    video_pts: Duration,
    audio_position: Duration,
    unix_us: u64,
)
    requires
        m.enabled,
        m.grace_samples == 0,
        video_pts.nanos / 1000 <= i64::MAX,
        audio_position.nanos / 1000 <= i64::MAX,
        m.sample_count < u64::MAX,
        m.out_of_sync_count < u64::MAX,
        m.total_drift_us <= i64::MAX,
    ensures
        ({
            let next = m.after_frame(video_pts, audio_position, unix_us);
            let drift: int = video_pts.nanos / 1000 - audio_position.nanos / 1000;
            let size: int = if drift < 0 {
                -drift
            } else {
                drift
            };
            &&& next.current_drift_us == drift
            &&& next.total_drift_us == m.total_drift_us + size
            &&& next.sample_count == m.sample_count + 1
            &&& next.out_of_sync_count == m.out_of_sync_count + (if size > 100_000 {
                1int
            } else {
                0int
            })
            &&& next.last_video_pts_us == video_pts.nanos / 1000
            &&& next.last_audio_pos_us == audio_position.nanos / 1000
        }),
{
}

/// The extremes cover every drift that was shown, never draw back, and are drifts that were
/// shown.
pub proof fn law_extremes_cover_the_drift(
    m: SyncMetrics,
    video_pts: Duration,
    audio_position: Duration,
    unix_us: u64,
)
    requires
        m.enabled,
        m.grace_samples == 0,
        m.max_drift_behind_us <= 0 <= m.max_drift_ahead_us,
    ensures
        ({
            let next = m.after_frame(video_pts, audio_position, unix_us);
            &&& next.max_drift_behind_us <= next.current_drift_us <= next.max_drift_ahead_us
            &&& next.max_drift_behind_us <= m.max_drift_behind_us
            &&& next.max_drift_ahead_us >= m.max_drift_ahead_us
            &&& next.max_drift_behind_us == m.max_drift_behind_us || next.max_drift_behind_us
                == next.current_drift_us
            &&& next.max_drift_ahead_us == m.max_drift_ahead_us || next.max_drift_ahead_us
                == next.current_drift_us
            &&& next.max_drift_behind_us <= 0 <= next.max_drift_ahead_us
        }),
{
}

/// The tracker after frames were counted toward the frame rate at the times given.
pub open spec fn ticked(m: SyncMetrics, times: Seq<u64>) -> SyncMetrics
    decreases times.len(),
{
    if times.len() == 0 {
        m
    } else {
        ticked(m, times.drop_last()).after_fps_tick(times.last())
    }
}

proof fn lemma_window_counts(m: SyncMetrics, times: Seq<u64>)
    requires
        m.fps_window_start_us > 0,
        m.fps_window_frames + times.len() <= u64::MAX,
        forall|i: int|
            0 <= i < times.len() ==> #[trigger] times[i] < m.fps_window_start_us + 500_000,
    ensures
        ticked(m, times).fps_window_start_us == m.fps_window_start_us,
        ticked(m, times).fps_window_frames == m.fps_window_frames + times.len(),
        ticked(m, times).current_fps_x100 == m.current_fps_x100,
    decreases times.len(),
{
    if times.len() > 0 {
        let front = times.drop_last();
        assert forall|i: int| 0 <= i < front.len() implies #[trigger] front[i]
            < m.fps_window_start_us + 500_000 by {
            assert(front[i] == times[i]);
        }
        lemma_window_counts(m, front);
        assert(times.last() == times[times.len() - 1]);
    }
}

/// Frames are counted for half a second at least; the frame that comes then closes the
/// window, and the rate is the frames of the window by its length, in hundredths of a frame
/// per second.
pub proof fn law_frame_rate_is_frames_by_time(m: SyncMetrics, times: Seq<u64>, last: u64)
    requires
        m.fps_window_start_us > 0,
        m.fps_window_frames == 0,
        times.len() <= 1_000_000_000,
        forall|i: int|
            0 <= i < times.len() ==> #[trigger] times[i] < m.fps_window_start_us + 500_000,
        last >= m.fps_window_start_us + 500_000,
    ensures
        ({
            let open = ticked(m, times);
            let closed = open.after_fps_tick(last);
            let frames: int = times.len() as int + 1;
            let window: int = last - m.fps_window_start_us;
            &&& open.current_fps_x100 == m.current_fps_x100
            &&& closed.current_fps_x100 == frames * 100_000_000 / window
            &&& closed.fps_window_start_us == last
            &&& closed.fps_window_frames == 0
        }),
{
    lemma_window_counts(m, times);
}

/// The first frame opens the window, and sets no rate.
pub proof fn law_first_frame_opens_the_window(m: SyncMetrics, unix_us: u64)
    requires
        m.fps_window_start_us == 0,
    ensures
        m.after_fps_tick(unix_us).fps_window_start_us == unix_us,
        m.after_fps_tick(unix_us).fps_window_frames == 1,
        m.after_fps_tick(unix_us).current_fps_x100 == m.current_fps_x100,
        m.after_fps_tick(unix_us).sample_count == m.sample_count,
{
}

/// A stall is counted once in all and once under its cause; an underrun is counted with its
/// time; neither touches the drift.
pub proof fn law_stalls_are_counted_by_cause(m: SyncMetrics, stall: StallType, unix_us: u64)
    requires
        m.enabled,
        m.stall_count < u64::MAX,
        m.decode_stall_count < u64::MAX,
        m.network_stall_count < u64::MAX,
        m.underrun_count < u64::MAX,
    ensures
        ({
            let stalled = m.after_stall(stall);
            let dry = m.after_underrun(unix_us);
            &&& stalled.stall_count == m.stall_count + 1
            &&& stalled.decode_stall_count - m.decode_stall_count == (if stall
                == StallType::Decode {
                1int
            } else {
                0int
            })
            &&& stalled.network_stall_count - m.network_stall_count == (if stall
                == StallType::Network {
                1int
            } else {
                0int
            })
            &&& stalled.underrun_count == m.underrun_count
            &&& stalled.current_drift_us == m.current_drift_us
            &&& dry.underrun_count == m.underrun_count + 1
            &&& dry.last_underrun_time_us == unix_us
            &&& dry.stall_count == m.stall_count
            &&& dry.current_drift_us == m.current_drift_us
        }),
{
}

/// A recovery lasts from its start to its end; its time is added to that of the recoveries
/// before it, and it is counted when it ends.
pub proof fn law_recoveries_are_timed(m: SyncMetrics, start: u64, end: u64)
    requires
        m.enabled,
        !m.in_recovery,
        start <= end,
        m.total_recovery_time_us + (end - start) <= u64::MAX,
        m.recovery_count < u64::MAX,
    ensures
        m.after_recovery_start(start).in_recovery,
        m.after_recovery_start(start).recovery_count == m.recovery_count,
        m.after_recovery_start(start).total_recovery_time_us == m.total_recovery_time_us,
        !m.after_recovery_start(start).after_recovery_end(end).in_recovery,
        m.after_recovery_start(start).after_recovery_end(end).total_recovery_time_us
            == m.total_recovery_time_us + (end - start),
        m.after_recovery_start(start).after_recovery_end(end).recovery_count == m.recovery_count
            + 1,
        m.after_recovery_end(end) == m,
{
}

/// What is set from outside outlasts a reset; everything that was measured does not.
pub proof fn law_reset_forgets_what_was_measured(m: SyncMetrics, unix_us: u64)
    ensures
        ({
            let anew = m.after_reset(unix_us);
            &&& anew.enabled == m.enabled
            &&& anew.using_audio_clock == m.using_audio_clock
            &&& anew.stream_pts_offset_us == m.stream_pts_offset_us
            &&& anew.start_time_us == unix_us
            &&& anew.current_drift_us == 0 && anew.max_drift_ahead_us == 0
                && anew.max_drift_behind_us == 0 && anew.total_drift_us == 0
            &&& anew.sample_count == 0 && anew.out_of_sync_count == 0
            &&& anew.underrun_count == 0 && anew.last_underrun_time_us == 0
            &&& anew.stall_count == 0 && anew.decode_stall_count == 0 && anew.network_stall_count
                == 0
            &&& !anew.in_recovery && anew.recovery_count == 0 && anew.total_recovery_time_us == 0
                && anew.recovery_samples == 0
            &&& anew.fps_window_start_us == 0 && anew.current_fps_x100 == 0
            &&& anew.grace_samples == 0
        }),
{
}

/// A snapshot gives what was measured as it is, and the time since the last underrun.
pub proof fn law_snapshot_shows_what_was_measured(m: SyncMetrics, dry_us: u64, unix_us: u64)
    requires
        m.enabled,
        0 < dry_us <= unix_us,
    ensures
        ({
            let snap = m.after_underrun(dry_us).spec_snapshot(unix_us);
            &&& snap.time_since_last_underrun_us == unix_us - dry_us
            &&& snap.current_drift_us == m.current_drift_us
            &&& snap.max_drift_ahead_us == m.max_drift_ahead_us
            &&& snap.max_drift_behind_us == m.max_drift_behind_us
            &&& snap.stall_count == m.stall_count
            &&& snap.decode_stall_count == m.decode_stall_count
            &&& snap.network_stall_count == m.network_stall_count
            &&& snap.in_recovery == m.in_recovery
            &&& snap.recovery_count == m.recovery_count
            &&& snap.total_recovery_time_us == m.total_recovery_time_us
            &&& snap.using_audio_clock == m.using_audio_clock
            &&& snap.stream_pts_offset_us == m.stream_pts_offset_us
            &&& snap.current_fps_x100 == m.current_fps_x100
            &&& snap.last_video_pts.nanos == m.last_video_pts_us * 1000
            &&& snap.last_audio_pos.nanos == m.last_audio_pos_us * 1000
        }),
{
}

/// Milliseconds are microseconds cut toward zero, alike on both sides of it.
pub proof fn law_milliseconds_are_cut_toward_zero(us: i64)
    requires
        us > i64::MIN,
    ensures
        us >= 0 ==> millis_of(us) * 1000 <= us < millis_of(us) * 1000 + 1000,
        millis_of((-us) as i64) == -millis_of(us),
{
}

/// A session is rated by its largest drift, whichever way it went: the more it drifted the
/// worse, with steps at a tenth of a second, at three twentieths and at a fifth.
pub proof fn law_quality_falls_with_drift(snap: SyncMetricsSnapshot)
    requires
        i64::MIN < snap.max_drift_behind_us <= 0 <= snap.max_drift_ahead_us,
    ensures
        ({
            let most: int = if snap.max_drift_ahead_us >= -snap.max_drift_behind_us {
                snap.max_drift_ahead_us as int
            } else {
                -snap.max_drift_behind_us
            };
            &&& snap.max_drift_ms() == most / 1000
            &&& snap.quality() == SyncQuality::Excellent <==> most < 100_000
            &&& snap.quality() == SyncQuality::Good <==> 100_000 <= most < 150_000
            &&& snap.quality() == SyncQuality::Fair <==> 150_000 <= most < 200_000
            &&& snap.quality() == SyncQuality::Poor <==> 200_000 <= most
        }),
{
}

} // verus!
