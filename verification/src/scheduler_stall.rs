//! How the frame scheduler freezes when frames or audio run out, and goes on.

use crate::audio::AudioHandle;
use crate::frame_scheduler::{FrameScheduler, RECOVERY_FRAME_THRESHOLD, STALL_COOLDOWN_MS};
use crate::sync_metrics::{StallType, SyncMetrics};
use crate::time::{ClockReading, Duration, Instant};
use vstd::prelude::*;

verus! {

impl FrameScheduler {
    /// The metrics after a stall was entered.
    pub open spec fn metrics_after_stall(self, stall_type: StallType, unix_us: u64) -> SyncMetrics {
        self.sync_metrics.after_underrun(unix_us).after_stall(stall_type).after_recovery_start(
            unix_us,
        )
    }

    /// The position at which a stall freezes playback.
    pub open spec fn frozen_position(self, now: Instant) -> Duration {
        match self.wall_clock_position(now) {
            Some(wall) => wall,
            None => self.current_position,
        }
    }

    /// No frame came: the position freezes, and with it, where the wall clock
    /// drives, the audio.
    pub open spec fn with_stall_entered(self, clock: ClockReading) -> FrameScheduler {
        if self.stalled || !self.playback_requested {
            self
        } else {
            FrameScheduler {
                current_position: self.frozen_position(clock.now),
                stalled: true,
                stall_cooldown_until: Some(
                    clock.now.after(Duration::from_millis(STALL_COOLDOWN_MS)),
                ),
                audio_handle: (match self.audio_handle {
                    Some(audio) if !self.use_audio_as_sync_master => Some(
                        AudioHandle { playback_epoch_us: 0, ..audio },
                    ),
                    _ => self.audio_handle,
                }),
                sync_metrics: self.metrics_after_stall(StallType::Decode, clock.unix_us),
                ..self
            }
        }
    }

    pub(crate) fn handle_stall(&mut self, clock: ClockReading)
        ensures
            *final(self) == old(self).with_stall_entered(clock),
    {
        if self.stalled || !self.playback_requested {
            return;
        }
        if let Some(wall) = self.wall_clock_position(clock.now) {
            self.current_position = wall;
        }
        self.stalled = true;
        self.stall_cooldown_until =
        Some(clock.now.after(Duration::from_millis(STALL_COOLDOWN_MS)));
        if !self.use_audio_as_sync_master {
            if let Some(mut audio) = self.audio_handle.take() {
                audio.clear_playback_epoch();
                self.audio_handle = Some(audio);
            }
        }
        self.sync_metrics.record_underrun(clock.unix_us);
        self.sync_metrics.record_stall(StallType::Decode);
        self.sync_metrics.start_recovery(clock.unix_us);
    }

    /// Frames are back: the clock goes on from where it froze, once the
    /// cooldown is over.
    pub open spec fn with_stall_cleared(self, clock: ClockReading) -> FrameScheduler {
        if !self.stalled || (self.stall_cooldown_until is Some && clock.now.before(
            self.stall_cooldown_until->0,
        )) {
            self
        } else {
            FrameScheduler {
                stalled: false,
                stall_cooldown_until: None,
                playback_start_time: Some(clock.now),
                playback_start_position: self.current_position,
                frames_since_recovery: 0,
                audio_handle: (match self.audio_handle {
                    Some(audio) if !self.use_audio_as_sync_master => Some(
                        audio.with_epoch_enabled(clock.unix_us),
                    ),
                    _ => self.audio_handle,
                }),
                ..self
            }
        }
    }

    pub(crate) fn clear_stall_if_needed(&mut self, clock: ClockReading)
        ensures
            *final(self) == old(self).with_stall_cleared(clock),
    {
        if !self.stalled {
            return;
        }
        if let Some(cooldown) = self.stall_cooldown_until {
            if clock.now.before(cooldown) {
                return;
            }
        }
        self.stalled = false;
        self.stall_cooldown_until = None;
        self.playback_start_time = Some(clock.now);
        self.playback_start_position = self.current_position;
        self.frames_since_recovery = 0;
        if !self.use_audio_as_sync_master {
            if let Some(mut audio) = self.audio_handle.take() {
                audio.enable_playback_epoch(clock.unix_us);
                self.audio_handle = Some(audio);
            }
        }
    }

    /// The audio buffer ran empty: the clock stops.
    pub open spec fn with_audio_stall_entered(self, clock: ClockReading) -> FrameScheduler {
        if self.audio_stalled || !self.playback_requested {
            self
        } else {
            FrameScheduler {
                current_position: self.frozen_position(clock.now),
                playback_start_time: None,
                audio_stalled: true,
                audio_stall_start: Some(clock.now),
                sync_metrics: self.metrics_after_stall(StallType::Network, clock.unix_us),
                ..self
            }
        }
    }

    pub(crate) fn enter_audio_stall(&mut self, clock: ClockReading)
        ensures
            *final(self) == old(self).with_audio_stall_entered(clock),
    {
        if self.audio_stalled || !self.playback_requested {
            return;
        }
        if let Some(wall) = self.wall_clock_position(clock.now) {
            self.current_position = wall;
        }
        self.playback_start_time = None;
        self.audio_stalled = true;
        self.audio_stall_start = Some(clock.now);
        self.sync_metrics.record_underrun(clock.unix_us);
        self.sync_metrics.record_stall(StallType::Network);
        self.sync_metrics.start_recovery(clock.unix_us);
    }

    /// Audio is back: the clock goes on from where it stopped.
    pub open spec fn with_audio_stall_left(self, now: Instant) -> FrameScheduler {
        FrameScheduler {
            audio_stalled: false,
            audio_stall_start: None,
            playback_start_time: Some(now),
            playback_start_position: self.current_position,
            frames_since_recovery: 0,
            ..self
        }
    }

    pub(crate) fn exit_audio_stall(&mut self, now: Instant)
        ensures
            *final(self) == old(self).with_audio_stall_left(now),
    {
        self.audio_stalled = false;
        self.audio_stall_start = None;
        self.playback_start_time = Some(now);
        self.playback_start_position = self.current_position;
        self.frames_since_recovery = 0;
    }

    /// One more smooth frame; enough of them end a recovery.
    pub open spec fn with_recovery_tracked(self, unix_us: u64) -> FrameScheduler {
        let frames = if self.frames_since_recovery == u32::MAX {
            u32::MAX
        } else {
            (self.frames_since_recovery + 1) as u32
        };
        if !self.sync_metrics.in_recovery {
            self
        } else if frames >= RECOVERY_FRAME_THRESHOLD {
            FrameScheduler {
                sync_metrics: self.sync_metrics.after_recovery_end(unix_us),
                frames_since_recovery: 0,
                ..self
            }
        } else {
            FrameScheduler { frames_since_recovery: frames, ..self }
        }
    }

    pub(crate) fn track_recovery_frame(&mut self, unix_us: u64)
        ensures
            *final(self) == old(self).with_recovery_tracked(unix_us),
    {
        if !self.sync_metrics.is_in_recovery() {
            return;
        }
        self.frames_since_recovery = self.frames_since_recovery.saturating_add(1);
        if self.frames_since_recovery >= RECOVERY_FRAME_THRESHOLD {
            self.sync_metrics.end_recovery(unix_us);
            self.frames_since_recovery = 0;
        }
    }
}

} // verus!
