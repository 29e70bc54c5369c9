//! What holds of a player with a screen, as its session and its core tell it what happens.

use crate::frame_scheduler::DriftEstimate;
use crate::gpui_video_player::{
    clamped_volume, shown_error, shown_state, EventOutcome, FrameSource, GpuiVideoPlayer,
    GpuiVideoPlayerConfig, SurfaceSource,
};
use crate::player::{DecoderChoice, InitEvent, Platform};
use crate::presentation::{Feedback, PresentationFailure, PresentationTransition};
use crate::session::{
    AudioTrack, CapabilityDowngradeReason, SessionCommand, SessionError, SessionEvent,
    SessionMetadata, SessionState,
};
use crate::time::{ClockReading, Duration, Instant};
use crate::video::{VideoError, VideoFrame, VideoState};
use vstd::prelude::*;

verus! {

/// A player shows the state of its session as it is, with its position and the words of its
/// error.
pub proof fn law_session_state_is_shown(state: SessionState)
    ensures
        shown_state(state) is Loading <==> state is Loading,
        shown_state(state) is Ready <==> state is Ready,
        shown_state(state) is Playing <==> state is Playing,
        shown_state(state) is Paused <==> state is Paused,
        shown_state(state) is Buffering <==> state is Buffering,
        shown_state(state) is Ended <==> state is Ended,
        shown_state(state) is Error <==> state is Error,
        state matches SessionState::Playing { position } ==> shown_state(state)
            == (VideoState::Playing { position }),
        state matches SessionState::Paused { position } ==> shown_state(state)
            == (VideoState::Paused { position }),
        state matches SessionState::Buffering { position } ==> shown_state(state)
            == (VideoState::Buffering { position }),
{
}

/// An error is shown as the kind that it is, in its own words.
pub proof fn law_session_error_keeps_its_words(words: String)
    ensures
        shown_error(SessionError::Open(words)) == VideoError::OpenFailed(words),
        shown_error(SessionError::Decode(words)) == VideoError::DecodeFailed(words),
        shown_error(SessionError::Seek(words)) == VideoError::SeekFailed(words),
        shown_error(SessionError::Network(words)) == VideoError::Network(words),
        shown_error(SessionError::Tls(words)) == VideoError::Tls(words),
        shown_error(SessionError::Unsupported(words)) == VideoError::UnsupportedFormat(words),
        shown_error(SessionError::Fatal(words)) == VideoError::Generic(words),
        shown_error(SessionError::InvalidCommand(words)) == VideoError::Generic(words),
{
}

/// A frame of the session is handed on, and playback stands at its time; a loop that was
/// begun has brought a frame.
pub proof fn law_session_frame_moves_the_position<F>(
    before: GpuiVideoPlayer,
    pts: Duration,
    frame: F,
    after: GpuiVideoPlayer,
    outcome: EventOutcome<F>,
    now: Instant,
)
    requires
        before.told(SessionEvent::Frame { pts, frame }, after, outcome, now),
    ensures
        after.playback.position == pts,
        !after.playback.loop_seek_pending,
        after.presentation.has_presented_frame,
        outcome.frame == Some(frame),
        !outcome.play,
        after.state == before.state,
        after.metadata == before.metadata,
        after.playback.duration == before.playback.duration,
        after.config == before.config,
{
}

/// What a session says of its stream is what the player knows of it.
pub proof fn law_session_metadata_is_known<F>(
    before: GpuiVideoPlayer,
    metadata: SessionMetadata,
    after: GpuiVideoPlayer,
    outcome: EventOutcome<F>,
    now: Instant,
)
    requires
        before.told(SessionEvent::Metadata { metadata }, after, outcome, now),
    ensures
        after.metadata == Some(metadata),
        after.playback.duration == metadata.duration,
        after.playback.buffering_percent == 100,
        after.playback.position == before.playback.position,
        after.state == before.state,
        outcome.frame is None && !outcome.play,
{
}

/// The tracks of a session and the one that plays are those that it named last; a track that
/// was selected ends the complaint of an earlier try.
pub proof fn law_session_tracks_are_known<F>(
    before: GpuiVideoPlayer,
    tracks: Vec<AudioTrack>,
    selected: Option<String>,
    named: GpuiVideoPlayer,
    track: AudioTrack,
    after: GpuiVideoPlayer,
    first: EventOutcome<F>,
    second: EventOutcome<F>,
    now: Instant,
)
    requires
        before.told(
            SessionEvent::AudioTracks { tracks, selected_id: selected },
            named,
            first,
            now,
        ),
        named.told(SessionEvent::AudioTrackSelected { track }, after, second, now),
    ensures
        named.audio_tracks == tracks,
        named.selected_audio_track_id == selected,
        after.audio_tracks == tracks,
        after.selected_audio_track_id == Some(track.id),
        after.audio_track_selection_error is None,
        after.state == before.state,
        after.playback.position == before.playback.position,
{
}

/// A session that tells its state changes that of the player, and begins playback only where
/// it has just become ready for the first time and that is wanted.
pub proof fn law_session_becomes_ready_once<F>(
    before: GpuiVideoPlayer,
    state: SessionState,
    after: GpuiVideoPlayer,
    outcome: EventOutcome<F>,
    now: Instant,
)
    requires
        before.told(SessionEvent::StateChanged { state }, after, outcome, now),
    ensures
        after.state == shown_state(state),
        outcome.play <==> before.config.autoplay && !before.playback.initialized && state
            is Ready,
        after.playback.initialized <==> before.playback.initialized || state is Ready,
        after.playback.loading_started,
        after.playback.position == before.playback.position,
        outcome.frame is None,
        before.presentation.transition != PresentationTransition::Downgrading
            ==> after.presentation == before.presentation,
        after.presentation.transition == before.presentation.transition,
{
}

/// A session that has ended has ended; nothing else changes, unless a step down is under way,
/// whose clock then rests.
pub proof fn law_session_end_is_the_end<F>(
    before: GpuiVideoPlayer,
    after: GpuiVideoPlayer,
    outcome: EventOutcome<F>,
    now: Instant,
)
    requires
        before.told(SessionEvent::<F>::Ended, after, outcome, now),
    ensures
        after.state is Ended,
        after.playback.position == before.playback.position,
        after.playback.loop_seek_pending == before.playback.loop_seek_pending,
        outcome.frame is None && !outcome.play,
        before.presentation.transition == PresentationTransition::Downgrading
            ==> after.presentation.budget.deadline is None,
        before.presentation.transition != PresentationTransition::Downgrading
            ==> after.presentation == before.presentation,
{
}

/// An error of the session is shown. It ends presentation, and stops the session, where it is
/// fatal and was told by an event, or comes during a step down; else playback can go on.
pub proof fn law_session_error_is_shown(
    before: GpuiVideoPlayer,
    error: SessionError,
    is_event: bool,
    after: GpuiVideoPlayer,
    feedback: Feedback,
    now: Instant,
)
    requires
        before.failed(error, is_event, after, feedback, now),
        before.presentation.transition != PresentationTransition::Fatal,
    ensures
        ({
            let ends = before.presentation.transition == PresentationTransition::Downgrading || (
            is_event && error is Fatal);
            &&& after.state is Error
            &&& ends <==> feedback.stop
            &&& ends ==> feedback.failure == Some(PresentationFailure::SessionFailed)
                && after.presentation.transition == PresentationTransition::Fatal
            &&& !ends ==> after.state == VideoState::Error(shown_error(error))
                && after.presentation == before.presentation && feedback.failure is None
            &&& after.playback == before.playback
            &&& after.core == before.core
        }),
{
}

/// A volume is a percentage: what is more than a hundred is a hundred, anything else stays.
/// It is set for the session and the core alike, and leaves the mute switch alone.
pub proof fn law_window_volume_is_a_percentage(
    before: GpuiVideoPlayer,
    after: GpuiVideoPlayer,
    volume: u32,
)
    requires
        before.volume_set(after, volume),
    ensures
        clamped_volume(volume) <= 100,
        volume <= 100 ==> clamped_volume(volume) == volume,
        volume > 100 ==> clamped_volume(volume) == 100,
        after.config.volume == clamped_volume(volume),
        after.config.muted == before.config.muted,
        before.session_handle is Some ==> after.session_handle is Some
            && after.session_handle->0.volume == after.config.volume
            && after.session_handle->0.muted == before.session_handle->0.muted,
        before.core is None ==> after.core is None,
        after.state == before.state,
        after.playback == before.playback,
{
}

/// A player that is muted is muted throughout, and as loud as before once it is not.
pub proof fn law_window_mute_keeps_the_volume(
    before: GpuiVideoPlayer,
    after: GpuiVideoPlayer,
    muted: bool,
)
    requires
        before.muted_to(after, muted),
    ensures
        after.config.muted == muted,
        after.config.volume == before.config.volume,
        before.session_handle is Some ==> after.session_handle is Some
            && after.session_handle->0.muted == muted && after.session_handle->0.volume
            == before.session_handle->0.volume,
        after.state == before.state,
        after.playback == before.playback,
{
}

/// An order that the session took makes imports under way worthless where it goes to another
/// place: a seek, and play at the end. Nothing else does.
pub proof fn law_orders_outdate_imports(
    player: GpuiVideoPlayer,
    order: SessionCommand,
    was_ended: bool,
)
    ensures
        ({
            let after = player.ordered(order, was_ended);
            let jumps = order is Seek || (order is Play && was_ended);
            &&& jumps ==> after.presentation.presentation_epoch
                != player.presentation.presentation_epoch && !after.presentation.pending_frame
            &&& !jumps ==> after.presentation == player.presentation
            &&& order is SelectAudioTrack ==> after.audio_track_selection_error is None
            &&& !(order is SelectAudioTrack) ==> after.audio_track_selection_error
                == player.audio_track_selection_error
            &&& after.state == player.state
            &&& after.playback == player.playback
        }),
{
}

/// What the surface shows: a shared frame on Linux where there is one, else the textures that
/// were uploaded, else black.
pub proof fn law_surface_shows_what_there_is(
    player: GpuiVideoPlayer,
    external: bool,
    textures: Option<bool>,
)
    ensures
        player.surface_source(external, textures) == SurfaceSource::External <==> player.platform
            is Linux && external,
        player.surface_source(external, textures) == SurfaceSource::Black <==> textures is None
            && !(player.platform is Linux && external),
        player.surface_source(false, Some(true)) == SurfaceSource::Nv12,
        player.surface_source(false, Some(false)) == SurfaceSource::Rgba,
{
}

/// A frame is looked for in playback while that is wanted, else as a preview where the player
/// is ready or paused. The preview is the frame that waits longest, and is given only where
/// it is asked for.
pub proof fn law_preview_is_the_waiting_frame(player: GpuiVideoPlayer)
    requires
        player.core is Some,
    ensures
        player.frame_source() == FrameSource::Playback
            <==> player.core->0.scheduler.playback_requested,
        player.frame_source() == FrameSource::Preview
            <==> !player.core->0.scheduler.playback_requested && (player.state is Ready
            || player.state is Paused),
        player.preview_frame() is Some <==> player.preview.refresh_requested
            && player.core->0.decode.frame_queue.frames@.len() > 0,
        player.preview_frame() matches Some(frame) ==> frame
            == player.core->0.decode.frame_queue.frames@[0],
{
}

/// A source is opened once: the first time that it is asked for, and where the core has not
/// begun by itself.
pub proof fn law_opening_begins_once(
    before: GpuiVideoPlayer,
    after: GpuiVideoPlayer,
    choice: Option<DecoderChoice>,
    last: GpuiVideoPlayer,
    second: Option<DecoderChoice>,
)
    requires
        before.init_started(after, choice),
        after.init_started(last, second),
    ensures
        after.playback.loading_started,
        second is None,
        last == after,
        choice is Some <==> !before.playback.loading_started && before.core is Some
            && !before.core->0.startup.initialized && !before.core->0.startup.init_thread,
        choice is Some ==> after.core is Some && after.core->0.startup.init_thread,
        after.state == before.state,
{
}

/// A source that has opened is played at once where that is wanted, and else waits, ready.
/// Opening is over once, and then changes nothing.
pub proof fn law_autoplay_plays_what_has_opened(
    before: GpuiVideoPlayer,
    after: GpuiVideoPlayer,
    event: InitEvent,
    now: Instant,
)
    requires
        before.core is Some,
        before.init_advanced(after, event, now),
    ensures
        before.playback.initialized ==> after == before,
        !before.playback.initialized && !before.core->0.startup.initialized
            && before.core->0.startup.init_promise && event is Opened ==> {
            &&& after.playback.initialized
            &&& after.core is Some
            &&& before.config.autoplay ==> after.core->0.state is Playing
            &&& !before.config.autoplay ==> after.core->0.state is Ready
        },
        !before.playback.initialized && !before.core->0.startup.initialized
            && before.core->0.startup.init_promise && event is Failed ==> {
            &&& after.playback.initialized
            &&& after.core is Some
            &&& after.core->0.state is Error
        },
        !before.playback.initialized && !before.core->0.startup.initialized && event is Pending
            ==> after == before,
        after.config == before.config,
{
}

/// A frame that playback gives ends the wait of a loop; without one the loop waits on.
pub proof fn law_frame_ends_the_loop_wait(
    before: GpuiVideoPlayer,
    after: GpuiVideoPlayer,
    frame: Option<VideoFrame>,
    clock: ClockReading,
    estimate: DriftEstimate,
)
    requires
        before.advanced(after, frame, clock, estimate),
    ensures
        before.core is Some && frame is Some ==> !after.playback.loop_seek_pending,
        frame is None ==> after.playback.loop_seek_pending == before.playback.loop_seek_pending,
        before.core is None ==> frame is None && after == before,
        after.playback.position == before.playback.position,
        after.state == before.state,
{
}

/// The session's own report steps down without an order to it, once, and only for reasons
/// that end sharing; a step down that lasts longer than it may ends presentation.
pub proof fn law_reports_of_the_session_step_down(
    player: GpuiVideoPlayer,
    reason: CapabilityDowngradeReason,
    now: Instant,
)
    ensures
        player.watching(None::<CapabilityDowngradeReason>, now).0 == player.presentation,
        player.presentation.transition != PresentationTransition::Direct ==> player.watching(
            Some(reason),
            now,
        ).0 == player.presentation,
        player.presentation.transition == PresentationTransition::Direct && reason
            == CapabilityDowngradeReason::HardwareDecodeFailure ==> {
            let (after, told) = player.watching(Some(reason), now);
            &&& after.transition == PresentationTransition::Downgrading
            &&& told.downgrade == Some(reason)
            &&& !told.renegotiate
            &&& told.outcome is None
        },
        player.presentation.transition != PresentationTransition::Downgrading
            ==> player.timing_out(now).0 == player.presentation,
        player.presentation.transition == PresentationTransition::Downgrading
            && player.presentation.budget.deadline is Some ==> (player.timing_out(now).1.failure
            == Some(PresentationFailure::TimedOut) <==> (player.state is Playing || player.state
            is Buffering) && now.nanos >= player.presentation.budget.deadline->0.nanos),
{
}

/// A new player has the source and the settings that it was given, stands at the beginning,
/// loading, and asks for a preview. On Linux a session plays, elsewhere a core.
pub proof fn law_new_player_is_at_the_beginning(
    player: GpuiVideoPlayer,
    url: Seq<char>,
    config: GpuiVideoPlayerConfig,
    platform: Platform,
)
    requires
        player.is_fresh(url, config, platform),
    ensures
        player.url@ == url,
        player.config == config,
        player.state is Loading,
        player.playback.position.nanos == 0,
        player.playback.duration is None,
        !player.playback.initialized && !player.playback.loading_started,
        player.preview.refresh_requested,
        player.core is Some <==> !(platform is Linux),
        player.presentation.has_session <==> platform is Linux,
        player.session_follows(),
        player.show_subtitles,
        player.core is Some ==> {
            &&& player.core->0.url@ == url
            &&& player.core->0.state is Loading
            &&& !player.core->0.decoding
            &&& player.core->0.decode.frame_queue.frames@.len() == 0
            &&& !player.core->0.decode.frame_queue.eos
            &&& player.core->0.scheduler.audio_handle is Some
            &&& player.core->0.scheduler.audio_handle->0.muted == config.muted
            &&& config.volume <= 100 ==> player.core->0.scheduler.audio_handle->0.volume
                == config.volume
        },
{
}

/// Unless told otherwise a player shows its controls, waits to be played, plays once, at full
/// volume, and gives a step down two seconds.
pub proof fn law_standard_settings()
    ensures
        ({
            let config = GpuiVideoPlayerConfig::standard();
            &&& config.show_controls
            &&& !config.autoplay && !config.looping && !config.muted
            &&& config.volume == 100
            &&& config.lifecycle_timeout.nanos == 2_000_000_000
            &&& config.open_timeout is None
        }),
{
}

/// The seek bar is as full as playback has come, and full at the end.
pub proof fn law_seek_bar_follows_the_position(player: GpuiVideoPlayer)
    requires
        player.playback.duration is Some,
        player.playback.duration->0.nanos > 0,
    ensures
        player.seek_progress().whole == player.playback.duration->0,
        player.playback.position.nanos <= player.playback.duration->0.nanos
            ==> player.seek_progress().part == player.playback.position,
        player.playback.position.nanos >= player.playback.duration->0.nanos
            ==> player.seek_progress().part == player.playback.duration->0,
{
}

} // verus!
