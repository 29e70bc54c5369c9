//! What holds of a player's orders, polls and start-up.

use crate::decode_loop::MediaFacts;
use crate::frame_queue::DecodeCommand;
use crate::frame_scheduler::{DriftEstimate, FrameScheduler};
use crate::gpui_video_player::GpuiVideoPlayer;
use crate::playback_laws::law_pause_keeps_the_position;
use crate::player::{
    extension_of, first_choice, is_avfoundation_extension, state_after_frame, state_after_seek,
    CorePlayer, DecoderChoice, FramePollResult, InitEvent, OpenedDecoder, Platform,
};
use crate::session::SessionCommand;
use crate::text::{law_first_cuts_a_text, law_last_cuts_a_text, lower};
use crate::time::{ClockReading, Duration, Instant};
use crate::video::{VideoMetadata, VideoState};
use vstd::prelude::*;

verus! {

/// A player that is told to play shows that it plays, at the position that it has; the
/// clock waits for the next frame; and the decode thread hears it last, on platforms whose
/// decoders have a volume after it was told whether to be silent.
pub proof fn law_play_begins_at_the_position(
    before: CorePlayer,
    after: CorePlayer,
    muted: bool,
    now: Instant,
)
    requires
        before.decoding,
        before.played(after, muted, now),
    ensures
        after.state is Playing,
        !before.scheduler.stalled ==> after.state == (VideoState::Playing {
            position: before.scheduler.position(now),
        }),
        after.scheduler.playback_requested,
        after.scheduler.waiting_for_first_frame,
        after.scheduler.current_frame == before.scheduler.current_frame,
        after.scheduler.audio_handle == before.scheduler.audio_handle,
        after.decode.commands@.len() > 0,
        after.decode.commands@.last() == DecodeCommand::Play,
        after.decode.frame_queue == before.decode.frame_queue,
        before.platform.decoder_has_volume() ==> after.decode.commands@.len() >= 2
            && after.decode.commands@[after.decode.commands@.len() - 2] == DecodeCommand::SetMuted(
            muted,
        ),
        before.audio_thread is Some ==> after.audio_thread is Some
            && after.audio_thread->0.commands@.last() == DecodeCommand::Play,
{
}

/// A player that is paused shows so, at the position that it had just before, and stays
/// there; its threads are told to pause. Nothing is dropped.
pub proof fn law_pause_holds_the_position(
    before: CorePlayer,
    after: CorePlayer,
    start: Instant,
    now: Instant,
    later: Instant,
)
    requires
        before.decoding,
        before.paused(after, now),
    ensures
        after.state == (VideoState::Paused { position: after.scheduler.position(later) }),
        before.scheduler.playback_start_time == Some(start) && !before.scheduler.stalled
            && !before.scheduler.audio_stalled && start.nanos <= now.nanos
            && before.scheduler.playback_start_position.nanos + (now.nanos - start.nanos)
            <= u128::MAX && (before.scheduler.current_frame matches Some(frame)
            ==> before.scheduler.playback_start_position.nanos + (now.nanos - start.nanos)
            <= frame.pts.nanos + 1_000_000_000) ==> after.state == (VideoState::Paused {
            position: before.scheduler.position(now),
        }),
        !after.scheduler.playback_requested,
        after.decode.commands@.last() == DecodeCommand::Pause,
        after.decode.frame_queue == before.decode.frame_queue,
        after.scheduler.current_frame == before.scheduler.current_frame,
        before.audio_thread is Some ==> after.audio_thread is Some
            && after.audio_thread->0.commands@.last() == DecodeCommand::Pause,
{
    if before.scheduler.playback_start_time == Some(start) && !before.scheduler.stalled
        && !before.scheduler.audio_stalled && start.nanos <= now.nanos
        && before.scheduler.playback_start_position.nanos + (now.nanos - start.nanos) <= u128::MAX
        && (before.scheduler.current_frame matches Some(frame)
        ==> before.scheduler.playback_start_position.nanos + (now.nanos - start.nanos)
        <= frame.pts.nanos + 1_000_000_000) {
        law_pause_keeps_the_position(before.scheduler, start, now, later);
    }
}

/// Playback resumes where it was paused.
pub proof fn law_play_resumes_where_it_paused(
    before: CorePlayer,
    paused: CorePlayer,
    after: CorePlayer,
    muted: bool,
    now: Instant,
    later: Instant,
)
    requires
        before.decoding,
        before.paused(paused, now),
        paused.played(after, muted, later),
    ensures
        paused.state is Paused,
        after.state == (VideoState::Playing { position: paused.state->Paused_position }),
        after.scheduler.position(later) == paused.state->Paused_position,
{
}

/// A seek lands on the position that was asked for: the state shows it, the clock stands
/// at it, the threads are sent there, and nothing of the old place is queued or shown.
pub proof fn law_seek_goes_to_the_position(
    before: CorePlayer,
    after: CorePlayer,
    target: Duration,
    unix_us: u64,
    now: Instant,
)
    requires
        before.decoding,
        before.sought(after, target, unix_us),
    ensures
        after.decode.frame_queue.frames@.len() == 0,
        !after.decode.frame_queue.eos,
        after.decode.commands@.len() == before.decode.commands@.len() + 1,
        after.decode.commands@.last() == DecodeCommand::Seek(target),
        after.scheduler.current_frame is None,
        after.scheduler.current_position == target,
        after.scheduler.playback_start_position == target,
        before.scheduler.playback_requested || before.scheduler.playback_start_time is None
            ==> after.scheduler.position(now) == target,
        before.scheduler.playback_requested ==> after.scheduler.waiting_for_first_frame,
        after.scheduler.playback_requested == before.scheduler.playback_requested,
        before.state is Playing ==> after.state == (VideoState::Playing { position: target }),
        before.state is Paused ==> after.state == (VideoState::Paused { position: target }),
        !(before.state is Playing) && !(before.state is Paused) ==> after.state == before.state,
        after.decode.buffering_percent == 0,
        before.audio_thread is Some ==> after.audio_thread is Some
            && after.audio_thread->0.commands@.last() == DecodeCommand::Seek(target),
{
}

/// A player whose decoder is not open takes no orders.
pub proof fn law_orders_need_a_decoder(
    before: CorePlayer,
    after: CorePlayer,
    muted: bool,
    now: Instant,
    target: Duration,
    unix_us: u64,
)
    requires
        !before.decoding,
    ensures
        before.played(after, muted, now) ==> after == before,
        before.paused(after, now) ==> after == before,
        before.sought(after, target, unix_us) ==> after == before,
{
}

/// What a poll reports. A new frame is the one that went on display, with the number of
/// the last seek; the end of the stream is reported only when nothing is left of it; a
/// frame that stays is a hold, and without one the stream buffers.
pub proof fn law_poll_reports_what_it_did(
    before: CorePlayer,
    after: CorePlayer,
    clock: ClockReading,
    estimate: DriftEstimate,
)
    requires
        before.polled(after, clock, estimate),
    ensures
        ({
            let result = before.poll_result(clock, estimate);
            let queue = after.decode.frame_queue;
            let anew = after.scheduler.presentation_generation
                != before.scheduler.presentation_generation;
            let shown = before.scheduler.poll(
                before.decode.frame_queue.frames@,
                before.decode.frame_queue.eos,
                clock,
                estimate,
            ).2;
            &&& result matches FramePollResult::NewFrame(frame) ==> anew && shown is Some
                && frame.pts == shown->0.pts && frame.id == shown->0.id && frame.generation
                == after.scheduler.seek_generation
            &&& anew && shown is Some ==> result is NewFrame
            &&& result is EndOfStream ==> queue.eos
            &&& !anew && queue.eos && queue.frames@.len() == 0 ==> result is EndOfStream
            &&& !anew && !queue.eos ==> (result is Hold <==> shown is Some)
            &&& !anew && !queue.eos ==> (result is Buffering <==> shown is None)
            &&& !anew && queue.frames@.len() > 0 ==> !(result is EndOfStream)
            &&& !anew ==> after.state == before.state
            &&& queue.eos == before.decode.frame_queue.eos
            &&& result matches FramePollResult::NewFrame(frame) ==> (before.state is Playing
                || before.state is Ready || before.state is Loading || before.state is Buffering
                ==> after.state == (VideoState::Playing { position: frame.pts }))
            &&& result matches FramePollResult::NewFrame(frame) ==> (before.state is Paused
                ==> after.state == (VideoState::Paused { position: frame.pts }))
            &&& before.state is Ended || before.state is Error ==> after.state == before.state
        }),
{
}

/// Muting reaches the audio that is heard and, where the decoder has a volume, the
/// decoder; so does the volume, a hundred at most for the audio. Neither touches the
/// other, nor playback.
pub proof fn law_mute_and_volume_are_apart(
    before: CorePlayer,
    muted_player: CorePlayer,
    loud_player: CorePlayer,
    muted: bool,
    volume: u32,
)
    requires
        before.wf(),
        before.muted_to(muted_player, muted),
        before.volume_set(loud_player, volume),
    ensures
        muted_player.audio().muted == muted,
        muted_player.audio().volume == before.audio().volume,
        loud_player.audio().muted == before.audio().muted,
        loud_player.audio().volume <= 100,
        volume <= 100 ==> loud_player.audio().volume == volume,
        volume > 100 ==> loud_player.audio().volume == 100,
        muted_player.state == before.state,
        loud_player.state == before.state,
        muted_player.decode.frame_queue == before.decode.frame_queue,
        loud_player.decode.frame_queue == before.decode.frame_queue,
        before.decoding && before.platform.decoder_has_volume()
            ==> muted_player.decode.commands@.last() == DecodeCommand::SetMuted(muted)
            && loud_player.decode.commands@.last() == DecodeCommand::SetVolume(volume),
        muted_player.audio().position() == before.audio().position(),
        loud_player.audio().position() == before.audio().position(),
{
}

/// What the decode thread found out replaces what was known at first, but for the size of
/// a placeholder; the rest of the metadata stays.
pub proof fn law_metadata_follows_the_decoder(metadata: VideoMetadata, facts: MediaFacts)
    ensures
        ({
            let known = CorePlayer::synced_metadata(metadata, facts);
            &&& facts.duration is Some ==> known.duration == facts.duration
            &&& facts.duration is None ==> known.duration == metadata.duration
            &&& facts.dimensions matches Some(size) ==> (size.width > 1 && size.height > 1
                ==> known.width == size.width && known.height == size.height)
            &&& facts.dimensions matches Some(size) ==> (size.width <= 1 || size.height <= 1
                ==> known.width == metadata.width && known.height == metadata.height)
            &&& facts.dimensions is None ==> known.width == metadata.width && known.height
                == metadata.height
            &&& facts.frame_rate_bits matches Some(bits) ==> (0 < bits <= 0x7F80_0000
                ==> known.frame_rate_bits == bits)
            &&& facts.frame_rate_bits is None ==> known.frame_rate_bits == metadata.frame_rate_bits
            &&& known.codec == metadata.codec
            &&& known.start_time == metadata.start_time
            &&& known.pixel_aspect_ratio_bits == metadata.pixel_aspect_ratio_bits
        }),
{
}

/// A live stream is paced, by its own rate where it is known and by thirty frames a second
/// where it is not; a recording whose rate is known is not paced.
pub proof fn law_only_live_streams_are_paced(
    scheduler: FrameScheduler,
    metadata: VideoMetadata,
    facts: MediaFacts,
    interval: Option<Duration>,
)
    ensures
        ({
            let paced = CorePlayer::synced_pacing(scheduler, metadata, facts, interval);
            let rated = facts.frame_rate_bits is Some && 0 < facts.frame_rate_bits->0
                <= 0x7F80_0000;
            &&& metadata.duration is None && rated && interval is Some
                ==> paced.frame_pacing_interval == interval->0
            &&& metadata.duration is None && facts.frame_rate_bits is None
                ==> paced.frame_pacing_interval.nanos == 33_333_333
            &&& metadata.duration is Some && rated ==> paced.frame_pacing_interval.is_zero()
            &&& metadata.duration is Some && facts.frame_rate_bits is None
                ==> paced.frame_pacing_interval == scheduler.frame_pacing_interval
            &&& paced.current_frame == scheduler.current_frame
            &&& paced.audio_handle == scheduler.audio_handle
            &&& paced.playback_start_time == scheduler.playback_start_time
        }),
{
}

/// The opening of a decoder ends in one of two ways: it is ready, with its metadata and
/// the audio that it plays; or the error is shown, and nothing can be played. Until then
/// nothing changes, and afterwards nothing does any more.
pub proof fn law_opening_ends_ready_or_in_error(
    before: CorePlayer,
    event: InitEvent,
    after: CorePlayer,
)
    requires
        before.init_advanced(event, after),
    ensures
        event is Pending || before.startup.initialized ==> after == before,
        before.startup.init_promise && !before.startup.initialized ==> {
            &&& event matches InitEvent::Opened(opened) ==> after.state is Ready && after.decoding
                && after.metadata == Some(opened.metadata) && after.startup.initialized
                && after.decoder_plays_audio == opened.handles_audio
            &&& event matches InitEvent::Opened(opened) ==> (opened.handles_audio
                ==> after.scheduler.use_audio_as_sync_master && after.scheduler.audio_handle is Some
                && after.scheduler.audio_handle->0.available)
            &&& event matches InitEvent::Failed(error) ==> after.state == VideoState::Error(error)
                && after.startup.initialized && after.decoding == before.decoding
            &&& event is Crashed ==> after.state is Error
        },
        after.decode == before.decode,
        after.scheduler.current_frame == before.scheduler.current_frame,
{
}

/// What a window shows is what the core player has: its state, its position, and the
/// duration that the decode thread found out, or else the one known at first.
pub proof fn law_window_shows_the_core(player: GpuiVideoPlayer, now: Instant)
    requires
        player.core is Some,
    ensures
        ({
            let core = player.core->0;
            let shown = player.synced(now);
            &&& shown.state == core.state
            &&& shown.playback.position == core.scheduler.position(now)
            &&& core.decoding && core.decode.facts.duration is Some ==> shown.playback.duration
                == core.decode.facts.duration
            &&& !core.decoding && core.metadata is Some ==> shown.playback.duration
                == core.metadata->0.duration
            &&& core.decoding ==> shown.playback.buffering_percent == core.decode.buffering_percent
            &&& !core.decoding ==> shown.playback.buffering_percent == 100
            &&& core.metadata is Some ==> shown.metadata == core.metadata
            &&& shown.core == player.core
            &&& shown.config == player.config
        }),
{
}

/// The play button pauses what plays and plays what does not, and does nothing while the
/// source loads, buffers or has failed. Where a session plays, the order goes to it.
pub proof fn law_play_button_toggles(
    before: GpuiVideoPlayer,
    after: GpuiVideoPlayer,
    order: Option<SessionCommand>,
    now: Instant,
)
    requires
        before.toggled(after, order, now),
    ensures
        before.state is Loading || before.state is Buffering || before.state is Error
            ==> after == before && order is None,
        before.core is Some ==> order is None,
        before.core is None && before.presentation.has_session && before.state is Playing
            ==> order == Some(SessionCommand::Pause),
        before.core is None && before.presentation.has_session && (before.state is Paused
            || before.state is Ready || before.state is Ended) ==> order == Some(
            SessionCommand::Play,
        ),
        before.core is Some && before.core->0.decoding && before.state is Playing ==> after.core
            is Some && after.core->0.state is Paused,
        before.core is Some && before.core->0.decoding && (before.state is Paused || before.state
            is Ready || before.state is Ended) ==> after.core is Some && after.core->0.state
            is Playing,
        after.config == before.config,
        after.url == before.url,
{
}

/// A seek of a window goes to its core, or by order to its session, at the position that
/// was asked for; and a new preview is asked for.
pub proof fn law_window_seeks_where_asked(
    before: GpuiVideoPlayer,
    after: GpuiVideoPlayer,
    sought: (Option<SessionCommand>, bool),
    position: Duration,
    unix_us: u64,
)
    requires
        before.sought(after, sought, position, unix_us),
    ensures
        before.core is None && before.presentation.has_session ==> sought.0 == Some(
            SessionCommand::Seek { position },
        ),
        before.core is Some ==> sought.0 is None,
        before.core is Some && before.core->0.decoding ==> after.core is Some
            && after.core->0.scheduler.current_position == position
            && after.core->0.decode.frame_queue.frames@.len() == 0,
        after.preview.refresh_requested,
        after.config == before.config,
{
}

/// Each platform has its decoder; those of Apple depend on the container, and where there is
/// none the refusal says so.
pub proof fn law_decoder_fits_the_platform(
    platform: Platform,
    url: Seq<char>,
    choice: DecoderChoice,
)
    requires
        first_choice(platform, url, choice),
    ensures
        platform is Android ==> choice is ExoPlayer,
        platform is Linux ==> choice is GStreamer,
        platform matches Platform::Windows { native_video } ==> (native_video ==> choice
            is MediaFoundation) && (!native_video ==> choice is Refused),
        platform is Other ==> choice is Refused,
        platform is MacOs ==> choice is VideoToolbox || choice is Ffmpeg,
        platform is Ios ==> choice is VideoToolbox || choice is Refused,
        platform is MacOs || platform is Ios ==> (choice is VideoToolbox
            <==> is_avfoundation_extension(extension_of(url))),
        choice is Refused ==> choice->Refused_0 is DecoderInit,
{
}

/// The ending of a URL is what stands after the last dot of its path, in lower case; a query
/// is no part of it.
pub proof fn law_ending_comes_after_the_last_dot(
    stem: Seq<char>,
    ending: Seq<char>,
    query: Seq<char>,
)
    requires
        !stem.contains('?'),
        !ending.contains('?'),
        !ending.contains('.'),
    ensures
        extension_of(stem + seq!['.'] + ending) == lower(ending),
        extension_of(stem + seq!['.'] + ending + seq!['?'] + query) == lower(ending),
{
    let path = stem + seq!['.'] + ending;
    assert(!path.contains('?')) by {
        if path.contains('?') {
            let k = choose|k: int| 0 <= k < path.len() && path[k] == '?';
            if k < stem.len() {
                assert(stem[k] == '?');
            } else {
                assert(ending[k - stem.len() - 1] == '?');
            }
        }
    }
    law_first_cuts_a_text(path, '?', query);
    law_last_cuts_a_text(stem, '.', ending);
}

/// A frame moves the position of what plays and of what is paused, and starts what was ready,
/// loading or buffering; it does not wake what has ended or failed. A seek moves the position
/// and changes nothing else.
pub proof fn law_frames_and_seeks_move_the_state(state: VideoState, pts: Duration)
    ensures
        state is Paused ==> state_after_frame(state, pts) == (VideoState::Paused { position: pts }),
        state is Playing || state is Ready || state is Loading || state is Buffering
            ==> state_after_frame(state, pts) == (VideoState::Playing { position: pts }),
        state is Ended || state is Error ==> state_after_frame(state, pts) == state,
        state is Playing ==> state_after_seek(state, pts) == (VideoState::Playing {
            position: pts,
        }),
        state is Paused ==> state_after_seek(state, pts) == (VideoState::Paused { position: pts }),
        !(state is Playing) && !(state is Paused) ==> state_after_seek(state, pts) == state,
{
}

/// A decoder that plays its own audio hands over its handle, marked as there; on macOS a
/// thread gets a new one that knows when video starts; elsewhere the handle stays.
pub proof fn law_audio_comes_with_the_decoder(player: CorePlayer, opened: OpenedDecoder)
    ensures
        player.rebinds_audio(opened) <==> opened.handles_audio || player.platform is MacOs,
        opened.handles_audio || player.platform is MacOs ==> player.audio_after_open(
            opened,
        ).available,
        opened.handles_audio && opened.audio_handle is Some ==> player.audio_after_open(
            opened,
        ).samples_played == opened.audio_handle->0.samples_played && player.audio_after_open(
            opened,
        ).volume == opened.audio_handle->0.volume,
        !opened.handles_audio && player.platform is MacOs && opened.metadata.start_time is Some
            && opened.metadata.start_time->0.nanos / 1000 <= u64::MAX ==> player.audio_after_open(
            opened,
        ).video_start_time_us == Some((opened.metadata.start_time->0.nanos / 1000) as u64),
        !opened.handles_audio && !(player.platform is MacOs) ==> player.audio_after_open(opened)
            == player.audio(),
{
}

/// An order comes after those that wait: none of them is lost or overtaken, by the decode
/// thread or by the audio thread.
pub proof fn law_orders_keep_their_turn(
    before: CorePlayer,
    after: CorePlayer,
    muted: bool,
    volume: u32,
    target: Duration,
    now: Instant,
    unix_us: u64,
    turn: int,
)
    requires
        before.played(after, muted, now) || before.paused(after, now) || before.sought(
            after,
            target,
            unix_us,
        ) || before.muted_to(after, muted) || before.volume_set(after, volume),
    ensures
        before.decode.commands@.len() <= after.decode.commands@.len()
            <= before.decode.commands@.len() + 2,
        0 <= turn < before.decode.commands@.len() ==> after.decode.commands@[turn]
            == before.decode.commands@[turn],
        before.audio_thread is None <==> after.audio_thread is None,
        before.audio_thread matches Some(thread) ==> thread.commands@.len()
            <= after.audio_thread->0.commands@.len() <= thread.commands@.len() + 1,
        before.audio_thread matches Some(thread) ==> (0 <= turn < thread.commands@.len()
            ==> after.audio_thread->0.commands@[turn] == thread.commands@[turn]),
        after.decode.stop_flag == before.decode.stop_flag,
        after.decode.facts == before.decode.facts,
        after.url == before.url,
        after.metadata == before.metadata,
        after.platform == before.platform,
        after.decoding == before.decoding,
        after.startup == before.startup,
        after.decoder_plays_audio == before.decoder_plays_audio,
{
}

} // verus!
