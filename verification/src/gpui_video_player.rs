//! The player behind a video widget: what it is told, what it shows, and when it
//! plays, loops or ends.

use crate::android_import::AndroidImport;
use crate::audio::AudioHandle;
use crate::decode_loop::{Dimensions, MediaFacts};
use crate::frame_queue::DecodeCommand;
use crate::frame_scheduler::{DriftEstimate, FrameScheduler};
use crate::player::{
    first_choice, CorePlayer, DecoderChoice, FramePollResult, InitEvent, Platform, Startup,
};
use crate::presentation::{
    active_playback_state, downgrade_budget_expired, ends_sharing, sync_downgrade_budget,
    DirectPresentation, ExternalFrameOutcome, Feedback, PresentationFailure, PresentationTransition,
    PreviewState, UploadOutcome,
};
use crate::session::{
    AudioTrack, CapabilityDowngradeReason, CapabilityTier, DecodeMode, FrameRealization,
    RendererOutcome, SessionCommand, SessionError, SessionEvent, SessionMetadata, SessionState,
};
use crate::time::{ClockReading, Duration, Instant};
use crate::video::{VideoError, VideoFrame, VideoMetadata, VideoState};
use vstd::prelude::*;
use vstd::string::StringExecFns;

verus! {

/// The percentage that is shown while audio has run dry.
pub const AUDIO_STALL_PERCENT: i32 = 90;

/// What the controls of a player asked for.
#[derive(Debug, Clone, Copy, PartialEq, Eq, Structural)]
pub struct GpuiVideoPlayerResponse {
    pub toggle_playback: bool,
    pub toggle_fullscreen: bool,
    pub toggle_mute: bool,
    pub toggle_subtitles: bool,
    pub seek_to: Option<Duration>,
    pub state_changed: bool,
}

impl Default for GpuiVideoPlayerResponse {
    /// Nothing was asked for.
    fn default() -> (response: Self)
        ensures
            response == (GpuiVideoPlayerResponse {
                toggle_playback: false,
                toggle_fullscreen: false,
                toggle_mute: false,
                toggle_subtitles: false,
                seek_to: None,
                state_changed: false,
            }),
    {
        GpuiVideoPlayerResponse {
            toggle_playback: false,
            toggle_fullscreen: false,
            toggle_mute: false,
            toggle_subtitles: false,
            seek_to: None,
            state_changed: false,
        }
    }
}

/// How a player is set up.
#[derive(Debug, Clone, Copy, PartialEq, Eq, Structural)]
pub struct GpuiVideoPlayerConfig {
    pub show_controls: bool,
    pub autoplay: bool,
    pub looping: bool,
    pub muted: bool,
    /// Percent.
    pub volume: u32,
    /// How long a change of the way that frames take may last.
    pub lifecycle_timeout: Duration,
    /// How long a source may take to open; none for as long as the session
    /// allows.
    pub open_timeout: Option<Duration>,
}

impl GpuiVideoPlayerConfig {
    pub open spec fn standard() -> GpuiVideoPlayerConfig {
        GpuiVideoPlayerConfig {
            show_controls: true,
            autoplay: false,
            looping: false,
            muted: false,
            volume: 100,
            lifecycle_timeout: Duration::from_secs(2),
            open_timeout: None,
        }
    }
}

impl Default for GpuiVideoPlayerConfig {
    fn default() -> (config: Self)
        ensures
            config == GpuiVideoPlayerConfig::standard(),
    {
        GpuiVideoPlayerConfig {
            show_controls: true,
            autoplay: false,
            looping: false,
            muted: false,
            volume: 100,
            lifecycle_timeout: Duration::from_secs(2),
            open_timeout: None,
        }
    }
}

/// A volume, a hundred at most.
#[verifier::allow_in_spec]
pub fn clamped_volume(volume: u32) -> u32
    returns
        (if volume > 100 {
            100u32
        } else {
            volume
        }),
{
    if volume > 100 {
        100
    } else {
        volume
    }
}

/// The error that a session reports, as a player shows it.
pub open spec fn shown_error(error: SessionError) -> VideoError {
    match error {
        SessionError::InvalidCommand(message) | SessionError::Fatal(message) => VideoError::Generic(
            message,
        ),
        SessionError::Open(message) => VideoError::OpenFailed(message),
        SessionError::Decode(message) => VideoError::DecodeFailed(message),
        SessionError::Seek(message) => VideoError::SeekFailed(message),
        SessionError::Network(message) => VideoError::Network(message),
        SessionError::Tls(message) => VideoError::Tls(message),
        SessionError::Unsupported(message) => VideoError::UnsupportedFormat(message),
    }
}

pub fn video_error(error: &SessionError) -> (shown: VideoError)
    ensures
        shown == shown_error(*error),
{
    match error {
        SessionError::InvalidCommand(message) => VideoError::Generic(message.clone()),
        SessionError::Fatal(message) => VideoError::Generic(message.clone()),
        SessionError::Open(message) => VideoError::OpenFailed(message.clone()),
        SessionError::Decode(message) => VideoError::DecodeFailed(message.clone()),
        SessionError::Seek(message) => VideoError::SeekFailed(message.clone()),
        SessionError::Network(message) => VideoError::Network(message.clone()),
        SessionError::Tls(message) => VideoError::Tls(message.clone()),
        SessionError::Unsupported(message) => VideoError::UnsupportedFormat(message.clone()),
    }
}

/// The state of a session, as a player shows it.
pub open spec fn shown_state(state: SessionState) -> VideoState {
    match state {
        SessionState::Loading => VideoState::Loading,
        SessionState::Ready => VideoState::Ready,
        SessionState::Playing { position } => VideoState::Playing { position },
        SessionState::Paused { position } => VideoState::Paused { position },
        SessionState::Buffering { position } => VideoState::Buffering { position },
        SessionState::Error(error) => VideoState::Error(shown_error(error)),
        SessionState::Ended => VideoState::Ended,
    }
}

pub fn video_state(state: &SessionState) -> (shown: VideoState)
    ensures
        shown == shown_state(*state),
{
    match state {
        SessionState::Loading => VideoState::Loading,
        SessionState::Ready => VideoState::Ready,
        SessionState::Playing { position } => VideoState::Playing { position: *position },
        SessionState::Paused { position } => VideoState::Paused { position: *position },
        SessionState::Buffering { position } => VideoState::Buffering { position: *position },
        SessionState::Error(error) => VideoState::Error(video_error(error)),
        SessionState::Ended => VideoState::Ended,
    }
}

pub fn video_metadata(metadata: &SessionMetadata) -> (shown: VideoMetadata)
    ensures
        shown == *metadata,
{
    metadata.clone()
}

/// What a player knows of playback.
#[derive(Debug, Clone, Copy, PartialEq, Eq, Structural)]
pub struct PlaybackFacts {
    pub position: Duration,
    pub duration: Option<Duration>,
    /// From nought to a hundred.
    pub buffering_percent: i32,
    pub loading_started: bool,
    pub initialized: bool,
    /// A loop has begun, and no frame has come since.
    pub loop_seek_pending: bool,
}

impl PlaybackFacts {
    #[verifier::allow_in_spec]
    pub fn at_start() -> PlaybackFacts
        returns
            (PlaybackFacts {
                position: Duration::zero(),
                duration: None::<Duration>,
                buffering_percent: 0,
                loading_started: false,
                initialized: false,
                loop_seek_pending: false,
            }),
    {
        PlaybackFacts {
            position: Duration::zero(),
            duration: None,
            buffering_percent: 0,
            loading_started: false,
            initialized: false,
            loop_seek_pending: false,
        }
    }
}

/// The state of playback once a step of presentation was taken: a failure is
/// shown as an error.
pub open spec fn state_after_feedback(
    before: VideoState,
    after: VideoState,
    feedback: Feedback,
    session_error: Seq<char>,
) -> bool {
    match feedback.failure {
        Some(failure) => {
            &&& after is Error
            &&& after->Error_0 is Generic
            &&& after->Error_0->Generic_0@ == failure.message(session_error)
        },
        None => after == before,
    }
}

/// What an event of the session asks of the player besides what it changes.
pub struct EventOutcome<F> {
    /// A frame to be shown.
    pub frame: Option<F>,
    pub feedback: Feedback,
    /// The source is ready, and playback is to begin.
    pub play: bool,
}

/// What is done at the end of a stream.
#[derive(Debug, Clone, Copy, PartialEq, Eq, Structural)]
pub enum EndStep {
    Nothing,
    /// Go to the beginning and play on.
    Loop,
    /// The stream has ended.
    End,
}

/// Decides what is done at the end of a stream. A loop whose seek failed comes
/// back to the end without a frame; it is not tried again.
#[verifier::allow_in_spec]
pub fn end_step(at_end: bool, looping: bool, loop_seek_pending: bool) -> EndStep
    returns
        (if !at_end {
            EndStep::Nothing
        } else if looping && !loop_seek_pending {
            EndStep::Loop
        } else {
            EndStep::End
        }),
{
    if !at_end {
        EndStep::Nothing
    } else if looping && !loop_seek_pending {
        EndStep::Loop
    } else {
        EndStep::End
    }
}

/// What the player looks at for a frame to show.
#[derive(Debug, Clone, Copy, PartialEq, Eq, Structural)]
pub enum FrameSource {
    /// The frame that is due.
    Playback,
    /// The frame to show while nothing plays.
    Preview,
    Nowhere,
}

/// A part of a whole; the whole is not zero.
#[derive(Debug, Clone, Copy, PartialEq, Eq, Structural)]
pub struct SeekProgress {
    pub part: Duration,
    pub whole: Duration,
}

/// What stands behind the picture on display.
#[derive(Debug, Clone, Copy, PartialEq, Eq, Structural)]
pub enum SurfaceSource {
    /// One texture of two planes, shared by the decoder.
    External,
    /// A texture for brightness and one for colour.
    Nv12,
    Rgba,
    Black,
}

/// A player with a screen. Where there is a core player it decodes by itself;
/// else a session does, and the player is told by events.
pub struct GpuiVideoPlayer {
    pub url: String,
    pub config: GpuiVideoPlayerConfig,
    pub platform: Platform,
    pub core: Option<CorePlayer>,
    /// The volume and the mute switch of the session, where one plays.
    pub session_handle: Option<AudioHandle>,
    pub preview: PreviewState,
    pub presentation: DirectPresentation,
    pub android: AndroidImport,
    pub playback: PlaybackFacts,
    pub metadata: Option<VideoMetadata>,
    pub state: VideoState,
    pub audio_tracks: Vec<AudioTrack>,
    pub selected_audio_track_id: Option<String>,
    pub audio_track_selection_error: Option<String>,
    /// Counts the sources that were opened.
    pub stream_generation: u64,
    pub show_subtitles: bool,
}

/// A core player that was just made for a URL, with the volume that is set.
pub open spec fn is_new_core(
    core: CorePlayer,
    url: Seq<char>,
    platform: Platform,
    config: GpuiVideoPlayerConfig,
) -> bool {
    &&& core.wf()
    &&& core.state is Loading
    &&& core.metadata is None
    &&& !core.decoding
    &&& core.url@ == url
    &&& core.platform == platform
    &&& core.own_audio is None
    &&& !core.decoder_plays_audio
    &&& core.startup == (Startup { initialized: false, init_thread: false, init_promise: false })
    &&& core.scheduler == FrameScheduler::fresh().with_audio(
        AudioHandle {
            muted: config.muted,
            volume: clamped_volume(config.volume),
            ..AudioHandle::fresh()
        },
        true,
    )
    &&& core.decode.commands@ =~= Seq::<DecodeCommand>::empty()
    &&& core.decode.frame_queue.frames@ =~= Seq::<VideoFrame>::empty()
    &&& core.decode.frame_queue.capacity == platform.queue_capacity()
    &&& !core.decode.frame_queue.eos
    &&& !core.decode.frame_queue.closed_to_frames()
    &&& core.decode.frame_queue.live_frames_dropped == 0
    &&& !core.decode.stop_flag
    &&& core.decode.facts == MediaFacts::unknown()
    &&& core.decode.buffering_percent == 0
    &&& core.audio_thread is None
    &&& core.android_player_id == 0
    &&& core.gpu_info.is_unknown()
    &&& core.linux_zero_copy_metrics is None
}

fn new_core(url: &str, platform: Platform, config: &GpuiVideoPlayerConfig) -> (core: CorePlayer)
    ensures
        is_new_core(core, url@, platform, *config),
{
    let mut core = CorePlayer::new(url, platform);
    core.set_muted(config.muted);
    core.set_volume(config.volume);
    core
}

/// The handle that a session gets when it is made: it is told whether it is muted
/// and how loud it is.
pub open spec fn told_handle(config: GpuiVideoPlayerConfig) -> AudioHandle {
    AudioHandle {
        muted: config.muted,
        volume: clamped_volume(config.volume),
        ..AudioHandle::fresh()
    }
}

fn new_session_handle(config: &GpuiVideoPlayerConfig) -> (handle: AudioHandle)
    ensures
        handle == told_handle(*config),
{
    let mut handle = AudioHandle::new();
    handle.set_muted(config.muted);
    handle.set_volume(clamped_volume(config.volume));
    handle
}

impl GpuiVideoPlayer {
    pub open spec fn wf(self) -> bool {
        self.core matches Some(core) ==> core.wf()
    }

    /// Everything but the state of playback and the way of frames is as in
    /// `other`.
    pub open spec fn same_source(self, other: GpuiVideoPlayer) -> bool {
        &&& self.url == other.url
        &&& self.config == other.config
        &&& self.platform == other.platform
        &&& self.core == other.core
        &&& self.session_handle == other.session_handle
        &&& self.preview == other.preview
        &&& self.android == other.android
        &&& self.playback == other.playback
        &&& self.metadata == other.metadata
        &&& self.audio_tracks == other.audio_tracks
        &&& self.selected_audio_track_id == other.selected_audio_track_id
        &&& self.audio_track_selection_error == other.audio_track_selection_error
        &&& self.stream_generation == other.stream_generation
        &&& self.show_subtitles == other.show_subtitles
    }

    /// A player for a URL, set up as usual.
    pub fn new(url: &str, platform: Platform) -> (player: Self)
        ensures
            player.wf(),
            player.is_fresh(url@, GpuiVideoPlayerConfig::standard(), platform),
            player.session_follows(),
    {
        Self::with_config(url, GpuiVideoPlayerConfig::default(), platform)
    }

    /// True of a player that was just made.
    pub open spec fn is_fresh(
        self,
        url: Seq<char>,
        config: GpuiVideoPlayerConfig,
        platform: Platform,
    ) -> bool {
        &&& self.url@ == url
        &&& self.config == config
        &&& self.platform == platform
        &&& self.presentation == (DirectPresentation {
            has_session: platform is Linux,
            ..DirectPresentation::new()
        })
        &&& self.android == AndroidImport::new()
        &&& self.preview.refresh_requested
        &&& self.playback == PlaybackFacts::at_start()
        &&& self.metadata is None
        &&& self.state is Loading
        &&& self.audio_tracks@.len() == 0
        &&& self.selected_audio_track_id is None
        &&& self.audio_track_selection_error is None
        &&& self.stream_generation == 0
        &&& self.show_subtitles
        &&& match self.core {
            Some(core) => !(platform is Linux) && is_new_core(core, url, platform, config),
            None => platform is Linux,
        }
        &&& self.session_handle == (if platform is Linux {
            Some(told_handle(config))
        } else {
            None::<AudioHandle>
        })
    }

    /// A player for a URL. On Linux a session plays it, elsewhere a core player.
    pub fn with_config(url: &str, config: GpuiVideoPlayerConfig, platform: Platform) -> (player:
        Self)
        ensures
            player.wf(),
            player.is_fresh(url@, config, platform),
            player.session_follows(),
    {
        let core: Option<CorePlayer> = match platform {
            Platform::Linux => None,
            _ => Some(new_core(url, platform, &config)),
        };
        let mut presentation: DirectPresentation = DirectPresentation::new();
        presentation.has_session = core.is_none();
        let session_handle: Option<AudioHandle> = match platform {
            Platform::Linux => Some(new_session_handle(&config)),
            _ => None,
        };
        GpuiVideoPlayer {
            url: url.to_owned(),
            config,
            platform,
            core,
            session_handle,
            preview: PreviewState::new(),
            presentation,
            android: AndroidImport::new(),
            playback: PlaybackFacts::at_start(),
            metadata: None,
            state: VideoState::Loading,
            audio_tracks: Vec::new(),
            selected_audio_track_id: None,
            audio_track_selection_error: None,
            stream_generation: 0,
            show_subtitles: true,
        }
    }

    /// The handle once the session was begun anew, if there is one.
    pub open spec fn restarted_handle(self, config: GpuiVideoPlayerConfig) -> Option<AudioHandle> {
        if self.presentation.has_session {
            Some(told_handle(config))
        } else {
            self.session_handle
        }
    }

    /// Turns to another source. What is on display stays there until the new
    /// source has a frame. True where the frame shown before is shown again.
    pub fn open(&mut self, url: &str) -> (restore: bool)
        requires
            old(self).wf(),
        ensures
            final(self).wf(),
            final(self).url@ == url@,
            final(self).config == old(self).config,
            final(self).platform == old(self).platform,
            final(self).preview.refresh_requested,
            final(self).presentation == (DirectPresentation {
                has_presented_frame: false,
                ..old(self).presentation
            }).restarted(),
            final(self).android == old(self).android.reopened(),
            restore == (old(self).platform is Android && old(self).android.pending),
            final(self).playback == PlaybackFacts::at_start(),
            final(self).metadata is None,
            final(self).state is Loading,
            final(self).audio_tracks@.len() == 0,
            final(self).selected_audio_track_id is None,
            final(self).audio_track_selection_error is None,
            final(self).stream_generation == (if old(self).stream_generation == u64::MAX {
                u64::MAX
            } else {
                (old(self).stream_generation + 1) as u64
            }),
            final(self).show_subtitles == old(self).show_subtitles,
            match old(self).core {
                Some(_) => final(self).core matches Some(core) && is_new_core(
                    core,
                    url@,
                    old(self).platform,
                    old(self).config,
                ),
                None => final(self).core is None,
            },
            final(self).session_handle == old(self).restarted_handle(old(self).config),
            old(self).session_follows() ==> final(self).session_follows(),
    {
        self.preview.invalidate();
        self.audio_tracks = Vec::new();
        self.selected_audio_track_id = None;
        self.audio_track_selection_error = None;
        let restore: bool = match self.platform {
            Platform::Android => self.android.pending,
            _ => false,
        };
        self.android = self.android.reopened();
        self.stream_generation = if self.stream_generation == u64::MAX {
            u64::MAX
        } else {
            self.stream_generation + 1
        };
        if self.core.is_some() {
            self.core = Some(new_core(url, self.platform, &self.config));
        }
        if self.presentation.has_session {
            self.session_handle = Some(new_session_handle(&self.config));
        }
        self.url = url.to_owned();
        self.playback = PlaybackFacts::at_start();
        self.metadata = None;
        self.state = VideoState::Loading;
        self.presentation.has_presented_frame = false;
        self.presentation = self.presentation.restarted();
        restore
    }

    pub fn with_controls(self, show: bool) -> (player: Self)
        ensures
            player == (GpuiVideoPlayer {
                config: GpuiVideoPlayerConfig { show_controls: show, ..self.config },
                ..self
            }),
    {
        let mut player = self;
        player.config.show_controls = show;
        player
    }

    pub fn with_autoplay(self, autoplay: bool) -> (player: Self)
        ensures
            player == (GpuiVideoPlayer {
                config: GpuiVideoPlayerConfig { autoplay, ..self.config },
                ..self
            }),
    {
        let mut player = self;
        player.config.autoplay = autoplay;
        player
    }

    pub fn with_looping(self, looping: bool) -> (player: Self)
        ensures
            player == (GpuiVideoPlayer {
                config: GpuiVideoPlayerConfig { looping, ..self.config },
                ..self
            }),
    {
        let mut player = self;
        player.config.looping = looping;
        player
    }

    /// A player before and after it was muted or not.
    pub open spec fn muted_to(self, after: GpuiVideoPlayer, muted: bool) -> bool {
        &&& after == (GpuiVideoPlayer {
            config: GpuiVideoPlayerConfig { muted, ..self.config },
            core: after.core,
            session_handle: match self.session_handle {
                Some(handle) => Some(AudioHandle { muted, ..handle }),
                None => None,
            },
            ..self
        })
        &&& match self.core {
            Some(core) => after.core is Some && core.muted_to(after.core->0, muted),
            None => after.core is None,
        }
    }

    /// A player before and after its volume was set.
    pub open spec fn volume_set(self, after: GpuiVideoPlayer, volume: u32) -> bool {
        &&& after == (GpuiVideoPlayer {
            config: GpuiVideoPlayerConfig { volume: clamped_volume(volume), ..self.config },
            core: after.core,
            session_handle: match self.session_handle {
                Some(handle) => Some(AudioHandle { volume: clamped_volume(volume), ..handle }),
                None => None,
            },
            ..self
        })
        &&& match self.core {
            Some(core) => after.core is Some && core.volume_set(
                after.core->0,
                clamped_volume(volume),
            ),
            None => after.core is None,
        }
    }

    pub fn with_muted(self, muted: bool) -> (player: Self)
        requires
            self.wf(),
        ensures
            player.wf(),
            self.muted_to(player, muted),
            self.session_follows() ==> player.session_follows(),
    {
        let mut player = self;
        player.set_muted(muted);
        player
    }

    fn set_muted(&mut self, muted: bool)
        requires
            old(self).wf(),
        ensures
            final(self).wf(),
            old(self).muted_to(*final(self), muted),
            old(self).session_follows() ==> final(self).session_follows(),
    {
        self.config.muted = muted;
        match self.core.take() {
            Some(mut core) => {
                core.set_muted(muted);
                self.core = Some(core);
            },
            None => {},
        }
        if let Some(handle) = &mut self.session_handle {
            handle.set_muted(muted);
        }
    }

    pub fn with_volume(self, volume: u32) -> (player: Self)
        requires
            self.wf(),
        ensures
            player.wf(),
            self.volume_set(player, volume),
            self.session_follows() ==> player.session_follows(),
    {
        let mut player = self;
        player.set_volume(volume);
        player
    }

    pub fn set_volume(&mut self, volume: u32)
        requires
            old(self).wf(),
        ensures
            final(self).wf(),
            old(self).volume_set(*final(self), volume),
            old(self).session_follows() ==> final(self).session_follows(),
    {
        self.config.volume = clamped_volume(volume);
        match self.core.take() {
            Some(mut core) => {
                core.set_volume(self.config.volume);
                self.core = Some(core);
            },
            None => {},
        }
        if let Some(handle) = &mut self.session_handle {
            handle.set_volume(self.config.volume);
        }
    }

    /// Sets how long a change of the way of frames may last. A session is begun
    /// anew with it.
    pub fn with_lifecycle_timeout(self, timeout: Duration) -> (player: Self)
        ensures
            player == (GpuiVideoPlayer {
                config: GpuiVideoPlayerConfig { lifecycle_timeout: timeout, ..self.config },
                session_handle: self.restarted_handle(self.config),
                presentation: if self.presentation.has_session {
                    self.presentation.restarted()
                } else {
                    self.presentation
                },
                ..self
            }),
            self.session_follows() ==> player.session_follows(),
    {
        let mut player = self;
        player.config.lifecycle_timeout = timeout;
        if player.presentation.has_session {
            player.session_handle = Some(new_session_handle(&player.config));
            player.presentation = player.presentation.restarted();
        }
        player
    }

    /// Sets how long a source may take to open. A session is begun anew with it.
    pub fn with_open_timeout(self, timeout: Duration) -> (player: Self)
        ensures
            player == (GpuiVideoPlayer {
                config: GpuiVideoPlayerConfig { open_timeout: Some(timeout), ..self.config },
                session_handle: self.restarted_handle(self.config),
                presentation: if self.presentation.has_session {
                    self.presentation.restarted()
                } else {
                    self.presentation
                },
                ..self
            }),
            self.session_follows() ==> player.session_follows(),
    {
        let mut player = self;
        player.config.open_timeout = Some(timeout);
        if player.presentation.has_session {
            player.session_handle = Some(new_session_handle(&player.config));
            player.presentation = player.presentation.restarted();
        }
        player
    }

    /// The order that is to go to the session, where there is one and no core
    /// player.
    pub open spec fn for_session(self, order: SessionCommand) -> Option<SessionCommand> {
        if self.core is None && self.presentation.has_session {
            Some(order)
        } else {
            None
        }
    }

    /// A player before and after it was told to play.
    pub open spec fn played(
        self,
        after: GpuiVideoPlayer,
        order: Option<SessionCommand>,
        now: Instant,
    ) -> bool {
        &&& order == self.for_session(SessionCommand::Play)
        &&& after == (GpuiVideoPlayer { core: after.core, ..self })
        &&& match self.core {
            Some(core) => after.core is Some && core.played(
                after.core->0,
                core.audio().muted,
                now,
            ),
            None => after.core is None,
        }
    }

    /// A player before and after it was told to pause.
    pub open spec fn paused(
        self,
        after: GpuiVideoPlayer,
        order: Option<SessionCommand>,
        now: Instant,
    ) -> bool {
        &&& order == self.for_session(SessionCommand::Pause)
        &&& after == (GpuiVideoPlayer { core: after.core, ..self })
        &&& match self.core {
            Some(core) => after.core is Some && core.paused(after.core->0, now),
            None => after.core is None,
        }
    }

    /// A player before and after its play button was pressed.
    pub open spec fn toggled(
        self,
        after: GpuiVideoPlayer,
        order: Option<SessionCommand>,
        now: Instant,
    ) -> bool {
        match self.state {
            VideoState::Playing { .. } => self.paused(after, order, now),
            VideoState::Paused { .. } | VideoState::Ready | VideoState::Ended => self.played(
                after,
                order,
                now,
            ),
            _ => after == self && order is None,
        }
    }

    /// A player before and after it was told to go to a position.
    pub open spec fn sought(
        self,
        after: GpuiVideoPlayer,
        sought: (Option<SessionCommand>, bool),
        position: Duration,
        unix_us: u64,
    ) -> bool {
        &&& sought.0 == self.for_session(SessionCommand::Seek { position })
        &&& sought.1 == (self.platform is Android && self.android.pending)
        &&& after == (GpuiVideoPlayer {
            core: after.core,
            preview: PreviewState { refresh_requested: true },
            android: if self.platform is Android {
                self.android.after_reset()
            } else {
                self.android
            },
            ..self
        })
        &&& match self.core {
            Some(core) => after.core is Some && core.sought(after.core->0, position, unix_us),
            None => after.core is None,
        }
    }

    /// Starts or resumes playback: here, or by the order that is to go to the
    /// session.
    pub fn play(&mut self, now: Instant) -> (order: Option<SessionCommand>)
        requires
            old(self).wf(),
        ensures
            final(self).wf(),
            old(self).played(*final(self), order, now),
    {
        match self.core.take() {
            Some(mut core) => {
                core.play(now);
                self.core = Some(core);
                None
            },
            None => if self.presentation.has_session {
                Some(SessionCommand::Play)
            } else {
                None
            },
        }
    }

    pub fn pause(&mut self, now: Instant) -> (order: Option<SessionCommand>)
        requires
            old(self).wf(),
        ensures
            final(self).wf(),
            old(self).paused(*final(self), order, now),
    {
        match self.core.take() {
            Some(mut core) => {
                core.pause(now);
                self.core = Some(core);
                None
            },
            None => if self.presentation.has_session {
                Some(SessionCommand::Pause)
            } else {
                None
            },
        }
    }

    /// Pauses what plays, and plays what is paused, ready or at its end.
    pub fn toggle_playback(&mut self, now: Instant) -> (order: Option<SessionCommand>)
        requires
            old(self).wf(),
        ensures
            final(self).wf(),
            old(self).toggled(*final(self), order, now),
    {
        match &self.state {
            VideoState::Playing { .. } => self.pause(now),
            VideoState::Paused { .. } | VideoState::Ready | VideoState::Ended => self.play(now),
            _ => None,
        }
    }

    /// Goes to a position: here, or by the order that is to go to the session.
    /// A frame is shown even if nothing plays. True where the frame shown before
    /// is shown again.
    pub fn seek(&mut self, position: Duration, unix_us: u64) -> (sought: (
        Option<SessionCommand>,
        bool,
    ))
        requires
            old(self).wf(),
        ensures
            final(self).wf(),
            old(self).sought(*final(self), sought, position, unix_us),
    {
        self.preview.invalidate();
        let restore: bool = match self.platform {
            Platform::Android => self.android.reset(),
            _ => false,
        };
        match self.core.take() {
            Some(mut core) => {
                core.seek(position, unix_us);
                self.core = Some(core);
                (None, restore)
            },
            None => if self.presentation.has_session {
                (Some(SessionCommand::Seek { position }), restore)
            } else {
                (None, restore)
            },
        }
    }

    /// The state once the session has taken an order.
    pub open spec fn ordered(self, order: SessionCommand, was_ended: bool) -> GpuiVideoPlayer {
        match order {
            SessionCommand::Seek { .. } => GpuiVideoPlayer {
                presentation: self.presentation.invalidated(),
                ..self
            },
            SessionCommand::Play if was_ended => GpuiVideoPlayer {
                presentation: self.presentation.invalidated(),
                ..self
            },
            SessionCommand::SelectAudioTrack { .. } => GpuiVideoPlayer {
                audio_track_selection_error: None,
                ..self
            },
            _ => self,
        }
    }

    /// Takes in that the session has taken an order. A seek makes imports under
    /// way worthless; so does playing a session that was at its end, which begins
    /// anew.
    pub fn order_accepted(&mut self, order: &SessionCommand, was_ended: bool)
        ensures
            *final(self) == old(self).ordered(*order, was_ended),
    {
        match order {
            SessionCommand::Seek { .. } => {
                self.presentation = self.presentation.invalidated();
            },
            SessionCommand::Play => {
                if was_ended {
                    self.presentation = self.presentation.invalidated();
                }
            },
            SessionCommand::SelectAudioTrack { .. } => {
                self.audio_track_selection_error = None;
            },
            _ => {},
        }
    }

    pub fn audio_tracks(&self) -> (tracks: &[AudioTrack])
        ensures
            tracks@ == self.audio_tracks@,
    {
        self.audio_tracks.as_slice()
    }

    /// The track that the session confirmed last; an order alone does not change
    /// it.
    pub fn selected_audio_track_id(&self) -> (id: Option<&str>)
        ensures
            match self.selected_audio_track_id {
                Some(selected) => id is Some && id->0@ == selected@,
                None => id is None,
            },
    {
        match &self.selected_audio_track_id {
            Some(id) => Some(id.as_str()),
            None => None,
        }
    }

    /// What went wrong with the last selection.
    pub fn audio_track_selection_error(&self) -> (error: Option<&str>)
        ensures
            match self.audio_track_selection_error {
                Some(complaint) => error is Some && error->0@ == complaint@,
                None => error is None,
            },
    {
        match &self.audio_track_selection_error {
            Some(complaint) => Some(complaint.as_str()),
            None => None,
        }
    }

    /// The order to the session for another track. Without a session there is
    /// none to choose.
    pub fn select_audio_track(&self, id: String) -> (order: Result<SessionCommand, SessionError>)
        ensures
            if self.presentation.has_session {
                order == Ok::<SessionCommand, SessionError>(
                    SessionCommand::SelectAudioTrack { id },
                )
            } else {
                &&& order is Err
                &&& order->Err_0 is Unsupported
                &&& order->Err_0->Unsupported_0@
                    == "audio track selection is unavailable for this backend"@
            },
    {
        if self.presentation.has_session {
            Ok(SessionCommand::SelectAudioTrack { id })
        } else {
            Err(
                SessionError::Unsupported(
                    "audio track selection is unavailable for this backend".to_owned(),
                ),
            )
        }
    }

    pub fn toggle_mute(&mut self)
        requires
            old(self).wf(),
        ensures
            final(self).wf(),
            old(self).muted_to(*final(self), !old(self).config.muted),
            old(self).session_follows() ==> final(self).session_follows(),
    {
        self.set_muted(!self.config.muted);
    }

    pub fn toggle_subtitles(&mut self)
        ensures
            *final(self) == (GpuiVideoPlayer {
                show_subtitles: !old(self).show_subtitles,
                ..*old(self)
            }),
    {
        self.show_subtitles = !self.show_subtitles;
    }

    pub fn set_subtitles_visible(&mut self, visible: bool)
        ensures
            *final(self) == (GpuiVideoPlayer { show_subtitles: visible, ..*old(self) }),
    {
        self.show_subtitles = visible;
    }

    pub fn position(&self) -> (position: Duration)
        ensures
            position == self.playback.position,
    {
        self.playback.position
    }

    pub fn duration(&self) -> (duration: Option<Duration>)
        ensures
            duration == self.playback.duration,
    {
        self.playback.duration
    }

    pub fn metadata(&self) -> (metadata: Option<&VideoMetadata>)
        ensures
            metadata == (match self.metadata {
                Some(metadata) => Some(&metadata),
                None => None,
            }),
    {
        self.metadata.as_ref()
    }

    #[verifier::allow_in_spec]
    pub fn is_playing(&self) -> bool
        returns
            self.state is Playing,
    {
        match &self.state {
            VideoState::Playing { .. } => true,
            _ => false,
        }
    }

    pub fn is_ready(&self) -> (ready: bool)
        ensures
            ready == self.playback.initialized,
    {
        self.playback.initialized
    }

    pub fn is_muted(&self) -> (muted: bool)
        ensures
            muted == self.config.muted,
    {
        self.config.muted
    }

    pub fn volume(&self) -> (volume: u32)
        ensures
            volume == self.config.volume,
    {
        self.config.volume
    }

    pub fn is_ended(&self) -> (ended: bool)
        ensures
            ended == (self.state is Ended),
    {
        match &self.state {
            VideoState::Ended => true,
            _ => false,
        }
    }

    pub fn is_error(&self) -> (error: bool)
        ensures
            error == (self.state is Error),
    {
        match &self.state {
            VideoState::Error(_) => true,
            _ => false,
        }
    }

    pub fn state(&self) -> (state: &VideoState)
        ensures
            *state == self.state,
    {
        &self.state
    }

    pub fn url(&self) -> (url: &str)
        ensures
            url@ == self.url@,
    {
        self.url.as_str()
    }

    pub fn buffering_percent(&self) -> (percent: i32)
        ensures
            percent == self.playback.buffering_percent,
    {
        self.playback.buffering_percent
    }

    /// The size of the picture: that of the core player, where there is one.
    pub fn dimensions(&self) -> (dimensions: Option<Dimensions>)
        ensures
            dimensions == (match self.core {
                Some(core) => if core.decoding && core.decode.facts.dimensions is Some {
                    core.decode.facts.dimensions
                } else {
                    match core.metadata {
                        Some(metadata) => Some(
                            Dimensions { width: metadata.width, height: metadata.height },
                        ),
                        None => None,
                    }
                },
                None => match self.metadata {
                    Some(metadata) => Some(
                        Dimensions { width: metadata.width, height: metadata.height },
                    ),
                    None => None,
                },
            }),
    {
        match &self.core {
            Some(core) => core.dimensions(),
            None => match &self.metadata {
                Some(metadata) => Some(
                    Dimensions { width: metadata.width, height: metadata.height },
                ),
                None => None,
            },
        }
    }

    /// The bits of the frame rate.
    pub fn frame_rate(&self) -> (bits: Option<u32>)
        ensures
            bits == (match self.core {
                Some(core) => if core.decoding && core.decode.facts.frame_rate_bits is Some {
                    core.decode.facts.frame_rate_bits
                } else {
                    match core.metadata {
                        Some(metadata) => Some(metadata.frame_rate_bits),
                        None => None,
                    }
                },
                None => match self.metadata {
                    Some(metadata) => Some(metadata.frame_rate_bits),
                    None => None,
                },
            }),
    {
        match &self.core {
            Some(core) => core.frame_rate(),
            None => match &self.metadata {
                Some(metadata) => Some(metadata.frame_rate_bits),
                None => None,
            },
        }
    }

    /// How far playback has come, for a bar that is full at the end of the stream.
    /// Empty where the end is not known.
    #[verifier::allow_in_spec]
    pub fn seek_progress(&self) -> SeekProgress
        returns
            (match self.playback.duration {
                Some(duration) if !duration.is_zero() => SeekProgress {
                    part: self.playback.position.shorter(duration),
                    whole: duration,
                },
                _ => SeekProgress { part: Duration::zero(), whole: Duration::from_secs(1) },
            }),
    {
        match self.playback.duration {
            Some(duration) => if !duration.is_zero() {
                SeekProgress { part: self.playback.position.shorter(duration), whole: duration }
            } else {
                SeekProgress { part: Duration::zero(), whole: Duration::from_secs(1) }
            },
            None => SeekProgress { part: Duration::zero(), whole: Duration::from_secs(1) },
        }
    }

    /// The volume and the mute switch: of the core player, or else of the session.
    pub fn audio_handle(&self) -> (handle: Option<&AudioHandle>)
        requires
            self.core matches Some(core) ==> core.wf(),
        ensures
            match self.core {
                Some(core) => handle is Some && *handle->0 == core.audio(),
                None => match self.session_handle {
                    Some(own) => handle is Some && *handle->0 == own,
                    None => handle is None,
                },
            },
    {
        match &self.core {
            Some(core) => Some(core.audio_handle()),
            None => self.session_handle.as_ref(),
        }
    }

    /// The volume and the mute switch, to change them.
    pub fn audio_handle_mut(&mut self) -> (handle: Option<&mut AudioHandle>)
        requires
            old(self).core matches Some(core) ==> core.wf(),
        ensures
            match old(self).core {
                Some(core) => {
                    &&& handle is Some
                    &&& *handle->0 == core.audio()
                    &&& *final(self) == (GpuiVideoPlayer {
                        core: Some(core.with_audio(*final(handle->0))),
                        ..*old(self)
                    })
                },
                None => match old(self).session_handle {
                    Some(own) => {
                        &&& handle is Some
                        &&& *handle->0 == own
                        &&& *final(self) == (GpuiVideoPlayer {
                            session_handle: Some(*final(handle->0)),
                            ..*old(self)
                        })
                    },
                    None => handle is None && *final(self) == *old(self),
                },
            },
    {
        match &mut self.core {
            Some(core) => Some(core.audio_handle_mut()),
            None => match &mut self.session_handle {
                Some(own) => Some(own),
                None => None,
            },
        }
    }

    /// True where the session is as loud, and as mute, as the player is set to be.
    /// Each method of the player keeps this; a change through the handle may end it.
    pub open spec fn session_follows(self) -> bool {
        &&& self.session_handle is Some <==> self.presentation.has_session
        &&& self.session_handle matches Some(handle) ==> handle.muted == self.config.muted
            && handle.volume == clamped_volume(self.config.volume)
    }

    /// What the session is to be told of its audio: whether it is muted, and its
    /// volume.
    pub fn session_audio(&self) -> (audio: Option<(bool, u32)>)
        ensures
            audio == (match self.session_handle {
                Some(handle) => Some((handle.muted, handle.volume)),
                None => None::<(bool, u32)>,
            }),
            self.session_follows() ==> audio == (if self.presentation.has_session {
                Some((self.config.muted, clamped_volume(self.config.volume)))
            } else {
                None::<(bool, u32)>
            }),
    {
        match &self.session_handle {
            Some(handle) => Some((handle.muted, handle.volume)),
            None => None,
        }
    }

    /// What the surface shows. `external` says whether a shared frame is in hand;
    /// `textures` whether there are uploaded ones, and whether they are in NV12.
    #[verifier::allow_in_spec]
    pub fn surface_source(&self, external: bool, textures: Option<bool>) -> SurfaceSource
        returns
            (if self.platform is Linux && external {
                SurfaceSource::External
            } else {
                match textures {
                    Some(true) => SurfaceSource::Nv12,
                    Some(false) => SurfaceSource::Rgba,
                    None => SurfaceSource::Black,
                }
            }),
    {
        let shared: bool = match self.platform {
            Platform::Linux => external,
            _ => false,
        };
        if shared {
            SurfaceSource::External
        } else {
            match textures {
                Some(true) => SurfaceSource::Nv12,
                Some(false) => SurfaceSource::Rgba,
                None => SurfaceSource::Black,
            }
        }
    }

    /// How the frame on display reached the screen. `textures` says whether there
    /// is one, and whether it is in NV12.
    pub fn frame_realization(&self, textures: Option<bool>) -> (realization: Option<
        FrameRealization,
    >)
        ensures
            realization == (match self.platform {
                Platform::Linux => self.presentation.frame_realization,
                Platform::Android => match textures {
                    Some(is_nv12) => Some(
                        self.android.frame_realization(
                            self.core is Some && self.core->0.android_player_id != 0,
                            is_nv12,
                        ),
                    ),
                    None => None,
                },
                _ => None,
            }),
    {
        match self.platform {
            Platform::Linux => self.presentation.frame_realization,
            Platform::Android => match textures {
                Some(is_nv12) => {
                    let hardware: bool = match &self.core {
                        Some(core) => core.android_player_id() != 0,
                        None => false,
                    };
                    Some(self.android.frame_realization(hardware, is_nv12))
                },
                None => None,
            },
            _ => None,
        }
    }

    /// The tier of the frames, where it is known.
    pub fn capability(&self, textures: Option<bool>) -> (tier: Option<CapabilityTier>)
        ensures
            tier == (match self.platform {
                Platform::Linux => Some(self.presentation.capability()),
                Platform::Android => match textures {
                    Some(is_nv12) => Some(
                        self.android.frame_realization(
                            self.core is Some && self.core->0.android_player_id != 0,
                            is_nv12,
                        ).capability_tier(),
                    ),
                    None => None,
                },
                _ => None,
            }),
    {
        match self.platform {
            Platform::Linux => Some(self.presentation.capability()),
            _ => match self.frame_realization(textures) {
                Some(realization) => Some(realization.capability_tier()),
                None => None,
            },
        }
    }

    /// What the renderer said last, by the session's account.
    #[verifier::allow_in_spec]
    pub fn latest_renderer_outcome(&self, reported: Option<RendererOutcome>) -> Option<
        RendererOutcome,
    >
        returns
            (if self.presentation.has_session {
                reported
            } else {
                None::<RendererOutcome>
            }),
    {
        if self.presentation.has_session {
            reported
        } else {
            None
        }
    }

    /// Why a tier was left last, by the session's account.
    #[verifier::allow_in_spec]
    pub fn latest_downgrade_reason(&self, reported: Option<CapabilityDowngradeReason>) -> Option<
        CapabilityDowngradeReason,
    >
        returns
            (if self.presentation.has_session {
                reported
            } else {
                None::<CapabilityDowngradeReason>
            }),
    {
        if self.presentation.has_session {
            reported
        } else {
            None
        }
    }

    /// Lets go of the frames that the renderer holds, before the player is replaced
    /// or dropped. Gives whether the renderer is to be told, and whether the frame
    /// shown before is shown again.
    pub fn retire_external_frame(&mut self) -> (retired: (bool, bool))
        ensures
            match old(self).platform {
                Platform::Linux => {
                    &&& retired == (old(self).presentation.owns_external_frame(), false)
                    &&& *final(self) == (GpuiVideoPlayer {
                        presentation: old(self).presentation.retired(),
                        ..*old(self)
                    })
                },
                Platform::Android => {
                    &&& retired == (old(self).android.owns_external_frame(), old(
                        self,
                    ).android.pending)
                    &&& *final(self) == (GpuiVideoPlayer {
                        android: AndroidImport {
                            retirement_pending: false,
                            ..old(self).android.after_reset()
                        },
                        preview: PreviewState { refresh_requested: true },
                        ..*old(self)
                    })
                },
                _ => retired == (false, false) && *final(self) == *old(self),
            },
    {
        match self.platform {
            Platform::Linux => (self.presentation.retire_external_frame(), false),
            Platform::Android => {
                self.preview.invalidate();
                self.android.retire()
            },
            _ => (false, false),
        }
    }

    /// The subtitle that is shown, of the one that belongs to the position.
    pub fn subtitle_overlay<'a>(&self, cue: Option<&'a str>) -> (shown: Option<&'a str>)
        ensures
            shown == (if self.show_subtitles {
                cue
            } else {
                None::<&'a str>
            }),
    {
        if self.show_subtitles {
            cue
        } else {
            None
        }
    }

    fn show_feedback(&mut self, feedback: &Feedback, session_error: &str)
        ensures
            state_after_feedback(
                old(self).state,
                final(self).state,
                *feedback,
                session_error@,
            ),
            *final(self) == (GpuiVideoPlayer { state: final(self).state, ..*old(self) }),
    {
        if let Some(failure) = feedback.failure {
            self.state = VideoState::Error(VideoError::Generic(failure.text(session_error)));
        }
    }

    /// A player before and after a step of presentation: its outcome is taken over,
    /// and a failure is shown.
    pub open spec fn fed(
        self,
        after: GpuiVideoPlayer,
        outcome: (DirectPresentation, Feedback),
        session_error: Seq<char>,
    ) -> bool {
        &&& after.presentation == outcome.0
        &&& state_after_feedback(self.state, after.state, outcome.1, session_error)
        &&& after.same_source(self)
    }

    /// What a step down to system memory comes to.
    pub open spec fn disabling(
        self,
        outcome: RendererOutcome,
        reason: CapabilityDowngradeReason,
        now: Instant,
    ) -> (DirectPresentation, Feedback) {
        self.presentation.stepping_down(
            active_playback_state(&self.state),
            self.config.lifecycle_timeout,
            Some(outcome),
            reason,
            true,
            now,
        )
    }

    /// Steps down to frames in system memory, by order to the session.
    pub fn disable_direct_import(
        &mut self,
        outcome: RendererOutcome,
        reason: CapabilityDowngradeReason,
        now: Instant,
    ) -> (feedback: Feedback)
        ensures
            feedback == old(self).disabling(outcome, reason, now).1,
            old(self).fed(
                *final(self),
                old(self).disabling(outcome, reason, now),
                Seq::<char>::empty(),
            ),
    {
        let feedback: Feedback = self.presentation.begin_system_memory_downgrade(
            active_playback_state(&self.state),
            self.config.lifecycle_timeout,
            Some(outcome),
            reason,
            true,
            now,
        );
        self.show_feedback(&feedback, no_text());
        feedback
    }

    /// What it comes to that the session would not give frames in system memory.
    pub open spec fn rejecting(self, reason: CapabilityDowngradeReason) -> (
        DirectPresentation,
        Feedback,
    ) {
        self.presentation.failing(Some(reason), PresentationFailure::DowngradeRejected)
    }

    /// The session would not give frames in system memory.
    pub fn renegotiation_rejected(&mut self, reason: CapabilityDowngradeReason) -> (feedback:
        Feedback)
        ensures
            feedback == old(self).rejecting(reason).1,
            old(self).fed(*final(self), old(self).rejecting(reason), Seq::<char>::empty()),
    {
        let feedback: Feedback = self.presentation.renegotiation_rejected(reason);
        self.show_feedback(&feedback, no_text());
        feedback
    }

    /// What the report of the session on its frames comes to.
    pub open spec fn watching(self, reported: Option<CapabilityDowngradeReason>, now: Instant) -> (
        DirectPresentation,
        Feedback,
    ) {
        match reported {
            Some(reason) if self.presentation.transition == PresentationTransition::Direct
                && ends_sharing(reason) => self.presentation.stepping_down(
                active_playback_state(&self.state),
                self.config.lifecycle_timeout,
                None,
                reason,
                false,
                now,
            ),
            _ => (self.presentation, Feedback::nothing()),
        }
    }

    /// Steps down where the session says that its frames cannot be shared.
    pub fn observe_worker_downgrade(
        &mut self,
        reported: Option<CapabilityDowngradeReason>,
        now: Instant,
    ) -> (feedback: Feedback)
        ensures
            feedback == old(self).watching(reported, now).1,
            old(self).fed(*final(self), old(self).watching(reported, now), Seq::<char>::empty()),
    {
        let feedback: Feedback = self.presentation.observe_worker_downgrade(
            reported,
            active_playback_state(&self.state),
            self.config.lifecycle_timeout,
            now,
        );
        self.show_feedback(&feedback, no_text());
        feedback
    }

    /// What the time for a step down comes to.
    pub open spec fn timing_out(self, now: Instant) -> (DirectPresentation, Feedback) {
        if self.presentation.transition == PresentationTransition::Downgrading
            && downgrade_budget_expired(
            active_playback_state(&self.state),
            self.presentation.budget.deadline,
            now,
        ) {
            self.presentation.failing(
                Some(CapabilityDowngradeReason::TransitionTimeout),
                PresentationFailure::TimedOut,
            )
        } else {
            (self.presentation, Feedback::nothing())
        }
    }

    /// Ends presentation where a step down has taken too long.
    pub fn check_presentation_transition_timeout(&mut self, now: Instant) -> (feedback: Feedback)
        ensures
            feedback == old(self).timing_out(now).1,
            old(self).fed(*final(self), old(self).timing_out(now), Seq::<char>::empty()),
    {
        let feedback: Feedback = self.presentation.check_presentation_transition_timeout(
            active_playback_state(&self.state),
            now,
        );
        self.show_feedback(&feedback, no_text());
        feedback
    }

    /// What the answer of the renderer to a shared frame comes to.
    pub open spec fn answering(
        self,
        outcome: ExternalFrameOutcome,
        decode: Option<DecodeMode>,
        now: Instant,
    ) -> (DirectPresentation, Feedback) {
        self.presentation.answered(
            outcome,
            decode,
            active_playback_state(&self.state),
            self.config.lifecycle_timeout,
            now,
        )
    }

    /// Takes in the answer of the renderer to a shared frame.
    pub fn poll_external_outcome(
        &mut self,
        outcome: ExternalFrameOutcome,
        decode: Option<DecodeMode>,
        now: Instant,
    ) -> (feedback: Feedback)
        ensures
            feedback == old(self).answering(outcome, decode, now).1,
            old(self).fed(
                *final(self),
                old(self).answering(outcome, decode, now),
                Seq::<char>::empty(),
            ),
    {
        let feedback: Feedback = self.presentation.poll_external_outcome(
            outcome,
            decode,
            active_playback_state(&self.state),
            self.config.lifecycle_timeout,
            now,
        );
        self.show_feedback(&feedback, no_text());
        feedback
    }

    /// What the first answer to a shared frame comes to: whether it was taken up.
    pub open spec fn staging(self, outcome: ExternalFrameOutcome, now: Instant) -> (
        DirectPresentation,
        Feedback,
    ) {
        self.presentation.staging(
            outcome,
            active_playback_state(&self.state),
            self.config.lifecycle_timeout,
            now,
        )
    }

    /// Takes in the first answer to a shared frame.
    pub fn stage_imported_frame(&mut self, outcome: ExternalFrameOutcome, now: Instant) -> (feedback:
        Feedback)
        ensures
            feedback == old(self).staging(outcome, now).1,
            old(self).fed(*final(self), old(self).staging(outcome, now), Seq::<char>::empty()),
    {
        let feedback: Feedback = self.presentation.staged(
            outcome,
            active_playback_state(&self.state),
            self.config.lifecycle_timeout,
            now,
        );
        self.show_feedback(&feedback, no_text());
        feedback
    }

    /// Takes in what became of the frame that waited to be uploaded. With the
    /// feedback comes whether the renderer is to let go of shared frames.
    pub fn finish_upload(
        &mut self,
        upload: UploadOutcome,
        decode: Option<DecodeMode>,
        is_yuv: bool,
    ) -> (finished: (Feedback, bool))
        ensures
            finished.0 == old(self).presentation.after_upload(upload, decode, is_yuv).1,
            finished.1 == old(self).presentation.upload_releases(upload, decode),
            old(self).fed(
                *final(self),
                old(self).presentation.after_upload(upload, decode, is_yuv),
                Seq::<char>::empty(),
            ),
    {
        let (feedback, tell) = self.presentation.finish_upload(upload, decode, is_yuv);
        self.show_feedback(&feedback, no_text());
        (feedback, tell)
    }

    /// The state with another state of playback, which a step down follows.
    pub open spec fn with_state(self, state: VideoState, now: Instant) -> GpuiVideoPlayer {
        GpuiVideoPlayer {
            state,
            presentation: if self.presentation.transition == PresentationTransition::Downgrading {
                DirectPresentation {
                    budget: sync_downgrade_budget(
                        active_playback_state(&state),
                        self.presentation.budget,
                        now,
                    ),
                    ..self.presentation
                }
            } else {
                self.presentation
            },
            ..self
        }
    }

    fn set_video_state(&mut self, state: VideoState, now: Instant)
        ensures
            *final(self) == old(self).with_state(state, now),
    {
        let active: bool = active_playback_state(&state);
        self.state = state;
        self.presentation.follow_playback(active, now);
    }

    /// A player before and after the session reported an error. While a step down
    /// is under way any error ends presentation; else only a fatal one does, and
    /// not one that is merely returned.
    pub open spec fn failed(
        self,
        error: SessionError,
        is_event: bool,
        after: GpuiVideoPlayer,
        feedback: Feedback,
        now: Instant,
    ) -> bool {
        let shown = self.with_state(VideoState::Error(shown_error(error)), now);
        let ends = self.presentation.transition == PresentationTransition::Downgrading || (is_event
            && error is Fatal);
        &&& (after.presentation, feedback) == (if ends {
            shown.presentation.failing(None, PresentationFailure::SessionFailed)
        } else {
            (shown.presentation, Feedback::nothing())
        })
        &&& state_after_feedback(
            shown.state,
            after.state,
            feedback,
            error.prefix() + error.detail(),
        )
        &&& after.same_source(self)
    }

    fn session_failed(&mut self, error: &SessionError, is_event: bool, now: Instant) -> (feedback:
        Feedback)
        ensures
            old(self).failed(*error, is_event, *final(self), feedback, now),
    {
        let downgrading: bool = self.presentation.transition == PresentationTransition::Downgrading;
        self.set_video_state(VideoState::Error(video_error(error)), now);
        let fatal: bool = match error {
            SessionError::Fatal(_) => is_event,
            _ => false,
        };
        if downgrading || fatal {
            let feedback: Feedback = self.presentation.fail_presentation_transition(
                None,
                PresentationFailure::SessionFailed,
            );
            let text: String = error.text();
            self.show_feedback(&feedback, text.as_str());
            feedback
        } else {
            Feedback::nothing()
        }
    }

    /// What a failed selection is shown as.
    pub open spec fn selection_complaint(requested_id: Seq<char>, reason: Seq<char>) -> Seq<char> {
        requested_id + ": "@ + reason
    }

    /// A player before and after an event of its session.
    pub open spec fn told<F>(
        self,
        event: SessionEvent<F>,
        after: GpuiVideoPlayer,
        outcome: EventOutcome<F>,
        now: Instant,
    ) -> bool {
        let quiet = outcome.frame is None && !outcome.play && outcome.feedback
            == Feedback::nothing();
        let loading = GpuiVideoPlayer {
            playback: PlaybackFacts { loading_started: true, ..self.playback },
            ..self
        };
        match event {
            SessionEvent::Metadata { metadata } => quiet && after == (GpuiVideoPlayer {
                metadata: Some(metadata),
                playback: PlaybackFacts {
                    duration: metadata.duration,
                    buffering_percent: 100,
                    ..loading.playback
                },
                ..self
            }),
            SessionEvent::AudioTracks { tracks, selected_id } => quiet && after == (
            GpuiVideoPlayer {
                audio_tracks: tracks,
                selected_audio_track_id: selected_id,
                ..loading
            }),
            SessionEvent::AudioTrackSelected { track } => quiet && after == (GpuiVideoPlayer {
                selected_audio_track_id: Some(track.id),
                audio_track_selection_error: None,
                ..loading
            }),
            SessionEvent::AudioTrackSelectionFailed {
                requested_id,
                prior_restored_id,
                reason,
            } => {
                &&& quiet
                &&& after.audio_track_selection_error matches Some(complaint) && complaint@
                    == Self::selection_complaint(requested_id@, reason@)
                &&& after == (GpuiVideoPlayer {
                    selected_audio_track_id: prior_restored_id,
                    audio_track_selection_error: after.audio_track_selection_error,
                    ..loading
                })
            },
            SessionEvent::StateChanged { state } => {
                let becomes_ready = !self.playback.initialized && state is Ready;
                let shown = loading.with_state(shown_state(state), now);
                &&& outcome.frame is None
                &&& outcome.feedback == Feedback::nothing()
                &&& outcome.play == (becomes_ready && self.config.autoplay)
                &&& after == (GpuiVideoPlayer {
                    playback: PlaybackFacts {
                        initialized: self.playback.initialized || becomes_ready,
                        ..shown.playback
                    },
                    ..shown
                })
            },
            SessionEvent::Frame { pts, frame } => {
                &&& outcome.frame == Some(frame)
                &&& !outcome.play
                &&& outcome.feedback == Feedback::nothing()
                &&& after == (GpuiVideoPlayer {
                    playback: PlaybackFacts {
                        position: pts,
                        loop_seek_pending: false,
                        ..loading.playback
                    },
                    presentation: DirectPresentation {
                        has_presented_frame: true,
                        ..self.presentation
                    },
                    ..self
                })
            },
            SessionEvent::Ended => quiet && after == loading.with_state(VideoState::Ended, now),
            SessionEvent::Error(error) => {
                &&& outcome.frame is None
                &&& !outcome.play
                &&& loading.failed(error, true, after, outcome.feedback, now)
            },
        }
    }

    /// Takes in one event of the session.
    #[verifier::rlimit(60)]
    #[verifier::spinoff_prover]
    pub fn handle_event<F>(&mut self, event: SessionEvent<F>, now: Instant) -> (outcome:
        EventOutcome<F>)
        ensures
            old(self).told(event, *final(self), outcome, now),
    {
        self.playback.loading_started = true;
        let mut outcome: EventOutcome<F> = EventOutcome {
            frame: None,
            feedback: Feedback::nothing(),
            play: false,
        };
        match event {
            SessionEvent::Metadata { metadata } => {
                self.playback.duration = metadata.duration;
                self.metadata = Some(metadata);
                self.playback.buffering_percent = 100;
            },
            SessionEvent::AudioTracks { tracks, selected_id } => {
                self.audio_tracks = tracks;
                self.selected_audio_track_id = selected_id;
            },
            SessionEvent::AudioTrackSelected { track } => {
                self.selected_audio_track_id = Some(track.id);
                self.audio_track_selection_error = None;
            },
            SessionEvent::AudioTrackSelectionFailed {
                requested_id,
                prior_restored_id,
                reason,
            } => {
                self.selected_audio_track_id = prior_restored_id;
                let mut complaint: String = requested_id;
                complaint.append(": ");
                complaint.append(reason.as_str());
                self.audio_track_selection_error = Some(complaint);
            },
            SessionEvent::StateChanged { state } => {
                self.set_video_state(video_state(&state), now);
                if !self.playback.initialized {
                    if let SessionState::Ready = state {
                        self.playback.initialized = true;
                        outcome.play = self.config.autoplay;
                    }
                }
            },
            SessionEvent::Frame { pts, frame } => {
                self.playback.position = pts;
                self.presentation.has_presented_frame = true;
                self.playback.loop_seek_pending = false;
                outcome.frame = Some(frame);
            },
            SessionEvent::Ended => {
                self.set_video_state(VideoState::Ended, now);
            },
            SessionEvent::Error(error) => {
                outcome.feedback = self.session_failed(&error, true, now);
            },
        }
        outcome
    }

    /// Takes in that the session could not be asked for its next event.
    pub fn handle_poll_error(&mut self, error: &SessionError, now: Instant) -> (feedback: Feedback)
        ensures
            old(self).failed(*error, false, *final(self), feedback, now),
    {
        self.session_failed(error, false, now)
    }

    /// Begins a loop where the session has come to its end and one is wanted. The
    /// caller then seeks to the beginning and plays.
    pub fn begin_session_loop(&mut self) -> (begins: bool)
        ensures
            begins == (old(self).state is Ended && old(self).config.looping && !old(
                self,
            ).playback.loop_seek_pending),
            *final(self) == (GpuiVideoPlayer {
                playback: PlaybackFacts {
                    loop_seek_pending: old(self).playback.loop_seek_pending || begins,
                    ..old(self).playback
                },
                ..*old(self)
            }),
    {
        if end_step(
            self.is_ended(),
            self.config.looping,
            self.playback.loop_seek_pending,
        ) == EndStep::Loop {
            self.playback.loop_seek_pending = true;
            true
        } else {
            false
        }
    }

    /// A player before and after the opening of its source began.
    pub open spec fn init_started(
        self,
        after: GpuiVideoPlayer,
        choice: Option<DecoderChoice>,
    ) -> bool {
        let begins = !self.playback.loading_started && self.core is Some
            && !self.core->0.startup.initialized && !self.core->0.startup.init_thread;
        &&& choice is Some == begins
        &&& begins ==> first_choice(self.core->0.platform, self.core->0.url@, choice->0)
        &&& after == (GpuiVideoPlayer {
            playback: PlaybackFacts { loading_started: true, ..self.playback },
            core: if begins {
                Some(
                    CorePlayer {
                        startup: Startup {
                            init_thread: true,
                            init_promise: true,
                            ..self.core->0.startup
                        },
                        ..self.core->0
                    },
                )
            } else {
                self.core
            },
            ..self
        })
    }

    /// Begins to open the source, where that was not done. Says which decoder is
    /// tried first.
    pub fn start_async_init(&mut self) -> (choice: Option<DecoderChoice>)
        requires
            old(self).wf(),
        ensures
            final(self).wf(),
            old(self).init_started(*final(self), choice),
    {
        if self.playback.loading_started {
            return None;
        }
        self.playback.loading_started = true;
        match self.core.take() {
            Some(mut core) => {
                let choice: Option<DecoderChoice> = core.init_decoder();
                self.core = Some(core);
                choice
            },
            None => None,
        }
    }

    /// A player before and after it took in how far the opening of its source has
    /// come. A source that has just become ready is played where that is wanted.
    pub open spec fn init_advanced(
        self,
        after: GpuiVideoPlayer,
        event: InitEvent,
        now: Instant,
    ) -> bool {
        if self.playback.initialized || self.core is None {
            after == self
        } else {
            let core = self.core->0;
            &&& after == (GpuiVideoPlayer {
                core: after.core,
                playback: PlaybackFacts {
                    initialized: core.init_is_over(event),
                    ..self.playback
                },
                ..self
            })
            &&& after.core is Some
            &&& exists|opened: CorePlayer| #[trigger]
                core.init_advanced(event, opened) && (if self.config.autoplay
                    && !core.startup.initialized && core.init_is_over(event) && opened.state
                    is Ready {
                    opened.played(after.core->0, self.config.muted, now)
                } else {
                    after.core->0 == opened
                })
        }
    }

    /// Takes in how far the opening of the source has come. Playback begins at
    /// once where that is wanted.
    pub fn check_init_complete(&mut self, event: InitEvent, now: Instant)
        requires
            old(self).wf(),
        ensures
            final(self).wf(),
            old(self).init_advanced(*final(self), event, now),
    {
        if self.playback.initialized {
            return;
        }
        match self.core.take() {
            Some(mut core) => {
                let ghost before = core;
                if core.is_initialized() {
                    self.playback.initialized = true;
                    assert(before.init_advanced(event, core));
                } else if core.check_init_complete(event) {
                    self.playback.initialized = true;
                    if self.config.autoplay {
                        if let VideoState::Ready = core.state() {
                            core.play_with_muted(self.config.muted, now);
                        }
                    }
                }
                self.core = Some(core);
            },
            None => {},
        }
    }

    /// Where a frame to show is looked for.
    #[verifier::allow_in_spec]
    pub fn frame_source(&self) -> FrameSource
        returns
            (match self.core {
                None => FrameSource::Nowhere,
                Some(core) => if core.scheduler.is_playback_requested() {
                    FrameSource::Playback
                } else if self.state is Ready || self.state is Paused {
                    FrameSource::Preview
                } else {
                    FrameSource::Nowhere
                },
            }),
    {
        match &self.core {
            None => FrameSource::Nowhere,
            Some(core) => if core.is_playback_requested() {
                FrameSource::Playback
            } else {
                match &self.state {
                    VideoState::Ready | VideoState::Paused { .. } => FrameSource::Preview,
                    _ => FrameSource::Nowhere,
                }
            },
        }
    }

    /// A player before and after it looked for the frame that is due.
    pub open spec fn advanced(
        self,
        after: GpuiVideoPlayer,
        frame: Option<VideoFrame>,
        clock: ClockReading,
        estimate: DriftEstimate,
    ) -> bool {
        match self.core {
            None => frame is None && after == self,
            Some(core) => {
                &&& after.core is Some
                &&& core.polled(after.core->0, clock, estimate)
                &&& frame == (match core.poll_result(clock, estimate) {
                    FramePollResult::NewFrame(frame) => Some(frame),
                    _ => None,
                })
                &&& after == (GpuiVideoPlayer {
                    core: after.core,
                    playback: PlaybackFacts {
                        loop_seek_pending: self.playback.loop_seek_pending && frame is None,
                        ..self.playback
                    },
                    ..self
                })
            },
        }
    }

    /// The frame that is due. The scheduler is asked once for each refresh of the
    /// screen.
    pub fn poll_playback_frame(&mut self, clock: ClockReading, estimate: DriftEstimate) -> (frame:
        Option<VideoFrame>)
        requires
            old(self).wf(),
        ensures
            final(self).wf(),
            old(self).advanced(*final(self), frame, clock, estimate),
    {
        match self.core.take() {
            None => None,
            Some(mut core) => {
                let frame: Option<VideoFrame> = core.poll_frame(clock, estimate);
                self.core = Some(core);
                if frame.is_some() {
                    self.playback.loop_seek_pending = false;
                }
                frame
            },
        }
    }

    /// The frame to show while nothing plays.
    #[verifier::allow_in_spec]
    pub fn preview_frame(&self) -> Option<VideoFrame>
        returns
            (match self.core {
                Some(core) if self.preview.refresh_requested
                    && core.decode.frame_queue.frames@.len() > 0 => Some(
                    core.decode.frame_queue.frames@[0],
                ),
                _ => None::<VideoFrame>,
            }),
    {
        match &self.core {
            Some(core) => self.preview.frame(core.frame_queue()),
            None => None,
        }
    }

    /// A frame of the core player is on display. On Android that ends native
    /// frames.
    pub fn core_frame_shown(&mut self)
        ensures
            *final(self) == (GpuiVideoPlayer {
                preview: PreviewState { refresh_requested: false },
                android: if old(self).platform is Android {
                    old(self).android.after_cpu_upload()
                } else {
                    old(self).android
                },
                ..*old(self)
            }),
    {
        if let Platform::Android = self.platform {
            self.android = self.android.after_cpu_upload();
        }
        self.preview.presented();
    }

    /// True while there is more to come than what is on display: the decoder goes on,
    /// or frames wait in the queue for their time.
    pub open spec fn has_more_to_show(self) -> bool {
        self.core matches Some(core) && (!core.decode.frame_queue.eos
            || core.decode.frame_queue.frames@.len() > 0)
    }

    /// The player once the end of the stream was dealt with, and whether a loop
    /// begins.
    pub open spec fn core_end(self) -> (GpuiVideoPlayer, bool) {
        match self.core {
            None => (self, false),
            Some(core) => {
                let step = end_step(
                    core.decode.frame_queue.eos && core.decode.frame_queue.frames@.len() == 0,
                    self.config.looping,
                    self.playback.loop_seek_pending,
                );
                (
                    GpuiVideoPlayer {
                        core: Some(
                            if step == EndStep::End {
                                CorePlayer { state: VideoState::Ended, ..core }
                            } else {
                                core
                            },
                        ),
                        playback: PlaybackFacts {
                            loop_seek_pending: match step {
                                EndStep::Nothing => self.playback.loop_seek_pending,
                                EndStep::Loop => true,
                                EndStep::End => false,
                            },
                            ..self.playback
                        },
                        ..self
                    },
                    step == EndStep::Loop,
                )
            },
        }
    }

    /// Deals with the end of the stream. True where a loop begins: the caller then
    /// seeks to the beginning and plays.
    pub fn handle_core_end(&mut self) -> (loops: bool)
        requires
            old(self).wf(),
        ensures
            final(self).wf(),
            (*final(self), loops) == old(self).core_end(),
            old(self).has_more_to_show() ==> *final(self) == *old(self) && !loops,
    {
        match self.core.take() {
            None => false,
            Some(mut core) => {
                let at_end: bool = core.is_eos() && core.is_queue_empty();
                let step: EndStep = end_step(
                    at_end,
                    self.config.looping,
                    self.playback.loop_seek_pending,
                );
                match step {
                    EndStep::Nothing => {},
                    EndStep::Loop => {
                        self.playback.loop_seek_pending = true;
                    },
                    EndStep::End => {
                        self.playback.loop_seek_pending = false;
                        core.set_state(VideoState::Ended);
                    },
                }
                self.core = Some(core);
                step == EndStep::Loop
            },
        }
    }

    /// The player with what the core player knows.
    pub open spec fn synced(self, now: Instant) -> GpuiVideoPlayer {
        match self.core {
            None => self,
            Some(core) => GpuiVideoPlayer {
                state: core.state,
                playback: PlaybackFacts {
                    position: core.scheduler.position(now),
                    duration: if core.decoding && core.decode.facts.duration is Some {
                        core.decode.facts.duration
                    } else {
                        match core.metadata {
                            Some(metadata) => metadata.duration,
                            None => None,
                        }
                    },
                    buffering_percent: if core.decoding {
                        core.decode.buffering_percent
                    } else {
                        100
                    },
                    ..self.playback
                },
                metadata: match core.metadata {
                    Some(metadata) => Some(metadata),
                    None => self.metadata,
                },
                ..self
            },
        }
    }

    /// Takes over what the core player knows.
    pub fn sync_from_core(&mut self, now: Instant)
        requires
            old(self).wf(),
        ensures
            final(self).wf(),
            *final(self) == old(self).synced(now),
    {
        match &self.core {
            None => {},
            Some(core) => {
                self.state = core.state().clone();
                self.playback.position = core.position(now);
                self.playback.duration = core.duration();
                self.playback.buffering_percent = core.buffering_percent();
                match core.metadata() {
                    Some(metadata) => {
                        self.metadata = Some(metadata.clone());
                    },
                    None => {},
                }
            },
        }
    }

    /// The percentage that is shown while playback waits for data; none where it
    /// does not.
    pub fn buffering_overlay(&self) -> (percent: Option<i32>)
        ensures
            ({
                let dry = self.core is Some && self.core->0.scheduler.is_audio_stall();
                percent == (if !self.is_playing() || (self.playback.buffering_percent >= 100
                    && !dry) {
                    None::<i32>
                } else if dry {
                    Some(AUDIO_STALL_PERCENT)
                } else {
                    Some(self.playback.buffering_percent)
                })
            }),
    {
        let dry: bool = match &self.core {
            Some(core) => core.is_audio_stall(),
            None => false,
        };
        if !self.is_playing() || (self.playback.buffering_percent >= 100 && !dry) {
            None
        } else if dry {
            Some(AUDIO_STALL_PERCENT)
        } else {
            Some(self.playback.buffering_percent)
        }
    }

    /// What is shown over the picture after an error.
    pub fn error_overlay(&self) -> (text: String)
        ensures
            text@ == "Video Error: "@ + (match self.state {
                VideoState::Error(error) => error.prefix() + error.detail(),
                _ => Seq::empty(),
            }),
    {
        match &self.state {
            VideoState::Error(error) => "Video Error: ".to_owned().concat(error.text().as_str()),
            _ => {
                let text: String = "Video Error: ".to_owned();
                assert(text@ =~= "Video Error: "@ + Seq::<char>::empty());
                text
            },
        }
    }
}

fn no_text() -> (text: &'static str)
    ensures
        text@ == Seq::<char>::empty(),
{
    proof {
        reveal_strlit("");
    }
    assert(""@ =~= Seq::<char>::empty());
    ""
}

/// A seek bar is never more than full.
pub proof fn law_seek_bar_is_at_most_full(player: GpuiVideoPlayer)
    ensures
        player.seek_progress().part.nanos <= player.seek_progress().whole.nanos,
        player.seek_progress().whole.nanos > 0,
{
}

/// Playback that begins by itself does so once: after it has begun, no other state
/// of the session starts it again.
pub proof fn law_autoplay_begins_once<F>(
    before: GpuiVideoPlayer,
    first: SessionState,
    between: GpuiVideoPlayer,
    first_outcome: EventOutcome<F>,
    first_now: Instant,
    second: SessionState,
    after: GpuiVideoPlayer,
    second_outcome: EventOutcome<F>,
    second_now: Instant,
)
    requires
        before.told(SessionEvent::StateChanged { state: first }, between, first_outcome, first_now),
        between.told(SessionEvent::StateChanged { state: second }, after, second_outcome, second_now),
        first_outcome.play,
    ensures
        !second_outcome.play,
{
}

/// A track that cannot be selected does not stop playback: all that changes is what
/// is said of the tracks.
pub proof fn law_failed_selection_is_not_terminal<F>(
    before: GpuiVideoPlayer,
    requested_id: String,
    prior_restored_id: Option<String>,
    reason: String,
    after: GpuiVideoPlayer,
    outcome: EventOutcome<F>,
    now: Instant,
)
    requires
        before.told(
            SessionEvent::AudioTrackSelectionFailed { requested_id, prior_restored_id, reason },
            after,
            outcome,
            now,
        ),
    ensures
        after.state == before.state,
        after.presentation == before.presentation,
        after.playback.position == before.playback.position,
        after.audio_tracks == before.audio_tracks,
        after.selected_audio_track_id == prior_restored_id,
        outcome.feedback == Feedback::nothing(),
{
}

/// Playback ends, or begins anew, only once all was played: while the decoder goes on or
/// frames wait in the queue, nothing changes. After that a loop begins where one is
/// wanted and the last one brought a frame; else the player has ended, and no loop is
/// pending. The queue and the clock are left alone either way.
pub proof fn law_playback_ends_after_the_last_frame(player: GpuiVideoPlayer)
    requires
        player.core is Some,
    ensures
        ({
            let (after, loops) = player.core_end();
            let queue = player.core->0.decode.frame_queue;
            let over = queue.eos && queue.frames@.len() == 0;
            let again = player.config.looping && !player.playback.loop_seek_pending;
            &&& !over ==> after == player && !loops
            &&& loops == (over && again)
            &&& loops ==> after.core == player.core && after.playback.loop_seek_pending
            &&& over && !again ==> after.core->0.state is Ended
                && !after.playback.loop_seek_pending
            &&& after.core->0.decode == player.core->0.decode
            &&& after.core->0.scheduler == player.core->0.scheduler
            &&& after.core->0.state is Ended ==> over || player.core->0.state is Ended
        }),
{
}

/// The frames that wait are played out: however often the end of the stream is dealt
/// with, a player whose queue holds a frame neither ends nor loops.
pub proof fn law_waiting_frames_are_played_out(player: GpuiVideoPlayer)
    requires
        player.core is Some,
        player.core->0.decode.frame_queue.frames@.len() > 0,
    ensures
        player.core_end().0 == player,
        !player.core_end().1,
        player.core_end().0.core_end() == (player, false),
{
}

/// A loop cannot spin: where its seek brings no frame, the stream ends the next
/// time that its end is seen.
pub proof fn law_loop_is_tried_once(looping: bool)
    ensures
        end_step(true, looping, true) == EndStep::End,
        looping ==> end_step(true, looping, false) == EndStep::Loop,
{
}

} // verus!
