//! A player without a screen: start-up, playback and the frames to show.

use crate::audio::AudioHandle;
use crate::audio_player::{
    audio_progressed, AudioAction, AudioEvent, AudioProgress, AudioTask, AudioThread,
};
use crate::audio_ring_buffer::{RingBufferProducer, RingBufferShared};
use crate::decode_loop::{DecodeThread, Dimensions, MediaFacts};
use crate::decode_task::{
    progressed, DecodeAction, DecodeEvent, DecodePhase, DecodeTask, Observation, Progress,
};
use crate::frame_queue::{DecodeCommand, FrameQueue, DEFAULT_BUFFER_SIZE};
use crate::frame_scheduler::{DriftEstimate, FrameScheduler};
use crate::gst_decoder::LinuxZeroCopyMetricsSnapshot;
use crate::gst_pipeline::GpuInfo;
use crate::scheduler_laws::{audio_kept, law_poll_keeps_audio};
use crate::sync_metrics::{SyncMetrics, SyncMetricsSnapshot};
use crate::text::{after_last, before_first, cut_before, lower, same_lower, tail_after};
use crate::time::{ClockReading, Duration, Instant};
use crate::video::{is_positive_float, VideoError, VideoFrame, VideoMetadata, VideoState};
use vstd::prelude::*;
use vstd::string::StringExecFns;

verus! {

/// Frames that are buffered ahead on Android, where the decoder lends out few
/// images at a time.
pub const ANDROID_BUFFER_SIZE: usize = 2;

/// Time between two frames of a live stream that does not say its rate.
pub const DEFAULT_LIVE_INTERVAL_NS: u64 = 33_333_333;

/// What one poll of the scheduler gave. What is on display stays there for
/// `Hold`; a frame is handed out only where presentation advances.
#[derive(Debug, Clone, Copy, PartialEq, Eq, Structural)]
pub enum FramePollResult {
    NewFrame(VideoFrame),
    Hold,
    Buffering,
    EndOfStream,
}

/// The system that a player runs on.
#[derive(Debug, Clone, Copy, PartialEq, Eq, Structural)]
pub enum Platform {
    MacOs,
    Ios,
    Android,
    Linux,
    /// With the native decoder built in, or not.
    Windows { native_video: bool },
    Other,
}

impl Platform {
    /// True where the decoder itself can be muted.
    #[verifier::allow_in_spec]
    pub fn decoder_has_volume(self) -> bool
        returns
            self is MacOs || self is Ios || self is Android || self is Linux,
    {
        match self {
            Platform::MacOs | Platform::Ios | Platform::Android | Platform::Linux => true,
            _ => false,
        }
    }

    /// Frames that are buffered ahead.
    #[verifier::allow_in_spec]
    pub fn queue_capacity(self) -> usize
        returns
            (if self is Android {
                ANDROID_BUFFER_SIZE
            } else {
                DEFAULT_BUFFER_SIZE
            }),
    {
        match self {
            Platform::Android => ANDROID_BUFFER_SIZE,
            _ => DEFAULT_BUFFER_SIZE,
        }
    }
}

/// The ending of the path of a URL.
pub open spec fn extension_of(url: Seq<char>) -> Seq<char> {
    lower(after_last(before_first(url, '?'), '.'))
}

/// The endings that AVFoundation can play.
pub open spec fn is_avfoundation_extension(extension: Seq<char>) -> bool {
    ||| extension == "mp4"@
    ||| extension == "m4v"@
    ||| extension == "mov"@
    ||| extension == "m4a"@
    ||| extension == "m3u8"@
    ||| extension == "ts"@
    ||| extension == "avi"@
    ||| extension == "aac"@
    ||| extension == "mp3"@
    ||| extension == "wav"@
    ||| extension == "aiff"@
}

/// True where a URL names a container that AVFoundation can play.
pub fn is_avfoundation_supported_container(url: &str) -> (supported: bool)
    ensures
        supported == is_avfoundation_extension(extension_of(url@)),
{
    let path: String = cut_before(url, '?');
    let extension: String = tail_after(path.as_str(), '.');
    let extension: &str = extension.as_str();
    same_lower(extension, "mp4") || same_lower(extension, "m4v") || same_lower(extension, "mov")
        || same_lower(extension, "m4a") || same_lower(extension, "m3u8") || same_lower(
        extension,
        "ts",
    ) || same_lower(extension, "avi") || same_lower(extension, "aac") || same_lower(
        extension,
        "mp3",
    ) || same_lower(extension, "wav") || same_lower(extension, "aiff")
}

/// The decoder to open.
#[derive(Debug, PartialEq, Eq)]
pub enum DecoderChoice {
    /// On the main thread.
    VideoToolbox,
    Ffmpeg,
    ExoPlayer,
    GStreamer,
    MediaFoundation,
    /// There is none.
    Refused(VideoError),
}

/// The decoder that is tried first.
pub open spec fn first_choice(platform: Platform, url: Seq<char>, choice: DecoderChoice) -> bool {
    let supported = is_avfoundation_extension(extension_of(url));
    match platform {
        Platform::MacOs => choice == (if supported {
            DecoderChoice::VideoToolbox
        } else {
            DecoderChoice::Ffmpeg
        }),
        Platform::Ios => if supported {
            choice == DecoderChoice::VideoToolbox
        } else {
            refuses(choice, "Unsupported container format on iOS: "@ + url)
        },
        Platform::Android => choice == DecoderChoice::ExoPlayer,
        Platform::Linux => choice == DecoderChoice::GStreamer,
        Platform::Windows { native_video: true } => choice == DecoderChoice::MediaFoundation,
        Platform::Windows { native_video: false } => refuses(
            choice,
            "No video decoder available on Windows — enable the \"windows-native-video\" feature for Media Foundation support"@,
        ),
        Platform::Other => refuses(choice, "No video decoder available for this platform"@),
    }
}

/// True of a refusal with a message.
pub open spec fn refuses(choice: DecoderChoice, message: Seq<char>) -> bool {
    choice matches DecoderChoice::Refused(VideoError::DecoderInit(text)) && text@ == message
}

/// Chooses the decoder that is tried first.
pub fn choose_decoder(platform: Platform, url: &str) -> (choice: DecoderChoice)
    ensures
        first_choice(platform, url@, choice),
{
    match platform {
        Platform::MacOs => if is_avfoundation_supported_container(url) {
            DecoderChoice::VideoToolbox
        } else {
            DecoderChoice::Ffmpeg
        },
        Platform::Ios => if is_avfoundation_supported_container(url) {
            DecoderChoice::VideoToolbox
        } else {
            DecoderChoice::Refused(
                VideoError::DecoderInit(
                    "Unsupported container format on iOS: ".to_owned().concat(url),
                ),
            )
        },
        Platform::Android => DecoderChoice::ExoPlayer,
        Platform::Linux => DecoderChoice::GStreamer,
        Platform::Windows { native_video } => if native_video {
            DecoderChoice::MediaFoundation
        } else {
            DecoderChoice::Refused(
                VideoError::DecoderInit(
                    "No video decoder available on Windows — enable the \"windows-native-video\" feature for Media Foundation support".to_owned(),
                ),
            )
        },
        Platform::Other => DecoderChoice::Refused(
            VideoError::DecoderInit("No video decoder available for this platform".to_owned()),
        ),
    }
}

/// The decoder to try after one that failed. Only macOS has a second one.
pub fn next_choice(platform: Platform, failed: &DecoderChoice) -> (choice: Option<DecoderChoice>)
    ensures
        choice == (if platform is MacOs && failed is VideoToolbox {
            Some(DecoderChoice::Ffmpeg)
        } else {
            None::<DecoderChoice>
        }),
{
    match platform {
        Platform::MacOs => match failed {
            DecoderChoice::VideoToolbox => Some(DecoderChoice::Ffmpeg),
            _ => None,
        },
        _ => None,
    }
}

/// What a decoder that was opened says of itself.
pub struct OpenedDecoder {
    pub metadata: VideoMetadata,
    /// The decoder plays the audio too.
    pub handles_audio: bool,
    /// The handle of that audio, where the decoder has one.
    pub audio_handle: Option<AudioHandle>,
    pub android_player_id: u64,
}

/// How far the opening of a decoder has come.
pub enum InitEvent {
    Pending,
    /// The thread that opened the decoder died.
    Crashed,
    Opened(OpenedDecoder),
    Failed(VideoError),
}

/// Where start-up stands.
#[derive(Debug, Clone, Copy, PartialEq, Eq, Structural)]
pub struct Startup {
    pub initialized: bool,
    /// A thread is opening the decoder.
    pub init_thread: bool,
    /// Its result has not been taken yet.
    pub init_promise: bool,
}

/// A player without a screen.
///
/// It begins in `Loading`. Opening the decoder leads to `Ready`, or to `Error`
/// for good. Playing leads to `Playing`, pausing to `Paused`; a seek in `Playing`,
/// `Paused` or `Ended` stays in that state.
///
/// The audio that the player controls is the audio that its scheduler follows: there
/// is one handle, which the scheduler keeps. A handle that was swapped in with
/// [`CorePlayer::set_audio_handle`] is the player's alone.
pub struct CorePlayer {
    pub state: VideoState,
    pub metadata: Option<VideoMetadata>,
    /// What is shared with the decode thread.
    pub decode: DecodeThread,
    /// There is a decode thread.
    pub decoding: bool,
    /// It keeps the handle of the audio.
    pub scheduler: FrameScheduler,
    /// A handle that was swapped in, which the scheduler does not follow.
    pub own_audio: Option<AudioHandle>,
    /// The decoder plays the audio, and the decode thread publishes its position.
    pub decoder_plays_audio: bool,
    /// The thread that plays audio for a decoder that does not.
    pub audio_thread: Option<AudioThread>,
    pub startup: Startup,
    pub url: String,
    pub platform: Platform,
    pub android_player_id: u64,
    /// The card that frames are shown on.
    pub gpu_info: GpuInfo,
    /// How many frames the decoder has shared and copied, where it counts them, as it
    /// said last.
    pub linux_zero_copy_metrics: Option<LinuxZeroCopyMetricsSnapshot>,
}

/// The orders that playing gives to the decode thread.
pub open spec fn play_orders(platform: Platform, muted: bool) -> Seq<DecodeCommand> {
    if platform.decoder_has_volume() {
        seq![DecodeCommand::SetMuted(muted), DecodeCommand::Play]
    } else {
        seq![DecodeCommand::Play]
    }
}

/// The audio thread has the orders `orders` more.
pub open spec fn audio_ordered(
    before: Option<AudioThread>,
    after: Option<AudioThread>,
    orders: Seq<DecodeCommand>,
) -> bool {
    match before {
        None => after is None,
        Some(thread) => {
            &&& after is Some
            &&& after->0.commands@ =~= thread.commands@ + orders
            &&& after->0.stop_flag == thread.stop_flag
        },
    }
}

/// The decode thread has the orders `orders` more, and is otherwise as it was.
pub open spec fn decode_ordered(
    before: DecodeThread,
    after: DecodeThread,
    orders: Seq<DecodeCommand>,
) -> bool {
    &&& after.commands@ =~= before.commands@ + orders
    &&& after.frame_queue == before.frame_queue
    &&& after.stop_flag == before.stop_flag
    &&& after.facts == before.facts
    &&& after.buffering_percent == before.buffering_percent
}

/// The state of playback after a seek: the same, at the new position.
pub open spec fn state_after_seek(state: VideoState, position: Duration) -> VideoState {
    match state {
        VideoState::Playing { .. } => VideoState::Playing { position },
        VideoState::Paused { .. } => VideoState::Paused { position },
        _ => state,
    }
}

/// The state of playback once a frame is shown. A frame that comes after the end
/// or after an error changes nothing.
pub open spec fn state_after_frame(state: VideoState, pts: Duration) -> VideoState {
    match state {
        VideoState::Paused { .. } => VideoState::Paused { position: pts },
        VideoState::Ended | VideoState::Error(_) => state,
        _ => VideoState::Playing { position: pts },
    }
}

impl CorePlayer {
    pub open spec fn wf(self) -> bool {
        &&& self.decode.wf()
        &&& self.own_audio is Some || self.scheduler.audio_handle is Some
    }

    /// The audio that the player controls.
    pub open spec fn audio(self) -> AudioHandle {
        match self.own_audio {
            Some(handle) => handle,
            None => self.scheduler.audio_handle->0,
        }
    }

    /// The player with its audio as in `handle`.
    pub open spec fn with_audio(self, handle: AudioHandle) -> CorePlayer {
        match self.own_audio {
            Some(_) => CorePlayer { own_audio: Some(handle), ..self },
            None => CorePlayer {
                scheduler: FrameScheduler { audio_handle: Some(handle), ..self.scheduler },
                ..self
            },
        }
    }

    /// Nothing but playback differs from `other`.
    pub open spec fn same_setup(self, other: CorePlayer) -> bool {
        &&& self.own_audio == other.own_audio
        &&& self.decoder_plays_audio == other.decoder_plays_audio
        &&& self.metadata == other.metadata
        &&& self.decoding == other.decoding
        &&& self.startup == other.startup
        &&& self.url == other.url
        &&& self.platform == other.platform
        &&& self.android_player_id == other.android_player_id
        &&& self.gpu_info == other.gpu_info
        &&& self.linux_zero_copy_metrics == other.linux_zero_copy_metrics
    }

    /// A player for a URL, with nothing opened yet.
    pub fn new(url: &str, platform: Platform) -> (player: Self)
        ensures
            player.wf(),
            player.state is Loading,
            player.metadata is None,
            player.decode.commands@ =~= Seq::<DecodeCommand>::empty(),
            player.decode.frame_queue.frames@ =~= Seq::<VideoFrame>::empty(),
            player.decode.frame_queue.capacity == platform.queue_capacity(),
            !player.decode.frame_queue.eos,
            !player.decode.frame_queue.closed_to_frames(),
            player.decode.frame_queue.live_frames_dropped == 0,
            !player.decode.stop_flag,
            player.decode.facts == MediaFacts::unknown(),
            player.decode.buffering_percent == 0,
            !player.decoding,
            player.own_audio is None,
            !player.decoder_plays_audio,
            player.scheduler == FrameScheduler::fresh().with_audio(AudioHandle::fresh(), true),
            player.audio_thread is None,
            player.startup == (Startup {
                initialized: false,
                init_thread: false,
                init_promise: false,
            }),
            player.url@ == url@,
            player.platform == platform,
            player.android_player_id == 0,
            player.gpu_info.is_unknown(),
            player.linux_zero_copy_metrics is None,
    {
        CorePlayer {
            state: VideoState::Loading,
            metadata: None,
            decode: DecodeThread::new(FrameQueue::new(platform.queue_capacity())),
            decoding: false,
            scheduler: FrameScheduler::with_audio_handle(AudioHandle::new()),
            own_audio: None,
            decoder_plays_audio: false,
            audio_thread: None,
            startup: Startup { initialized: false, init_thread: false, init_promise: false },
            url: url.to_owned(),
            platform,
            android_player_id: 0,
            gpu_info: GpuInfo::unknown(),
            linux_zero_copy_metrics: None,
        }
    }

    /// A player for a decoder that the caller has opened. It is ready at once.
    pub fn with_decoder(url: &str, platform: Platform, metadata: VideoMetadata) -> (player: Self)
        ensures
            player.wf(),
            player.state is Ready,
            player.metadata == Some(metadata),
            player.decode.commands@ =~= Seq::<DecodeCommand>::empty(),
            player.decode.frame_queue.frames@ =~= Seq::<VideoFrame>::empty(),
            player.decode.frame_queue.capacity == platform.queue_capacity(),
            !player.decode.frame_queue.eos,
            !player.decode.frame_queue.closed_to_frames(),
            player.decode.frame_queue.live_frames_dropped == 0,
            !player.decode.stop_flag,
            player.decode.facts == MediaFacts::unknown(),
            player.decode.buffering_percent == 0,
            player.decoding,
            player.own_audio is None,
            !player.decoder_plays_audio,
            player.scheduler == FrameScheduler::fresh().with_audio(AudioHandle::fresh(), true),
            player.audio_thread is None,
            player.startup == (Startup {
                initialized: true,
                init_thread: false,
                init_promise: false,
            }),
            player.url@ == url@,
            player.platform == platform,
            player.android_player_id == 0,
            player.gpu_info.is_unknown(),
            player.linux_zero_copy_metrics is None,
    {
        let mut player = CorePlayer::new(url, platform);
        player.state = VideoState::Ready;
        player.metadata = Some(metadata);
        player.decoding = true;
        player.startup.initialized = true;
        player
    }

    /// Names the card that frames are shown on, before a decoder is opened.
    pub fn set_gpu_info(&mut self, gpu_info: GpuInfo)
        ensures
            *final(self) == (CorePlayer { gpu_info, ..*old(self) }),
    {
        self.gpu_info = gpu_info;
    }

    /// Takes over the counts of the decoder, as they now stand.
    pub fn note_zero_copy_metrics(&mut self, metrics: LinuxZeroCopyMetricsSnapshot)
        ensures
            *final(self) == (CorePlayer {
                linux_zero_copy_metrics: Some(metrics),
                ..*old(self)
            }),
    {
        self.linux_zero_copy_metrics = Some(metrics);
    }

    /// How many frames the decoder has shared and copied.
    pub fn linux_zero_copy_metrics(&self) -> (snapshot: Option<LinuxZeroCopyMetricsSnapshot>)
        ensures
            snapshot == self.linux_zero_copy_metrics,
    {
        self.linux_zero_copy_metrics
    }

    /// Begins to open a decoder, unless that was done or is under way. Says which
    /// decoder is tried first.
    pub fn init_decoder(&mut self) -> (choice: Option<DecoderChoice>)
        ensures
            ({
                let begins = !old(self).startup.initialized && !old(self).startup.init_thread;
                &&& choice is Some == begins
                &&& begins ==> first_choice(old(self).platform, old(self).url@, choice->0)
                &&& *final(self) == (if begins {
                    CorePlayer {
                        startup: Startup {
                            init_thread: true,
                            init_promise: true,
                            ..old(self).startup
                        },
                        ..*old(self)
                    }
                } else {
                    *old(self)
                })
            }),
    {
        if self.startup.initialized || self.startup.init_thread {
            return None;
        }
        self.startup.init_promise = true;
        self.startup.init_thread = true;
        Some(choose_decoder(self.platform, self.url.as_str()))
    }

    /// The audio that a player controls once a decoder is open: that of the
    /// decoder, a new one for a decoder that plays audio without a handle, that of
    /// the audio thread on macOS; else the one it had.
    pub open spec fn audio_after_open(self, opened: OpenedDecoder) -> AudioHandle {
        if opened.handles_audio {
            AudioHandle {
                available: true,
                ..(match opened.audio_handle {
                    Some(handle) => handle,
                    None => AudioHandle::fresh(),
                })
            }
        } else if self.platform is MacOs {
            AudioHandle {
                available: true,
                video_start_time_us: (match opened.metadata.start_time {
                    Some(start) => Some(start.micros_u64()),
                    None => None,
                }),
                ..AudioHandle::fresh()
            }
        } else {
            self.audio()
        }
    }

    /// True where opening a decoder changes the handle.
    pub open spec fn rebinds_audio(self, opened: OpenedDecoder) -> bool {
        opened.handles_audio || self.platform is MacOs
    }

    /// A player before and after it took in how far the opening of the decoder has
    /// come.
    pub open spec fn init_advanced(self, event: InitEvent, after: CorePlayer) -> bool {
        &&& after.url == self.url
        &&& after.platform == self.platform
        &&& after.decode == self.decode
        &&& if self.startup.initialized || !self.startup.init_promise || event
            is Pending {
            after == self
        } else {
            match event {
                InitEvent::Opened(opened) => {
                    let audio = self.audio_after_open(opened);
                    &&& after.state is Ready
                    &&& after.metadata == Some(opened.metadata)
                    &&& after.decoding
                    &&& if self.rebinds_audio(opened) {
                        &&& after.own_audio is None
                        &&& after.scheduler == self.scheduler.with_audio(audio, true)
                    } else {
                        &&& after.own_audio == self.own_audio
                        &&& after.scheduler == self.scheduler
                    }
                    &&& after.decoder_plays_audio == opened.handles_audio
                    &&& if !opened.handles_audio && self.platform is MacOs {
                        &&& after.audio_thread is Some
                        &&& after.audio_thread->0.commands@ =~= Seq::<
                            DecodeCommand,
                        >::empty()
                        &&& !after.audio_thread->0.stop_flag
                    } else {
                        after.audio_thread == self.audio_thread
                    }
                    &&& after.android_player_id == (if self.platform is Android {
                        opened.android_player_id
                    } else {
                        self.android_player_id
                    })
                    &&& after.gpu_info == self.gpu_info
                    &&& after.linux_zero_copy_metrics == self.linux_zero_copy_metrics
                    &&& after.startup == (Startup {
                        initialized: true,
                        init_thread: false,
                        init_promise: false,
                    })
                },
                InitEvent::Failed(error) => after == (CorePlayer {
                    state: VideoState::Error(error),
                    startup: Startup {
                        initialized: true,
                        init_thread: false,
                        init_promise: false,
                    },
                    ..self
                }),
                InitEvent::Crashed => {
                    &&& after.state matches VideoState::Error(VideoError::Generic(text))
                        && text@ == "Init thread crashed"@
                    &&& after == (CorePlayer {
                        state: after.state,
                        startup: Startup {
                            initialized: false,
                            init_thread: false,
                            init_promise: false,
                        },
                        ..self
                    })
                },
                InitEvent::Pending => true,
            }
        }
    }

    /// True where start-up is over once an event has come.
    pub open spec fn init_is_over(self, event: InitEvent) -> bool {
        self.startup.initialized || (self.startup.init_promise && event !is Pending)
    }

    /// Takes in how far the opening of the decoder has come; true where start-up
    /// is over, well or not.
    pub fn check_init_complete(&mut self, event: InitEvent) -> (complete: bool)
        requires
            old(self).wf(),
        ensures
            final(self).wf(),
            complete == old(self).init_is_over(event),
            old(self).init_advanced(event, *final(self)),
    {
        if self.startup.initialized {
            return true;
        }
        if !self.startup.init_promise {
            return false;
        }
        match event {
            InitEvent::Pending => false,
            InitEvent::Crashed => {
                self.startup.init_promise = false;
                self.state = VideoState::Error(
                    VideoError::Generic("Init thread crashed".to_owned()),
                );
                self.startup.init_thread = false;
                true
            },
            InitEvent::Opened(opened) => {
                self.startup.init_promise = false;
                self.decoder_plays_audio = opened.handles_audio;
                self.bind_audio(
                    opened.handles_audio,
                    opened.audio_handle,
                    opened.metadata.start_time,
                );
                if let Platform::Android = self.platform {
                    self.android_player_id = opened.android_player_id;
                }
                self.metadata = Some(opened.metadata);
                self.decoding = true;
                self.state = VideoState::Ready;
                self.startup.initialized = true;
                self.startup.init_thread = false;
                true
            },
            InitEvent::Failed(error) => {
                self.startup.init_promise = false;
                self.state = VideoState::Error(error);
                self.startup.init_thread = false;
                self.startup.initialized = true;
                true
            },
        }
    }

    fn bind_audio(
        &mut self,
        handles_audio: bool,
        audio_handle: Option<AudioHandle>,
        start_time: Option<Duration>,
    )
        ensures
            ({
                let bound = if handles_audio {
                    AudioHandle {
                        available: true,
                        ..(match audio_handle {
                            Some(handle) => handle,
                            None => AudioHandle::fresh(),
                        })
                    }
                } else {
                    AudioHandle {
                        available: true,
                        video_start_time_us: (match start_time {
                            Some(start) => Some(start.micros_u64()),
                            None => None,
                        }),
                        ..AudioHandle::fresh()
                    }
                };
                if handles_audio || old(self).platform is MacOs {
                    &&& final(self).own_audio is None
                    &&& final(self).scheduler == old(self).scheduler.with_audio(bound, true)
                } else {
                    &&& final(self).own_audio == old(self).own_audio
                    &&& final(self).scheduler == old(self).scheduler
                }
            }),
            if !handles_audio && old(self).platform is MacOs {
                &&& final(self).audio_thread is Some
                &&& final(self).audio_thread->0.commands@ =~= Seq::<DecodeCommand>::empty()
                &&& !final(self).audio_thread->0.stop_flag
            } else {
                final(self).audio_thread == old(self).audio_thread
            },
            *final(self) == (CorePlayer {
                own_audio: final(self).own_audio,
                scheduler: final(self).scheduler,
                audio_thread: final(self).audio_thread,
                ..*old(self)
            }),
    {
        if handles_audio {
            let mut handle: AudioHandle = match audio_handle {
                Some(handle) => handle,
                None => AudioHandle::new(),
            };
            handle.set_available(true);
            self.own_audio = None;
            let _ = self.scheduler.set_audio_handle(handle);
        } else if let Platform::MacOs = self.platform {
            let (thread, handle) = AudioThread::new(start_time);
            self.own_audio = None;
            let _ = self.scheduler.set_audio_handle(handle);
            self.audio_thread = Some(thread);
        }
    }

    pub fn is_initialized(&self) -> (initialized: bool)
        ensures
            initialized == self.startup.initialized,
    {
        self.startup.initialized
    }

    pub fn is_init_pending(&self) -> (pending: bool)
        ensures
            pending == self.startup.init_thread,
    {
        self.startup.init_thread
    }

    /// A player before and after it was told to play, muted or not.
    pub open spec fn played(self, after: CorePlayer, muted: bool, now: Instant) -> bool {
        if self.decoding {
            &&& after.scheduler == self.scheduler.after_start()
            &&& after.state == (VideoState::Playing {
                position: self.scheduler.after_start().position(now),
            })
            &&& decode_ordered(self.decode, after.decode, play_orders(self.platform, muted))
            &&& audio_ordered(self.audio_thread, after.audio_thread, seq![DecodeCommand::Play])
            &&& after.same_setup(self)
        } else {
            after == self
        }
    }

    /// Starts or resumes playback, muted as before.
    pub fn play(&mut self, now: Instant)
        requires
            old(self).wf(),
        ensures
            final(self).wf(),
            old(self).played(*final(self), old(self).audio().muted, now),
    {
        let muted: bool = self.audio_handle().is_muted();
        self.play_with_muted(muted, now);
    }

    /// Starts or resumes playback, telling the decoder whether to be silent.
    pub fn play_with_muted(&mut self, muted: bool, now: Instant)
        requires
            old(self).wf(),
        ensures
            final(self).wf(),
            old(self).played(*final(self), muted, now),
    {
        if !self.decoding {
            return;
        }
        if self.platform.decoder_has_volume() {
            self.decode.set_muted(muted);
        }
        self.decode.play();
        self.scheduler.start();
        self.state = VideoState::Playing { position: self.scheduler.position(now) };
        self.order_audio(DecodeCommand::Play);
    }

    fn order_audio(&mut self, command: DecodeCommand)
        ensures
            audio_ordered(old(self).audio_thread, final(self).audio_thread, seq![command]),
            *final(self) == (CorePlayer { audio_thread: final(self).audio_thread, ..*old(self) }),
    {
        match self.audio_thread.take() {
            Some(mut thread) => {
                thread.commands.push_back(command);
                self.audio_thread = Some(thread);
            },
            None => {},
        }
    }

    /// A player before and after it was told to pause.
    pub open spec fn paused(self, after: CorePlayer, now: Instant) -> bool {
        if self.decoding {
            &&& after.scheduler == self.scheduler.after_pause(now)
            &&& after.state == (VideoState::Paused {
                position: self.scheduler.after_pause(now).position(now),
            })
            &&& decode_ordered(self.decode, after.decode, seq![DecodeCommand::Pause])
            &&& audio_ordered(self.audio_thread, after.audio_thread, seq![DecodeCommand::Pause])
            &&& after.same_setup(self)
        } else {
            after == self
        }
    }

    pub fn pause(&mut self, now: Instant)
        requires
            old(self).wf(),
        ensures
            final(self).wf(),
            old(self).paused(*final(self), now),
    {
        if !self.decoding {
            return;
        }
        self.decode.pause();
        self.scheduler.pause(now);
        self.state = VideoState::Paused { position: self.scheduler.position(now) };
        self.order_audio(DecodeCommand::Pause);
    }

    /// A player before and after it was told to go to a position.
    pub open spec fn sought(self, after: CorePlayer, position: Duration, unix_us: u64) -> bool {
        if self.decoding {
            &&& after.scheduler == self.scheduler.after_seek(position, unix_us)
            &&& after.state == state_after_seek(self.state, position)
            &&& after.decode.commands@ =~= self.decode.commands@.push(
                DecodeCommand::Seek(position),
            )
            &&& after.decode.frame_queue.frames@ =~= Seq::<VideoFrame>::empty()
            &&& !after.decode.frame_queue.eos
            &&& !after.decode.frame_queue.flushing
            &&& after.decode.frame_queue.capacity == self.decode.frame_queue.capacity
            &&& after.decode.frame_queue.stopped == self.decode.frame_queue.stopped
            &&& after.decode.frame_queue.live_frames_dropped
                == self.decode.frame_queue.live_frames_dropped
            &&& after.decode.stop_flag == self.decode.stop_flag
            &&& after.decode.buffering_percent == 0
            &&& after.decode.facts == self.decode.facts
            &&& audio_ordered(
                self.audio_thread,
                after.audio_thread,
                seq![DecodeCommand::Seek(position)],
            )
            &&& after.same_setup(self)
        } else {
            after == self
        }
    }

    /// Goes to a position. What is queued is dropped at once.
    pub fn seek(&mut self, position: Duration, unix_us: u64)
        requires
            old(self).wf(),
        ensures
            final(self).wf(),
            old(self).sought(*final(self), position, unix_us),
    {
        if !self.decoding {
            return;
        }
        self.decode.seek(position);
        self.scheduler.seek(position, unix_us);
        self.order_audio(DecodeCommand::Seek(position));
        match &self.state {
            VideoState::Playing { .. } => {
                self.state = VideoState::Playing { position };
            },
            VideoState::Paused { .. } => {
                self.state = VideoState::Paused { position };
            },
            _ => {},
        }
    }

    /// Pauses what plays, and plays what is paused, ready or at its end.
    pub fn toggle_playback(&mut self, now: Instant)
        requires
            old(self).wf(),
        ensures
            final(self).wf(),
            match old(self).state {
                VideoState::Playing { .. } => old(self).paused(*final(self), now),
                VideoState::Paused { .. } | VideoState::Ready | VideoState::Ended => old(
                    self,
                ).played(*final(self), old(self).audio().muted, now),
                _ => *final(self) == *old(self),
            },
    {
        match &self.state {
            VideoState::Playing { .. } => {
                self.pause(now);
            },
            VideoState::Paused { .. } | VideoState::Ready | VideoState::Ended => {
                self.play(now);
            },
            _ => {},
        }
    }

    pub fn state(&self) -> (state: &VideoState)
        ensures
            *state == self.state,
    {
        &self.state
    }

    pub fn set_state(&mut self, state: VideoState)
        ensures
            *final(self) == (CorePlayer { state, ..*old(self) }),
    {
        self.state = state;
    }

    pub fn metadata(&self) -> (metadata: Option<&VideoMetadata>)
        ensures
            metadata == (match self.metadata {
                Some(metadata) => Some(&metadata),
                None => None,
            }),
    {
        self.metadata.as_ref()
    }

    pub fn position(&self, now: Instant) -> (position: Duration)
        ensures
            position == self.scheduler.position(now),
    {
        self.scheduler.position(now)
    }

    /// What the decode thread has found out, or else what was known at first.
    pub fn duration(&self) -> (duration: Option<Duration>)
        ensures
            duration == (if self.decoding && self.decode.facts.duration is Some {
                self.decode.facts.duration
            } else {
                match self.metadata {
                    Some(metadata) => metadata.duration,
                    None => None,
                }
            }),
    {
        if self.decoding {
            let duration: Option<Duration> = self.decode.duration();
            if duration.is_some() {
                return duration;
            }
        }
        match &self.metadata {
            Some(metadata) => metadata.duration,
            None => None,
        }
    }

    pub fn is_playing(&self) -> (playing: bool)
        ensures
            playing == self.scheduler.is_playing(),
    {
        self.scheduler.is_playing()
    }

    pub fn is_playback_requested(&self) -> (requested: bool)
        ensures
            requested == self.scheduler.is_playback_requested(),
    {
        self.scheduler.is_playback_requested()
    }

    pub fn sync_metrics(&self) -> (metrics: &SyncMetrics)
        ensures
            *metrics == self.scheduler.sync_metrics,
    {
        self.scheduler.sync_metrics()
    }

    pub fn sync_metrics_snapshot(&self, unix_us: u64) -> (snapshot: SyncMetricsSnapshot)
        ensures
            snapshot == self.scheduler.sync_metrics.spec_snapshot(unix_us),
    {
        self.scheduler.sync_metrics().snapshot(unix_us)
    }

    /// The audio that the player controls, for volume and mute.
    pub fn audio_handle(&self) -> (handle: &AudioHandle)
        requires
            self.wf(),
        ensures
            *handle == self.audio(),
    {
        match &self.own_audio {
            Some(handle) => handle,
            None => self.scheduler.audio_handle.as_ref().unwrap(),
        }
    }

    /// The audio that the player controls, to change it. Where no handle was swapped
    /// in, the scheduler follows every change.
    pub fn audio_handle_mut(&mut self) -> (handle: &mut AudioHandle)
        requires
            old(self).wf(),
        ensures
            *handle == old(self).audio(),
            *final(self) == old(self).with_audio(*final(handle)),
    {
        match &mut self.own_audio {
            Some(handle) => handle,
            None => self.scheduler.audio_handle.as_mut().unwrap(),
        }
    }

    /// Swaps in a handle for the player to control. The scheduler goes on with the one
    /// that it follows; a handle that was swapped in before comes back.
    pub fn set_audio_handle(&mut self, handle: AudioHandle) -> (before: Option<AudioHandle>)
        ensures
            *final(self) == (CorePlayer { own_audio: Some(handle), ..*old(self) }),
            before == old(self).own_audio,
    {
        let before: Option<AudioHandle> = self.own_audio.take();
        self.own_audio = Some(handle);
        before
    }

    pub fn scheduler(&self) -> (scheduler: &FrameScheduler)
        ensures
            *scheduler == self.scheduler,
    {
        &self.scheduler
    }

    pub fn scheduler_mut(&mut self) -> (scheduler: &mut FrameScheduler)
        ensures
            *scheduler == old(self).scheduler,
            *final(self) == (CorePlayer { scheduler: *final(scheduler), ..*old(self) }),
    {
        &mut self.scheduler
    }

    pub fn frame_queue(&self) -> (queue: &FrameQueue)
        ensures
            *queue == self.decode.frame_queue,
    {
        &self.decode.frame_queue
    }

    pub fn decode_thread(&self) -> (thread: Option<&DecodeThread>)
        ensures
            thread == (if self.decoding {
                Some(&self.decode)
            } else {
                None
            }),
    {
        if self.decoding {
            Some(&self.decode)
        } else {
            None
        }
    }

    pub fn url(&self) -> (url: &str)
        ensures
            url@ == self.url@,
    {
        self.url.as_str()
    }

    /// What a poll of the scheduler means for the player.
    pub open spec fn poll_result(
        self,
        clock: ClockReading,
        estimate: DriftEstimate,
    ) -> FramePollResult {
        let queue = self.decode.frame_queue;
        let (next, rest, shown) = self.scheduler.poll(queue.frames@, queue.eos, clock, estimate);
        if next.presentation_generation != self.scheduler.presentation_generation {
            match shown {
                Some(frame) => FramePollResult::NewFrame(
                    VideoFrame { generation: next.seek_generation, ..frame },
                ),
                None => if queue.eos {
                    FramePollResult::EndOfStream
                } else {
                    FramePollResult::Buffering
                },
            }
        } else if queue.eos && rest.len() == 0 {
            FramePollResult::EndOfStream
        } else if shown is Some {
            FramePollResult::Hold
        } else {
            FramePollResult::Buffering
        }
    }

    /// A player before and after a poll of its scheduler.
    pub open spec fn polled(
        self,
        after: CorePlayer,
        clock: ClockReading,
        estimate: DriftEstimate,
    ) -> bool {
        let queue = self.decode.frame_queue;
        let (next, rest, shown) = self.scheduler.poll(queue.frames@, queue.eos, clock, estimate);
        &&& after.state == (match self.poll_result(clock, estimate) {
            FramePollResult::NewFrame(frame) => state_after_frame(self.state, frame.pts),
            _ => self.state,
        })
        &&& after.scheduler == next
        &&& after.decode.frame_queue.frames@ == rest
        &&& after.decode.frame_queue.same_but_frames(queue)
        &&& after.decode.commands == self.decode.commands
        &&& after.decode.stop_flag == self.decode.stop_flag
        &&& after.decode.facts == self.decode.facts
        &&& after.decode.buffering_percent == self.decode.buffering_percent
        &&& after.audio_thread == self.audio_thread
        &&& after.same_setup(self)
    }

    /// Polls the scheduler once, and tells a new frame from one that is held.
    pub fn poll_frame_result(&mut self, clock: ClockReading, estimate: DriftEstimate) -> (result:
        FramePollResult)
        requires
            old(self).wf(),
        ensures
            final(self).wf(),
            result == old(self).poll_result(clock, estimate),
            old(self).polled(*final(self), clock, estimate),
    {
        let generation_before: u64 = self.scheduler.presentation_generation();
        proof {
            let queue = self.decode.frame_queue;
            law_poll_keeps_audio(self.scheduler, queue.frames@, queue.eos, clock, estimate);
            reveal(audio_kept);
        }
        let frame: Option<VideoFrame> = self.scheduler.get_next_frame(
            &mut self.decode.frame_queue,
            clock,
            estimate,
        );
        if self.scheduler.presentation_generation() != generation_before {
            let mut frame: VideoFrame = match frame {
                Some(frame) => frame,
                None => {
                    return if self.decode.frame_queue.is_eos() {
                        FramePollResult::EndOfStream
                    } else {
                        FramePollResult::Buffering
                    };
                },
            };
            frame.generation = self.scheduler.seek_generation();
            match &self.state {
                VideoState::Paused { .. } => {
                    self.state = VideoState::Paused { position: frame.pts };
                },
                VideoState::Ended | VideoState::Error(_) => {},
                _ => {
                    self.state = VideoState::Playing { position: frame.pts };
                },
            }
            return FramePollResult::NewFrame(frame);
        }
        if self.decode.frame_queue.is_eos() && self.decode.frame_queue.is_empty() {
            FramePollResult::EndOfStream
        } else if frame.is_some() {
            FramePollResult::Hold
        } else {
            FramePollResult::Buffering
        }
    }

    /// Polls the scheduler once, for callers that only want new frames.
    pub fn poll_frame(&mut self, clock: ClockReading, estimate: DriftEstimate) -> (frame: Option<
        VideoFrame,
    >)
        requires
            old(self).wf(),
        ensures
            final(self).wf(),
            frame == (match old(self).poll_result(clock, estimate) {
                FramePollResult::NewFrame(frame) => Some(frame),
                _ => None,
            }),
            old(self).polled(*final(self), clock, estimate),
    {
        match self.poll_frame_result(clock, estimate) {
            FramePollResult::NewFrame(frame) => Some(frame),
            _ => None,
        }
    }

    pub fn peek_frame(&self) -> (frame: Option<VideoFrame>)
        ensures
            frame == (if self.decode.frame_queue.frames@.len() == 0 {
                None
            } else {
                Some(self.decode.frame_queue.frames@[0])
            }),
    {
        self.decode.frame_queue.peek()
    }

    pub fn is_eos(&self) -> (eos: bool)
        ensures
            eos == self.decode.frame_queue.eos,
    {
        self.decode.frame_queue.is_eos()
    }

    pub fn is_queue_empty(&self) -> (empty: bool)
        ensures
            empty == (self.decode.frame_queue.frames@.len() == 0),
    {
        self.decode.frame_queue.is_empty()
    }

    /// The metadata with what the decode thread has found out.
    pub open spec fn synced_metadata(metadata: VideoMetadata, facts: MediaFacts) -> VideoMetadata {
        let sized = facts.dimensions is Some && facts.dimensions->0.width > 1
            && facts.dimensions->0.height > 1;
        let rated = facts.frame_rate_bits is Some && is_positive_float(facts.frame_rate_bits->0);
        VideoMetadata {
            duration: if facts.duration is Some {
                facts.duration
            } else {
                metadata.duration
            },
            width: if sized {
                facts.dimensions->0.width
            } else {
                metadata.width
            },
            height: if sized {
                facts.dimensions->0.height
            } else {
                metadata.height
            },
            frame_rate_bits: if rated {
                facts.frame_rate_bits->0
            } else {
                metadata.frame_rate_bits
            },
            ..metadata
        }
    }

    /// The scheduler once the metadata is known. A live stream is paced, by its
    /// own rate or by the default; a recorded one is not.
    pub open spec fn synced_pacing(
        scheduler: FrameScheduler,
        metadata: VideoMetadata,
        facts: MediaFacts,
        interval: Option<Duration>,
    ) -> FrameScheduler {
        match facts.frame_rate_bits {
            Some(bits) => if !is_positive_float(bits) {
                scheduler
            } else if metadata.duration is None {
                scheduler.with_pacing(interval)
            } else {
                scheduler.without_pacing()
            },
            None => if metadata.duration is None {
                scheduler.with_pacing(Some(Duration::from_nanos(DEFAULT_LIVE_INTERVAL_NS)))
            } else {
                scheduler
            },
        }
    }

    /// The player with what the decode thread has found out.
    pub open spec fn synced(self, interval: Option<Duration>) -> CorePlayer {
        match self.metadata {
            Some(metadata) if self.decoding => {
                let synced = Self::synced_metadata(metadata, self.decode.facts);
                CorePlayer {
                    metadata: Some(synced),
                    scheduler: Self::synced_pacing(
                        self.scheduler,
                        synced,
                        self.decode.facts,
                        interval,
                    ),
                    ..self
                }
            },
            _ => self,
        }
    }

    /// Takes over what the decode thread has found out. `interval` is the time
    /// between two frames at the rate that the thread published.
    pub fn sync_metadata_from_decode_thread(&mut self, interval: Option<Duration>)
        requires
            old(self).wf(),
        ensures
            final(self).wf(),
            *final(self) == old(self).synced(interval),
    {
        if !self.decoding {
            return;
        }
        let facts: MediaFacts = self.decode.facts;
        let known: VideoMetadata = match &self.metadata {
            Some(metadata) => metadata.clone(),
            None => {
                return;
            },
        };
        let metadata: VideoMetadata = Self::learn(known, facts);
        Self::pace(&mut self.scheduler, &metadata, facts, interval);
        self.metadata = Some(metadata);
    }

    fn learn(known: VideoMetadata, facts: MediaFacts) -> (metadata: VideoMetadata)
        ensures
            metadata == Self::synced_metadata(known, facts),
    {
        let mut metadata: VideoMetadata = known;
        if facts.duration.is_some() {
            metadata.duration = facts.duration;
        }
        if let Some(dimensions) = facts.dimensions {
            if dimensions.width > 1 && dimensions.height > 1 {
                metadata.width = dimensions.width;
                metadata.height = dimensions.height;
            }
        }
        if let Some(bits) = facts.frame_rate_bits {
            if is_positive_float(bits) {
                metadata.frame_rate_bits = bits;
            }
        }
        metadata
    }

    fn pace(
        scheduler: &mut FrameScheduler,
        metadata: &VideoMetadata,
        facts: MediaFacts,
        interval: Option<Duration>,
    )
        ensures
            *final(scheduler) == Self::synced_pacing(*old(scheduler), *metadata, facts, interval),
            final(scheduler).audio_handle == old(scheduler).audio_handle,
    {
        match facts.frame_rate_bits {
            Some(bits) => {
                if is_positive_float(bits) {
                    if metadata.duration.is_none() {
                        scheduler.set_frame_rate_pacing(interval);
                    } else {
                        scheduler.clear_frame_rate_pacing();
                    }
                }
            },
            None => {
                if metadata.duration.is_none() {
                    scheduler.set_frame_rate_pacing(
                        Some(Duration::from_nanos(DEFAULT_LIVE_INTERVAL_NS)),
                    );
                }
            },
        }
    }

    pub fn dimensions(&self) -> (dimensions: Option<Dimensions>)
        ensures
            dimensions == (if self.decoding && self.decode.facts.dimensions is Some {
                self.decode.facts.dimensions
            } else {
                match self.metadata {
                    Some(metadata) => Some(
                        Dimensions { width: metadata.width, height: metadata.height },
                    ),
                    None => None,
                }
            }),
    {
        if self.decoding {
            let dimensions: Option<Dimensions> = self.decode.dimensions();
            if dimensions.is_some() {
                return dimensions;
            }
        }
        match &self.metadata {
            Some(metadata) => Some(Dimensions { width: metadata.width, height: metadata.height }),
            None => None,
        }
    }

    /// The bits of the frame rate.
    pub fn frame_rate(&self) -> (bits: Option<u32>)
        ensures
            bits == (if self.decoding && self.decode.facts.frame_rate_bits is Some {
                self.decode.facts.frame_rate_bits
            } else {
                match self.metadata {
                    Some(metadata) => Some(metadata.frame_rate_bits),
                    None => None,
                }
            }),
    {
        if self.decoding {
            let bits: Option<u32> = self.decode.frame_rate();
            if bits.is_some() {
                return bits;
            }
        }
        match &self.metadata {
            Some(metadata) => Some(metadata.frame_rate_bits),
            None => None,
        }
    }

    /// What is buffered, from nought to a hundred; all of it where there is no
    /// decode thread.
    pub fn buffering_percent(&self) -> (percent: i32)
        ensures
            percent == (if self.decoding {
                self.decode.buffering_percent
            } else {
                100
            }),
    {
        if self.decoding {
            self.decode.buffering_percent()
        } else {
            100
        }
    }

    pub fn is_audio_stall(&self) -> (stalled: bool)
        ensures
            stalled == self.scheduler.is_audio_stall(),
    {
        self.scheduler.is_audio_stall()
    }

    pub fn android_player_id(&self) -> (id: u64)
        ensures
            id == self.android_player_id,
    {
        self.android_player_id
    }

    /// A player before and after it was muted or not.
    pub open spec fn muted_to(self, after: CorePlayer, muted: bool) -> bool {
        let set = self.with_audio(AudioHandle { muted, ..self.audio() });
        &&& after.scheduler == set.scheduler
        &&& after.own_audio == set.own_audio
        &&& if self.decoding && self.platform.decoder_has_volume() {
            decode_ordered(self.decode, after.decode, seq![DecodeCommand::SetMuted(muted)])
        } else {
            after.decode == self.decode
        }
        &&& after.state == self.state
        &&& after.audio_thread == self.audio_thread
        &&& after.same_setup(set)
    }

    pub fn set_muted(&mut self, muted: bool)
        requires
            old(self).wf(),
        ensures
            final(self).wf(),
            old(self).muted_to(*final(self), muted),
    {
        self.audio_handle_mut().set_muted(muted);
        if self.decoding && self.platform.decoder_has_volume() {
            self.decode.set_muted(muted);
        }
    }

    /// A player before and after its volume was set.
    pub open spec fn volume_set(self, after: CorePlayer, volume: u32) -> bool {
        let set = self.with_audio(
            AudioHandle {
                volume: (if volume > 100 {
                    100
                } else {
                    volume
                }),
                ..self.audio()
            },
        );
        &&& after.scheduler == set.scheduler
        &&& after.own_audio == set.own_audio
        &&& if self.decoding && self.platform.decoder_has_volume() {
            decode_ordered(self.decode, after.decode, seq![DecodeCommand::SetVolume(volume)])
        } else {
            after.decode == self.decode
        }
        &&& after.state == self.state
        &&& after.audio_thread == self.audio_thread
        &&& after.same_setup(set)
    }

    /// Sets the volume. The handle takes a hundred at most; the decoder is told
    /// what was asked for.
    pub fn set_volume(&mut self, volume: u32)
        requires
            old(self).wf(),
        ensures
            final(self).wf(),
            old(self).volume_set(*final(self), volume),
    {
        self.audio_handle_mut().set_volume(volume);
        if self.decoding && self.platform.decoder_has_volume() {
            self.decode.set_volume(volume);
        }
    }

    /// A step of the decode thread, seen from the player. The thread works on the
    /// handle that the scheduler follows, where the decoder plays the audio; else it
    /// has none.
    pub open spec fn decode_advanced(
        self,
        after: CorePlayer,
        task: DecodeTask,
        event: DecodeEvent,
        progress: Progress,
    ) -> bool {
        let (heard_before, heard_after) = if self.decoder_plays_audio {
            (self.scheduler.audio_handle, after.scheduler.audio_handle)
        } else {
            (None, None)
        };
        &&& progressed(
            task,
            event,
            self.decode,
            after.decode,
            heard_before,
            heard_after,
            progress,
        )
        &&& after == (CorePlayer {
            decode: after.decode,
            scheduler: if self.decoder_plays_audio {
                FrameScheduler { audio_handle: heard_after, ..self.scheduler }
            } else {
                self.scheduler
            },
            ..self
        })
    }

    /// Takes the decode thread a step further. A position that a decoder with its own
    /// audio publishes is the one that the scheduler follows from then on.
    pub fn advance_decode(&mut self, task: &mut DecodeTask, event: DecodeEvent) -> (action:
        DecodeAction)
        requires
            old(self).wf(),
            old(task).phase.wf(),
            old(task).phase.expects(event),
        ensures
            final(self).wf(),
            final(task).phase.wf(),
            final(task).phase.awaits(action),
            final(task).started == old(task).started,
            old(self).decode_advanced(
                *final(self),
                *old(task),
                event,
                Progress { phase: final(task).phase, action },
            ),
    {
        if self.decoder_plays_audio {
            task.advance(event, &mut self.decode, &mut self.scheduler.audio_handle)
        } else {
            let mut none: Option<AudioHandle> = None;
            task.advance(event, &mut self.decode, &mut none)
        }
    }

    /// A step of the audio thread, seen from the player: it works on the handle that
    /// the scheduler follows.
    pub open spec fn audio_advanced(
        self,
        after: CorePlayer,
        task: AudioTask,
        event: AudioEvent,
        ring_before: RingBufferShared,
        ring_after: RingBufferShared,
        progress: AudioProgress,
    ) -> bool {
        &&& after.audio_thread is Some
        &&& after.scheduler.audio_handle is Some
        &&& audio_progressed(
            task.phase,
            event,
            self.audio_thread->0@,
            after.audio_thread->0@,
            ring_before,
            ring_after,
            self.scheduler.audio_handle->0,
            after.scheduler.audio_handle->0,
            progress,
        )
        &&& after == (CorePlayer {
            audio_thread: after.audio_thread,
            scheduler: FrameScheduler {
                audio_handle: after.scheduler.audio_handle,
                ..self.scheduler
            },
            ..self
        })
    }

    /// Takes the audio thread a step further.
    pub fn advance_audio(
        &mut self,
        task: &mut AudioTask,
        event: AudioEvent,
        producer: &RingBufferProducer,
        ring: &mut RingBufferShared,
    ) -> (action: AudioAction)
        requires
            old(self).wf(),
            old(self).audio_thread is Some,
            old(self).scheduler.audio_handle is Some,
            old(task).phase.expects(event),
            old(ring).wf(),
        ensures
            final(self).wf(),
            final(ring).wf(),
            final(task).phase.awaits(action),
            old(self).audio_advanced(
                *final(self),
                *old(task),
                event,
                *old(ring),
                *final(ring),
                AudioProgress { phase: final(task).phase, action },
            ),
    {
        task.advance(
            event,
            self.audio_thread.as_mut().unwrap(),
            self.scheduler.audio_handle.as_mut().unwrap(),
            producer,
            ring,
        )
    }

    /// Ends the threads, as when the player is dropped.
    pub fn stop(&mut self)
        requires
            old(self).wf(),
        ensures
            final(self).wf(),
            if old(self).decoding {
                &&& final(self).decode.commands@ =~= old(self).decode.commands@.push(
                    DecodeCommand::Stop,
                )
                &&& final(self).decode.frame_queue == (FrameQueue {
                    stopped: true,
                    ..old(self).decode.frame_queue
                })
                &&& final(self).decode.stop_flag
                &&& final(self).decode.facts == old(self).decode.facts
                &&& final(self).decode.buffering_percent == old(self).decode.buffering_percent
            } else {
                final(self).decode == old(self).decode
            },
            match old(self).audio_thread {
                Some(thread) => final(self).audio_thread is Some
                    && final(self).audio_thread->0.stop_flag
                    && final(self).audio_thread->0.commands@ =~= thread.commands@.push(
                    DecodeCommand::Stop,
                ),
                None => final(self).audio_thread is None,
            },
            *final(self) == (CorePlayer {
                decode: final(self).decode,
                audio_thread: final(self).audio_thread,
                startup: Startup { init_thread: false, ..old(self).startup },
                ..*old(self)
            }),
    {
        if self.decoding {
            self.decode.stop();
        }
        match self.audio_thread.take() {
            Some(mut thread) => {
                thread.stop();
                self.audio_thread = Some(thread);
            },
            None => {},
        }
        self.startup.init_thread = false;
    }
}

/// An error is for good: neither a seek nor a frame that comes late changes it.
pub proof fn law_error_is_terminal(state: VideoState, position: Duration)
    requires
        state is Error,
    ensures
        state_after_seek(state, position) == state,
        state_after_frame(state, position) == state,
{
}

/// A frame that is held is not handed out again: a poll that shows nothing new
/// leaves the state of playback and gives no frame.
pub proof fn law_held_frame_is_not_new(
    player: CorePlayer,
    clock: ClockReading,
    estimate: DriftEstimate,
)
    requires
        ({
            let queue = player.decode.frame_queue;
            player.scheduler.poll(queue.frames@, queue.eos, clock, estimate).0.presentation_generation
                == player.scheduler.presentation_generation
        }),
    ensures
        player.poll_result(clock, estimate) !is NewFrame,
{
}

/// Every new frame carries the number of seeks made so far, so that a frame of
/// an earlier place can be told apart.
pub proof fn law_new_frame_is_stamped(
    player: CorePlayer,
    clock: ClockReading,
    estimate: DriftEstimate,
)
    requires
        player.poll_result(clock, estimate) is NewFrame,
    ensures
        ({
            let queue = player.decode.frame_queue;
            player.poll_result(clock, estimate)->NewFrame_0.generation == player.scheduler.poll(
                queue.frames@,
                queue.eos,
                clock,
                estimate,
            ).0.seek_generation
        }),
{
}

/// The audio that a player controls and the audio that its scheduler follows are one
/// and the same, and stay so: playing, pausing, seeking, polling, muting, setting the
/// volume, and the steps of both threads keep it.
pub proof fn law_player_and_scheduler_share_audio(
    before: CorePlayer,
    after: CorePlayer,
    muted: bool,
    volume: u32,
    position: Duration,
    clock: ClockReading,
    estimate: DriftEstimate,
    decode: (DecodeTask, DecodeEvent, Progress),
    audio: (AudioTask, AudioEvent, AudioProgress),
    rings: (RingBufferShared, RingBufferShared),
)
    requires
        before.own_audio is None,
        before.scheduler.audio_handle is Some,
        ({
            ||| before.played(after, muted, clock.now)
            ||| before.paused(after, clock.now)
            ||| before.sought(after, position, clock.unix_us)
            ||| before.polled(after, clock, estimate)
            ||| before.muted_to(after, muted)
            ||| before.volume_set(after, volume)
            ||| before.decode_advanced(after, decode.0, decode.1, decode.2)
            ||| before.audio_advanced(after, audio.0, audio.1, rings.0, rings.1, audio.2)
        }),
    ensures
        after.own_audio is None,
        after.scheduler.audio_handle == Some(after.audio()),
{
    let queue = before.decode.frame_queue;
    law_poll_keeps_audio(before.scheduler, queue.frames@, queue.eos, clock, estimate);
    reveal(audio_kept);
}

/// Where the decoder plays the audio, a position that it publishes is the one that
/// frames are chosen by, once the clock of the audio has started.
pub proof fn law_published_position_is_followed(
    before: CorePlayer,
    after: CorePlayer,
    task: DecodeTask,
    seen: Observation,
    progress: Progress,
    now: Instant,
)
    requires
        before.decoder_plays_audio,
        before.scheduler.use_audio_as_sync_master,
        before.scheduler.audio_handle matches Some(audio) && audio.available
            && audio.playback_epoch_us != 0 && audio.stream_pts_offset_us == 0,
        task.phase matches DecodePhase::Observing(state) && state.position_due(seen.now),
        seen.position matches Some(position) && position.micros_u64() > 0,
        before.decode_advanced(after, task, DecodeEvent::Observed(seen), progress),
    ensures
        after.scheduler.chosen_position(now) == Duration::from_micros(
            seen.position->0.micros_u64(),
        ),
{
}

/// Once a first frame has started the clock of the audio that a player controls, its
/// output is heard: the callback of the same handle does not hold it back any more.
pub proof fn law_first_frame_starts_the_audio(
    player: CorePlayer,
    clock: ClockReading,
    estimate: DriftEstimate,
)
    requires
        player.own_audio is None,
        player.scheduler.audio_handle is Some,
        player.scheduler.use_audio_as_sync_master,
        player.scheduler.waiting_for_first_frame,
        player.scheduler.playback_requested,
        player.decode.frame_queue.frames@.len() > 0,
        !player.decode.frame_queue.frames@[0].pts.is_zero(),
        clock.unix_us != 0,
    ensures
        ({
            let queue = player.decode.frame_queue;
            let next = player.scheduler.poll(queue.frames@, queue.eos, clock, estimate).0;
            &&& next.audio_handle is Some
            &&& next.audio_handle->0.playback_epoch_us == clock.unix_us
            &&& next.audio_handle->0.samples_played == 0
        }),
{
    let queue = player.decode.frame_queue;
    let shown = FrameScheduler {
        stalled: false,
        stall_cooldown_until: None,
        ..player.scheduler.with_clock_started(queue.frames@[0].pts, clock).presenting(
            queue.frames@[0],
        )
    }.paced(clock.now);
    assert(shown.audio_handle == Some(
        player.scheduler.audio_handle->0.with_epoch_started(clock.unix_us),
    ));
    assert(shown.with_sync_recorded(queue.frames@[0].pts, clock).audio_handle
        == shown.audio_handle);
}

} // verus!
