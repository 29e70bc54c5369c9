//! Playback state and stream metadata, apart from any platform.

use crate::time::Duration;
use vstd::prelude::*;
use vstd::string::StringExecFns;

verus! {

/// A decoded frame that waits to be shown.
///
/// The pixels stay with the decoder; `id` is the name by which they are found
/// again.
#[derive(Debug, Clone, Copy, PartialEq, Eq, Structural)]
pub struct VideoFrame {
    pub pts: Duration,
    pub width: u32,
    pub height: u32,
    pub id: u64,
    /// Seeks made before the frame was shown.
    pub generation: u64,
}

impl VideoFrame {
    pub fn new(pts: Duration, width: u32, height: u32, id: u64) -> (frame: Self)
        ensures
            frame == (VideoFrame { pts, width, height, id, generation: 0 }),
    {
        VideoFrame { pts, width, height, id, generation: 0 }
    }

    #[verifier::allow_in_spec]
    pub fn dimensions(&self) -> (u32, u32)
        returns
            (self.width, self.height),
    {
        (self.width, self.height)
    }
}

/// Where playback stands.
#[derive(Debug, PartialEq)]
pub enum VideoState {
    Loading,
    Ready,
    Playing { position: Duration },
    Paused { position: Duration },
    Buffering { position: Duration },
    Error(VideoError),
    Ended,
}

/// What can go wrong during playback.
#[derive(Debug, PartialEq, Eq)]
pub enum VideoError {
    OpenFailed(String),
    DecoderInit(String),
    DecodeFailed(String),
    SeekFailed(String),
    UnsupportedFormat(String),
    Network(String),
    Tls(String),
    Generic(String),
}

impl Clone for VideoError {
    fn clone(&self) -> (copy: Self)
        ensures
            copy == *self,
    {
        match self {
            VideoError::OpenFailed(message) => VideoError::OpenFailed(message.clone()),
            VideoError::DecoderInit(message) => VideoError::DecoderInit(message.clone()),
            VideoError::DecodeFailed(message) => VideoError::DecodeFailed(message.clone()),
            VideoError::SeekFailed(message) => VideoError::SeekFailed(message.clone()),
            VideoError::UnsupportedFormat(message) => VideoError::UnsupportedFormat(message.clone()),
            VideoError::Network(message) => VideoError::Network(message.clone()),
            VideoError::Tls(message) => VideoError::Tls(message.clone()),
            VideoError::Generic(message) => VideoError::Generic(message.clone()),
        }
    }
}

impl VideoError {
    pub open spec fn prefix(&self) -> Seq<char> {
        match self {
            VideoError::OpenFailed(_) => "Failed to open video: "@,
            VideoError::DecoderInit(_) => "Decoder initialization failed: "@,
            VideoError::DecodeFailed(_) => "Frame decode failed: "@,
            VideoError::SeekFailed(_) => "Seek failed: "@,
            VideoError::UnsupportedFormat(_) => "Unsupported format: "@,
            VideoError::Network(_) => "Network error: "@,
            VideoError::Tls(_) => "TLS error: "@,
            VideoError::Generic(_) => "Video error: "@,
        }
    }

    pub open spec fn detail(&self) -> Seq<char> {
        match self {
            VideoError::OpenFailed(message) => message@,
            VideoError::DecoderInit(message) => message@,
            VideoError::DecodeFailed(message) => message@,
            VideoError::SeekFailed(message) => message@,
            VideoError::UnsupportedFormat(message) => message@,
            VideoError::Network(message) => message@,
            VideoError::Tls(message) => message@,
            VideoError::Generic(message) => message@,
        }
    }

    /// The error as it is shown to a user.
    pub fn text(&self) -> (text: String)
        ensures
            text@ == self.prefix() + self.detail(),
    {
        let (prefix, message) = match self {
            VideoError::OpenFailed(message) => ("Failed to open video: ", message),
            VideoError::DecoderInit(message) => ("Decoder initialization failed: ", message),
            VideoError::DecodeFailed(message) => ("Frame decode failed: ", message),
            VideoError::SeekFailed(message) => ("Seek failed: ", message),
            VideoError::UnsupportedFormat(message) => ("Unsupported format: ", message),
            VideoError::Network(message) => ("Network error: ", message),
            VideoError::Tls(message) => ("TLS error: ", message),
            VideoError::Generic(message) => ("Video error: ", message),
        };
        prefix.to_owned().concat(message.as_str())
    }
}

impl Clone for VideoState {
    fn clone(&self) -> (copy: Self)
        ensures
            copy == *self,
    {
        match self {
            VideoState::Loading => VideoState::Loading,
            VideoState::Ready => VideoState::Ready,
            VideoState::Playing { position } => VideoState::Playing { position: *position },
            VideoState::Paused { position } => VideoState::Paused { position: *position },
            VideoState::Buffering { position } => VideoState::Buffering { position: *position },
            VideoState::Error(error) => VideoState::Error(error.clone()),
            VideoState::Ended => VideoState::Ended,
        }
    }
}

impl VideoState {
    /// The position of a state that has one.
    #[verifier::allow_in_spec]
    pub fn position(&self) -> Option<Duration>
        returns
            (match self {
                VideoState::Playing { position } => Some(*position),
                VideoState::Paused { position } => Some(*position),
                VideoState::Buffering { position } => Some(*position),
                _ => None::<Duration>,
            }),
    {
        match self {
            VideoState::Playing { position } => Some(*position),
            VideoState::Paused { position } => Some(*position),
            VideoState::Buffering { position } => Some(*position),
            VideoState::Loading | VideoState::Ready | VideoState::Error(_)
            | VideoState::Ended => None,
        }
    }

    #[verifier::allow_in_spec]
    pub fn is_playing(&self) -> bool
        returns
            self is Playing,
    {
        matches!(self, VideoState::Playing { .. })
    }

    /// True for the states from which playback can be started.
    #[verifier::allow_in_spec]
    pub fn can_play(&self) -> bool
        returns
            self is Ready || self is Paused || self is Ended,
    {
        matches!(self, VideoState::Ready | VideoState::Paused { .. } | VideoState::Ended)
    }
}

/// True where the bits are those of a 32-bit float above zero: the sign is
/// clear, and the value is neither zero nor not a number.
#[verifier::allow_in_spec]
pub fn is_positive_float(bits: u32) -> bool
    returns
        0 < bits <= 0x7F80_0000,
{
    0 < bits && bits <= 0x7F80_0000
}

/// Description of one video stream. The two ratios are held as the bits of
/// 32-bit floats.
#[derive(Debug, PartialEq, Eq)]
pub struct VideoMetadata {
    pub width: u32,
    pub height: u32,
    /// Not known for a live stream.
    pub duration: Option<Duration>,
    pub frame_rate_bits: u32,
    pub codec: String,
    pub pixel_aspect_ratio_bits: u32,
    pub start_time: Option<Duration>,
}

/// The time between two frames where the rate is not known, in milliseconds.
pub const DEFAULT_FRAME_MS: u64 = 33;

impl VideoMetadata {
    /// True where the rate is above zero and finite.
    #[verifier::allow_in_spec]
    pub fn has_frame_rate(&self) -> bool
        returns
            0 < self.frame_rate_bits < 0x7F80_0000,
    {
        0 < self.frame_rate_bits && self.frame_rate_bits < 0x7F80_0000
    }

    /// The time between two frames. `interval` is what one over the rate comes to; it
    /// counts where there is a rate.
    #[verifier::allow_in_spec]
    pub fn frame_duration(&self, interval: Duration) -> Duration
        returns
            (if self.has_frame_rate() {
                interval
            } else {
                Duration::from_millis(DEFAULT_FRAME_MS)
            }),
    {
        if self.has_frame_rate() {
            interval
        } else {
            Duration::from_millis(DEFAULT_FRAME_MS)
        }
    }
}

impl Clone for VideoMetadata {
    fn clone(&self) -> (copy: Self)
        ensures
            copy == *self,
    {
        VideoMetadata {
            width: self.width,
            height: self.height,
            duration: self.duration,
            frame_rate_bits: self.frame_rate_bits,
            codec: self.codec.clone(),
            pixel_aspect_ratio_bits: self.pixel_aspect_ratio_bits,
            start_time: self.start_time,
        }
    }
}

/// What a caller can observe of a player.
#[derive(Debug, PartialEq)]
pub struct VideoPlayerHandle {
    pub state: VideoState,
    pub metadata: Option<VideoMetadata>,
}

impl VideoPlayerHandle {
    pub fn new() -> (handle: Self)
        ensures
            handle.state is Loading,
            handle.metadata is None,
    {
        VideoPlayerHandle { state: VideoState::Loading, metadata: None }
    }

    pub fn state(&self) -> (state: VideoState)
        ensures
            state == self.state,
    {
        self.state.clone()
    }

    pub fn set_state(&mut self, state: VideoState)
        ensures
            *final(self) == (VideoPlayerHandle { state, ..*old(self) }),
    {
        self.state = state;
    }

    pub fn metadata(&self) -> (metadata: Option<VideoMetadata>)
        ensures
            metadata == self.metadata,
    {
        match &self.metadata {
            Some(metadata) => Some(metadata.clone()),
            None => None,
        }
    }

    pub fn set_metadata(&mut self, metadata: VideoMetadata)
        ensures
            *final(self) == (VideoPlayerHandle { metadata: Some(metadata), ..*old(self) }),
    {
        self.metadata = Some(metadata);
    }
}

impl Default for VideoPlayerHandle {
    fn default() -> (handle: Self)
        ensures
            handle.state is Loading,
            handle.metadata is None,
    {
        VideoPlayerHandle::new()
    }
}

} // verus!
