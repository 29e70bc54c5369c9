//! The seam between a media session and what observes it.
//!
//! The adapter behind a [`MediaSession`] owns its source, its timing and its
//! buffers. Only the values of this module cross the seam.

use crate::time::Duration;
use crate::video::VideoMetadata;
use vstd::prelude::*;
use vstd::string::StringExecFns;

verus! {

/// A timestamp on the master clock of a session.
pub type MediaTime = Duration;

/// Stream metadata under the name that sessions use.
pub type SessionMetadata = VideoMetadata;

/// How frames are delivered in a session.
#[derive(Debug, Clone, Copy, PartialEq, Eq, Structural)]
pub enum CapabilityTier {
    /// The renderer aliases the memory of the producer.
    DirectAlias,
    /// The renderer imports native memory and converts or copies it on the GPU.
    GpuConversion,
    /// Frames come in system memory and are uploaded.
    SystemMemoryUpload,
}

#[derive(Debug, Clone, Copy, PartialEq, Eq, Structural)]
pub enum DecodeMode {
    Hardware,
    Software,
}

/// Where a decoded frame is before it is presented.
#[derive(Debug, Clone, Copy, PartialEq, Eq, Structural)]
pub enum DecodeResidency {
    NativeGpu,
    SystemMemory,
}

/// How the renderer took a decoded frame.
#[derive(Debug, Clone, Copy, PartialEq, Eq, Structural)]
pub enum ImportMode {
    DirectAlias,
    GpuCopy,
    CpuUpload,
}

/// What was done to a frame between decoding and presentation.
#[derive(Debug, Clone, Copy, PartialEq, Eq, Structural)]
pub enum ConversionMode {
    Unconverted,
    YuvShader,
    GpuBlit,
    Scale,
    ToneMap,
}

/// How producer and consumer of a frame were synchronized.
#[derive(Debug, Clone, Copy, PartialEq, Eq, Structural)]
pub enum SynchronizationMode {
    Unsynchronized,
    Explicit,
    VerifiedImplicit,
    CpuWait,
}

/// How a frame reached the screen.
#[derive(Debug, Clone, Copy, PartialEq, Eq, Structural)]
pub struct FrameRealization {
    pub decode: DecodeMode,
    pub residency: DecodeResidency,
    pub import: ImportMode,
    pub conversion: ConversionMode,
    pub synchronization: SynchronizationMode,
}

impl FrameRealization {
    /// A frame decoded in software and uploaded from system memory.
    pub fn system_memory_upload() -> (realization: Self)
        ensures
            realization == (FrameRealization {
                decode: DecodeMode::Software,
                residency: DecodeResidency::SystemMemory,
                import: ImportMode::CpuUpload,
                conversion: ConversionMode::Unconverted,
                synchronization: SynchronizationMode::Unsynchronized,
            }),
    {
        FrameRealization {
            decode: DecodeMode::Software,
            residency: DecodeResidency::SystemMemory,
            import: ImportMode::CpuUpload,
            conversion: ConversionMode::Unconverted,
            synchronization: SynchronizationMode::Unsynchronized,
        }
    }

    /// The tier that the import amounts to.
    #[verifier::allow_in_spec]
    pub fn capability_tier(self) -> CapabilityTier
        returns
            (match self.import {
                ImportMode::DirectAlias => CapabilityTier::DirectAlias,
                ImportMode::GpuCopy => CapabilityTier::GpuConversion,
                ImportMode::CpuUpload => CapabilityTier::SystemMemoryUpload,
            }),
    {
        match self.import {
            ImportMode::DirectAlias => CapabilityTier::DirectAlias,
            ImportMode::GpuCopy => CapabilityTier::GpuConversion,
            ImportMode::CpuUpload => CapabilityTier::SystemMemoryUpload,
        }
    }
}

/// What a renderer made of a frame.
#[derive(Debug, Clone, Copy, PartialEq, Eq, Structural)]
pub enum RendererOutcome {
    Accepted,
    Unsupported,
    TransientFailure,
    FatalFailure,
}

/// Why a session left a tier.
#[derive(Debug, Clone, Copy, PartialEq, Eq, Structural)]
pub enum CapabilityDowngradeReason {
    HardwareOpenFailure,
    HardwareDecodeFailure,
    HardwareUnavailable,
    UnsafeSync,
    UnsupportedImport,
    UnsupportedColor,
    TransientImport,
    RendererUnsupported,
    RendererTransientFailure,
    RendererFatalFailure,
    TransitionTimeout,
}

/// Where a session stands.
#[derive(Debug, PartialEq)]
pub enum SessionState {
    Loading,
    Ready,
    Playing { position: MediaTime },
    Paused { position: MediaTime },
    Buffering { position: MediaTime },
    Error(SessionError),
    Ended,
}

impl Clone for SessionState {
    fn clone(&self) -> (copy: Self)
        ensures
            copy == *self,
    {
        match self {
            SessionState::Loading => SessionState::Loading,
            SessionState::Ready => SessionState::Ready,
            SessionState::Playing { position } => SessionState::Playing { position: *position },
            SessionState::Paused { position } => SessionState::Paused { position: *position },
            SessionState::Buffering { position } => SessionState::Buffering {
                position: *position,
            },
            SessionState::Error(error) => SessionState::Error(error.clone()),
            SessionState::Ended => SessionState::Ended,
        }
    }
}

/// What an adapter can report.
#[derive(Debug, PartialEq, Eq)]
pub enum SessionError {
    InvalidCommand(String),
    Open(String),
    Decode(String),
    Seek(String),
    Network(String),
    Tls(String),
    Unsupported(String),
    Fatal(String),
}

impl Clone for SessionError {
    fn clone(&self) -> (copy: Self)
        ensures
            copy == *self,
    {
        match self {
            SessionError::InvalidCommand(message) => SessionError::InvalidCommand(message.clone()),
            SessionError::Open(message) => SessionError::Open(message.clone()),
            SessionError::Decode(message) => SessionError::Decode(message.clone()),
            SessionError::Seek(message) => SessionError::Seek(message.clone()),
            SessionError::Network(message) => SessionError::Network(message.clone()),
            SessionError::Tls(message) => SessionError::Tls(message.clone()),
            SessionError::Unsupported(message) => SessionError::Unsupported(message.clone()),
            SessionError::Fatal(message) => SessionError::Fatal(message.clone()),
        }
    }
}

impl SessionError {
    pub open spec fn prefix(&self) -> Seq<char> {
        match self {
            SessionError::InvalidCommand(_) => "invalid session command: "@,
            SessionError::Open(_) => "failed to open media: "@,
            SessionError::Decode(_) => "media decode failed: "@,
            SessionError::Seek(_) => "media seek failed: "@,
            SessionError::Network(_) => "media network error: "@,
            SessionError::Tls(_) => "media TLS error: "@,
            SessionError::Unsupported(_) => "unsupported media: "@,
            SessionError::Fatal(_) => "fatal media-session error: "@,
        }
    }

    pub open spec fn detail(&self) -> Seq<char> {
        match self {
            SessionError::InvalidCommand(message) => message@,
            SessionError::Open(message) => message@,
            SessionError::Decode(message) => message@,
            SessionError::Seek(message) => message@,
            SessionError::Network(message) => message@,
            SessionError::Tls(message) => message@,
            SessionError::Unsupported(message) => message@,
            SessionError::Fatal(message) => message@,
        }
    }

    /// The error as it is shown to a user.
    pub fn text(&self) -> (text: String)
        ensures
            text@ == self.prefix() + self.detail(),
    {
        let (prefix, message) = match self {
            SessionError::InvalidCommand(message) => ("invalid session command: ", message),
            SessionError::Open(message) => ("failed to open media: ", message),
            SessionError::Decode(message) => ("media decode failed: ", message),
            SessionError::Seek(message) => ("media seek failed: ", message),
            SessionError::Network(message) => ("media network error: ", message),
            SessionError::Tls(message) => ("media TLS error: ", message),
            SessionError::Unsupported(message) => ("unsupported media: ", message),
            SessionError::Fatal(message) => ("fatal media-session error: ", message),
        };
        prefix.to_owned().concat(message.as_str())
    }
}

/// One audio track of a source. The id stays the same for as long as the source
/// is open.
#[derive(Debug, PartialEq, Eq)]
pub struct AudioTrack {
    pub id: String,
    pub language: Option<String>,
    pub title: Option<String>,
    pub codec: String,
}

pub(crate) fn copy_text(text: &Option<String>) -> (copy: Option<String>)
    ensures
        copy == *text,
{
    match text {
        Some(text) => Some(text.clone()),
        None => None,
    }
}

impl Clone for AudioTrack {
    fn clone(&self) -> (copy: Self)
        ensures
            copy == *self,
    {
        AudioTrack {
            id: self.id.clone(),
            language: copy_text(&self.language),
            title: copy_text(&self.title),
            codec: self.codec.clone(),
        }
    }
}

/// Orders to an adapter.
#[derive(Debug, PartialEq, Eq)]
pub enum SessionCommand {
    Play,
    Pause,
    Stop,
    Seek { position: MediaTime },
    SetMuted { muted: bool },
    /// The bits of a 32-bit float between zero and one.
    SetVolume { volume_bits: u32 },
    SelectAudioTrack { id: String },
    /// Ask for another tier.
    Renegotiate { tier: CapabilityTier },
}

/// What an adapter emits, in the order in which it happened.
#[derive(Debug)]
pub enum SessionEvent<F> {
    Metadata { metadata: SessionMetadata },
    StateChanged { state: SessionState },
    Frame { pts: MediaTime, frame: F },
    AudioTracks { tracks: Vec<AudioTrack>, selected_id: Option<String> },
    AudioTrackSelected { track: AudioTrack },
    /// The selection failed; the session plays on with the track before it.
    AudioTrackSelectionFailed {
        requested_id: String,
        prior_restored_id: Option<String>,
        reason: String,
    },
    Ended,
    Error(SessionError),
}

/// A session as it can be read without consuming events.
#[derive(Debug, PartialEq)]
pub struct SessionSnapshot {
    pub state: SessionState,
    pub metadata: Option<SessionMetadata>,
    pub capability: CapabilityTier,
}

impl Clone for SessionSnapshot {
    fn clone(&self) -> (copy: Self)
        ensures
            copy == *self,
    {
        SessionSnapshot {
            state: self.state.clone(),
            metadata: match &self.metadata {
                Some(metadata) => Some(metadata.clone()),
                None => None,
            },
            capability: self.capability,
        }
    }
}

impl SessionSnapshot {
    /// A session that is loading, with the tier that was agreed on.
    pub fn new(capability: CapabilityTier) -> (snapshot: Self)
        ensures
            snapshot.state is Loading,
            snapshot.metadata is None,
            snapshot.capability == capability,
    {
        SessionSnapshot { state: SessionState::Loading, metadata: None, capability }
    }
}

/// An adapter for files, native players and live streams.
///
/// No operation blocks: a command is queued, and only what is wrong with it at
/// once is reported; an event is handed out in the order of its making, or none
/// where none is ready. What fails later comes as [`SessionEvent::Error`].
pub trait MediaSession: Send {
    type Frame: Send;

    fn snapshot(&self) -> SessionSnapshot;

    fn command(&mut self, command: SessionCommand) -> Result<(), SessionError>;

    fn try_next_event(&mut self) -> Result<Option<SessionEvent<Self::Frame>>, SessionError>;
}

} // verus!
