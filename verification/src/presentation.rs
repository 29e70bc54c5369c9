//! How decoded frames reach the screen: shared with the graphics card, or, once
//! that has failed, uploaded from system memory.

use crate::frame_queue::FrameQueue;
use crate::session::{
    CapabilityDowngradeReason, CapabilityTier, ConversionMode, DecodeMode, DecodeResidency,
    FrameRealization, ImportMode, RendererOutcome, SynchronizationMode,
};
use crate::time::{Duration, Instant};
use crate::video::{VideoFrame, VideoState};
use vstd::prelude::*;
use vstd::string::StringExecFns;

verus! {

/// The vendor whose frames can be shared.
pub const SHARING_VENDOR: u32 = 0x8086;

/// Whether a frame is to be shown although playback is paused.
#[derive(Debug, Clone, Copy, PartialEq, Eq, Structural)]
pub struct PreviewState {
    pub refresh_requested: bool,
}

impl PreviewState {
    pub fn new() -> (preview: Self)
        ensures
            preview.refresh_requested,
    {
        PreviewState { refresh_requested: true }
    }

    /// Asks for a new preview, as after a seek or for another source.
    pub fn invalidate(&mut self)
        ensures
            final(self).refresh_requested,
    {
        self.refresh_requested = true;
    }

    /// The frame to show, where one is asked for and has come. It stays in the
    /// queue.
    pub fn frame(&self, queue: &FrameQueue) -> (frame: Option<VideoFrame>)
        ensures
            frame == (if self.refresh_requested && queue.frames@.len() > 0 {
                Some(queue.frames@[0])
            } else {
                None::<VideoFrame>
            }),
    {
        if self.refresh_requested {
            queue.peek()
        } else {
            None
        }
    }

    /// The preview is on display; only now is it not asked for any more.
    pub fn presented(&mut self)
        ensures
            !final(self).refresh_requested,
    {
        self.refresh_requested = false;
    }
}

/// Where the way that frames take stands.
#[derive(Debug, Clone, Copy, PartialEq, Eq, Structural)]
pub enum PresentationTransition {
    Direct,
    /// Sharing has failed; the first frame from system memory is awaited.
    Downgrading,
    SystemMemory,
    Fatal,
}

impl PresentationTransition {
    /// There is one step down; a second failure is fatal.
    #[verifier::allow_in_spec]
    pub fn after_downgrade(self) -> PresentationTransition
        returns
            (match self {
                PresentationTransition::Direct => PresentationTransition::Downgrading,
                _ => PresentationTransition::Fatal,
            }),
    {
        match self {
            PresentationTransition::Direct => PresentationTransition::Downgrading,
            _ => PresentationTransition::Fatal,
        }
    }
}

/// True while the clock of playback runs, or would but for want of data.
#[verifier::allow_in_spec]
pub fn active_playback_state(state: &VideoState) -> bool
    returns
        state is Playing || state is Buffering,
{
    match state {
        VideoState::Playing { .. } | VideoState::Buffering { .. } => true,
        _ => false,
    }
}

/// The time left for a step down. It runs out only while playback is active.
#[derive(Debug, Clone, Copy, PartialEq, Eq, Structural)]
pub struct DowngradeBudget {
    pub remaining: Option<Duration>,
    pub deadline: Option<Instant>,
}

/// Sets the clock of a step down going with playback, or stops it.
#[verifier::allow_in_spec]
pub fn sync_downgrade_budget(active: bool, budget: DowngradeBudget, now: Instant) -> DowngradeBudget
    returns
        (if active {
            if budget.deadline is Some {
                budget
            } else {
                match budget.remaining {
                    None => DowngradeBudget {
                        remaining: None::<Duration>,
                        deadline: None::<Instant>,
                    },
                    Some(remaining) => DowngradeBudget {
                        remaining: Some(remaining),
                        deadline: Some(
                            match now.checked_add(remaining) {
                                Some(deadline) => deadline,
                                None => now,
                            },
                        ),
                    },
                }
            }
        } else {
            DowngradeBudget {
                remaining: match budget.deadline {
                    Some(deadline) => Some(deadline.duration_since(now)),
                    None => budget.remaining,
                },
                deadline: None::<Instant>,
            }
        }),
{
    if active {
        if budget.deadline.is_some() {
            return budget;
        }
        match budget.remaining {
            None => DowngradeBudget { remaining: None, deadline: None },
            Some(remaining) => DowngradeBudget {
                remaining: Some(remaining),
                deadline: Some(
                    match now.checked_add(remaining) {
                        Some(deadline) => deadline,
                        None => now,
                    },
                ),
            },
        }
    } else {
        DowngradeBudget {
            remaining: match budget.deadline {
                Some(deadline) => Some(deadline.duration_since(now)),
                None => budget.remaining,
            },
            deadline: None,
        }
    }
}

/// True where the time for a step down is up.
#[verifier::allow_in_spec]
pub fn downgrade_budget_expired(active: bool, deadline: Option<Instant>, now: Instant) -> bool
    returns
        (match deadline {
            Some(deadline) => active && !now.before(deadline),
            None => false,
        }),
{
    match deadline {
        Some(deadline) => active && !now.before(deadline),
        None => false,
    }
}

/// While playback is paused, the time for a step down does not run out: pausing
/// and resuming later gives the same time as was left.
pub proof fn law_budget_waits_while_paused(budget: DowngradeBudget, pause: Instant, resume: Instant)
    requires
        budget.deadline matches Some(deadline) && !deadline.before(pause),
        resume.checked_add(budget.deadline->0.duration_since(pause)) is Some,
    ensures
        ({
            let paused = sync_downgrade_budget(false, budget, pause);
            let resumed = sync_downgrade_budget(true, paused, resume);
            &&& paused.deadline is None
            &&& forall|later: Instant| !downgrade_budget_expired(false, paused.deadline, later)
            &&& resumed.deadline is Some
            &&& resumed.deadline->0.duration_since(resume) == budget.deadline->0.duration_since(
                pause,
            )
        }),
{
}

/// What a renderer made of a frame that was handed over.
#[derive(Debug, Clone, Copy, PartialEq, Eq, Structural)]
pub enum ExternalFrameOutcome {
    Accepted,
    Unsupported,
    TransientFailure,
    FatalFailure,
}

/// True where an answer of the renderer proves that a frame was shared: it
/// accepts, and a frame was waiting for the answer.
#[verifier::allow_in_spec]
pub fn external_frame_outcome_certifies(
    pending_external: bool,
    outcome: ExternalFrameOutcome,
) -> bool
    returns
        pending_external && outcome == ExternalFrameOutcome::Accepted,
{
    pending_external && outcome == ExternalFrameOutcome::Accepted
}

/// What an answer of the renderer means for the session, and the reason that it
/// gives for a step down.
#[verifier::allow_in_spec]
pub fn renderer_feedback(outcome: ExternalFrameOutcome) -> (
    RendererOutcome,
    Option<CapabilityDowngradeReason>,
)
    returns
        (match outcome {
            ExternalFrameOutcome::Accepted => (
                RendererOutcome::Accepted,
                None::<CapabilityDowngradeReason>,
            ),
            ExternalFrameOutcome::Unsupported => (
                RendererOutcome::Unsupported,
                Some(CapabilityDowngradeReason::RendererUnsupported),
            ),
            ExternalFrameOutcome::TransientFailure => (
                RendererOutcome::TransientFailure,
                Some(CapabilityDowngradeReason::RendererTransientFailure),
            ),
            ExternalFrameOutcome::FatalFailure => (
                RendererOutcome::FatalFailure,
                Some(CapabilityDowngradeReason::RendererFatalFailure),
            ),
        }),
{
    match outcome {
        ExternalFrameOutcome::Accepted => (RendererOutcome::Accepted, None),
        ExternalFrameOutcome::Unsupported => (
            RendererOutcome::Unsupported,
            Some(CapabilityDowngradeReason::RendererUnsupported),
        ),
        ExternalFrameOutcome::TransientFailure => (
            RendererOutcome::TransientFailure,
            Some(CapabilityDowngradeReason::RendererTransientFailure),
        ),
        ExternalFrameOutcome::FatalFailure => (
            RendererOutcome::FatalFailure,
            Some(CapabilityDowngradeReason::RendererFatalFailure),
        ),
    }
}

/// Why a frame could not be imported.
#[derive(Debug, Clone, Copy, PartialEq, Eq, Structural)]
pub enum ImportFailure {
    UnsupportedAcquireSync,
    UnsupportedFrame,
    InvalidLayout,
    ImportFailed,
}

/// What a failed import means for the session, and the reason that it gives for a
/// step down.
#[verifier::allow_in_spec]
pub fn import_failure_classification(failure: ImportFailure) -> (
    RendererOutcome,
    CapabilityDowngradeReason,
)
    returns
        (match failure {
            ImportFailure::UnsupportedAcquireSync => (
                RendererOutcome::Unsupported,
                CapabilityDowngradeReason::UnsafeSync,
            ),
            ImportFailure::UnsupportedFrame | ImportFailure::InvalidLayout => (
                RendererOutcome::Unsupported,
                CapabilityDowngradeReason::UnsupportedImport,
            ),
            ImportFailure::ImportFailed => (
                RendererOutcome::TransientFailure,
                CapabilityDowngradeReason::TransientImport,
            ),
        }),
{
    match failure {
        ImportFailure::UnsupportedAcquireSync => (
            RendererOutcome::Unsupported,
            CapabilityDowngradeReason::UnsafeSync,
        ),
        ImportFailure::UnsupportedFrame | ImportFailure::InvalidLayout => (
            RendererOutcome::Unsupported,
            CapabilityDowngradeReason::UnsupportedImport,
        ),
        ImportFailure::ImportFailed => (
            RendererOutcome::TransientFailure,
            CapabilityDowngradeReason::TransientImport,
        ),
    }
}

/// True of a reason of the session that ends sharing.
#[verifier::allow_in_spec]
pub fn ends_sharing(reason: CapabilityDowngradeReason) -> bool
    returns
        (match reason {
            CapabilityDowngradeReason::HardwareOpenFailure
            | CapabilityDowngradeReason::HardwareDecodeFailure
            | CapabilityDowngradeReason::HardwareUnavailable
            | CapabilityDowngradeReason::UnsafeSync
            | CapabilityDowngradeReason::UnsupportedImport
            | CapabilityDowngradeReason::UnsupportedColor => true,
            _ => false,
        }),
{
    match reason {
        CapabilityDowngradeReason::HardwareOpenFailure
        | CapabilityDowngradeReason::HardwareDecodeFailure
        | CapabilityDowngradeReason::HardwareUnavailable
        | CapabilityDowngradeReason::UnsafeSync
        | CapabilityDowngradeReason::UnsupportedImport
        | CapabilityDowngradeReason::UnsupportedColor => true,
        _ => false,
    }
}

/// The transfer function of a picture.
#[derive(Debug, Clone, Copy, PartialEq, Eq, Structural)]
pub enum ColorTransfer {
    Srgb,
    Bt601,
    Bt709,
    Other,
}

/// The transfer functions that the renderer knows.
#[derive(Debug, Clone, Copy, PartialEq, Eq, Structural)]
pub enum VideoTransferFunction {
    Srgb,
    Bt709,
}

/// How the renderer is to read a picture, where it can.
#[verifier::allow_in_spec]
pub fn renderer_transfer(transfer: ColorTransfer) -> Option<VideoTransferFunction>
    returns
        (match transfer {
            ColorTransfer::Srgb => Some(VideoTransferFunction::Srgb),
            ColorTransfer::Bt601 | ColorTransfer::Bt709 => Some(VideoTransferFunction::Bt709),
            ColorTransfer::Other => None::<VideoTransferFunction>,
        }),
{
    match transfer {
        ColorTransfer::Srgb => Some(VideoTransferFunction::Srgb),
        ColorTransfer::Bt601 | ColorTransfer::Bt709 => Some(VideoTransferFunction::Bt709),
        ColorTransfer::Other => None,
    }
}

/// Why presentation ended.
#[derive(Debug, Clone, Copy, PartialEq, Eq, Structural)]
pub enum PresentationFailure {
    DowngradeRejected,
    FailedDuringDowngrade,
    TimedOut,
    NoModeForDirectFrame,
    NoModeForCpuFrame,
    UnsafeAcquire,
    UploadFailed,
    /// The session failed; its message is told apart.
    SessionFailed,
}

impl PresentationFailure {
    /// What a user is told.
    pub open spec fn message(self, session_error: Seq<char>) -> Seq<char> {
        match self {
            PresentationFailure::DowngradeRejected =>
                "system-memory downgrade command was rejected"@,
            PresentationFailure::FailedDuringDowngrade =>
                "renderer failed during system-memory downgrade"@,
            PresentationFailure::TimedOut => "system-memory presentation transition timed out"@,
            PresentationFailure::NoModeForDirectFrame =>
                "decoder mode unavailable for direct frame"@,
            PresentationFailure::NoModeForCpuFrame => "decoder mode unavailable for CPU frame"@,
            PresentationFailure::UnsafeAcquire =>
                "CPU frame upload acquire synchronization is unsupported"@,
            PresentationFailure::UploadFailed => "CPU frame upload failed"@,
            PresentationFailure::SessionFailed => "presentation transition failed: "@
                + session_error,
        }
    }

    pub fn text(self, session_error: &str) -> (text: String)
        ensures
            text@ == self.message(session_error@),
    {
        match self {
            PresentationFailure::DowngradeRejected =>
                "system-memory downgrade command was rejected".to_owned(),
            PresentationFailure::FailedDuringDowngrade =>
                "renderer failed during system-memory downgrade".to_owned(),
            PresentationFailure::TimedOut =>
                "system-memory presentation transition timed out".to_owned(),
            PresentationFailure::NoModeForDirectFrame =>
                "decoder mode unavailable for direct frame".to_owned(),
            PresentationFailure::NoModeForCpuFrame =>
                "decoder mode unavailable for CPU frame".to_owned(),
            PresentationFailure::UnsafeAcquire =>
                "CPU frame upload acquire synchronization is unsupported".to_owned(),
            PresentationFailure::UploadFailed => "CPU frame upload failed".to_owned(),
            PresentationFailure::SessionFailed => "presentation transition failed: ".to_owned(
            ).concat(session_error),
        }
    }
}

/// What the session is told, and what else follows from a step of presentation.
/// What is told is told in the order of the fields.
#[derive(Debug, Clone, Copy, PartialEq, Eq, Structural)]
pub struct Feedback {
    pub commit: Option<FrameRealization>,
    pub outcome: Option<RendererOutcome>,
    pub downgrade: Option<CapabilityDowngradeReason>,
    /// Ask the session for frames in system memory.
    pub renegotiate: bool,
    /// Stop the session.
    pub stop: bool,
    /// Presentation has ended; this is the error to show.
    pub failure: Option<PresentationFailure>,
}

impl Feedback {
    #[verifier::allow_in_spec]
    pub fn nothing() -> Feedback
        returns
            (Feedback {
                commit: None::<FrameRealization>,
                outcome: None::<RendererOutcome>,
                downgrade: None::<CapabilityDowngradeReason>,
                renegotiate: false,
                stop: false,
                failure: None::<PresentationFailure>,
            }),
    {
        Feedback {
            commit: None,
            outcome: None,
            downgrade: None,
            renegotiate: false,
            stop: false,
            failure: None,
        }
    }
}

/// What is asked of the graphics card.
#[derive(Debug, Clone, Copy, PartialEq, Eq, Structural)]
pub struct GpuFacts {
    pub vulkan: bool,
    pub vendor: u32,
    /// Textures in NV12 can be made.
    pub nv12: bool,
}

impl GpuFacts {
    #[verifier::allow_in_spec]
    pub fn can_share(self) -> bool
        returns
            self.vulkan && self.vendor == SHARING_VENDOR && self.nv12,
    {
        self.vulkan && self.vendor == SHARING_VENDOR && self.nv12
    }
}

/// What is to be done about the thread that imports frames.
#[derive(Debug, Clone, Copy, PartialEq, Eq, Structural)]
pub enum RouteStep {
    Nothing,
    StartWorker,
    StepDown(RendererOutcome, CapabilityDowngradeReason),
}

/// What is to be done with a frame of the session.
#[derive(Debug, Clone, Copy, PartialEq, Eq, Structural)]
pub enum FrameStep {
    DropFrame,
    /// Hand it to the import thread, under the epoch given.
    Import(u64),
    /// Keep it until it can be uploaded.
    Upload,
}

/// What an upload of a frame came to.
#[derive(Debug, Clone, Copy, PartialEq, Eq, Structural)]
pub enum UploadOutcome {
    Uploaded,
    UnsupportedAcquireSync,
    Unsupported,
}

/// The way that the frames of a session take.
#[derive(Debug, Clone, Copy, PartialEq, Eq, Structural)]
pub struct DirectPresentation {
    pub has_session: bool,
    /// A frame waits to be uploaded.
    pub pending_frame: bool,
    pub has_presented_frame: bool,
    /// The import thread runs.
    pub direct_import: bool,
    /// Counts what makes imports under way worthless.
    pub presentation_epoch: u64,
    /// Not known until the graphics card was asked.
    pub direct_alias_supported: Option<bool>,
    pub transition: PresentationTransition,
    pub budget: DowngradeBudget,
    /// A shared frame waits for the answer of the renderer.
    pub pending_external: bool,
    /// A shared frame is on display.
    pub direct_display: bool,
    pub frame_realization: Option<FrameRealization>,
    /// The renderer is to let go of shared frames.
    pub pending_retirement: bool,
}

impl DirectPresentation {
    #[verifier::allow_in_spec]
    pub fn new() -> DirectPresentation
        returns
            (DirectPresentation {
                has_session: true,
                pending_frame: false,
                has_presented_frame: false,
                direct_import: false,
                presentation_epoch: 0,
                direct_alias_supported: None::<bool>,
                transition: PresentationTransition::Direct,
                budget: DowngradeBudget {
                    remaining: None::<Duration>,
                    deadline: None::<Instant>,
                },
                pending_external: false,
                direct_display: false,
                frame_realization: None::<FrameRealization>,
                pending_retirement: false,
            }),
    {
        DirectPresentation {
            has_session: true,
            pending_frame: false,
            has_presented_frame: false,
            direct_import: false,
            presentation_epoch: 0,
            direct_alias_supported: None,
            transition: PresentationTransition::Direct,
            budget: DowngradeBudget { remaining: None, deadline: None },
            pending_external: false,
            direct_display: false,
            frame_realization: None,
            pending_retirement: false,
        }
    }

    /// The renderer is to let go of shared frames at the next chance.
    #[verifier::allow_in_spec]
    pub fn retiring(self) -> DirectPresentation
        returns
            (DirectPresentation {
                pending_retirement: true,
                pending_external: false,
                direct_display: false,
                frame_realization: None::<FrameRealization>,
                ..self
            }),
    {
        DirectPresentation {
            pending_retirement: true,
            pending_external: false,
            direct_display: false,
            frame_realization: None,
            ..self
        }
    }

    /// A new session takes the place of the old one, and sharing is tried anew.
    #[verifier::allow_in_spec]
    pub fn restarted(self) -> DirectPresentation
        returns
            (DirectPresentation {
                pending_frame: false,
                direct_import: false,
                direct_alias_supported: None::<bool>,
                transition: PresentationTransition::Direct,
                budget: DowngradeBudget {
                    remaining: None::<Duration>,
                    deadline: None::<Instant>,
                },
                ..self
            }.retiring()),
    {
        DirectPresentation {
            pending_frame: false,
            direct_import: false,
            direct_alias_supported: None,
            transition: PresentationTransition::Direct,
            budget: DowngradeBudget { remaining: None, deadline: None },
            ..self
        }.retiring()
    }

    /// True where the renderer holds a shared frame, or may.
    #[verifier::allow_in_spec]
    pub fn owns_external_frame(self) -> bool
        returns
            self.pending_retirement || self.pending_external || self.direct_display,
    {
        self.pending_retirement || self.pending_external || self.direct_display
    }

    #[verifier::allow_in_spec]
    pub fn retired(self) -> DirectPresentation
        returns
            (DirectPresentation {
                pending_retirement: false,
                pending_external: false,
                direct_display: false,
                ..self
            }),
    {
        DirectPresentation {
            pending_retirement: false,
            pending_external: false,
            direct_display: false,
            ..self
        }
    }

    /// Lets go of shared frames now; true where the renderer is to be told.
    pub fn retire_external_frame(&mut self) -> (tell: bool)
        ensures
            tell == old(self).owns_external_frame(),
            *final(self) == old(self).retired(),
    {
        let tell: bool = self.owns_external_frame();
        *self = self.retired();
        tell
    }

    /// Lets go of shared frames where that was asked for; true where the renderer
    /// is to be told.
    pub fn drain_pending_external_retirement(&mut self) -> (tell: bool)
        ensures
            tell == old(self).pending_retirement,
            *final(self) == (if old(self).pending_retirement {
                old(self).retired()
            } else {
                *old(self)
            }),
    {
        if self.pending_retirement {
            *self = self.retired();
            true
        } else {
            false
        }
    }

    /// Makes imports under way worthless, as after a seek. What is on display
    /// stays there until a new frame comes.
    #[verifier::allow_in_spec]
    pub fn invalidated(self) -> DirectPresentation
        returns
            (DirectPresentation {
                presentation_epoch: self.presentation_epoch.wrapping_add(1),
                pending_frame: false,
                ..self
            }),
    {
        DirectPresentation {
            presentation_epoch: self.presentation_epoch.wrapping_add(1),
            pending_frame: false,
            ..self
        }
    }

    /// Presentation after it has ended for good.
    #[verifier::allow_in_spec]
    pub fn fatal(self) -> DirectPresentation
        returns
            (DirectPresentation {
                transition: PresentationTransition::Fatal,
                budget: DowngradeBudget {
                    remaining: None::<Duration>,
                    deadline: None::<Instant>,
                },
                direct_alias_supported: Some(false),
                direct_import: false,
                pending_external: false,
                pending_frame: false,
                ..self
            }),
    {
        DirectPresentation {
            transition: PresentationTransition::Fatal,
            budget: DowngradeBudget { remaining: None, deadline: None },
            direct_alias_supported: Some(false),
            direct_import: false,
            pending_external: false,
            pending_frame: false,
            ..self
        }
    }

    /// What follows from a failure.
    pub open spec fn failing(
        self,
        downgrade: Option<CapabilityDowngradeReason>,
        failure: PresentationFailure,
    ) -> (DirectPresentation, Feedback) {
        if self.transition == PresentationTransition::Fatal {
            (self, Feedback::nothing())
        } else {
            (
                self.fatal(),
                Feedback { downgrade, stop: true, failure: Some(failure), ..Feedback::nothing() },
            )
        }
    }

    /// Ends presentation for good, once.
    pub fn fail_presentation_transition(
        &mut self,
        downgrade: Option<CapabilityDowngradeReason>,
        failure: PresentationFailure,
    ) -> (feedback: Feedback)
        ensures
            (*final(self), feedback) == old(self).failing(downgrade, failure),
    {
        if self.transition == PresentationTransition::Fatal {
            return Feedback::nothing();
        }
        *self = self.fatal();
        Feedback { downgrade, stop: true, failure: Some(failure), ..Feedback::nothing() }
    }

    /// Follows the state of playback while a step down is under way.
    pub fn follow_playback(&mut self, active: bool, now: Instant)
        ensures
            *final(self) == (if old(self).transition == PresentationTransition::Downgrading {
                DirectPresentation {
                    budget: sync_downgrade_budget(active, old(self).budget, now),
                    ..*old(self)
                }
            } else {
                *old(self)
            }),
    {
        if self.transition == PresentationTransition::Downgrading {
            self.budget = sync_downgrade_budget(active, self.budget, now);
        }
    }

    /// What follows from a step down.
    pub open spec fn stepping_down(
        self,
        active: bool,
        timeout: Duration,
        outcome: Option<RendererOutcome>,
        reason: CapabilityDowngradeReason,
        request: bool,
        now: Instant,
    ) -> (DirectPresentation, Feedback) {
        match self.transition {
            PresentationTransition::Direct => (
                DirectPresentation {
                    transition: PresentationTransition::Downgrading,
                    budget: sync_downgrade_budget(
                        active,
                        DowngradeBudget { remaining: Some(timeout), deadline: None },
                        now,
                    ),
                    direct_alias_supported: Some(false),
                    direct_import: false,
                    pending_external: false,
                    ..self
                },
                Feedback {
                    outcome,
                    downgrade: Some(reason),
                    renegotiate: request,
                    ..Feedback::nothing()
                },
            ),
            PresentationTransition::Downgrading | PresentationTransition::SystemMemory => (
                self.fatal(),
                Feedback {
                    outcome,
                    downgrade: Some(reason),
                    stop: true,
                    failure: Some(PresentationFailure::FailedDuringDowngrade),
                    ..Feedback::nothing()
                },
            ),
            PresentationTransition::Fatal => (self, Feedback::nothing()),
        }
    }

    /// Steps down to frames in system memory. The frame on display stays there
    /// until the first of them is uploaded. A step down from where there is
    /// nothing further down ends presentation.
    pub fn begin_system_memory_downgrade(
        &mut self,
        active: bool,
        timeout: Duration,
        outcome: Option<RendererOutcome>,
        reason: CapabilityDowngradeReason,
        request: bool,
        now: Instant,
    ) -> (feedback: Feedback)
        ensures
            (*final(self), feedback) == old(self).stepping_down(
                active,
                timeout,
                outcome,
                reason,
                request,
                now,
            ),
    {
        match self.transition {
            PresentationTransition::Direct => {
                self.transition = self.transition.after_downgrade();
                self.budget = sync_downgrade_budget(
                    active,
                    DowngradeBudget { remaining: Some(timeout), deadline: None },
                    now,
                );
                self.direct_alias_supported = Some(false);
                self.direct_import = false;
                self.pending_external = false;
                Feedback {
                    outcome,
                    downgrade: Some(reason),
                    renegotiate: request,
                    ..Feedback::nothing()
                }
            },
            PresentationTransition::Downgrading | PresentationTransition::SystemMemory => {
                let mut feedback: Feedback = self.fail_presentation_transition(
                    Some(reason),
                    PresentationFailure::FailedDuringDowngrade,
                );
                feedback.outcome = outcome;
                feedback
            },
            PresentationTransition::Fatal => Feedback::nothing(),
        }
    }

    /// The session would not give frames in system memory.
    pub fn renegotiation_rejected(&mut self, reason: CapabilityDowngradeReason) -> (feedback:
        Feedback)
        ensures
            (*final(self), feedback) == old(self).failing(
                Some(reason),
                PresentationFailure::DowngradeRejected,
            ),
    {
        self.fail_presentation_transition(
            Some(reason),
            PresentationFailure::DowngradeRejected,
        )
    }

    /// Ends presentation where a step down has taken too long.
    pub fn check_presentation_transition_timeout(&mut self, active: bool, now: Instant) -> (feedback:
        Feedback)
        ensures
            (*final(self), feedback) == (if old(self).transition
                == PresentationTransition::Downgrading && downgrade_budget_expired(
                active,
                old(self).budget.deadline,
                now,
            ) {
                old(self).failing(
                    Some(CapabilityDowngradeReason::TransitionTimeout),
                    PresentationFailure::TimedOut,
                )
            } else {
                (*old(self), Feedback::nothing())
            }),
    {
        if self.transition == PresentationTransition::Downgrading && downgrade_budget_expired(
            active,
            self.budget.deadline,
            now,
        ) {
            self.fail_presentation_transition(
                Some(CapabilityDowngradeReason::TransitionTimeout),
                PresentationFailure::TimedOut,
            )
        } else {
            Feedback::nothing()
        }
    }

    /// Steps down where the session says that its frames cannot be shared.
    pub fn observe_worker_downgrade(
        &mut self,
        reported: Option<CapabilityDowngradeReason>,
        active: bool,
        timeout: Duration,
        now: Instant,
    ) -> (feedback: Feedback)
        ensures
            (*final(self), feedback) == (match reported {
                Some(reason) if old(self).transition == PresentationTransition::Direct
                    && ends_sharing(reason) => old(self).stepping_down(
                    active,
                    timeout,
                    None,
                    reason,
                    false,
                    now,
                ),
                _ => (*old(self), Feedback::nothing()),
            }),
    {
        if self.transition != PresentationTransition::Direct {
            return Feedback::nothing();
        }
        match reported {
            Some(reason) => {
                if ends_sharing(reason) {
                    self.begin_system_memory_downgrade(active, timeout, None, reason, false, now)
                } else {
                    Feedback::nothing()
                }
            },
            None => Feedback::nothing(),
        }
    }

    /// True where it is not known yet whether frames can be shared.
    #[verifier::allow_in_spec]
    pub fn seeks_route(self) -> bool
        returns
            self.transition == PresentationTransition::Direct && self.has_session
                && self.direct_alias_supported is None,
    {
        self.transition == PresentationTransition::Direct && self.has_session
            && self.direct_alias_supported.is_none()
    }

    /// Finds out, once the graphics card can be asked, whether frames can be
    /// shared with it.
    #[verifier::allow_in_spec]
    pub fn ensure_direct_import_route(self, gpu: Option<GpuFacts>) -> RouteStep
        returns
            (match gpu {
                Some(gpu) => if !self.seeks_route() {
                    RouteStep::Nothing
                } else if gpu.can_share() {
                    RouteStep::StartWorker
                } else {
                    RouteStep::StepDown(
                        RendererOutcome::Unsupported,
                        CapabilityDowngradeReason::RendererUnsupported,
                    )
                },
                None => RouteStep::Nothing,
            }),
    {
        match gpu {
            Some(gpu) => if !self.seeks_route() {
                RouteStep::Nothing
            } else if gpu.can_share() {
                RouteStep::StartWorker
            } else {
                RouteStep::StepDown(
                    RendererOutcome::Unsupported,
                    CapabilityDowngradeReason::RendererUnsupported,
                )
            },
            None => RouteStep::Nothing,
        }
    }

    /// The import thread was started, or could not be; in that case sharing ends.
    pub fn worker_started(&mut self, started: bool) -> (step: RouteStep)
        ensures
            step == (if started {
                RouteStep::Nothing
            } else {
                RouteStep::StepDown(
                    RendererOutcome::TransientFailure,
                    CapabilityDowngradeReason::TransientImport,
                )
            }),
            *final(self) == (if started {
                DirectPresentation {
                    direct_alias_supported: Some(true),
                    direct_import: true,
                    ..*old(self)
                }
            } else {
                *old(self)
            }),
    {
        if started {
            self.direct_alias_supported = Some(true);
            self.direct_import = true;
            RouteStep::Nothing
        } else {
            RouteStep::StepDown(
                RendererOutcome::TransientFailure,
                CapabilityDowngradeReason::TransientImport,
            )
        }
    }

    /// How a shared frame reached the screen.
    #[verifier::allow_in_spec]
    pub fn direct_frame_realization(decode: DecodeMode) -> FrameRealization
        returns
            (FrameRealization {
                decode,
                residency: DecodeResidency::NativeGpu,
                import: ImportMode::DirectAlias,
                conversion: ConversionMode::YuvShader,
                synchronization: SynchronizationMode::Explicit,
            }),
    {
        FrameRealization {
            decode,
            residency: DecodeResidency::NativeGpu,
            import: ImportMode::DirectAlias,
            conversion: ConversionMode::YuvShader,
            synchronization: SynchronizationMode::Explicit,
        }
    }

    /// How an uploaded frame reached the screen.
    #[verifier::allow_in_spec]
    pub fn cpu_frame_realization(decode: DecodeMode, is_yuv: bool) -> FrameRealization
        returns
            (FrameRealization {
                decode,
                residency: DecodeResidency::SystemMemory,
                import: ImportMode::CpuUpload,
                conversion: if is_yuv {
                    ConversionMode::YuvShader
                } else {
                    ConversionMode::Unconverted
                },
                synchronization: SynchronizationMode::CpuWait,
            }),
    {
        FrameRealization {
            decode,
            residency: DecodeResidency::SystemMemory,
            import: ImportMode::CpuUpload,
            conversion: if is_yuv {
                ConversionMode::YuvShader
            } else {
                ConversionMode::Unconverted
            },
            synchronization: SynchronizationMode::CpuWait,
        }
    }

    /// What follows from the answer of the renderer. A frame that it accepts is on
    /// display, and only then counts as shared; what is already known is not told
    /// again.
    pub open spec fn answered(
        self,
        outcome: ExternalFrameOutcome,
        decode: Option<DecodeMode>,
        active: bool,
        timeout: Duration,
        now: Instant,
    ) -> (DirectPresentation, Feedback) {
        if !self.pending_external {
            (self, Feedback::nothing())
        } else if outcome == ExternalFrameOutcome::Accepted {
            let shown = DirectPresentation { pending_external: false, direct_display: true, ..self };
            match decode {
                None => shown.failing(None, PresentationFailure::NoModeForDirectFrame),
                Some(decode) => {
                    let realization = Self::direct_frame_realization(decode);
                    if self.frame_realization == Some(realization) {
                        (shown, Feedback::nothing())
                    } else {
                        (
                            DirectPresentation { frame_realization: Some(realization), ..shown },
                            Feedback {
                                commit: Some(realization),
                                outcome: Some(RendererOutcome::Accepted),
                                ..Feedback::nothing()
                            },
                        )
                    }
                },
            }
        } else {
            let (renderer, reason) = renderer_feedback(outcome);
            (DirectPresentation { pending_external: false, ..self }).stepping_down(
                active,
                timeout,
                Some(renderer),
                reason->0,
                true,
                now,
            )
        }
    }

    /// Takes in the answer of the renderer to a shared frame.
    pub fn poll_external_outcome(
        &mut self,
        outcome: ExternalFrameOutcome,
        decode: Option<DecodeMode>,
        active: bool,
        timeout: Duration,
        now: Instant,
    ) -> (feedback: Feedback)
        ensures
            (*final(self), feedback) == old(self).answered(outcome, decode, active, timeout, now),
    {
        if !self.pending_external {
            return Feedback::nothing();
        }
        if external_frame_outcome_certifies(self.pending_external, outcome) {
            self.pending_external = false;
            self.direct_display = true;
            match decode {
                None => self.fail_presentation_transition(
                    None,
                    PresentationFailure::NoModeForDirectFrame,
                ),
                Some(decode) => {
                    let realization: FrameRealization = Self::direct_frame_realization(decode);
                    if self.frame_realization == Some(realization) {
                        return Feedback::nothing();
                    }
                    self.frame_realization = Some(realization);
                    Feedback {
                        commit: Some(realization),
                        outcome: Some(RendererOutcome::Accepted),
                        ..Feedback::nothing()
                    }
                },
            }
        } else {
            self.pending_external = false;
            match renderer_feedback(outcome) {
                (renderer, Some(reason)) => self.begin_system_memory_downgrade(
                    active,
                    timeout,
                    Some(renderer),
                    reason,
                    true,
                    now,
                ),
                _ => Feedback::nothing(),
            }
        }
    }

    /// What follows from the first answer to a shared frame.
    pub open spec fn staging(
        self,
        outcome: ExternalFrameOutcome,
        active: bool,
        timeout: Duration,
        now: Instant,
    ) -> (DirectPresentation, Feedback) {
        if outcome == ExternalFrameOutcome::Accepted {
            (DirectPresentation { pending_external: true, ..self }, Feedback::nothing())
        } else {
            let (renderer, reason) = renderer_feedback(outcome);
            self.stepping_down(active, timeout, Some(renderer), reason->0, true, now)
        }
    }

    /// Takes in the first answer to a shared frame: whether it was taken up at
    /// all.
    pub fn staged(
        &mut self,
        outcome: ExternalFrameOutcome,
        active: bool,
        timeout: Duration,
        now: Instant,
    ) -> (feedback: Feedback)
        ensures
            (*final(self), feedback) == old(self).staging(outcome, active, timeout, now),
    {
        match renderer_feedback(outcome) {
            (_, None) => {
                self.pending_external = true;
                Feedback::nothing()
            },
            (renderer, Some(reason)) => self.begin_system_memory_downgrade(
                active,
                timeout,
                Some(renderer),
                reason,
                true,
                now,
            ),
        }
    }

    /// What follows from handing a frame to the import thread.
    #[verifier::allow_in_spec]
    pub fn enqueued(accepted: bool) -> RouteStep
        returns
            (if accepted {
                RouteStep::Nothing
            } else {
                RouteStep::StepDown(
                    RendererOutcome::TransientFailure,
                    CapabilityDowngradeReason::TransientImport,
                )
            }),
    {
        if accepted {
            RouteStep::Nothing
        } else {
            RouteStep::StepDown(
                RendererOutcome::TransientFailure,
                CapabilityDowngradeReason::TransientImport,
            )
        }
    }

    /// True where an imported frame is handed to the renderer: it takes one at a
    /// time.
    #[verifier::allow_in_spec]
    pub fn stages_import(self) -> bool
        returns
            !self.pending_external,
    {
        !self.pending_external
    }

    /// What is to be done with a frame of the session.
    #[verifier::allow_in_spec]
    pub fn frame_step(self, is_dmabuf: bool) -> FrameStep
        returns
            (if self.transition == PresentationTransition::Fatal {
                FrameStep::DropFrame
            } else if !is_dmabuf {
                FrameStep::Upload
            } else if self.transition == PresentationTransition::Direct
                && self.direct_alias_supported == Some(true) {
                FrameStep::Import(self.presentation_epoch)
            } else {
                FrameStep::DropFrame
            }),
    {
        if self.transition == PresentationTransition::Fatal {
            FrameStep::DropFrame
        } else if !is_dmabuf {
            FrameStep::Upload
        } else if self.transition == PresentationTransition::Direct && (
        match self.direct_alias_supported {
            Some(supported) => supported,
            None => false,
        }) {
            FrameStep::Import(self.presentation_epoch)
        } else {
            FrameStep::DropFrame
        }
    }

    /// Takes up a frame of the session. One that is to be uploaded takes the place
    /// of one that waited.
    pub fn submit_linux_frame(&mut self, is_dmabuf: bool) -> (step: FrameStep)
        ensures
            step == old(self).frame_step(is_dmabuf),
            *final(self) == (if step == FrameStep::Upload {
                DirectPresentation { pending_frame: true, ..*old(self) }
            } else {
                *old(self)
            }),
    {
        let step: FrameStep = self.frame_step(is_dmabuf);
        if step == FrameStep::Upload {
            self.pending_frame = true;
        }
        step
    }

    /// The state once an uploaded frame is on display.
    #[verifier::allow_in_spec]
    pub fn uploaded(self, realization: FrameRealization) -> DirectPresentation
        returns
            (DirectPresentation {
                transition: PresentationTransition::SystemMemory,
                budget: DowngradeBudget {
                    remaining: None::<Duration>,
                    deadline: None::<Instant>,
                },
                frame_realization: Some(realization),
                ..self.retired()
            }),
    {
        DirectPresentation {
            transition: PresentationTransition::SystemMemory,
            budget: DowngradeBudget { remaining: None, deadline: None },
            frame_realization: Some(realization),
            ..self.retired()
        }
    }

    /// What follows from an upload.
    pub open spec fn after_upload(
        self,
        upload: UploadOutcome,
        decode: Option<DecodeMode>,
        is_yuv: bool,
    ) -> (DirectPresentation, Feedback) {
        let taken = DirectPresentation { pending_frame: false, ..self };
        match upload {
            UploadOutcome::Uploaded => match decode {
                None => taken.failing(None, PresentationFailure::NoModeForCpuFrame),
                Some(decode) => {
                    let realization = Self::cpu_frame_realization(decode, is_yuv);
                    (
                        taken.uploaded(realization),
                        Feedback {
                            commit: if self.frame_realization == Some(realization) {
                                None
                            } else {
                                Some(realization)
                            },
                            ..Feedback::nothing()
                        },
                    )
                },
            },
            UploadOutcome::UnsupportedAcquireSync => taken.failing(
                Some(CapabilityDowngradeReason::UnsafeSync),
                PresentationFailure::UnsafeAcquire,
            ),
            UploadOutcome::Unsupported => taken.failing(
                Some(CapabilityDowngradeReason::UnsupportedImport),
                PresentationFailure::UploadFailed,
            ),
        }
    }

    /// True where an upload makes the renderer let go of shared frames.
    pub open spec fn upload_releases(self, upload: UploadOutcome, decode: Option<DecodeMode>) -> bool {
        upload == UploadOutcome::Uploaded && decode is Some && self.owns_external_frame()
    }

    /// Takes in what became of the frame that waited to be uploaded. With the
    /// feedback comes whether the renderer is to let go of shared frames.
    pub fn finish_upload(
        &mut self,
        upload: UploadOutcome,
        decode: Option<DecodeMode>,
        is_yuv: bool,
    ) -> (finished: (Feedback, bool))
        ensures
            (*final(self), finished.0) == old(self).after_upload(upload, decode, is_yuv),
            finished.1 == old(self).upload_releases(upload, decode),
    {
        self.pending_frame = false;
        match upload {
            UploadOutcome::Uploaded => match decode {
                None => (
                    self.fail_presentation_transition(None, PresentationFailure::NoModeForCpuFrame),
                    false,
                ),
                Some(decode) => {
                    let realization: FrameRealization = Self::cpu_frame_realization(
                        decode,
                        is_yuv,
                    );
                    let known: bool = self.frame_realization == Some(realization);
                    let tell: bool = self.owns_external_frame();
                    *self = self.uploaded(realization);
                    (
                        Feedback {
                            commit: if known {
                                None
                            } else {
                                Some(realization)
                            },
                            ..Feedback::nothing()
                        },
                        tell,
                    )
                },
            },
            UploadOutcome::UnsupportedAcquireSync => (
                self.fail_presentation_transition(
                    Some(CapabilityDowngradeReason::UnsafeSync),
                    PresentationFailure::UnsafeAcquire,
                ),
                false,
            ),
            UploadOutcome::Unsupported => (
                self.fail_presentation_transition(
                    Some(CapabilityDowngradeReason::UnsupportedImport),
                    PresentationFailure::UploadFailed,
                ),
                false,
            ),
        }
    }

    /// The tier of the frames: that of the frame on display, else the one that is
    /// being tried.
    #[verifier::allow_in_spec]
    pub fn capability(self) -> CapabilityTier
        returns
            (match self.frame_realization {
                Some(realization) => realization.capability_tier(),
                None => if self.transition == PresentationTransition::SystemMemory {
                    CapabilityTier::SystemMemoryUpload
                } else {
                    CapabilityTier::DirectAlias
                },
            }),
    {
        match self.frame_realization {
            Some(realization) => realization.capability_tier(),
            None => if self.transition == PresentationTransition::SystemMemory {
                CapabilityTier::SystemMemoryUpload
            } else {
                CapabilityTier::DirectAlias
            },
        }
    }
}

/// There is one step down: a failure while frames are shared leads to system
/// memory, any later one ends presentation, and nothing leads back.
pub proof fn law_downgrade_is_one_shot(
    presentation: DirectPresentation,
    active: bool,
    timeout: Duration,
    outcome: Option<RendererOutcome>,
    reason: CapabilityDowngradeReason,
    request: bool,
    now: Instant,
)
    ensures
        presentation.stepping_down(active, timeout, outcome, reason, request, now).0.transition
            == (if presentation.transition == PresentationTransition::Fatal {
            PresentationTransition::Fatal
        } else {
            presentation.transition.after_downgrade()
        }),
{
}

/// Only the answer of the renderer to a frame that was waiting for it makes a
/// frame count as shared.
pub proof fn law_only_acceptance_certifies(
    presentation: DirectPresentation,
    outcome: ExternalFrameOutcome,
    decode: Option<DecodeMode>,
    active: bool,
    timeout: Duration,
    now: Instant,
)
    requires
        presentation.answered(outcome, decode, active, timeout, now).1.commit is Some,
    ensures
        external_frame_outcome_certifies(presentation.pending_external, outcome),
{
}

/// Once presentation has ended, nothing is told to the session any more and no
/// frame is taken.
pub proof fn law_fatal_is_silent(
    presentation: DirectPresentation,
    downgrade: Option<CapabilityDowngradeReason>,
    failure: PresentationFailure,
    is_dmabuf: bool,
)
    requires
        presentation.transition == PresentationTransition::Fatal,
    ensures
        presentation.failing(downgrade, failure) == (presentation, Feedback::nothing()),
        presentation.frame_step(is_dmabuf) == FrameStep::DropFrame,
{
}

/// A seek makes every import under way worthless, unless as many seeks are made
/// as there are numbers to count them with.
pub proof fn law_seek_outdates_imports(presentation: DirectPresentation)
    ensures
        presentation.invalidated().presentation_epoch != presentation.presentation_epoch,
{
}

} // verus!
