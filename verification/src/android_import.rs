//! Native frames of Android: they are converted on the graphics card by a thread
//! of their own, and given up for frames in system memory where that fails.

use crate::presentation::ExternalFrameOutcome;
use crate::session::{
    ConversionMode, DecodeMode, DecodeResidency, FrameRealization, ImportMode, SynchronizationMode,
};
use crate::time::{Duration, Instant};
use vstd::prelude::*;

verus! {

/// The time after which something that was begun now is given up.
#[verifier::allow_in_spec]
pub fn deadline_after(now: Instant, timeout: Duration) -> Instant
    returns
        (match now.checked_add(timeout) {
            Some(deadline) => deadline,
            None => now,
        }),
{
    match now.checked_add(timeout) {
        Some(deadline) => deadline,
        None => now,
    }
}

/// True where a deadline was set and has come.
#[verifier::allow_in_spec]
pub fn has_passed(deadline: Option<Instant>, now: Instant) -> bool
    returns
        (match deadline {
            Some(deadline) => !now.before(deadline),
            None => false,
        }),
{
    match deadline {
        Some(deadline) => !now.before(deadline),
        None => false,
    }
}

/// What the player does next about native frames.
#[derive(Debug, Clone, Copy, PartialEq, Eq, Structural)]
pub enum AndroidStep {
    Nothing,
    /// Start the import thread, then hand it the frame.
    StartWorker(u64),
    /// Hand the frame to the import thread.
    Send(u64),
    /// Native frames are given up. The frame shown before is shown again, or
    /// not.
    GaveUp { restore: bool },
}

/// What an import thread has to offer.
#[derive(Debug, Clone, Copy, PartialEq, Eq, Structural)]
pub enum ImportReply {
    /// A frame is ready to be handed to the renderer.
    Ready(u64),
    Failed,
    Disconnected,
    Empty,
}

/// The way that native frames take.
#[derive(Debug, Clone, Copy, PartialEq, Eq, Structural)]
pub struct AndroidImport {
    /// The import thread runs.
    pub worker: bool,
    /// The frame that was handed to it last.
    pub last_frame: Option<u64>,
    /// Native frames were given up.
    pub disabled: bool,
    /// The decoder is still to be asked for frames in system memory.
    pub fallback_pending: bool,
    /// A frame waits for the answer of the renderer.
    pub pending: bool,
    pub import_deadline: Option<Instant>,
    pub presentation_deadline: Option<Instant>,
    /// A native frame is, or was, on display.
    pub native_presented: bool,
    /// The renderer is to let go of native frames.
    pub retirement_pending: bool,
}

impl AndroidImport {
    #[verifier::allow_in_spec]
    pub fn new() -> AndroidImport
        returns
            (AndroidImport {
                worker: false,
                last_frame: None::<u64>,
                disabled: false,
                fallback_pending: false,
                pending: false,
                import_deadline: None::<Instant>,
                presentation_deadline: None::<Instant>,
                native_presented: false,
                retirement_pending: false,
            }),
    {
        AndroidImport {
            worker: false,
            last_frame: None,
            disabled: false,
            fallback_pending: false,
            pending: false,
            import_deadline: None,
            presentation_deadline: None,
            native_presented: false,
            retirement_pending: false,
        }
    }

    /// A frame from system memory is on display: the decoder has left the native
    /// way.
    #[verifier::allow_in_spec]
    pub fn after_cpu_upload(self) -> AndroidImport
        returns
            (AndroidImport {
                worker: false,
                last_frame: None::<u64>,
                disabled: true,
                fallback_pending: false,
                pending: false,
                import_deadline: None::<Instant>,
                presentation_deadline: None::<Instant>,
                native_presented: false,
                retirement_pending: self.retirement_pending || self.pending
                    || self.native_presented,
            }),
    {
        AndroidImport {
            worker: false,
            last_frame: None,
            disabled: true,
            fallback_pending: false,
            pending: false,
            import_deadline: None,
            presentation_deadline: None,
            native_presented: false,
            retirement_pending: self.retirement_pending || self.pending || self.native_presented,
        }
    }

    /// What was begun is dropped, as after a seek. The frame that waits for the
    /// renderer is taken back.
    #[verifier::allow_in_spec]
    pub fn after_reset(self) -> AndroidImport
        returns
            (AndroidImport {
                worker: false,
                last_frame: None::<u64>,
                pending: false,
                import_deadline: None::<Instant>,
                presentation_deadline: None::<Instant>,
                retirement_pending: true,
                ..self
            }),
    {
        AndroidImport {
            worker: false,
            last_frame: None,
            pending: false,
            import_deadline: None,
            presentation_deadline: None,
            retirement_pending: true,
            ..self
        }
    }

    /// Drops what was begun; true where the frame shown before is shown again.
    pub fn reset(&mut self) -> (restore: bool)
        ensures
            *final(self) == old(self).after_reset(),
            restore == old(self).pending,
    {
        let restore: bool = self.pending;
        *self = self.after_reset();
        restore
    }

    /// The state once another source is opened: native frames are tried anew.
    #[verifier::allow_in_spec]
    pub fn reopened(self) -> AndroidImport
        returns
            (AndroidImport { disabled: false, fallback_pending: false, ..self.after_reset() }),
    {
        AndroidImport { disabled: false, fallback_pending: false, ..self.after_reset() }
    }

    /// The state once native frames are given up.
    #[verifier::allow_in_spec]
    pub fn given_up(self) -> AndroidImport
        returns
            (if self.disabled {
                self
            } else {
                AndroidImport { disabled: true, fallback_pending: true, ..self.after_reset() }
            }),
    {
        if self.disabled {
            self
        } else {
            AndroidImport { disabled: true, fallback_pending: true, ..self.after_reset() }
        }
    }

    /// What giving up comes to.
    pub open spec fn giving_up(self) -> (AndroidImport, AndroidStep) {
        (
            self.given_up(),
            if self.disabled {
                AndroidStep::Nothing
            } else {
                AndroidStep::GaveUp { restore: self.pending }
            },
        )
    }

    /// Gives up native frames, once: frames from system memory are asked for.
    pub fn downgrade(&mut self) -> (step: AndroidStep)
        ensures
            (*final(self), step) == old(self).giving_up(),
    {
        let step: AndroidStep = if self.disabled {
            AndroidStep::Nothing
        } else {
            AndroidStep::GaveUp { restore: self.pending }
        };
        *self = self.given_up();
        step
    }

    /// What is to be done with a frame of the decoder.
    pub open spec fn queueing(self, frame: Option<u64>, has_gpu: bool) -> (
        AndroidImport,
        AndroidStep,
    ) {
        if self.disabled {
            (self, AndroidStep::Nothing)
        } else {
            match frame {
                None => self.giving_up(),
                Some(frame) => if self.last_frame == Some(frame) {
                    (self, AndroidStep::Nothing)
                } else if self.worker {
                    (self, AndroidStep::Send(frame))
                } else if has_gpu {
                    (self, AndroidStep::StartWorker(frame))
                } else {
                    (self, AndroidStep::Nothing)
                },
            }
        }
    }

    /// Takes up a frame of the decoder. One that was taken up before is not again;
    /// one whose image is not its own cannot be converted.
    pub fn queue_frame(&mut self, frame: Option<u64>, has_gpu: bool) -> (step: AndroidStep)
        ensures
            (*final(self), step) == old(self).queueing(frame, has_gpu),
    {
        if self.disabled {
            return AndroidStep::Nothing;
        }
        match frame {
            None => self.downgrade(),
            Some(frame) => {
                if let Some(last) = self.last_frame {
                    if last == frame {
                        return AndroidStep::Nothing;
                    }
                }
                if self.worker {
                    AndroidStep::Send(frame)
                } else if has_gpu {
                    AndroidStep::StartWorker(frame)
                } else {
                    AndroidStep::Nothing
                }
            },
        }
    }

    /// What handing a frame to the import thread comes to. The time for an import
    /// runs from the first frame that was handed over, not from the latest.
    pub open spec fn sending(self, frame: u64, sent: bool, now: Instant, timeout: Duration) -> (
        AndroidImport,
        AndroidStep,
    ) {
        if sent {
            (
                AndroidImport {
                    worker: true,
                    last_frame: Some(frame),
                    import_deadline: Some(
                        match self.import_deadline {
                            Some(deadline) => deadline,
                            None => deadline_after(now, timeout),
                        },
                    ),
                    ..self
                },
                AndroidStep::Nothing,
            )
        } else {
            self.giving_up()
        }
    }

    /// Takes in whether a frame could be handed to the import thread.
    pub fn frame_sent(&mut self, frame: u64, sent: bool, now: Instant, timeout: Duration) -> (step:
        AndroidStep)
        ensures
            (*final(self), step) == old(self).sending(frame, sent, now, timeout),
    {
        if sent {
            self.worker = true;
            self.last_frame = Some(frame);
            if self.import_deadline.is_none() {
                self.import_deadline = Some(deadline_after(now, timeout));
            }
            AndroidStep::Nothing
        } else {
            self.downgrade()
        }
    }

    /// Lets go of native frames where that was asked for; true where the renderer
    /// is to be told.
    pub fn drain_retirement(&mut self) -> (tell: bool)
        ensures
            tell == old(self).retirement_pending,
            *final(self) == (AndroidImport { retirement_pending: false, ..*old(self) }),
    {
        let tell: bool = self.retirement_pending;
        self.retirement_pending = false;
        tell
    }

    /// What the answer of the renderer comes to.
    pub open spec fn answered(self, outcome: Option<ExternalFrameOutcome>) -> (
        AndroidImport,
        AndroidStep,
    ) {
        match outcome {
            None => (self, AndroidStep::Nothing),
            Some(outcome) => if !self.pending {
                (self, AndroidStep::Nothing)
            } else if outcome == ExternalFrameOutcome::Accepted {
                (
                    AndroidImport {
                        pending: false,
                        presentation_deadline: None,
                        native_presented: true,
                        ..self
                    },
                    AndroidStep::Nothing,
                )
            } else {
                self.giving_up()
            },
        }
    }

    /// Takes in the answer of the renderer to the frame that waits for it.
    pub fn renderer_answered(&mut self, outcome: Option<ExternalFrameOutcome>) -> (step: AndroidStep)
        ensures
            (*final(self), step) == old(self).answered(outcome),
    {
        if !self.pending {
            return AndroidStep::Nothing;
        }
        match outcome {
            None => AndroidStep::Nothing,
            Some(outcome) => if outcome == ExternalFrameOutcome::Accepted {
                self.pending = false;
                self.presentation_deadline = None;
                self.native_presented = true;
                AndroidStep::Nothing
            } else {
                self.downgrade()
            },
        }
    }

    /// The decoder was asked for frames in system memory; it is asked again where
    /// it did not hear.
    pub fn fallback_requested(&mut self, heard: bool)
        ensures
            *final(self) == (if old(self).fallback_pending {
                AndroidImport { fallback_pending: !heard, ..*old(self) }
            } else {
                *old(self)
            }),
    {
        if self.fallback_pending {
            self.fallback_pending = !heard;
        }
    }

    /// What waiting for the renderer comes to.
    pub open spec fn awaiting(self, now: Instant) -> (AndroidImport, AndroidStep) {
        if !self.disabled && self.pending && has_passed(self.presentation_deadline, now) {
            self.giving_up()
        } else {
            (self, AndroidStep::Nothing)
        }
    }

    /// Gives up where the renderer takes too long to answer.
    pub fn check_presentation(&mut self, now: Instant) -> (step: AndroidStep)
        ensures
            (*final(self), step) == old(self).awaiting(now),
    {
        if !self.disabled && self.pending && has_passed(self.presentation_deadline, now) {
            self.downgrade()
        } else {
            AndroidStep::Nothing
        }
    }

    /// True where the import thread is asked for a frame.
    #[verifier::allow_in_spec]
    pub fn wants_import(self) -> bool
        returns
            !self.disabled && !self.pending && self.worker,
    {
        !self.disabled && !self.pending && self.worker
    }

    /// What the answer of the import thread comes to. A frame in hand sets the
    /// time for the next one going, where one was handed over since.
    pub open spec fn importing(self, reply: ImportReply, now: Instant, timeout: Duration) -> (
        AndroidImport,
        AndroidStep,
    ) {
        match reply {
            ImportReply::Failed | ImportReply::Disconnected => self.giving_up(),
            ImportReply::Empty => if has_passed(self.import_deadline, now) {
                self.giving_up()
            } else {
                (self, AndroidStep::Nothing)
            },
            ImportReply::Ready(source) => (
                AndroidImport {
                    import_deadline: match self.last_frame {
                        Some(last) if last != source => Some(deadline_after(now, timeout)),
                        _ => None,
                    },
                    ..self
                },
                AndroidStep::Nothing,
            ),
        }
    }

    /// Takes in the answer of the import thread.
    pub fn import_replied(&mut self, reply: ImportReply, now: Instant, timeout: Duration) -> (step:
        AndroidStep)
        ensures
            (*final(self), step) == old(self).importing(reply, now, timeout),
    {
        match reply {
            ImportReply::Failed | ImportReply::Disconnected => self.downgrade(),
            ImportReply::Empty => if has_passed(self.import_deadline, now) {
                self.downgrade()
            } else {
                AndroidStep::Nothing
            },
            ImportReply::Ready(source) => {
                self.import_deadline = match self.last_frame {
                    Some(last) => if last != source {
                        Some(deadline_after(now, timeout))
                    } else {
                        None
                    },
                    None => None,
                };
                AndroidStep::Nothing
            },
        }
    }

    /// What handing a frame to the renderer comes to.
    pub open spec fn staging(
        self,
        outcome: Option<ExternalFrameOutcome>,
        now: Instant,
        timeout: Duration,
    ) -> (AndroidImport, AndroidStep) {
        if outcome == Some(ExternalFrameOutcome::Accepted) {
            (
                AndroidImport {
                    pending: true,
                    presentation_deadline: Some(deadline_after(now, timeout)),
                    ..self
                },
                AndroidStep::Nothing,
            )
        } else {
            self.giving_up()
        }
    }

    /// Takes in whether the renderer took up a frame; none where the frame could
    /// not even be handed over.
    pub fn staged(
        &mut self,
        outcome: Option<ExternalFrameOutcome>,
        now: Instant,
        timeout: Duration,
    ) -> (step: AndroidStep)
        ensures
            (*final(self), step) == old(self).staging(outcome, now, timeout),
    {
        match outcome {
            Some(outcome) => {
                if outcome == ExternalFrameOutcome::Accepted {
                    self.pending = true;
                    self.presentation_deadline = Some(deadline_after(now, timeout));
                    AndroidStep::Nothing
                } else {
                    self.downgrade()
                }
            },
            None => self.downgrade(),
        }
    }

    /// True where the renderer holds a native frame, or may.
    #[verifier::allow_in_spec]
    pub fn owns_external_frame(self) -> bool
        returns
            self.pending || self.native_presented || self.retirement_pending,
    {
        self.pending || self.native_presented || self.retirement_pending
    }

    /// Lets go of native frames for good. Gives whether the renderer is to be told
    /// and whether the frame shown before is shown again.
    pub fn retire(&mut self) -> (retired: (bool, bool))
        ensures
            *final(self) == (AndroidImport {
                retirement_pending: false,
                ..old(self).after_reset()
            }),
            retired == (old(self).owns_external_frame(), old(self).pending),
    {
        let tell: bool = self.owns_external_frame();
        let restore: bool = self.reset();
        self.retirement_pending = false;
        (tell, restore)
    }

    /// How the frame on display reached the screen.
    #[verifier::allow_in_spec]
    pub fn frame_realization(self, hardware: bool, is_nv12: bool) -> FrameRealization
        returns
            (FrameRealization {
                decode: if hardware {
                    DecodeMode::Hardware
                } else {
                    DecodeMode::Software
                },
                residency: if self.native_presented {
                    DecodeResidency::NativeGpu
                } else {
                    DecodeResidency::SystemMemory
                },
                import: if self.native_presented {
                    ImportMode::GpuCopy
                } else {
                    ImportMode::CpuUpload
                },
                conversion: if self.native_presented {
                    ConversionMode::GpuBlit
                } else if is_nv12 {
                    ConversionMode::YuvShader
                } else {
                    ConversionMode::Unconverted
                },
                synchronization: if self.native_presented {
                    SynchronizationMode::CpuWait
                } else {
                    SynchronizationMode::Unsynchronized
                },
            }),
    {
        FrameRealization {
            decode: if hardware {
                DecodeMode::Hardware
            } else {
                DecodeMode::Software
            },
            residency: if self.native_presented {
                DecodeResidency::NativeGpu
            } else {
                DecodeResidency::SystemMemory
            },
            import: if self.native_presented {
                ImportMode::GpuCopy
            } else {
                ImportMode::CpuUpload
            },
            conversion: if self.native_presented {
                ConversionMode::GpuBlit
            } else if is_nv12 {
                ConversionMode::YuvShader
            } else {
                ConversionMode::Unconverted
            },
            synchronization: if self.native_presented {
                SynchronizationMode::CpuWait
            } else {
                SynchronizationMode::Unsynchronized
            },
        }
    }
}

/// Once native frames are given up, no frame is handed to the import thread and
/// none is asked of it, until another source is opened.
pub proof fn law_given_up_is_given_up(
    import: AndroidImport,
    frame: Option<u64>,
    has_gpu: bool,
)
    ensures
        import.given_up().disabled,
        !import.given_up().wants_import(),
        import.given_up().queueing(frame, has_gpu) == (import.given_up(), AndroidStep::Nothing),
        !import.given_up().reopened().disabled,
{
}

/// A stream of new frames does not put off the time at which an import that makes
/// no progress is given up.
pub proof fn law_new_frames_do_not_extend_the_deadline(
    import: AndroidImport,
    frame: u64,
    now: Instant,
    timeout: Duration,
)
    requires
        import.import_deadline is Some,
    ensures
        import.sending(frame, true, now, timeout).0.import_deadline == import.import_deadline,
{
}

} // verus!
