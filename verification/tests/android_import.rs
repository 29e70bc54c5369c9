use lumina_video::android_import::{
    deadline_after, has_passed, AndroidImport, AndroidStep, ImportReply,
};
use lumina_video::presentation::ExternalFrameOutcome;
use lumina_video::session::{CapabilityTier, ConversionMode, DecodeMode};
use lumina_video::time::{Duration, Instant};

const BASE: Instant = Instant { nanos: 1_000 };
const TIMEOUT: Duration = Duration { nanos: 500 };

fn at(nanos: u128) -> Instant {
    Instant { nanos: BASE.nanos + nanos }
}

fn running() -> AndroidImport {
    let mut import = AndroidImport::new();
    assert_eq!(import.queue_frame(Some(1), true), AndroidStep::StartWorker(1));
    assert_eq!(import.frame_sent(1, true, BASE, TIMEOUT), AndroidStep::Nothing);
    import
}

#[test]
fn frames_are_handed_over_once() {
    let mut import = AndroidImport::new();
    assert_eq!(import.queue_frame(Some(1), false), AndroidStep::Nothing);
    let mut import = running();
    assert_eq!(import.queue_frame(Some(1), true), AndroidStep::Nothing);
    assert_eq!(import.queue_frame(Some(2), true), AndroidStep::Send(2));
    assert_eq!(import.import_deadline, Some(at(500)));
    import.frame_sent(2, true, at(300), TIMEOUT);
    assert_eq!(import.import_deadline, Some(at(500)));
    assert!(import.wants_import());
    assert_eq!(import.import_replied(ImportReply::Ready(1), at(400), TIMEOUT), AndroidStep::Nothing);
    assert_eq!(import.import_deadline, Some(at(900)));
    assert_eq!(import.import_replied(ImportReply::Ready(2), at(400), TIMEOUT), AndroidStep::Nothing);
    assert_eq!(import.import_deadline, None);
}

#[test]
fn accepted_frames_are_native() {
    let mut import = running();
    assert_eq!(
        import.staged(Some(ExternalFrameOutcome::Accepted), BASE, TIMEOUT),
        AndroidStep::Nothing
    );
    assert!(import.pending && !import.wants_import());
    assert_eq!(import.renderer_answered(None), AndroidStep::Nothing);
    assert_eq!(
        import.renderer_answered(Some(ExternalFrameOutcome::Accepted)),
        AndroidStep::Nothing
    );
    assert!(import.native_presented);
    let realization = import.frame_realization(true, true);
    assert_eq!(realization.decode, DecodeMode::Hardware);
    assert_eq!(realization.conversion, ConversionMode::GpuBlit);
    assert_eq!(realization.capability_tier(), CapabilityTier::GpuConversion);
    let copied = AndroidImport::new().frame_realization(false, false);
    assert_eq!(copied.conversion, ConversionMode::Unconverted);
    assert_eq!(copied.capability_tier(), CapabilityTier::SystemMemoryUpload);
    assert_eq!(import.retire(), (true, false));
}

#[test]
fn native_frames_are_given_up_once() {
    let failures: Vec<Box<dyn Fn(&mut AndroidImport) -> AndroidStep>> = vec![
        Box::new(|i| i.queue_frame(None, true)),
        Box::new(|i| i.frame_sent(2, false, BASE, TIMEOUT)),
        Box::new(|i| i.import_replied(ImportReply::Failed, BASE, TIMEOUT)),
        Box::new(|i| i.import_replied(ImportReply::Disconnected, BASE, TIMEOUT)),
        Box::new(|i| i.import_replied(ImportReply::Empty, at(500), TIMEOUT)),
        Box::new(|i| i.staged(Some(ExternalFrameOutcome::Unsupported), BASE, TIMEOUT)),
        Box::new(|i| i.staged(None, BASE, TIMEOUT)),
    ];
    for failure in failures {
        let mut import = running();
        assert_eq!(failure(&mut import), AndroidStep::GaveUp { restore: false });
        assert!(import.disabled && import.fallback_pending && !import.worker);
        assert_eq!(import.downgrade(), AndroidStep::Nothing);
        assert_eq!(import.queue_frame(Some(9), true), AndroidStep::Nothing);
        import.fallback_requested(false);
        assert!(import.fallback_pending);
        import.fallback_requested(true);
        assert!(!import.fallback_pending);
        assert!(!import.reopened().disabled);
    }
    assert_eq!(
        running().import_replied(ImportReply::Empty, at(499), TIMEOUT),
        AndroidStep::Nothing
    );
}

#[test]
fn a_silent_renderer_is_not_waited_for() {
    let mut import = running();
    import.staged(Some(ExternalFrameOutcome::Accepted), BASE, TIMEOUT);
    assert_eq!(import.check_presentation(at(499)), AndroidStep::Nothing);
    assert_eq!(import.check_presentation(at(500)), AndroidStep::GaveUp { restore: true });
    let mut import = running();
    import.staged(Some(ExternalFrameOutcome::Accepted), BASE, TIMEOUT);
    assert_eq!(
        import.renderer_answered(Some(ExternalFrameOutcome::FatalFailure)),
        AndroidStep::GaveUp { restore: true }
    );
    assert!(import.drain_retirement());
    assert!(!import.drain_retirement());
}

#[test]
fn uploads_end_native_frames() {
    let mut import = running();
    import.staged(Some(ExternalFrameOutcome::Accepted), BASE, TIMEOUT);
    let after = import.after_cpu_upload();
    assert!(after.disabled && after.retirement_pending && !after.pending);
    assert!(import.reset());
    assert!(!import.reset());
    assert!(has_passed(Some(BASE), BASE) && !has_passed(None, BASE));
    assert_eq!(deadline_after(BASE, TIMEOUT), at(500));
}
