use lumina_video::audio::AudioHandle;
use lumina_video::decode_loop::{
    decoder_call, prepare_decode_command, process_decode_command, AfterDecode, CommandResult,
    DecodeLoop, DecodeOutcome, DecodeThread, DecodeWork, DecoderCall, DecoderReport, Dimensions,
    MediaFacts, PreviewSearch, PreviewStep, MAX_PREVIEW_ATTEMPTS,
};
use lumina_video::decode_task::{DecodeAction, DecodeEvent, DecodePhase, DecodeTask, Observation};
use lumina_video::frame_queue::{DecodeCommand, FrameQueue};
use lumina_video::time::{Duration, Instant};
use lumina_video::video::VideoFrame;

const BASE: Instant = Instant { nanos: 1_000_000_000 };

fn at(millis: u64) -> Instant {
    BASE.after(Duration::from_millis(millis))
}

fn frame(millis: u64, size: u32) -> VideoFrame {
    VideoFrame::new(Duration::from_millis(millis), size, size, millis)
}

const RATE: u32 = 0x41C8_0000;

fn report(duration: Option<u64>, size: u32) -> DecoderReport {
    DecoderReport {
        duration: duration.map(Duration::from_secs),
        dimensions: Dimensions { width: size, height: size },
        frame_rate_bits: RATE,
    }
}

fn seen(duration: Option<u64>, size: u32, millis: u64) -> DecodeEvent {
    DecodeEvent::Observed(Observation {
        report: report(duration, size),
        buffering_percent: 70,
        position: Some(Duration::from_millis(millis)),
        now: at(millis),
    })
}

#[test]
fn facts_stay_known() {
    let mut facts = MediaFacts::unknown();
    facts.refresh(report(Some(9), 4));
    facts.refresh(DecoderReport {
        duration: None,
        dimensions: Dimensions { width: 0, height: 5 },
        frame_rate_bits: 0,
    });
    assert_eq!(facts.duration, Some(Duration::from_secs(9)));
    assert_eq!(facts.dimensions, Some(Dimensions { width: 4, height: 4 }));
    assert_eq!(facts.frame_rate_bits, Some(RATE));
}

#[test]
fn metadata_is_waited_for() {
    let mut facts = MediaFacts::unknown();
    assert!(!facts.await_metadata(report(Some(9), 1), Duration::from_millis(3000)));
    assert!(facts.duration.is_none());
    assert!(facts.await_metadata(report(Some(9), 1), Duration::from_millis(3001)));
    assert!(facts.await_metadata(report(Some(9), 2), Duration::zero()));
    let mut live = MediaFacts::unknown();
    let size = Dimensions { width: 3, height: 3 };
    assert!(!live.settle_live(Some(Duration::zero()), Some(size), RATE));
    assert!(!live.settle_live(None, None, RATE));
    assert!(live.settle_live(None, Some(size), RATE));
    assert_eq!(live.dimensions, Some(size));
}

#[test]
fn previews_are_looked_for_thirty_times() {
    let mut search = PreviewSearch::new();
    let placeholder = frame(0, 1);
    for attempt in 1..MAX_PREVIEW_ATTEMPTS {
        let outcome = if attempt % 2 == 0 {
            DecodeOutcome::EndOfStream
        } else {
            DecodeOutcome::Frame(placeholder)
        };
        assert_eq!(
            search.step(outcome),
            PreviewStep::RetryAfter(Duration::from_millis(100))
        );
    }
    assert_eq!(
        search.step(DecodeOutcome::Frame(placeholder)),
        PreviewStep::ShowPlaceholder(placeholder)
    );
    assert_eq!(PreviewSearch::new().step(DecodeOutcome::Failed), PreviewStep::GiveUp);
    assert_eq!(
        PreviewSearch::new().step(DecodeOutcome::Frame(frame(0, 8))),
        PreviewStep::Show(frame(0, 8), Dimensions { width: 8, height: 8 })
    );
}

#[test]
fn commands_call_the_decoder() {
    let mut queue = FrameQueue::new(2);
    queue.set_eos();
    assert_eq!(
        prepare_decode_command(DecodeCommand::Play, &mut queue),
        DecoderCall::Resume
    );
    assert!(!queue.is_eos());
    assert!(queue.try_push(frame(0, 2)));
    let seek = DecodeCommand::Seek(Duration::from_secs(3));
    assert_eq!(
        prepare_decode_command(seek, &mut queue),
        DecoderCall::Seek(Duration::from_secs(3))
    );
    assert!(queue.is_empty());
    assert_eq!(process_decode_command(seek, true, &mut queue), CommandResult::Continue(None));
    assert_eq!(
        process_decode_command(DecodeCommand::Play, false, &mut queue),
        CommandResult::Continue(Some(true))
    );
    assert_eq!(
        process_decode_command(DecodeCommand::Pause, true, &mut queue),
        CommandResult::Continue(Some(false))
    );
    assert_eq!(process_decode_command(DecodeCommand::Stop, true, &mut queue), CommandResult::Stop);
    assert_eq!(decoder_call(DecodeCommand::Stop), DecoderCall::NoCall);
    assert_eq!(decoder_call(DecodeCommand::Pause), DecoderCall::Pause);
    assert_eq!(decoder_call(DecodeCommand::SetMuted(true)), DecoderCall::SetMuted(true));
    assert_eq!(decoder_call(DecodeCommand::SetVolume(7)), DecoderCall::SetVolume(7));
}

#[test]
fn recorded_streams_wait_and_live_ones_do_not() {
    let mut queue = FrameQueue::new(1);
    let mut recorded = DecodeLoop::new(false, at(0));
    assert_eq!(
        recorded.next_work(&queue),
        DecodeWork::WaitForCommand(Duration::from_millis(100))
    );
    assert!(recorded.apply(CommandResult::Continue(Some(true))));
    assert_eq!(recorded.next_work(&queue), DecodeWork::DecodeNext);
    assert_eq!(
        recorded.after_decode(&mut queue, DecodeOutcome::Frame(frame(1, 2))),
        AfterDecode::GoOn
    );
    assert_eq!(recorded.next_work(&queue), DecodeWork::Rest(Duration::from_millis(5)));
    assert_eq!(
        recorded.after_decode(&mut queue, DecodeOutcome::Frame(frame(2, 2))),
        AfterDecode::PushAgain(frame(2, 2))
    );
    let mut live = DecodeLoop { is_live: true, ..recorded };
    assert_eq!(live.next_work(&queue), DecodeWork::DecodeNext);
    assert_eq!(
        live.after_decode(&mut queue, DecodeOutcome::Frame(frame(3, 2))),
        AfterDecode::GoOn
    );
    assert_eq!(queue.peek(), Some(frame(3, 2)));
    assert_eq!(queue.live_frames_dropped(), 1);
    assert_eq!(
        live.after_decode(&mut queue, DecodeOutcome::Failed),
        AfterDecode::Rest(Duration::from_millis(10))
    );
    assert_eq!(live.after_decode(&mut queue, DecodeOutcome::EndOfStream), AfterDecode::GoOn);
    assert!(!live.playing && queue.is_eos());
    assert!(!live.apply(CommandResult::Stop));
}

#[test]
fn facts_and_positions_are_renewed_in_time() {
    let mut state = DecodeLoop::new(false, at(0));
    state.playing = true;
    let mut facts = MediaFacts::unknown();
    state.refresh_metadata(&mut facts, report(Some(1), 5), at(500));
    assert!(facts.duration.is_none());
    state.refresh_metadata(&mut facts, report(Some(1), 5), at(501));
    assert!(facts.duration.is_some());
    let mut audio = AudioHandle::new();
    state.track_position(&mut audio, Some(Duration::from_millis(9)), at(16));
    assert_eq!(audio.native_position_us, 0);
    state.track_position(&mut audio, Some(Duration::from_millis(9)), at(17));
    assert_eq!(audio.native_position_us, 9000);
}

#[test]
fn a_thread_starts_paused_and_plays_on_order() {
    let mut thread = DecodeThread::new(FrameQueue::new(2));
    let mut audio = Some(AudioHandle::new());
    let (mut task, action) = DecodeTask::begin(&thread, at(0));
    assert_eq!(action, DecodeAction::Decode);
    let mut step = |task: &mut DecodeTask, thread: &mut DecodeThread, event| {
        task.advance(event, thread, &mut audio)
    };
    let first = DecodeOutcome::Frame(frame(0, 1));
    assert_eq!(
        step(&mut task, &mut thread, DecodeEvent::Decoded(first)),
        DecodeAction::Rest(Duration::from_millis(100))
    );
    assert_eq!(step(&mut task, &mut thread, DecodeEvent::Rested), DecodeAction::Decode);
    let picture = DecodeOutcome::Frame(frame(0, 9));
    assert_eq!(
        step(&mut task, &mut thread, DecodeEvent::Decoded(picture)),
        DecodeAction::Observe
    );
    assert_eq!(thread.frame_queue.len(), 1);
    let mut action = step(&mut task, &mut thread, seen(Some(8), 9, 10));
    while action == DecodeAction::Observe {
        action = step(&mut task, &mut thread, seen(Some(8), 9, 10));
    }
    assert_eq!(action, DecodeAction::Call(DecoderCall::Pause));
    assert_eq!(thread.duration(), Some(Duration::from_secs(8)));
    thread.play();
    assert_eq!(
        step(&mut task, &mut thread, DecodeEvent::CallDone(true)),
        DecodeAction::Call(DecoderCall::Resume)
    );
    assert_eq!(
        step(&mut task, &mut thread, DecodeEvent::CallDone(true)),
        DecodeAction::Observe
    );
    assert_eq!(step(&mut task, &mut thread, seen(Some(8), 9, 20)), DecodeAction::Decode);
    assert_eq!(thread.buffering_percent(), 70);
    let second = DecodeOutcome::Frame(frame(33, 9));
    assert_eq!(
        step(&mut task, &mut thread, DecodeEvent::Decoded(second)),
        DecodeAction::Observe
    );
    assert_eq!(
        step(&mut task, &mut thread, seen(Some(8), 9, 30)),
        DecodeAction::Rest(Duration::from_millis(5))
    );
    thread.pause();
    assert_eq!(
        step(&mut task, &mut thread, DecodeEvent::Rested),
        DecodeAction::Call(DecoderCall::Pause)
    );
    assert_eq!(
        step(&mut task, &mut thread, DecodeEvent::CallDone(true)),
        DecodeAction::Observe
    );
    assert_eq!(
        step(&mut task, &mut thread, seen(Some(8), 9, 40)),
        DecodeAction::WaitForCommand(Duration::from_millis(100))
    );
    thread.seek(Duration::from_secs(2));
    assert!(thread.frame_queue.is_empty());
    assert_eq!(
        step(&mut task, &mut thread, DecodeEvent::Rested),
        DecodeAction::Call(DecoderCall::Seek(Duration::from_secs(2)))
    );
    thread.stop();
    assert_eq!(
        step(&mut task, &mut thread, DecodeEvent::CallDone(true)),
        DecodeAction::End
    );
    assert_eq!(task.phase, DecodePhase::Finished);
}

#[test]
fn a_stopped_thread_does_not_begin() {
    let mut thread = DecodeThread::new(FrameQueue::new(2));
    thread.stop();
    let (task, action) = DecodeTask::begin(&thread, at(0));
    assert_eq!(action, DecodeAction::End);
    assert_eq!(task.phase, DecodePhase::Finished);
    assert!(thread.stop_flag && thread.frame_queue.stopped);
}

#[test]
fn live_streams_skip_the_wait_for_metadata() {
    let mut thread = DecodeThread::new(FrameQueue::new(2));
    let mut audio = None;
    let (mut task, _) = DecodeTask::begin(&thread, at(0));
    let picture = DecodeEvent::Decoded(DecodeOutcome::Frame(frame(0, 9)));
    assert_eq!(task.advance(picture, &mut thread, &mut audio), DecodeAction::Observe);
    assert_eq!(
        task.advance(seen(None, 1, 10), &mut thread, &mut audio),
        DecodeAction::Call(DecoderCall::Pause)
    );
    assert_eq!(thread.dimensions(), Some(Dimensions { width: 9, height: 9 }));
    assert_eq!(thread.frame_rate(), Some(RATE));
}
