use lumina_video::audio::{AudioHandle, AudioSamples, AudioState, SampleFormat, SupportedConfig};
use lumina_video::audio_player::{
    audio_call, backpressure, AudioAction, AudioCall, AudioEvent, AudioLoop, AudioOutcome,
    AudioPhase, AudioPlayer, AudioTask, AudioThread, DeviceFormat, MAX_EMPTY_DECODES_NORMAL,
};
use lumina_video::audio_ring_buffer::{audio_ring_buffer, RingBufferConfig};
use lumina_video::frame_queue::DecodeCommand;
use lumina_video::time::Duration;

const CONFIG: RingBufferConfig = RingBufferConfig { capacity_samples: 16, prefill_samples: 4 };

fn device() -> DeviceFormat {
    DeviceFormat { sample_rate: 44_100, channels: 6, sample_format: SampleFormat::F32 }
}

fn covering(min: u32, max: u32) -> SupportedConfig {
    SupportedConfig {
        channels: 2,
        sample_format: SampleFormat::F32,
        min_sample_rate: min,
        max_sample_rate: max,
    }
}

#[test]
fn a_stream_runs_at_the_wanted_rate_where_it_can() {
    let configs = [covering(8_000, 48_000)];
    let (player, format, _, _, _) =
        AudioPlayer::new_ring_buffer(CONFIG, None, Some(48_000), device(), &configs);
    assert_eq!(format.channels, 2);
    assert_eq!(player.device_sample_rate(), 48_000);
    assert!(player.handle().unwrap().is_available());
    assert_eq!(player.state(), AudioState::Paused);
    let mut handle = AudioHandle::new();
    handle.set_volume(40);
    let (player, _, _, _, _) =
        AudioPlayer::new_ring_buffer(CONFIG, Some(&mut handle), None, device(), &configs);
    assert!(player.handle().is_none());
    assert!(handle.is_available());
    assert_eq!(handle.volume(), 40);
    let (player, _, _, _, _) =
        AudioPlayer::new_ring_buffer(CONFIG, None, Some(96_000), device(), &configs);
    assert_eq!(player.device_sample_rate(), 44_100);
    let mono = DeviceFormat { channels: 1, ..device() };
    let (mut player, format, _, _, _) =
        AudioPlayer::new_ring_buffer(CONFIG, None, None, mono, &configs);
    assert_eq!((format.channels, format.sample_rate), (1, 44_100));
    player.play();
    assert!(player.playing);
    assert_eq!(player.state(), AudioState::Playing);
    player.pause();
    assert!(!player.playing);
}

#[test]
fn a_full_buffer_holds_the_decoder_back() {
    assert_eq!(backpressure(9, 16), Some(Duration::from_millis(20)));
    assert_eq!(backpressure(8, 16), Some(Duration::from_millis(5)));
    assert_eq!(backpressure(4, 16), None);
}

#[test]
fn commands_call_the_stream() {
    assert_eq!(audio_call(DecodeCommand::Play), AudioCall::Play);
    assert_eq!(audio_call(DecodeCommand::Pause), AudioCall::Pause);
    assert_eq!(
        audio_call(DecodeCommand::Seek(Duration::from_secs(1))),
        AudioCall::Seek(Duration::from_secs(1))
    );
    assert_eq!(audio_call(DecodeCommand::SetMuted(true)), AudioCall::NoCall);
    assert_eq!(audio_call(DecodeCommand::SetVolume(3)), AudioCall::NoCall);
}

#[test]
fn empty_decodes_end_playback_but_not_a_seek() {
    let mut state = AudioLoop::new().applied(DecodeCommand::Play);
    for _ in 1..MAX_EMPTY_DECODES_NORMAL {
        state = state.after_empty();
        assert!(state.playing);
    }
    assert!(!state.after_empty().playing);
    let mut state = state.applied(DecodeCommand::Seek(Duration::zero()));
    for _ in 0..100 {
        assert!(!state.seek_is_slow());
        state = state.after_empty();
    }
    assert!(state.playing && state.seek_is_slow());
    assert_eq!(
        state.after_samples(),
        AudioLoop { playing: true, seeking: false, empty_decodes: 0, first_samples: false }
    );
}

fn samples(count: usize) -> AudioSamples {
    AudioSamples {
        data: vec![0.5f32.to_bits(); count],
        sample_rate: 48_000,
        channels: 2,
        pts: Duration::from_millis(7),
    }
}

#[test]
fn a_thread_opens_plays_and_ends() {
    let (producer, _, mut ring) = audio_ring_buffer(CONFIG);
    let (mut thread, mut handle) = AudioThread::new(Some(Duration::from_millis(100)));
    assert_eq!(handle.video_start_time_us, Some(100_000));
    let (mut task, action) = AudioTask::begin();
    assert_eq!(action, AudioAction::QueryDevice);
    let action =
        task.advance(AudioEvent::DeviceRate(Some(48_000)), &mut thread, &mut handle, &producer, &mut ring);
    assert_eq!(
        action,
        AudioAction::OpenStream(RingBufferConfig {
            capacity_samples: 48_000,
            prefill_samples: 4_800,
        })
    );
    let action = task.advance(AudioEvent::StreamOpened(true), &mut thread, &mut handle, &producer, &mut ring);
    assert_eq!(action, AudioAction::OpenDecoder(48_000));
    let start = Some(Duration::from_millis(130));
    let action =
        task.advance(AudioEvent::DecoderOpened(Some(start)), &mut thread, &mut handle, &producer, &mut ring);
    assert_eq!(action, AudioAction::WaitForCommand(Duration::from_millis(100)));
    assert_eq!(handle.stream_pts_offset_us, 30_000);
    thread.play();
    thread.seek(Duration::from_secs(1));
    let action = task.advance(AudioEvent::Rested, &mut thread, &mut handle, &producer, &mut ring);
    assert_eq!(action, AudioAction::Call(AudioCall::Play));
    let flushes = ring.flush_generation;
    let action = task.advance(AudioEvent::CallDone, &mut thread, &mut handle, &producer, &mut ring);
    assert_eq!(action, AudioAction::Call(AudioCall::Seek(Duration::from_secs(1))));
    assert_eq!(ring.flush_generation, flushes + 1);
    let action = task.advance(AudioEvent::CallDone, &mut thread, &mut handle, &producer, &mut ring);
    assert_eq!(action, AudioAction::Decode);
    let action = task.advance(
        AudioEvent::Decoded(AudioOutcome::Nothing),
        &mut thread,
        &mut handle,
        &producer,
        &mut ring,
    );
    assert_eq!(action, AudioAction::Rest(Duration::from_millis(10)));
    task.advance(AudioEvent::Rested, &mut thread, &mut handle, &producer, &mut ring);
    let action = task.advance(
        AudioEvent::Decoded(AudioOutcome::Samples(samples(2))),
        &mut thread,
        &mut handle,
        &producer,
        &mut ring,
    );
    assert_eq!(action, AudioAction::Decode);
    assert_eq!(handle.sample_rate, 48_000);
    assert_eq!(handle.audio_base_pts_us, Some(7_000));
    let action = task.advance(
        AudioEvent::Decoded(AudioOutcome::Samples(samples(600))),
        &mut thread,
        &mut handle,
        &producer,
        &mut ring,
    );
    assert_eq!(action, AudioAction::Rest(Duration::from_millis(20)));
    thread.stop();
    let action = task.advance(AudioEvent::Rested, &mut thread, &mut handle, &producer, &mut ring);
    assert_eq!(action, AudioAction::End);
    assert_eq!(task.phase, AudioPhase::Finished);
}

#[test]
fn audio_is_unavailable_where_nothing_opens() {
    for failing in 0..3 {
        let (producer, _, mut ring) = audio_ring_buffer(CONFIG);
        let (mut thread, mut handle) = AudioThread::new(None);
        assert!(handle.is_available());
        let (mut task, _) = AudioTask::begin();
        let rate = if failing == 0 { None } else { Some(48_000) };
        let mut action =
            task.advance(AudioEvent::DeviceRate(rate), &mut thread, &mut handle, &producer, &mut ring);
        if failing > 0 {
            let opened = AudioEvent::StreamOpened(failing > 1);
            action = task.advance(opened, &mut thread, &mut handle, &producer, &mut ring);
        }
        if failing > 1 {
            let refused = AudioEvent::DecoderOpened(None);
            action = task.advance(refused, &mut thread, &mut handle, &producer, &mut ring);
        }
        assert_eq!(action, AudioAction::End);
        assert!(!handle.is_available());
    }
}
