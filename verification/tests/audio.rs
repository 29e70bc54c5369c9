use lumina_video::audio::{
    choose_stream_format, is_sample_rate_supported, AudioConfig, AudioHandle, AudioSync,
    CallbackState, OutputFrame, SampleFormat, SupportedConfig,
};
use lumina_video::audio_ring_buffer::{audio_ring_buffer, RingBufferConfig};
use lumina_video::time::{Duration, Instant};

#[test]
fn test_audio_handle_volume() {
    let mut handle = AudioHandle::new();
    assert_eq!(handle.volume(), 100);

    handle.set_volume(50);
    assert_eq!(handle.volume(), 50);

    handle.set_volume(150); // Should clamp to 100
    assert_eq!(handle.volume(), 100);
}

#[test]
fn test_audio_handle_mute() {
    let mut handle = AudioHandle::new();
    assert!(!handle.is_muted());
    assert_eq!(handle.effective_volume() as f32 / 100.0, 1.0);

    handle.set_muted(true);
    assert!(handle.is_muted());
    assert_eq!(handle.effective_volume() as f32 / 100.0, 0.0);

    handle.toggle_mute();
    assert!(!handle.is_muted());
}

#[test]
fn position_counts_from_base_once_the_epoch_is_set() {
    let mut handle = AudioHandle::new();
    handle.set_audio_format(48_000, 2);
    handle.set_audio_base_pts(Duration::from_secs(3));
    handle.add_samples_played(96_000);
    assert_eq!(handle.position(), Duration::zero());

    handle.enable_playback_epoch(1_000);
    assert_eq!(handle.position(), Duration::from_secs(4));
    assert_eq!(handle.playback_epoch(), Some(1_000));
    handle.enable_playback_epoch(2_000);
    assert_eq!(handle.playback_epoch(), Some(1_000));

    handle.start_playback_epoch(5_000);
    assert_eq!(handle.position(), Duration::from_secs(3));

    handle.set_native_position(Duration::from_millis(7_500));
    assert!(handle.is_using_native_position());
    assert_eq!(handle.position(), Duration::from_millis(7_500));
    handle.clear_native_position();
    handle.clear_audio_base_pts();
    assert_eq!(handle.audio_base_pts(), None);
    assert_eq!(handle.position(), Duration::zero());
}

#[test]
fn samples_of_an_unknown_format_take_no_time() {
    let mut handle = AudioHandle::new();
    handle.add_samples_played(1_000);
    handle.set_audio_format(0, 2);
    assert_eq!(handle.samples_played_duration(), Duration::zero());
    handle.set_audio_format(48_000, 0);
    assert_eq!(handle.samples_played_duration(), Duration::zero());
    handle.set_audio_format(44_100, 1);
    // 1000 / 44100 s, in whole microseconds
    assert_eq!(handle.samples_played_duration(), Duration::from_micros(22_675));
}

#[test]
fn stream_offset_normalizes_the_position() {
    let mut handle = AudioHandle::new();
    handle.enable_playback_epoch(1);
    handle.set_native_position(Duration::from_secs(10));
    handle.set_video_start_time(Some(Duration::from_secs(1)));
    handle.finalize_stream_pts_offset(Some(Duration::from_secs(3)));
    assert_eq!(handle.stream_pts_offset_us(), 2_000_000);
    assert_eq!(handle.position_for_sync(), Duration::from_secs(8));

    handle.set_stream_pts_offset(Some(Duration::from_secs(20)), Some(Duration::zero()));
    assert_eq!(handle.position_for_sync(), Duration::zero());

    handle.set_stream_pts_offset(None, Some(Duration::from_secs(5)));
    assert_eq!(handle.stream_pts_offset_us(), 0);
    assert_eq!(handle.position_for_sync(), Duration::from_secs(10));
}

#[test]
fn audio_sync_falls_back_to_the_wall_clock() {
    let mut handle = AudioHandle::new();
    handle.enable_playback_epoch(1);
    handle.set_native_position(Duration::from_secs(9));
    let start = Instant::from_nanos(1_000);
    let later = start.after(Duration::from_millis(250));
    let mut sync = AudioSync::new(start);
    assert!(!sync.using_audio_clock(&handle));
    assert_eq!(sync.position(&handle, later), Duration::from_millis(250));

    handle.set_available(true);
    assert!(sync.using_audio_clock(&handle));
    assert_eq!(sync.position(&handle, later), Duration::from_secs(9));
    handle.set_native_position(Duration::from_secs(11));
    assert_eq!(sync.position(&handle, later), Duration::from_secs(11));
    sync.set_use_audio_clock(false);
    assert_eq!(sync.position(&handle, later), Duration::from_millis(250));
    assert!(!sync.using_audio_clock(&handle));
}

#[test]
fn default_audio_format() {
    let config = AudioConfig::default();
    assert_eq!((config.sample_rate, config.channels, config.buffer_size), (48_000, 2, 1024));
}

#[test]
fn stream_format_falls_back_to_the_device_rate() {
    let configs = [SupportedConfig {
        channels: 2,
        sample_format: SampleFormat::F32,
        min_sample_rate: 44_100,
        max_sample_rate: 96_000,
    }];
    assert!(is_sample_rate_supported(&configs, 2, SampleFormat::F32, 44_100));
    assert!(!is_sample_rate_supported(&configs, 1, SampleFormat::F32, 44_100));
    assert!(!is_sample_rate_supported(&configs, 2, SampleFormat::I16, 44_100));

    let kept = choose_stream_format(48_000, 6, SampleFormat::F32, Some(96_000), &configs);
    assert_eq!((kept.sample_rate, kept.channels), (96_000, 2));
    let fallen = choose_stream_format(48_000, 2, SampleFormat::F32, Some(8_000), &configs);
    assert_eq!((fallen.sample_rate, fallen.channels), (48_000, 2));
    let device = choose_stream_format(48_000, 0, SampleFormat::F32, None, &configs);
    assert_eq!((device.sample_rate, device.channels), (48_000, 1));
}

fn bits(values: &[f32]) -> Vec<u32> {
    values.iter().map(|v| v.to_bits()).collect()
}

#[test]
fn callback_is_silent_until_playing_and_the_epoch_is_set() {
    let (producer, mut consumer, mut shared) = audio_ring_buffer(RingBufferConfig {
        capacity_samples: 1024,
        prefill_samples: 1,
    });
    producer.write(&mut shared, &bits(&[0.5, -0.5]));
    let mut handle = AudioHandle::new();
    let mut state = CallbackState::new();
    let out = state.fill_output(true, &mut handle, &mut consumer, &mut shared, 2, 2);
    assert_eq!(out, vec![OutputFrame::Silence, OutputFrame::Silence]);
    handle.enable_playback_epoch(1);
    let out = state.fill_output(false, &mut handle, &mut consumer, &mut shared, 1, 2);
    assert_eq!(out, vec![OutputFrame::Silence]);
    assert_eq!(producer.fill_level(&shared), 2);

    let out = state.fill_output(true, &mut handle, &mut consumer, &mut shared, 1, 2);
    assert_eq!(out, vec![OutputFrame::Stereo(0.5f32.to_bits(), (-0.5f32).to_bits())]);
    assert_eq!(handle.samples_played(), 2);
}

#[test]
fn callback_maps_channels() {
    let (producer, mut consumer, mut shared) = audio_ring_buffer(RingBufferConfig {
        capacity_samples: 1024,
        prefill_samples: 1,
    });
    producer.write(&mut shared, &bits(&[1.0, 2.0, 3.0, 4.0]));
    let mut handle = AudioHandle::new();
    handle.enable_playback_epoch(1);
    let mut state = CallbackState::new();
    let one = 1.0f32.to_bits();
    let two = 2.0f32.to_bits();
    let three = 3.0f32.to_bits();
    let four = 4.0f32.to_bits();
    let out = state.fill_output(true, &mut handle, &mut consumer, &mut shared, 1, 1);
    assert_eq!(out, vec![OutputFrame::Downmix(one, two)]);
    handle.set_audio_format(48_000, 1);
    let out = state.fill_output(true, &mut handle, &mut consumer, &mut shared, 1, 2);
    assert_eq!(out, vec![OutputFrame::Stereo(three, three)]);
    let out = state.fill_output(true, &mut handle, &mut consumer, &mut shared, 1, 1);
    assert_eq!(out, vec![OutputFrame::Mono(four)]);
    assert_eq!(handle.samples_played(), 4);
}

#[test]
fn three_empty_callbacks_are_a_stall_that_the_next_sample_ends() {
    let (producer, mut consumer, mut shared) = audio_ring_buffer(RingBufferConfig {
        capacity_samples: 1024,
        prefill_samples: 1,
    });
    let mut handle = AudioHandle::new();
    handle.enable_playback_epoch(1);
    let mut state = CallbackState::new();
    for expected in [false, false, true] {
        state.fill_output(true, &mut handle, &mut consumer, &mut shared, 4, 2);
        assert_eq!(handle.is_audio_stalled(), expected);
    }
    producer.write(&mut shared, &bits(&[1.0, 2.0]));
    state.fill_output(true, &mut handle, &mut consumer, &mut shared, 4, 2);
    assert!(!handle.is_audio_stalled());
}

#[test]
fn a_flush_restarts_the_played_counter() {
    let (producer, mut consumer, mut shared) = audio_ring_buffer(RingBufferConfig {
        capacity_samples: 1024,
        prefill_samples: 1,
    });
    producer.write(&mut shared, &bits(&[1.0; 600]));
    let mut handle = AudioHandle::new();
    handle.enable_playback_epoch(1);
    let mut state = CallbackState::new();
    state.fill_output(true, &mut handle, &mut consumer, &mut shared, 200, 2);
    assert_eq!(handle.samples_played(), 400);
    producer.request_flush(&mut shared);
    state.fill_output(true, &mut handle, &mut consumer, &mut shared, 10, 2);
    assert_eq!(handle.samples_played(), 0);
}

#[test]
fn an_offset_between_the_streams_can_be_taken_back() {
    let mut handle = AudioHandle::new();
    handle.stream_pts_offset_us = 40_000;
    handle.clear_stream_pts_offset();
    assert_eq!(handle.stream_pts_offset_us, 0);
}
