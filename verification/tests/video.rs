use lumina_video::time::Duration;
use lumina_video::video::{
    is_positive_float, VideoError, VideoFrame, VideoMetadata, VideoPlayerHandle, VideoState,
};

#[test]
fn state_semantics_remain_stable() {
    let playing = VideoState::Playing { position: Duration::from_secs(10) };
    assert_eq!(playing.position(), Some(Duration::from_secs(10)));
}

#[test]
fn states_that_can_play() {
    let position = Duration::from_secs(1);
    assert!(VideoState::Ready.can_play());
    assert!(VideoState::Paused { position }.can_play());
    assert!(VideoState::Ended.can_play());
    assert!(!VideoState::Loading.can_play());
    assert!(!VideoState::Playing { position }.can_play());
    assert!(!VideoState::Buffering { position }.can_play());
    assert!(!VideoState::Error(VideoError::Generic("x".to_string())).can_play());
    assert!(VideoState::Playing { position }.is_playing());
    assert!(!VideoState::Buffering { position }.is_playing());
    assert_eq!(VideoState::Buffering { position }.position(), Some(position));
    assert_eq!(VideoState::Ended.position(), None);
}

#[test]
fn error_texts() {
    let cases = [
        (VideoError::OpenFailed("a".to_string()), "Failed to open video: a"),
        (VideoError::DecoderInit("b".to_string()), "Decoder initialization failed: b"),
        (VideoError::DecodeFailed("c".to_string()), "Frame decode failed: c"),
        (VideoError::SeekFailed("d".to_string()), "Seek failed: d"),
        (VideoError::UnsupportedFormat("e".to_string()), "Unsupported format: e"),
        (VideoError::Network("f".to_string()), "Network error: f"),
        (VideoError::Tls("g".to_string()), "TLS error: g"),
        (VideoError::Generic("h".to_string()), "Video error: h"),
    ];
    for (error, text) in cases {
        assert_eq!(error.text(), text);
        assert_eq!(error.clone(), error);
    }
}

#[test]
fn handle_observes_state_and_metadata() {
    let mut handle = VideoPlayerHandle::new();
    assert_eq!(handle.state(), VideoState::Loading);
    assert_eq!(handle.metadata(), None);
    handle.set_state(VideoState::Ready);
    let metadata = VideoMetadata {
        width: 1920,
        height: 1080,
        duration: Some(Duration::from_secs(120)),
        frame_rate_bits: 30.0f32.to_bits(),
        codec: "h264".to_string(),
        pixel_aspect_ratio_bits: 1.0f32.to_bits(),
        start_time: None,
    };
    assert!(metadata.has_frame_rate());
    let interval = Duration::from_millis(40);
    assert_eq!(metadata.frame_duration(interval), interval);
    for rate in [0.0f32, -30.0, f32::INFINITY, f32::NAN] {
        let odd = VideoMetadata { frame_rate_bits: rate.to_bits(), ..metadata.clone() };
        assert_eq!(odd.frame_duration(interval), Duration::from_millis(33));
    }
    handle.set_metadata(metadata.clone());
    assert_eq!(handle.state(), VideoState::Ready);
    assert_eq!(handle.metadata(), Some(metadata));
}

#[test]
fn positive_floats_are_told_by_their_bits() {
    for value in [f32::MIN_POSITIVE, 1.0e-45, 0.5, 29.97, f32::MAX, f32::INFINITY] {
        assert!(is_positive_float(value.to_bits()));
    }
    for value in [0.0, -0.0, -1.0, f32::NEG_INFINITY, f32::NAN, -f32::NAN] {
        assert!(!is_positive_float(value.to_bits()));
    }
}

#[test]
fn frame_dimensions() {
    let frame = VideoFrame::new(Duration::from_secs(1), 640, 360, 7);
    assert_eq!(frame.dimensions(), (640, 360));
}
