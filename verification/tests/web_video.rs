use lumina_video::time::Duration;
use lumina_video::video::{VideoError, VideoState};
use lumina_video::web_video::{
    is_hls_url, ElementOrder, FrameUpload, GpuiWebVideoPlayer, RawHlsBuffer, RawHlsLevel,
    VideoElement, WebSource, WebVideoPlayer, WebVideoTexture,
};

fn element() -> VideoElement {
    VideoElement {
        width: 640,
        height: 360,
        position: Duration::from_secs(3),
        duration: Some(Duration::from_secs(60)),
        paused: false,
        ended: false,
        seeking: false,
        muted: true,
        ready_state: 4,
        error: None,
    }
}

#[test]
fn hls_is_known_by_its_address() {
    assert!(is_hls_url("https://a/live.m3u8?x"));
    assert!(is_hls_url("data:application/vnd.apple.mpegurl,x"));
    assert!(!is_hls_url("https://a/b.mp4"));
    let mut hls = WebVideoPlayer::new("https://a/live.m3u8");
    assert_eq!(hls.load_source(true), WebSource::Element);
    assert!(!hls.has_hls_handle);
    assert_eq!(hls.load_source(false), WebSource::HlsLibrary);
    assert!(hls.has_hls_handle);
    let mut plain = WebVideoPlayer::new("https://a/b.mp4");
    assert_eq!(plain.load_source(false), WebSource::Element);
}

#[test]
fn states_follow_the_element() {
    let mut player = WebVideoPlayer::new("a.mp4");
    assert_eq!(player.state(), &VideoState::Loading);
    let position = Duration::from_secs(3);
    player.update_state(&element());
    assert_eq!(player.state(), &VideoState::Playing { position });
    player.update_state(&VideoElement { ready_state: 2, ..element() });
    assert_eq!(player.state(), &VideoState::Buffering { position });
    player.update_state(&VideoElement { paused: true, ready_state: 2, ..element() });
    assert_eq!(player.state(), &VideoState::Paused { position });
    player.update_state(&VideoElement { ended: true, paused: true, ..element() });
    assert_eq!(player.state(), &VideoState::Ended);
    player.update_state(&VideoElement { ended: true, error: Some("gone".into()), ..element() });
    assert_eq!(player.state(), &VideoState::Error(VideoError::Generic("gone".into())));
}

#[test]
fn metadata_comes_with_the_size() {
    let mut player = WebVideoPlayer::new("a.mp4");
    player.update_metadata(&VideoElement { width: 0, ..element() });
    assert!(player.metadata().is_none());
    player.update_metadata(&element());
    let metadata = player.metadata().unwrap();
    assert_eq!((metadata.width, metadata.height), (640, 360));
    assert_eq!(metadata.frame_rate_bits, 30.0f32.to_bits());
    assert_eq!(metadata.pixel_aspect_ratio_bits, 1.0f32.to_bits());
    assert_eq!(metadata.codec, "browser-native");
    assert_eq!(metadata.duration, Some(Duration::from_secs(60)));
}

#[test]
fn buttons_depend_on_the_element() {
    let player = WebVideoPlayer::new("a.mp4");
    assert_eq!(player.toggle_playback(&element()), ElementOrder::Pause);
    let ended = VideoElement { ended: true, ..element() };
    assert_eq!(player.toggle_playback(&ended), ElementOrder::Play);
    assert!(player.is_ended(&ended) && !player.is_playing(&ended));
    assert!(player.is_muted(&element()) && !player.toggle_mute(&element()));
    assert_eq!(player.position(&element()), Duration::from_secs(3));
    assert_eq!(player.duration(&element()), Some(Duration::from_secs(60)));
    assert_eq!(player.dimensions(&element()).width, 640);
}

#[test]
fn textures_follow_the_size() {
    let mut player = WebVideoPlayer::new("a.mp4");
    let mut texture = None;
    let step = player.update_texture(&VideoElement { height: 0, ..element() }, &mut texture);
    assert!(!step.renew && !step.copy && !step.shown && texture.is_none());
    player.frame_arrived();
    assert!(player.is_frame_ready());
    let step = player.update_texture(&element(), &mut texture);
    assert!(step.renew && step.copy && step.shown);
    assert!(!player.is_frame_ready());
    let step = player.update_texture(&element(), &mut texture);
    assert!(!step.renew && !step.copy && step.shown);
    let step = player.update_texture(&VideoElement { width: 320, ..element() }, &mut texture);
    assert!(step.renew);
    let texture = WebVideoTexture::new(2, 0);
    assert_eq!(texture.upload_frame(2, 0), FrameUpload::Empty);
    assert_eq!(texture.upload_frame(2, 1), FrameUpload::Resized);
    assert_eq!(WebVideoTexture::new(2, 2).upload_frame(2, 2), FrameUpload::Copy);
    assert_eq!(texture.dimensions().width, 2);
}

#[test]
fn refreshes_are_asked_for_while_something_moves() {
    let mut player = GpuiWebVideoPlayer::new("a.mp4");
    player.player.frame_arrived();
    let step = player.update(&element(), false);
    assert!(!step.again && !step.texture.shown && player.player().is_frame_ready());
    let step = player.update(&element(), true);
    assert!(step.again && step.texture.copy && player.shown);
    assert!(player.player().metadata().is_some());
    let paused = VideoElement { paused: true, ..element() };
    assert!(!player.update(&paused, true).again);
    assert!(player.update(&VideoElement { paused: true, seeking: true, ..element() }, true).again);
    let starting = VideoElement { paused: true, ready_state: 1, ..element() };
    assert!(player.update(&starting, true).again);
    let broken = VideoElement { ready_state: 1, error: Some("x".into()), ..element() };
    assert!(!player.update(&broken, true).again);
}

#[test]
fn qualities_are_listed_without_gaps() {
    let raw = |index, codec: Option<&str>| {
        Some(RawHlsLevel {
            index,
            bitrate: Some(1000),
            width: None,
            height: Some(720),
            codec: codec.map(String::from),
        })
    };
    let levels = Some(vec![raw(Some(5), None), None, raw(None, Some("avc1"))]);
    let mut player = WebVideoPlayer::new("a.m3u8");
    assert!(player.hls_quality_levels(&levels).is_empty());
    player.load_source(false);
    let list = player.hls_quality_levels(&levels);
    assert_eq!(list.len(), 2);
    assert_eq!((list[0].index, list[0].codec.as_str()), (5, "unknown"));
    assert_eq!((list[1].index, list[1].codec.as_str()), (2, "avc1"));
    assert_eq!((list[1].bitrate, list[1].width, list[1].height), (1000, 0, 720));
    assert!(player.hls_quality_levels(&None).is_empty());
    assert_eq!(player.set_hls_quality_level(-1), Some(-1));
    assert_eq!(WebVideoPlayer::new("a.mp4").set_hls_quality_level(2), None);
}

#[test]
fn buffer_reports_are_completed() {
    let mut player = WebVideoPlayer::new("a.m3u8");
    let empty = RawHlsBuffer { buffer_length_bits: None, bandwidth: None, current_level: None };
    assert_eq!(player.hls_buffer_info(&Some(empty)), None);
    player.load_source(false);
    let info = player.hls_buffer_info(&Some(empty)).unwrap();
    assert_eq!((info.bandwidth, info.current_level), (0, -1));
    assert_eq!(f64::from_bits(info.buffer_length_bits), 0.0);
    let full = RawHlsBuffer {
        buffer_length_bits: Some(2.5f64.to_bits()),
        bandwidth: Some(9),
        current_level: Some(3),
    };
    let info = player.hls_buffer_info(&Some(full)).unwrap();
    assert_eq!(f64::from_bits(info.buffer_length_bits), 2.5);
    assert_eq!((info.bandwidth, info.current_level), (9, 3));
    assert_eq!(player.hls_buffer_info(&None), None);
}
