use lumina_video::demo::{
    demo_key, format_time, sample_name, sample_url, DemoApp, DemoKey, Picture, SAMPLE_COUNT,
};
use lumina_video::player::Platform;
use lumina_video::session::SessionCommand;
use lumina_video::time::{ClockReading, Duration, Instant};
use lumina_video::video::{VideoError, VideoMetadata, VideoState};

const NOW: Instant = Instant { nanos: 1_000_000_000 };
const CLOCK: ClockReading = ClockReading { now: NOW, unix_us: 0 };

#[test]
fn times_are_shown_as_on_a_clock() {
    assert_eq!(format_time(Duration::zero()), "0:00");
    assert_eq!(format_time(Duration::from_millis(59_999)), "0:59");
    assert_eq!(format_time(Duration::from_secs(754)), "12:34");
    assert_eq!(format_time(Duration::from_secs(3600)), "1:00:00");
    assert_eq!(format_time(Duration::from_secs(45_296)), "12:34:56");
}

#[test]
fn keys_are_known_by_name() {
    for (name, key) in [
        ("left", DemoKey::Left),
        ("right", DemoKey::Right),
        ("up", DemoKey::Up),
        ("down", DemoKey::Down),
        ("enter", DemoKey::Enter),
        ("return", DemoKey::Enter),
        ("space", DemoKey::Space),
        ("m", DemoKey::Mute),
        ("M", DemoKey::Other),
    ] {
        assert_eq!(demo_key(name), key);
    }
}

#[test]
fn samples_are_chosen_and_loaded() {
    let mut app = DemoApp::new(None, Platform::Linux);
    assert_eq!(app.status, "Select a sample and press Load, or press Enter");
    assert!(!app.press(DemoKey::Up, Platform::Linux, CLOCK).notify);
    for _ in 1..SAMPLE_COUNT {
        assert!(app.press(DemoKey::Down, Platform::Linux, CLOCK).notify);
    }
    assert!(!app.press(DemoKey::Down, Platform::Linux, CLOCK).notify);
    assert_eq!(app.render().sample_name, "Sample MKV");
    app.select_sample(1);
    let step = app.press(DemoKey::Enter, Platform::Linux, CLOCK);
    assert!(step.notify && step.order.is_none());
    assert_eq!(app.status, format!("Loading: {}...", sample_url(1)));
    let player = app.player.as_ref().unwrap();
    assert_eq!(player.url(), sample_url(1));
    assert!(player.config.autoplay && player.config.show_controls && !player.config.looping);
    assert_eq!(sample_name(1), "Sintel (MP4)");
}

#[test]
fn a_named_video_is_loaded_at_once() {
    let app = DemoApp::new(Some("file:///a.mp4".into()), Platform::MacOs);
    assert_eq!(app.status, "Loading: file:///a.mp4...");
    assert!(app.player.as_ref().unwrap().core.is_some());
    assert_eq!(app.render().picture, Picture::Loading);
    assert_eq!(app.render().state, "⏳ Loading...");
}

fn playing() -> DemoApp {
    let mut app = DemoApp::new(Some("file:///a.mp4".into()), Platform::Linux);
    let player = app.player.as_mut().unwrap();
    player.playback.position = Duration::from_secs(62);
    player.playback.duration = Some(Duration::from_secs(64));
    player.playback.initialized = true;
    player.playback.buffering_percent = 42;
    player.state = VideoState::Playing { position: Duration::from_secs(62) };
    player.metadata = Some(VideoMetadata {
        width: 320,
        height: 180,
        duration: None,
        frame_rate_bits: 0,
        codec: String::new(),
        pixel_aspect_ratio_bits: 0,
        start_time: None,
    });
    app
}

#[test]
fn arrow_keys_seek() {
    let mut app = playing();
    let step = app.press(DemoKey::Right, Platform::Linux, CLOCK);
    assert_eq!(step.order, Some(SessionCommand::Seek { position: Duration::from_secs(64) }));
    assert_eq!(app.status, "Seek → 62s");
    let step = app.press(DemoKey::Left, Platform::Linux, CLOCK);
    assert_eq!(step.order, Some(SessionCommand::Seek { position: Duration::from_secs(57) }));
    assert_eq!(app.status, "Seek ← 62s");
    app.player.as_mut().unwrap().playback.position = Duration::from_secs(3);
    let step = app.press(DemoKey::Left, Platform::Linux, CLOCK);
    assert_eq!(step.order, Some(SessionCommand::Seek { position: Duration::zero() }));
    app.player.as_mut().unwrap().playback.duration = None;
    let step = app.press(DemoKey::Right, Platform::Linux, CLOCK);
    assert_eq!(step.order, Some(SessionCommand::Seek { position: Duration::from_secs(8) }));
}

#[test]
fn other_keys_play_and_mute() {
    let mut app = playing();
    let step = app.press(DemoKey::Space, Platform::Linux, CLOCK);
    assert_eq!(step.order, Some(SessionCommand::Pause));
    app.player.as_mut().unwrap().state = VideoState::Ended;
    let step = app.press(DemoKey::Space, Platform::Linux, CLOCK);
    assert_eq!(step.order, Some(SessionCommand::Play));
    assert!(app.press(DemoKey::Mute, Platform::Linux, CLOCK).notify);
    assert_eq!(app.render().mute_icon, "🔇");
    assert!(!app.press(DemoKey::Other, Platform::Linux, CLOCK).notify);
    let mut empty = DemoApp::new(None, Platform::Linux);
    for key in [DemoKey::Left, DemoKey::Right, DemoKey::Space, DemoKey::Mute] {
        assert!(!empty.press(key, Platform::Linux, CLOCK).notify);
    }
}

#[test]
fn the_view_says_what_is_going_on() {
    let mut app = playing();
    let view = app.render();
    assert_eq!(view.picture, Picture::Surface);
    assert!(view.show_controls);
    assert_eq!(view.play_icon, "⏸");
    assert_eq!(view.mute_icon, "🔊");
    assert_eq!(view.position, "1:02");
    assert_eq!(view.duration, "1:04");
    assert_eq!(view.state, "▶ Playing");
    assert_eq!(view.resolution, "320×180");
    assert_eq!(view.buffering.as_deref(), Some("42%"));
    app.player.as_mut().unwrap().state = VideoState::Ended;
    let view = app.render();
    assert_eq!((view.play_icon.as_str(), view.state.as_str()), ("↺", "⏹ Ended"));
    assert_eq!(view.buffering, None);
    app.player.as_mut().unwrap().state = VideoState::Paused { position: Duration::zero() };
    let view = app.render();
    assert_eq!((view.play_icon.as_str(), view.state.as_str()), ("▶", "⏸ Ready"));
    let player = app.player.as_mut().unwrap();
    player.state = VideoState::Error(VideoError::Generic("x".into()));
    player.playback.initialized = false;
    let view = app.render();
    assert_eq!((view.picture, view.state.as_str()), (Picture::Error, "✕ Error"));
    assert!(!view.show_controls);
    let view = DemoApp::new(None, Platform::Linux).render();
    assert_eq!((view.picture, view.state.as_str()), (Picture::Empty, "No video"));
    assert_eq!((view.position.as_str(), view.duration.as_str()), ("0:00", "live"));
    assert_eq!(view.resolution, "—");
}
