//! A small program around the player: a list of samples, a bar of controls, and
//! what they show.

use crate::gpui_video_player::{GpuiVideoPlayer, GpuiVideoPlayerConfig};
use crate::player::Platform;
use crate::session::SessionCommand;
use crate::text::{
    decimal, decimal_digits, decimal_two, same_text, signed_decimal, signed_digits, two_digits,
};
use crate::time::{ClockReading, Duration, Instant};
use vstd::prelude::*;
use vstd::string::StringExecFns;

verus! {

pub const SAMPLE_COUNT: usize = 5;

/// How far an arrow key moves playback.
pub const SEEK_STEP_SECS: u64 = 5;

/// The name of a sample.
pub open spec fn name_of_sample(at: usize) -> Seq<char> {
    if at == 0 {
        "Big Buck Bunny (MP4)"@
    } else if at == 1 {
        "Sintel (MP4)"@
    } else if at == 2 {
        "Elephant's Dream (MP4)"@
    } else if at == 3 {
        "Tears of Steel (MOV)"@
    } else {
        "Sample MKV"@
    }
}

pub fn sample_name(at: usize) -> (name: &'static str)
    requires
        at < SAMPLE_COUNT,
    ensures
        name@ == name_of_sample(at),
{
    if at == 0 {
        "Big Buck Bunny (MP4)"
    } else if at == 1 {
        "Sintel (MP4)"
    } else if at == 2 {
        "Elephant's Dream (MP4)"
    } else if at == 3 {
        "Tears of Steel (MOV)"
    } else {
        "Sample MKV"
    }
}

/// Where a sample is found.
pub open spec fn url_of_sample(at: usize) -> Seq<char> {
    if at == 0 {
        "https://download.blender.org/peach/bigbuckbunny_movies/BigBuckBunny_320x180.mp4"@
    } else if at == 1 {
        "https://commondatastorage.googleapis.com/gtv-videos-bucket/sample/Sintel.mp4"@
    } else if at == 2 {
        "https://archive.org/download/ElephantsDream/ed_hd.mp4"@
    } else if at == 3 {
        "https://download.blender.org/demo/movies/ToS/tears_of_steel_720p.mov"@
    } else {
        "https://www.learningcontainer.com/wp-content/uploads/2020/05/sample-mkv-file.mkv"@
    }
}

pub fn sample_url(at: usize) -> (url: &'static str)
    requires
        at < SAMPLE_COUNT,
    ensures
        url@ == url_of_sample(at),
{
    if at == 0 {
        "https://download.blender.org/peach/bigbuckbunny_movies/BigBuckBunny_320x180.mp4"
    } else if at == 1 {
        "https://commondatastorage.googleapis.com/gtv-videos-bucket/sample/Sintel.mp4"
    } else if at == 2 {
        "https://archive.org/download/ElephantsDream/ed_hd.mp4"
    } else if at == 3 {
        "https://download.blender.org/demo/movies/ToS/tears_of_steel_720p.mov"
    } else {
        "https://www.learningcontainer.com/wp-content/uploads/2020/05/sample-mkv-file.mkv"
    }
}

/// A number of seconds as a clock shows it.
pub open spec fn clock_text(secs: nat) -> Seq<char> {
    let hours = secs / 3600;
    let minutes = (secs % 3600) / 60;
    if hours > 0 {
        decimal_digits(hours) + ":"@ + two_digits(minutes) + ":"@ + two_digits(secs % 60)
    } else {
        decimal_digits(minutes) + ":"@ + two_digits(secs % 60)
    }
}

/// A span in hours, minutes and seconds; without hours where there are none.
pub fn format_time(span: Duration) -> (text: String)
    ensures
        text@ == clock_text(span.secs_u64() as nat),
{
    let secs: u64 = span.secs_u64();
    let hours: u64 = secs / 3600;
    let minutes: u64 = (secs % 3600) / 60;
    let mut text: String;
    if hours > 0 {
        text = decimal(hours);
        text.append(":");
        text.append(decimal_two(minutes).as_str());
    } else {
        text = decimal(minutes);
    }
    text.append(":");
    text.append(decimal_two(secs % 60).as_str());
    text
}

/// A key that the program knows.
#[derive(Debug, Clone, Copy, PartialEq, Eq, Structural)]
pub enum DemoKey {
    Left,
    Right,
    Up,
    Down,
    Enter,
    Space,
    Mute,
    Other,
}

/// The key that a name stands for.
pub open spec fn key_named(name: Seq<char>) -> DemoKey {
    if name == "left"@ {
        DemoKey::Left
    } else if name == "right"@ {
        DemoKey::Right
    } else if name == "up"@ {
        DemoKey::Up
    } else if name == "down"@ {
        DemoKey::Down
    } else if name == "enter"@ || name == "return"@ {
        DemoKey::Enter
    } else if name == "space"@ {
        DemoKey::Space
    } else if name == "m"@ {
        DemoKey::Mute
    } else {
        DemoKey::Other
    }
}

pub fn demo_key(name: &str) -> (key: DemoKey)
    ensures
        key == key_named(name@),
{
    if same_text(name, "left") {
        DemoKey::Left
    } else if same_text(name, "right") {
        DemoKey::Right
    } else if same_text(name, "up") {
        DemoKey::Up
    } else if same_text(name, "down") {
        DemoKey::Down
    } else if same_text(name, "enter") || same_text(name, "return") {
        DemoKey::Enter
    } else if same_text(name, "space") {
        DemoKey::Space
    } else if same_text(name, "m") {
        DemoKey::Mute
    } else {
        DemoKey::Other
    }
}

/// What a key asks for besides what it changes.
#[derive(Debug)]
pub struct DemoStep {
    /// The screen is to be drawn again.
    pub notify: bool,
    /// What is to go to the session.
    pub order: Option<SessionCommand>,
    /// The frame shown before is shown again.
    pub restore: bool,
}

impl DemoStep {
    /// Nothing goes to the session.
    #[verifier::allow_in_spec]
    pub fn nothing(notify: bool) -> DemoStep
        returns
            (DemoStep { notify, order: None::<SessionCommand>, restore: false }),
    {
        DemoStep { notify, order: None, restore: false }
    }
}

/// What fills the place of the picture.
#[derive(Debug, Clone, Copy, PartialEq, Eq, Structural)]
pub enum Picture {
    Surface,
    Error,
    Loading,
    /// No video is loaded.
    Empty,
}

/// What is drawn, in words.
#[derive(Debug, PartialEq, Eq)]
pub struct DemoView {
    pub sample_name: String,
    pub sample_url: String,
    pub picture: Picture,
    pub show_controls: bool,
    pub play_icon: String,
    pub mute_icon: String,
    pub position: String,
    pub duration: String,
    pub state: String,
    pub resolution: String,
    /// The percentage that is shown over the picture.
    pub buffering: Option<String>,
    pub status: String,
}

/// The program: a player, once a video was loaded, and the sample that is chosen.
pub struct DemoApp {
    pub player: Option<GpuiVideoPlayer>,
    pub selected_sample: usize,
    pub status: String,
}

/// How the program sets its players up.
pub open spec fn demo_config() -> GpuiVideoPlayerConfig {
    GpuiVideoPlayerConfig {
        autoplay: true,
        show_controls: true,
        looping: false,
        ..GpuiVideoPlayerConfig::standard()
    }
}

impl DemoApp {
    pub open spec fn wf(self) -> bool {
        &&& self.selected_sample < SAMPLE_COUNT
        &&& self.player matches Some(player) ==> player.wf()
    }

    /// True of a program that has just loaded a video.
    pub open spec fn has_loaded(self, url: Seq<char>, platform: Platform) -> bool {
        &&& self.player matches Some(player) && player.is_fresh(url, demo_config(), platform)
        &&& self.status@ == "Loading: "@ + url + "..."@
    }

    /// The program at its start. A video that was named beforehand is loaded at
    /// once.
    pub fn new(test_url: Option<String>, platform: Platform) -> (app: Self)
        ensures
            app.wf(),
            app.selected_sample == 0,
            match test_url {
                Some(url) => app.has_loaded(url@, platform),
                None => {
                    &&& app.player is None
                    &&& app.status@ == "Select a sample and press Load, or press Enter"@
                },
            },
    {
        let mut app: DemoApp = DemoApp {
            player: None,
            selected_sample: 0,
            status: "Select a sample and press Load, or press Enter".to_owned(),
        };
        match test_url {
            Some(url) => {
                app.load_video(url.as_str(), platform);
            },
            None => {},
        }
        app
    }

    pub fn load_video(&mut self, url: &str, platform: Platform)
        requires
            old(self).wf(),
        ensures
            final(self).wf(),
            final(self).has_loaded(url@, platform),
            final(self).selected_sample == old(self).selected_sample,
    {
        let mut status: String = "Loading: ".to_owned();
        status.append(url);
        status.append("...");
        self.status = status;
        let player = GpuiVideoPlayer::new(url, platform).with_autoplay(true).with_controls(
            true,
        ).with_looping(false);
        self.player = Some(player);
    }

    /// Chooses a sample of the list.
    pub fn select_sample(&mut self, at: usize)
        requires
            old(self).wf(),
            at < SAMPLE_COUNT,
        ensures
            *final(self) == (DemoApp { selected_sample: at, ..*old(self) }),
    {
        self.selected_sample = at;
    }

    /// Chooses the sample before. True where there is one.
    pub fn previous_sample(&mut self) -> (moved: bool)
        requires
            old(self).wf(),
        ensures
            final(self).wf(),
            moved == (old(self).selected_sample > 0),
            *final(self) == (DemoApp {
                selected_sample: if moved {
                    (old(self).selected_sample - 1) as usize
                } else {
                    old(self).selected_sample
                },
                ..*old(self)
            }),
    {
        if self.selected_sample > 0 {
            self.selected_sample = self.selected_sample - 1;
            true
        } else {
            false
        }
    }

    /// Chooses the next sample. True where there is one.
    pub fn next_sample(&mut self) -> (moved: bool)
        requires
            old(self).wf(),
        ensures
            final(self).wf(),
            moved == (old(self).selected_sample + 1 < SAMPLE_COUNT),
            *final(self) == (DemoApp {
                selected_sample: if moved {
                    (old(self).selected_sample + 1) as usize
                } else {
                    old(self).selected_sample
                },
                ..*old(self)
            }),
    {
        if self.selected_sample + 1 < SAMPLE_COUNT {
            self.selected_sample = self.selected_sample + 1;
            true
        } else {
            false
        }
    }

    /// Loads the sample that is chosen.
    pub fn load_selected(&mut self, platform: Platform)
        requires
            old(self).wf(),
        ensures
            final(self).wf(),
            final(self).has_loaded(url_of_sample(old(self).selected_sample), platform),
            final(self).selected_sample == old(self).selected_sample,
    {
        let url: &str = sample_url(self.selected_sample);
        self.load_video(url, platform);
    }

    /// Where an arrow key takes playback.
    pub open spec fn seek_target(player: GpuiVideoPlayer, forward: bool) -> Duration {
        let step = Duration::from_secs(SEEK_STEP_SECS);
        if forward {
            let target = player.playback.position.saturating_add(step);
            match player.playback.duration {
                Some(duration) => target.shorter(duration),
                None => target,
            }
        } else {
            player.playback.position.saturating_sub(step)
        }
    }

    /// The program before and after an arrow key went back or forward.
    pub open spec fn sought(self, after: DemoApp, step: DemoStep, forward: bool, unix_us: u64) -> bool {
        match self.player {
            Some(player) => {
                &&& step.notify
                &&& after.player is Some
                &&& player.sought(
                    after.player->0,
                    (step.order, step.restore),
                    Self::seek_target(player, forward),
                    unix_us,
                )
                &&& after.status@ == (if forward {
                    "Seek → "@
                } else {
                    "Seek ← "@
                }) + decimal_digits(player.playback.position.secs_u64() as nat) + "s"@
                &&& after.selected_sample == self.selected_sample
            },
            None => step == DemoStep::nothing(false) && after == self,
        }
    }

    /// The program before and after it was told to play or to pause.
    pub open spec fn toggled(self, after: DemoApp, step: DemoStep, now: Instant) -> bool {
        match self.player {
            Some(player) => {
                &&& step.notify && !step.restore
                &&& after.player is Some
                &&& player.toggled(after.player->0, step.order, now)
                &&& after == (DemoApp { player: after.player, ..self })
            },
            None => step == DemoStep::nothing(false) && after == self,
        }
    }

    /// The program before and after the mute switch was pressed.
    pub open spec fn mute_toggled(self, after: DemoApp, step: DemoStep) -> bool {
        match self.player {
            Some(player) => {
                &&& step == DemoStep::nothing(true)
                &&& after.player is Some
                &&& player.muted_to(after.player->0, !player.config.muted)
                &&& after == (DemoApp { player: after.player, ..self })
            },
            None => step == DemoStep::nothing(false) && after == self,
        }
    }

    fn seek_step(&mut self, forward: bool, unix_us: u64) -> (step: DemoStep)
        requires
            old(self).wf(),
        ensures
            final(self).wf(),
            old(self).sought(*final(self), step, forward, unix_us),
    {
        match self.player.take() {
            Some(player_before) => {
                let mut player = player_before;
                let span: Duration = Duration::from_secs(SEEK_STEP_SECS);
                let target: Duration = if forward {
                    let target: Duration = player.position().saturating_add(span);
                    match player.duration() {
                        Some(duration) => target.shorter(duration),
                        None => target,
                    }
                } else {
                    player.position().saturating_sub(span)
                };
                let (order, restore) = player.seek(target, unix_us);
                let mut status: String = if forward {
                    "Seek → ".to_owned()
                } else {
                    "Seek ← ".to_owned()
                };
                status.append(decimal(player.position().secs_u64()).as_str());
                status.append("s");
                self.status = status;
                self.player = Some(player);
                DemoStep { notify: true, order, restore }
            },
            None => DemoStep::nothing(false),
        }
    }

    /// Plays or pauses: the space bar, the button, and a click on the picture.
    pub fn toggle_playback(&mut self, now: Instant) -> (step: DemoStep)
        requires
            old(self).wf(),
        ensures
            final(self).wf(),
            old(self).toggled(*final(self), step, now),
    {
        match self.player.take() {
            Some(player_before) => {
                let mut player = player_before;
                let order: Option<SessionCommand> = player.toggle_playback(now);
                self.player = Some(player);
                DemoStep { notify: true, order, restore: false }
            },
            None => DemoStep::nothing(false),
        }
    }

    pub fn toggle_mute(&mut self) -> (step: DemoStep)
        requires
            old(self).wf(),
        ensures
            final(self).wf(),
            old(self).mute_toggled(*final(self), step),
    {
        match self.player.take() {
            Some(player_before) => {
                let mut player = player_before;
                player.toggle_mute();
                self.player = Some(player);
                DemoStep::nothing(true)
            },
            None => DemoStep::nothing(false),
        }
    }

    /// The program before and after a key was pressed.
    pub open spec fn pressed(
        self,
        after: DemoApp,
        step: DemoStep,
        key: DemoKey,
        platform: Platform,
        clock: ClockReading,
    ) -> bool {
        let at = self.selected_sample;
        match key {
            DemoKey::Left => self.sought(after, step, false, clock.unix_us),
            DemoKey::Right => self.sought(after, step, true, clock.unix_us),
            DemoKey::Up => {
                &&& step == DemoStep::nothing(at > 0)
                &&& after == (DemoApp {
                    selected_sample: if at > 0 {
                        (at - 1) as usize
                    } else {
                        at
                    },
                    ..self
                })
            },
            DemoKey::Down => {
                &&& step == DemoStep::nothing(at + 1 < SAMPLE_COUNT)
                &&& after == (DemoApp {
                    selected_sample: if at + 1 < SAMPLE_COUNT {
                        (at + 1) as usize
                    } else {
                        at
                    },
                    ..self
                })
            },
            DemoKey::Enter => {
                &&& step == DemoStep::nothing(true)
                &&& after.has_loaded(url_of_sample(at), platform)
                &&& after.selected_sample == at
            },
            DemoKey::Space => self.toggled(after, step, clock.now),
            DemoKey::Mute => self.mute_toggled(after, step),
            DemoKey::Other => step == DemoStep::nothing(false) && after == self,
        }
    }

    /// Does what a key asks for.
    pub fn press(&mut self, key: DemoKey, platform: Platform, clock: ClockReading) -> (step: DemoStep)
        requires
            old(self).wf(),
        ensures
            final(self).wf(),
            old(self).pressed(*final(self), step, key, platform, clock),
    {
        match key {
            DemoKey::Left => self.seek_step(false, clock.unix_us),
            DemoKey::Right => self.seek_step(true, clock.unix_us),
            DemoKey::Up => {
                let notify: bool = self.previous_sample();
                DemoStep::nothing(notify)
            },
            DemoKey::Down => {
                let notify: bool = self.next_sample();
                DemoStep::nothing(notify)
            },
            DemoKey::Enter => {
                self.load_selected(platform);
                DemoStep::nothing(true)
            },
            DemoKey::Space => self.toggle_playback(clock.now),
            DemoKey::Mute => self.toggle_mute(),
            DemoKey::Other => DemoStep::nothing(false),
        }
    }

    /// The sign on the play button.
    pub open spec fn icon_of_state(player: Option<GpuiVideoPlayer>) -> Seq<char> {
        match player {
            Some(player) => if player.state is Ended {
                "↺"@
            } else if player.state is Playing {
                "⏸"@
            } else {
                "▶"@
            },
            None => "▶"@,
        }
    }

    /// What the list of facts says of the state.
    pub open spec fn words_of_state(player: Option<GpuiVideoPlayer>) -> Seq<char> {
        match player {
            Some(player) => if player.state is Playing {
                "▶ Playing"@
            } else if player.state is Ended {
                "⏹ Ended"@
            } else if player.state is Error {
                "✕ Error"@
            } else if player.playback.initialized {
                "⏸ Ready"@
            } else {
                "⏳ Loading..."@
            },
            None => "No video"@,
        }
    }

    /// What fills the place of the picture.
    pub open spec fn picture_of(player: Option<GpuiVideoPlayer>) -> Picture {
        match player {
            Some(player) => if player.playback.initialized {
                Picture::Surface
            } else if player.state is Error {
                Picture::Error
            } else {
                Picture::Loading
            },
            None => Picture::Empty,
        }
    }

    /// The size of the picture in words.
    pub open spec fn resolution_of(player: Option<GpuiVideoPlayer>) -> Seq<char> {
        match player {
            Some(player) => match player.metadata {
                Some(metadata) => decimal_digits(metadata.width as nat) + "×"@ + decimal_digits(
                    metadata.height as nat,
                ),
                None => "—"@,
            },
            None => "—"@,
        }
    }

    /// True of what is drawn of a program.
    pub open spec fn is_drawn(self, view: DemoView) -> bool {
        &&& view.sample_name@ == name_of_sample(self.selected_sample)
        &&& view.sample_url@ == url_of_sample(self.selected_sample)
        &&& view.picture == Self::picture_of(self.player)
        &&& view.show_controls == (self.player is Some && self.player->0.playback.initialized)
        &&& view.play_icon@ == Self::icon_of_state(self.player)
        &&& view.mute_icon@ == (if self.player is Some && self.player->0.config.muted {
            "🔇"@
        } else {
            "🔊"@
        })
        &&& view.position@ == clock_text(
            match self.player {
                Some(player) => player.playback.position.secs_u64() as nat,
                None => 0,
            },
        )
        &&& view.duration@ == (match self.player {
            Some(player) => match player.playback.duration {
                Some(duration) => clock_text(duration.secs_u64() as nat),
                None => "live"@,
            },
            None => "live"@,
        })
        &&& view.state@ == Self::words_of_state(self.player)
        &&& view.resolution@ == Self::resolution_of(self.player)
        &&& match self.player {
            Some(player) if player.state is Playing && player.playback.buffering_percent < 100 => {
                &&& view.buffering is Some
                &&& view.buffering->0@ == signed_digits(player.playback.buffering_percent as int)
                    + "%"@
            },
            _ => view.buffering is None,
        }
        &&& view.status@ == self.status@
    }

    fn picture(&self) -> (picture: Picture)
        ensures
            picture == Self::picture_of(self.player),
    {
        match &self.player {
            Some(player) => if player.is_ready() {
                Picture::Surface
            } else if player.is_error() {
                Picture::Error
            } else {
                Picture::Loading
            },
            None => Picture::Empty,
        }
    }

    fn play_icon(&self) -> (icon: &'static str)
        ensures
            icon@ == Self::icon_of_state(self.player),
    {
        match &self.player {
            Some(player) => if player.is_ended() {
                "↺"
            } else if player.is_playing() {
                "⏸"
            } else {
                "▶"
            },
            None => "▶",
        }
    }

    fn state_text(&self) -> (text: &'static str)
        ensures
            text@ == Self::words_of_state(self.player),
    {
        match &self.player {
            Some(player) => if player.is_playing() {
                "▶ Playing"
            } else if player.is_ended() {
                "⏹ Ended"
            } else if player.is_error() {
                "✕ Error"
            } else if player.is_ready() {
                "⏸ Ready"
            } else {
                "⏳ Loading..."
            },
            None => "No video",
        }
    }

    fn resolution(&self) -> (text: String)
        ensures
            text@ == Self::resolution_of(self.player),
    {
        match &self.player {
            Some(player) => match player.metadata() {
                Some(metadata) => {
                    let mut text: String = decimal(metadata.width as u64);
                    text.append("×");
                    text.append(decimal(metadata.height as u64).as_str());
                    text
                },
                None => "—".to_owned(),
            },
            None => "—".to_owned(),
        }
    }

    /// What is drawn of the program, but for the frame rate and the seek bar.
    pub fn render(&self) -> (view: DemoView)
        requires
            self.wf(),
        ensures
            self.is_drawn(view),
    {
        let show_controls: bool = match &self.player {
            Some(player) => player.is_ready(),
            None => false,
        };
        let muted: bool = match &self.player {
            Some(player) => player.is_muted(),
            None => false,
        };
        let position: String = match &self.player {
            Some(player) => format_time(player.position()),
            None => format_time(Duration::zero()),
        };
        proof {
            assert(Duration::zero().as_secs() == 0);
            assert(0u128 as u64 == 0u64);
        }
        let duration: String = match &self.player {
            Some(player) => match player.duration() {
                Some(duration) => format_time(duration),
                None => "live".to_owned(),
            },
            None => "live".to_owned(),
        };
        let buffering: Option<String> = match &self.player {
            Some(player) => {
                let percent: i32 = player.buffering_percent();
                if player.is_playing() && percent < 100 {
                    let mut text: String = signed_decimal(percent);
                    text.append("%");
                    Some(text)
                } else {
                    None
                }
            },
            None => None,
        };
        DemoView {
            sample_name: sample_name(self.selected_sample).to_owned(),
            sample_url: sample_url(self.selected_sample).to_owned(),
            picture: self.picture(),
            show_controls,
            play_icon: self.play_icon().to_owned(),
            mute_icon: (if muted {
                "🔇"
            } else {
                "🔊"
            }).to_owned(),
            position,
            duration,
            state: self.state_text().to_owned(),
            resolution: self.resolution(),
            buffering,
            status: self.status.clone(),
        }
    }
}

/// The controls are drawn exactly where the picture is.
pub proof fn law_controls_come_with_the_picture(app: DemoApp, view: DemoView)
    requires
        app.is_drawn(view),
    ensures
        view.show_controls == (view.picture == Picture::Surface),
{
}

/// A seek by an arrow key stays inside the stream where its length is known.
pub proof fn law_arrow_keys_stay_inside(player: GpuiVideoPlayer, forward: bool)
    requires
        player.playback.duration matches Some(duration) && player.playback.position.nanos
            <= duration.nanos,
    ensures
        DemoApp::seek_target(player, forward).nanos <= player.playback.duration->0.nanos,
{
}

/// A clock shows hours, minutes and seconds, the hours only where there are any.
pub proof fn law_clock_shows_hours_minutes_seconds(hours: nat, minutes: nat, seconds: nat)
    requires
        minutes < 60,
        seconds < 60,
    ensures
        hours > 0 ==> clock_text(hours * 3600 + minutes * 60 + seconds) == decimal_digits(hours)
            + ":"@ + two_digits(minutes) + ":"@ + two_digits(seconds),
        clock_text(minutes * 60 + seconds) == decimal_digits(minutes) + ":"@ + two_digits(seconds),
{
}

/// The arrow keys go five seconds back or forward, not before the beginning and not past the
/// end.
pub proof fn law_arrow_keys_go_five_seconds(player: GpuiVideoPlayer)
    requires
        player.playback.position.nanos + 5_000_000_000 <= u128::MAX,
    ensures
        ({
            let here = player.playback.position.nanos;
            let ahead = DemoApp::seek_target(player, true).nanos;
            let back = DemoApp::seek_target(player, false).nanos;
            &&& here >= 5_000_000_000 ==> back == here - 5_000_000_000
            &&& here < 5_000_000_000 ==> back == 0
            &&& player.playback.duration is None ==> ahead == here + 5_000_000_000
            &&& player.playback.duration matches Some(end) ==> ahead == (if here + 5_000_000_000
                <= end.nanos {
                here + 5_000_000_000
            } else {
                end.nanos as int
            })
        }),
{
}

/// Each key does what it is for: up and down move the choice by one and stop at the ends of
/// the list, enter loads what is chosen and leaves the choice, and any other key does
/// nothing.
pub proof fn law_keys_move_the_choice(
    app: DemoApp,
    after: DemoApp,
    step: DemoStep,
    key: DemoKey,
    platform: Platform,
    clock: ClockReading,
)
    requires
        app.wf(),
        app.pressed(after, step, key, platform, clock),
    ensures
        key is Up ==> after.selected_sample == (if app.selected_sample == 0 {
            0int
        } else {
            app.selected_sample - 1
        }) && after.player == app.player,
        key is Down ==> after.selected_sample == (if app.selected_sample == SAMPLE_COUNT - 1 {
            SAMPLE_COUNT - 1
        } else {
            app.selected_sample + 1
        }) && after.player == app.player,
        !(key is Up) && !(key is Down) ==> after.selected_sample == app.selected_sample,
        key is Enter ==> after.player is Some && after.player->0.url@ == url_of_sample(
            app.selected_sample,
        ) && after.player->0.config.autoplay && !after.player->0.config.looping
            && after.player->0.config.show_controls,
        key is Mute && app.player is Some ==> after.player is Some && after.player->0.config.muted
            == !app.player->0.config.muted && after.player->0.config.volume
            == app.player->0.config.volume,
        key is Other ==> after == app && !step.notify,
        app.player is None && (key is Left || key is Right || key is Space || key is Mute)
            ==> after == app && !step.notify,
        key is Left && app.player is Some && app.player->0.core is None
            && app.player->0.presentation.has_session ==> step.order == Some(
            SessionCommand::Seek { position: DemoApp::seek_target(app.player->0, false) },
        ),
        key is Right && app.player is Some && app.player->0.core is None
            && app.player->0.presentation.has_session ==> step.order == Some(
            SessionCommand::Seek { position: DemoApp::seek_target(app.player->0, true) },
        ),
{
}

/// What is drawn is what the player has: the picture once it is ready, its position and its
/// duration as a clock shows them, and how much is buffered while it plays on less than all.
pub proof fn law_view_shows_the_player(app: DemoApp, view: DemoView, player: GpuiVideoPlayer)
    requires
        app.is_drawn(view),
        app.player == Some(player),
    ensures
        view.picture == Picture::Surface <==> player.playback.initialized,
        view.picture == Picture::Error <==> !player.playback.initialized && player.state is Error,
        view.picture == Picture::Loading <==> !player.playback.initialized && !(player.state
            is Error),
        player.state is Playing ==> view.play_icon@ == "⏸"@ && view.state@ == "▶ Playing"@,
        player.state is Ended ==> view.play_icon@ == "↺"@ && view.state@ == "⏹ Ended"@,
        player.state is Paused ==> view.play_icon@ == "▶"@,
        player.config.muted ==> view.mute_icon@ == "🔇"@,
        !player.config.muted ==> view.mute_icon@ == "🔊"@,
        view.position@ == clock_text(player.playback.position.secs_u64() as nat),
        player.playback.duration is None ==> view.duration@ == "live"@,
        player.playback.duration matches Some(duration) ==> view.duration@ == clock_text(
            duration.secs_u64() as nat,
        ),
        view.buffering is Some <==> player.state is Playing && player.playback.buffering_percent
            < 100,
        view.status@ == app.status@,
{
}

/// Each key has its name, and enter has two.
pub proof fn law_keys_have_their_names(name: Seq<char>)
    ensures
        key_named("left"@) is Left,
        key_named(name) is Mute ==> name == "m"@,
        key_named(name) is Space ==> name == "space"@,
        key_named(name) is Enter ==> name == "enter"@ || name == "return"@,
        key_named(name) is Down ==> name == "down"@,
        key_named(name) is Up ==> name == "up"@,
        key_named(name) is Right ==> name == "right"@,
        key_named(name) is Left ==> name == "left"@,
        key_named(name) is Other ==> name != "m"@ && name != "space"@ && name != "enter"@ && name
            != "return"@ && name != "up"@ && name != "down"@ && name != "left"@ && name
            != "right"@,
{
}

} // verus!
