//! Playback by the video element of a browser: what is read from the element, and
//! what is done about it.

use crate::decode_loop::Dimensions;
use crate::text::contains;
use crate::time::Duration;
use crate::video::{VideoError, VideoMetadata, VideoState};
use vstd::prelude::*;

verus! {

/// The bits of thirty as a 32-bit float. Browsers do not tell the frame rate.
pub const BROWSER_FRAME_RATE_BITS: u32 = 0x41F0_0000;

/// The bits of one as a 32-bit float.
pub const SQUARE_PIXEL_BITS: u32 = 0x3F80_0000;

/// The readiness from which an element has the data that it plays next.
pub const HAVE_FUTURE_DATA: u16 = 3;

/// The readiness from which an element has the data of its position.
pub const HAVE_CURRENT_DATA: u16 = 2;

/// What a video element says of itself.
#[derive(Debug, PartialEq, Eq)]
pub struct VideoElement {
    pub width: u32,
    pub height: u32,
    pub position: Duration,
    /// None where the element says that it is not a number, or without end.
    pub duration: Option<Duration>,
    pub paused: bool,
    pub ended: bool,
    pub seeking: bool,
    pub muted: bool,
    pub ready_state: u16,
    pub error: Option<String>,
}

/// How a source is handed to the element.
#[derive(Debug, Clone, Copy, PartialEq, Eq, Structural)]
pub enum WebSource {
    /// By its address. The element knows what to do.
    Element,
    /// By the library that feeds HLS to elements that do not know it.
    HlsLibrary,
}

/// True of the address of an HLS stream.
pub open spec fn names_hls(url: Seq<char>) -> bool {
    crate::text::occurs_in(url, ".m3u8"@) || crate::text::occurs_in(
        url,
        "application/vnd.apple.mpegurl"@,
    )
}

pub fn is_hls_url(url: &str) -> (hls: bool)
    ensures
        hls == names_hls(url@),
{
    contains(url, ".m3u8") || contains(url, "application/vnd.apple.mpegurl")
}

/// What a press of the play button does.
#[derive(Debug, Clone, Copy, PartialEq, Eq, Structural)]
pub enum ElementOrder {
    Play,
    Pause,
}

/// What becomes of the frame that the element shows.
#[derive(Debug, Clone, Copy, PartialEq, Eq, Structural)]
pub enum FrameUpload {
    /// The texture is of another size, and is to be made anew.
    Resized,
    /// There is nothing to copy.
    Empty,
    Copy,
}

/// The size of the texture that frames are copied to.
#[derive(Debug, Clone, Copy, PartialEq, Eq, Structural)]
pub struct WebVideoTexture {
    pub width: u32,
    pub height: u32,
}

impl WebVideoTexture {
    pub fn new(width: u32, height: u32) -> (texture: Self)
        ensures
            texture == (WebVideoTexture { width, height }),
    {
        WebVideoTexture { width, height }
    }

    pub fn dimensions(&self) -> (dimensions: Dimensions)
        ensures
            dimensions == (Dimensions { width: self.width, height: self.height }),
    {
        Dimensions { width: self.width, height: self.height }
    }

    /// Decides what becomes of a frame of an element.
    #[verifier::allow_in_spec]
    pub fn upload_frame(&self, width: u32, height: u32) -> FrameUpload
        returns
            (if width != self.width || height != self.height {
                FrameUpload::Resized
            } else if width == 0 || height == 0 {
                FrameUpload::Empty
            } else {
                FrameUpload::Copy
            }),
    {
        if width != self.width || height != self.height {
            FrameUpload::Resized
        } else if width == 0 || height == 0 {
            FrameUpload::Empty
        } else {
            FrameUpload::Copy
        }
    }
}

/// What is done to the texture for one refresh of the screen.
#[derive(Debug, Clone, Copy, PartialEq, Eq, Structural)]
pub struct TextureStep {
    /// A texture of the size of the element is made in place of the old one.
    pub renew: bool,
    /// The frame of the element is copied to the texture.
    pub copy: bool,
    /// There is a texture to show.
    pub shown: bool,
}

/// A player that leaves the work to the video element of a browser.
#[derive(Debug, PartialEq)]
pub struct WebVideoPlayer {
    pub state: VideoState,
    pub metadata: Option<VideoMetadata>,
    pub is_hls: bool,
    /// The stream comes through the HLS library.
    pub has_hls_handle: bool,
    /// The element has a frame that was not copied.
    pub frame_ready: bool,
}

/// The state that an element is in.
pub open spec fn element_state(element: VideoElement) -> VideoState {
    match element.error {
        Some(error) => VideoState::Error(VideoError::Generic(error)),
        None => if element.ended {
            VideoState::Ended
        } else if element.paused {
            VideoState::Paused { position: element.position }
        } else if element.ready_state < HAVE_FUTURE_DATA {
            VideoState::Buffering { position: element.position }
        } else {
            VideoState::Playing { position: element.position }
        },
    }
}

/// True of what is known of an element that knows its size.
pub open spec fn describes(metadata: VideoMetadata, element: VideoElement) -> bool {
    &&& metadata.width == element.width
    &&& metadata.height == element.height
    &&& metadata.duration == element.duration
    &&& metadata.frame_rate_bits == BROWSER_FRAME_RATE_BITS
    &&& metadata.codec@ == "browser-native"@
    &&& metadata.pixel_aspect_ratio_bits == SQUARE_PIXEL_BITS
    &&& metadata.start_time is None
}

impl WebVideoPlayer {
    /// A player for a URL, before the source is handed over.
    pub fn new(url: &str) -> (player: Self)
        ensures
            player.state is Loading,
            player.metadata is None,
            player.is_hls == names_hls(url@),
            !player.has_hls_handle,
            !player.frame_ready,
    {
        WebVideoPlayer {
            state: VideoState::Loading,
            metadata: None,
            is_hls: is_hls_url(url),
            has_hls_handle: false,
            frame_ready: false,
        }
    }

    /// Decides how the source is handed over. `native_hls` says whether the element
    /// can play HLS by itself.
    pub fn load_source(&mut self, native_hls: bool) -> (source: WebSource)
        ensures
            source == (if old(self).is_hls && !native_hls {
                WebSource::HlsLibrary
            } else {
                WebSource::Element
            }),
            *final(self) == (WebVideoPlayer {
                has_hls_handle: old(self).has_hls_handle || source == WebSource::HlsLibrary,
                ..*old(self)
            }),
    {
        if self.is_hls && !native_hls {
            self.has_hls_handle = true;
            WebSource::HlsLibrary
        } else {
            WebSource::Element
        }
    }

    /// The element has shown a new frame.
    pub fn frame_arrived(&mut self)
        ensures
            *final(self) == (WebVideoPlayer { frame_ready: true, ..*old(self) }),
    {
        self.frame_ready = true;
    }

    pub fn is_frame_ready(&self) -> (ready: bool)
        ensures
            ready == self.frame_ready,
    {
        self.frame_ready
    }

    /// The frame was copied.
    pub fn clear_frame_ready(&mut self)
        ensures
            *final(self) == (WebVideoPlayer { frame_ready: false, ..*old(self) }),
    {
        self.frame_ready = false;
    }

    pub fn position(&self, element: &VideoElement) -> (position: Duration)
        ensures
            position == element.position,
    {
        element.position
    }

    pub fn duration(&self, element: &VideoElement) -> (duration: Option<Duration>)
        ensures
            duration == element.duration,
    {
        element.duration
    }

    pub fn dimensions(&self, element: &VideoElement) -> (dimensions: Dimensions)
        ensures
            dimensions == (Dimensions { width: element.width, height: element.height }),
    {
        Dimensions { width: element.width, height: element.height }
    }

    #[verifier::allow_in_spec]
    pub fn is_playing(&self, element: &VideoElement) -> bool
        returns
            !element.paused && !element.ended,
    {
        !element.paused && !element.ended
    }

    pub fn is_ended(&self, element: &VideoElement) -> (ended: bool)
        ensures
            ended == element.ended,
    {
        element.ended
    }

    pub fn is_muted(&self, element: &VideoElement) -> (muted: bool)
        ensures
            muted == element.muted,
    {
        element.muted
    }

    /// Whether the element is muted from now on.
    pub fn toggle_mute(&self, element: &VideoElement) -> (muted: bool)
        ensures
            muted == !element.muted,
    {
        !element.muted
    }

    pub fn toggle_playback(&self, element: &VideoElement) -> (order: ElementOrder)
        ensures
            order == (if self.is_playing(element) {
                ElementOrder::Pause
            } else {
                ElementOrder::Play
            }),
    {
        if self.is_playing(element) {
            ElementOrder::Pause
        } else {
            ElementOrder::Play
        }
    }

    pub fn metadata(&self) -> (metadata: Option<&VideoMetadata>)
        ensures
            metadata == (match self.metadata {
                Some(metadata) => Some(&metadata),
                None => None,
            }),
    {
        self.metadata.as_ref()
    }

    /// Takes over what the element says of the stream, once it knows its size.
    pub fn update_metadata(&mut self, element: &VideoElement)
        ensures
            if element.width > 0 && element.height > 0 {
                &&& final(self).metadata is Some
                &&& describes(final(self).metadata->0, *element)
                &&& *final(self) == (WebVideoPlayer {
                    metadata: final(self).metadata,
                    ..*old(self)
                })
            } else {
                *final(self) == *old(self)
            },
    {
        if element.width > 0 && element.height > 0 {
            self.metadata = Some(
                VideoMetadata {
                    width: element.width,
                    height: element.height,
                    duration: element.duration,
                    frame_rate_bits: BROWSER_FRAME_RATE_BITS,
                    codec: "browser-native".to_owned(),
                    pixel_aspect_ratio_bits: SQUARE_PIXEL_BITS,
                    start_time: None,
                },
            );
        }
    }

    pub fn state(&self) -> (state: &VideoState)
        ensures
            *state == self.state,
    {
        &self.state
    }

    pub fn update_state(&mut self, element: &VideoElement)
        ensures
            *final(self) == (WebVideoPlayer { state: element_state(*element), ..*old(self) }),
    {
        self.state = match &element.error {
            Some(error) => VideoState::Error(VideoError::Generic(error.clone())),
            None => if element.ended {
                VideoState::Ended
            } else if element.paused {
                VideoState::Paused { position: element.position }
            } else if element.ready_state < HAVE_FUTURE_DATA {
                VideoState::Buffering { position: element.position }
            } else {
                VideoState::Playing { position: element.position }
            },
        };
    }

    /// Decides what is done to the texture. One of another size than the element is
    /// made anew; a frame is copied where there is one.
    pub fn update_texture(
        &mut self,
        element: &VideoElement,
        texture: &mut Option<WebVideoTexture>,
    ) -> (step: TextureStep)
        ensures
            ({
                let wanted = WebVideoTexture { width: element.width, height: element.height };
                if element.width == 0 || element.height == 0 {
                    &&& step == (TextureStep { renew: false, copy: false, shown: false })
                    &&& *final(self) == *old(self)
                    &&& *final(texture) == *old(texture)
                } else {
                    &&& step == (TextureStep {
                        renew: *old(texture) != Some(wanted),
                        copy: old(self).frame_ready,
                        shown: true,
                    })
                    &&& *final(texture) == Some(wanted)
                    &&& *final(self) == (WebVideoPlayer { frame_ready: false, ..*old(self) })
                }
            }),
    {
        if element.width == 0 || element.height == 0 {
            return TextureStep { renew: false, copy: false, shown: false };
        }
        let fits: bool = match texture {
            Some(current) => current.width == element.width && current.height == element.height,
            None => false,
        };
        let wanted: WebVideoTexture = WebVideoTexture::new(element.width, element.height);
        *texture = Some(wanted);
        let copy: bool = self.frame_ready && wanted.upload_frame(element.width, element.height)
            == FrameUpload::Copy;
        if copy {
            self.clear_frame_ready();
        }
        TextureStep { renew: !fits, copy, shown: true }
    }

    /// The qualities of the stream; none where it does not come through the HLS
    /// library, or where that gave no list.
    pub fn hls_quality_levels(&self, levels: &Option<Vec<Option<RawHlsLevel>>>) -> (list: Vec<
        HlsQualityLevel,
    >)
        ensures
            match levels {
                Some(levels) if self.has_hls_handle => are_levels(
                    list@,
                    levels@,
                    levels@.len() as int,
                ),
                _ => list@.len() == 0,
            },
    {
        match levels {
            Some(levels) => if self.has_hls_handle {
                parse_hls_levels(levels)
            } else {
                Vec::new()
            },
            None => Vec::new(),
        }
    }

    /// The buffer of the HLS library; none where the stream does not come through
    /// it, or where it said nothing.
    pub fn hls_buffer_info(&self, info: &Option<RawHlsBuffer>) -> (parsed: Option<HlsBufferInfo>)
        ensures
            parsed == (match info {
                Some(info) if self.has_hls_handle => Some(parse_hls_buffer_info(info)),
                _ => None,
            }),
    {
        match info {
            Some(info) => if self.has_hls_handle {
                Some(parse_hls_buffer_info(info))
            } else {
                None
            },
            None => None,
        }
    }

    /// The order to the HLS library for another quality; minus one lets it choose.
    pub fn set_hls_quality_level(&self, level: i32) -> (order: Option<i32>)
        ensures
            order == (if self.has_hls_handle {
                Some(level)
            } else {
                None::<i32>
            }),
    {
        if self.has_hls_handle {
            Some(level)
        } else {
            None
        }
    }
}

/// One quality of a stream.
#[derive(Debug, PartialEq, Eq)]
pub struct HlsQualityLevel {
    pub index: i32,
    /// Bits per second.
    pub bitrate: u32,
    pub width: u32,
    pub height: u32,
    pub codec: String,
}

/// What the HLS library says of one quality; nothing of a field that is missing or
/// of another kind.
#[derive(Debug, PartialEq, Eq)]
pub struct RawHlsLevel {
    pub index: Option<i32>,
    pub bitrate: Option<u32>,
    pub width: Option<u32>,
    pub height: Option<u32>,
    pub codec: Option<String>,
}

/// The buffer of the HLS library.
#[derive(Debug, Clone, Copy, PartialEq, Eq, Structural)]
pub struct HlsBufferInfo {
    /// The bits of the length in seconds, a 64-bit float.
    pub buffer_length_bits: u64,
    /// Bits per second.
    pub bandwidth: u32,
    pub current_level: i32,
}

/// What the HLS library says of its buffer.
#[derive(Debug, Clone, Copy, PartialEq, Eq, Structural)]
pub struct RawHlsBuffer {
    pub buffer_length_bits: Option<u64>,
    pub bandwidth: Option<u32>,
    pub current_level: Option<i32>,
}

/// A field, or what stands for it where it is missing.
pub open spec fn field<T>(value: Option<T>, missing: T) -> T {
    match value {
        Some(value) => value,
        None => missing,
    }
}

/// True of the quality that stands at a place of the list. A quality without a
/// number has that of its place.
pub open spec fn is_level(level: HlsQualityLevel, raw: RawHlsLevel, at: int) -> bool {
    &&& level.index == field(raw.index, #[verifier::truncate] ((at as u32) as i32))
    &&& level.bitrate == field(raw.bitrate, 0)
    &&& level.width == field(raw.width, 0)
    &&& level.height == field(raw.height, 0)
    &&& level.codec@ == (match raw.codec {
        Some(codec) => codec@,
        None => "unknown"@,
    })
}

/// The places of a list that hold a quality, up to a place.
pub open spec fn filled_places(raw: Seq<Option<RawHlsLevel>>, upto: int) -> Seq<int>
    decreases upto,
{
    if upto <= 0 {
        Seq::empty()
    } else if raw[upto - 1] is Some {
        filled_places(raw, upto - 1).push(upto - 1)
    } else {
        filled_places(raw, upto - 1)
    }
}

/// True where the quality at `k` is the one that stands at the `k`-th place that
/// holds one.
pub open spec fn level_at(
    levels: Seq<HlsQualityLevel>,
    raw: Seq<Option<RawHlsLevel>>,
    places: Seq<int>,
    k: int,
) -> bool {
    raw[places[k]] is Some && is_level(levels[k], raw[places[k]]->0, places[k])
}

/// True of the qualities of a list up to a place, in its order and without its
/// gaps.
pub open spec fn are_levels(
    levels: Seq<HlsQualityLevel>,
    raw: Seq<Option<RawHlsLevel>>,
    upto: int,
) -> bool {
    let places = filled_places(raw, upto);
    &&& levels.len() == places.len()
    &&& forall|k: int| 0 <= k < levels.len() ==> #[trigger] level_at(levels, raw, places, k)
}

fn or_unsigned(value: Option<u32>, missing: u32) -> (chosen: u32)
    ensures
        chosen == field(value, missing),
{
    match value {
        Some(value) => value,
        None => missing,
    }
}

fn or_signed(value: Option<i32>, missing: i32) -> (chosen: i32)
    ensures
        chosen == field(value, missing),
{
    match value {
        Some(value) => value,
        None => missing,
    }
}

fn parse_hls_level(raw: &RawHlsLevel, at: usize) -> (level: HlsQualityLevel)
    ensures
        is_level(level, *raw, at as int),
{
    HlsQualityLevel {
        index: or_signed(
            raw.index,
            #[verifier::truncate]
            ((at as u32) as i32),
        ),
        bitrate: or_unsigned(raw.bitrate, 0),
        width: or_unsigned(raw.width, 0),
        height: or_unsigned(raw.height, 0),
        codec: match &raw.codec {
            Some(codec) => codec.clone(),
            None => "unknown".to_owned(),
        },
    }
}

proof fn lemma_next_place(
    before: Seq<HlsQualityLevel>,
    after: Seq<HlsQualityLevel>,
    raw: Seq<Option<RawHlsLevel>>,
    at: int,
)
    requires
        0 <= at < raw.len(),
        are_levels(before, raw, at),
        match raw[at] {
            Some(item) => {
                &&& after.len() == before.len() + 1
                &&& after.drop_last() =~= before
                &&& is_level(after.last(), item, at)
            },
            None => after == before,
        },
    ensures
        are_levels(after, raw, at + 1),
{
    let places = filled_places(raw, at + 1);
    let places_before = filled_places(raw, at);
    assert forall|k: int| 0 <= k < after.len() implies #[trigger] level_at(after, raw, places, k) by {
        if k < before.len() {
            assert(level_at(before, raw, places_before, k));
            assert(raw[at] is Some ==> after.drop_last()[k] == after[k]);
        }
    }
}

fn parse_hls_levels(raw: &Vec<Option<RawHlsLevel>>) -> (levels: Vec<HlsQualityLevel>)
    ensures
        are_levels(levels@, raw@, raw@.len() as int),
{
    let mut levels: Vec<HlsQualityLevel> = Vec::new();
    let mut at: usize = 0;
    while at < raw.len()
        invariant
            at <= raw@.len(),
            are_levels(levels@, raw@, at as int),
        decreases raw@.len() - at,
    {
        let ghost before = levels@;
        match &raw[at] {
            Some(item) => {
                let level: HlsQualityLevel = parse_hls_level(item, at);
                levels.push(level);
            },
            None => {},
        }
        proof {
            lemma_next_place(before, levels@, raw@, at as int);
        }
        at = at + 1;
    }
    levels
}

/// Fills in what the HLS library left out. No quality is chosen where it named
/// none.
#[verifier::allow_in_spec]
pub fn parse_hls_buffer_info(info: &RawHlsBuffer) -> HlsBufferInfo
    returns
        (HlsBufferInfo {
            buffer_length_bits: field(info.buffer_length_bits, 0),
            bandwidth: field(info.bandwidth, 0),
            current_level: field(info.current_level, (-1) as i32),
        }),
{
    HlsBufferInfo {
        buffer_length_bits: match info.buffer_length_bits {
            Some(bits) => bits,
            None => 0,
        },
        bandwidth: or_unsigned(info.bandwidth, 0),
        current_level: or_signed(info.current_level, -1),
    }
}

/// A player on a screen: the element, and the texture that its frames are shown
/// from.
#[derive(Debug, PartialEq)]
pub struct GpuiWebVideoPlayer {
    pub player: WebVideoPlayer,
    pub upload_texture: Option<WebVideoTexture>,
    /// There is a texture to show.
    pub shown: bool,
}

/// What a refresh of the screen asks for.
#[derive(Debug, Clone, Copy, PartialEq, Eq, Structural)]
pub struct RefreshStep {
    pub texture: TextureStep,
    /// The screen is to be refreshed again.
    pub again: bool,
}

impl GpuiWebVideoPlayer {
    pub fn new(url: &str) -> (player: Self)
        ensures
            player.player.state is Loading,
            player.player.metadata is None,
            player.player.is_hls == names_hls(url@),
            !player.player.has_hls_handle,
            !player.player.frame_ready,
            player.upload_texture is None,
            !player.shown,
    {
        GpuiWebVideoPlayer { player: WebVideoPlayer::new(url), upload_texture: None, shown: false }
    }

    pub fn player(&self) -> (player: &WebVideoPlayer)
        ensures
            *player == self.player,
    {
        &self.player
    }

    /// True while something on the screen may change by itself.
    pub open spec fn moves(element: VideoElement) -> bool {
        ||| element_state(element) is Playing
        ||| element_state(element) is Buffering
        ||| element.seeking
        ||| element.ready_state < HAVE_CURRENT_DATA && element.error is None
    }

    /// Takes over what the element says, and decides what a refresh of the screen
    /// does. `has_device` says whether textures can be made.
    pub fn update(&mut self, element: &VideoElement, has_device: bool) -> (step: RefreshStep)
        ensures
            final(self).player.state == element_state(*element),
            final(self).player.is_hls == old(self).player.is_hls,
            final(self).player.has_hls_handle == old(self).player.has_hls_handle,
            match old(self).player.metadata {
                Some(_) => final(self).player.metadata == old(self).player.metadata,
                None => if element.width > 0 && element.height > 0 {
                    &&& final(self).player.metadata is Some
                    &&& describes(final(self).player.metadata->0, *element)
                } else {
                    final(self).player.metadata is None
                },
            },
            ({
                let wanted = WebVideoTexture { width: element.width, height: element.height };
                let sized = element.width > 0 && element.height > 0;
                if !has_device {
                    &&& step == (RefreshStep {
                        texture: TextureStep { renew: false, copy: false, shown: old(self).shown },
                        again: false,
                    })
                    &&& final(self).upload_texture == old(self).upload_texture
                    &&& final(self).shown == old(self).shown
                    &&& final(self).player.frame_ready == old(self).player.frame_ready
                } else {
                    &&& step == (RefreshStep {
                        texture: TextureStep {
                            renew: sized && old(self).upload_texture != Some(wanted),
                            copy: sized && old(self).player.frame_ready,
                            shown: sized,
                        },
                        again: Self::moves(*element),
                    })
                    &&& final(self).shown == sized
                    &&& final(self).upload_texture == (if sized {
                        Some(wanted)
                    } else {
                        old(self).upload_texture
                    })
                    &&& final(self).player.frame_ready == (old(self).player.frame_ready && !sized)
                }
            }),
    {
        self.player.update_state(element);
        if self.player.metadata.is_none() {
            self.player.update_metadata(element);
        }
        if !has_device {
            return RefreshStep {
                texture: TextureStep { renew: false, copy: false, shown: self.shown },
                again: false,
            };
        }
        let texture: TextureStep = self.player.update_texture(element, &mut self.upload_texture);
        self.shown = texture.shown;
        let plays: bool = match &self.player.state {
            VideoState::Loading => true,
            VideoState::Playing { .. } => true,
            VideoState::Buffering { .. } => true,
            _ => false,
        };
        let again: bool = plays || element.seeking || (element.ready_state < HAVE_CURRENT_DATA
            && element.error.is_none());
        RefreshStep { texture, again }
    }
}

/// An error of the element is shown whatever else the element says.
pub proof fn law_error_outranks_all(element: VideoElement)
    ensures
        element.error is Some ==> element_state(element) == VideoState::Error(
            VideoError::Generic(element.error->0),
        ),
        element.error is None ==> !(element_state(element) is Error),
{
}

/// The qualities of a list come in its order, one for each place that holds one.
pub proof fn law_levels_keep_their_order(raw: Seq<Option<RawHlsLevel>>, upto: int)
    requires
        0 <= upto <= raw.len(),
    ensures
        forall|k: int|
            0 <= k < filled_places(raw, upto).len() ==> 0 <= #[trigger] filled_places(raw, upto)[k]
                < upto,
        forall|j: int, k: int|
            0 <= j < k < filled_places(raw, upto).len() ==> #[trigger] filled_places(raw, upto)[j]
                < #[trigger] filled_places(raw, upto)[k],
        forall|at: int|
            0 <= at < upto && #[trigger] raw[at] is Some ==> filled_places(raw, upto).contains(at),
    decreases upto,
{
    if upto > 0 {
        law_levels_keep_their_order(raw, upto - 1);
        let before = filled_places(raw, upto - 1);
        let places = filled_places(raw, upto);
        assert forall|at: int| 0 <= at < upto && #[trigger] raw[at] is Some implies places.contains(
            at,
        ) by {
            if at < upto - 1 {
                let k = choose|k: int| 0 <= k < before.len() && before[k] == at;
                assert(places[k] == at);
            } else {
                assert(places[places.len() - 1] == at);
            }
        }
    }
}

/// An element without an error has ended where it says so, is paused where it says so, and
/// else plays, or waits for data that it does not have yet; the position is its own.
pub proof fn law_element_plays_what_it_has(element: VideoElement)
    requires
        element.error is None,
    ensures
        element.ended <==> element_state(element) is Ended,
        element_state(element) is Paused <==> !element.ended && element.paused,
        element_state(element) is Playing <==> !element.ended && !element.paused
            && element.ready_state >= 3,
        element_state(element) is Buffering <==> !element.ended && !element.paused
            && element.ready_state < 3,
        element_state(element) matches VideoState::Playing { position } ==> position
            == element.position,
        element_state(element) matches VideoState::Paused { position } ==> position
            == element.position,
        element_state(element) matches VideoState::Buffering { position } ==> position
            == element.position,
{
}

/// The screen is refreshed while playback goes on, while the element seeks, and until it has
/// a frame; not once it has failed, is paused or has ended with a frame to show.
pub proof fn law_refresh_goes_on_while_things_move(element: VideoElement)
    ensures
        element.seeking ==> GpuiWebVideoPlayer::moves(element),
        element.error is None && element.ready_state < 2 ==> GpuiWebVideoPlayer::moves(element),
        element.error is None && !element.ended && !element.paused ==> GpuiWebVideoPlayer::moves(
            element,
        ),
        !element.seeking && element.error is Some ==> !GpuiWebVideoPlayer::moves(element),
        !element.seeking && (element.ended || element.paused) && element.ready_state >= 2
            ==> !GpuiWebVideoPlayer::moves(element),
{
}

/// A frame is copied to a texture of its own size; one of another size is made anew first,
/// and nothing is copied of no size.
pub proof fn law_textures_fit_their_frames(texture: WebVideoTexture, width: u32, height: u32)
    ensures
        texture.upload_frame(width, height) == FrameUpload::Copy <==> width == texture.width
            && height == texture.height && width > 0 && height > 0,
        texture.upload_frame(width, height) == FrameUpload::Resized <==> width != texture.width
            || height != texture.height,
{
}

/// What the HLS library names of its buffer is kept; what it leaves out is nought, and the
/// quality is then chosen by itself.
pub proof fn law_buffer_facts_are_kept(info: RawHlsBuffer)
    ensures
        info.bandwidth matches Some(bandwidth) ==> parse_hls_buffer_info(&info).bandwidth
            == bandwidth,
        info.current_level matches Some(level) ==> parse_hls_buffer_info(&info).current_level
            == level,
        info.buffer_length_bits matches Some(bits) ==> parse_hls_buffer_info(
            &info,
        ).buffer_length_bits == bits,
        info.bandwidth is None ==> parse_hls_buffer_info(&info).bandwidth == 0,
        info.current_level is None ==> parse_hls_buffer_info(&info).current_level == -1,
        info.buffer_length_bits is None ==> parse_hls_buffer_info(&info).buffer_length_bits == 0,
{
}

/// What is said of a quality is kept; a quality that has no number takes that of its place.
pub proof fn law_quality_facts_are_kept(level: HlsQualityLevel, raw: RawHlsLevel, at: int)
    requires
        is_level(level, raw, at),
        0 <= at <= i32::MAX,
    ensures
        raw.index matches Some(index) ==> level.index == index,
        raw.index is None ==> level.index == at,
        raw.bitrate matches Some(bitrate) ==> level.bitrate == bitrate,
        raw.width matches Some(width) ==> level.width == width,
        raw.height matches Some(height) ==> level.height == height,
        raw.codec matches Some(codec) ==> level.codec@ == codec@,
        raw.bitrate is None ==> level.bitrate == 0,
        raw.codec is None ==> level.codec@ == "unknown"@,
{
}

/// Every quality that is there is listed, in the order of the list: the one at a place that
/// holds one comes after those of all the places before it.
pub proof fn law_all_qualities_are_listed(
    levels: Seq<HlsQualityLevel>,
    raw: Seq<Option<RawHlsLevel>>,
    at: int,
)
    requires
        are_levels(levels, raw, raw.len() as int),
        0 <= at < raw.len(),
        raw[at] is Some,
    ensures
        exists|k: int|
            0 <= k < levels.len() && #[trigger] is_level(levels[k], raw[at]->0, at),
        levels.len() <= raw.len(),
{
    let places = filled_places(raw, raw.len() as int);
    law_levels_keep_their_order(raw, raw.len() as int);
    lemma_places_are_few(raw, raw.len() as int);
    let k = choose|k: int| 0 <= k < places.len() && places[k] == at;
    assert(level_at(levels, raw, places, k));
    assert(is_level(levels[k], raw[at]->0, at));
}

proof fn lemma_places_are_few(raw: Seq<Option<RawHlsLevel>>, upto: int)
    requires
        0 <= upto <= raw.len(),
    ensures
        filled_places(raw, upto).len() <= upto,
    decreases upto,
{
    if upto > 0 {
        lemma_places_are_few(raw, upto - 1);
    }
}

/// A playlist is told by its ending, wherever it stands in an address.
pub proof fn law_playlists_are_told_by_their_ending(front: Seq<char>, back: Seq<char>)
    ensures
        names_hls(front + ".m3u8"@ + back),
{
    let url = front + ".m3u8"@ + back;
    let at: int = front.len() as int;
    assert(url.subrange(at, at + ".m3u8"@.len()) =~= ".m3u8"@);
    assert(crate::text::occurs_at(url, ".m3u8"@, at));
}

/// What is known of an element is what it says of itself; it has square pixels, and no time
/// of its own at which it starts.
pub proof fn law_element_describes_itself(metadata: VideoMetadata, element: VideoElement)
    requires
        describes(metadata, element),
    ensures
        metadata.width == element.width,
        metadata.height == element.height,
        metadata.duration == element.duration,
        metadata.pixel_aspect_ratio_bits == 0x3F80_0000,
        metadata.start_time is None,
{
}

} // verus!
