//! Frames that lie in buffers of the graphics driver: their formats, the layout
//! of their planes, and the copy that is made where they cannot be shared.

use crate::text::{
    after_first, before_first, cut_before, decimal, decimal_digits, hex_digits, hexadecimal,
    occurs_at, parse_number, parsed_number, rest_after, same_text, same_upper, slice, starts_with,
    upper,
};
use crate::video::VideoError;
use drm_fourcc::DrmFourcc;
use vstd::prelude::*;
use vstd::string::StringExecFns;

verus! {

/// Layout of a buffer whose rows follow one another.
pub const DRM_FORMAT_MOD_LINEAR: u64 = 0;

/// Layout of a buffer of which nothing is known.
pub const DRM_FORMAT_MOD_INVALID: u64 = 0x00FF_FFFF_FFFF_FFFF;

/// How the pixels of a frame are stored.
#[derive(Debug, Clone, Copy, PartialEq, Eq, Structural)]
pub enum PixelFormat {
    Nv12,
    Yuv420p,
    Rgba,
    Bgra,
}

/// The formats of driver buffers that are known by name.
#[derive(Debug, Clone, Copy, PartialEq, Eq, Structural)]
pub enum Fourcc {
    Nv12,
    Nv21,
    Yuv420,
    Yvu420,
    Yuyv,
    Uyvy,
    Argb8888,
    Abgr8888,
    Xrgb8888,
    Xbgr8888,
    Rgba8888,
    Bgra8888,
    P010,
}

/// The code of a format: its four letters, the first in the lowest byte.
pub open spec fn fourcc_value(format: Fourcc) -> u32 {
    match format {
        Fourcc::Nv12 => 0x3231_564e,
        Fourcc::Nv21 => 0x3132_564e,
        Fourcc::Yuv420 => 0x3231_5559,
        Fourcc::Yvu420 => 0x3231_5659,
        Fourcc::Yuyv => 0x5659_5559,
        Fourcc::Uyvy => 0x5956_5955,
        Fourcc::Argb8888 => 0x3432_5241,
        Fourcc::Abgr8888 => 0x3432_4241,
        Fourcc::Xrgb8888 => 0x3432_5258,
        Fourcc::Xbgr8888 => 0x3432_4258,
        Fourcc::Rgba8888 => 0x3432_4152,
        Fourcc::Bgra8888 => 0x3432_4142,
        Fourcc::P010 => 0x3031_3050,
    }
}

/// The discriminant of the variant of `drm_fourcc::DrmFourcc` of the same name.
/// The contract gives the value of each.
#[verifier::external_body]
pub(crate) fn fourcc_code(format: Fourcc) -> (code: u32)
    ensures
        code == fourcc_value(format),
{
    match format {
        Fourcc::Nv12 => DrmFourcc::Nv12 as u32,
        Fourcc::Nv21 => DrmFourcc::Nv21 as u32,
        Fourcc::Yuv420 => DrmFourcc::Yuv420 as u32,
        Fourcc::Yvu420 => DrmFourcc::Yvu420 as u32,
        Fourcc::Yuyv => DrmFourcc::Yuyv as u32,
        Fourcc::Uyvy => DrmFourcc::Uyvy as u32,
        Fourcc::Argb8888 => DrmFourcc::Argb8888 as u32,
        Fourcc::Abgr8888 => DrmFourcc::Abgr8888 as u32,
        Fourcc::Xrgb8888 => DrmFourcc::Xrgb8888 as u32,
        Fourcc::Xbgr8888 => DrmFourcc::Xbgr8888 as u32,
        Fourcc::Rgba8888 => DrmFourcc::Rgba8888 as u32,
        Fourcc::Bgra8888 => DrmFourcc::Bgra8888 as u32,
        Fourcc::P010 => DrmFourcc::P010 as u32,
    }
}

/// The format that a name stands for, in either case of letters.
pub open spec fn fourcc_named(name: Seq<char>) -> Option<Fourcc> {
    let name = upper(name);
    if name == "NV12"@ {
        Some(Fourcc::Nv12)
    } else if name == "NV21"@ {
        Some(Fourcc::Nv21)
    } else if name == "YU12"@ || name == "I420"@ {
        Some(Fourcc::Yuv420)
    } else if name == "YV12"@ {
        Some(Fourcc::Yvu420)
    } else if name == "YUYV"@ || name == "YUY2"@ {
        Some(Fourcc::Yuyv)
    } else if name == "UYVY"@ {
        Some(Fourcc::Uyvy)
    } else if name == "ARGB"@ || name == "AR24"@ {
        Some(Fourcc::Argb8888)
    } else if name == "ABGR"@ || name == "AB24"@ {
        Some(Fourcc::Abgr8888)
    } else if name == "XRGB"@ || name == "XR24"@ {
        Some(Fourcc::Xrgb8888)
    } else if name == "XBGR"@ || name == "XB24"@ {
        Some(Fourcc::Xbgr8888)
    } else if name == "RGBA"@ {
        Some(Fourcc::Rgba8888)
    } else if name == "BGRA"@ {
        Some(Fourcc::Bgra8888)
    } else if name == "P010"@ {
        Some(Fourcc::P010)
    } else {
        None
    }
}

fn find_fourcc(name: &str) -> (format: Option<Fourcc>)
    ensures
        format == fourcc_named(name@),
{
    if same_upper(name, "NV12") {
        Some(Fourcc::Nv12)
    } else if same_upper(name, "NV21") {
        Some(Fourcc::Nv21)
    } else if same_upper(name, "YU12") || same_upper(name, "I420") {
        Some(Fourcc::Yuv420)
    } else if same_upper(name, "YV12") {
        Some(Fourcc::Yvu420)
    } else if same_upper(name, "YUYV") || same_upper(name, "YUY2") {
        Some(Fourcc::Yuyv)
    } else if same_upper(name, "UYVY") {
        Some(Fourcc::Uyvy)
    } else if same_upper(name, "ARGB") || same_upper(name, "AR24") {
        Some(Fourcc::Argb8888)
    } else if same_upper(name, "ABGR") || same_upper(name, "AB24") {
        Some(Fourcc::Abgr8888)
    } else if same_upper(name, "XRGB") || same_upper(name, "XR24") {
        Some(Fourcc::Xrgb8888)
    } else if same_upper(name, "XBGR") || same_upper(name, "XB24") {
        Some(Fourcc::Xbgr8888)
    } else if same_upper(name, "RGBA") {
        Some(Fourcc::Rgba8888)
    } else if same_upper(name, "BGRA") {
        Some(Fourcc::Bgra8888)
    } else if same_upper(name, "P010") {
        Some(Fourcc::P010)
    } else {
        None
    }
}

/// Planes of a format.
#[verifier::allow_in_spec]
pub fn plane_count(format: Fourcc) -> u32
    returns
        (match format {
            Fourcc::Nv12 | Fourcc::Nv21 | Fourcc::P010 => 2u32,
            Fourcc::Yuv420 | Fourcc::Yvu420 => 3u32,
            _ => 1u32,
        }),
{
    match format {
        Fourcc::Nv12 | Fourcc::Nv21 | Fourcc::P010 => 2,
        Fourcc::Yuv420 | Fourcc::Yvu420 => 3,
        _ => 1,
    }
}

/// The number of planes and the code of a format; noughts for a name that is not
/// known.
pub fn drm_format_info(name: &str) -> (info: (u32, u32))
    ensures
        info == (match fourcc_named(name@) {
            Some(format) => (plane_count(format), fourcc_value(format)),
            None => (0u32, 0u32),
        }),
{
    match find_fourcc(name) {
        Some(format) => (plane_count(format), fourcc_code(format)),
        None => (0, 0),
    }
}

/// How the pixels of a buffer can be shown. The chroma of NV21 stands the wrong
/// way round for that.
pub open spec fn pixel_format_of(code: u32) -> Option<PixelFormat> {
    if code == fourcc_value(Fourcc::Nv12) {
        Some(PixelFormat::Nv12)
    } else if code == fourcc_value(Fourcc::Yuv420) || code == fourcc_value(Fourcc::Yvu420) {
        Some(PixelFormat::Yuv420p)
    } else if code == fourcc_value(Fourcc::Argb8888) || code == fourcc_value(Fourcc::Xrgb8888)
        || code == fourcc_value(Fourcc::Bgra8888) {
        Some(PixelFormat::Bgra)
    } else if code == fourcc_value(Fourcc::Abgr8888) || code == fourcc_value(Fourcc::Xbgr8888)
        || code == fourcc_value(Fourcc::Rgba8888) {
        Some(PixelFormat::Rgba)
    } else {
        None
    }
}

pub fn drm_fourcc_to_pixel_format(code: u32) -> (format: Option<PixelFormat>)
    ensures
        format == pixel_format_of(code),
{
    if code == fourcc_code(Fourcc::Nv12) {
        Some(PixelFormat::Nv12)
    } else if code == fourcc_code(Fourcc::Yuv420) || code == fourcc_code(Fourcc::Yvu420) {
        Some(PixelFormat::Yuv420p)
    } else if code == fourcc_code(Fourcc::Argb8888) || code == fourcc_code(Fourcc::Xrgb8888)
        || code == fourcc_code(Fourcc::Bgra8888) {
        Some(PixelFormat::Bgra)
    } else if code == fourcc_code(Fourcc::Abgr8888) || code == fourcc_code(Fourcc::Xbgr8888)
        || code == fourcc_code(Fourcc::Rgba8888) {
        Some(PixelFormat::Rgba)
    } else {
        None
    }
}

/// The layout that the text of a modifier stands for: hexadecimal behind `0x`,
/// else decimal, and linear where it is no number.
pub open spec fn modifier_of(text: Seq<char>) -> u64 {
    let number = if occurs_at(text, "0x"@, 0) || occurs_at(text, "0X"@, 0) {
        parsed_number(text.skip(2), 16)
    } else {
        parsed_number(text, 10)
    };
    match number {
        Some(modifier) => modifier,
        None => DRM_FORMAT_MOD_LINEAR,
    }
}

fn parse_modifier(text: &str) -> (modifier: u64)
    ensures
        modifier == modifier_of(text@),
{
    proof {
        reveal_strlit("0x");
        reveal_strlit("0X");
    }
    let number: Option<u64> = if starts_with(text, "0x") || starts_with(text, "0X") {
        let len: usize = text.unicode_len();
        let digits: String = slice(text, 2, len);
        assert(digits@ =~= text@.skip(2));
        parse_number(digits.as_str(), 16)
    } else {
        parse_number(text, 10)
    };
    match number {
        Some(modifier) => modifier,
        None => DRM_FORMAT_MOD_LINEAR,
    }
}

/// Takes apart a format with its layout, such as `NV12:0x0100000000000002`.
pub fn parse_drm_format_caps(caps: &str) -> (parsed: (String, u64))
    ensures
        parsed.0@ == before_first(caps@, ':'),
        parsed.1 == (match after_first(caps@, ':') {
            Some(rest) => modifier_of(before_first(rest, ':')),
            None => DRM_FORMAT_MOD_LINEAR,
        }),
{
    let name: String = cut_before(caps, ':');
    let modifier: u64 = match rest_after(caps, ':') {
        Some(rest) => parse_modifier(cut_before(rest.as_str(), ':').as_str()),
        None => DRM_FORMAT_MOD_LINEAR,
    };
    (name, modifier)
}

/// A frame in one buffer of the driver.
#[derive(Debug, PartialEq, Eq)]
pub struct DmaBufInfo {
    /// The file descriptor of the buffer.
    pub fd: i32,
    /// Bytes per row of each plane.
    pub strides: Vec<u32>,
    /// Where each plane begins.
    pub offsets: Vec<u32>,
    pub modifier: u64,
    pub n_planes: u32,
    pub width: u32,
    pub height: u32,
    pub drm_format: u32,
}

/// Rows and beginnings of the planes of a frame, as a decoder reports them.
#[derive(Debug, PartialEq, Eq)]
pub struct PlaneLayout {
    pub strides: Vec<i32>,
    pub offsets: Vec<usize>,
}

/// What a decoder reports of a frame.
#[derive(Debug, PartialEq, Eq)]
pub struct BufferFacts {
    /// The memory belongs to the driver.
    pub is_dmabuf: bool,
    pub fd: i32,
    /// Pieces of memory that the frame is made of.
    pub n_memory: u32,
    pub width: u32,
    pub height: u32,
    /// The format with its layout, where it was negotiated.
    pub drm_format: Option<String>,
    /// The name of the format otherwise.
    pub format_name: String,
    /// The layout that came with the frame.
    pub meta: Option<PlaneLayout>,
    /// The layout that follows from the format; empty where it has none.
    pub info: PlaneLayout,
    pub info_planes: u32,
}

/// The first `n` rows of a layout.
pub open spec fn first_strides(layout: PlaneLayout, n: u32) -> Seq<u32> {
    Seq::new(n as nat, |i: int| layout.strides@[i] as u32)
}

/// The first `n` beginnings of a layout.
pub open spec fn first_offsets(layout: PlaneLayout, n: u32) -> Seq<u32> {
    Seq::new(n as nat, |i: int| layout.offsets@[i] as u32)
}

/// True where a layout says enough for `n` planes.
pub open spec fn covers_planes(layout: PlaneLayout, n: u32) -> bool {
    n <= layout.strides@.len() && n <= layout.offsets@.len()
}

impl BufferFacts {
    /// The name of the format.
    pub open spec fn name(self) -> Seq<char> {
        match self.drm_format {
            Some(caps) => before_first(caps@, ':'),
            None => self.format_name@,
        }
    }

    pub open spec fn modifier(self) -> u64 {
        match self.drm_format {
            Some(caps) => match after_first(caps@, ':') {
                Some(rest) => modifier_of(before_first(rest, ':')),
                None => DRM_FORMAT_MOD_LINEAR,
            },
            None => DRM_FORMAT_MOD_LINEAR,
        }
    }

    /// True of a frame in NV12. A negotiated name counts as it is written.
    pub open spec fn is_nv12(self) -> bool {
        match self.drm_format {
            Some(caps) => before_first(caps@, ':') == "NV12"@,
            None => upper(self.format_name@) == "NV12"@,
        }
    }

    /// True where rows and beginnings are worked out from the size.
    pub open spec fn has_default_layout(self, planes: u32) -> bool {
        self.meta is None && self.info_planes == 0 && self.is_nv12() && planes == 2
    }

    /// The rows and beginnings of the planes, where they are known: those that
    /// came with the frame, else those of the format, else for NV12 those of
    /// planes without gaps.
    pub open spec fn layout(self, planes: u32) -> Option<(Seq<u32>, Seq<u32>)> {
        match self.meta {
            Some(meta) => if covers_planes(meta, planes) {
                Some((first_strides(meta, planes), first_offsets(meta, planes)))
            } else {
                None
            },
            None => if self.info_planes > 0 {
                if covers_planes(self.info, planes) {
                    Some((first_strides(self.info, planes), first_offsets(self.info, planes)))
                } else {
                    None
                }
            } else if self.has_default_layout(planes) {
                Some(
                    (
                        seq![self.width, self.width],
                        seq![0u32, (self.width * self.height) as u32],
                    ),
                )
            } else {
                None
            },
        }
    }

    /// True where the frame can be shared: it lies in one buffer of the driver,
    /// its format is known, and so is its layout.
    pub open spec fn is_shareable(self) -> bool {
        &&& self.is_dmabuf
        &&& self.fd >= 0
        &&& fourcc_named(self.name()) is Some
        &&& {
            let planes = plane_count(fourcc_named(self.name())->0);
            &&& !(self.n_memory >= planes && planes > 1)
            &&& self.layout(planes) is Some
        }
    }
}

fn take_planes(layout: &PlaneLayout, planes: u32) -> (taken: Option<(Vec<u32>, Vec<u32>)>)
    ensures
        match taken {
            Some((strides, offsets)) => {
                &&& covers_planes(*layout, planes)
                &&& strides@ =~= first_strides(*layout, planes)
                &&& offsets@ =~= first_offsets(*layout, planes)
            },
            None => !covers_planes(*layout, planes),
        },
{
    if (planes as usize) > layout.strides.len() || (planes as usize) > layout.offsets.len() {
        return None;
    }
    let mut strides: Vec<u32> = Vec::new();
    let mut offsets: Vec<u32> = Vec::new();
    let mut i: u32 = 0;
    while i < planes
        invariant
            i <= planes,
            planes <= layout.strides@.len(),
            planes <= layout.offsets@.len(),
            strides@ =~= first_strides(*layout, i),
            offsets@ =~= first_offsets(*layout, i),
        decreases planes - i,
    {
        let stride: i32 = layout.strides[i as usize];
        let offset: usize = layout.offsets[i as usize];
        strides.push(#[verifier::truncate] (stride as u32));
        offsets.push(#[verifier::truncate] (offset as u32));
        i = i + 1;
    }
    Some((strides, offsets))
}

/// Finds out how a frame can be shared with the graphics card; nothing where it
/// must be copied.
pub fn extract_dmabuf_info(facts: &BufferFacts) -> (info: Option<DmaBufInfo>)
    requires
        facts.has_default_layout(2) ==> facts.width * facts.height <= u32::MAX,
    ensures
        info is Some == facts.is_shareable(),
        info matches Some(info) ==> {
            let format = fourcc_named(facts.name())->0;
            let layout = facts.layout(plane_count(format))->0;
            &&& info.fd == facts.fd
            &&& info.strides@ =~= layout.0
            &&& info.offsets@ =~= layout.1
            &&& info.modifier == facts.modifier()
            &&& info.n_planes == plane_count(format)
            &&& info.width == facts.width
            &&& info.height == facts.height
            &&& info.drm_format == fourcc_value(format)
        },
{
    if !facts.is_dmabuf || facts.fd < 0 {
        return None;
    }
    let (format, modifier, is_nv12): (Option<Fourcc>, u64, bool) = match &facts.drm_format {
        Some(caps) => {
            let (name, modifier) = parse_drm_format_caps(caps.as_str());
            (find_fourcc(name.as_str()), modifier, same_text(name.as_str(), "NV12"))
        },
        None => {
            let name: &str = facts.format_name.as_str();
            (find_fourcc(name), DRM_FORMAT_MOD_LINEAR, same_upper(name, "NV12"))
        },
    };
    let format: Fourcc = match format {
        Some(format) => format,
        None => {
            return None;
        },
    };
    let n_planes: u32 = plane_count(format);
    if facts.n_memory >= n_planes && n_planes > 1 {
        return None;
    }
    let layout: Option<(Vec<u32>, Vec<u32>)> = match &facts.meta {
        Some(meta) => take_planes(meta, n_planes),
        None => if facts.info_planes > 0 {
            take_planes(&facts.info, n_planes)
        } else if is_nv12 && n_planes == 2 {
            let mut strides: Vec<u32> = Vec::new();
            let mut offsets: Vec<u32> = Vec::new();
            strides.push(facts.width);
            strides.push(facts.width);
            offsets.push(0);
            offsets.push(facts.width * facts.height);
            assert(strides@ =~= seq![facts.width, facts.width]);
            assert(offsets@ =~= seq![0u32, (facts.width * facts.height) as u32]);
            Some((strides, offsets))
        } else {
            None
        },
    };
    match layout {
        Some((strides, offsets)) => Some(
            DmaBufInfo {
                fd: facts.fd,
                strides,
                offsets,
                modifier,
                n_planes,
                width: facts.width,
                height: facts.height,
                drm_format: fourcc_code(format),
            },
        ),
        None => None,
    }
}

/// One plane of a frame that is shared.
#[derive(Debug, Clone, Copy, PartialEq, Eq, Structural)]
pub struct PlanePlan {
    pub offset: u64,
    pub stride: u32,
    pub size: u64,
}

/// Rows of a plane: all of the first, half of the others, rounded up.
#[verifier::allow_in_spec]
pub fn plane_rows(plane: usize, height: u32) -> u32
    returns
        (if plane == 0 {
            height
        } else {
            (height / 2 + height % 2) as u32
        }),
{
    if plane == 0 {
        height
    } else {
        height / 2 + height % 2
    }
}

impl DmaBufInfo {
    /// Checks that a frame has planes and a format that can be shown, before its
    /// file descriptor is duplicated.
    pub fn check_format(&self) -> (checked: Result<PixelFormat, VideoError>)
        ensures
            match checked {
                Ok(format) => self.n_planes > 0 && pixel_format_of(self.drm_format) == Some(format),
                Err(error) => if self.n_planes == 0 {
                    &&& error is DecodeFailed
                    &&& error->DecodeFailed_0@ == "DMABuf has 0 planes, cannot import"@
                } else {
                    &&& pixel_format_of(self.drm_format) is None
                    &&& error is UnsupportedFormat
                    &&& error->UnsupportedFormat_0@
                        == "Unsupported DRM fourcc for zero-copy: 0x"@ + hex_digits(
                        self.drm_format as nat,
                        8,
                    )
                },
            },
    {
        if self.n_planes == 0 {
            return Err(VideoError::DecodeFailed("DMABuf has 0 planes, cannot import".to_owned()));
        }
        match drm_fourcc_to_pixel_format(self.drm_format) {
            Some(format) => Ok(format),
            None => Err(
                VideoError::UnsupportedFormat(
                    "Unsupported DRM fourcc for zero-copy: 0x".to_owned().concat(
                        hexadecimal(self.drm_format as u64, 8).as_str(),
                    ),
                ),
            ),
        }
    }

    /// True where the sizes of the planes can be written down.
    pub open spec fn sizes_fit(self) -> bool {
        forall|i: int|
            0 <= i < self.n_planes && i < self.strides@.len() ==> #[trigger] self.strides@[i]
                * plane_rows(i as usize, self.height) <= u32::MAX
    }

    /// The planes of a frame, up to `n`.
    pub open spec fn planes(self, n: nat) -> Seq<PlanePlan> {
        Seq::new(
            n,
            |i: int|
                PlanePlan {
                    offset: self.offsets@[i] as u64,
                    stride: self.strides@[i],
                    size: (self.strides@[i] * plane_rows(i as usize, self.height)) as u64,
                },
        )
    }

    /// The first plane without rows.
    pub open spec fn is_first_flat(self, i: int) -> bool {
        &&& 0 <= i < self.n_planes
        &&& i < self.strides@.len()
        &&& self.strides@[i] == 0
        &&& forall|k: int| 0 <= k < i ==> self.strides@[k] != 0
    }

    /// The message where there are fewer rows or beginnings than planes.
    pub open spec fn shortage(planes: nat, found: nat, what: Seq<char>) -> Seq<char> {
        "DMABuf has "@ + decimal_digits(planes) + " planes but only "@ + decimal_digits(found)
            + what
    }

    fn shortage_text(planes: u32, found: usize, what: &str) -> (text: String)
        ensures
            text@ == Self::shortage(planes as nat, found as nat, what@),
    {
        let mut text: String = "DMABuf has ".to_owned();
        text.append(decimal(planes as u64).as_str());
        text.append(" planes but only ");
        text.append(decimal(found as u64).as_str());
        text.append(what);
        text
    }

    /// Lays out the planes of a frame for the graphics card.
    pub fn plan_planes(&self) -> (planned: Result<Vec<PlanePlan>, VideoError>)
        requires
            self.sizes_fit(),
        ensures
            match planned {
                Ok(planes) => {
                    &&& self.n_planes <= self.strides@.len()
                    &&& self.n_planes <= self.offsets@.len()
                    &&& forall|i: int| 0 <= i < self.n_planes ==> self.strides@[i] != 0
                    &&& planes@ =~= self.planes(self.n_planes as nat)
                },
                Err(error) => error is DecodeFailed && ({
                    let message = error->DecodeFailed_0@;
                    if self.strides@.len() < self.n_planes {
                        message == Self::shortage(
                            self.n_planes as nat,
                            self.strides@.len(),
                            " strides"@,
                        )
                    } else if self.offsets@.len() < self.n_planes {
                        message == Self::shortage(
                            self.n_planes as nat,
                            self.offsets@.len(),
                            " offsets"@,
                        )
                    } else {
                        exists|i: int| #[trigger]
                            self.is_first_flat(i) && message == "DMABuf plane "@ + decimal_digits(
                                i as nat,
                            ) + " has zero stride"@
                    }
                }),
            },
    {
        let n_planes: usize = self.n_planes as usize;
        if self.strides.len() < n_planes {
            return Err(
                VideoError::DecodeFailed(
                    Self::shortage_text(self.n_planes, self.strides.len(), " strides"),
                ),
            );
        }
        if self.offsets.len() < n_planes {
            return Err(
                VideoError::DecodeFailed(
                    Self::shortage_text(self.n_planes, self.offsets.len(), " offsets"),
                ),
            );
        }
        let mut planes: Vec<PlanePlan> = Vec::new();
        let mut i: usize = 0;
        while i < n_planes
            invariant
                i <= n_planes,
                n_planes == self.n_planes,
                n_planes <= self.strides@.len(),
                n_planes <= self.offsets@.len(),
                self.sizes_fit(),
                forall|k: int| 0 <= k < i ==> self.strides@[k] != 0,
                planes@ =~= self.planes(i as nat),
            decreases n_planes - i,
        {
            let stride: u32 = self.strides[i];
            if stride == 0 {
                let mut text: String = "DMABuf plane ".to_owned();
                text.append(decimal(i as u64).as_str());
                text.append(" has zero stride");
                assert(self.is_first_flat(i as int));
                return Err(VideoError::DecodeFailed(text));
            }
            let rows: u32 = plane_rows(i, self.height);
            assert(self.strides@[i as int] * plane_rows(i as usize, self.height) <= u32::MAX);
            assert(stride * rows >= 0) by (nonlinear_arith);
            planes.push(
                PlanePlan {
                    offset: self.offsets[i] as u64,
                    stride,
                    size: (stride * rows) as u64,
                },
            );
            i = i + 1;
        }
        Ok(planes)
    }

    /// True where all planes lie in one piece of memory.
    #[verifier::allow_in_spec]
    pub fn is_single_fd(&self, n_memory: u32) -> bool
        returns
            self.n_planes > 1 && n_memory == 1,
    {
        self.n_planes > 1 && n_memory == 1
    }
}

impl BufferFacts {
    /// How the pixels of a frame that can be shared are stored, where that can be
    /// shown.
    pub open spec fn share_format(self) -> Option<PixelFormat> {
        pixel_format_of(fourcc_value(fourcc_named(self.name())->0))
    }

    /// The planes of a frame that can be shared.
    pub open spec fn share_planes(self) -> Seq<PlanePlan> {
        let planes = plane_count(fourcc_named(self.name())->0);
        let layout = self.layout(planes)->0;
        Seq::new(
            planes as nat,
            |i: int|
                PlanePlan {
                    offset: layout.1[i] as u64,
                    stride: layout.0[i],
                    size: (layout.0[i] * plane_rows(i as usize, self.height)) as u64,
                },
        )
    }

    /// True where a frame is not only shareable but can be shown, and every plane has
    /// rows.
    pub open spec fn is_plannable(self) -> bool {
        &&& self.is_shareable()
        &&& self.share_format() is Some
        &&& forall|i: int|
            0 <= i < self.share_planes().len() ==> (#[trigger] self.share_planes()[i]).stride != 0
    }

    /// The first plane without rows.
    pub open spec fn first_flat_plane(self, i: int) -> bool {
        &&& 0 <= i < self.share_planes().len()
        &&& self.share_planes()[i].stride == 0
        &&& forall|k: int| 0 <= k < i ==> (#[trigger] self.share_planes()[k]).stride != 0
    }

    /// What is wrong with a frame that can be shared but not shown: its format, or else
    /// its first plane without rows.
    pub open spec fn share_fails_with(self, error: VideoError) -> bool {
        if self.share_format() is None {
            &&& error is UnsupportedFormat
            &&& error->UnsupportedFormat_0@ == "Unsupported DRM fourcc for zero-copy: 0x"@
                + hex_digits(fourcc_value(fourcc_named(self.name())->0) as nat, 8)
        } else {
            &&& error is DecodeFailed
            &&& exists|i: int| #[trigger]
                self.first_flat_plane(i) && error->DecodeFailed_0@ == "DMABuf plane "@
                    + decimal_digits(i as nat) + " has zero stride"@
        }
    }

    /// True where the sizes of the planes can be written down.
    pub open spec fn sizes_fit(self) -> bool {
        let planes = plane_count(fourcc_named(self.name())->0);
        let layout = self.layout(planes)->0;
        &&& self.has_default_layout(2) ==> self.width * self.height <= u32::MAX
        &&& self.is_shareable() ==> forall|i: int|
            0 <= i < planes ==> #[trigger] layout.0[i] * plane_rows(i as usize, self.height)
                <= u32::MAX
    }
}

/// A frame laid out for the graphics card.
#[derive(Debug, PartialEq, Eq)]
pub struct SharePlan {
    pub fd: i32,
    pub format: PixelFormat,
    pub planes: Vec<PlanePlan>,
    pub modifier: u64,
    /// All planes lie in one piece of memory.
    pub single_fd: bool,
}

/// Whether a frame is laid out for the graphics card.
#[derive(Debug, PartialEq, Eq)]
pub enum ShareDecision {
    NotShareable,
    Failed(VideoError),
    Plan(SharePlan),
}

/// Lays out a frame for the graphics card, where that can be done.
pub fn plan_share(facts: &BufferFacts) -> (decision: ShareDecision)
    requires
        facts.sizes_fit(),
    ensures
        match decision {
            ShareDecision::NotShareable => !facts.is_shareable(),
            ShareDecision::Failed(error) => {
                &&& facts.is_shareable()
                &&& !facts.is_plannable()
                &&& facts.share_fails_with(error)
            },
            ShareDecision::Plan(plan) => {
                &&& facts.is_plannable()
                &&& plan.fd == facts.fd
                &&& plan.format == facts.share_format()->0
                &&& plan.planes@ =~= facts.share_planes()
                &&& plan.modifier == facts.modifier()
                &&& plan.single_fd == (facts.share_planes().len() > 1 && facts.n_memory == 1)
            },
        },
{
    let info: DmaBufInfo = match extract_dmabuf_info(facts) {
        Some(info) => info,
        None => {
            return ShareDecision::NotShareable;
        },
    };
    let format: PixelFormat = match info.check_format() {
        Ok(format) => format,
        Err(error) => {
            return ShareDecision::Failed(error);
        },
    };
    match info.plan_planes() {
        Ok(planes) => {
            assert(planes@ =~= facts.share_planes());
            ShareDecision::Plan(
                SharePlan {
                    fd: info.fd,
                    format,
                    planes,
                    modifier: info.modifier,
                    single_fd: info.is_single_fd(facts.n_memory),
                },
            )
        },
        Err(error) => {
            proof {
                let i = choose|i: int| #[trigger]
                    info.is_first_flat(i) && error->DecodeFailed_0@ == "DMABuf plane "@
                        + decimal_digits(i as nat) + " has zero stride"@;
                assert(facts.share_planes()[i].stride == 0);
                assert(facts.first_flat_plane(i));
            }
            ShareDecision::Failed(error)
        },
    }
}

/// One plane of a frame in main memory.
#[derive(Debug, PartialEq, Eq)]
pub struct Plane {
    pub data: Vec<u8>,
    pub stride: usize,
}

/// A frame in main memory.
#[derive(Debug, PartialEq, Eq)]
pub struct CpuFrame {
    pub format: PixelFormat,
    pub width: u32,
    pub height: u32,
    pub planes: Vec<Plane>,
}

/// What is wrong with the layout of a frame that is to be copied: the first of
/// the things that can be missing, or the first plane that does not fit.
pub open spec fn copy_refusal(data_len: nat, height: u32, layout: PlaneLayout) -> Option<
    Seq<char>,
> {
    if layout.strides@.len() == 0 {
        Some("Missing Y plane stride"@)
    } else if layout.strides@.len() == 1 {
        Some("Missing UV plane stride"@)
    } else if layout.offsets@.len() == 0 {
        Some("Missing Y plane offset"@)
    } else if layout.offsets@.len() == 1 {
        Some("Missing UV plane offset"@)
    } else if layout.offsets@[0] + layout.strides@[0] * height > data_len {
        Some("Y plane out of bounds"@)
    } else if layout.offsets@[1] + layout.strides@[1] * plane_rows(1, height) > data_len {
        Some("UV plane out of bounds"@)
    } else {
        None
    }
}

/// The bytes of a plane.
pub open spec fn plane_bytes(data: Seq<u8>, offset: int, stride: int, rows: int) -> Seq<u8> {
    data.subrange(offset, offset + stride * rows)
}

fn copy_plane(data: &[u8], offset: usize, stride: i32, rows: u32) -> (plane: Option<Plane>)
    requires
        stride >= 0,
    ensures
        match plane {
            Some(plane) => {
                &&& offset + stride * rows <= data@.len()
                &&& plane.data@ =~= plane_bytes(
                    data@,
                    offset as int,
                    stride as int,
                    rows as int,
                )
                &&& plane.stride == stride
            },
            None => offset + stride * rows > data@.len(),
        },
{
    assert(0 <= stride * rows <= 0x7fff_ffff * 0xffff_ffff) by (nonlinear_arith)
        requires
            0 <= stride <= 0x7fff_ffff,
            0 <= rows <= 0xffff_ffff,
    ;
    let size: u64 = (stride as u64) * (rows as u64);
    let len: usize = data.len();
    if size > len as u64 {
        return None;
    }
    let size: usize = size as usize;
    if offset > len - size {
        return None;
    }
    let mut bytes: Vec<u8> = Vec::new();
    let mut i: usize = 0;
    while i < size
        invariant
            i <= size,
            offset + size <= data@.len(),
            data@.len() == len,
            bytes@ =~= data@.subrange(offset as int, offset + i),
        decreases size - i,
    {
        bytes.push(data[offset + i]);
        i = i + 1;
    }
    Some(Plane { data: bytes, stride: stride as usize })
}

/// Copies a frame in NV12 into main memory.
pub fn cpu_copy_frame(data: &[u8], width: u32, height: u32, layout: &PlaneLayout) -> (copied: Result<
    CpuFrame,
    VideoError,
>)
    requires
        forall|i: int| 0 <= i < layout.strides@.len() ==> layout.strides@[i] >= 0,
    ensures
        match copied {
            Ok(frame) => {
                &&& copy_refusal(data@.len(), height, *layout) is None
                &&& frame.format == PixelFormat::Nv12
                &&& frame.width == width
                &&& frame.height == height
                &&& frame.planes@.len() == 2
                &&& frame.planes@[0].data@ =~= plane_bytes(
                    data@,
                    layout.offsets@[0] as int,
                    layout.strides@[0] as int,
                    height as int,
                )
                &&& frame.planes@[0].stride == layout.strides@[0]
                &&& frame.planes@[1].data@ =~= plane_bytes(
                    data@,
                    layout.offsets@[1] as int,
                    layout.strides@[1] as int,
                    plane_rows(1, height) as int,
                )
                &&& frame.planes@[1].stride == layout.strides@[1]
            },
            Err(error) => error is DecodeFailed && copy_refusal(data@.len(), height, *layout)
                == Some(error->DecodeFailed_0@),
        },
{
    if layout.strides.len() == 0 {
        return Err(VideoError::DecodeFailed("Missing Y plane stride".to_owned()));
    }
    if layout.strides.len() == 1 {
        return Err(VideoError::DecodeFailed("Missing UV plane stride".to_owned()));
    }
    if layout.offsets.len() == 0 {
        return Err(VideoError::DecodeFailed("Missing Y plane offset".to_owned()));
    }
    if layout.offsets.len() == 1 {
        return Err(VideoError::DecodeFailed("Missing UV plane offset".to_owned()));
    }
    let y_plane: Plane = match copy_plane(data, layout.offsets[0], layout.strides[0], height) {
        Some(plane) => plane,
        None => {
            return Err(VideoError::DecodeFailed("Y plane out of bounds".to_owned()));
        },
    };
    let uv_plane: Plane = match copy_plane(
        data,
        layout.offsets[1],
        layout.strides[1],
        plane_rows(1, height),
    ) {
        Some(plane) => plane,
        None => {
            return Err(VideoError::DecodeFailed("UV plane out of bounds".to_owned()));
        },
    };
    let mut planes: Vec<Plane> = Vec::new();
    planes.push(y_plane);
    planes.push(uv_plane);
    Ok(CpuFrame { format: PixelFormat::Nv12, width, height, planes })
}

/// The planes that are laid out one behind the other for NV12 neither overlap nor
/// leave a gap.
pub proof fn law_default_planes_adjoin(facts: BufferFacts)
    requires
        facts.has_default_layout(2),
        facts.width * facts.height <= u32::MAX,
    ensures
        facts.layout(2) is Some,
        ({
            let (strides, offsets) = facts.layout(2)->0;
            offsets[0] + strides[0] * plane_rows(0, facts.height) == offsets[1]
        }),
{
    assert(facts.width * facts.height >= 0) by (nonlinear_arith);
}

} // verus!
