//! What holds of the formats of frames and how they are written down.

use crate::dmabuf::{
    fourcc_named, fourcc_value, modifier_of, pixel_format_of, plane_count, BufferFacts, Fourcc,
    PixelFormat,
};
use crate::text::{
    decimal_digits, fits_hex, hex_char, hex_digits, law_decimal_is_read_back,
    law_first_cuts_a_text, law_hexadecimal_is_read_back, upper,
};
use crate::time::Duration;
use crate::video::{is_positive_float, VideoMetadata, VideoState};
use vstd::prelude::*;

verus! {

/// A format is told by its code alone, and is shown as what it holds; those whose colours
/// stand the wrong way round, or that are packed or deeper, are not shown.
pub proof fn law_codes_tell_formats_apart(one: Fourcc, other: Fourcc)
    ensures
        fourcc_value(one) == fourcc_value(other) <==> one == other,
        pixel_format_of(fourcc_value(Fourcc::Nv12)) == Some(PixelFormat::Nv12),
        pixel_format_of(fourcc_value(one)) == Some(PixelFormat::Nv12) <==> one == Fourcc::Nv12,
        pixel_format_of(fourcc_value(one)) == Some(PixelFormat::Yuv420p) <==> one == Fourcc::Yuv420
            || one == Fourcc::Yvu420,
        pixel_format_of(fourcc_value(one)) == Some(PixelFormat::Bgra) <==> one == Fourcc::Argb8888
            || one == Fourcc::Xrgb8888 || one == Fourcc::Bgra8888,
        pixel_format_of(fourcc_value(one)) == Some(PixelFormat::Rgba) <==> one == Fourcc::Abgr8888
            || one == Fourcc::Xbgr8888 || one == Fourcc::Rgba8888,
        pixel_format_of(fourcc_value(one)) is None <==> one == Fourcc::Nv21 || one == Fourcc::Yuyv
            || one == Fourcc::Uyvy || one == Fourcc::P010,
{
}

/// Brightness and colour lie in two planes, or in three where the two colours are apart; a
/// packed format has one.
pub proof fn law_formats_have_their_planes(format: Fourcc)
    ensures
        plane_count(format) == 2 <==> format == Fourcc::Nv12 || format == Fourcc::Nv21 || format
            == Fourcc::P010,
        plane_count(format) == 3 <==> format == Fourcc::Yuv420 || format == Fourcc::Yvu420,
        1 <= plane_count(format) <= 3,
{
}

/// A name stands for a format in either case of letters.
pub proof fn law_names_count_in_either_case(name: Seq<char>, other: Seq<char>)
    requires
        upper(name) == upper(other),
    ensures
        fourcc_named(name) == fourcc_named(other),
        upper(name) == "NV12"@ ==> fourcc_named(name) == Some(Fourcc::Nv12),
        fourcc_named(name) == Some(Fourcc::P010) ==> upper(name) == "P010"@,
        fourcc_named(name) == Some(Fourcc::Bgra8888) ==> upper(name) == "BGRA"@,
        fourcc_named(name) == Some(Fourcc::Nv12) ==> upper(name) == "NV12"@,
        fourcc_named(name) == Some(Fourcc::Yuv420) ==> upper(name) == "YU12"@ || upper(name)
            == "I420"@,
        fourcc_named(name) is None ==> upper(name) != "NV12"@ && upper(name) != "P010"@ && upper(
            name,
        ) != "YUY2"@ && upper(name) != "I420"@ && upper(name) != "BGRA"@,
{
}

proof fn lemma_hex_digits_have_no_sign(n: nat, width: nat)
    ensures
        hex_digits(n, width).len() == width,
        forall|i: int| 0 <= i < width ==> #[trigger] hex_digits(n, width)[i] != '+',
    decreases width,
{
    if width > 0 {
        lemma_hex_digits_have_no_sign(n / 16, (width - 1) as nat);
        assert(hex_char((n % 16) as int) != '+');
    }
}

/// A layout is read in hexadecimal behind `0x`, and in decimal without.
pub proof fn law_layouts_are_read_back(n: u64, width: nat)
    requires
        width > 0,
        fits_hex(n as nat, width),
    ensures
        modifier_of("0x"@ + hex_digits(n as nat, width)) == n,
        modifier_of("0X"@ + hex_digits(n as nat, width)) == n,
        modifier_of(decimal_digits(n as nat)) == n,
{
    reveal_strlit("0x");
    reveal_strlit("0X");
    let digits = hex_digits(n as nat, width);
    lemma_hex_digits_have_no_sign(n as nat, width);
    law_hexadecimal_is_read_back(n as nat, width);
    law_decimal_is_read_back(n);
    let low = "0x"@ + digits;
    let high = "0X"@ + digits;
    let plain = decimal_digits(n as nat);
    assert(low.subrange(0, 2) =~= "0x"@);
    assert(high.subrange(0, 2) =~= "0X"@);
    assert(low.skip(2) =~= digits);
    assert(high.skip(2) =~= digits);
    if plain.len() >= 2 {
        assert(plain.subrange(0, 2)[1] == plain[1]);
        assert("0x"@[1] == 'x' && "0X"@[1] == 'X');
        assert('0' <= plain[1] <= '9');
    }
}

/// A negotiated format is a name and, behind a colon, a layout; without one the layout is
/// that of plain rows.
pub proof fn law_name_and_layout_stand_apart(
    facts: BufferFacts,
    name: Seq<char>,
    layout: Seq<char>,
)
    requires
        facts.drm_format is Some,
        !name.contains(':'),
        !layout.contains(':'),
    ensures
        facts.drm_format->0@ == name + seq![':'] + layout ==> facts.name() == name
            && facts.modifier() == modifier_of(layout),
        facts.drm_format->0@ == name ==> facts.name() == name && facts.modifier() == 0,
{
    law_first_cuts_a_text(name, ':', layout);
    law_first_cuts_a_text(layout, ':', Seq::empty());
}

/// A frame can be shared only where it lies in the memory of the driver under a valid
/// descriptor, in a format that is known, and not with each plane in a piece of its own.
pub proof fn law_only_driver_frames_are_shared(facts: BufferFacts)
    ensures
        facts.is_shareable() ==> facts.is_dmabuf && facts.fd >= 0 && fourcc_named(facts.name())
            is Some,
        facts.is_shareable() && plane_count(fourcc_named(facts.name())->0) > 1 ==> facts.n_memory
            < plane_count(fourcc_named(facts.name())->0),
        facts.is_dmabuf && facts.fd >= 0 && fourcc_named(facts.name()) == Some(Fourcc::Nv12)
            && facts.n_memory <= 1 && facts.meta is Some && facts.meta->0.strides@.len() >= 2
            && facts.meta->0.offsets@.len() >= 2 ==> facts.is_shareable(),
        facts.meta is Some && fourcc_named(facts.name()) == Some(Fourcc::Nv12)
            && facts.meta->0.strides@.len() < 2 ==> !facts.is_shareable(),
{
}

/// A frame rate counts where it is above zero and finite; without one a frame lasts 33 ms.
pub proof fn law_frames_last_as_long_as_their_rate_says(
    metadata: VideoMetadata,
    interval: Duration,
)
    ensures
        metadata.has_frame_rate() ==> metadata.frame_duration(interval) == interval
            && is_positive_float(metadata.frame_rate_bits),
        !metadata.has_frame_rate() ==> metadata.frame_duration(interval).nanos == 33_000_000,
        metadata.frame_rate_bits == 0 || metadata.frame_rate_bits >= 0x7F80_0000
            ==> !metadata.has_frame_rate(),
        metadata.frame_rate_bits == 0 || metadata.frame_rate_bits > 0x7F80_0000
            ==> !is_positive_float(metadata.frame_rate_bits),
        0 < metadata.frame_rate_bits < 0x7F80_0000 ==> metadata.has_frame_rate(),
{
}

/// A state has a position while there is playback, and can be played from where that rests.
pub proof fn law_states_with_a_position(state: VideoState, position: Duration)
    ensures
        state.position() is Some <==> state is Playing || state is Paused || state is Buffering,
        (VideoState::Playing { position }).position() == Some(position),
        (VideoState::Paused { position }).position() == Some(position),
        (VideoState::Buffering { position }).position() == Some(position),
        state.can_play() <==> state is Ready || state is Paused || state is Ended,
        state.is_playing() <==> state is Playing,
{
}

} // verus!
