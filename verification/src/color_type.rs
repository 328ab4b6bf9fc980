//! How pixel bits encode color, and how many bytes a pixel takes.
use vstd::prelude::*;

verus! {

/// Describes how pixel bits encode color. A pixel may be an alpha mask, a grayscale, RGB, or ARGB.
///
/// The names of each variant implicitly define the channel ordering and size in memory. Due to
/// historical reasons the names do not follow 100% identical convention, but are typically labeled
/// from least significant to most significant.
///
/// Unless specified otherwise, a channel's value is treated as an unsigned integer with a range of
/// [0, 2^N-1] and this is mapped uniformly to a floating point value of [0.0, 1.0]. Some color
/// types instead store data directly in 32-bit floating point (assumed to be IEEE), or in 16-bit
/// "half" floating point values.
///
/// Note: By default, Skia operates with the assumption of a little-Endian system. The bit patterns
/// shown in the documentation assume LE byte order.
#[derive(Clone, Copy, PartialEq, Eq, Structural, Hash, Debug)]
pub enum ColorType {
    /// Unknown or unrepresentable as an SkColorType.
    Unknown,
    /// Single channel data (8-bit) interpreted as an alpha value. RGB are 0.
    /// Bits: [A:7..0]
    Alpha8,
    /// Three channel BGR data (5 bits red, 6 bits green, 5 bits blue) packed into a LE 16-bit word.
    /// Bits: [R:15..11 G:10..5 B:4..0]
    RGB565,
    /// Four channel ABGR data (4 bits per channel) packed into a LE 16-bit word.
    /// Bits: [R:15..12 G:11..8 B:7..4 A:3..0]
    ARGB4444,
    /// Four channel RGBA data (8 bits per channel) packed into a LE 32-bit word.
    /// Bits: [A:31..24 B:23..16 G:15..8 R:7..0]
    RGBA8888,
    /// Three channel RGB data (8 bits per channel) packed into a LE 32-bit word. The remaining bits
    /// are ignored and alpha is forced to opaque.
    /// Bits: [x:31..24 B:23..16 G:15..8 R:7..0]
    RGB888x,
    /// Four channel BGRA data (8 bits per channel) packed into a LE 32-bit word. R and B are swapped
    /// relative to RGBA8888.
    /// Bits: [A:31..24 R:23..16 G:15..8 B:7..0]
    BGRA8888,
    /// Four channel RGBA data (10 bits per color, 2 bits for alpha) packed into a LE 32-bit word.
    /// Bits: [A:31..30 B:29..20 G:19..10 R:9..0]
    RGBA1010102,
    /// Four channel BGRA data (10 bits per color, 2 bits for alpha) packed into a LE 32-bit word.
    /// R and B are swapped relative to RGBA1010102.
    /// Bits: [A:31..30 R:29..20 G:19..10 B:9..0]
    BGRA1010102,
    /// Three channel RGB data (10 bits per channel) packed into a LE 32-bit word. The remaining bits
    /// are ignored and alpha is forced to opaque.
    /// Bits: [x:31..30 B:29..20 G:19..10 R:9..0]
    RGB101010x,
    /// Three channel BGR data (10 bits per channel) packed into a LE 32-bit word. The remaining bits
    /// are ignored and alpha is forced to opaque. R and B are swapped relative to RGB101010x.
    /// Bits: [x:31..30 R:29..20 G:19..10 B:9..0]
    BGR101010x,
    /// Three channel BGR data (10 bits per channel) packed into a LE 32-bit word. The remaining bits
    /// are ignored and alpha is forced to opaque. Instead of normalizing [0, 1023] to [0.0, 1.0] the
    /// color channels map to an extended range of [-0.752941, 1.25098].
    /// Bits: [x:31..30 R:29..20 G:19..10 B:9..0]
    BGR101010xXR,
    /// Four channel BGRA data (10 bits per channel) packed into a LE 64-bit word. Each channel is
    /// preceded by 6 bits of padding. Instead of normalizing [0, 1023] to [0.0, 1.0] the color and
    /// alpha channels map to an extended range of [-0.752941, 1.25098].
    /// Bits: [A:63..54 x:53..48 R:47..38 x:37..32 G:31..22 x:21..16 B:15..6 x:5..0]
    BGRA10101010XR,
    /// Four channel RGBA data (10 bits per channel) packed into a LE 64-bit word. Each channel is
    /// preceded by 6 bits of padding.
    /// Bits: [A:63..54 x:53..48 B:47..38 x:37..32 G:31..22 x:21..16 R:15..6 x:5..0]
    RGBA10x6,
    /// Single channel data (8-bit) interpreted as a grayscale value (e.g. replicated to RGB).
    /// Bits: [G:7..0]
    Gray8,
    /// Four channel RGBA data (16-bit half-float per channel) packed into a LE 64-bit word. Values
    /// are assumed to be in [0.0,1.0] range, unlike RGBAF16.
    /// Bits: [A:63..48 B:47..32 G:31..16 R:15..0]
    RGBAF16Norm,
    /// Four channel RGBA data (16-bit half-float per channel) packed into a LE 64-bit word.
    /// This has extended range compared to RGBAF16Norm.
    /// Bits: [A:63..48 B:47..32 G:31..16 R:15..0]
    RGBAF16,
    /// Three channel RGB data (16-bit half-float per channel) packed into a LE 64-bit word. The last
    /// 16 bits are ignored and alpha is forced to opaque.
    /// Bits: [x:63..48 B:47..32 G:31..16 R:15..0]
    RGBF16F16F16x,
    /// Four channel RGBA data (32-bit float per channel) packed into a LE 128-bit word.
    /// Bits: [A:127..96 B:95..64 G:63..32 R:31..0]
    RGBAF32,
    /// Two channel RG data (8 bits per channel). Blue is forced to 0, alpha is forced to opaque.
    /// Bits: [G:15..8 R:7..0]
    R8G8UNorm,
    /// Single channel data (16-bit half-float) interpreted as alpha. RGB are 0.
    /// Bits: [A:15..0]
    A16Float,
    /// Two channel RG data (16-bit half-float per channel) packed into a LE 32-bit word.
    /// Blue is forced to 0, alpha is forced to opaque.
    /// Bits: [G:31..16 R:15..0]
    R16G16Float,
    /// Single channel data (16 bits) interpreted as alpha. RGB are 0.
    /// Bits: [A:15..0]
    A16UNorm,
    /// Single channel data (16 bits) interpreted as red. G and B are forced to 0, alpha is forced to
    /// opaque.
    /// Bits: [R:15..0]
    R16UNorm,
    /// Two channel RG data (16 bits per channel) packed into a LE 32-bit word. B is forced to 0,
    /// alpha is forced to opaque.
    /// Bits: [G:31..16 R:15..0]
    R16G16UNorm,
    /// Four channel RGBA data (16 bits per channel) packed into a LE 64-bit word.
    /// Bits: [A:63..48 B:47..32 G:31..16 R:15..0]
    R16G16B16A16UNorm,
    /// Four channel RGBA data (8 bits per channel) packed into a LE 32-bit word. The RGB values are
    /// assumed to be encoded with the sRGB transfer function.
    /// Bits: [A:31..24 B:23..16 G:15..8 R:7..0]
    SRGBA8888,
    /// Single channel data (8 bits) interpreted as red. G and B are forced to 0, alpha is forced to
    /// opaque.
    /// Bits: [R:7..0]
    R8UNorm,
}

/// The number of bytes of a pixel of the color type, as its bit layout
/// gives it (`0` for the unknown type).
pub open spec fn spec_bytes_per_pixel(ct: ColorType) -> nat {
    match ct {
        ColorType::Unknown => 0,
        ColorType::Alpha8 => 1,
        ColorType::RGB565 => 2,
        ColorType::ARGB4444 => 2,
        ColorType::RGBA8888 => 4,
        ColorType::RGB888x => 4,
        ColorType::BGRA8888 => 4,
        ColorType::RGBA1010102 => 4,
        ColorType::BGRA1010102 => 4,
        ColorType::RGB101010x => 4,
        ColorType::BGR101010x => 4,
        ColorType::BGR101010xXR => 4,
        ColorType::BGRA10101010XR => 8,
        ColorType::RGBA10x6 => 8,
        ColorType::Gray8 => 1,
        ColorType::RGBAF16Norm => 8,
        ColorType::RGBAF16 => 8,
        ColorType::RGBF16F16F16x => 8,
        ColorType::RGBAF32 => 16,
        ColorType::R8G8UNorm => 2,
        ColorType::A16Float => 2,
        ColorType::R16G16Float => 4,
        ColorType::A16UNorm => 2,
        ColorType::R16UNorm => 2,
        ColorType::R16G16UNorm => 4,
        ColorType::R16G16B16A16UNorm => 8,
        ColorType::SRGBA8888 => 4,
        ColorType::R8UNorm => 1,
    }
}

/// The base-2 logarithm of the bytes of a pixel of the color type (`0` for
/// the unknown type).
pub open spec fn spec_shift_per_pixel(ct: ColorType) -> nat {
    let b = spec_bytes_per_pixel(ct);
    if b == 16 {
        4
    } else if b == 8 {
        3
    } else if b == 4 {
        2
    } else if b == 2 {
        1
    } else {
        0
    }
}

impl ColorType {
    /// The number of color types.
    pub const COUNT: usize = 28usize;

    /// The number of bytes of a pixel.
    pub fn bytes_per_pixel(self) -> (r: usize)
        ensures
            r == spec_bytes_per_pixel(self),
    {
        match self {
            ColorType::Unknown => 0,
            ColorType::Alpha8 => 1,
            ColorType::RGB565 => 2,
            ColorType::ARGB4444 => 2,
            ColorType::RGBA8888 => 4,
            ColorType::RGB888x => 4,
            ColorType::BGRA8888 => 4,
            ColorType::RGBA1010102 => 4,
            ColorType::BGRA1010102 => 4,
            ColorType::RGB101010x => 4,
            ColorType::BGR101010x => 4,
            ColorType::BGR101010xXR => 4,
            ColorType::BGRA10101010XR => 8,
            ColorType::RGBA10x6 => 8,
            ColorType::Gray8 => 1,
            ColorType::RGBAF16Norm => 8,
            ColorType::RGBAF16 => 8,
            ColorType::RGBF16F16F16x => 8,
            ColorType::RGBAF32 => 16,
            ColorType::R8G8UNorm => 2,
            ColorType::A16Float => 2,
            ColorType::R16G16Float => 4,
            ColorType::A16UNorm => 2,
            ColorType::R16UNorm => 2,
            ColorType::R16G16UNorm => 4,
            ColorType::R16G16B16A16UNorm => 8,
            ColorType::SRGBA8888 => 4,
            ColorType::R8UNorm => 1,
        }
    }

    /// The base-2 logarithm of the number of bytes of a pixel.
    pub fn shift_per_pixel(self) -> (r: usize)
        ensures
            r == spec_shift_per_pixel(self),
    {
        match self {
            ColorType::Unknown => 0,
            ColorType::Alpha8 => 0,
            ColorType::RGB565 => 1,
            ColorType::ARGB4444 => 1,
            ColorType::RGBA8888 => 2,
            ColorType::RGB888x => 2,
            ColorType::BGRA8888 => 2,
            ColorType::RGBA1010102 => 2,
            ColorType::BGRA1010102 => 2,
            ColorType::RGB101010x => 2,
            ColorType::BGR101010x => 2,
            ColorType::BGR101010xXR => 2,
            ColorType::BGRA10101010XR => 3,
            ColorType::RGBA10x6 => 3,
            ColorType::Gray8 => 0,
            ColorType::RGBAF16Norm => 3,
            ColorType::RGBAF16 => 3,
            ColorType::RGBF16F16F16x => 3,
            ColorType::RGBAF32 => 4,
            ColorType::R8G8UNorm => 1,
            ColorType::A16Float => 1,
            ColorType::R16G16Float => 2,
            ColorType::A16UNorm => 1,
            ColorType::R16UNorm => 1,
            ColorType::R16G16UNorm => 2,
            ColorType::R16G16B16A16UNorm => 3,
            ColorType::SRGBA8888 => 2,
            ColorType::R8UNorm => 0,
        }
    }
}

/// A pixel takes `2^shift` bytes, for every color type but the unknown one,
/// whose pixels take no bytes; the shift is at most 4.
pub proof fn lemma_shift_matches_bytes(ct: ColorType)
    ensures
        spec_shift_per_pixel(ct) <= 4,
        ct != ColorType::Unknown ==> spec_bytes_per_pixel(ct) == vstd::arithmetic::power2::pow2(
            spec_shift_per_pixel(ct),
        ),
        ct == ColorType::Unknown <==> spec_bytes_per_pixel(ct) == 0,
{
    vstd::arithmetic::power2::lemma2_to64();
}

/// The size of a pixel is the width of the color type's documented bit
/// layout: 1 byte for the 8-bit types, 2 for the 16-bit ones, 4 for the
/// 32-bit ones, 8 for the 64-bit ones and 16 for the 128-bit one, with
/// shifts 0, 1, 2, 3 and 4.  A type and its channel-swapped twin (RGBA and
/// BGRA, RGB and BGR) have the same size.
pub proof fn lemma_bytes_follow_layout(ct: ColorType)
    ensures
        (ct is Alpha8 || ct is Gray8 || ct is R8UNorm) ==> (spec_bytes_per_pixel(ct) == 1
            && spec_shift_per_pixel(ct) == 0),
        (ct is RGB565 || ct is ARGB4444 || ct is R8G8UNorm || ct is A16Float || ct is A16UNorm
            || ct is R16UNorm) ==> (spec_bytes_per_pixel(ct) == 2 && spec_shift_per_pixel(ct) == 1),
        (ct is RGBA8888 || ct is RGB888x || ct is BGRA8888 || ct is RGBA1010102 || ct is BGRA1010102
            || ct is RGB101010x || ct is BGR101010x || ct is BGR101010xXR || ct is R16G16Float
            || ct is R16G16UNorm || ct is SRGBA8888) ==> (spec_bytes_per_pixel(ct) == 4
            && spec_shift_per_pixel(ct) == 2),
        (ct is BGRA10101010XR || ct is RGBA10x6 || ct is RGBAF16Norm || ct is RGBAF16
            || ct is RGBF16F16F16x || ct is R16G16B16A16UNorm) ==> (spec_bytes_per_pixel(ct) == 8
            && spec_shift_per_pixel(ct) == 3),
        ct is RGBAF32 ==> (spec_bytes_per_pixel(ct) == 16 && spec_shift_per_pixel(ct) == 4),
        spec_bytes_per_pixel(ColorType::RGBA8888) == spec_bytes_per_pixel(ColorType::BGRA8888),
        spec_bytes_per_pixel(ColorType::RGBA8888) == spec_bytes_per_pixel(ColorType::SRGBA8888),
        spec_bytes_per_pixel(ColorType::RGBA1010102) == spec_bytes_per_pixel(ColorType::BGRA1010102),
        spec_bytes_per_pixel(ColorType::RGB101010x) == spec_bytes_per_pixel(ColorType::BGR101010x),
{
}

} // verus!
