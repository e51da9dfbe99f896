//! The pixel format table: every supported format and its byte width.

use vstd::prelude::*;

verus! {

/// A pixel format the surface can be configured with. The set is closed:
/// every variant has exactly one byte-width entry in the table below.
#[derive(Clone, Copy, PartialEq, Eq, Structural, Debug)]
pub enum PixelFormat {
    R8G8B8A8Unorm,
    R8G8B8X8Unorm,
    R8G8B8Unorm,
    R5G6B5Unorm,
    R16G16B16A16Float,
    R10G10B10A2Unorm,
    Blob,
    D16Unorm,
    D24Unorm,
    D24UnormS8Uint,
    D32Float,
    D32FloatS8Uint,
    S8Uint,
    Y8Cb8Cr8420,
}

/// The byte width of one pixel under the given format.
pub open spec fn spec_bytes_per_pixel(format: PixelFormat) -> int {
    match format {
        PixelFormat::R8G8B8A8Unorm => 4,
        PixelFormat::R8G8B8X8Unorm => 4,
        PixelFormat::R8G8B8Unorm => 3,
        PixelFormat::R5G6B5Unorm => 2,
        PixelFormat::R16G16B16A16Float => 8,
        PixelFormat::R10G10B10A2Unorm => 4,
        PixelFormat::Blob => 4,
        PixelFormat::D16Unorm => 2,
        PixelFormat::D24Unorm => 3,
        PixelFormat::D24UnormS8Uint => 3,
        PixelFormat::D32Float => 4,
        PixelFormat::D32FloatS8Uint => 4,
        PixelFormat::S8Uint => 1,
        PixelFormat::Y8Cb8Cr8420 => 3,
    }
}

/// The pixel format table is total over the closed enumeration (the match
/// covers every variant) and maps each format to its byte width, one of
/// 1, 2, 3, 4 or 8 bytes.
pub fn bytes_per_pixel(format: PixelFormat) -> (bpp: u32)
    ensures
        bpp == spec_bytes_per_pixel(format),
        bpp == 1 || bpp == 2 || bpp == 3 || bpp == 4 || bpp == 8,
{
    match format {
        PixelFormat::R8G8B8A8Unorm => 4,
        PixelFormat::R8G8B8X8Unorm => 4,
        PixelFormat::R8G8B8Unorm => 3,
        PixelFormat::R5G6B5Unorm => 2,
        PixelFormat::R16G16B16A16Float => 8,
        PixelFormat::R10G10B10A2Unorm => 4,
        PixelFormat::Blob => 4,
        PixelFormat::D16Unorm => 2,
        PixelFormat::D24Unorm => 3,
        PixelFormat::D24UnormS8Uint => 3,
        PixelFormat::D32Float => 4,
        PixelFormat::D32FloatS8Uint => 4,
        PixelFormat::S8Uint => 1,
        PixelFormat::Y8Cb8Cr8420 => 3,
    }
}

/// Every supported pixel format has a byte width in {1, 2, 3, 4, 8}, and the
/// width is at least one byte, so a color of that many bytes is never empty.
pub proof fn lemma_format_table_total(format: PixelFormat)
    ensures
        spec_bytes_per_pixel(format) == 1 || spec_bytes_per_pixel(format) == 2
            || spec_bytes_per_pixel(format) == 3 || spec_bytes_per_pixel(format) == 4
            || spec_bytes_per_pixel(format) == 8,
        1 <= spec_bytes_per_pixel(format) <= 8,
{
}

/// The demo's target color format: 4-byte RGBA, paired with its byte width.
pub fn get_color_format() -> (r: (PixelFormat, u32))
    ensures
        r.0 == PixelFormat::R8G8B8A8Unorm,
        r.1 == spec_bytes_per_pixel(r.0),
{
    let format = PixelFormat::R8G8B8A8Unorm;
    let bpp = bytes_per_pixel(format);
    (format, bpp)
}

} // verus!
