//! PNG: 8-byte signature, then the IHDR chunk (4 length, 4 tag, 13 data,
//! 4 CRC): 33 bytes hold dimensions, bit depth and colour type.

use vstd::prelude::*;
use crate::bytes::{be_u32, fourcc_at, has_fourcc, read_be_u32};
use crate::format::ImageFormat;
use crate::probe::{format_only, format_only_result, min_int, min_usize, ProbeResult};

verus! {

/// The whole IHDR chunk is present and tagged `IHDR` at offset 12.
pub open spec fn png_header_visible(s: Seq<u8>) -> bool {
    s.len() >= 33 && fourcc_at(s, 12, 0x49, 0x48, 0x44, 0x52)
}

/// Colour types 4 (grey with alpha) and 6 (RGBA) carry an alpha channel.
pub open spec fn png_color_type_has_alpha(color_type: u8) -> bool {
    color_type == 4 || color_type == 6
}

/// What a PNG prefix tells: width and height are the big-endian words at 16
/// and 20, bit depth the byte at 24, colour type the byte at 25. Animation
/// is never looked for.
pub open spec fn spec_probe_png(s: Seq<u8>) -> ProbeResult {
    if png_header_visible(s) {
        ProbeResult {
            format: ImageFormat::Png,
            width: Some(be_u32(s, 16) as u32),
            height: Some(be_u32(s, 20) as u32),
            has_alpha: Some(png_color_type_has_alpha(s[25])),
            has_animation: None,
            frame_count: None,
            bit_depth: Some(s[24]),
            bytes_examined: 33,
        }
    } else {
        format_only(ImageFormat::Png, min_int(s.len() as int, 33))
    }
}

/// Probe a PNG prefix.
pub fn probe_png(data: &[u8]) -> (r: ProbeResult)
    ensures
        r == spec_probe_png(data@),
{
    let examined = min_usize(data.len(), 33);
    if data.len() < 33 {
        return format_only_result(ImageFormat::Png, examined);
    }
    if !has_fourcc(data, 12, 0x49, 0x48, 0x44, 0x52) {
        return format_only_result(ImageFormat::Png, examined);
    }
    let width = read_be_u32(data, 16);
    let height = read_be_u32(data, 20);
    let bit_depth = data[24];
    let color_type = data[25];
    ProbeResult {
        format: ImageFormat::Png,
        width: Some(width),
        height: Some(height),
        has_alpha: Some(color_type == 4 || color_type == 6),
        has_animation: None,
        frame_count: None,
        bit_depth: Some(bit_depth),
        bytes_examined: examined,
    }
}

} // verus!
