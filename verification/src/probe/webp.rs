//! WebP: the 12-byte RIFF prologue, then one of three first chunks.
//!
//! - `VP8X` (extended): flags at byte 20, canvas size at 24..30.
//! - `VP8 ` (lossy): start code at 23..26, frame size at 26..30.
//! - `VP8L` (lossless): signature byte at 20, packed size at 21..25.

use vstd::prelude::*;
use crate::bytes::{fourcc_at, has_fourcc, le_u16, le_u24, le_u32, read_le_u16, read_le_u24, read_le_u32};
use crate::format::ImageFormat;
use crate::probe::{format_only, format_only_result, min_int, min_usize, ProbeResult};

verus! {

/// An extended header is visible: the `VP8X` tag and all 30 bytes.
pub open spec fn webp_is_extended(s: Seq<u8>) -> bool {
    s.len() >= 30 && fourcc_at(s, 12, 0x56, 0x50, 0x38, 0x58)
}

/// A lossy key frame header is visible: the `VP8 ` tag, all 30 bytes, and
/// the start code `9D 01 2A` at offset 23.
pub open spec fn webp_is_lossy(s: Seq<u8>) -> bool {
    s.len() >= 30 && fourcc_at(s, 12, 0x56, 0x50, 0x38, 0x20) && s[23] == 0x9D && s[24] == 0x01
        && s[25] == 0x2A
}

/// A lossless header is visible: the `VP8L` tag, 25 bytes, and the signature
/// byte `2F` at offset 20.
pub open spec fn webp_is_lossless(s: Seq<u8>) -> bool {
    s.len() >= 25 && fourcc_at(s, 12, 0x56, 0x50, 0x38, 0x4C) && s[20] == 0x2F
}

/// What a WebP prefix tells.
///
/// Extended: flag bit `0x10` is alpha and `0x02` animation; the canvas width
/// and height are the 24-bit little-endian values at 24 and 27, each one
/// less than the dimension. Lossy: width and height are the low 14 bits of
/// the little-endian words at 26 and 28. Lossless: the 32-bit little-endian
/// word at 21 holds width less one in bits 0 to 13 and height less one in
/// bits 14 to 27.
pub open spec fn spec_probe_webp(s: Seq<u8>) -> ProbeResult {
    let examined = min_int(s.len() as int, 30) as usize;
    if webp_is_extended(s) {
        ProbeResult {
            format: ImageFormat::WebP,
            width: Some((le_u24(s, 24) + 1) as u32),
            height: Some((le_u24(s, 27) + 1) as u32),
            has_alpha: Some(s[20] & 0x10 != 0),
            has_animation: Some(s[20] & 0x02 != 0),
            frame_count: None,
            bit_depth: Some(8),
            bytes_examined: examined,
        }
    } else if webp_is_lossy(s) {
        ProbeResult {
            format: ImageFormat::WebP,
            width: Some((le_u16(s, 26) % 0x4000) as u32),
            height: Some((le_u16(s, 28) % 0x4000) as u32),
            has_alpha: Some(false),
            has_animation: Some(false),
            frame_count: None,
            bit_depth: Some(8),
            bytes_examined: examined,
        }
    } else if webp_is_lossless(s) {
        ProbeResult {
            format: ImageFormat::WebP,
            width: Some((le_u32(s, 21) % 0x4000 + 1) as u32),
            height: Some(((le_u32(s, 21) / 0x4000) % 0x4000 + 1) as u32),
            has_alpha: Some(true),
            has_animation: Some(false),
            frame_count: None,
            bit_depth: Some(8),
            bytes_examined: examined,
        }
    } else {
        format_only(ImageFormat::WebP, examined as int)
    }
}

/// Probe a WebP prefix.
pub fn probe_webp(data: &[u8]) -> (r: ProbeResult)
    ensures
        r == spec_probe_webp(data@),
{
    let examined = min_usize(data.len(), 30);
    if data.len() < 16 {
        return format_only_result(ImageFormat::WebP, examined);
    }
    if has_fourcc(data, 12, 0x56, 0x50, 0x38, 0x58) {
        if data.len() < 30 {
            return format_only_result(ImageFormat::WebP, examined);
        }
        let flags = data[20];
        let canvas_w = read_le_u24(data, 24);
        let canvas_h = read_le_u24(data, 27);
        ProbeResult {
            format: ImageFormat::WebP,
            width: Some(canvas_w + 1),
            height: Some(canvas_h + 1),
            has_alpha: Some((flags & 0x10) != 0),
            has_animation: Some((flags & 0x02) != 0),
            frame_count: None,
            bit_depth: Some(8),
            bytes_examined: examined,
        }
    } else if has_fourcc(data, 12, 0x56, 0x50, 0x38, 0x20) {
        if data.len() < 30 {
            return format_only_result(ImageFormat::WebP, examined);
        }
        if data[23] == 0x9D && data[24] == 0x01 && data[25] == 0x2A {
            let w = read_le_u16(data, 26);
            let h = read_le_u16(data, 28);
            let width = w & 0x3FFF;
            let height = h & 0x3FFF;
            proof {
                assert(w & 0x3FFF == w % 0x4000) by (bit_vector);
                assert(h & 0x3FFF == h % 0x4000) by (bit_vector);
            }
            ProbeResult {
                format: ImageFormat::WebP,
                width: Some(width as u32),
                height: Some(height as u32),
                has_alpha: Some(false),
                has_animation: Some(false),
                frame_count: None,
                bit_depth: Some(8),
                bytes_examined: examined,
            }
        } else {
            format_only_result(ImageFormat::WebP, examined)
        }
    } else if has_fourcc(data, 12, 0x56, 0x50, 0x38, 0x4C) {
        if data.len() < 25 {
            return format_only_result(ImageFormat::WebP, examined);
        }
        if data[20] == 0x2F {
            let bits = read_le_u32(data, 21);
            proof {
                assert(bits & 0x3FFF == bits % 0x4000) by (bit_vector);
                assert((bits >> 14) & 0x3FFF == (bits / 0x4000) % 0x4000) by (bit_vector);
                assert(bits & 0x3FFF < 0x4000) by (bit_vector);
                assert((bits >> 14) & 0x3FFF < 0x4000) by (bit_vector);
            }
            let width = (bits & 0x3FFF) + 1;
            let height = ((bits >> 14) & 0x3FFF) + 1;
            ProbeResult {
                format: ImageFormat::WebP,
                width: Some(width),
                height: Some(height),
                has_alpha: Some(true),
                has_animation: Some(false),
                frame_count: None,
                bit_depth: Some(8),
                bytes_examined: examined,
            }
        } else {
            format_only_result(ImageFormat::WebP, examined)
        }
    } else {
        format_only_result(ImageFormat::WebP, examined)
    }
}

} // verus!
