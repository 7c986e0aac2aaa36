//! GIF: 6-byte signature, then the 7-byte logical screen descriptor.

use vstd::prelude::*;
use crate::bytes::{le_u16, read_le_u16};
use crate::format::ImageFormat;
use crate::probe::{format_only, format_only_result, min_usize, ProbeResult};

verus! {

/// What a GIF prefix tells: width and height are the little-endian 16-bit
/// words at 6 and 8. Transparency is always possible, the depth is 8, and
/// frames are not counted.
pub open spec fn spec_probe_gif(s: Seq<u8>) -> ProbeResult {
    if s.len() >= 13 {
        ProbeResult {
            format: ImageFormat::Gif,
            width: Some(le_u16(s, 6) as u32),
            height: Some(le_u16(s, 8) as u32),
            has_alpha: Some(true),
            has_animation: None,
            frame_count: None,
            bit_depth: Some(8),
            bytes_examined: 13,
        }
    } else {
        format_only(ImageFormat::Gif, s.len() as int)
    }
}

/// Probe a GIF prefix.
pub fn probe_gif(data: &[u8]) -> (r: ProbeResult)
    ensures
        r == spec_probe_gif(data@),
{
    let examined = min_usize(data.len(), 13);
    if data.len() < 13 {
        return format_only_result(ImageFormat::Gif, examined);
    }
    let width = read_le_u16(data, 6);
    let height = read_le_u16(data, 8);
    ProbeResult {
        format: ImageFormat::Gif,
        width: Some(width as u32),
        height: Some(height as u32),
        has_alpha: Some(true),
        has_animation: None,
        frame_count: None,
        bit_depth: Some(8),
        bytes_examined: examined,
    }
}

} // verus!
