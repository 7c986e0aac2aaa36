//! JPEG XL: the header is read by the JPEG XL decoder; the result is put
//! together here.

use vstd::prelude::*;
use crate::format::ImageFormat;
use crate::probe::{format_only, format_only_result, ProbeResult};

verus! {

/// What the JPEG XL decoder reads from the header of `data`: width, height,
/// alpha, animation and bits per sample; `None` where it rejects the data
/// or needs more of it.
pub uninterp spec fn jxl_header(data: Seq<u8>) -> Option<(u32, u32, bool, bool, Option<u8>)>;

/// Calls `zenjxl::probe`, which parses the file header with fixed decoder
/// limits and decodes no frame. The contract names the outcome: the five
/// header fields that the library uses on success, nothing on any error.
#[verifier::external_body]
fn read_jxl_header(data: &[u8]) -> (r: Option<(u32, u32, bool, bool, Option<u8>)>)
    ensures
        r == jxl_header(data@),
{
    match zenjxl::probe(data) {
        Ok(info) => Some(
            (info.width, info.height, info.has_alpha, info.has_animation, info.bit_depth),
        ),
        Err(_) => None,
    }
}

/// What a JPEG XL input of `len` bytes tells, given what the decoder read
/// from its header. The decoder is handed all bytes, so all count as
/// examined. Frames are not counted.
pub open spec fn spec_probe_jxl(len: int, header: Option<(u32, u32, bool, bool, Option<u8>)>) -> ProbeResult {
    match header {
        Some(h) => ProbeResult {
            format: ImageFormat::Jxl,
            width: Some(h.0),
            height: Some(h.1),
            has_alpha: Some(h.2),
            has_animation: Some(h.3),
            frame_count: None,
            bit_depth: h.4,
            bytes_examined: len as usize,
        },
        None => format_only(ImageFormat::Jxl, len),
    }
}

/// The probe result for a JPEG XL input of `len` bytes whose header the
/// decoder read as `header`.
pub fn jxl_result(len: usize, header: Option<(u32, u32, bool, bool, Option<u8>)>) -> (r: ProbeResult)
    ensures
        r == spec_probe_jxl(len as int, header),
{
    match header {
        Some(h) => ProbeResult {
            format: ImageFormat::Jxl,
            width: Some(h.0),
            height: Some(h.1),
            has_alpha: Some(h.2),
            has_animation: Some(h.3),
            frame_count: None,
            bit_depth: h.4,
            bytes_examined: len,
        },
        None => format_only_result(ImageFormat::Jxl, len),
    }
}

/// Probe a JPEG XL prefix.
pub fn probe_jxl(data: &[u8]) -> (r: ProbeResult)
    ensures
        r == spec_probe_jxl(data@.len() as int, jxl_header(data@)),
{
    jxl_result(data.len(), read_jxl_header(data))
}

} // verus!
