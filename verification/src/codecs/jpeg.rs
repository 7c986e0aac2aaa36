//! JPEG header probe through `zenjpeg`.

use vstd::prelude::*;
use crate::codecs::{codec_failure, is_codec_failure};
use crate::error::CodecError;
use crate::format::ImageFormat;
use crate::info::{bytes_of, ImageInfo, ImageInfoView};

verus! {

/// What the JPEG decoder reads from the header of `data`: width, height,
/// ICC profile, EXIF data and XMP text as bytes; or its error text.
pub uninterp spec fn jpeg_header(data: Seq<u8>) -> Result<
    (u32, u32, Option<Seq<u8>>, Option<Seq<u8>>, Option<Seq<u8>>),
    Seq<char>,
>;

/// The view of what `read_jpeg_header` hands back.
pub open spec fn jpeg_header_view(
    r: Result<(u32, u32, Option<Vec<u8>>, Option<Vec<u8>>, Option<Vec<u8>>), String>,
) -> Result<(u32, u32, Option<Seq<u8>>, Option<Seq<u8>>, Option<Seq<u8>>), Seq<char>> {
    match r {
        Ok(h) => Ok((h.0, h.1, bytes_of(h.2), bytes_of(h.3), bytes_of(h.4))),
        Err(e) => Err(e@),
    }
}

/// Calls `zenjpeg::decoder::Decoder::read_info` with the default decoder
/// configuration, which parses the segments up to the first scan, and
/// copies five fields out of the `JpegInfo`. The contract names the outcome
/// and claims nothing else.
#[verifier::external_body]
fn read_jpeg_header(data: &[u8]) -> (r: Result<
    (u32, u32, Option<Vec<u8>>, Option<Vec<u8>>, Option<Vec<u8>>),
    String,
>)
    ensures
        jpeg_header_view(r) == jpeg_header(data@),
{
    let info = zenjpeg::decoder::Decoder::new().read_info(data).map_err(|e| e.to_string())?;
    Ok(
        (
            info.dimensions.width,
            info.dimensions.height,
            info.icc_profile,
            info.exif,
            info.xmp.map(|s| s.into_bytes()),
        ),
    )
}

/// The record for a JPEG header: never alpha, never animated, one frame.
pub open spec fn jpeg_info(h: (u32, u32, Option<Seq<u8>>, Option<Seq<u8>>, Option<Seq<u8>>)) -> ImageInfoView {
    ImageInfoView {
        width: h.0,
        height: h.1,
        format: ImageFormat::Jpeg,
        has_alpha: false,
        has_animation: false,
        frame_count: Some(1u32),
        icc_profile: h.2,
        exif: h.3,
        xmp: h.4,
    }
}

/// The record for what the JPEG decoder read from a header.
pub fn info_from_jpeg_header(h: (u32, u32, Option<Vec<u8>>, Option<Vec<u8>>, Option<Vec<u8>>)) -> (r: ImageInfo)
    ensures
        r@ == jpeg_info((h.0, h.1, bytes_of(h.2), bytes_of(h.3), bytes_of(h.4))),
{
    ImageInfo {
        width: h.0,
        height: h.1,
        format: ImageFormat::Jpeg,
        has_alpha: false,
        has_animation: false,
        frame_count: Some(1),
        icc_profile: h.2,
        exif: h.3,
        xmp: h.4,
    }
}

/// What the JPEG probe returns for `s`.
pub open spec fn jpeg_probe_outcome(r: Result<ImageInfo, CodecError>, s: Seq<u8>) -> bool {
    match jpeg_header(s) {
        Ok(h) => r matches Ok(info) && info@ == jpeg_info(h),
        Err(text) => is_codec_failure(r, ImageFormat::Jpeg, text),
    }
}

/// Probe JPEG metadata without decoding pixels.
pub fn probe(data: &[u8]) -> (r: Result<ImageInfo, CodecError>)
    ensures
        jpeg_probe_outcome(r, data@),
{
    match read_jpeg_header(data) {
        Ok(h) => Ok(info_from_jpeg_header(h)),
        Err(text) => codec_failure(ImageFormat::Jpeg, text),
    }
}

} // verus!
