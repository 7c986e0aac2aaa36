//! WebP header probe through `zenwebp`.

use vstd::prelude::*;
use crate::codecs::{codec_failure, is_codec_failure};
use crate::error::CodecError;
use crate::format::ImageFormat;
use crate::info::{bytes_of, ImageInfo, ImageInfoView};

verus! {

/// What the WebP decoder reads from the header of `data`: width, height,
/// alpha, animation, frame count, ICC profile, EXIF and XMP data; or its
/// error text.
pub uninterp spec fn webp_header(data: Seq<u8>) -> Result<
    (u32, u32, bool, bool, u32, Option<Seq<u8>>, Option<Seq<u8>>, Option<Seq<u8>>),
    Seq<char>,
>;

/// The view of what `read_webp_header` hands back.
pub open spec fn webp_header_view(
    r: Result<(u32, u32, bool, bool, u32, Option<Vec<u8>>, Option<Vec<u8>>, Option<Vec<u8>>), String>,
) -> Result<(u32, u32, bool, bool, u32, Option<Seq<u8>>, Option<Seq<u8>>, Option<Seq<u8>>), Seq<char>> {
    match r {
        Ok(h) => Ok((h.0, h.1, h.2, h.3, h.4, bytes_of(h.5), bytes_of(h.6), bytes_of(h.7))),
        Err(e) => Err(e@),
    }
}

/// Calls `zenwebp::ImageInfo::from_webp`, which parses the container
/// headers without decoding the image, and copies eight fields out of the
/// result. The contract names the outcome and claims nothing else.
#[verifier::external_body]
fn read_webp_header(data: &[u8]) -> (r: Result<
    (u32, u32, bool, bool, u32, Option<Vec<u8>>, Option<Vec<u8>>, Option<Vec<u8>>),
    String,
>)
    ensures
        webp_header_view(r) == webp_header(data@),
{
    let info = zenwebp::ImageInfo::from_webp(data).map_err(|e| e.to_string())?;
    Ok(
        (
            info.width,
            info.height,
            info.has_alpha,
            info.has_animation,
            info.frame_count,
            info.icc_profile,
            info.exif,
            info.xmp,
        ),
    )
}

/// The record for a WebP header: every field as the decoder read it.
pub open spec fn webp_info(
    h: (u32, u32, bool, bool, u32, Option<Seq<u8>>, Option<Seq<u8>>, Option<Seq<u8>>),
) -> ImageInfoView {
    ImageInfoView {
        width: h.0,
        height: h.1,
        format: ImageFormat::WebP,
        has_alpha: h.2,
        has_animation: h.3,
        frame_count: Some(h.4),
        icc_profile: h.5,
        exif: h.6,
        xmp: h.7,
    }
}

/// The record for what the WebP decoder read from a header.
pub fn info_from_webp_header(
    h: (u32, u32, bool, bool, u32, Option<Vec<u8>>, Option<Vec<u8>>, Option<Vec<u8>>),
) -> (r: ImageInfo)
    ensures
        r@ == webp_info((h.0, h.1, h.2, h.3, h.4, bytes_of(h.5), bytes_of(h.6), bytes_of(h.7))),
{
    ImageInfo {
        width: h.0,
        height: h.1,
        format: ImageFormat::WebP,
        has_alpha: h.2,
        has_animation: h.3,
        frame_count: Some(h.4),
        icc_profile: h.5,
        exif: h.6,
        xmp: h.7,
    }
}

/// What the WebP probe returns for `s`.
pub open spec fn webp_probe_outcome(r: Result<ImageInfo, CodecError>, s: Seq<u8>) -> bool {
    match webp_header(s) {
        Ok(h) => r matches Ok(info) && info@ == webp_info(h),
        Err(text) => is_codec_failure(r, ImageFormat::WebP, text),
    }
}

/// Probe WebP metadata without decoding pixels.
pub fn probe(data: &[u8]) -> (r: Result<ImageInfo, CodecError>)
    ensures
        webp_probe_outcome(r, data@),
{
    match read_webp_header(data) {
        Ok(h) => Ok(info_from_webp_header(h)),
        Err(text) => codec_failure(ImageFormat::WebP, text),
    }
}

} // verus!
