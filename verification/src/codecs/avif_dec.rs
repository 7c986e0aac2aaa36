//! AVIF probe through `zenavif`.

use vstd::prelude::*;
use crate::codecs::{codec_failure, is_codec_failure};
use crate::error::CodecError;
use crate::format::ImageFormat;
use crate::info::{ImageInfo, ImageInfoView};

verus! {

/// What the AVIF decoder reports of the image it decodes from `data` with
/// default settings: width, height and whether it carries alpha; or its
/// error text.
pub uninterp spec fn avif_decoded(data: Seq<u8>) -> Result<(u32, u32, bool), Seq<char>>;

/// The view of what `decode_avif_shape` hands back.
pub open spec fn avif_decoded_view(r: Result<(u32, u32, bool), String>) -> Result<
    (u32, u32, bool),
    Seq<char>,
> {
    match r {
        Ok(h) => Ok(h),
        Err(e) => Err(e@),
    }
}

/// Calls `zenavif::decode`, which decodes the whole image with default
/// settings, and reads width, height and the alpha flag off the pixel
/// buffer. The contract names the outcome and claims nothing else.
#[verifier::external_body]
fn decode_avif_shape(data: &[u8]) -> (r: Result<(u32, u32, bool), String>)
    ensures
        avif_decoded_view(r) == avif_decoded(data@),
{
    let image = zenavif::decode(data).map_err(|e| e.to_string())?;
    Ok((image.width(), image.height(), image.has_alpha()))
}

/// The record for a decoded AVIF: one still frame, no embedded metadata.
pub open spec fn avif_info(h: (u32, u32, bool)) -> ImageInfoView {
    ImageInfoView {
        width: h.0,
        height: h.1,
        format: ImageFormat::Avif,
        has_alpha: h.2,
        has_animation: false,
        frame_count: Some(1u32),
        icc_profile: None,
        exif: None,
        xmp: None,
    }
}

/// The record for what the AVIF decoder reported.
pub fn info_from_avif_shape(h: (u32, u32, bool)) -> (r: ImageInfo)
    ensures
        r@ == avif_info(h),
{
    ImageInfo {
        width: h.0,
        height: h.1,
        format: ImageFormat::Avif,
        has_alpha: h.2,
        has_animation: false,
        frame_count: Some(1),
        icc_profile: None,
        exif: None,
        xmp: None,
    }
}

/// What the AVIF probe returns for `s`.
pub open spec fn avif_probe_outcome(r: Result<ImageInfo, CodecError>, s: Seq<u8>) -> bool {
    match avif_decoded(s) {
        Ok(h) => r matches Ok(info) && info@ == avif_info(h),
        Err(text) => is_codec_failure(r, ImageFormat::Avif, text),
    }
}

/// Probe AVIF metadata. The decoder offers no header-only entry point, so
/// the image is decoded.
pub fn probe(data: &[u8]) -> (r: Result<ImageInfo, CodecError>)
    ensures
        avif_probe_outcome(r, data@),
{
    match decode_avif_shape(data) {
        Ok(h) => Ok(info_from_avif_shape(h)),
        Err(text) => codec_failure(ImageFormat::Avif, text),
    }
}

} // verus!
