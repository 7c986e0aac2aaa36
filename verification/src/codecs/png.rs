//! PNG header probe through the `png` crate.

use vstd::prelude::*;
use crate::codecs::{codec_failure, is_codec_failure};
use crate::error::CodecError;
use crate::format::ImageFormat;
use crate::info::{bytes_of, ImageInfo, ImageInfoView};

verus! {

/// What the PNG decoder reads from the chunks in front of the image data of
/// `data`: width, height, colour type code, the frame count of an animation
/// control chunk, the ICC profile and the EXIF data; or its error text.
pub uninterp spec fn png_header(data: Seq<u8>) -> Result<
    (u32, u32, u8, Option<u32>, Option<Seq<u8>>, Option<Seq<u8>>),
    Seq<char>,
>;

/// The view of what `read_png_header` hands back.
pub open spec fn png_header_view(
    r: Result<(u32, u32, u8, Option<u32>, Option<Vec<u8>>, Option<Vec<u8>>), String>,
) -> Result<(u32, u32, u8, Option<u32>, Option<Seq<u8>>, Option<Seq<u8>>), Seq<char>> {
    match r {
        Ok(h) => Ok((h.0, h.1, h.2, h.3, bytes_of(h.4), bytes_of(h.5))),
        Err(e) => Err(e@),
    }
}

/// Calls `png::Decoder::read_info` on the bytes, which reads all chunks up
/// to the image data, and copies six fields out of the `Info` it built. The
/// contract names the outcome and claims nothing else.
#[verifier::external_body]
fn read_png_header(data: &[u8]) -> (r: Result<
    (u32, u32, u8, Option<u32>, Option<Vec<u8>>, Option<Vec<u8>>),
    String,
>)
    ensures
        png_header_view(r) == png_header(data@),
{
    let reader = png::Decoder::new(std::io::Cursor::new(data)).read_info().map_err(|e| e.to_string())?;
    let info = reader.info();
    Ok(
        (
            info.width,
            info.height,
            info.color_type as u8,
            info.animation_control.map(|a| a.num_frames),
            info.icc_profile.as_ref().map(|p| p.to_vec()),
            info.exif_metadata.as_ref().map(|p| p.to_vec()),
        ),
    )
}

/// The record for a PNG header: alpha with colour types 4 and 6; animated
/// where an animation control chunk is present, with its frame count, else
/// one frame; no XMP.
pub open spec fn png_info(h: (u32, u32, u8, Option<u32>, Option<Seq<u8>>, Option<Seq<u8>>)) -> ImageInfoView {
    ImageInfoView {
        width: h.0,
        height: h.1,
        format: ImageFormat::Png,
        has_alpha: h.2 == 4 || h.2 == 6,
        has_animation: h.3.is_some(),
        frame_count: match h.3 {
            Some(n) => Some(n),
            None => Some(1u32),
        },
        icc_profile: h.4,
        exif: h.5,
        xmp: None,
    }
}

/// The record for what the PNG decoder read from a header.
pub fn info_from_png_header(h: (u32, u32, u8, Option<u32>, Option<Vec<u8>>, Option<Vec<u8>>)) -> (r: ImageInfo)
    ensures
        r@ == png_info((h.0, h.1, h.2, h.3, bytes_of(h.4), bytes_of(h.5))),
{
    ImageInfo {
        width: h.0,
        height: h.1,
        format: ImageFormat::Png,
        has_alpha: h.2 == 4 || h.2 == 6,
        has_animation: h.3.is_some(),
        frame_count: match h.3 {
            Some(n) => Some(n),
            None => Some(1),
        },
        icc_profile: h.4,
        exif: h.5,
        xmp: None,
    }
}

/// What the PNG probe returns for `s`.
pub open spec fn png_probe_outcome(r: Result<ImageInfo, CodecError>, s: Seq<u8>) -> bool {
    match png_header(s) {
        Ok(h) => r matches Ok(info) && info@ == png_info(h),
        Err(text) => is_codec_failure(r, ImageFormat::Png, text),
    }
}

/// Probe PNG metadata without decoding pixels.
pub fn probe(data: &[u8]) -> (r: Result<ImageInfo, CodecError>)
    ensures
        png_probe_outcome(r, data@),
{
    match read_png_header(data) {
        Ok(h) => Ok(info_from_png_header(h)),
        Err(text) => codec_failure(ImageFormat::Png, text),
    }
}

} // verus!
