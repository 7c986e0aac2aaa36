//! GIF header probe through `zengif`.

use vstd::prelude::*;
use crate::codecs::{codec_failure, is_codec_failure};
use crate::error::CodecError;
use crate::format::ImageFormat;
use crate::info::{ImageInfo, ImageInfoView};

verus! {

/// What the GIF decoder reads from the logical screen descriptor of `data`
/// when it is opened with default limits: canvas width and height; or its
/// error text.
pub uninterp spec fn gif_header(data: Seq<u8>) -> Result<(u16, u16), Seq<char>>;

/// The view of what `read_gif_header` hands back.
pub open spec fn gif_header_view(r: Result<(u16, u16), String>) -> Result<(u16, u16), Seq<char>> {
    match r {
        Ok(h) => Ok(h),
        Err(e) => Err(e@),
    }
}

/// Calls `zengif::Decoder::new` on the bytes with `Limits::default()` and no
/// cancellation, which validates the header, reads the logical screen
/// descriptor with the global palette and sets up the canvas, and copies
/// width and height out of its metadata. The contract names the outcome
/// and claims nothing else.
#[verifier::external_body]
fn read_gif_header(data: &[u8]) -> (r: Result<(u16, u16), String>)
    ensures
        gif_header_view(r) == gif_header(data@),
{
    let decoder = zengif::Decoder::new(
        std::io::Cursor::new(data),
        zengif::Limits::default(),
        &zengif::Unstoppable,
    ).map_err(|e| e.to_string())?;
    Ok((decoder.metadata().width, decoder.metadata().height))
}

/// The record for a GIF header: transparency is always possible; the file
/// is taken to be animated and its frames are not counted, since that
/// would take a full decode.
pub open spec fn gif_info(h: (u16, u16)) -> ImageInfoView {
    ImageInfoView {
        width: h.0 as u32,
        height: h.1 as u32,
        format: ImageFormat::Gif,
        has_alpha: true,
        has_animation: true,
        frame_count: None,
        icc_profile: None,
        exif: None,
        xmp: None,
    }
}

/// The record for what the GIF decoder read from a header.
pub fn info_from_gif_header(h: (u16, u16)) -> (r: ImageInfo)
    ensures
        r@ == gif_info(h),
{
    ImageInfo {
        width: h.0 as u32,
        height: h.1 as u32,
        format: ImageFormat::Gif,
        has_alpha: true,
        has_animation: true,
        frame_count: None,
        icc_profile: None,
        exif: None,
        xmp: None,
    }
}

/// What the GIF probe returns for `s`.
pub open spec fn gif_probe_outcome(r: Result<ImageInfo, CodecError>, s: Seq<u8>) -> bool {
    match gif_header(s) {
        Ok(h) => r matches Ok(info) && info@ == gif_info(h),
        Err(text) => is_codec_failure(r, ImageFormat::Gif, text),
    }
}

/// Probe GIF metadata without decoding pixels.
pub fn probe(data: &[u8]) -> (r: Result<ImageInfo, CodecError>)
    ensures
        gif_probe_outcome(r, data@),
{
    match read_gif_header(data) {
        Ok(h) => Ok(info_from_gif_header(h)),
        Err(text) => codec_failure(ImageFormat::Gif, text),
    }
}

} // verus!
