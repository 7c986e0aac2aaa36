//! JPEG XL header probe through the `jxl` crate.

use vstd::prelude::*;
use vstd::string::*;
use crate::codecs::{codec_failure, is_codec_failure};
use crate::error::CodecError;
use crate::format::ImageFormat;
use crate::info::{ImageInfo, ImageInfoView};

verus! {

/// What the JPEG XL decoder knows after one processing step over `data`:
/// where the file header is complete, width, height, the type code of each
/// extra channel, and the loop count of an animation; `None` where it needs
/// more input; or its error text.
pub uninterp spec fn jxl_basic_info(data: Seq<u8>) -> Result<
    Option<(usize, usize, Seq<u8>, Option<u32>)>,
    Seq<char>,
>;

/// The view of what `read_jxl_basic_info` hands back.
pub open spec fn jxl_basic_info_view(
    r: Result<Option<(usize, usize, Vec<u8>, Option<u32>)>, String>,
) -> Result<Option<(usize, usize, Seq<u8>, Option<u32>)>, Seq<char>> {
    match r {
        Ok(Some(h)) => Ok(Some((h.0, h.1, h.2@, h.3))),
        Ok(None) => Ok(None),
        Err(e) => Err(e@),
    }
}

/// Makes a `jxl::api::JxlDecoder` with default options, calls `process`
/// once on the bytes without output buffers, and copies four fields out of
/// `basic_info()`. The contract names the outcome and claims nothing else.
#[verifier::external_body]
fn read_jxl_basic_info(data: &[u8]) -> (r: Result<Option<(usize, usize, Vec<u8>, Option<u32>)>, String>)
    ensures
        jxl_basic_info_view(r) == jxl_basic_info(data@),
{
    let mut decoder = jxl::api::JxlDecoder::new(jxl::api::JxlDecoderOptions::default());
    let mut input = data;
    decoder.process(&mut input, None, None).map_err(|e| e.to_string())?;
    Ok(
        decoder.basic_info().map(
            |i|
                (
                    i.size.0,
                    i.size.1,
                    i.extra_channels.iter().map(|c| c.ec_type as u8).collect(),
                    i.animation.as_ref().map(|a| a.num_loops),
                ),
        ),
    )
}

/// The type code of an alpha channel among the extra channels.
pub const JXL_ALPHA_CHANNEL: u8 = 0;

/// The record for a JPEG XL header: alpha where an extra channel is an
/// alpha channel, animated where the header holds an animation; frames are
/// not counted and no metadata is read.
pub open spec fn jxl_info(h: (usize, usize, Seq<u8>, Option<u32>)) -> ImageInfoView {
    ImageInfoView {
        width: h.0 as u32,
        height: h.1 as u32,
        format: ImageFormat::Jxl,
        has_alpha: h.2.contains(JXL_ALPHA_CHANNEL),
        has_animation: h.3.is_some(),
        frame_count: None,
        icc_profile: None,
        exif: None,
        xmp: None,
    }
}

fn has_alpha_channel(channels: &Vec<u8>) -> (r: bool)
    ensures
        r == channels@.contains(JXL_ALPHA_CHANNEL),
{
    let mut i: usize = 0;
    while i < channels.len()
        invariant
            i <= channels.len(),
            forall|j: int| 0 <= j < i ==> channels@[j] != JXL_ALPHA_CHANNEL,
        decreases channels.len() - i,
    {
        if channels[i] == JXL_ALPHA_CHANNEL {
            return true;
        }
        i += 1;
    }
    false
}

/// The record for what the JPEG XL decoder read from a header.
pub fn info_from_jxl_basic_info(h: (usize, usize, Vec<u8>, Option<u32>)) -> (r: ImageInfo)
    ensures
        r@ == jxl_info((h.0, h.1, h.2@, h.3)),
{
    ImageInfo {
        width: #[verifier::truncate]
        (h.0 as u32),
        height: #[verifier::truncate]
        (h.1 as u32),
        format: ImageFormat::Jxl,
        has_alpha: has_alpha_channel(&h.2),
        has_animation: h.3.is_some(),
        frame_count: None,
        icc_profile: None,
        exif: None,
        xmp: None,
    }
}

/// What the JPEG XL probe returns for `s`: the record where the header is
/// complete, `InvalidInput` where the decoder needs more data, the codec
/// failure where it rejects the data.
pub open spec fn jxl_probe_outcome(r: Result<ImageInfo, CodecError>, s: Seq<u8>) -> bool {
    match jxl_basic_info(s) {
        Ok(Some(h)) => r matches Ok(info) && info@ == jxl_info(h),
        Ok(None) => r matches Err(CodecError::InvalidInput(m)) && m@
            == "JXL: insufficient data for header"@,
        Err(text) => is_codec_failure(r, ImageFormat::Jxl, text),
    }
}

/// Probe JPEG XL metadata without decoding pixels.
pub fn probe(data: &[u8]) -> (r: Result<ImageInfo, CodecError>)
    ensures
        jxl_probe_outcome(r, data@),
{
    match read_jxl_basic_info(data) {
        Ok(Some(h)) => Ok(info_from_jxl_basic_info(h)),
        Ok(None) => Err(
            CodecError::InvalidInput(String::from_str("JXL: insufficient data for header")),
        ),
        Err(text) => codec_failure(ImageFormat::Jxl, text),
    }
}

} // verus!
