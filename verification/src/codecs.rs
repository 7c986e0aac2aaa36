//! Full header probes through the format-specific codecs.
//!
//! Each module reads a file's header with the codec for its format and
//! turns what the codec reports into an `ImageInfo`. The call into the codec
//! stands behind one small function whose contract names the codec's answer;
//! what is made of the answer is verified.

use vstd::prelude::*;
use crate::error::CodecError;
use crate::format::ImageFormat;
use crate::info::ImageInfo;

pub mod avif_dec;
pub mod gif;
pub mod jpeg;
pub mod jxl_dec;
pub mod png;
pub mod png_codec;
pub mod webp;

verus! {

/// The result `r` is the codec failure for `format` with the text `text`.
pub open spec fn is_codec_failure(
    r: Result<ImageInfo, CodecError>,
    format: ImageFormat,
    text: Seq<char>,
) -> bool {
    r matches Err(CodecError::Codec { format: f, message: m }) && f == format && m@ == text
}

pub(crate) fn codec_failure(format: ImageFormat, text: String) -> (r: Result<ImageInfo, CodecError>)
    ensures
        is_codec_failure(r, format, text@),
{
    Err(CodecError::Codec { format, message: text })
}

} // verus!
