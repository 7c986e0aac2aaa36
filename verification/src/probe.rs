//! Partial-data image probing.
//!
//! Extracts format, dimensions, alpha, animation and bit depth from a leading
//! slice of an image file without requiring the full file. Each format has
//! its own header structure and minimum byte requirement; each parser is a
//! total function of the bytes it is given.

use vstd::prelude::*;
use crate::format::ImageFormat;
use crate::info::ImageInfo;

pub mod avif;
pub mod chains;
pub mod gif;
pub mod isobmff;
pub mod jpeg;
pub mod jxl;
pub mod laws;
pub mod png;
pub mod prefix;
pub mod webp;

verus! {

/// Result of probing partial image data.
///
/// All fields except `format` are optional, since partial data may not
/// contain enough bytes for dimensions or other metadata.
#[derive(Clone, Debug)]
pub struct ProbeResult {
    /// Detected image format (always present if probe succeeds).
    pub format: ImageFormat,
    /// Image width in pixels.
    pub width: Option<u32>,
    /// Image height in pixels.
    pub height: Option<u32>,
    /// Whether the image has an alpha channel.
    pub has_alpha: Option<bool>,
    /// Whether the image contains animation (multiple frames).
    pub has_animation: Option<bool>,
    /// Number of frames (None if unknown without full parse).
    pub frame_count: Option<u32>,
    /// Bits per channel (e.g., 8 for typical images, 16 for HDR).
    pub bit_depth: Option<u8>,
    /// Number of bytes examined from the input.
    pub bytes_examined: usize,
}

/// The smaller of two integers.
pub open spec fn min_int(a: int, b: int) -> int {
    if a <= b {
        a
    } else {
        b
    }
}

/// The result that carries the format tag and nothing else.
pub open spec fn format_only(format: ImageFormat, examined: int) -> ProbeResult {
    ProbeResult {
        format,
        width: None,
        height: None,
        has_alpha: None,
        has_animation: None,
        frame_count: None,
        bit_depth: None,
        bytes_examined: examined as usize,
    }
}

pub(crate) fn format_only_result(format: ImageFormat, examined: usize) -> (r: ProbeResult)
    ensures
        r == format_only(format, examined as int),
{
    ProbeResult {
        format,
        width: None,
        height: None,
        has_alpha: None,
        has_animation: None,
        frame_count: None,
        bit_depth: None,
        bytes_examined: examined,
    }
}

pub(crate) fn min_usize(a: usize, b: usize) -> (r: usize)
    ensures
        r == min_int(a as int, b as int),
{
    if a <= b {
        a
    } else {
        b
    }
}

/// What probing `s` as `format` tells.
pub open spec fn spec_for_format(s: Seq<u8>, format: ImageFormat) -> ProbeResult {
    match format {
        ImageFormat::Png => png::spec_probe_png(s),
        ImageFormat::Gif => gif::spec_probe_gif(s),
        ImageFormat::WebP => webp::spec_probe_webp(s),
        ImageFormat::Jpeg => jpeg::spec_probe_jpeg(s),
        ImageFormat::Avif => avif::spec_probe_avif(s),
        ImageFormat::Jxl => jxl::spec_probe_jxl(s.len() as int, jxl::jxl_header(s)),
    }
}

impl ProbeResult {
    /// The confirmed record that this result converts to: present exactly
    /// when both dimensions are. A missing alpha or animation flag becomes
    /// `false`; no embedded metadata is carried.
    pub open spec fn spec_image_info(self) -> Option<ImageInfo> {
        if self.width.is_some() && self.height.is_some() {
            Some(
                ImageInfo {
                    width: self.width.unwrap(),
                    height: self.height.unwrap(),
                    format: self.format,
                    has_alpha: self.has_alpha == Some(true),
                    has_animation: self.has_animation == Some(true),
                    frame_count: self.frame_count,
                    icc_profile: None,
                    exif: None,
                    xmp: None,
                },
            )
        } else {
            None
        }
    }

    /// Convert to `ImageInfo` when width and height are both present.
    ///
    /// Returns `None` if either dimension is missing (insufficient data).
    pub fn into_image_info(self) -> (r: Option<ImageInfo>)
        ensures
            r == self.spec_image_info(),
    {
        let width = match self.width {
            Some(w) => w,
            None => {
                return None;
            },
        };
        let height = match self.height {
            Some(h) => h,
            None => {
                return None;
            },
        };
        Some(
            ImageInfo {
                width,
                height,
                format: self.format,
                has_alpha: match self.has_alpha {
                    Some(a) => a,
                    None => false,
                },
                has_animation: match self.has_animation {
                    Some(a) => a,
                    None => false,
                },
                frame_count: self.frame_count,
                icc_profile: None,
                exif: None,
                xmp: None,
            },
        )
    }

    /// Probe data for a specific format.
    ///
    /// Dispatches to the format-specific parser. Does not verify magic
    /// bytes: the caller is responsible for format detection.
    pub fn for_format(data: &[u8], format: ImageFormat) -> (r: ProbeResult)
        ensures
            r == spec_for_format(data@, format),
            r.format == format,
            r.width.is_some() == r.height.is_some(),
            r.bytes_examined <= data@.len(),
    {
        proof {
            assert(data@.len() == data.len());
            laws::lemma_format_reported(data@, format);
            laws::lemma_dimensions_paired(data@, format);
            laws::lemma_examined_within_input(data@, format);
        }
        match format {
            ImageFormat::Png => png::probe_png(data),
            ImageFormat::Gif => gif::probe_gif(data),
            ImageFormat::WebP => webp::probe_webp(data),
            ImageFormat::Jpeg => jpeg::probe_jpeg(data),
            ImageFormat::Avif => avif::probe_avif(data),
            ImageFormat::Jxl => jxl::probe_jxl(data),
        }
    }
}

} // verus!
