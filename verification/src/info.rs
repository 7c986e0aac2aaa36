//! Image metadata records and the probing entry points.

use vstd::prelude::*;
use crate::error::CodecError;
use crate::format::{spec_detect, ImageFormat};
use crate::probe::{spec_for_format, ProbeResult};
use crate::registry::CodecRegistry;

verus! {

/// Confirmed image metadata: both dimensions are known.
#[derive(Clone, Debug)]
pub struct ImageInfo {
    /// Image width in pixels.
    pub width: u32,
    /// Image height in pixels.
    pub height: u32,
    /// Image format.
    pub format: ImageFormat,
    /// Whether the image has an alpha channel.
    pub has_alpha: bool,
    /// Whether the image contains animation.
    pub has_animation: bool,
    /// Number of frames, if known.
    pub frame_count: Option<u32>,
    /// Embedded ICC colour profile.
    pub icc_profile: Option<Vec<u8>>,
    /// Embedded EXIF data.
    pub exif: Option<Vec<u8>>,
    /// Embedded XMP data.
    pub xmp: Option<Vec<u8>>,
}

/// The mathematical content of an `ImageInfo`: embedded metadata as byte
/// sequences.
pub struct ImageInfoView {
    pub width: u32,
    pub height: u32,
    pub format: ImageFormat,
    pub has_alpha: bool,
    pub has_animation: bool,
    pub frame_count: Option<u32>,
    pub icc_profile: Option<Seq<u8>>,
    pub exif: Option<Seq<u8>>,
    pub xmp: Option<Seq<u8>>,
}

/// The bytes that an optional buffer holds.
pub open spec fn bytes_of(buffer: Option<Vec<u8>>) -> Option<Seq<u8>> {
    match buffer {
        Some(v) => Some(v@),
        None => None,
    }
}

impl View for ImageInfo {
    type V = ImageInfoView;

    open spec fn view(&self) -> ImageInfoView {
        ImageInfoView {
            width: self.width,
            height: self.height,
            format: self.format,
            has_alpha: self.has_alpha,
            has_animation: self.has_animation,
            frame_count: self.frame_count,
            icc_profile: bytes_of(self.icc_profile),
            exif: bytes_of(self.exif),
            xmp: bytes_of(self.xmp),
        }
    }
}

/// What probing with detection returns: the detected format's probe result,
/// or `UnrecognizedFormat` where no signature matches.
pub open spec fn spec_probe(s: Seq<u8>) -> Result<ProbeResult, CodecError> {
    match spec_detect(s) {
        Some(format) => Ok(spec_for_format(s, format)),
        None => Err(CodecError::UnrecognizedFormat),
    }
}

/// What probing with detection and a registry returns: as `spec_probe`,
/// but `DisabledFormat` where the registry does not let the detected format
/// be decoded.
pub open spec fn spec_probe_with_registry(s: Seq<u8>, registry: CodecRegistry) -> Result<
    ProbeResult,
    CodecError,
> {
    match spec_detect(s) {
        Some(format) => if registry.spec_can_decode(format) {
            Ok(spec_for_format(s, format))
        } else {
            Err(CodecError::DisabledFormat(format))
        },
        None => Err(CodecError::UnrecognizedFormat),
    }
}

/// Probe partial image data for metadata without decoding pixels.
///
/// Works with truncated data (e.g., the first bytes from a range request).
/// Missing dimensions result in `None` fields rather than an error.
pub fn probe(data: &[u8]) -> (r: Result<ProbeResult, CodecError>)
    ensures
        r == spec_probe(data@),
        r matches Ok(p) ==> Some(p.format) == spec_detect(data@) && p.width.is_some()
            == p.height.is_some() && p.bytes_examined <= data@.len(),
{
    match ImageFormat::detect(data) {
        Some(format) => Ok(ProbeResult::for_format(data, format)),
        None => Err(CodecError::UnrecognizedFormat),
    }
}

/// Probe partial image data with a specific registry.
///
/// Only formats enabled in the registry will be accepted.
pub fn probe_with_registry(data: &[u8], registry: &CodecRegistry) -> (r: Result<
    ProbeResult,
    CodecError,
>)
    ensures
        r == spec_probe_with_registry(data@, *registry),
        r matches Ok(p) ==> Some(p.format) == spec_detect(data@) && p.width.is_some()
            == p.height.is_some() && p.bytes_examined <= data@.len(),
{
    match ImageFormat::detect(data) {
        Some(format) => {
            if !registry.can_decode(format) {
                return Err(CodecError::DisabledFormat(format));
            }
            Ok(ProbeResult::for_format(data, format))
        },
        None => Err(CodecError::UnrecognizedFormat),
    }
}

/// Probe partial image data for a known format (skips auto-detection).
///
/// Never fails: insufficient data results in `None` fields.
pub fn probe_format(data: &[u8], format: ImageFormat) -> (r: ProbeResult)
    ensures
        r == spec_for_format(data@, format),
        r.format == format,
        r.width.is_some() == r.height.is_some(),
        r.bytes_examined <= data@.len(),
{
    ProbeResult::for_format(data, format)
}

/// What the full probe of `s` as `format` returns: the outcome of the
/// format's codec.
pub open spec fn full_probe_outcome(r: Result<ImageInfo, CodecError>, s: Seq<u8>, format: ImageFormat) -> bool {
    match format {
        ImageFormat::Jpeg => crate::codecs::jpeg::jpeg_probe_outcome(r, s),
        ImageFormat::WebP => crate::codecs::webp::webp_probe_outcome(r, s),
        ImageFormat::Gif => crate::codecs::gif::gif_probe_outcome(r, s),
        ImageFormat::Png => crate::codecs::png::png_probe_outcome(r, s),
        ImageFormat::Avif => crate::codecs::avif_dec::avif_probe_outcome(r, s),
        ImageFormat::Jxl => crate::codecs::jxl_dec::jxl_probe_outcome(r, s),
    }
}

/// What the full probe with detection and a registry returns:
/// `UnrecognizedFormat` where no signature matches, `DisabledFormat` where
/// the registry does not let the detected format be decoded, else the
/// outcome of the detected format's codec.
pub open spec fn from_bytes_outcome(
    r: Result<ImageInfo, CodecError>,
    s: Seq<u8>,
    registry: CodecRegistry,
) -> bool {
    match spec_detect(s) {
        None => r matches Err(CodecError::UnrecognizedFormat),
        Some(format) => if registry.spec_can_decode(format) {
            full_probe_outcome(r, s, format)
        } else {
            r matches Err(CodecError::DisabledFormat(f)) && f == format
        },
    }
}

/// Dispatch to the format-specific full probe.
pub fn probe_format_full(data: &[u8], format: ImageFormat) -> (r: Result<ImageInfo, CodecError>)
    ensures
        full_probe_outcome(r, data@, format),
{
    match format {
        ImageFormat::Jpeg => crate::codecs::jpeg::probe(data),
        ImageFormat::WebP => crate::codecs::webp::probe(data),
        ImageFormat::Gif => crate::codecs::gif::probe(data),
        ImageFormat::Png => crate::codecs::png::probe(data),
        ImageFormat::Avif => crate::codecs::avif_dec::probe(data),
        ImageFormat::Jxl => crate::codecs::jxl_dec::probe(data),
    }
}

/// Probe image metadata without decoding pixels.
///
/// Uses format auto-detection and dispatches to the appropriate codec's
/// probe. All available codecs are attempted.
pub fn from_bytes(data: &[u8]) -> (r: Result<ImageInfo, CodecError>)
    ensures
        match spec_detect(data@) {
            None => r matches Err(CodecError::UnrecognizedFormat),
            Some(format) => full_probe_outcome(r, data@, format),
        },
{
    from_bytes_with_registry(data, &CodecRegistry::all())
}

/// Probe image metadata with a specific registry.
///
/// Only formats enabled in the registry will be attempted.
pub fn from_bytes_with_registry(data: &[u8], registry: &CodecRegistry) -> (r: Result<
    ImageInfo,
    CodecError,
>)
    ensures
        from_bytes_outcome(r, data@, *registry),
{
    let format = match ImageFormat::detect(data) {
        Some(f) => f,
        None => {
            return Err(CodecError::UnrecognizedFormat);
        },
    };
    if !registry.can_decode(format) {
        return Err(CodecError::DisabledFormat(format));
    }
    probe_format_full(data, format)
}

/// Probe with a known format (skips auto-detection).
pub fn from_bytes_format(data: &[u8], format: ImageFormat) -> (r: Result<ImageInfo, CodecError>)
    ensures
        full_probe_outcome(r, data@, format),
{
    probe_format_full(data, format)
}

} // verus!
