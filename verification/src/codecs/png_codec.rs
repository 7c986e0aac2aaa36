//! PNG encoder and decoder settings.
//!
//! PNG is lossless: quality settings do not apply. An effort from 0 to 10
//! maps to a compression level. Limits set on a job take precedence over
//! those of the configuration it was made from.

use vstd::prelude::*;
use crate::codecs::png::png_probe_outcome;
use crate::error::CodecError;
use crate::info::ImageInfo;
use crate::limits::{ImageMetadata, Limits};

verus! {

/// The type and strength of applied compression.
#[derive(Clone, Copy, Debug, PartialEq, Eq, Structural)]
pub enum PngCompression {
    /// No compression whatsoever.
    NoCompression,
    /// Extremely fast but light compression.
    Fastest,
    /// Extremely fast compression with a decent compression ratio.
    Fast,
    /// Balances encoding speed and compression ratio.
    Balanced,
    /// Spend much more time to produce a slightly smaller file.
    High,
}

/// The row filter applied before compression.
#[derive(Clone, Copy, Debug, PartialEq, Eq, Structural)]
pub enum PngFilter {
    NoFilter,
    Sub,
    Up,
    Avg,
    Paeth,
    /// Picks a filter for every row by a heuristic.
    Adaptive,
    MinEntropy,
}

/// The compression level that an effort stands for: up to 2 fast, up to 7
/// balanced, above that high.
pub open spec fn compression_for_effort(effort: u32) -> PngCompression {
    if effort <= 2 {
        PngCompression::Fast
    } else if effort <= 7 {
        PngCompression::Balanced
    } else {
        PngCompression::High
    }
}

/// PNG encoder configuration.
#[derive(Clone, Debug)]
pub struct PngEncoding {
    pub compression: PngCompression,
    pub filter: PngFilter,
    pub limit_pixels: Option<u64>,
    pub limit_memory: Option<u64>,
    pub limit_output: Option<u64>,
}

impl PngEncoding {
    /// Create a default PNG encoder config: balanced compression, adaptive
    /// filter, no limits.
    #[must_use]
    pub fn new() -> (r: PngEncoding)
        ensures
            r == (PngEncoding {
                compression: PngCompression::Balanced,
                filter: PngFilter::Adaptive,
                limit_pixels: None,
                limit_memory: None,
                limit_output: None,
            }),
    {
        PngEncoding {
            compression: PngCompression::Balanced,
            filter: PngFilter::Adaptive,
            limit_pixels: None,
            limit_memory: None,
            limit_output: None,
        }
    }

    /// Set PNG compression level directly.
    #[must_use]
    pub fn with_compression(self, compression: PngCompression) -> (r: PngEncoding)
        ensures
            r == (PngEncoding { compression, ..self }),
    {
        PngEncoding { compression, ..self }
    }

    /// Set PNG row filter type directly.
    #[must_use]
    pub fn with_filter(self, filter: PngFilter) -> (r: PngEncoding)
        ensures
            r == (PngEncoding { filter, ..self }),
    {
        PngEncoding { filter, ..self }
    }

    /// Set the compression level by an effort from 0 to 10.
    #[must_use]
    pub fn with_effort(self, effort: u32) -> (r: PngEncoding)
        ensures
            r == (PngEncoding { compression: compression_for_effort(effort), ..self }),
    {
        let compression = if effort <= 2 {
            PngCompression::Fast
        } else if effort <= 7 {
            PngCompression::Balanced
        } else {
            PngCompression::High
        };
        PngEncoding { compression, ..self }
    }

    /// PNG is always lossless: the request changes nothing.
    #[must_use]
    pub fn with_lossless(self, _lossless: bool) -> (r: PngEncoding)
        ensures
            r == self,
    {
        self
    }

    #[must_use]
    pub fn with_limit_pixels(self, max: u64) -> (r: PngEncoding)
        ensures
            r == (PngEncoding { limit_pixels: Some(max), ..self }),
    {
        PngEncoding { limit_pixels: Some(max), ..self }
    }

    #[must_use]
    pub fn with_limit_memory(self, bytes: u64) -> (r: PngEncoding)
        ensures
            r == (PngEncoding { limit_memory: Some(bytes), ..self }),
    {
        PngEncoding { limit_memory: Some(bytes), ..self }
    }

    #[must_use]
    pub fn with_limit_output(self, bytes: u64) -> (r: PngEncoding)
        ensures
            r == (PngEncoding { limit_output: Some(bytes), ..self }),
    {
        PngEncoding { limit_output: Some(bytes), ..self }
    }

    /// A job for one encode operation with this configuration: no metadata,
    /// no limits of its own.
    pub fn job(&self) -> (r: PngEncodeJob<'_>)
        ensures
            r == (PngEncodeJob {
                config: self,
                icc: None,
                exif: None,
                xmp: None,
                limit_pixels: None,
                limit_memory: None,
            }),
    {
        PngEncodeJob {
            config: self,
            icc: None,
            exif: None,
            xmp: None,
            limit_pixels: None,
            limit_memory: None,
        }
    }
}

impl Default for PngEncoding {
    fn default() -> (r: PngEncoding)
        ensures
            r.compression == PngCompression::Balanced,
            r.filter == PngFilter::Adaptive,
            r.limit_pixels.is_none() && r.limit_memory.is_none() && r.limit_output.is_none(),
    {
        PngEncoding::new()
    }
}

/// Per-operation PNG encode job.
pub struct PngEncodeJob<'a> {
    pub config: &'a PngEncoding,
    pub icc: Option<&'a [u8]>,
    pub exif: Option<&'a [u8]>,
    pub xmp: Option<&'a [u8]>,
    pub limit_pixels: Option<u64>,
    pub limit_memory: Option<u64>,
}

impl<'a> PngEncodeJob<'a> {
    /// The metadata that the job embeds: none where it holds neither an ICC
    /// profile nor EXIF nor XMP data.
    pub open spec fn spec_build_metadata(self) -> Option<ImageMetadata<'a>> {
        if self.icc.is_none() && self.exif.is_none() && self.xmp.is_none() {
            None
        } else {
            Some(ImageMetadata { icc_profile: self.icc, exif: self.exif, xmp: self.xmp })
        }
    }

    /// Build metadata for the PNG encoder.
    pub fn build_metadata(&self) -> (r: Option<ImageMetadata<'a>>)
        ensures
            r == self.spec_build_metadata(),
    {
        if self.icc.is_none() && self.exif.is_none() && self.xmp.is_none() {
            return None;
        }
        Some(ImageMetadata { icc_profile: self.icc, exif: self.exif, xmp: self.xmp })
    }

    /// Take over what `meta` holds; what it does not hold stays as it is.
    pub fn with_metadata(self, meta: &ImageMetadata<'a>) -> (r: PngEncodeJob<'a>)
        ensures
            r == (PngEncodeJob {
                icc: if meta.icc_profile.is_some() {
                    meta.icc_profile
                } else {
                    self.icc
                },
                exif: if meta.exif.is_some() {
                    meta.exif
                } else {
                    self.exif
                },
                xmp: if meta.xmp.is_some() {
                    meta.xmp
                } else {
                    self.xmp
                },
                ..self
            }),
    {
        let mut job = self;
        if let Some(icc) = meta.icc_profile {
            job.icc = Some(icc);
        }
        if let Some(exif) = meta.exif {
            job.exif = Some(exif);
        }
        if let Some(xmp) = meta.xmp {
            job.xmp = Some(xmp);
        }
        job
    }

    pub fn with_icc(self, icc: &'a [u8]) -> (r: PngEncodeJob<'a>)
        ensures
            r == (PngEncodeJob { icc: Some(icc), ..self }),
    {
        PngEncodeJob { icc: Some(icc), ..self }
    }

    pub fn with_exif(self, exif: &'a [u8]) -> (r: PngEncodeJob<'a>)
        ensures
            r == (PngEncodeJob { exif: Some(exif), ..self }),
    {
        PngEncodeJob { exif: Some(exif), ..self }
    }

    pub fn with_xmp(self, xmp: &'a [u8]) -> (r: PngEncodeJob<'a>)
        ensures
            r == (PngEncodeJob { xmp: Some(xmp), ..self }),
    {
        PngEncodeJob { xmp: Some(xmp), ..self }
    }

    pub fn with_limit_pixels(self, max: u64) -> (r: PngEncodeJob<'a>)
        ensures
            r == (PngEncodeJob { limit_pixels: Some(max), ..self }),
    {
        PngEncodeJob { limit_pixels: Some(max), ..self }
    }

    pub fn with_limit_memory(self, bytes: u64) -> (r: PngEncodeJob<'a>)
        ensures
            r == (PngEncodeJob { limit_memory: Some(bytes), ..self }),
    {
        PngEncodeJob { limit_memory: Some(bytes), ..self }
    }
}

/// PNG decoder configuration.
#[derive(Clone, Debug)]
pub struct PngDecoding {
    pub limit_pixels: Option<u64>,
    pub limit_memory: Option<u64>,
    pub limit_file_size: Option<u64>,
}

impl PngDecoding {
    /// Create a default PNG decoder config: no limits.
    #[must_use]
    pub fn new() -> (r: PngDecoding)
        ensures
            r == (PngDecoding { limit_pixels: None, limit_memory: None, limit_file_size: None }),
    {
        PngDecoding { limit_pixels: None, limit_memory: None, limit_file_size: None }
    }

    #[must_use]
    pub fn with_limit_pixels(self, max: u64) -> (r: PngDecoding)
        ensures
            r == (PngDecoding { limit_pixels: Some(max), ..self }),
    {
        PngDecoding { limit_pixels: Some(max), ..self }
    }

    #[must_use]
    pub fn with_limit_memory(self, bytes: u64) -> (r: PngDecoding)
        ensures
            r == (PngDecoding { limit_memory: Some(bytes), ..self }),
    {
        PngDecoding { limit_memory: Some(bytes), ..self }
    }

    /// Limit the pixel count to `width` times `height`.
    #[must_use]
    pub fn with_limit_dimensions(self, width: u32, height: u32) -> (r: PngDecoding)
        ensures
            r == (PngDecoding { limit_pixels: Some((width * height) as u64), ..self }),
    {
        assert(width * height <= 0xFFFF_FFFF * 0xFFFF_FFFF) by (nonlinear_arith)
            requires
                0 <= width <= 0xFFFF_FFFF,
                0 <= height <= 0xFFFF_FFFF,
        ;
        PngDecoding { limit_pixels: Some(width as u64 * height as u64), ..self }
    }

    #[must_use]
    pub fn with_limit_file_size(self, bytes: u64) -> (r: PngDecoding)
        ensures
            r == (PngDecoding { limit_file_size: Some(bytes), ..self }),
    {
        PngDecoding { limit_file_size: Some(bytes), ..self }
    }

    /// Probe PNG metadata without decoding pixels.
    pub fn probe(&self, data: &[u8]) -> (r: Result<ImageInfo, CodecError>)
        ensures
            png_probe_outcome(r, data@),
    {
        crate::codecs::png::probe(data)
    }

    /// A job for one decode operation with this configuration: no limits
    /// of its own.
    pub fn job(&self) -> (r: PngDecodeJob<'_>)
        ensures
            r == (PngDecodeJob { config: self, limit_pixels: None, limit_memory: None }),
    {
        PngDecodeJob { config: self, limit_pixels: None, limit_memory: None }
    }
}

impl Default for PngDecoding {
    fn default() -> (r: PngDecoding)
        ensures
            r.limit_pixels.is_none() && r.limit_memory.is_none() && r.limit_file_size.is_none(),
    {
        PngDecoding::new()
    }
}

/// Per-operation PNG decode job.
pub struct PngDecodeJob<'a> {
    pub config: &'a PngDecoding,
    pub limit_pixels: Option<u64>,
    pub limit_memory: Option<u64>,
}

/// The first of two optional values that is present.
pub open spec fn first_of(a: Option<u64>, b: Option<u64>) -> Option<u64> {
    if a.is_some() {
        a
    } else {
        b
    }
}

impl<'a> PngDecodeJob<'a> {
    pub fn with_limit_pixels(self, max: u64) -> (r: PngDecodeJob<'a>)
        ensures
            r == (PngDecodeJob { limit_pixels: Some(max), ..self }),
    {
        PngDecodeJob { limit_pixels: Some(max), ..self }
    }

    pub fn with_limit_memory(self, bytes: u64) -> (r: PngDecodeJob<'a>)
        ensures
            r == (PngDecodeJob { limit_memory: Some(bytes), ..self }),
    {
        PngDecodeJob { limit_memory: Some(bytes), ..self }
    }

    /// The limits that the decode runs under: the job's pixel and memory
    /// limits, each falling back to the configuration's; none at all where
    /// neither sets one.
    pub open spec fn spec_limits(self) -> Option<Limits> {
        let pixels = first_of(self.limit_pixels, self.config.limit_pixels);
        let memory = first_of(self.limit_memory, self.config.limit_memory);
        if pixels.is_none() && memory.is_none() {
            None
        } else {
            Some(
                Limits {
                    max_width: None,
                    max_height: None,
                    max_pixels: pixels,
                    max_memory_bytes: memory,
                },
            )
        }
    }

    /// Build the limits for the decode.
    pub fn limits(&self) -> (r: Option<Limits>)
        ensures
            r == self.spec_limits(),
    {
        if self.limit_pixels.is_some() || self.limit_memory.is_some()
            || self.config.limit_pixels.is_some() || self.config.limit_memory.is_some() {
            let pixels = if self.limit_pixels.is_some() {
                self.limit_pixels
            } else {
                self.config.limit_pixels
            };
            let memory = if self.limit_memory.is_some() {
                self.limit_memory
            } else {
                self.config.limit_memory
            };
            Some(
                Limits {
                    max_width: None,
                    max_height: None,
                    max_pixels: pixels,
                    max_memory_bytes: memory,
                },
            )
        } else {
            None
        }
    }
}

} // verus!
