//! Image format detection, partial-header probing and codec selection.
//!
//! The core of the library identifies an image format from its magic bytes
//! and extracts dimensions, alpha, animation and bit depth from a leading
//! prefix of the file, without decoding pixels. Every parser is total:
//! truncated or malformed input yields a partial result, never a failure.
//!
//! - [`format`]: format identity, magic-byte detection, capabilities.
//! - [`probe`]: the header parsers, one for each format, and what holds of
//!   all their results.
//! - [`info`]: the probing entry points, and full probes through the codecs.
//! - [`codecs`]: what each codec reports of a file's header; PNG settings.
//! - [`registry`], [`limits`], [`error`]: which formats are enabled,
//!   resource limits, the error type.
//! - [`decode`], [`encode`], [`pipeline`], [`pixel`]: the choices and
//!   conversions around decoding, encoding and transcoding.
//! - [`cli`], [`batch`]: argument values of the command-line tool and the
//!   summary of a batch run.

pub mod batch;
pub mod bytes;
pub mod cli;
pub mod codecs;
pub mod decode;
pub mod encode;
pub mod error;
pub mod format;
pub mod info;
pub mod limits;
pub mod pipeline;
pub mod pixel;
pub mod probe;
pub mod registry;

pub use codecs::png_codec::{PngDecodeJob, PngDecoding, PngEncodeJob, PngEncoding};
pub use encode::{EncodeOutput, PixelLayout};
pub use error::CodecError;
pub use format::ImageFormat;
pub use info::{
    from_bytes, from_bytes_format, from_bytes_with_registry, probe, probe_format, probe_with_registry,
    ImageInfo,
};
pub use limits::{ImageMetadata, Limits};
pub use pipeline::MetadataPolicy;
pub use pixel::PixelData;
pub use probe::ProbeResult;
pub use registry::CodecRegistry;
