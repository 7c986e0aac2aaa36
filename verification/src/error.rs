//! Unified error type for codec operations.

use vstd::prelude::*;
use vstd::string::*;
use crate::format::ImageFormat;

verus! {

/// Unified error type for codec operations.
#[derive(Debug)]
#[non_exhaustive]
pub enum CodecError {
    /// Format not recognized from magic bytes.
    UnrecognizedFormat,
    /// Format recognized but no codec for it is available.
    UnsupportedFormat(ImageFormat),
    /// Format doesn't support requested operation.
    UnsupportedOperation { format: ImageFormat, detail: &'static str },
    /// Codec not enabled in the provided registry.
    DisabledFormat(ImageFormat),
    /// Input validation failed.
    InvalidInput(String),
    /// Resource limit exceeded.
    LimitExceeded(String),
    /// Operation cancelled via Stop token.
    Cancelled,
    /// Allocation failure.
    Oom,
    /// No suitable encoder found for auto-selection.
    NoSuitableEncoder,
    /// Underlying codec error, held as its display text.
    Codec { format: ImageFormat, message: String },
}

impl CodecError {
    /// The text that describes the error.
    pub open spec fn spec_message(&self) -> Seq<char> {
        match self {
            CodecError::UnrecognizedFormat => "unrecognized image format"@,
            CodecError::UnsupportedFormat(format) => "format "@ + format.spec_name()
                + " not supported (codec not compiled in)"@,
            CodecError::UnsupportedOperation { format, detail } => "format "@ + format.spec_name()
                + " does not support: "@ + detail@,
            CodecError::DisabledFormat(format) => "format "@ + format.spec_name()
                + " is disabled in the codec registry"@,
            CodecError::InvalidInput(msg) => "invalid input: "@ + msg@,
            CodecError::LimitExceeded(msg) => "limit exceeded: "@ + msg@,
            CodecError::Cancelled => "operation cancelled"@,
            CodecError::Oom => "out of memory"@,
            CodecError::NoSuitableEncoder => "no suitable encoder found for auto-selection"@,
            CodecError::Codec { format, message } => "codec error ("@ + format.spec_name() + "): "@
                + message@,
        }
    }

    /// The text that describes the error.
    pub fn message(&self) -> (r: String)
        ensures
            r@ == self.spec_message(),
    {
        match self {
            CodecError::UnrecognizedFormat => String::from_str("unrecognized image format"),
            CodecError::UnsupportedFormat(format) => String::from_str("format ").concat(
                format.name(),
            ).concat(" not supported (codec not compiled in)"),
            CodecError::UnsupportedOperation { format, detail } => String::from_str(
                "format ",
            ).concat(format.name()).concat(" does not support: ").concat(detail),
            CodecError::DisabledFormat(format) => String::from_str("format ").concat(
                format.name(),
            ).concat(" is disabled in the codec registry"),
            CodecError::InvalidInput(msg) => String::from_str("invalid input: ").concat(msg.as_str()),
            CodecError::LimitExceeded(msg) => String::from_str("limit exceeded: ").concat(
                msg.as_str(),
            ),
            CodecError::Cancelled => String::from_str("operation cancelled"),
            CodecError::Oom => String::from_str("out of memory"),
            CodecError::NoSuitableEncoder => String::from_str(
                "no suitable encoder found for auto-selection",
            ),
            CodecError::Codec { format, message } => String::from_str("codec error (").concat(
                format.name(),
            ).concat("): ").concat(message.as_str()),
        }
    }

    /// Wrap a codec-specific error: the result names the format and carries
    /// the error's display text.
    pub fn from_codec<E>(format: ImageFormat, error: E) -> (r: CodecError)
        where E: core::error::Error + Send + Sync + 'static
        ensures
            r matches CodecError::Codec { format: f, message: m } && f == format
                && vstd::string::to_string_from_display_ensures::<E>(&error, m),
    {
        CodecError::Codec { format, message: error.to_string() }
    }
}

} // verus!
