//! Image decoding: the choice of the decoder.

use vstd::prelude::*;
use crate::error::CodecError;
use crate::format::{spec_detect, ImageFormat};
use crate::registry::{CodecRegistry, FormatSet};

verus! {

/// The format to decode `s` as: the given one, else the detected one, as
/// long as it is in `decodable`.
pub open spec fn spec_select_decoder(
    s: Seq<u8>,
    format: Option<ImageFormat>,
    decodable: Set<ImageFormat>,
) -> Result<
    ImageFormat,
    CodecError,
> {
    let wanted = match format {
        Some(f) => Some(f),
        None => spec_detect(s),
    };
    match wanted {
        None => Err(CodecError::UnrecognizedFormat),
        Some(f) => if decodable.contains(f) {
            Ok(f)
        } else {
            Err(CodecError::DisabledFormat(f))
        },
    }
}

/// Settle the format that a decode request decodes as: the format that the
/// request names, else the one detected from the data; it must be one that
/// the registry lets be decoded. `registry` defaults to all available
/// codecs.
pub fn select_decoder(data: &[u8], format: Option<ImageFormat>, registry: Option<&CodecRegistry>) -> (r: Result<
    ImageFormat,
    CodecError,
>)
    ensures
        r == spec_select_decoder(
            data@,
            format,
            match registry {
                Some(reg) => reg.decodable(),
                None => FormatSet::spec_all_compiled_decode(),
            },
        ),
{
    let default = CodecRegistry::all();
    assert(default.decodable() =~= FormatSet::spec_all_compiled_decode());
    let registry = match registry {
        Some(reg) => reg,
        None => &default,
    };
    let format = match format {
        Some(f) => f,
        None => match ImageFormat::detect(data) {
            Some(f) => f,
            None => {
                return Err(CodecError::UnrecognizedFormat);
            },
        },
    };
    if !registry.can_decode(format) {
        return Err(CodecError::DisabledFormat(format));
    }
    Ok(format)
}

} // verus!
