//! Image encoding: the checks and choices that come before a codec runs.

use vstd::prelude::*;
use vstd::string::*;
use crate::error::CodecError;
use crate::format::ImageFormat;
use crate::registry::CodecRegistry;

verus! {

/// Encoded image output.
#[derive(Clone, Debug)]
pub struct EncodeOutput {
    /// Encoded image data.
    pub data: Vec<u8>,
    /// Format used for encoding (useful when auto-selected).
    pub format: ImageFormat,
}

/// Layout of packed 8-bit pixels in a byte buffer.
#[derive(Clone, Copy, Debug, PartialEq, Eq, Structural)]
pub enum PixelLayout {
    /// Red, green, blue.
    Rgb8,
    /// Red, green, blue, alpha.
    Rgba8,
    /// Blue, green, red, alpha.
    Bgra8,
    /// One grey channel.
    Gray8,
    /// Grey, alpha.
    GrayAlpha8,
}

impl PixelLayout {
    /// Bytes that one pixel takes.
    pub open spec fn spec_bytes_per_pixel(self) -> usize {
        match self {
            PixelLayout::Rgb8 => 3,
            PixelLayout::Rgba8 => 4,
            PixelLayout::Bgra8 => 4,
            PixelLayout::Gray8 => 1,
            PixelLayout::GrayAlpha8 => 2,
        }
    }

    /// Whether the layout has an alpha channel.
    pub open spec fn spec_has_alpha(self) -> bool {
        self == PixelLayout::Rgba8 || self == PixelLayout::Bgra8 || self == PixelLayout::GrayAlpha8
    }

    /// Bytes that one pixel takes.
    #[verifier::when_used_as_spec(spec_bytes_per_pixel)]
    pub fn bytes_per_pixel(self) -> (r: usize)
        ensures
            r == self.spec_bytes_per_pixel(),
    {
        match self {
            PixelLayout::Rgb8 => 3,
            PixelLayout::Rgba8 => 4,
            PixelLayout::Bgra8 => 4,
            PixelLayout::Gray8 => 1,
            PixelLayout::GrayAlpha8 => 2,
        }
    }

    /// Whether the layout has an alpha channel.
    #[verifier::when_used_as_spec(spec_has_alpha)]
    pub fn has_alpha(self) -> (r: bool)
        ensures
            r == self.spec_has_alpha(),
    {
        match self {
            PixelLayout::Rgb8 => false,
            PixelLayout::Rgba8 => true,
            PixelLayout::Bgra8 => true,
            PixelLayout::Gray8 => false,
            PixelLayout::GrayAlpha8 => true,
        }
    }

    /// Bytes that an image of `width` by `height` pixels takes, where a
    /// `usize` can hold that number.
    pub open spec fn spec_min_buffer_size(self, width: u32, height: u32) -> Option<usize> {
        let bytes = width * height * self.spec_bytes_per_pixel();
        if bytes <= usize::MAX {
            Some(bytes as usize)
        } else {
            None
        }
    }

    /// Bytes that an image of `width` by `height` pixels takes, or `None`
    /// where the number does not fit.
    pub fn min_buffer_size(self, width: u32, height: u32) -> (r: Option<usize>)
        ensures
            r == self.spec_min_buffer_size(width, height),
    {
        assert(width * height <= 0xFFFF_FFFF * 0xFFFF_FFFF) by (nonlinear_arith)
            requires
                0 <= width <= 0xFFFF_FFFF,
                0 <= height <= 0xFFFF_FFFF,
        ;
        let pixels: u64 = (width as u64) * (height as u64);
        let bpp = self.bytes_per_pixel() as u64;
        match pixels.checked_mul(bpp) {
            None => {
                assert(width * height * self.spec_bytes_per_pixel() > usize::MAX);
                None
            },
            Some(bytes) => {
                assert(bytes == width * height * self.spec_bytes_per_pixel());
                if bytes > usize::MAX as u64 {
                    None
                } else {
                    Some(bytes as usize)
                }
            },
        }
    }
}

/// Some whole pixel of four-byte pixels in `pixels` has an alpha byte, its
/// fourth, below 255.
pub open spec fn some_pixel_not_opaque(pixels: Seq<u8>) -> bool {
    exists|i: int| 0 <= i < pixels.len() && i % 4 == 3 && #[trigger] pixels[i] < 255
}

/// Whether pixels in `layout` have any transparency: the layout has four
/// bytes to the pixel with alpha last, and some whole pixel is not opaque.
pub open spec fn spec_has_alpha_pixels(pixels: Seq<u8>, layout: PixelLayout) -> bool {
    (layout == PixelLayout::Rgba8 || layout == PixelLayout::Bgra8) && some_pixel_not_opaque(pixels)
}

/// Quick check if pixels have any transparency.
pub fn has_alpha_pixels(pixels: &[u8], layout: PixelLayout) -> (r: bool)
    ensures
        r == spec_has_alpha_pixels(pixels@, layout),
{
    if !matches!(layout, PixelLayout::Rgba8 | PixelLayout::Bgra8) {
        return false;
    }
    let n = pixels.len();
    if n < 4 {
        return false;
    }
    let mut i: usize = 3;
    while i < n
        invariant
            n == pixels@.len(),
            layout == PixelLayout::Rgba8 || layout == PixelLayout::Bgra8,
            3 <= i,
            i % 4 == 3,
            forall|j: int| 0 <= j < i && j < n && j % 4 == 3 ==> #[trigger] pixels@[j] == 255,
        decreases n - i,
    {
        if pixels[i] < 255 {
            assert(pixels@[i as int] < 255);
            return true;
        }
        if n - i <= 4 {
            // No further fourth byte of a pixel lies inside the buffer.
            return false;
        }
        i += 4;
    }
    false
}

/// The format that automatic selection picks: lossless prefers WebP, then
/// PNG; lossy with transparency prefers WebP, then AVIF, then PNG; lossy
/// without prefers JPEG, then WebP, then AVIF. Only formats in `encodable`
/// count.
pub open spec fn spec_auto_select_format(
    lossless: bool,
    transparent: bool,
    encodable: Set<ImageFormat>,
) -> Option<
    ImageFormat,
> {
    if lossless {
        if encodable.contains(ImageFormat::WebP) {
            Some(ImageFormat::WebP)
        } else if encodable.contains(ImageFormat::Png) {
            Some(ImageFormat::Png)
        } else {
            None
        }
    } else if transparent {
        if encodable.contains(ImageFormat::WebP) {
            Some(ImageFormat::WebP)
        } else if encodable.contains(ImageFormat::Avif) {
            Some(ImageFormat::Avif)
        } else if encodable.contains(ImageFormat::Png) {
            Some(ImageFormat::Png)
        } else {
            None
        }
    } else {
        if encodable.contains(ImageFormat::Jpeg) {
            Some(ImageFormat::Jpeg)
        } else if encodable.contains(ImageFormat::WebP) {
            Some(ImageFormat::WebP)
        } else if encodable.contains(ImageFormat::Avif) {
            Some(ImageFormat::Avif)
        } else {
            None
        }
    }
}

/// Auto-select format based on image characteristics.
pub fn auto_select_format(
    lossless: bool,
    pixels: &[u8],
    layout: PixelLayout,
    registry: &CodecRegistry,
) -> (r: Result<
    ImageFormat,
    CodecError,
>)
    ensures
        match spec_auto_select_format(
            lossless,
            spec_has_alpha_pixels(pixels@, layout),
            registry.encodable(),
        ) {
            Some(format) => r == Ok::<ImageFormat, CodecError>(format),
            None => r == Err::<ImageFormat, CodecError>(CodecError::NoSuitableEncoder),
        },
{
    if lossless {
        if registry.can_encode(ImageFormat::WebP) {
            return Ok(ImageFormat::WebP);
        }
        if registry.can_encode(ImageFormat::Png) {
            return Ok(ImageFormat::Png);
        }
    } else {
        let has_alpha = layout.has_alpha() && has_alpha_pixels(pixels, layout);
        if has_alpha {
            if registry.can_encode(ImageFormat::WebP) {
                return Ok(ImageFormat::WebP);
            }
            if registry.can_encode(ImageFormat::Avif) {
                return Ok(ImageFormat::Avif);
            }
            if registry.can_encode(ImageFormat::Png) {
                return Ok(ImageFormat::Png);
            }
        } else {
            if registry.can_encode(ImageFormat::Jpeg) {
                return Ok(ImageFormat::Jpeg);
            }
            if registry.can_encode(ImageFormat::WebP) {
                return Ok(ImageFormat::WebP);
            }
            if registry.can_encode(ImageFormat::Avif) {
                return Ok(ImageFormat::Avif);
            }
        }
    }
    Err(CodecError::NoSuitableEncoder)
}

/// What stands in the way of encoding, if anything.
pub enum EncodeCheck {
    /// Encode with this format.
    Proceed(ImageFormat),
    /// No format was asked for and none could be selected.
    NoSuitableEncoder,
    /// The registry does not let the format be encoded.
    Disabled(ImageFormat),
    /// Lossless encoding was asked of a format that cannot do it.
    LosslessUnsupported(ImageFormat),
    /// The image's byte count fits no `usize`.
    DimensionsTooLarge,
    /// The pixel buffer holds fewer bytes than the image takes.
    BufferTooSmall,
}

/// The checks in front of encoding, in their order: pick the format if none
/// is given, then whether it can be encoded, then lossless support, then
/// the buffer size.
pub open spec fn spec_check_encode(
    format: Option<ImageFormat>,
    lossless: bool,
    pixels: Seq<u8>,
    width: u32,
    height: u32,
    layout: PixelLayout,
    encodable: Set<ImageFormat>,
) -> EncodeCheck {
    let chosen = match format {
        Some(f) => Some(f),
        None => spec_auto_select_format(lossless, spec_has_alpha_pixels(pixels, layout), encodable),
    };
    match chosen {
        None => EncodeCheck::NoSuitableEncoder,
        Some(f) => if !encodable.contains(f) {
            EncodeCheck::Disabled(f)
        } else if lossless && !f.spec_supports_lossless() {
            EncodeCheck::LosslessUnsupported(f)
        } else {
            match layout.spec_min_buffer_size(width, height) {
                None => EncodeCheck::DimensionsTooLarge,
                Some(expected) => if pixels.len() < expected {
                    EncodeCheck::BufferTooSmall
                } else {
                    EncodeCheck::Proceed(f)
                },
            }
        },
    }
}

/// The result `r` reports the outcome `check`.
pub open spec fn reports_encode_check(r: Result<ImageFormat, CodecError>, check: EncodeCheck) -> bool {
    match check {
        EncodeCheck::Proceed(f) => r == Ok::<ImageFormat, CodecError>(f),
        EncodeCheck::NoSuitableEncoder => r == Err::<ImageFormat, CodecError>(
            CodecError::NoSuitableEncoder,
        ),
        EncodeCheck::Disabled(f) => r == Err::<ImageFormat, CodecError>(CodecError::DisabledFormat(f)),
        EncodeCheck::LosslessUnsupported(f) => r matches Err(
            CodecError::UnsupportedOperation { format, detail },
        ) && format == f && detail@ == "lossless encoding not supported"@,
        EncodeCheck::DimensionsTooLarge => r matches Err(CodecError::InvalidInput(m)) && m@
            == "dimensions too large"@,
        EncodeCheck::BufferTooSmall => r matches Err(CodecError::InvalidInput(m)) && m@
            == "pixel buffer too small"@,
    }
}

/// Check an encode request and settle its format. `registry` defaults to
/// all available codecs.
pub fn check_encode(
    format: Option<ImageFormat>,
    lossless: bool,
    pixels: &[u8],
    width: u32,
    height: u32,
    layout: PixelLayout,
    registry: Option<&CodecRegistry>,
) -> (r: Result<ImageFormat, CodecError>)
    ensures
        reports_encode_check(
            r,
            spec_check_encode(
                format,
                lossless,
                pixels@,
                width,
                height,
                layout,
                match registry {
                    Some(reg) => reg.encodable(),
                    None => crate::registry::FormatSet::spec_all_compiled_encode(),
                },
            ),
        ),
{
    let default = CodecRegistry::all();
    assert(default.encodable() =~= crate::registry::FormatSet::spec_all_compiled_encode());
    let registry = match registry {
        Some(reg) => reg,
        None => &default,
    };
    let format = match format {
        Some(f) => f,
        None => match auto_select_format(lossless, pixels, layout, registry) {
            Ok(f) => f,
            Err(e) => {
                return Err(e);
            },
        },
    };
    if !registry.can_encode(format) {
        return Err(CodecError::DisabledFormat(format));
    }
    if lossless && !format.supports_lossless() {
        return Err(
            CodecError::UnsupportedOperation { format, detail: "lossless encoding not supported" },
        );
    }
    let expected_size = match layout.min_buffer_size(width, height) {
        Some(n) => n,
        None => {
            return Err(CodecError::InvalidInput(String::from_str("dimensions too large")));
        },
    };
    if pixels.len() < expected_size {
        return Err(CodecError::InvalidInput(String::from_str("pixel buffer too small")));
    }
    Ok(format)
}

} // verus!
