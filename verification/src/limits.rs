//! Resource limits for decode and encode operations.

use vstd::prelude::*;
use vstd::string::*;
use crate::error::CodecError;

verus! {

/// Resource limits for decode/encode operations.
///
/// Used to prevent resource exhaustion. All limits are optional.
#[derive(Clone, Debug)]
pub struct Limits {
    /// Maximum image width in pixels.
    pub max_width: Option<u64>,
    /// Maximum image height in pixels.
    pub max_height: Option<u64>,
    /// Maximum total pixels (width times height).
    pub max_pixels: Option<u64>,
    /// Maximum memory allocation in bytes.
    pub max_memory_bytes: Option<u64>,
}

/// Metadata to embed in an encoded image.
#[derive(Clone, Copy, Debug)]
pub struct ImageMetadata<'a> {
    /// ICC colour profile.
    pub icc_profile: Option<&'a [u8]>,
    /// EXIF data.
    pub exif: Option<&'a [u8]>,
    /// XMP data.
    pub xmp: Option<&'a [u8]>,
}

/// `a * b`, held at the largest `u64` where the product exceeds it.
pub open spec fn saturating_product(a: int, b: int) -> int {
    if a * b > u64::MAX {
        u64::MAX as int
    } else {
        a * b
    }
}

/// A dimension limit as a codec with 16-bit dimensions takes it: held at
/// 65535 where it is larger.
pub fn dimension_limit_u16(max: u64) -> (r: u16)
    ensures
        r == if max > 0xFFFF {
            0xFFFF
        } else {
            max as int
        },
{
    if max > 0xFFFF {
        0xFFFF
    } else {
        max as u16
    }
}

fn mul_saturating(a: u64, b: u64) -> (r: u64)
    ensures
        r == saturating_product(a as int, b as int),
{
    match a.checked_mul(b) {
        Some(p) => p,
        None => u64::MAX,
    }
}

impl Default for Limits {
    fn default() -> (r: Limits)
        ensures
            r == Limits::unlimited(),
    {
        Limits { max_width: None, max_height: None, max_pixels: None, max_memory_bytes: None }
    }
}

impl Limits {
    /// The limits that restrict nothing.
    pub open spec fn unlimited() -> Limits {
        Limits { max_width: None, max_height: None, max_pixels: None, max_memory_bytes: None }
    }

    /// The first dimension limit that `width` by `height` exceeds, as its
    /// message: width before height before pixel count.
    pub open spec fn spec_check_dimensions(&self, width: u64, height: u64) -> Option<Seq<char>> {
        if self.max_width matches Some(m) && width > m {
            Some("width exceeds limit"@)
        } else if self.max_height matches Some(m) && height > m {
            Some("height exceeds limit"@)
        } else if self.max_pixels matches Some(m) && saturating_product(width as int, height as int)
            > m {
            Some("pixel count exceeds limit"@)
        } else {
            None
        }
    }

    /// The message for an allocation of `bytes` that exceeds the memory
    /// limit.
    pub open spec fn spec_check_memory(&self, bytes: u64) -> Option<Seq<char>> {
        if self.max_memory_bytes matches Some(m) && bytes > m {
            Some("memory allocation exceeds limit"@)
        } else {
            None
        }
    }

    /// The first limit that an image of `width` by `height` pixels with
    /// `bytes_per_pixel` bytes each exceeds: the dimension limits, then the
    /// memory limit on the saturating product of the three.
    pub open spec fn spec_validate(&self, width: u32, height: u32, bytes_per_pixel: u32) -> Option<
        Seq<char>,
    > {
        if self.spec_check_dimensions(width as u64, height as u64).is_some() {
            self.spec_check_dimensions(width as u64, height as u64)
        } else {
            self.spec_check_memory(
                saturating_product(
                    saturating_product(width as int, height as int),
                    bytes_per_pixel as int,
                ) as u64,
            )
        }
    }

    /// Create a new Limits with no restrictions.
    pub fn none() -> (r: Limits)
        ensures
            r == Limits::unlimited(),
    {
        Limits { max_width: None, max_height: None, max_pixels: None, max_memory_bytes: None }
    }

    /// Check if dimensions are within limits.
    ///
    /// Returns `Err` with a description if any limit is exceeded.
    pub fn check_dimensions(&self, width: u64, height: u64) -> (r: Result<(), &'static str>)
        ensures
            match r {
                Ok(_) => self.spec_check_dimensions(width, height).is_none(),
                Err(msg) => self.spec_check_dimensions(width, height) == Some(msg@),
            },
    {
        if let Some(max_width) = self.max_width {
            if width > max_width {
                return Err("width exceeds limit");
            }
        }
        if let Some(max_height) = self.max_height {
            if height > max_height {
                return Err("height exceeds limit");
            }
        }
        if let Some(max_pixels) = self.max_pixels {
            let pixels = mul_saturating(width, height);
            if pixels > max_pixels {
                return Err("pixel count exceeds limit");
            }
        }
        Ok(())
    }

    /// Check if a memory allocation is within limits.
    pub fn check_memory(&self, bytes: u64) -> (r: Result<(), &'static str>)
        ensures
            match r {
                Ok(_) => self.spec_check_memory(bytes).is_none(),
                Err(msg) => self.spec_check_memory(bytes) == Some(msg@),
            },
    {
        if let Some(max_memory) = self.max_memory_bytes {
            if bytes > max_memory {
                return Err("memory allocation exceeds limit");
            }
        }
        Ok(())
    }

    /// Validate dimensions and estimated memory against limits.
    pub fn validate(&self, width: u32, height: u32, bytes_per_pixel: u32) -> (r: Result<
        (),
        CodecError,
    >)
        ensures
            match r {
                Ok(_) => self.spec_validate(width, height, bytes_per_pixel).is_none(),
                Err(e) => e matches CodecError::LimitExceeded(msg) && self.spec_validate(
                    width,
                    height,
                    bytes_per_pixel,
                ) == Some(msg@),
            },
    {
        match self.check_dimensions(width as u64, height as u64) {
            Ok(_) => {},
            Err(msg) => {
                return Err(CodecError::LimitExceeded(String::from_str(msg)));
            },
        }
        let estimated_bytes = mul_saturating(
            mul_saturating(width as u64, height as u64),
            bytes_per_pixel as u64,
        );
        match self.check_memory(estimated_bytes) {
            Ok(_) => Ok(()),
            Err(msg) => Err(CodecError::LimitExceeded(String::from_str(msg))),
        }
    }
}

} // verus!
