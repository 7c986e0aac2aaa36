//! Image format identity, magic-byte detection and per-format capabilities.

use vstd::prelude::*;
use vstd::string::*;
use crate::bytes::{fourcc_at, has_fourcc};

verus! {

/// Supported image formats.
#[non_exhaustive]
#[derive(Clone, Copy, Debug, PartialEq, Eq, Hash, Structural)]
pub enum ImageFormat {
    Jpeg,
    WebP,
    Gif,
    Png,
    Avif,
    Jxl,
}

/// JPEG signature: `FF D8 FF` at the start.
pub open spec fn is_jpeg_magic(s: Seq<u8>) -> bool {
    s.len() >= 3 && s[0] == 0xFF && s[1] == 0xD8 && s[2] == 0xFF
}

/// PNG signature: the fixed eight bytes `89 50 4E 47 0D 0A 1A 0A`.
pub open spec fn is_png_magic(s: Seq<u8>) -> bool {
    fourcc_at(s, 0, 0x89, 0x50, 0x4E, 0x47) && fourcc_at(s, 4, 0x0D, 0x0A, 0x1A, 0x0A)
}

/// GIF signature: `GIF87a` or `GIF89a`.
pub open spec fn is_gif_magic(s: Seq<u8>) -> bool {
    s.len() >= 6 && fourcc_at(s, 0, 0x47, 0x49, 0x46, 0x38) && (s[4] == 0x37 || s[4] == 0x39)
        && s[5] == 0x61
}

/// WebP signature: `RIFF` at offset 0 and `WEBP` at offset 8.
pub open spec fn is_webp_magic(s: Seq<u8>) -> bool {
    fourcc_at(s, 0, 0x52, 0x49, 0x46, 0x46) && fourcc_at(s, 8, 0x57, 0x45, 0x42, 0x50)
}

/// AVIF signature: an `ftyp` box tag at offset 4 whose major brand is `avif`
/// or `avis`.
pub open spec fn is_avif_magic(s: Seq<u8>) -> bool {
    fourcc_at(s, 4, 0x66, 0x74, 0x79, 0x70) && (fourcc_at(s, 8, 0x61, 0x76, 0x69, 0x66)
        || fourcc_at(s, 8, 0x61, 0x76, 0x69, 0x73))
}

/// JPEG XL bare codestream signature: `FF 0A`.
pub open spec fn is_jxl_codestream_magic(s: Seq<u8>) -> bool {
    s.len() >= 2 && s[0] == 0xFF && s[1] == 0x0A
}

/// JPEG XL container signature: `00 00 00 0C 4A 58 4C 20 0D 0A 87 0A`.
pub open spec fn is_jxl_container_magic(s: Seq<u8>) -> bool {
    fourcc_at(s, 0, 0x00, 0x00, 0x00, 0x0C) && fourcc_at(s, 4, 0x4A, 0x58, 0x4C, 0x20)
        && fourcc_at(s, 8, 0x0D, 0x0A, 0x87, 0x0A)
}

/// The format whose signature `s` starts with, if any.
pub open spec fn spec_detect(s: Seq<u8>) -> Option<ImageFormat> {
    if is_jpeg_magic(s) {
        Some(ImageFormat::Jpeg)
    } else if is_png_magic(s) {
        Some(ImageFormat::Png)
    } else if is_gif_magic(s) {
        Some(ImageFormat::Gif)
    } else if is_webp_magic(s) {
        Some(ImageFormat::WebP)
    } else if is_avif_magic(s) {
        Some(ImageFormat::Avif)
    } else if is_jxl_codestream_magic(s) || is_jxl_container_magic(s) {
        Some(ImageFormat::Jxl)
    } else {
        None
    }
}

/// Whether `s` carries the signature of `format`.
pub open spec fn has_magic_of(s: Seq<u8>, format: ImageFormat) -> bool {
    match format {
        ImageFormat::Jpeg => is_jpeg_magic(s),
        ImageFormat::Png => is_png_magic(s),
        ImageFormat::Gif => is_gif_magic(s),
        ImageFormat::WebP => is_webp_magic(s),
        ImageFormat::Avif => is_avif_magic(s),
        ImageFormat::Jxl => is_jxl_codestream_magic(s) || is_jxl_container_magic(s),
    }
}

/// Detection reports a format only when that format's signature is present,
/// and reports none only when no signature is. The signatures of JPEG, PNG,
/// GIF and WebP exclude one another and all others, so each is reported
/// exactly when present. An `ftyp` tag at offset 4 leaves the first bytes
/// free: AVIF yields to a JPEG signature before it, and a JPEG XL codestream
/// signature yields to AVIF.
pub proof fn lemma_detect_matches_signature(s: Seq<u8>, format: ImageFormat)
    ensures
        spec_detect(s) == Some(format) ==> has_magic_of(s, format),
        has_magic_of(s, format) ==> spec_detect(s).is_some(),
        format != ImageFormat::Avif && format != ImageFormat::Jxl ==> (spec_detect(s) == Some(format)
            <==> has_magic_of(s, format)),
        spec_detect(s) == Some(ImageFormat::Avif) <==> is_avif_magic(s) && !is_jpeg_magic(s),
        spec_detect(s) == Some(ImageFormat::Jxl) <==> has_magic_of(s, ImageFormat::Jxl)
            && !is_avif_magic(s),
{
}

/// Detection looks at no more than the first twelve bytes: a twelve-byte
/// prefix is detected as the whole input is.
pub proof fn lemma_detect_reads_twelve_bytes(s: Seq<u8>)
    requires
        s.len() >= 12,
    ensures
        spec_detect(s.subrange(0, 12)) == spec_detect(s),
{
}

/// ASCII lower-case form of `c`; other characters are unchanged.
pub open spec fn ascii_lower(c: char) -> char {
    if 'A' <= c && c <= 'Z' {
        (((c as u8) + 32) as u8) as char
    } else {
        c
    }
}

/// `s` equals `word` once its ASCII upper-case letters are folded to lower
/// case.
pub open spec fn eq_ignore_ascii_case(s: Seq<char>, word: Seq<char>) -> bool {
    s.len() == word.len() && forall|i: int| 0 <= i < s.len() ==> ascii_lower(#[trigger] s[i]) == word[i]
}

/// The format that a file extension names, compared without regard to ASCII
/// case.
pub open spec fn spec_from_extension(ext: Seq<char>) -> Option<ImageFormat> {
    if eq_ignore_ascii_case(ext, "jpg"@) || eq_ignore_ascii_case(ext, "jpeg"@)
        || eq_ignore_ascii_case(ext, "jpe"@) || eq_ignore_ascii_case(ext, "jfif"@) {
        Some(ImageFormat::Jpeg)
    } else if eq_ignore_ascii_case(ext, "webp"@) {
        Some(ImageFormat::WebP)
    } else if eq_ignore_ascii_case(ext, "gif"@) {
        Some(ImageFormat::Gif)
    } else if eq_ignore_ascii_case(ext, "png"@) {
        Some(ImageFormat::Png)
    } else if eq_ignore_ascii_case(ext, "avif"@) {
        Some(ImageFormat::Avif)
    } else if eq_ignore_ascii_case(ext, "jxl"@) {
        Some(ImageFormat::Jxl)
    } else {
        None
    }
}

fn lower_char(c: char) -> (r: char)
    ensures
        r == ascii_lower(c),
{
    if 'A' <= c && c <= 'Z' {
        ((c as u8) + 32) as char
    } else {
        c
    }
}

fn matches_ignore_case(ext: &str, word: &str) -> (r: bool)
    ensures
        r == eq_ignore_ascii_case(ext@, word@),
{
    let n = ext.unicode_len();
    if n != word.unicode_len() {
        return false;
    }
    let mut i: usize = 0;
    while i < n
        invariant
            n == ext@.len(),
            n == word@.len(),
            i <= n,
            forall|j: int| 0 <= j < i ==> ascii_lower(#[trigger] ext@[j]) == word@[j],
        decreases n - i,
    {
        if lower_char(ext.get_char(i)) != word.get_char(i) {
            return false;
        }
        i += 1;
    }
    true
}

impl ImageFormat {
    /// Recommended bytes to fetch for probing any format.
    pub const RECOMMENDED_PROBE_BYTES: usize = 4096;

    /// Detect format from magic bytes. Returns `None` if unrecognized.
    pub fn detect(data: &[u8]) -> (r: Option<ImageFormat>)
        ensures
            r == spec_detect(data@),
    {
        let n = data.len();
        if n >= 3 && data[0] == 0xFF && data[1] == 0xD8 && data[2] == 0xFF {
            return Some(ImageFormat::Jpeg);
        }
        if has_fourcc(data, 0, 0x89, 0x50, 0x4E, 0x47) && has_fourcc(data, 4, 0x0D, 0x0A, 0x1A, 0x0A) {
            return Some(ImageFormat::Png);
        }
        if n >= 6 && has_fourcc(data, 0, 0x47, 0x49, 0x46, 0x38) && (data[4] == 0x37 || data[4] == 0x39)
            && data[5] == 0x61 {
            return Some(ImageFormat::Gif);
        }
        if has_fourcc(data, 0, 0x52, 0x49, 0x46, 0x46) && has_fourcc(data, 8, 0x57, 0x45, 0x42, 0x50) {
            return Some(ImageFormat::WebP);
        }
        if has_fourcc(data, 4, 0x66, 0x74, 0x79, 0x70) && (has_fourcc(data, 8, 0x61, 0x76, 0x69, 0x66)
            || has_fourcc(data, 8, 0x61, 0x76, 0x69, 0x73)) {
            return Some(ImageFormat::Avif);
        }
        if n >= 2 && data[0] == 0xFF && data[1] == 0x0A {
            return Some(ImageFormat::Jxl);
        }
        if has_fourcc(data, 0, 0x00, 0x00, 0x00, 0x0C) && has_fourcc(data, 4, 0x4A, 0x58, 0x4C, 0x20)
            && has_fourcc(data, 8, 0x0D, 0x0A, 0x87, 0x0A) {
            return Some(ImageFormat::Jxl);
        }
        None
    }

    /// Detect format from file extension (case-insensitive).
    pub fn from_extension(ext: &str) -> (r: Option<ImageFormat>)
        ensures
            r == spec_from_extension(ext@),
    {
        if matches_ignore_case(ext, "jpg") || matches_ignore_case(ext, "jpeg") || matches_ignore_case(
            ext,
            "jpe",
        ) || matches_ignore_case(ext, "jfif") {
            Some(ImageFormat::Jpeg)
        } else if matches_ignore_case(ext, "webp") {
            Some(ImageFormat::WebP)
        } else if matches_ignore_case(ext, "gif") {
            Some(ImageFormat::Gif)
        } else if matches_ignore_case(ext, "png") {
            Some(ImageFormat::Png)
        } else if matches_ignore_case(ext, "avif") {
            Some(ImageFormat::Avif)
        } else if matches_ignore_case(ext, "jxl") {
            Some(ImageFormat::Jxl)
        } else {
            None
        }
    }

    /// The name of the variant, as debug formatting prints it.
    pub open spec fn spec_name(self) -> Seq<char> {
        match self {
            ImageFormat::Jpeg => "Jpeg"@,
            ImageFormat::WebP => "WebP"@,
            ImageFormat::Gif => "Gif"@,
            ImageFormat::Png => "Png"@,
            ImageFormat::Avif => "Avif"@,
            ImageFormat::Jxl => "Jxl"@,
        }
    }

    /// The name of the variant, as debug formatting prints it.
    pub fn name(self) -> (r: &'static str)
        ensures
            r@ == self.spec_name(),
    {
        match self {
            ImageFormat::Jpeg => "Jpeg",
            ImageFormat::WebP => "WebP",
            ImageFormat::Gif => "Gif",
            ImageFormat::Png => "Png",
            ImageFormat::Avif => "Avif",
            ImageFormat::Jxl => "Jxl",
        }
    }

    /// MIME type of the format.
    pub open spec fn spec_mime_type(self) -> Seq<char> {
        match self {
            ImageFormat::Jpeg => "image/jpeg"@,
            ImageFormat::WebP => "image/webp"@,
            ImageFormat::Gif => "image/gif"@,
            ImageFormat::Png => "image/png"@,
            ImageFormat::Avif => "image/avif"@,
            ImageFormat::Jxl => "image/jxl"@,
        }
    }

    /// MIME type string.
    pub fn mime_type(self) -> (r: &'static str)
        ensures
            r@ == self.spec_mime_type(),
    {
        match self {
            ImageFormat::Jpeg => "image/jpeg",
            ImageFormat::WebP => "image/webp",
            ImageFormat::Gif => "image/gif",
            ImageFormat::Png => "image/png",
            ImageFormat::Avif => "image/avif",
            ImageFormat::Jxl => "image/jxl",
        }
    }

    /// Common file extensions of the format, the primary one first.
    pub open spec fn spec_extensions(self) -> Seq<Seq<char>> {
        match self {
            ImageFormat::Jpeg => seq!["jpg"@, "jpeg"@, "jpe"@, "jfif"@],
            ImageFormat::WebP => seq!["webp"@],
            ImageFormat::Gif => seq!["gif"@],
            ImageFormat::Png => seq!["png"@],
            ImageFormat::Avif => seq!["avif"@],
            ImageFormat::Jxl => seq!["jxl"@],
        }
    }

    /// Common file extensions.
    pub fn extensions(self) -> (r: &'static [&'static str])
        ensures
            r@.len() == self.spec_extensions().len(),
            forall|i: int| 0 <= i < r@.len() ==> (#[trigger] r@[i])@ == self.spec_extensions()[i],
    {
        match self {
            ImageFormat::Jpeg => &["jpg", "jpeg", "jpe", "jfif"],
            ImageFormat::WebP => &["webp"],
            ImageFormat::Gif => &["gif"],
            ImageFormat::Png => &["png"],
            ImageFormat::Avif => &["avif"],
            ImageFormat::Jxl => &["jxl"],
        }
    }

    /// Whether this format supports lossy encoding.
    pub open spec fn spec_supports_lossy(self) -> bool {
        self == ImageFormat::Jpeg || self == ImageFormat::WebP || self == ImageFormat::Avif
            || self == ImageFormat::Jxl
    }

    /// Whether this format supports lossy encoding.
    #[verifier::when_used_as_spec(spec_supports_lossy)]
    pub fn supports_lossy(self) -> (r: bool)
        ensures
            r == self.spec_supports_lossy(),
    {
        match self {
            ImageFormat::Jpeg => true,
            ImageFormat::WebP => true,
            ImageFormat::Gif => false,
            ImageFormat::Png => false,
            ImageFormat::Avif => true,
            ImageFormat::Jxl => true,
        }
    }

    /// Whether this format supports lossless encoding.
    pub open spec fn spec_supports_lossless(self) -> bool {
        self == ImageFormat::WebP || self == ImageFormat::Gif || self == ImageFormat::Png
            || self == ImageFormat::Jxl
    }

    /// Whether this format supports lossless encoding.
    #[verifier::when_used_as_spec(spec_supports_lossless)]
    pub fn supports_lossless(self) -> (r: bool)
        ensures
            r == self.spec_supports_lossless(),
    {
        match self {
            ImageFormat::Jpeg => false,
            ImageFormat::WebP => true,
            ImageFormat::Gif => true,
            ImageFormat::Png => true,
            ImageFormat::Avif => false,
            ImageFormat::Jxl => true,
        }
    }

    /// Whether this format supports animation.
    pub open spec fn spec_supports_animation(self) -> bool {
        self == ImageFormat::WebP || self == ImageFormat::Gif || self == ImageFormat::Jxl
    }

    /// Whether this format supports animation.
    #[verifier::when_used_as_spec(spec_supports_animation)]
    pub fn supports_animation(self) -> (r: bool)
        ensures
            r == self.spec_supports_animation(),
    {
        match self {
            ImageFormat::Jpeg => false,
            ImageFormat::WebP => true,
            ImageFormat::Gif => true,
            ImageFormat::Png => false,
            ImageFormat::Avif => false,
            ImageFormat::Jxl => true,
        }
    }

    /// Bytes that a caller should fetch before expecting dimensions.
    pub open spec fn spec_min_probe_bytes(self) -> usize {
        match self {
            ImageFormat::Png => 33,
            ImageFormat::Gif => 13,
            ImageFormat::WebP => 30,
            ImageFormat::Jpeg => 2048,
            ImageFormat::Avif => 512,
            ImageFormat::Jxl => 256,
        }
    }

    /// Minimum bytes needed for reliable dimension probing of this format.
    #[verifier::when_used_as_spec(spec_min_probe_bytes)]
    pub fn min_probe_bytes(self) -> (r: usize)
        ensures
            r == self.spec_min_probe_bytes(),
            r <= ImageFormat::RECOMMENDED_PROBE_BYTES,
    {
        match self {
            ImageFormat::Png => 33,
            ImageFormat::Gif => 13,
            ImageFormat::WebP => 30,
            ImageFormat::Jpeg => 2048,
            ImageFormat::Avif => 512,
            ImageFormat::Jxl => 256,
        }
    }

    /// Whether this format supports an alpha channel.
    pub open spec fn spec_supports_alpha(self) -> bool {
        self != ImageFormat::Jpeg
    }

    /// Whether this format supports alpha channel.
    #[verifier::when_used_as_spec(spec_supports_alpha)]
    pub fn supports_alpha(self) -> (r: bool)
        ensures
            r == self.spec_supports_alpha(),
    {
        match self {
            ImageFormat::Jpeg => false,
            ImageFormat::WebP => true,
            ImageFormat::Gif => true,
            ImageFormat::Png => true,
            ImageFormat::Avif => true,
            ImageFormat::Jxl => true,
        }
    }
}

} // verus!
