//! Argument values of the command-line tool and what they resolve to.

use vstd::prelude::*;
use vstd::string::*;
use crate::format::{spec_from_extension, ImageFormat};

verus! {

/// Arguments for the `info` subcommand.
#[derive(Debug)]
pub struct InfoArgs {
    /// Input files or glob patterns.
    pub files: Vec<String>,
    /// Output as JSON.
    pub json: bool,
}

/// Target image format.
#[derive(Clone, Copy, Debug, PartialEq, Eq, Structural)]
pub enum FormatArg {
    Jpeg,
    Webp,
    Png,
    Gif,
    Avif,
    Jxl,
}

impl FormatArg {
    /// The image format that the argument names.
    pub open spec fn spec_to_image_format(self) -> ImageFormat {
        match self {
            FormatArg::Jpeg => ImageFormat::Jpeg,
            FormatArg::Webp => ImageFormat::WebP,
            FormatArg::Png => ImageFormat::Png,
            FormatArg::Gif => ImageFormat::Gif,
            FormatArg::Avif => ImageFormat::Avif,
            FormatArg::Jxl => ImageFormat::Jxl,
        }
    }

    #[verifier::when_used_as_spec(spec_to_image_format)]
    pub fn to_image_format(self) -> (r: ImageFormat)
        ensures
            r == self.spec_to_image_format(),
    {
        match self {
            FormatArg::Jpeg => ImageFormat::Jpeg,
            FormatArg::Webp => ImageFormat::WebP,
            FormatArg::Png => ImageFormat::Png,
            FormatArg::Gif => ImageFormat::Gif,
            FormatArg::Avif => ImageFormat::Avif,
            FormatArg::Jxl => ImageFormat::Jxl,
        }
    }
}

/// Quality preset.
#[derive(Clone, Copy, Debug, PartialEq, Eq, Structural)]
pub enum PresetArg {
    Lossless,
    NearLossless,
    High,
    Balanced,
    Small,
}

/// Fit mode for resize operations.
#[derive(Clone, Copy, Debug, PartialEq, Eq, Structural)]
pub enum FitMode {
    /// Fit within bounds, never upscale (default).
    ScaleDown,
    /// Fit within bounds, may upscale.
    Contain,
    /// Fill bounds, cropping excess.
    Cover,
    /// Fit within bounds, pad to fill.
    Pad,
    /// Stretch to exact dimensions.
    Fill,
}

impl Default for FitMode {
    fn default() -> (r: FitMode)
        ensures
            r == FitMode::ScaleDown,
    {
        FitMode::ScaleDown
    }
}

/// Flip direction.
#[derive(Clone, Copy, Debug, PartialEq, Eq, Structural)]
pub enum FlipArg {
    /// Flip horizontally.
    H,
    /// Flip vertically.
    V,
}

/// The quality that a preset stands for with a format, in tenths of a
/// percent. JPEG XL has its own scale; AVIF sits below JPEG and WebP.
pub open spec fn spec_preset_quality_tenths(preset: PresetArg, format: ImageFormat) -> u16 {
    match preset {
        PresetArg::Lossless => 1000,
        PresetArg::NearLossless => match format {
            ImageFormat::WebP => 950,
            ImageFormat::Avif => 950,
            ImageFormat::Jxl => 995,
            _ => 970,
        },
        PresetArg::High => match format {
            ImageFormat::Avif => 850,
            ImageFormat::Jxl => 990,
            _ => 900,
        },
        PresetArg::Balanced => match format {
            ImageFormat::Avif => 700,
            ImageFormat::Jxl => 980,
            _ => 800,
        },
        PresetArg::Small => match format {
            ImageFormat::Avif => 450,
            ImageFormat::Jxl => 960,
            _ => 600,
        },
    }
}

/// Map a quality preset to a concrete quality value for a given format, in
/// tenths of a percent.
pub fn preset_quality_tenths(preset: PresetArg, format: ImageFormat) -> (r: u16)
    ensures
        r == spec_preset_quality_tenths(preset, format),
        450 <= r <= 1000,
{
    match preset {
        PresetArg::Lossless => 1000,
        PresetArg::NearLossless => match format {
            ImageFormat::Jpeg => 970,
            ImageFormat::WebP => 950,
            ImageFormat::Avif => 950,
            ImageFormat::Jxl => 995,
            _ => 970,
        },
        PresetArg::High => match format {
            ImageFormat::Jpeg => 900,
            ImageFormat::WebP => 900,
            ImageFormat::Avif => 850,
            ImageFormat::Jxl => 990,
            _ => 900,
        },
        PresetArg::Balanced => match format {
            ImageFormat::Jpeg => 800,
            ImageFormat::WebP => 800,
            ImageFormat::Avif => 700,
            ImageFormat::Jxl => 980,
            _ => 800,
        },
        PresetArg::Small => match format {
            ImageFormat::Jpeg => 600,
            ImageFormat::WebP => 600,
            ImageFormat::Avif => 450,
            ImageFormat::Jxl => 960,
            _ => 600,
        },
    }
}

/// What a preset asks of an encoder for a format: a quality in tenths of a
/// percent, or none, and whether to encode without loss. PNG and GIF are
/// always lossless. The lossless preset is lossless where the format can
/// be, and full quality where it cannot.
pub open spec fn spec_preset_for_format(preset: PresetArg, format: ImageFormat) -> (Option<u16>, bool) {
    if format == ImageFormat::Png || format == ImageFormat::Gif {
        (None, true)
    } else if preset == PresetArg::Lossless && format.spec_supports_lossless() {
        (None, true)
    } else {
        (Some(spec_preset_quality_tenths(preset, format)), false)
    }
}

/// Map a preset to a (quality, lossless) pair for the given format.
pub fn preset_for_format(preset: PresetArg, format: ImageFormat) -> (r: (Option<u16>, bool))
    ensures
        r == spec_preset_for_format(preset, format),
{
    if matches!(format, ImageFormat::Png | ImageFormat::Gif) {
        return (None, true);
    }
    match preset {
        PresetArg::Lossless => {
            if format.supports_lossless() {
                (None, true)
            } else {
                (Some(1000), false)
            }
        },
        _ => (Some(preset_quality_tenths(preset, format)), false),
    }
}

/// The target format: the explicit one if given, else the one that the
/// extension of the output path names, else none.
pub open spec fn spec_resolve_format(format: Option<FormatArg>, output_extension: Option<Seq<char>>) -> Option<
    ImageFormat,
> {
    match format {
        Some(f) => Some(f.spec_to_image_format()),
        None => match output_extension {
            Some(ext) => spec_from_extension(ext),
            None => None,
        },
    }
}

/// Resolve the target format from the explicit format or the extension of
/// the output path; `None` means: same as the input.
pub fn resolve_format(format: Option<FormatArg>, output_extension: Option<&str>) -> (r: Option<
    ImageFormat,
>)
    ensures
        r == spec_resolve_format(
            format,
            match output_extension {
                Some(e) => Some(e@),
                None => None,
            },
        ),
{
    if let Some(fmt) = format {
        return Some(fmt.to_image_format());
    }
    if let Some(ext) = output_extension {
        if let Some(fmt) = ImageFormat::from_extension(ext) {
            return Some(fmt);
        }
    }
    None
}

/// Why a size argument was refused.
#[derive(Clone, Copy, Debug, PartialEq, Eq, Structural)]
pub enum SizeError {
    /// The text does not consist of two parts around one `x`.
    NotTwoParts,
    /// The part in front of the `x` is no 32-bit number.
    InvalidWidth,
    /// The part behind the `x` is no 32-bit number.
    InvalidHeight,
}

/// The value of the decimal digit `c`.
pub open spec fn digit_value(c: char) -> int {
    c as int - '0' as int
}

/// `c` is one of the digits `0` to `9`.
pub open spec fn is_digit(c: char) -> bool {
    '0' <= c && c <= '9'
}

/// The number that the digits of `s` spell.
pub open spec fn decimal_value(s: Seq<char>) -> int
    decreases s.len(),
{
    if s.len() == 0 {
        0
    } else {
        decimal_value(s.drop_last()) * 10 + digit_value(s.last())
    }
}

/// The digits behind an optional leading plus sign.
pub open spec fn unsigned_digits(s: Seq<char>) -> Seq<char> {
    if s.len() > 0 && s[0] == '+' {
        s.subrange(1, s.len() as int)
    } else {
        s
    }
}

/// The 32-bit number that `s` spells: an optional plus sign and at least
/// one digit, nothing else, with a value that fits.
pub open spec fn spec_parse_u32(s: Seq<char>) -> Option<u32> {
    let digits = unsigned_digits(s);
    if digits.len() > 0 && (forall|i: int| 0 <= i < digits.len() ==> is_digit(#[trigger] digits[i]))
        && decimal_value(digits) <= u32::MAX {
        Some(decimal_value(digits) as u32)
    } else {
        None
    }
}

proof fn lemma_decimal_value_grows(s: Seq<char>, n: int)
    requires
        0 <= n <= s.len(),
        forall|i: int| 0 <= i < s.len() ==> is_digit(#[trigger] s[i]),
    ensures
        0 <= decimal_value(s.subrange(0, n)) <= decimal_value(s),
    decreases s.len() - n,
{
    if n == s.len() {
        assert(s.subrange(0, n) =~= s);
        lemma_decimal_value_nonnegative(s);
    } else {
        lemma_decimal_value_grows(s, n + 1);
        let next = s.subrange(0, n + 1);
        assert(next.drop_last() =~= s.subrange(0, n));
        assert(is_digit(s[n]));
        lemma_decimal_value_nonnegative(s.subrange(0, n));
    }
}

proof fn lemma_decimal_value_nonnegative(s: Seq<char>)
    requires
        forall|i: int| 0 <= i < s.len() ==> is_digit(#[trigger] s[i]),
    ensures
        0 <= decimal_value(s),
    decreases s.len(),
{
    if s.len() > 0 {
        lemma_decimal_value_nonnegative(s.drop_last());
        assert(is_digit(s.last()));
    }
}

/// Parse `text[from..to]`, counted in characters, as a 32-bit number.
fn parse_u32_part(text: &str, from: usize, to: usize) -> (r: Option<u32>)
    requires
        from <= to <= text@.len(),
    ensures
        r == spec_parse_u32(text@.subrange(from as int, to as int)),
{
    let ghost part = text@.subrange(from as int, to as int);
    let mut start = from;
    if start < to && text.get_char(start) == '+' {
        start += 1;
    }
    let ghost digits = unsigned_digits(part);
    assert(digits =~= text@.subrange(start as int, to as int));
    if start == to {
        return None;
    }
    let mut value: u32 = 0;
    let mut i = start;
    while i < to
        invariant
            from <= start <= i <= to <= text@.len(),
            part == text@.subrange(from as int, to as int),
            digits == unsigned_digits(part),
            digits == text@.subrange(start as int, to as int),
            forall|j: int| 0 <= j < i - start ==> is_digit(#[trigger] digits[j]),
            value == decimal_value(digits.subrange(0, i - start)),
        decreases to - i,
    {
        let c = text.get_char(i);
        assert(digits[i - start] == c);
        if !('0' <= c && c <= '9') {
            assert(!is_digit(digits[i - start]));
            return None;
        }
        let d: u32 = (c as u32) - ('0' as u32);
        proof {
            let next = digits.subrange(0, i - start + 1);
            assert(next.drop_last() =~= digits.subrange(0, i - start));
            assert(decimal_value(next) == value * 10 + d);
            if forall|j: int| 0 <= j < digits.len() ==> is_digit(#[trigger] digits[j]) {
                lemma_decimal_value_grows(digits, i - start + 1);
            }
        }
        if value > (u32::MAX - d) / 10 {
            // The value so far already exceeds the range, whatever follows.
            proof {
                assert(value * 10 + d > u32::MAX);
            }
            return None;
        }
        value = value * 10 + d;
        i += 1;
    }
    assert(digits.subrange(0, digits.len() as int) =~= digits);
    Some(value)
}

/// The position of the first `x` in `s` at or behind `from`; the length of
/// `s` where there is none.
pub open spec fn next_separator(s: Seq<char>, from: int) -> int
    decreases s.len() - from,
{
    if from < 0 || from >= s.len() {
        s.len() as int
    } else if s[from] == 'x' {
        from
    } else {
        next_separator(s, from + 1)
    }
}

/// What a size text of the form `WxH` spells: it must hold exactly one
/// `x`, with a 32-bit number on either side.
pub open spec fn spec_parse_size(s: Seq<char>) -> Result<(u32, u32), SizeError> {
    let at = next_separator(s, 0);
    if at >= s.len() || next_separator(s, at + 1) < s.len() {
        Err(SizeError::NotTwoParts)
    } else {
        match spec_parse_u32(s.subrange(0, at)) {
            None => Err(SizeError::InvalidWidth),
            Some(w) => match spec_parse_u32(s.subrange(at + 1, s.len() as int)) {
                None => Err(SizeError::InvalidHeight),
                Some(h) => Ok((w, h)),
            },
        }
    }
}

/// The position of the first `x` at or behind `from`, or the length.
fn find_separator(text: &str, from: usize) -> (r: usize)
    requires
        from <= text@.len(),
    ensures
        r == next_separator(text@, from as int),
        from <= r <= text@.len(),
{
    let n = text.unicode_len();
    let mut i = from;
    while i < n
        invariant
            n == text@.len(),
            from <= i <= n,
            next_separator(text@, i as int) == next_separator(text@, from as int),
        decreases n - i,
    {
        if text.get_char(i) == 'x' {
            return i;
        }
        i += 1;
    }
    i
}

/// Parse a size of the form `WxH` into (width, height).
pub fn parse_size(size: &str) -> (r: Result<(u32, u32), SizeError>)
    ensures
        r == spec_parse_size(size@),
{
    let n = size.unicode_len();
    let at = find_separator(size, 0);
    if at >= n {
        return Err(SizeError::NotTwoParts);
    }
    if find_separator(size, at + 1) < n {
        return Err(SizeError::NotTwoParts);
    }
    let w = match parse_u32_part(size, 0, at) {
        Some(w) => w,
        None => {
            return Err(SizeError::InvalidWidth);
        },
    };
    let h = match parse_u32_part(size, at + 1, n) {
        Some(h) => h,
        None => {
            return Err(SizeError::InvalidHeight);
        },
    };
    Ok((w, h))
}

/// The target dimensions: what the size text spells if one is given; else
/// width and height, a missing one of the two standing as 0 (to be
/// computed); else none.
pub open spec fn spec_resolve_dimensions(
    size: Option<Seq<char>>,
    width: Option<u32>,
    height: Option<u32>,
) -> Result<
    Option<(u32, u32)>,
    SizeError,
> {
    match size {
        Some(s) => match spec_parse_size(s) {
            Ok(d) => Ok(Some(d)),
            Err(e) => Err(e),
        },
        None => match (width, height) {
            (Some(w), Some(h)) => Ok(Some((w, h))),
            (Some(w), None) => Ok(Some((w, 0u32))),
            (None, Some(h)) => Ok(Some((0u32, h))),
            (None, None) => Ok(None),
        },
    }
}

/// Resolve the target dimensions from a size text or from width and height.
pub fn resolve_dimensions(size: Option<&str>, width: Option<u32>, height: Option<u32>) -> (r: Result<
    Option<(u32, u32)>,
    SizeError,
>)
    ensures
        r == spec_resolve_dimensions(
            match size {
                Some(s) => Some(s@),
                None => None,
            },
            width,
            height,
        ),
{
    if let Some(s) = size {
        return match parse_size(s) {
            Ok(d) => Ok(Some(d)),
            Err(e) => Err(e),
        };
    }
    match (width, height) {
        (Some(w), Some(h)) => Ok(Some((w, h))),
        (Some(w), None) => Ok(Some((w, 0))),
        (None, Some(h)) => Ok(Some((0, h))),
        (None, None) => Ok(None),
    }
}

/// Which embedded metadata a run keeps: ICC profile, EXIF, XMP.
#[derive(Clone, Copy, Debug, PartialEq, Eq, Structural)]
pub struct KeptMetadata {
    pub icc: bool,
    pub exif: bool,
    pub xmp: bool,
}

/// What the strip flags keep: nothing at all where all is stripped; only
/// the ICC profile where that alone is preserved; else each part unless
/// its own flag strips it.
pub open spec fn spec_kept_metadata(
    strip_all: bool,
    preserve_icc: bool,
    strip_icc: bool,
    strip_exif: bool,
    strip_xmp: bool,
) -> Option<KeptMetadata> {
    if strip_all {
        None
    } else if preserve_icc {
        Some(KeptMetadata { icc: true, exif: false, xmp: false })
    } else {
        Some(KeptMetadata { icc: !strip_icc, exif: !strip_exif, xmp: !strip_xmp })
    }
}

/// Which metadata to embed, by the strip flags; `None` embeds none.
pub fn kept_metadata(
    strip_all: bool,
    preserve_icc: bool,
    strip_icc: bool,
    strip_exif: bool,
    strip_xmp: bool,
) -> (r: Option<KeptMetadata>)
    ensures
        r == spec_kept_metadata(strip_all, preserve_icc, strip_icc, strip_exif, strip_xmp),
{
    if strip_all {
        return None;
    }
    if preserve_icc {
        return Some(KeptMetadata { icc: true, exif: false, xmp: false });
    }
    Some(KeptMetadata { icc: !strip_icc, exif: !strip_exif, xmp: !strip_xmp })
}

/// Where an output goes.
#[derive(Clone, Copy, Debug, PartialEq, Eq, Structural)]
pub enum OutputPlace {
    /// Back to the input path.
    InPlace,
    /// To the one target file.
    TargetFile,
    /// Into the target directory, under the output file name.
    TargetDir,
    /// Beside the input, under the output file name.
    BesideInput,
}

/// Why an output is refused.
#[derive(Clone, Copy, Debug, PartialEq, Eq, Structural)]
pub enum OutputError {
    /// Writing in place needs the force flag.
    InPlaceWithoutForce,
    /// One target file cannot take several inputs.
    FileForManyInputs,
    /// The output is the input, and writing in place was not asked for.
    WouldOverwriteInput,
    /// The output exists, and overwriting was not asked for.
    AlreadyExists,
}

/// Whether an output argument names a directory: it ends in a path
/// separator or is an existing directory.
pub fn names_directory(ends_with_separator: bool, is_dir: bool) -> (r: bool)
    ensures
        r == (ends_with_separator || is_dir),
{
    ends_with_separator || is_dir
}

/// Whether the flags allow a run: writing in place needs force.
pub fn check_flags(in_place: bool, force: bool) -> (r: Result<(), OutputError>)
    ensures
        r == if in_place && !force {
            Err::<(), OutputError>(OutputError::InPlaceWithoutForce)
        } else {
            Ok::<(), OutputError>(())
        },
{
    if in_place && !force {
        Err(OutputError::InPlaceWithoutForce)
    } else {
        Ok(())
    }
}

/// Where the output of one input goes: in place before all else; then the
/// target file, which only a single input may have; then the target
/// directory; else beside the input.
pub open spec fn spec_output_place(
    in_place: bool,
    has_target_file: bool,
    has_target_dir: bool,
    input_count: usize,
) -> Result<
    OutputPlace,
    OutputError,
> {
    if in_place {
        Ok(OutputPlace::InPlace)
    } else if has_target_file {
        if input_count > 1 {
            Err(OutputError::FileForManyInputs)
        } else {
            Ok(OutputPlace::TargetFile)
        }
    } else if has_target_dir {
        Ok(OutputPlace::TargetDir)
    } else {
        Ok(OutputPlace::BesideInput)
    }
}

/// Resolve where the output of one input goes.
pub fn output_place(
    in_place: bool,
    has_target_file: bool,
    has_target_dir: bool,
    input_count: usize,
) -> (r: Result<
    OutputPlace,
    OutputError,
>)
    ensures
        r == spec_output_place(in_place, has_target_file, has_target_dir, input_count),
{
    if in_place {
        return Ok(OutputPlace::InPlace);
    }
    if has_target_file {
        if input_count > 1 {
            return Err(OutputError::FileForManyInputs);
        }
        return Ok(OutputPlace::TargetFile);
    }
    if has_target_dir {
        return Ok(OutputPlace::TargetDir);
    }
    Ok(OutputPlace::BesideInput)
}

/// The output file name: stem, suffix, a dot, extension.
pub fn output_filename(stem: &str, suffix: &str, extension: &str) -> (r: String)
    ensures
        r@ == stem@ + suffix@ + "."@ + extension@,
{
    String::from_str(stem).concat(suffix).concat(".").concat(extension)
}

/// Whether an output path may be written: always in a dry run; else not
/// onto the input unless in place, and not onto an existing file unless
/// forced or in place.
pub open spec fn spec_check_writable(
    dry_run: bool,
    in_place: bool,
    force: bool,
    is_input: bool,
    exists: bool,
) -> Result<
    (),
    OutputError,
> {
    if dry_run {
        Ok(())
    } else if !in_place && is_input {
        Err(OutputError::WouldOverwriteInput)
    } else if exists && !force && !in_place {
        Err(OutputError::AlreadyExists)
    } else {
        Ok(())
    }
}

/// Check if the output path is writable (won't clobber without force).
pub fn check_writable(dry_run: bool, in_place: bool, force: bool, is_input: bool, exists: bool) -> (r: Result<
    (),
    OutputError,
>)
    ensures
        r == spec_check_writable(dry_run, in_place, force, is_input, exists),
{
    if dry_run {
        return Ok(());
    }
    if !in_place && is_input {
        return Err(OutputError::WouldOverwriteInput);
    }
    if exists && !force && !in_place {
        return Err(OutputError::AlreadyExists);
    }
    Ok(())
}

/// Whether to leave an output unwritten because it is no smaller than the
/// input.
pub fn skip_as_larger(skip_if_larger: bool, input_size: u64, output_size: u64) -> (r: bool)
    ensures
        r == (skip_if_larger && output_size >= input_size),
{
    skip_if_larger && output_size >= input_size
}

/// A file name as a report shows it: as it is up to 38 characters, else
/// two dots and its last 36 characters.
pub open spec fn spec_shorten_name(name: Seq<char>) -> Seq<char> {
    if name.len() > 38 {
        ".."@ + name.subrange(name.len() - 36, name.len() as int)
    } else {
        name
    }
}

/// Shorten a file name for the report.
pub fn shorten_name(name: &str) -> (r: String)
    ensures
        r@ == spec_shorten_name(name@),
{
    let n = name.unicode_len();
    if n > 38 {
        String::from_str("..").concat(name.substring_char(n - 36, n))
    } else {
        String::from_str(name)
    }
}

} // verus!
