//! Decisions of the transcoding pipeline that do not depend on a codec.

use vstd::prelude::*;
use crate::format::ImageFormat;

verus! {

/// How to handle metadata during transcoding.
#[derive(Debug, Clone, Copy, PartialEq, Eq, Structural)]
#[non_exhaustive]
pub enum MetadataPolicy {
    /// Preserve all metadata the target format supports (ICC, EXIF, XMP).
    Preserve,
    /// Strip all metadata.
    Strip,
    /// Preserve only the ICC profile (important for color accuracy).
    PreserveIcc,
}

impl Default for MetadataPolicy {
    fn default() -> (r: MetadataPolicy)
        ensures
            r == MetadataPolicy::Preserve,
    {
        MetadataPolicy::Preserve
    }
}

impl MetadataPolicy {
    /// Whether the policy carries the ICC profile over.
    pub open spec fn spec_keeps_icc(self) -> bool {
        self != MetadataPolicy::Strip
    }

    /// Whether the policy carries EXIF and XMP over.
    pub open spec fn spec_keeps_exif_xmp(self) -> bool {
        self == MetadataPolicy::Preserve
    }

    /// Whether the policy carries the ICC profile over.
    #[verifier::when_used_as_spec(spec_keeps_icc)]
    pub fn keeps_icc(self) -> (r: bool)
        ensures
            r == self.spec_keeps_icc(),
    {
        match self {
            MetadataPolicy::Preserve => true,
            MetadataPolicy::Strip => false,
            MetadataPolicy::PreserveIcc => true,
        }
    }

    /// Whether the policy carries EXIF and XMP over.
    #[verifier::when_used_as_spec(spec_keeps_exif_xmp)]
    pub fn keeps_exif_xmp(self) -> (r: bool)
        ensures
            r == self.spec_keeps_exif_xmp(),
    {
        match self {
            MetadataPolicy::Preserve => true,
            MetadataPolicy::Strip => false,
            MetadataPolicy::PreserveIcc => false,
        }
    }
}

/// The embedded metadata of an image, each part optional.
pub struct OwnedMetadata {
    pub icc_profile: Option<Vec<u8>>,
    pub exif: Option<Vec<u8>>,
    pub xmp: Option<Vec<u8>>,
}

/// What of `metadata` a policy carries over: the ICC profile unless all is
/// stripped, EXIF and XMP only where all is preserved.
pub open spec fn spec_extract_metadata(policy: MetadataPolicy, metadata: OwnedMetadata) -> OwnedMetadata {
    OwnedMetadata {
        icc_profile: if policy.spec_keeps_icc() {
            metadata.icc_profile
        } else {
            None
        },
        exif: if policy.spec_keeps_exif_xmp() {
            metadata.exif
        } else {
            None
        },
        xmp: if policy.spec_keeps_exif_xmp() {
            metadata.xmp
        } else {
            None
        },
    }
}

/// Filter metadata by the metadata policy.
pub fn extract_metadata(policy: MetadataPolicy, metadata: OwnedMetadata) -> (r: OwnedMetadata)
    ensures
        r == spec_extract_metadata(policy, metadata),
{
    match policy {
        MetadataPolicy::Preserve => metadata,
        MetadataPolicy::Strip => OwnedMetadata { icc_profile: None, exif: None, xmp: None },
        MetadataPolicy::PreserveIcc => OwnedMetadata {
            icc_profile: metadata.icc_profile,
            exif: None,
            xmp: None,
        },
    }
}

/// Layout constraint for the pipeline.
#[derive(Clone, Copy, Debug, PartialEq, Eq, Structural)]
pub enum LayoutConstraint {
    /// Scale to fit within the given dimensions (may upscale).
    Fit(u32, u32),
    /// Scale to fit within the given dimensions (never upscale).
    Within(u32, u32),
    /// Fill the given dimensions, cropping excess.
    FitCrop(u32, u32),
    /// Fit within the given dimensions, padding to fill.
    FitPad(u32, u32),
}

/// How the resizer fits a size into a box.
#[derive(Clone, Copy, Debug, PartialEq, Eq, Structural)]
pub enum FitKind {
    /// Keep the aspect, fit inside the box, scaling up or down.
    Fit,
    /// As `Fit`, but never larger than the input.
    Within,
    /// Fill the box, cropping the source to its aspect.
    Cover,
    /// Exactly the box, whatever the aspect.
    Stretch,
}

impl LayoutConstraint {
    /// The constraint with the sides of its box swapped: what applies
    /// before a quarter turn that is made after resizing.
    pub open spec fn spec_turned(self) -> LayoutConstraint {
        match self {
            LayoutConstraint::Fit(w, h) => LayoutConstraint::Fit(h, w),
            LayoutConstraint::Within(w, h) => LayoutConstraint::Within(h, w),
            LayoutConstraint::FitCrop(w, h) => LayoutConstraint::FitCrop(h, w),
            LayoutConstraint::FitPad(w, h) => LayoutConstraint::FitPad(h, w),
        }
    }

    /// The constraint with the sides of its box swapped.
    pub fn turned(self) -> (r: LayoutConstraint)
        ensures
            r == self.spec_turned(),
    {
        match self {
            LayoutConstraint::Fit(w, h) => LayoutConstraint::Fit(h, w),
            LayoutConstraint::Within(w, h) => LayoutConstraint::Within(h, w),
            LayoutConstraint::FitCrop(w, h) => LayoutConstraint::FitCrop(h, w),
            LayoutConstraint::FitPad(w, h) => LayoutConstraint::FitPad(h, w),
        }
    }

    /// The box that the constraint names.
    pub fn bounds(self) -> (r: (u32, u32))
        ensures
            r == self.target(),
    {
        match self {
            LayoutConstraint::Fit(w, h) => (w, h),
            LayoutConstraint::Within(w, h) => (w, h),
            LayoutConstraint::FitCrop(w, h) => (w, h),
            LayoutConstraint::FitPad(w, h) => (w, h),
        }
    }

    /// The box that the constraint names.
    pub open spec fn target(self) -> (u32, u32) {
        match self {
            LayoutConstraint::Fit(w, h) => (w, h),
            LayoutConstraint::Within(w, h) => (w, h),
            LayoutConstraint::FitCrop(w, h) => (w, h),
            LayoutConstraint::FitPad(w, h) => (w, h),
        }
    }

    /// How the output size follows from the box: cropping fills it, padding
    /// makes the canvas exactly as large.
    pub open spec fn fit_kind(self) -> FitKind {
        match self {
            LayoutConstraint::Fit(_, _) => FitKind::Fit,
            LayoutConstraint::Within(_, _) => FitKind::Within,
            LayoutConstraint::FitCrop(_, _) => FitKind::Cover,
            LayoutConstraint::FitPad(_, _) => FitKind::Stretch,
        }
    }
}

/// The number that stands for a fit kind.
pub open spec fn fit_code(kind: FitKind) -> u8 {
    match kind {
        FitKind::Fit => 0,
        FitKind::Within => 1,
        FitKind::Cover => 2,
        FitKind::Stretch => 3,
    }
}

/// The output size that the resizer computes for an input size, a box and
/// a fit kind, given by its code.
pub uninterp spec fn fitted_size(in_w: u32, in_h: u32, max_w: u32, max_h: u32, kind: u8) -> (u32, u32);

/// What the resizer documents of the output size: it is (0, 0) where a
/// side of the input or of the box is 0; otherwise cover and stretch give
/// the box, and within gives the input where the input fits in the box.
pub open spec fn fitted_size_documented(
    input: (u32, u32),
    bounds: (u32, u32),
    kind: FitKind,
    r: (u32, u32),
) -> bool {
    if input.0 == 0 || input.1 == 0 || bounds.0 == 0 || bounds.1 == 0 {
        r == (0u32, 0u32)
    } else {
        &&& kind == FitKind::Cover || kind == FitKind::Stretch ==> r == bounds
        &&& kind == FitKind::Within && input.0 <= bounds.0 && input.1 <= bounds.1 ==> r == input
    }
}

/// Calls `zenresize::fit_dims` with the mode of the same name. The
/// contract names the result and states what the function's own
/// documentation and first lines say of it.
#[verifier::external_body]
fn fit_dims(input: (u32, u32), bounds: (u32, u32), kind: FitKind) -> (r: (u32, u32))
    ensures
        r == fitted_size(input.0, input.1, bounds.0, bounds.1, fit_code(kind)),
        fitted_size_documented(input, bounds, kind, r),
{
    let mode = match kind {
        FitKind::Fit => zenresize::FitMode::Fit,
        FitKind::Within => zenresize::FitMode::Within,
        FitKind::Cover => zenresize::FitMode::Cover,
        FitKind::Stretch => zenresize::FitMode::Stretch,
    };
    zenresize::fit_dims(input.0, input.1, bounds.0, bounds.1, mode)
}

/// The size of the output for a source size and an optional constraint:
/// the source size without one, else what the resizer computes.
pub open spec fn spec_output_size(source: (u32, u32), constraint: Option<LayoutConstraint>) -> (u32, u32) {
    match constraint {
        None => source,
        Some(c) => fitted_size(source.0, source.1, c.target().0, c.target().1, fit_code(c.fit_kind())),
    }
}

/// The size of the pipeline's output.
pub fn output_size(source: (u32, u32), constraint: Option<LayoutConstraint>) -> (r: (u32, u32))
    ensures
        r == spec_output_size(source, constraint),
        constraint matches Some(c) ==> fitted_size_documented(source, c.target(), c.fit_kind(), r),
{
    match constraint {
        None => source,
        Some(LayoutConstraint::Fit(w, h)) => fit_dims(source, (w, h), FitKind::Fit),
        Some(LayoutConstraint::Within(w, h)) => fit_dims(source, (w, h), FitKind::Within),
        Some(LayoutConstraint::FitCrop(w, h)) => fit_dims(source, (w, h), FitKind::Cover),
        Some(LayoutConstraint::FitPad(w, h)) => fit_dims(source, (w, h), FitKind::Stretch),
    }
}

/// Padding around content centred on a canvas, as top, right, bottom and
/// left. Along each axis the content that exceeds the canvas counts as
/// filling it; of an odd rest the smaller half is in front.
pub open spec fn spec_centered_padding(canvas: (u32, u32), content: (u32, u32)) -> (u32, u32, u32, u32) {
    let rest_w = if content.0 < canvas.0 {
        canvas.0 - content.0
    } else {
        0
    };
    let rest_h = if content.1 < canvas.1 {
        canvas.1 - content.1
    } else {
        0
    };
    ((rest_h / 2) as u32, (rest_w - rest_w / 2) as u32, (rest_h - rest_h / 2) as u32, (rest_w / 2) as u32)
}

/// Padding that centres content on a canvas: top, right, bottom, left.
pub fn centered_padding(canvas: (u32, u32), content: (u32, u32)) -> (r: (u32, u32, u32, u32))
    ensures
        r == spec_centered_padding(canvas, content),
        content.0 <= canvas.0 ==> r.3 + content.0 + r.1 == canvas.0,
        content.1 <= canvas.1 ==> r.0 + content.1 + r.2 == canvas.1,
        r.3 <= r.1 <= r.3 + 1,
        r.0 <= r.2 <= r.0 + 1,
{
    let rest_w = if content.0 < canvas.0 {
        canvas.0 - content.0
    } else {
        0
    };
    let rest_h = if content.1 < canvas.1 {
        canvas.1 - content.1
    } else {
        0
    };
    (rest_h / 2, rest_w - rest_w / 2, rest_h - rest_h / 2, rest_w / 2)
}

/// The size that an image of `width` by `height` is displayed at under an
/// EXIF orientation: the values 5 to 8 turn it by a quarter and so swap the
/// sides.
pub open spec fn spec_oriented_size(width: u32, height: u32, exif_orientation: u8) -> (u32, u32) {
    if 5 <= exif_orientation <= 8 {
        (height, width)
    } else {
        (width, height)
    }
}

/// The display size under an EXIF orientation.
pub fn oriented_size(width: u32, height: u32, exif_orientation: u8) -> (r: (u32, u32))
    ensures
        r == spec_oriented_size(width, height, exif_orientation),
{
    if 5 <= exif_orientation && exif_orientation <= 8 {
        (height, width)
    } else {
        (width, height)
    }
}

/// The pixel format that the pipeline works in.
#[derive(Clone, Copy, Debug, PartialEq, Eq, Structural)]
pub enum PixelPath {
    /// One grey channel.
    Gray,
    /// Red, green, blue, alpha.
    Rgba,
    /// Red, green, blue.
    Rgb,
}

/// The working format for a source: grey where it is greyscale without
/// alpha, RGBA where it has alpha, else RGB.
pub open spec fn spec_pixel_path(is_grayscale: bool, has_alpha: bool) -> PixelPath {
    if is_grayscale && !has_alpha {
        PixelPath::Gray
    } else if has_alpha {
        PixelPath::Rgba
    } else {
        PixelPath::Rgb
    }
}

/// Determine the working pixel format based on the source.
pub fn pixel_path(is_grayscale: bool, has_alpha: bool) -> (r: PixelPath)
    ensures
        r == spec_pixel_path(is_grayscale, has_alpha),
{
    if is_grayscale && !has_alpha {
        PixelPath::Gray
    } else if has_alpha {
        PixelPath::Rgba
    } else {
        PixelPath::Rgb
    }
}

/// Whether the input bytes can be handed through unchanged: nothing is
/// resized, the format stays, the preset is lossless, and no orientation
/// has to be applied.
pub open spec fn spec_is_passthrough(
    has_resize: bool,
    source: ImageFormat,
    target: ImageFormat,
    lossless_preset: bool,
    auto_orient: bool,
    orientation_is_identity: bool,
) -> bool {
    !has_resize && source == target && lossless_preset && (!auto_orient || orientation_is_identity)
}

/// Check for lossless passthrough.
pub fn is_passthrough(
    has_resize: bool,
    source: ImageFormat,
    target: ImageFormat,
    lossless_preset: bool,
    auto_orient: bool,
    orientation_is_identity: bool,
) -> (r: bool)
    ensures
        r == spec_is_passthrough(
            has_resize,
            source,
            target,
            lossless_preset,
            auto_orient,
            orientation_is_identity,
        ),
{
    !has_resize && source == target && lossless_preset && (!auto_orient || orientation_is_identity)
}

/// Whether pixels have to be laid out anew: a constraint is set, or an
/// orientation other than the identity is to be applied.
pub open spec fn spec_needs_layout(
    has_constraint: bool,
    auto_orient: bool,
    orientation_is_identity: bool,
) -> bool {
    has_constraint || (auto_orient && !orientation_is_identity)
}

/// Whether the pipeline has to compute a layout.
pub fn needs_layout(has_constraint: bool, auto_orient: bool, orientation_is_identity: bool) -> (r: bool)
    ensures
        r == spec_needs_layout(has_constraint, auto_orient, orientation_is_identity),
{
    has_constraint || (auto_orient && !orientation_is_identity)
}

} // verus!
