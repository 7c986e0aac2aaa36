//! Properties that hold of every probe result.

use vstd::prelude::*;
use crate::format::ImageFormat;
use crate::probe::avif::tag_meta;
use crate::probe::isobmff::lemma_find_box_span;
use crate::bytes::be_u16;
use crate::probe::jpeg::{
    is_sof_marker, is_standalone_marker, is_terminal_marker, jpeg_scan, spec_probe_jpeg,
};
use crate::probe::spec_for_format;

verus! {

/// A scan from any position reports the JPEG tag, reports width, height and
/// bit depth together, and always says: no alpha, no animation, one frame.
/// On data that a slice can hold it examines no byte beyond the data.
pub proof fn lemma_jpeg_scan_sound(s: Seq<u8>, pos: int)
    requires
        0 <= pos,
    ensures
        jpeg_scan(s, pos).format == ImageFormat::Jpeg,
        jpeg_scan(s, pos).width.is_some() == jpeg_scan(s, pos).height.is_some(),
        jpeg_scan(s, pos).width.is_some() == jpeg_scan(s, pos).bit_depth.is_some(),
        s.len() <= usize::MAX ==> jpeg_scan(s, pos).bytes_examined <= s.len(),
        jpeg_scan(s, pos).has_alpha == Some(false),
        jpeg_scan(s, pos).has_animation == Some(false),
        jpeg_scan(s, pos).frame_count == Some(1u32),
    decreases s.len() - pos,
{
    if pos + 1 < s.len() && s[pos] == 0xFF {
        let marker = s[pos + 1];
        let at = pos + 2;
        if marker == 0xFF {
            lemma_jpeg_scan_sound(s, pos + 1);
        } else if is_standalone_marker(marker) {
            lemma_jpeg_scan_sound(s, at);
        } else if is_terminal_marker(marker) {
        } else if at + 2 > s.len() {
        } else if is_sof_marker(marker) {
        } else if be_u16(s, at) < 2 {
        } else if at + be_u16(s, at) >= s.len() {
        } else {
            lemma_jpeg_scan_sound(s, at + be_u16(s, at));
        }
    }
}

/// The result carries the format that was asked for, whatever the data
/// holds and however short it is.
pub proof fn lemma_format_reported(s: Seq<u8>, format: ImageFormat)
    ensures
        spec_for_format(s, format).format == format,
{
    if format == ImageFormat::Jpeg && s.len() >= 4 {
        lemma_jpeg_scan_sound(s, 2);
    }
}

/// Width and height are reported together or not at all.
pub proof fn lemma_dimensions_paired(s: Seq<u8>, format: ImageFormat)
    ensures
        spec_for_format(s, format).width.is_some() == spec_for_format(s, format).height.is_some(),
{
    if format == ImageFormat::Jpeg && s.len() >= 4 {
        lemma_jpeg_scan_sound(s, 2);
    }
}

/// No more bytes count as examined than the input holds.
pub proof fn lemma_examined_within_input(s: Seq<u8>, format: ImageFormat)
    requires
        s.len() <= usize::MAX,
    ensures
        spec_for_format(s, format).bytes_examined <= s.len(),
{
    if format == ImageFormat::Jpeg && s.len() >= 4 {
        lemma_jpeg_scan_sound(s, 2);
    }
    if format == ImageFormat::Avif {
        lemma_find_box_span(s, tag_meta(), 0);
    }
}

/// A JPEG result always says: no alpha, no animation, one frame.
pub proof fn lemma_jpeg_constants(s: Seq<u8>)
    ensures
        spec_probe_jpeg(s).has_alpha == Some(false),
        spec_probe_jpeg(s).has_animation == Some(false),
        spec_probe_jpeg(s).frame_count == Some(1u32),
{
    if s.len() >= 4 {
        lemma_jpeg_scan_sound(s, 2);
    }
}

} // verus!
