//! Well-formed segment and box chains, and what the parsers find in them.

use vstd::prelude::*;
use crate::bytes::{be_u16, be_u32, fourcc_at, le_u16, le_u24, le_u32};
use crate::probe::avif::{meta_dimensions, spec_probe_avif, tag_ipco, tag_iprp, tag_ispe, tag_meta};
use crate::probe::isobmff::{
    box_accepted, box_content, box_len, box_span, find_box_from, spec_find_box,
};
use crate::probe::gif::spec_probe_gif;
use crate::probe::jxl::spec_probe_jxl;
use crate::probe::png::{png_header_visible, spec_probe_png};
use crate::probe::webp::{spec_probe_webp, webp_is_extended, webp_is_lossless, webp_is_lossy};
use crate::probe::jpeg::{
    is_sof_marker, is_standalone_marker, is_terminal_marker, jpeg_scan, jpeg_with_frame,
    spec_probe_jpeg,
};

verus! {

/// `starts` lists the start offsets of boxes that follow one another in
/// `s`: each is accepted by the walk and ends where the next starts.
pub open spec fn box_chain(s: Seq<u8>, starts: Seq<int>) -> bool {
    &&& starts.len() > 0
    &&& forall|i: int| 0 <= i < starts.len() ==> box_accepted(s, #[trigger] starts[i])
    &&& forall|i: int|
        0 <= i < starts.len() - 1 ==> #[trigger] starts[i + 1] == starts[i] + box_len(s, starts[i])
}

/// The box at `pos` carries the tag `tag`.
pub open spec fn box_has_tag(s: Seq<u8>, pos: int, tag: Seq<u8>) -> bool {
    fourcc_at(s, pos + 4, tag[0], tag[1], tag[2], tag[3])
}

proof fn lemma_find_box_along_chain(s: Seq<u8>, tag: Seq<u8>, starts: Seq<int>, j: int, k: int)
    requires
        tag.len() == 4,
        box_chain(s, starts),
        0 <= j <= k < starts.len(),
        box_has_tag(s, starts[k], tag),
        forall|i: int| 0 <= i < k ==> !box_has_tag(s, #[trigger] starts[i], tag),
    ensures
        find_box_from(s, tag, starts[j]) == Some(box_span(s, starts[k])),
    decreases k - j,
{
    if j < k {
        assert(!box_has_tag(s, starts[j], tag));
        assert(starts[j + 1] == starts[j] + box_len(s, starts[j]));
        assert(box_accepted(s, starts[j + 1]));
        lemma_find_box_along_chain(s, tag, starts, j + 1, k);
    }
}

/// The walk returns the first box of a chain that carries the tag: where
/// the chain starts at the front of the data, box `k` carries the tag and
/// no box before it does, box `k` is what is found.
pub proof fn lemma_find_box_first_match(s: Seq<u8>, tag: Seq<u8>, starts: Seq<int>, k: int)
    requires
        tag.len() == 4,
        box_chain(s, starts),
        starts[0] == 0,
        0 <= k < starts.len(),
        box_has_tag(s, starts[k], tag),
        forall|i: int| 0 <= i < k ==> !box_has_tag(s, #[trigger] starts[i], tag),
    ensures
        spec_find_box(s, tag) == Some(box_span(s, starts[k])),
{
    lemma_find_box_along_chain(s, tag, starts, 0, k);
}

proof fn lemma_find_box_past_chain(s: Seq<u8>, tag: Seq<u8>, starts: Seq<int>, j: int)
    requires
        tag.len() == 4,
        box_chain(s, starts),
        0 <= j < starts.len(),
        forall|i: int| 0 <= i < starts.len() ==> !box_has_tag(s, #[trigger] starts[i], tag),
        starts.last() + box_len(s, starts.last()) > s.len() || !box_accepted(
            s,
            starts.last() + box_len(s, starts.last()),
        ),
    ensures
        find_box_from(s, tag, starts[j]).is_none(),
    decreases starts.len() - j,
{
    assert(!box_has_tag(s, starts[j], tag));
    if j < starts.len() - 1 {
        assert(starts[j + 1] == starts[j] + box_len(s, starts[j]));
        assert(box_accepted(s, starts[j + 1]));
        lemma_find_box_past_chain(s, tag, starts, j + 1);
    } else {
        let next = starts[j] + box_len(s, starts[j]);
        if next <= s.len() {
            assert(find_box_from(s, tag, next).is_none());
        }
    }
}

/// Where no box of a chain from the front of the data carries the tag, and
/// the last box ends beyond the data or no accepted box follows it, nothing
/// is found.
pub proof fn lemma_find_box_no_match(s: Seq<u8>, tag: Seq<u8>, starts: Seq<int>)
    requires
        tag.len() == 4,
        box_chain(s, starts),
        starts[0] == 0,
        forall|i: int| 0 <= i < starts.len() ==> !box_has_tag(s, #[trigger] starts[i], tag),
        starts.last() + box_len(s, starts.last()) > s.len() || !box_accepted(
            s,
            starts.last() + box_len(s, starts.last()),
        ),
    ensures
        spec_find_box(s, tag).is_none(),
{
    lemma_find_box_past_chain(s, tag, starts, 0);
}

/// An AVIF whose `meta` box holds, behind its version and flags, an `iprp`
/// box with an `ipco` box with an `ispe` box of at least 12 content bytes
/// reports the two big-endian words of that `ispe` box as width and height.
pub proof fn lemma_avif_reports_ispe(s: Seq<u8>, meta: Seq<u8>, iprp: Seq<u8>, ipco: Seq<u8>, ispe: Seq<u8>)
    requires
        box_content(s, tag_meta()) == Some(meta),
        meta.len() >= 4,
        box_content(meta.subrange(4, meta.len() as int), tag_iprp()) == Some(iprp),
        box_content(iprp, tag_ipco()) == Some(ipco),
        box_content(ipco, tag_ispe()) == Some(ispe),
        ispe.len() >= 12,
    ensures
        spec_probe_avif(s).width == Some(be_u32(ispe, 4) as u32),
        spec_probe_avif(s).height == Some(be_u32(ispe, 8) as u32),
{
}

/// An AVIF without a top-level `meta` box, or with a link of the chain
/// missing, reports no dimensions.
pub proof fn lemma_avif_without_chain(s: Seq<u8>)
    requires
        box_content(s, tag_meta()) matches Some(meta) ==> meta_dimensions(meta).is_none(),
    ensures
        spec_probe_avif(s).width.is_none(),
        spec_probe_avif(s).height.is_none(),
{
}

/// A segment that the scan skips by its length: `FF`, a marker that is
/// neither padding nor standalone nor terminal nor a start of frame, and a
/// length of at least 2 that ends before the end of the data.
pub open spec fn jpeg_skipped_segment(s: Seq<u8>, pos: int) -> bool {
    &&& 0 <= pos
    &&& pos + 4 <= s.len()
    &&& s[pos] == 0xFF
    &&& s[pos + 1] != 0xFF
    &&& !is_standalone_marker(s[pos + 1])
    &&& !is_terminal_marker(s[pos + 1])
    &&& !is_sof_marker(s[pos + 1])
    &&& be_u16(s, pos + 2) >= 2
    &&& pos + 2 + be_u16(s, pos + 2) < s.len()
}

/// A start-of-frame segment at `pos` with its length, precision, height and
/// width, the seven bytes behind its marker, inside the data.
pub open spec fn jpeg_frame_segment(s: Seq<u8>, pos: int) -> bool {
    &&& 0 <= pos
    &&& pos + 9 <= s.len()
    &&& s[pos] == 0xFF
    &&& is_sof_marker(s[pos + 1])
}

/// `starts` lists the start offsets of segments that follow one another:
/// all but the last are skipped by their length, and each ends where the
/// next starts.
pub open spec fn jpeg_segment_chain(s: Seq<u8>, starts: Seq<int>) -> bool {
    &&& starts.len() > 0
    &&& forall|i: int| 0 <= i < starts.len() - 1 ==> jpeg_skipped_segment(s, #[trigger] starts[i])
    &&& forall|i: int|
        0 <= i < starts.len() - 1 ==> #[trigger] starts[i + 1] == starts[i] + 2 + be_u16(
            s,
            starts[i] + 2,
        )
}

proof fn lemma_jpeg_scan_along_chain(s: Seq<u8>, starts: Seq<int>, j: int)
    requires
        jpeg_segment_chain(s, starts),
        0 <= j < starts.len(),
        jpeg_frame_segment(s, starts.last()),
    ensures
        jpeg_scan(s, starts[j]) == jpeg_with_frame(s, starts.last() + 2),
    decreases starts.len() - j,
{
    if j < starts.len() - 1 {
        assert(jpeg_skipped_segment(s, starts[j]));
        assert(starts[j + 1] == starts[j] + 2 + be_u16(s, starts[j] + 2));
        lemma_jpeg_scan_along_chain(s, starts, j + 1);
    }
}

/// A JPEG in which a chain of length-carrying segments leads from behind
/// the SOI to a start-of-frame segment reports that segment's precision,
/// height and width, and as examined the bytes up to the eighth behind its
/// marker, as far as they are present.
pub proof fn lemma_jpeg_reports_frame(s: Seq<u8>, starts: Seq<int>)
    requires
        jpeg_segment_chain(s, starts),
        starts[0] == 2,
        jpeg_frame_segment(s, starts.last()),
    ensures
        spec_probe_jpeg(s) == jpeg_with_frame(s, starts.last() + 2),
{
    lemma_jpeg_scan_along_chain(s, starts, 0);
}

/// A PNG whose first 33 bytes hold an `IHDR` chunk reports the chunk's
/// width, height and bit depth, and alpha exactly for the colour types 4
/// and 6: grey with alpha, and RGBA. An RGB image, colour type 2, reports
/// no alpha.
pub proof fn lemma_png_reports_header(s: Seq<u8>)
    requires
        png_header_visible(s),
    ensures
        spec_probe_png(s).width == Some(be_u32(s, 16) as u32),
        spec_probe_png(s).height == Some(be_u32(s, 20) as u32),
        spec_probe_png(s).bit_depth == Some(s[24]),
        spec_probe_png(s).has_alpha == Some(s[25] == 4 || s[25] == 6),
        s[25] == 6 ==> spec_probe_png(s).has_alpha == Some(true),
        s[25] == 2 ==> spec_probe_png(s).has_alpha == Some(false),
        spec_probe_png(s).has_animation.is_none(),
{
}

/// A GIF of at least 13 bytes reports the two little-endian words of its
/// logical screen descriptor.
pub proof fn lemma_gif_reports_screen(s: Seq<u8>)
    requires
        s.len() >= 13,
    ensures
        spec_probe_gif(s).width == Some(le_u16(s, 6) as u32),
        spec_probe_gif(s).height == Some(le_u16(s, 8) as u32),
        spec_probe_gif(s).has_alpha == Some(true),
{
}

/// A WebP with an extended header reports one more than each stored canvas
/// value, and the alpha and animation bits of the flags byte.
pub proof fn lemma_webp_extended_reports_canvas(s: Seq<u8>, stored_width: int, stored_height: int)
    requires
        webp_is_extended(s),
        le_u24(s, 24) == stored_width,
        le_u24(s, 27) == stored_height,
    ensures
        spec_probe_webp(s).width == Some((stored_width + 1) as u32),
        spec_probe_webp(s).height == Some((stored_height + 1) as u32),
        spec_probe_webp(s).width.unwrap() == stored_width + 1,
        spec_probe_webp(s).height.unwrap() == stored_height + 1,
        spec_probe_webp(s).has_alpha == Some(s[20] & 0x10 != 0),
        spec_probe_webp(s).has_animation == Some(s[20] & 0x02 != 0),
{
}

/// A lossless WebP reports one more than each of the two 14-bit fields of
/// its packed word, with alpha: the width field is the word's remainder by
/// 2^14, the height field that of its quotient.
pub proof fn lemma_webp_lossless_reports_packed(s: Seq<u8>, width_field: int, height_field: int)
    requires
        !webp_is_extended(s),
        !webp_is_lossy(s),
        webp_is_lossless(s),
        le_u32(s, 21) % 0x4000 == width_field,
        (le_u32(s, 21) / 0x4000) % 0x4000 == height_field,
    ensures
        spec_probe_webp(s).width == Some((width_field + 1) as u32),
        spec_probe_webp(s).height == Some((height_field + 1) as u32),
        spec_probe_webp(s).has_alpha == Some(true),
{
}

/// A lossy WebP key frame reports the low 14 bits of its two size words.
pub proof fn lemma_webp_lossy_reports_frame(s: Seq<u8>)
    requires
        !webp_is_extended(s),
        webp_is_lossy(s),
    ensures
        spec_probe_webp(s).width == Some((le_u16(s, 26) % 0x4000) as u32),
        spec_probe_webp(s).height == Some((le_u16(s, 28) % 0x4000) as u32),
        spec_probe_webp(s).has_alpha == Some(false),
        spec_probe_webp(s).has_animation == Some(false),
{
}

/// A JPEG XL input reports what the decoder read from its header, and no
/// dimensions where the decoder read none.
pub proof fn lemma_jxl_reports_header(len: int, header: Option<(u32, u32, bool, bool, Option<u8>)>)
    ensures
        header matches Some(h) ==> spec_probe_jxl(len, header).width == Some(h.0) && spec_probe_jxl(
            len,
            header,
        ).height == Some(h.1),
        header.is_none() ==> spec_probe_jxl(len, header).width.is_none() && spec_probe_jxl(
            len,
            header,
        ).height.is_none(),
{
}

} // verus!
