//! What a probe of a leading part of the data says about the whole.

use vstd::prelude::*;
use crate::bytes::{be_u16, be_u32, be_u64, fourcc_at};
use crate::format::ImageFormat;
use crate::probe::avif::{
    full_box_payload, meta_dimensions, spec_probe_avif, tag_ipco, tag_iprp, tag_ispe, tag_meta,
};
use crate::probe::isobmff::{
    box_accepted, box_content, box_len, find_box_from, lemma_find_box_span, spec_find_box,
};
use crate::probe::jpeg::{
    is_sof_marker, is_standalone_marker, is_terminal_marker, jpeg_scan, jpeg_with_frame,
    spec_probe_jpeg,
};
use crate::probe::{min_int, spec_for_format, ProbeResult};

verus! {

/// Two results agree in all that they say of the image: everything but the
/// count of examined bytes.
pub open spec fn same_findings(x: ProbeResult, y: ProbeResult) -> bool {
    &&& x.format == y.format
    &&& x.width == y.width
    &&& x.height == y.height
    &&& x.has_alpha == y.has_alpha
    &&& x.has_animation == y.has_animation
    &&& x.frame_count == y.frame_count
    &&& x.bit_depth == y.bit_depth
}

/// Where the scan of a leading part `a` of `b` finds a frame header, the
/// scan of `b` from the same position finds the same; it counts one byte
/// more as examined where the byte behind the width is present only in `b`.
pub proof fn lemma_jpeg_scan_prefix(a: Seq<u8>, b: Seq<u8>, pos: int)
    requires
        a.is_prefix_of(b),
        0 <= pos,
        jpeg_scan(a, pos).width.is_some(),
    ensures
        same_findings(jpeg_scan(b, pos), jpeg_scan(a, pos)),
        b.len() <= usize::MAX ==> jpeg_scan(a, pos).bytes_examined <= jpeg_scan(
            b,
            pos,
        ).bytes_examined <= jpeg_scan(a, pos).bytes_examined + 1,
    decreases a.len() - pos,
{
    assert(forall|i: int| 0 <= i < a.len() ==> a[i] == b.subrange(0, a.len() as int)[i]);
    if pos + 1 < a.len() && a[pos] == 0xFF {
        let marker = a[pos + 1];
        let at = pos + 2;
        assert(b[pos] == a[pos]);
        assert(b[pos + 1] == marker);
        if marker == 0xFF {
            lemma_jpeg_scan_prefix(a, b, pos + 1);
        } else if is_standalone_marker(marker) {
            lemma_jpeg_scan_prefix(a, b, at);
        } else if is_terminal_marker(marker) {
        } else if at + 2 > a.len() {
        } else {
            assert(b[at] == a[at] && b[at + 1] == a[at + 1]);
            assert(be_u16(b, at) == be_u16(a, at));
            if is_sof_marker(marker) {
                if at + 7 <= a.len() {
                    assert(b[at + 2] == a[at + 2]);
                    assert(b[at + 3] == a[at + 3] && b[at + 4] == a[at + 4]);
                    assert(b[at + 5] == a[at + 5] && b[at + 6] == a[at + 6]);
                }
            } else if be_u16(a, at) < 2 {
            } else if at + be_u16(a, at) >= a.len() {
            } else {
                lemma_jpeg_scan_prefix(a, b, at + be_u16(a, at));
            }
        }
    }
}

/// Where the walk through a leading part `a` of `b` finds a box, the walk
/// through `b` finds the box at the same place, and the content present in
/// `a` is a leading part of the content present in `b`.
pub proof fn lemma_find_box_prefix(a: Seq<u8>, b: Seq<u8>, tag: Seq<u8>, pos: int)
    requires
        a.is_prefix_of(b),
        b.len() <= usize::MAX,
        tag.len() == 4,
        0 <= pos,
        find_box_from(a, tag, pos).is_some(),
    ensures
        find_box_from(b, tag, pos).is_some(),
        find_box_from(b, tag, pos).unwrap().content_start == find_box_from(
            a,
            tag,
            pos,
        ).unwrap().content_start,
        find_box_from(a, tag, pos).unwrap().content_end <= find_box_from(
            b,
            tag,
            pos,
        ).unwrap().content_end,
    decreases a.len() - pos,
{
    assert(forall|i: int| 0 <= i < a.len() ==> a[i] == b.subrange(0, a.len() as int)[i]);
    assert(box_accepted(a, pos));
    assert(be_u32(b, pos) == be_u32(a, pos));
    if be_u32(a, pos) == 1 {
        assert(be_u32(b, pos + 8) == be_u32(a, pos + 8));
        assert(be_u32(b, pos + 12) == be_u32(a, pos + 12));
        assert(be_u64(b, pos + 8) == be_u64(a, pos + 8));
    }
    assert(fourcc_at(b, pos + 4, tag[0], tag[1], tag[2], tag[3]) == fourcc_at(
        a,
        pos + 4,
        tag[0],
        tag[1],
        tag[2],
        tag[3],
    ));
    assert(box_accepted(b, pos));
    if !fourcc_at(a, pos + 4, tag[0], tag[1], tag[2], tag[3]) {
        // The walk went on in `a`, so the box ended inside `a`, and it
        // has the same length in `b`: one that runs to the end of `a`
        // would have ended the walk there.
        let next = pos + box_len(a, pos);
        assert(next <= a.len());
        if be_u32(a, pos) == 0 {
            assert(next == a.len());
            assert(!box_accepted(a, next));
        }
        assert(box_len(b, pos) == box_len(a, pos));
        lemma_find_box_prefix(a, b, tag, next);
    }
}

/// The content of a box found in a leading part `a` of `b` is a leading
/// part of the content of the box found in `b`.
pub proof fn lemma_box_content_prefix(a: Seq<u8>, b: Seq<u8>, tag: Seq<u8>)
    requires
        a.is_prefix_of(b),
        b.len() <= usize::MAX,
        tag.len() == 4,
        box_content(a, tag).is_some(),
    ensures
        box_content(b, tag).is_some(),
        box_content(a, tag).unwrap().is_prefix_of(box_content(b, tag).unwrap()),
        box_content(b, tag).unwrap().len() <= usize::MAX,
{
    lemma_find_box_prefix(a, b, tag, 0);
    lemma_find_box_span(a, tag, 0);
    lemma_find_box_span(b, tag, 0);
    let x = spec_find_box(a, tag).unwrap();
    let y = spec_find_box(b, tag).unwrap();
    let ca = a.subrange(x.content_start, x.content_end);
    let cb = b.subrange(y.content_start, y.content_end);
    assert(forall|i: int| 0 <= i < a.len() ==> a[i] == b.subrange(0, a.len() as int)[i]);
    assert(ca =~= cb.subrange(0, ca.len() as int));
}

/// Where the content of a `meta` box leads to dimensions, any content that
/// it is a leading part of leads to the same.
pub proof fn lemma_meta_dimensions_prefix(a: Seq<u8>, b: Seq<u8>)
    requires
        a.is_prefix_of(b),
        b.len() <= usize::MAX,
        meta_dimensions(a).is_some(),
    ensures
        meta_dimensions(b) == meta_dimensions(a),
{
    let pa = full_box_payload(a).unwrap();
    let pb = full_box_payload(b).unwrap();
    assert(forall|i: int| 0 <= i < a.len() ==> a[i] == b.subrange(0, a.len() as int)[i]);
    assert(pa =~= pb.subrange(0, pa.len() as int));
    lemma_box_content_prefix(pa, pb, tag_iprp());
    let ia = box_content(pa, tag_iprp()).unwrap();
    let ib = box_content(pb, tag_iprp()).unwrap();
    lemma_box_content_prefix(ia, ib, tag_ipco());
    let ca = box_content(ia, tag_ipco()).unwrap();
    let cb = box_content(ib, tag_ipco()).unwrap();
    lemma_box_content_prefix(ca, cb, tag_ispe());
    let ea = box_content(ca, tag_ispe()).unwrap();
    let eb = box_content(cb, tag_ispe()).unwrap();
    assert(forall|i: int| 0 <= i < ea.len() ==> ea[i] == eb.subrange(0, ea.len() as int)[i]);
    assert(be_u32(ea, 4) == be_u32(eb, 4));
    assert(be_u32(ea, 8) == be_u32(eb, 8));
}

/// More bytes never change what was found: where the probe of a leading
/// part `a` of `b` reports dimensions, the probe of `b` reports the same
/// dimensions, flags, frame count and bit depth. This holds of every format
/// whose header this library parses itself.
pub proof fn lemma_more_bytes_keep_findings(a: Seq<u8>, b: Seq<u8>, format: ImageFormat)
    requires
        a.is_prefix_of(b),
        b.len() <= usize::MAX,
        format != ImageFormat::Jxl,
        spec_for_format(a, format).width.is_some(),
    ensures
        same_findings(spec_for_format(b, format), spec_for_format(a, format)),
{
    assert(forall|i: int| 0 <= i < a.len() ==> a[i] == b.subrange(0, a.len() as int)[i]);
    match format {
        ImageFormat::Png => {},
        ImageFormat::Gif => {},
        ImageFormat::WebP => {},
        ImageFormat::Jpeg => {
            lemma_jpeg_scan_prefix(a, b, 2);
        },
        ImageFormat::Avif => {
            lemma_find_box_prefix(a, b, tag_meta(), 0);
            lemma_box_content_prefix(a, b, tag_meta());
            lemma_meta_dimensions_prefix(
                box_content(a, tag_meta()).unwrap(),
                box_content(b, tag_meta()).unwrap(),
            );
        },
        ImageFormat::Jxl => {},
    }
}

/// The offset of the length field of the start-of-frame segment that the
/// scan from `pos` reads, where it reads one.
pub open spec fn jpeg_frame_offset(s: Seq<u8>, pos: int) -> Option<int>
    decreases s.len() - pos,
{
    if pos < 0 || pos + 1 >= s.len() || s[pos] != 0xFF {
        None
    } else {
        let marker = s[pos + 1];
        let at = pos + 2;
        if marker == 0xFF {
            jpeg_frame_offset(s, pos + 1)
        } else if is_standalone_marker(marker) {
            jpeg_frame_offset(s, at)
        } else if is_terminal_marker(marker) {
            None
        } else if at + 2 > s.len() {
            None
        } else if is_sof_marker(marker) {
            if at + 7 <= s.len() {
                Some(at)
            } else {
                None
            }
        } else if be_u16(s, at) < 2 {
            None
        } else if at + be_u16(s, at) >= s.len() {
            None
        } else {
            jpeg_frame_offset(s, at + be_u16(s, at))
        }
    }
}

/// The scan reports dimensions exactly where it reads a start-of-frame
/// segment, and then what stands in that segment. The segment's length
/// field lies behind a marker, and its seven bytes lie inside the data.
pub proof fn lemma_jpeg_frame_offset(s: Seq<u8>, pos: int)
    requires
        0 <= pos,
    ensures
        jpeg_frame_offset(s, pos).is_some() <==> jpeg_scan(s, pos).width.is_some(),
        jpeg_frame_offset(s, pos) matches Some(at) ==> pos + 2 <= at && at + 7 <= s.len()
            && jpeg_scan(s, pos) == jpeg_with_frame(s, at),
    decreases s.len() - pos,
{
    if pos + 1 < s.len() && s[pos] == 0xFF {
        let marker = s[pos + 1];
        let at = pos + 2;
        if marker == 0xFF {
            lemma_jpeg_frame_offset(s, pos + 1);
        } else if is_standalone_marker(marker) {
            lemma_jpeg_frame_offset(s, at);
        } else if is_terminal_marker(marker) {
        } else if at + 2 > s.len() {
        } else if is_sof_marker(marker) {
        } else if be_u16(s, at) < 2 {
        } else if at + be_u16(s, at) >= s.len() {
        } else {
            lemma_jpeg_frame_offset(s, at + be_u16(s, at));
        }
    }
}

/// Where the scan of `b` reads a start-of-frame segment whose length,
/// precision, height and width lie inside a leading part `a` of `b`, the
/// scan of `a` reads the same segment and finds the same.
pub proof fn lemma_jpeg_scan_in_prefix(a: Seq<u8>, b: Seq<u8>, pos: int)
    requires
        a.is_prefix_of(b),
        0 <= pos,
        jpeg_frame_offset(b, pos) matches Some(at) && at + 7 <= a.len(),
    ensures
        jpeg_frame_offset(a, pos) == jpeg_frame_offset(b, pos),
        same_findings(jpeg_scan(a, pos), jpeg_scan(b, pos)),
    decreases b.len() - pos,
{
    assert(forall|i: int| 0 <= i < a.len() ==> a[i] == b.subrange(0, a.len() as int)[i]);
    lemma_jpeg_frame_offset(b, pos);
    let marker = b[pos + 1];
    let at = pos + 2;
    assert(a[pos] == b[pos]);
    assert(a[pos + 1] == marker);
    if marker == 0xFF {
        lemma_jpeg_scan_in_prefix(a, b, pos + 1);
    } else if is_standalone_marker(marker) {
        lemma_jpeg_scan_in_prefix(a, b, at);
    } else {
        assert(a[at] == b[at] && a[at + 1] == b[at + 1]);
        assert(be_u16(a, at) == be_u16(b, at));
        if is_sof_marker(marker) {
            assert(a[at + 2] == b[at + 2]);
            assert(a[at + 3] == b[at + 3] && a[at + 4] == b[at + 4]);
            assert(a[at + 5] == b[at + 5] && a[at + 6] == b[at + 6]);
        } else {
            let next = at + be_u16(b, at);
            lemma_jpeg_frame_offset(b, next);
            lemma_jpeg_scan_in_prefix(a, b, next);
        }
    }
}

/// A leading part that holds the frame header suffices: where the probe of
/// `b` reads a start-of-frame segment whose length, precision, height and
/// width lie inside a leading part `a` of `b`, the probe of `a` reports the
/// same dimensions and bit depth.
pub proof fn lemma_jpeg_prefix_holding_frame(a: Seq<u8>, b: Seq<u8>)
    requires
        a.is_prefix_of(b),
        jpeg_frame_offset(b, 2) matches Some(at) && at + 7 <= a.len(),
    ensures
        spec_probe_jpeg(a).width.is_some(),
        same_findings(spec_probe_jpeg(a), spec_probe_jpeg(b)),
{
    lemma_jpeg_frame_offset(b, 2);
    lemma_jpeg_scan_in_prefix(a, b, 2);
    lemma_jpeg_frame_offset(a, 2);
}

/// Where the walk through `b` finds a box whose header ends inside a
/// leading part `a` of `b`, the walk through `a` finds the box at the same
/// place, with as much of its content as `a` holds.
pub proof fn lemma_find_box_in_prefix(a: Seq<u8>, b: Seq<u8>, tag: Seq<u8>, pos: int)
    requires
        a.is_prefix_of(b),
        b.len() <= usize::MAX,
        tag.len() == 4,
        0 <= pos,
        find_box_from(b, tag, pos) matches Some(x) && x.content_start <= a.len(),
    ensures
        find_box_from(a, tag, pos).is_some(),
        find_box_from(a, tag, pos).unwrap().content_start == find_box_from(
            b,
            tag,
            pos,
        ).unwrap().content_start,
        find_box_from(a, tag, pos).unwrap().content_end == min_int(
            find_box_from(b, tag, pos).unwrap().content_end,
            a.len() as int,
        ),
    decreases b.len() - pos,
{
    assert(forall|i: int| 0 <= i < a.len() ==> a[i] == b.subrange(0, a.len() as int)[i]);
    assert(box_accepted(b, pos));
    lemma_find_box_span(b, tag, pos);
    let matching = fourcc_at(b, pos + 4, tag[0], tag[1], tag[2], tag[3]);
    if !matching {
        // The walk went on in `b` to a box whose header ends inside `a`,
        // so this box ends inside `a` and declares its length.
        lemma_find_box_span(b, tag, pos + box_len(b, pos));
    }
    assert(be_u32(a, pos) == be_u32(b, pos));
    if be_u32(b, pos) == 1 {
        assert(be_u32(a, pos + 8) == be_u32(b, pos + 8));
        assert(be_u32(a, pos + 12) == be_u32(b, pos + 12));
        assert(be_u64(a, pos + 8) == be_u64(b, pos + 8));
    }
    assert(fourcc_at(a, pos + 4, tag[0], tag[1], tag[2], tag[3]) == matching);
    assert(box_accepted(a, pos));
    if !matching {
        assert(box_len(a, pos) == box_len(b, pos));
        lemma_find_box_in_prefix(a, b, tag, pos + box_len(b, pos));
    }
}

/// Where `b` holds a box whose header ends inside a leading part `a` of
/// `b`, the content of the box found in `a` is a leading part of its
/// content in `b`: all of it, or what `a` holds.
pub proof fn lemma_box_content_in_prefix(a: Seq<u8>, b: Seq<u8>, tag: Seq<u8>)
    requires
        a.is_prefix_of(b),
        b.len() <= usize::MAX,
        tag.len() == 4,
        spec_find_box(b, tag) matches Some(x) && x.content_start <= a.len(),
    ensures
        box_content(a, tag).is_some(),
        box_content(a, tag).unwrap().is_prefix_of(box_content(b, tag).unwrap()),
        box_content(a, tag).unwrap().len() == min_int(
            box_content(b, tag).unwrap().len() as int,
            a.len() - spec_find_box(b, tag).unwrap().content_start,
        ),
        box_content(b, tag).unwrap().len() <= usize::MAX,
{
    lemma_find_box_in_prefix(a, b, tag, 0);
    lemma_find_box_span(a, tag, 0);
    lemma_find_box_span(b, tag, 0);
    let x = spec_find_box(a, tag).unwrap();
    let y = spec_find_box(b, tag).unwrap();
    let ca = a.subrange(x.content_start, x.content_end);
    let cb = b.subrange(y.content_start, y.content_end);
    assert(forall|i: int| 0 <= i < a.len() ==> a[i] == b.subrange(0, a.len() as int)[i]);
    assert(ca =~= cb.subrange(0, ca.len() as int));
}

/// The offset, in the content of a `meta` box, of the content of the `ispe`
/// box that it leads to, where it leads to one.
pub open spec fn ispe_offset_in_meta(meta: Seq<u8>) -> Option<int> {
    match full_box_payload(meta) {
        None => None,
        Some(payload) => match spec_find_box(payload, tag_iprp()) {
            None => None,
            Some(i) => {
                let iprp = payload.subrange(i.content_start, i.content_end);
                match spec_find_box(iprp, tag_ipco()) {
                    None => None,
                    Some(c) => {
                        let ipco = iprp.subrange(c.content_start, c.content_end);
                        match spec_find_box(ipco, tag_ispe()) {
                            None => None,
                            Some(e) => Some(4 + i.content_start + c.content_start + e.content_start),
                        }
                    },
                }
            },
        },
    }
}

/// The offset, in the data, of the content of the `ispe` box that the AVIF
/// probe reads, where the walk reaches one.
pub open spec fn avif_ispe_offset(s: Seq<u8>) -> Option<int> {
    match spec_find_box(s, tag_meta()) {
        None => None,
        Some(m) => match ispe_offset_in_meta(s.subrange(m.content_start, m.content_end)) {
            None => None,
            Some(at) => Some(m.content_start + at),
        },
    }
}

/// The content of the `ispe` box lies inside the content of the `meta` box
/// that leads to it, behind the version and flags and three box headers;
/// where it gives dimensions, its first twelve bytes lie inside, too.
pub proof fn lemma_ispe_offset_in_meta(meta: Seq<u8>)
    ensures
        ispe_offset_in_meta(meta) matches Some(at) ==> 28 <= at <= meta.len() && (
        meta_dimensions(meta).is_some() ==> at + 12 <= meta.len()),
        meta_dimensions(meta).is_some() ==> ispe_offset_in_meta(meta).is_some(),
{
    if full_box_payload(meta).is_some() {
        let payload = full_box_payload(meta).unwrap();
        lemma_find_box_span(payload, tag_iprp(), 0);
        if box_content(payload, tag_iprp()).is_some() {
            let iprp = box_content(payload, tag_iprp()).unwrap();
            lemma_find_box_span(iprp, tag_ipco(), 0);
            if box_content(iprp, tag_ipco()).is_some() {
                let ipco = box_content(iprp, tag_ipco()).unwrap();
                lemma_find_box_span(ipco, tag_ispe(), 0);
            }
        }
    }
}

/// Where the content `b` of a `meta` box leads to dimensions, read from an
/// `ispe` box whose first twelve content bytes lie inside a leading part
/// `a` of `b`, `a` leads to the same dimensions.
pub proof fn lemma_meta_dimensions_in_prefix(a: Seq<u8>, b: Seq<u8>)
    requires
        a.is_prefix_of(b),
        b.len() <= usize::MAX,
        meta_dimensions(b).is_some(),
        ispe_offset_in_meta(b) matches Some(at) && at + 12 <= a.len(),
    ensures
        meta_dimensions(a) == meta_dimensions(b),
{
    let pb = full_box_payload(b).unwrap();
    lemma_find_box_span(pb, tag_iprp(), 0);
    let ib = box_content(pb, tag_iprp()).unwrap();
    lemma_find_box_span(ib, tag_ipco(), 0);
    let cb = box_content(ib, tag_ipco()).unwrap();
    lemma_find_box_span(cb, tag_ispe(), 0);
    let eb = box_content(cb, tag_ispe()).unwrap();
    assert(forall|i: int| 0 <= i < a.len() ==> a[i] == b.subrange(0, a.len() as int)[i]);
    let pa = full_box_payload(a).unwrap();
    assert(pa =~= pb.subrange(0, pa.len() as int));
    lemma_box_content_in_prefix(pa, pb, tag_iprp());
    let ia = box_content(pa, tag_iprp()).unwrap();
    lemma_box_content_in_prefix(ia, ib, tag_ipco());
    let ca = box_content(ia, tag_ipco()).unwrap();
    lemma_box_content_in_prefix(ca, cb, tag_ispe());
    let ea = box_content(ca, tag_ispe()).unwrap();
    assert(ea.len() >= 12);
    assert(forall|i: int| 0 <= i < ea.len() ==> ea[i] == eb.subrange(0, ea.len() as int)[i]);
    assert(be_u32(ea, 4) == be_u32(eb, 4));
    assert(be_u32(ea, 8) == be_u32(eb, 8));
}

/// A leading part that holds the size suffices: where the probe of `b`
/// reports dimensions, read from an `ispe` box whose twelve bytes of
/// version, flags, width and height lie inside a leading part `a` of `b`,
/// the probe of `a` reports the same dimensions.
pub proof fn lemma_avif_prefix_holding_ispe(a: Seq<u8>, b: Seq<u8>)
    requires
        a.is_prefix_of(b),
        b.len() <= usize::MAX,
        spec_probe_avif(b).width.is_some(),
        avif_ispe_offset(b) matches Some(at) && at + 12 <= a.len(),
    ensures
        spec_probe_avif(a).width.is_some(),
        same_findings(spec_probe_avif(a), spec_probe_avif(b)),
{
    lemma_find_box_span(b, tag_meta(), 0);
    lemma_ispe_offset_in_meta(box_content(b, tag_meta()).unwrap());
    lemma_box_content_in_prefix(a, b, tag_meta());
    lemma_meta_dimensions_in_prefix(
        box_content(a, tag_meta()).unwrap(),
        box_content(b, tag_meta()).unwrap(),
    );
}

/// For PNG, GIF and WebP the published minimum prefix suffices: the probe of
/// the first `min_probe_bytes` bytes gives the result of the whole input.
pub proof fn lemma_min_prefix_suffices(s: Seq<u8>, format: ImageFormat)
    requires
        format == ImageFormat::Png || format == ImageFormat::Gif || format == ImageFormat::WebP,
        s.len() >= format.spec_min_probe_bytes(),
    ensures
        spec_for_format(s.subrange(0, format.spec_min_probe_bytes() as int), format)
            == spec_for_format(s, format),
{
}

/// For AVIF and JPEG the minimum prefix suffices where the header lies in
/// it: where the probe of the first `min_probe_bytes` bytes reports
/// dimensions, they are those of the whole input.
pub proof fn lemma_min_prefix_dimensions(s: Seq<u8>, format: ImageFormat)
    requires
        format == ImageFormat::Avif || format == ImageFormat::Jpeg,
        format.spec_min_probe_bytes() <= s.len() <= usize::MAX,
        spec_for_format(s.subrange(0, format.spec_min_probe_bytes() as int), format).width.is_some(),
    ensures
        same_findings(
            spec_for_format(s, format),
            spec_for_format(s.subrange(0, format.spec_min_probe_bytes() as int), format),
        ),
{
    let a = s.subrange(0, format.spec_min_probe_bytes() as int);
    assert(a =~= s.subrange(0, a.len() as int));
    lemma_more_bytes_keep_findings(a, s, format);
}

/// For AVIF and JPEG the minimum prefix suffices where the header lies in
/// it, seen from the whole input: where the probe of the whole reports
/// dimensions and the bytes that hold them (the twelve content bytes of the
/// `ispe` box; length, precision, height and width of the start-of-frame
/// segment) lie in the first `min_probe_bytes` bytes, the probe of those
/// bytes reports the same dimensions.
pub proof fn lemma_min_prefix_reaches_header(s: Seq<u8>, format: ImageFormat)
    requires
        format == ImageFormat::Avif || format == ImageFormat::Jpeg,
        format.spec_min_probe_bytes() <= s.len() <= usize::MAX,
        spec_for_format(s, format).width.is_some(),
        format == ImageFormat::Avif ==> (avif_ispe_offset(s) matches Some(at) && at + 12
            <= format.spec_min_probe_bytes()),
        format == ImageFormat::Jpeg ==> (jpeg_frame_offset(s, 2) matches Some(at) && at + 7
            <= format.spec_min_probe_bytes()),
    ensures
        same_findings(
            spec_for_format(s.subrange(0, format.spec_min_probe_bytes() as int), format),
            spec_for_format(s, format),
        ),
{
    let a = s.subrange(0, format.spec_min_probe_bytes() as int);
    assert(a =~= s.subrange(0, a.len() as int));
    if format == ImageFormat::Avif {
        lemma_avif_prefix_holding_ispe(a, s);
    } else {
        lemma_jpeg_prefix_holding_frame(a, s);
    }
}

} // verus!
