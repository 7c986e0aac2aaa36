//! ISO base media boxes: length-prefixed, tagged containers.
//!
//! A box starts with a 4-byte big-endian size and a 4-byte tag. Size 1 means
//! that an 8-byte big-endian size follows the tag; size 0 means that the box
//! runs to the end of the enclosing data.

use vstd::prelude::*;
use vstd::slice::slice_subrange;
use crate::bytes::{be_u32, be_u64, fourcc_at, has_fourcc, read_be_u32, read_be_u64};
use crate::probe::min_int;

verus! {

/// Where a box lies in the data it was found in.
pub struct BoxSpan {
    /// First byte behind the box header.
    pub content_start: int,
    /// End of the content that is present: the box's end, or the end of
    /// the data where the box is cut short.
    pub content_end: int,
    /// The end offset that the box declares; it may lie beyond the data.
    pub box_end: int,
}

/// Length of the header of the box at `pos`: 16 with an extended size,
/// else 8.
pub open spec fn box_header_len(s: Seq<u8>, pos: int) -> int {
    if be_u32(s, pos) == 1 {
        16
    } else {
        8
    }
}

/// Effective length of the box at `pos`, header included.
pub open spec fn box_len(s: Seq<u8>, pos: int) -> int {
    let size = be_u32(s, pos);
    if size == 1 {
        be_u64(s, pos + 8)
    } else if size == 0 {
        s.len() - pos
    } else {
        size
    }
}

/// The whole header of a box can be read at `pos`.
pub open spec fn box_header_readable(s: Seq<u8>, pos: int) -> bool {
    0 <= pos && pos + 8 <= s.len() && (be_u32(s, pos) == 1 ==> pos + 16 <= s.len())
}

/// A box that the walk accepts at `pos`: its header is readable, its length
/// covers at least the header, and its end is an offset that a `usize` can
/// hold. Such a box ends beyond its start.
pub open spec fn box_accepted(s: Seq<u8>, pos: int) -> bool {
    box_header_readable(s, pos) && box_len(s, pos) >= box_header_len(s, pos) && pos + box_len(
        s,
        pos,
    ) <= usize::MAX
}

/// An accepted box ends at least eight bytes beyond its start, so a walk
/// from box to box always advances: it cannot be made to loop.
pub proof fn lemma_accepted_box_advances(s: Seq<u8>, pos: int)
    requires
        box_accepted(s, pos),
    ensures
        pos + box_len(s, pos) >= pos + 8,
        pos + box_len(s, pos) > pos,
{
}

/// The span of the accepted box at `pos`.
pub open spec fn box_span(s: Seq<u8>, pos: int) -> BoxSpan {
    BoxSpan {
        content_start: pos + box_header_len(s, pos),
        content_end: min_int(pos + box_len(s, pos), s.len() as int),
        box_end: pos + box_len(s, pos),
    }
}

/// The first box with tag `tag` in the chain of boxes that starts at `pos`.
/// The walk ends without a result at the first position that holds no
/// accepted box, and behind a box that ends beyond the data.
pub open spec fn find_box_from(s: Seq<u8>, tag: Seq<u8>, pos: int) -> Option<BoxSpan>
    recommends
        tag.len() == 4,
    decreases s.len() - pos,
{
    if !box_accepted(s, pos) {
        None
    } else if fourcc_at(s, pos + 4, tag[0], tag[1], tag[2], tag[3]) {
        Some(box_span(s, pos))
    } else if pos + box_len(s, pos) > s.len() {
        None
    } else {
        find_box_from(s, tag, pos + box_len(s, pos))
    }
}

/// The first direct child box of `s` with tag `tag`.
pub open spec fn spec_find_box(s: Seq<u8>, tag: Seq<u8>) -> Option<BoxSpan>
    recommends
        tag.len() == 4,
{
    find_box_from(s, tag, 0)
}

/// The content of the first direct child box of `s` with tag `tag`, as far
/// as it is present.
pub open spec fn box_content(s: Seq<u8>, tag: Seq<u8>) -> Option<Seq<u8>>
    recommends
        tag.len() == 4,
{
    match spec_find_box(s, tag) {
        Some(b) => Some(s.subrange(b.content_start, b.content_end)),
        None => None,
    }
}

/// A span that the walk returns lies in the data: the content starts behind
/// a header of at least eight bytes, does not start beyond its end, and
/// ends with the box or with the data, whichever comes first.
pub proof fn lemma_find_box_span(s: Seq<u8>, tag: Seq<u8>, pos: int)
    requires
        0 <= pos,
        tag.len() == 4,
    ensures
        find_box_from(s, tag, pos) matches Some(b) ==> pos + 8 <= b.content_start <= b.content_end
            <= s.len() && b.content_end == min_int(b.box_end, s.len() as int) && b.box_end
            <= usize::MAX,
    decreases s.len() - pos,
{
    if box_accepted(s, pos) && !fourcc_at(s, pos + 4, tag[0], tag[1], tag[2], tag[3]) && pos
        + box_len(s, pos) <= s.len() {
        lemma_find_box_span(s, tag, pos + box_len(s, pos));
    }
}

/// Find a direct child box by tag. Returns the content that is present and
/// the end offset that the box declares.
pub fn find_box<'a>(data: &'a [u8], box_type: &[u8; 4]) -> (r: Option<(&'a [u8], usize)>)
    ensures
        match spec_find_box(data@, box_type@) {
            Some(b) => r matches Some((content, end)) && content@ == data@.subrange(
                b.content_start,
                b.content_end,
            ) && end == b.box_end,
            None => r.is_none(),
        },
{
    let n = data.len();
    let mut pos: usize = 0;
    while n - pos >= 8
        invariant
            n == data@.len(),
            pos <= n,
            find_box_from(data@, box_type@, pos as int) == spec_find_box(data@, box_type@),
        decreases n - pos,
    {
        let size = read_be_u32(data, pos);
        let header_size: usize;
        let box_size: usize;
        if size == 1 {
            if n - pos < 16 {
                return None;
            }
            let ext_size = read_be_u64(data, pos + 8);
            if ext_size > usize::MAX as u64 {
                return None;
            }
            header_size = 16;
            box_size = ext_size as usize;
        } else if size == 0 {
            header_size = 8;
            box_size = n - pos;
        } else {
            header_size = 8;
            box_size = size as usize;
        }
        if box_size < header_size {
            return None;
        }
        let box_end = match pos.checked_add(box_size) {
            Some(e) => e,
            None => {
                return None;
            },
        };
        let content_start = pos + header_size;
        if has_fourcc(data, pos + 4, box_type[0], box_type[1], box_type[2], box_type[3]) {
            let content_end = if box_end < n {
                box_end
            } else {
                n
            };
            return Some((slice_subrange(data, content_start, content_end), box_end));
        }
        if box_end > n {
            return None;
        }
        pos = box_end;
    }
    None
}

} // verus!
