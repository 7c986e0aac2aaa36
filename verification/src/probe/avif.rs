//! AVIF: the image size sits in the `ispe` property, reached through
//! `meta`, `iprp` and `ipco`.

use vstd::prelude::*;
use crate::bytes::{be_u32, read_be_u32};
use crate::format::ImageFormat;
use crate::probe::isobmff::{box_content, find_box, lemma_find_box_span, spec_find_box};
use crate::probe::{format_only, format_only_result, min_usize, ProbeResult};
use vstd::slice::slice_subrange;

verus! {

/// The tag `meta`.
pub open spec fn tag_meta() -> Seq<u8> {
    seq![0x6Du8, 0x65u8, 0x74u8, 0x61u8]
}

/// The tag `iprp`.
pub open spec fn tag_iprp() -> Seq<u8> {
    seq![0x69u8, 0x70u8, 0x72u8, 0x70u8]
}

/// The tag `ipco`.
pub open spec fn tag_ipco() -> Seq<u8> {
    seq![0x69u8, 0x70u8, 0x63u8, 0x6Fu8]
}

/// The tag `ispe`.
pub open spec fn tag_ispe() -> Seq<u8> {
    seq![0x69u8, 0x73u8, 0x70u8, 0x65u8]
}

/// What follows the four bytes of version and flags at the start of a full
/// box's content, if they are present.
pub open spec fn full_box_payload(content: Seq<u8>) -> Option<Seq<u8>> {
    if content.len() >= 4 {
        Some(content.subrange(4, content.len() as int))
    } else {
        None
    }
}

/// The content of the `ispe` box under `ipco` under `iprp`, in the payload
/// of a `meta` box.
pub open spec fn ispe_in_meta_payload(payload: Seq<u8>) -> Option<Seq<u8>> {
    match box_content(payload, tag_iprp()) {
        None => None,
        Some(iprp) => match box_content(iprp, tag_ipco()) {
            None => None,
            Some(ipco) => box_content(ipco, tag_ispe()),
        },
    }
}

/// Width and height that an `ispe` content of at least 12 bytes holds:
/// big-endian words at 4 and 8, behind the version and flags.
pub open spec fn ispe_dimensions(ispe: Seq<u8>) -> Option<(u32, u32)> {
    if ispe.len() >= 12 {
        Some((be_u32(ispe, 4) as u32, be_u32(ispe, 8) as u32))
    } else {
        None
    }
}

/// The dimensions that the content of a `meta` box leads to.
pub open spec fn meta_dimensions(meta: Seq<u8>) -> Option<(u32, u32)> {
    match full_box_payload(meta) {
        None => None,
        Some(payload) => match ispe_in_meta_payload(payload) {
            None => None,
            Some(ispe) => ispe_dimensions(ispe),
        },
    }
}

/// What an AVIF prefix tells. Without a top-level `meta` box: nothing, and
/// all bytes were examined. With one: the dimensions that it leads to, if
/// any, and the bytes up to its end, as far as they are present.
pub open spec fn spec_probe_avif(s: Seq<u8>) -> ProbeResult {
    match spec_find_box(s, tag_meta()) {
        None => format_only(ImageFormat::Avif, s.len() as int),
        Some(b) => {
            let dims = meta_dimensions(s.subrange(b.content_start, b.content_end));
            ProbeResult {
                format: ImageFormat::Avif,
                width: match dims {
                    Some(d) => Some(d.0),
                    None => None,
                },
                height: match dims {
                    Some(d) => Some(d.1),
                    None => None,
                },
                has_alpha: None,
                has_animation: None,
                frame_count: None,
                bit_depth: None,
                bytes_examined: b.content_end as usize,
            }
        },
    }
}

fn dimensions_in_meta(meta: &[u8]) -> (r: Option<(u32, u32)>)
    ensures
        r == meta_dimensions(meta@),
{
    if meta.len() < 4 {
        return None;
    }
    let payload = slice_subrange(meta, 4, meta.len());
    let iprp_tag: [u8; 4] = [0x69, 0x70, 0x72, 0x70];
    let ipco_tag: [u8; 4] = [0x69, 0x70, 0x63, 0x6F];
    let ispe_tag: [u8; 4] = [0x69, 0x73, 0x70, 0x65];
    proof {
        assert(iprp_tag@ =~= tag_iprp());
        assert(ipco_tag@ =~= tag_ipco());
        assert(ispe_tag@ =~= tag_ispe());
    }
    match find_box(payload, &iprp_tag) {
        None => None,
        Some((iprp, _)) => match find_box(iprp, &ipco_tag) {
            None => None,
            Some((ipco, _)) => match find_box(ipco, &ispe_tag) {
                None => None,
                Some((ispe, _)) => {
                    if ispe.len() >= 12 {
                        Some((read_be_u32(ispe, 4), read_be_u32(ispe, 8)))
                    } else {
                        None
                    }
                },
            },
        },
    }
}

/// Probe an AVIF prefix.
pub fn probe_avif(data: &[u8]) -> (r: ProbeResult)
    ensures
        r == spec_probe_avif(data@),
{
    let meta_tag: [u8; 4] = [0x6D, 0x65, 0x74, 0x61];
    proof {
        assert(meta_tag@ =~= tag_meta());
        lemma_find_box_span(data@, tag_meta(), 0);
    }
    match find_box(data, &meta_tag) {
        None => format_only_result(ImageFormat::Avif, data.len()),
        Some((meta, meta_end)) => {
            let dims = dimensions_in_meta(meta);
            ProbeResult {
                format: ImageFormat::Avif,
                width: match dims {
                    Some(d) => Some(d.0),
                    None => None,
                },
                height: match dims {
                    Some(d) => Some(d.1),
                    None => None,
                },
                has_alpha: None,
                has_animation: None,
                frame_count: None,
                bit_depth: None,
                bytes_examined: min_usize(meta_end, data.len()),
            }
        },
    }
}

} // verus!
