//! JPEG: a walk over marker segments until a start-of-frame segment.
//!
//! After the two-byte SOI come segments: `FF`, a marker byte, and for most
//! markers a big-endian 16-bit length (counting itself) and a payload. A
//! start-of-frame segment holds precision, height and width right after its
//! length. Start-of-scan and end-of-image end the headers.

use vstd::prelude::*;
use crate::bytes::{be_u16, read_be_u16};
use crate::format::ImageFormat;
use crate::probe::{min_int, ProbeResult};

verus! {

/// Markers that stand alone, with no length field: `00`, `01`, and the
/// restart markers `D0` to `D7`.
pub open spec fn is_standalone_marker(marker: u8) -> bool {
    marker == 0x00 || marker == 0x01 || (0xD0 <= marker && marker <= 0xD7)
}

/// The start-of-frame markers: `C0` to `CF` without `C4`, `C8` and `CC`.
pub open spec fn is_sof_marker(marker: u8) -> bool {
    0xC0 <= marker && marker <= 0xCF && marker != 0xC4 && marker != 0xC8 && marker != 0xCC
}

/// Start of scan (`DA`) and end of image (`D9`): no header follows them.
pub open spec fn is_terminal_marker(marker: u8) -> bool {
    marker == 0xDA || marker == 0xD9
}

/// The result of a scan that ended at `examined` without a frame header.
/// A JPEG never has alpha or animation and always has one frame.
pub open spec fn jpeg_without_frame(examined: int) -> ProbeResult {
    ProbeResult {
        format: ImageFormat::Jpeg,
        width: None,
        height: None,
        has_alpha: Some(false),
        has_animation: Some(false),
        frame_count: Some(1),
        bit_depth: None,
        bytes_examined: examined as usize,
    }
}

/// The result for a start-of-frame segment whose length field stands at
/// `at`: precision at `at + 2`, height at `at + 3`, width at `at + 5`. The
/// byte behind the width counts as examined where it is present.
pub open spec fn jpeg_with_frame(s: Seq<u8>, at: int) -> ProbeResult {
    ProbeResult {
        format: ImageFormat::Jpeg,
        width: Some(be_u16(s, at + 5) as u32),
        height: Some(be_u16(s, at + 3) as u32),
        has_alpha: Some(false),
        has_animation: Some(false),
        frame_count: Some(1),
        bit_depth: Some(s[at + 2]),
        bytes_examined: min_int(at + 8, s.len() as int) as usize,
    }
}

/// The scan from marker position `pos` on.
///
/// It stops where fewer than two bytes are left or the byte at `pos` is not
/// `FF`. An `FF` that follows is padding and is stepped over. A standalone
/// marker is stepped over. A terminal marker stops the scan. Any other
/// marker must be followed by its two length bytes. A start-of-frame marker
/// gives the result where the seven bytes of length, precision, height and
/// width follow it, and stops the scan where they do not. Another segment
/// is skipped by its length, which must be at least 2; where it runs to the
/// end of the data or beyond, all of the data was examined.
pub open spec fn jpeg_scan(s: Seq<u8>, pos: int) -> ProbeResult
    decreases s.len() - pos,
{
    if pos < 0 || pos + 1 >= s.len() || s[pos] != 0xFF {
        jpeg_without_frame(min_int(pos, s.len() as int))
    } else {
        let marker = s[pos + 1];
        let at = pos + 2;
        if marker == 0xFF {
            jpeg_scan(s, pos + 1)
        } else if is_standalone_marker(marker) {
            jpeg_scan(s, at)
        } else if is_terminal_marker(marker) {
            jpeg_without_frame(at)
        } else if at + 2 > s.len() {
            jpeg_without_frame(at)
        } else if is_sof_marker(marker) {
            if at + 7 <= s.len() {
                jpeg_with_frame(s, at)
            } else {
                jpeg_without_frame(at)
            }
        } else if be_u16(s, at) < 2 {
            jpeg_without_frame(at)
        } else if at + be_u16(s, at) >= s.len() {
            jpeg_without_frame(s.len() as int)
        } else {
            jpeg_scan(s, at + be_u16(s, at))
        }
    }
}

/// What a JPEG prefix tells: with fewer than four bytes nothing but the
/// constants; otherwise the scan that starts behind the two-byte SOI.
pub open spec fn spec_probe_jpeg(s: Seq<u8>) -> ProbeResult {
    if s.len() < 4 {
        jpeg_without_frame(s.len() as int)
    } else {
        jpeg_scan(s, 2)
    }
}

fn without_frame(examined: usize) -> (r: ProbeResult)
    ensures
        r == jpeg_without_frame(examined as int),
{
    ProbeResult {
        format: ImageFormat::Jpeg,
        width: None,
        height: None,
        has_alpha: Some(false),
        has_animation: Some(false),
        frame_count: Some(1),
        bit_depth: None,
        bytes_examined: examined,
    }
}

/// Probe a JPEG prefix.
pub fn probe_jpeg(data: &[u8]) -> (r: ProbeResult)
    ensures
        r == spec_probe_jpeg(data@),
{
    let n = data.len();
    if n < 4 {
        return without_frame(n);
    }
    let mut pos: usize = 2;
    while pos < n && n - pos > 1
        invariant
            n == data@.len(),
            2 <= pos,
            jpeg_scan(data@, pos as int) == spec_probe_jpeg(data@),
        decreases n - pos,
    {
        if data[pos] != 0xFF {
            // Lost sync: not a marker position.
            return without_frame(pos);
        }
        let marker = data[pos + 1];
        if marker == 0xFF {
            // Padding.
            pos += 1;
            continue;
        }
        pos += 2;
        if marker == 0x00 || marker == 0x01 || (0xD0 <= marker && marker <= 0xD7) {
            continue;
        }
        if marker == 0xDA || marker == 0xD9 {
            return without_frame(pos);
        }
        if n - pos < 2 {
            return without_frame(pos);
        }
        let seg_len = read_be_u16(data, pos) as usize;
        let is_sof = 0xC0 <= marker && marker <= 0xCF && marker != 0xC4 && marker != 0xC8 && marker
            != 0xCC;
        if is_sof {
            if n - pos >= 7 {
                let precision = data[pos + 2];
                let height = read_be_u16(data, pos + 3);
                let width = read_be_u16(data, pos + 5);
                return ProbeResult {
                    format: ImageFormat::Jpeg,
                    width: Some(width as u32),
                    height: Some(height as u32),
                    has_alpha: Some(false),
                    has_animation: Some(false),
                    frame_count: Some(1),
                    bit_depth: Some(precision),
                    bytes_examined: if n - pos > 7 {
                        pos + 8
                    } else {
                        n
                    },
                };
            }
            return without_frame(pos);
        }
        if seg_len < 2 {
            return without_frame(pos);
        }
        if seg_len >= n - pos {
            // The segment runs to the end of the data or beyond it.
            return without_frame(n);
        }
        pos += seg_len;
    }
    without_frame(if pos < n { pos } else { n })
}

} // verus!
