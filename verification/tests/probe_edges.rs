use zencodecs::probe::avif::probe_avif;
use zencodecs::probe::gif::probe_gif;
use zencodecs::probe::isobmff::find_box;
use zencodecs::probe::jpeg::probe_jpeg;
use zencodecs::probe::jxl::{jxl_result, probe_jxl};
use zencodecs::probe::png::probe_png;
use zencodecs::probe::webp::probe_webp;
use zencodecs::{probe_format, ImageFormat, ProbeResult};

fn png_header(width: u32, height: u32, depth: u8, color: u8) -> Vec<u8> {
    let mut data = vec![0x89, 0x50, 0x4E, 0x47, 0x0D, 0x0A, 0x1A, 0x0A, 0, 0, 0, 13];
    data.extend_from_slice(b"IHDR");
    data.extend_from_slice(&width.to_be_bytes());
    data.extend_from_slice(&height.to_be_bytes());
    data.extend_from_slice(&[depth, color, 0, 0, 0, 1, 2, 3, 4]);
    data
}

fn boxed(tag: &[u8; 4], content: &[u8]) -> Vec<u8> {
    let mut out = ((content.len() + 8) as u32).to_be_bytes().to_vec();
    out.extend_from_slice(tag);
    out.extend_from_slice(content);
    out
}

fn ispe(width: u32, height: u32) -> Vec<u8> {
    let mut content = vec![0u8; 4];
    content.extend_from_slice(&width.to_be_bytes());
    content.extend_from_slice(&height.to_be_bytes());
    boxed(b"ispe", &content)
}

fn meta_with(inner: &[u8]) -> Vec<u8> {
    let mut content = vec![0u8; 4];
    content.extend_from_slice(inner);
    boxed(b"meta", &content)
}

fn avif_file(width: u32, height: u32) -> Vec<u8> {
    let mut data = boxed(b"ftyp", b"avif\x00\x00\x00\x00avif");
    data.extend_from_slice(&meta_with(&boxed(b"iprp", &boxed(b"ipco", &ispe(width, height)))));
    data.extend_from_slice(&boxed(b"mdat", &[0u8; 40]));
    data
}

fn jpeg_segment(marker: u8, payload: &[u8]) -> Vec<u8> {
    let mut out = vec![0xFF, marker];
    out.extend_from_slice(&((payload.len() + 2) as u16).to_be_bytes());
    out.extend_from_slice(payload);
    out
}

fn sof(marker: u8, precision: u8, height: u16, width: u16) -> Vec<u8> {
    let mut payload = vec![precision];
    payload.extend_from_slice(&height.to_be_bytes());
    payload.extend_from_slice(&width.to_be_bytes());
    payload.extend_from_slice(&[3, 1, 0x22, 0, 2, 0x11, 1, 3, 0x11, 1]);
    jpeg_segment(marker, &payload)
}

// ---- PNG ----

#[test]
fn png_exact_record() {
    let data = png_header(0x0102_0304, 0x0A0B_0C0D, 16, 4);
    assert_eq!(data.len(), 33);
    let r = probe_png(&data);
    assert_eq!(r.format, ImageFormat::Png);
    assert_eq!(r.width, Some(0x0102_0304));
    assert_eq!(r.height, Some(0x0A0B_0C0D));
    assert_eq!(r.has_alpha, Some(true));
    assert_eq!(r.has_animation, None);
    assert_eq!(r.frame_count, None);
    assert_eq!(r.bit_depth, Some(16));
    assert_eq!(r.bytes_examined, 33);
}

#[test]
fn png_alpha_by_color_type() {
    for (color, alpha) in [(0u8, false), (2, false), (3, false), (4, true), (6, true), (7, false)] {
        assert_eq!(probe_png(&png_header(1, 1, 8, color)).has_alpha, Some(alpha));
    }
}

#[test]
fn png_one_byte_short_or_wrong_tag() {
    let data = png_header(10, 20, 8, 2);
    let short = probe_png(&data[..32]);
    assert_eq!(short.width, None);
    assert_eq!(short.height, None);
    assert_eq!(short.has_alpha, None);
    assert_eq!(short.bit_depth, None);
    assert_eq!(short.bytes_examined, 32);
    let mut wrong = data.clone();
    wrong[15] = b'X';
    let r = probe_png(&wrong);
    assert_eq!(r.width, None);
    assert_eq!(r.bytes_examined, 33);
    assert_eq!(probe_png(&[]).bytes_examined, 0);
}

#[test]
fn png_largest_dimensions() {
    let r = probe_png(&png_header(u32::MAX, 0, 1, 0));
    assert_eq!(r.width, Some(u32::MAX));
    assert_eq!(r.height, Some(0));
}

// ---- GIF ----

#[test]
fn gif_exact_record() {
    let mut data = b"GIF87a".to_vec();
    data.extend_from_slice(&[0x34, 0x12, 0xFF, 0xFF, 0, 0, 0, 9, 9]);
    let r = probe_gif(&data);
    assert_eq!(r.format, ImageFormat::Gif);
    assert_eq!(r.width, Some(0x1234));
    assert_eq!(r.height, Some(0xFFFF));
    assert_eq!(r.has_alpha, Some(true));
    assert_eq!(r.has_animation, None);
    assert_eq!(r.frame_count, None);
    assert_eq!(r.bit_depth, Some(8));
    assert_eq!(r.bytes_examined, 13);
    let short = probe_gif(&data[..12]);
    assert_eq!(short.width, None);
    assert_eq!(short.has_alpha, None);
    assert_eq!(short.bytes_examined, 12);
}

// ---- WebP ----

fn webp_prologue(tag: &[u8; 4], len: usize) -> Vec<u8> {
    let mut data = vec![0u8; len];
    data[..4].copy_from_slice(b"RIFF");
    data[8..12].copy_from_slice(b"WEBP");
    data[12..16].copy_from_slice(tag);
    data
}

#[test]
fn webp_extended_flags_and_largest_canvas() {
    let mut data = webp_prologue(b"VP8X", 30);
    data[20] = 0xED; // every bit but alpha and animation
    data[24..30].copy_from_slice(&[0xFF; 6]);
    let r = probe_webp(&data);
    assert_eq!(r.width, Some(0x0100_0000));
    assert_eq!(r.height, Some(0x0100_0000));
    assert_eq!(r.has_alpha, Some(false));
    assert_eq!(r.has_animation, Some(false));
    assert_eq!(r.bit_depth, Some(8));
    assert_eq!(r.frame_count, None);
    assert_eq!(r.bytes_examined, 30);
    data[20] = 0x10;
    assert_eq!(probe_webp(&data).has_alpha, Some(true));
    assert_eq!(probe_webp(&data).has_animation, Some(false));
    data[20] = 0x02;
    assert_eq!(probe_webp(&data).has_alpha, Some(false));
    assert_eq!(probe_webp(&data).has_animation, Some(true));
    let short = probe_webp(&data[..29]);
    assert_eq!(short.width, None);
    assert_eq!(short.has_alpha, None);
    assert_eq!(short.bytes_examined, 29);
}

#[test]
fn webp_lossy_masks_and_start_code() {
    let mut data = webp_prologue(b"VP8 ", 40);
    data[23..26].copy_from_slice(&[0x9D, 0x01, 0x2A]);
    data[26..30].copy_from_slice(&[0xFF, 0xFF, 0x01, 0xC0]);
    let r = probe_webp(&data);
    assert_eq!(r.width, Some(0x3FFF));
    assert_eq!(r.height, Some(1));
    assert_eq!(r.bytes_examined, 30);
    data[24] = 0x02;
    let bad = probe_webp(&data);
    assert_eq!(bad.width, None);
    assert_eq!(bad.has_alpha, None);
    assert_eq!(bad.bit_depth, None);
}

#[test]
fn webp_lossless_packing_and_signature() {
    let mut data = webp_prologue(b"VP8L", 25);
    data[20] = 0x2F;
    data[21..25].copy_from_slice(&0xFFFF_FFFFu32.to_le_bytes());
    let r = probe_webp(&data);
    assert_eq!(r.width, Some(16384));
    assert_eq!(r.height, Some(16384));
    assert_eq!(r.has_alpha, Some(true));
    assert_eq!(r.has_animation, Some(false));
    assert_eq!(r.bytes_examined, 25);
    data[21..25].copy_from_slice(&0u32.to_le_bytes());
    assert_eq!(probe_webp(&data).width, Some(1));
    assert_eq!(probe_webp(&data).height, Some(1));
    data[21..25].copy_from_slice(&(1u32 << 14).to_le_bytes());
    assert_eq!(probe_webp(&data).width, Some(1));
    assert_eq!(probe_webp(&data).height, Some(2));
    data[20] = 0x2E;
    assert_eq!(probe_webp(&data).width, None);
    let short = webp_prologue(b"VP8L", 24);
    assert_eq!(probe_webp(&short).width, None);
}

#[test]
fn webp_unknown_chunk() {
    let data = webp_prologue(b"ALPH", 64);
    let r = probe_webp(&data);
    assert_eq!(r.format, ImageFormat::WebP);
    assert_eq!(r.width, None);
    assert_eq!(r.bytes_examined, 30);
    assert_eq!(probe_webp(&data[..15]).bytes_examined, 15);
}

// ---- JPEG ----

#[test]
fn jpeg_frame_behind_segments_exact_record() {
    let mut data = vec![0xFF, 0xD8];
    data.extend_from_slice(&jpeg_segment(0xE0, &[0u8; 14]));
    data.extend_from_slice(&jpeg_segment(0xDB, &[1u8; 65]));
    let frame_at = data.len();
    data.extend_from_slice(&sof(0xC2, 12, 480, 640));
    data.extend_from_slice(&jpeg_segment(0xDA, &[0u8; 10]));
    let r = probe_jpeg(&data);
    assert_eq!(r.format, ImageFormat::Jpeg);
    assert_eq!(r.width, Some(640));
    assert_eq!(r.height, Some(480));
    assert_eq!(r.bit_depth, Some(12));
    assert_eq!(r.has_alpha, Some(false));
    assert_eq!(r.has_animation, Some(false));
    assert_eq!(r.frame_count, Some(1));
    assert_eq!(r.bytes_examined, frame_at + 2 + 8);
}

#[test]
fn jpeg_every_start_of_frame_marker() {
    for marker in 0xC0u8..=0xCF {
        let mut data = vec![0xFF, 0xD8];
        data.extend_from_slice(&sof(marker, 8, 3, 5));
        data.extend_from_slice(&sof(0xC0, 8, 7, 9));
        let r = probe_jpeg(&data);
        if marker == 0xC4 || marker == 0xC8 || marker == 0xCC {
            assert_eq!((r.width, r.height), (Some(9), Some(7)));
        } else {
            assert_eq!((r.width, r.height), (Some(5), Some(3)));
        }
    }
}

#[test]
fn jpeg_padding_and_standalone_markers_are_stepped_over() {
    let mut data = vec![0xFF, 0xD8, 0xFF, 0xFF, 0xFF, 0xD0, 0xFF, 0x01, 0xFF, 0xD7, 0xFF, 0x00];
    data.extend_from_slice(&[0xFF, 0xFF]);
    data.extend_from_slice(&sof(0xC0, 8, 100, 200));
    let r = probe_jpeg(&data);
    assert_eq!(r.width, Some(200));
    assert_eq!(r.height, Some(100));
}

#[test]
fn jpeg_stops_at_scan_and_end_markers() {
    for marker in [0xDAu8, 0xD9] {
        let mut data = vec![0xFF, 0xD8, 0xFF, marker];
        data.extend_from_slice(&sof(0xC0, 8, 1, 1));
        let r = probe_jpeg(&data);
        assert_eq!(r.width, None);
        assert_eq!(r.bit_depth, None);
        assert_eq!(r.frame_count, Some(1));
        assert_eq!(r.bytes_examined, 4);
    }
}

#[test]
fn jpeg_lost_sync_and_bad_length() {
    let r = probe_jpeg(&[0xFF, 0xD8, 0x00, 0xC0, 0, 11, 8, 0, 1, 0, 1, 3]);
    assert_eq!(r.width, None);
    assert_eq!(r.bytes_examined, 2);
    for len in [0u8, 1] {
        let mut data = vec![0xFF, 0xD8, 0xFF, 0xE1, 0x00, len];
        data.extend_from_slice(&sof(0xC0, 8, 1, 1));
        let r = probe_jpeg(&data);
        assert_eq!(r.width, None);
        assert_eq!(r.bytes_examined, 4);
    }
}

#[test]
fn jpeg_short_inputs() {
    for len in 0..4usize {
        let data = [0xFF, 0xD8, 0xFF, 0xC0];
        let r = probe_jpeg(&data[..len]);
        assert_eq!(r.width, None);
        assert_eq!(r.has_alpha, Some(false));
        assert_eq!(r.bytes_examined, len);
    }
    // The marker is read, its length field is not there.
    assert_eq!(probe_jpeg(&[0xFF, 0xD8, 0xFF, 0xE0]).bytes_examined, 4);
    assert_eq!(probe_jpeg(&[0xFF, 0xD8, 0xFF, 0xE0, 0x00]).bytes_examined, 4);
    // Only padding is left.
    assert_eq!(probe_jpeg(&[0xFF, 0xD8, 0xFF, 0xFF, 0xFF]).bytes_examined, 4);
}

#[test]
fn jpeg_frame_header_cut_short() {
    let mut data = vec![0xFF, 0xD8];
    data.extend_from_slice(&sof(0xC0, 8, 480, 640));
    // Length, precision, height and width are needed: offsets 4 to 10.
    let whole = probe_jpeg(&data[..12]);
    assert_eq!(whole.width, Some(640));
    assert_eq!(whole.bytes_examined, 12);
    let tight = probe_jpeg(&data[..11]);
    assert_eq!(tight.width, Some(640));
    assert_eq!(tight.height, Some(480));
    assert_eq!(tight.bit_depth, Some(8));
    assert_eq!(tight.has_alpha, Some(false));
    assert_eq!(tight.has_animation, Some(false));
    assert_eq!(tight.frame_count, Some(1));
    assert_eq!(tight.bytes_examined, 11);
    let cut = probe_jpeg(&data[..10]);
    assert_eq!(cut.width, None);
    assert_eq!(cut.height, None);
    assert_eq!(cut.bit_depth, None);
    assert_eq!(cut.bytes_examined, 4);
}

#[test]
fn jpeg_frame_ending_with_the_width() {
    let mut data = vec![0u8; 29];
    data[0..6].copy_from_slice(&[0xFF, 0xD8, 0xFF, 0xE0, 0x00, 0x10]);
    data[20..29].copy_from_slice(&[0xFF, 0xC0, 0x00, 0x0B, 0x08, 0x01, 0xE0, 0x02, 0x80]);
    let r = probe_jpeg(&data);
    assert_eq!(r.width, Some(640));
    assert_eq!(r.height, Some(480));
    assert_eq!(r.bit_depth, Some(8));
    assert_eq!(r.bytes_examined, 29);
    // One byte more is counted where it is there, and no further.
    data.push(0x03);
    let r = probe_jpeg(&data);
    assert_eq!(r.width, Some(640));
    assert_eq!(r.bytes_examined, 30);
    data.extend_from_slice(&[0x01, 0x22, 0x00]);
    assert_eq!(probe_jpeg(&data).bytes_examined, 30);
    // Without the last byte of the width no frame is read.
    let r = probe_jpeg(&data[..28]);
    assert_eq!(r.width, None);
    assert_eq!(r.height, None);
    assert_eq!(r.bytes_examined, 22);
}

#[test]
fn jpeg_segment_running_to_the_end() {
    let mut data = vec![0xFF, 0xD8];
    data.extend_from_slice(&jpeg_segment(0xE0, &[0u8; 14]));
    assert_eq!(data.len(), 20);
    assert_eq!(probe_jpeg(&data).bytes_examined, 20);
    data.push(0xFF);
    assert_eq!(probe_jpeg(&data).bytes_examined, 20);
    data.push(0xC0);
    assert_eq!(probe_jpeg(&data).bytes_examined, 22);
    let mut long = vec![0xFF, 0xD8, 0xFF, 0xE0, 0xFF, 0xFF];
    long.extend_from_slice(&[0u8; 10]);
    assert_eq!(probe_jpeg(&long).bytes_examined, long.len());
}

// ---- boxes ----

#[test]
fn find_box_returns_content_and_end() {
    let mut data = boxed(b"free", &[1, 2, 3]);
    data.extend_from_slice(&boxed(b"abcd", &[9, 8, 7, 6, 5]));
    data.extend_from_slice(&boxed(b"abcd", &[0]));
    let (content, end) = find_box(&data, b"abcd").unwrap();
    assert_eq!(content, &[9, 8, 7, 6, 5]);
    assert_eq!(end, 11 + 13);
    let (content, end) = find_box(&data, b"free").unwrap();
    assert_eq!(content, &[1, 2, 3]);
    assert_eq!(end, 11);
    assert!(find_box(&data, b"none").is_none());
    assert!(find_box(&[], b"abcd").is_none());
    assert!(find_box(&data[..7], b"free").is_none());
}

#[test]
fn find_box_extended_size() {
    let mut data = 1u32.to_be_bytes().to_vec();
    data.extend_from_slice(b"big ");
    data.extend_from_slice(&20u64.to_be_bytes());
    data.extend_from_slice(&[1, 2, 3, 4]);
    data.extend_from_slice(&boxed(b"next", &[7]));
    let (content, end) = find_box(&data, b"big ").unwrap();
    assert_eq!(content, &[1, 2, 3, 4]);
    assert_eq!(end, 20);
    let (content, end) = find_box(&data, b"next").unwrap();
    assert_eq!(content, &[7]);
    assert_eq!(end, 29);
    // The extended size is cut off.
    assert!(find_box(&data[..15], b"big ").is_none());
    // An extended size that does not cover its own header.
    let mut small = data.clone();
    small[8..16].copy_from_slice(&15u64.to_be_bytes());
    assert!(find_box(&small, b"big ").is_none());
    // The largest extended size at the front: the end is the largest offset.
    let mut huge = data.clone();
    huge[8..16].copy_from_slice(&u64::MAX.to_be_bytes());
    let (content, end) = find_box(&huge, b"big ").unwrap();
    assert_eq!(content.len(), huge.len() - 16);
    assert_eq!(end as u64, u64::MAX);
    assert!(find_box(&huge, b"next").is_none());
    // Behind another box its end is an offset that nothing can hold.
    let mut behind = boxed(b"free", &[]);
    behind.extend_from_slice(&huge);
    assert!(find_box(&behind, b"big ").is_none());
    assert!(find_box(&behind, b"next").is_none());
}

#[test]
fn find_box_to_end_of_data() {
    let mut data = boxed(b"head", &[]);
    data.extend_from_slice(&0u32.to_be_bytes());
    data.extend_from_slice(b"tail");
    data.extend_from_slice(&[5, 6, 7]);
    let (content, end) = find_box(&data, b"tail").unwrap();
    assert_eq!(content, &[5, 6, 7]);
    assert_eq!(end, data.len());
    // A box that runs to the end hides nothing behind it.
    assert!(find_box(&data, b"more").is_none());
}

#[test]
fn find_box_refuses_boxes_that_do_not_advance() {
    for size in 2u32..8 {
        let mut data = size.to_be_bytes().to_vec();
        data.extend_from_slice(b"tiny");
        data.extend_from_slice(&boxed(b"abcd", &[1]));
        assert!(find_box(&data, b"abcd").is_none());
        assert!(find_box(&data, b"tiny").is_none());
    }
}

#[test]
fn find_box_truncated_box() {
    let whole = boxed(b"abcd", &[1, 2, 3, 4, 5, 6]);
    let (content, end) = find_box(&whole[..10], b"abcd").unwrap();
    assert_eq!(content, &[1, 2]);
    assert_eq!(end, 14);
    // Behind a box that ends beyond the data nothing is found.
    let mut data = boxed(b"free", &[0u8; 20]);
    data.extend_from_slice(&boxed(b"abcd", &[1]));
    assert!(find_box(&data[..20], b"abcd").is_none());
}

// ---- AVIF ----

#[test]
fn avif_exact_record() {
    let data = avif_file(1920, 1080);
    let r = probe_avif(&data);
    assert_eq!(r.format, ImageFormat::Avif);
    assert_eq!(r.width, Some(1920));
    assert_eq!(r.height, Some(1080));
    assert_eq!(r.has_alpha, None);
    assert_eq!(r.has_animation, None);
    assert_eq!(r.frame_count, None);
    assert_eq!(r.bit_depth, None);
    // ftyp is 20 bytes, meta 8 + 4 + 8 + 8 + 20.
    assert_eq!(r.bytes_examined, 20 + 48);
}

#[test]
fn avif_missing_links() {
    let mut no_iprp = boxed(b"ftyp", b"avif");
    no_iprp.extend_from_slice(&meta_with(&boxed(b"hdlr", &[0u8; 8])));
    let r = probe_avif(&no_iprp);
    assert_eq!((r.width, r.height), (None, None));
    assert_eq!(r.bytes_examined, no_iprp.len());

    let no_ipco = meta_with(&boxed(b"iprp", &boxed(b"ipma", &[0u8; 4])));
    assert_eq!(probe_avif(&no_ipco).width, None);
    let no_ispe = meta_with(&boxed(b"iprp", &boxed(b"ipco", &boxed(b"pixi", &[0u8; 4]))));
    assert_eq!(probe_avif(&no_ispe).width, None);
    let short_ispe = meta_with(&boxed(b"iprp", &boxed(b"ipco", &boxed(b"ispe", &[0u8; 11]))));
    assert_eq!(probe_avif(&short_ispe).width, None);
    let short_meta = boxed(b"meta", &[0, 0, 0]);
    assert_eq!(probe_avif(&short_meta).width, None);
    assert_eq!(probe_avif(&short_meta).bytes_examined, 11);

    // An ispe box outside the chain is not used.
    let mut stray = meta_with(&boxed(b"iprp", &ispe(4, 4)));
    stray.extend_from_slice(&ispe(5, 5));
    assert_eq!(probe_avif(&stray).width, None);
}

#[test]
fn avif_prefix_ending_with_the_size() {
    // The content of ispe starts at 20 + 8 + 4 + 8 + 8 + 8 = 56.
    let mut props = ispe(1920, 1080);
    props.extend_from_slice(&boxed(b"pixi", &[0, 0, 0, 0, 3, 8, 8, 8]));
    let mut data = boxed(b"ftyp", b"avif\x00\x00\x00\x00avif");
    data.extend_from_slice(&meta_with(&boxed(b"iprp", &boxed(b"ipco", &props))));
    data.extend_from_slice(&boxed(b"mdat", &[0u8; 40]));
    let whole = probe_avif(&data);
    assert_eq!((whole.width, whole.height), (Some(1920), Some(1080)));
    assert_eq!(whole.bytes_examined, 20 + 48 + 16);
    for len in 68..data.len() {
        let r = probe_avif(&data[..len]);
        assert_eq!((r.width, r.height), (Some(1920), Some(1080)));
        assert_eq!(r.bytes_examined, len.min(84));
    }
    let cut = probe_avif(&data[..67]);
    assert_eq!((cut.width, cut.height), (None, None));
    assert_eq!(cut.bytes_examined, 67);
}

#[test]
fn avif_first_ispe_counts() {
    let mut props = boxed(b"colr", &[0u8; 4]);
    props.extend_from_slice(&ispe(640, 480));
    props.extend_from_slice(&ispe(64, 48));
    let data = meta_with(&boxed(b"iprp", &boxed(b"ipco", &props)));
    let r = probe_avif(&data);
    assert_eq!((r.width, r.height), (Some(640), Some(480)));
}

#[test]
fn avif_examined_never_exceeds_input() {
    let data = avif_file(300, 200);
    for len in 0..=data.len() {
        let r = probe_avif(&data[..len]);
        assert!(r.bytes_examined <= len);
        assert_eq!(r.width.is_some(), r.height.is_some());
        if r.width.is_some() {
            assert_eq!((r.width, r.height), (Some(300), Some(200)));
        }
    }
    // The meta box is cut: every byte present was examined.
    let cut = probe_avif(&data[..40]);
    assert_eq!(cut.bytes_examined, 40);
    assert_eq!(cut.width, None);
    // The ispe box is just complete at 68 bytes.
    assert_eq!(probe_avif(&data[..68]).width, Some(300));
    assert_eq!(probe_avif(&data[..67]).width, None);
}

// ---- JPEG XL ----

#[test]
fn jxl_result_from_header() {
    let with = jxl_result(77, Some((640, 480, true, false, Some(16))));
    assert_eq!(with.format, ImageFormat::Jxl);
    assert_eq!(with.width, Some(640));
    assert_eq!(with.height, Some(480));
    assert_eq!(with.has_alpha, Some(true));
    assert_eq!(with.has_animation, Some(false));
    assert_eq!(with.frame_count, None);
    assert_eq!(with.bit_depth, Some(16));
    assert_eq!(with.bytes_examined, 77);
    let no_depth = jxl_result(5, Some((1, 2, false, true, None)));
    assert_eq!(no_depth.bit_depth, None);
    assert_eq!(no_depth.has_animation, Some(true));
    let without = jxl_result(12, None);
    assert_eq!(without.format, ImageFormat::Jxl);
    assert_eq!(without.width, None);
    assert_eq!(without.height, None);
    assert_eq!(without.has_alpha, None);
    assert_eq!(without.has_animation, None);
    assert_eq!(without.bit_depth, None);
    assert_eq!(without.bytes_examined, 12);
}

#[test]
fn jxl_real_file_through_decoder() {
    let mut pixels = Vec::new();
    for i in 0..(40u32 * 30 * 3) {
        pixels.push((i % 251) as u8);
    }
    let encoded = zenjxl::LossyConfig::new(1.0)
        .encode(&pixels, 40, 30, zenjxl::PixelLayout::Rgb8)
        .unwrap();
    let r = probe_jxl(&encoded);
    assert_eq!(r.format, ImageFormat::Jxl);
    assert_eq!(r.width, Some(40));
    assert_eq!(r.height, Some(30));
    assert_eq!(r.has_alpha, Some(false));
    assert_eq!(r.has_animation, Some(false));
    assert_eq!(r.bit_depth, Some(8));
    assert_eq!(r.bytes_examined, encoded.len());
    let same = zencodecs::probe(&encoded).unwrap();
    assert_eq!((same.width, same.height), (Some(40), Some(30)));
    for len in 0..encoded.len().min(64) {
        let cut = probe_jxl(&encoded[..len]);
        assert_eq!(cut.format, ImageFormat::Jxl);
        assert_eq!(cut.width.is_some(), cut.height.is_some());
        assert_eq!(cut.bytes_examined, len);
    }
}

#[test]
fn jxl_garbage_is_format_only() {
    let r = probe_jxl(b"\xFF\x0Anot a codestream at all, really");
    assert_eq!(r.format, ImageFormat::Jxl);
    assert_eq!(r.width.is_some(), r.height.is_some());
    let empty = probe_jxl(&[]);
    assert_eq!(empty.width, None);
    assert_eq!(empty.bytes_examined, 0);
}

// ---- every format ----

const ALL: [ImageFormat; 6] = [
    ImageFormat::Jpeg,
    ImageFormat::WebP,
    ImageFormat::Gif,
    ImageFormat::Png,
    ImageFormat::Avif,
    ImageFormat::Jxl,
];

fn samples() -> Vec<Vec<u8>> {
    let mut jpeg = vec![0xFF, 0xD8];
    jpeg.extend_from_slice(&jpeg_segment(0xE0, &[0u8; 14]));
    jpeg.extend_from_slice(&sof(0xC0, 8, 48, 64));
    let mut webp = webp_prologue(b"VP8X", 40);
    webp[24] = 63;
    webp[27] = 47;
    let mut gif = b"GIF89a".to_vec();
    gif.extend_from_slice(&[64, 0, 48, 0, 0, 0, 0, 1, 2, 3]);
    vec![
        jpeg,
        webp,
        gif,
        png_header(64, 48, 8, 2),
        avif_file(64, 48),
        vec![0u8; 50],
        vec![0xFF; 50],
        Vec::new(),
    ]
}

#[test]
fn dimensions_come_in_pairs_and_format_is_kept() {
    for data in samples() {
        for len in 0..=data.len() {
            for format in ALL {
                let r = ProbeResult::for_format(&data[..len], format);
                assert_eq!(r.format, format);
                assert_eq!(r.width.is_some(), r.height.is_some());
                assert!(r.bytes_examined <= len);
            }
        }
    }
}

#[test]
fn more_bytes_keep_what_was_found() {
    let formats = [
        ImageFormat::Jpeg,
        ImageFormat::WebP,
        ImageFormat::Gif,
        ImageFormat::Png,
        ImageFormat::Avif,
    ];
    let all = samples();
    for (data, format) in all.iter().zip(formats) {
        let whole = probe_format(data, format);
        assert_eq!((whole.width, whole.height), (Some(64), Some(48)));
        for len in 0..=data.len() {
            let part = probe_format(&data[..len], format);
            if part.width.is_some() {
                assert_eq!(part.width, whole.width);
                assert_eq!(part.height, whole.height);
                assert_eq!(part.has_alpha, whole.has_alpha);
                assert_eq!(part.has_animation, whole.has_animation);
                assert_eq!(part.bit_depth, whole.bit_depth);
                assert_eq!(part.frame_count, whole.frame_count);
            }
        }
    }
}

#[test]
fn minimum_prefix_gives_the_whole_result() {
    let all = samples();
    let cases = [(1usize, ImageFormat::WebP), (2, ImageFormat::Gif), (3, ImageFormat::Png)];
    for (index, format) in cases {
        let mut data = all[index].clone();
        data.extend_from_slice(&[0xAB; 100]);
        let min = format.min_probe_bytes();
        let part = probe_format(&data[..min], format);
        let whole = probe_format(&data, format);
        assert_eq!(part.width, whole.width);
        assert_eq!(part.height, whole.height);
        assert_eq!(part.has_alpha, whole.has_alpha);
        assert_eq!(part.bytes_examined, whole.bytes_examined);
        assert_eq!(part.width, Some(64));
    }
}

#[test]
fn minimum_prefix_that_holds_the_header() {
    let all = samples();
    let cases = [(0usize, ImageFormat::Jpeg), (4, ImageFormat::Avif)];
    for (index, format) in cases {
        let mut data = all[index].clone();
        data.extend_from_slice(&[0xAB; 4096]);
        let min = format.min_probe_bytes();
        let part = probe_format(&data[..min], format);
        let whole = probe_format(&data, format);
        assert_eq!((part.width, part.height), (Some(64), Some(48)));
        assert_eq!((whole.width, whole.height), (Some(64), Some(48)));
        assert_eq!(part.bit_depth, whole.bit_depth);
        assert_eq!(part.has_alpha, whole.has_alpha);
        assert_eq!(part.frame_count, whole.frame_count);
    }
}

#[test]
fn twelve_bytes_report_the_format() {
    for data in samples() {
        if data.len() >= 12 {
            for format in ALL {
                let r = probe_format(&data[..12], format);
                assert_eq!(r.format, format);
            }
            assert_eq!(ImageFormat::detect(&data[..12]), ImageFormat::detect(&data));
        }
    }
}

// ---- conversion ----

#[test]
fn into_image_info_fills_unknown_flags_with_false() {
    let result = ProbeResult {
        format: ImageFormat::Avif,
        width: Some(7),
        height: Some(9),
        has_alpha: None,
        has_animation: None,
        frame_count: Some(3),
        bit_depth: None,
        bytes_examined: 100,
    };
    let info = result.into_image_info().unwrap();
    assert_eq!(info.width, 7);
    assert_eq!(info.height, 9);
    assert_eq!(info.format, ImageFormat::Avif);
    assert!(!info.has_alpha);
    assert!(!info.has_animation);
    assert_eq!(info.frame_count, Some(3));
    assert_eq!(info.icc_profile, None);
    assert_eq!(info.exif, None);
    assert_eq!(info.xmp, None);
}

#[test]
fn into_image_info_needs_both_dimensions() {
    let base = ProbeResult {
        format: ImageFormat::Png,
        width: Some(1),
        height: None,
        has_alpha: Some(true),
        has_animation: Some(true),
        frame_count: None,
        bit_depth: Some(8),
        bytes_examined: 33,
    };
    assert!(base.clone().into_image_info().is_none());
    let other = ProbeResult { width: None, height: Some(1), ..base.clone() };
    assert!(other.into_image_info().is_none());
    let both = ProbeResult { height: Some(2), ..base };
    let info = both.into_image_info().unwrap();
    assert!(info.has_alpha);
    assert!(info.has_animation);
}
