use zencodecs::probe::avif::probe_avif;
use zencodecs::probe::gif::probe_gif;
use zencodecs::probe::jpeg::probe_jpeg;
use zencodecs::probe::png::probe_png;
use zencodecs::probe::webp::probe_webp;
use zencodecs::{CodecError, CodecRegistry, ImageFormat, ProbeResult};

// ---- PNG tests ----

#[test]
fn probe_png_full_header() {
    // PNG signature + IHDR: 100x50, 8-bit RGBA (color type 6)
    let mut data = vec![0u8; 33];
    // PNG signature
    data[..8].copy_from_slice(&[0x89, 0x50, 0x4E, 0x47, 0x0D, 0x0A, 0x1A, 0x0A]);
    // IHDR chunk length (13)
    data[8..12].copy_from_slice(&[0x00, 0x00, 0x00, 0x0D]);
    // IHDR type
    data[12..16].copy_from_slice(b"IHDR");
    // Width: 100 (BE u32)
    data[16..20].copy_from_slice(&100u32.to_be_bytes());
    // Height: 50 (BE u32)
    data[20..24].copy_from_slice(&50u32.to_be_bytes());
    // Bit depth: 8
    data[24] = 8;
    // Color type: 6 (RGBA)
    data[25] = 6;

    let result = probe_png(&data);
    assert_eq!(result.width, Some(100));
    assert_eq!(result.height, Some(50));
    assert_eq!(result.has_alpha, Some(true));
    assert_eq!(result.bit_depth, Some(8));
}

#[test]
fn probe_png_rgb_no_alpha() {
    let mut data = vec![0u8; 33];
    data[..8].copy_from_slice(&[0x89, 0x50, 0x4E, 0x47, 0x0D, 0x0A, 0x1A, 0x0A]);
    data[8..12].copy_from_slice(&[0x00, 0x00, 0x00, 0x0D]);
    data[12..16].copy_from_slice(b"IHDR");
    data[16..20].copy_from_slice(&200u32.to_be_bytes());
    data[20..24].copy_from_slice(&100u32.to_be_bytes());
    data[24] = 8;
    data[25] = 2; // Color type 2 = RGB

    let result = probe_png(&data);
    assert_eq!(result.width, Some(200));
    assert_eq!(result.height, Some(100));
    assert_eq!(result.has_alpha, Some(false));
}

#[test]
fn probe_png_16bit() {
    let mut data = vec![0u8; 33];
    data[..8].copy_from_slice(&[0x89, 0x50, 0x4E, 0x47, 0x0D, 0x0A, 0x1A, 0x0A]);
    data[8..12].copy_from_slice(&[0x00, 0x00, 0x00, 0x0D]);
    data[12..16].copy_from_slice(b"IHDR");
    data[16..20].copy_from_slice(&1920u32.to_be_bytes());
    data[20..24].copy_from_slice(&1080u32.to_be_bytes());
    data[24] = 16;
    data[25] = 6; // RGBA

    let result = probe_png(&data);
    assert_eq!(result.bit_depth, Some(16));
    assert_eq!(result.width, Some(1920));
    assert_eq!(result.height, Some(1080));
}

#[test]
fn probe_png_too_short() {
    let data = [0x89, 0x50, 0x4E, 0x47, 0x0D, 0x0A, 0x1A, 0x0A];
    let result = probe_png(&data);
    assert_eq!(result.width, None);
    assert_eq!(result.height, None);
    assert_eq!(result.format, ImageFormat::Png);
}

// ---- GIF tests ----

#[test]
fn probe_gif_full_header() {
    let mut data = vec![0u8; 13];
    data[..6].copy_from_slice(b"GIF89a");
    // Width: 320 (LE u16)
    data[6..8].copy_from_slice(&320u16.to_le_bytes());
    // Height: 240 (LE u16)
    data[8..10].copy_from_slice(&240u16.to_le_bytes());

    let result = probe_gif(&data);
    assert_eq!(result.width, Some(320));
    assert_eq!(result.height, Some(240));
    assert_eq!(result.has_alpha, Some(true));
    assert_eq!(result.bit_depth, Some(8));
}

#[test]
fn probe_gif_too_short() {
    let data = b"GIF89a";
    let result = probe_gif(data);
    assert_eq!(result.width, None);
}

// ---- WebP VP8X tests ----

#[test]
fn probe_webp_vp8x() {
    let mut data = vec![0u8; 30];
    data[..4].copy_from_slice(b"RIFF");
    data[8..12].copy_from_slice(b"WEBP");
    data[12..16].copy_from_slice(b"VP8X");
    // Chunk size (4 bytes LE)
    data[16..20].copy_from_slice(&10u32.to_le_bytes());
    // Flags: alpha=0x10, animation=0x02
    data[20] = 0x10 | 0x02;
    // Canvas width: 639 (stored as 639, value = 640)
    let w = 639u32;
    data[24] = w as u8;
    data[25] = (w >> 8) as u8;
    data[26] = (w >> 16) as u8;
    // Canvas height: 479 (stored as 479, value = 480)
    let h = 479u32;
    data[27] = h as u8;
    data[28] = (h >> 8) as u8;
    data[29] = (h >> 16) as u8;

    let result = probe_webp(&data);
    assert_eq!(result.width, Some(640));
    assert_eq!(result.height, Some(480));
    assert_eq!(result.has_alpha, Some(true));
    assert_eq!(result.has_animation, Some(true));
}

#[test]
fn probe_webp_vp8_lossy() {
    let mut data = vec![0u8; 30];
    data[..4].copy_from_slice(b"RIFF");
    data[8..12].copy_from_slice(b"WEBP");
    data[12..16].copy_from_slice(b"VP8 ");
    // VP8 frame tag (3 bytes) + keyframe signature
    data[23] = 0x9D;
    data[24] = 0x01;
    data[25] = 0x2A;
    // Width: 800, Height: 600 (LE u16, low 14 bits)
    data[26..28].copy_from_slice(&800u16.to_le_bytes());
    data[28..30].copy_from_slice(&600u16.to_le_bytes());

    let result = probe_webp(&data);
    assert_eq!(result.width, Some(800));
    assert_eq!(result.height, Some(600));
    assert_eq!(result.has_alpha, Some(false));
    assert_eq!(result.has_animation, Some(false));
}

#[test]
fn probe_webp_vp8l() {
    let mut data = vec![0u8; 25];
    data[..4].copy_from_slice(b"RIFF");
    data[8..12].copy_from_slice(b"WEBP");
    data[12..16].copy_from_slice(b"VP8L");
    // Chunk size
    data[16..20].copy_from_slice(&5u32.to_le_bytes());
    // Signature byte at offset 20
    data[20] = 0x2F;
    // Dimensions bit-packed at offset 21..25:
    // bits[0..14] = width-1 = 254, bits[14..28] = height-1 = 126
    let bits: u32 = 254 | (126 << 14);
    data[21..25].copy_from_slice(&bits.to_le_bytes());

    let result = probe_webp(&data);
    assert_eq!(result.width, Some(255));
    assert_eq!(result.height, Some(127));
    assert_eq!(result.has_alpha, Some(true));
}

#[test]
fn probe_webp_too_short() {
    let data = b"RIFF\x00\x00\x00\x00WEBP";
    let result = probe_webp(data);
    assert_eq!(result.width, None);
    assert_eq!(result.format, ImageFormat::WebP);
}

// ---- JPEG tests ----

#[test]
fn probe_jpeg_sof() {
    // Minimal JPEG: SOI + APP0 (short) + SOF0
    let mut data = vec![0u8; 30];
    // SOI
    data[0] = 0xFF;
    data[1] = 0xD8;
    // APP0 marker
    data[2] = 0xFF;
    data[3] = 0xE0;
    // APP0 length = 16 (including 2-byte length field)
    data[4] = 0x00;
    data[5] = 0x10;
    // (14 bytes of APP0 data, we skip them)
    // SOF0 at offset 20
    data[20] = 0xFF;
    data[21] = 0xC0;
    // SOF0 length
    data[22] = 0x00;
    data[23] = 0x0B;
    // Precision
    data[24] = 8;
    // Height: 480 (BE u16)
    data[25] = 0x01;
    data[26] = 0xE0;
    // Width: 640 (BE u16)
    data[27] = 0x02;
    data[28] = 0x80;

    let result = probe_jpeg(&data);
    assert_eq!(result.width, Some(640));
    assert_eq!(result.height, Some(480));
    assert_eq!(result.bit_depth, Some(8));
    assert_eq!(result.has_alpha, Some(false));
    assert_eq!(result.has_animation, Some(false));
}

#[test]
fn probe_jpeg_truncated_before_sof() {
    // SOI + APP0 with large length, truncated
    let mut data = vec![0u8; 20];
    data[0] = 0xFF;
    data[1] = 0xD8;
    data[2] = 0xFF;
    data[3] = 0xE0;
    // APP0 length = 1000 (much more data than we have)
    data[4] = 0x03;
    data[5] = 0xE8;

    let result = probe_jpeg(&data);
    assert_eq!(result.width, None);
    assert_eq!(result.height, None);
    assert_eq!(result.format, ImageFormat::Jpeg);
}

#[test]
fn probe_jpeg_too_short() {
    let data = [0xFF, 0xD8];
    let result = probe_jpeg(&data);
    assert_eq!(result.width, None);
}

// ---- AVIF tests ----

#[test]
fn probe_avif_ispe() {
    // Build a minimal AVIF with ftyp + meta containing iprp/ipco/ispe
    let mut data = Vec::new();

    // ftyp box: size=20, type="ftyp", brand="avif", version=0, compat="avif"
    let ftyp_size = 20u32;
    data.extend_from_slice(&ftyp_size.to_be_bytes());
    data.extend_from_slice(b"ftyp");
    data.extend_from_slice(b"avif");
    data.extend_from_slice(&0u32.to_be_bytes()); // minor version
    data.extend_from_slice(b"avif");

    // ispe box: size=20, type="ispe", version/flags=0, width=1920, height=1080
    let mut ispe = Vec::new();
    let ispe_size = 20u32;
    ispe.extend_from_slice(&ispe_size.to_be_bytes());
    ispe.extend_from_slice(b"ispe");
    ispe.extend_from_slice(&0u32.to_be_bytes()); // version/flags
    ispe.extend_from_slice(&1920u32.to_be_bytes());
    ispe.extend_from_slice(&1080u32.to_be_bytes());

    // ipco box wrapping ispe
    let ipco_size = (8 + ispe.len()) as u32;
    let mut ipco = Vec::new();
    ipco.extend_from_slice(&ipco_size.to_be_bytes());
    ipco.extend_from_slice(b"ipco");
    ipco.extend_from_slice(&ispe);

    // iprp box wrapping ipco
    let iprp_size = (8 + ipco.len()) as u32;
    let mut iprp = Vec::new();
    iprp.extend_from_slice(&iprp_size.to_be_bytes());
    iprp.extend_from_slice(b"iprp");
    iprp.extend_from_slice(&ipco);

    // meta box (FullBox - 4 extra bytes for version/flags) wrapping iprp
    let meta_size = (8 + 4 + iprp.len()) as u32;
    data.extend_from_slice(&meta_size.to_be_bytes());
    data.extend_from_slice(b"meta");
    data.extend_from_slice(&0u32.to_be_bytes()); // version/flags
    data.extend_from_slice(&iprp);

    let result = probe_avif(&data);
    assert_eq!(result.width, Some(1920));
    assert_eq!(result.height, Some(1080));
}

#[test]
fn probe_avif_no_meta() {
    // Just ftyp, no meta box
    let mut data = Vec::new();
    let ftyp_size = 20u32;
    data.extend_from_slice(&ftyp_size.to_be_bytes());
    data.extend_from_slice(b"ftyp");
    data.extend_from_slice(b"avif");
    data.extend_from_slice(&0u32.to_be_bytes());
    data.extend_from_slice(b"avif");

    let result = probe_avif(&data);
    assert_eq!(result.width, None);
    assert_eq!(result.height, None);
    assert_eq!(result.format, ImageFormat::Avif);
}

// ---- ProbeResult conversion ----

#[test]
fn probe_result_into_image_info() {
    let result = ProbeResult {
        format: ImageFormat::Png,
        width: Some(100),
        height: Some(50),
        has_alpha: Some(true),
        has_animation: Some(false),
        frame_count: None,
        bit_depth: Some(8),
        bytes_examined: 33,
    };

    let info = result.into_image_info().unwrap();
    assert_eq!(info.width, 100);
    assert_eq!(info.height, 50);
    assert!(info.has_alpha);
    assert!(!info.has_animation);
}

#[test]
fn probe_result_into_image_info_missing_dims() {
    let result = ProbeResult {
        format: ImageFormat::Jpeg,
        width: None,
        height: None,
        has_alpha: Some(false),
        has_animation: None,
        frame_count: None,
        bit_depth: None,
        bytes_examined: 2,
    };

    assert!(result.into_image_info().is_none());
}

// ---- Dispatch tests ----

#[test]
fn probe_for_format_dispatches() {
    let png_data = vec![0u8; 33];
    let result = ProbeResult::for_format(&png_data, ImageFormat::Png);
    assert_eq!(result.format, ImageFormat::Png);

    let gif_data = vec![0u8; 13];
    let result = ProbeResult::for_format(&gif_data, ImageFormat::Gif);
    assert_eq!(result.format, ImageFormat::Gif);
}

// ---- Integration tests with real encoded images ----

/// Helper: create a 64x48 RGB test image.
fn test_rgb_pixels() -> (Vec<u8>, u32, u32) {
    let w = 64u32;
    let h = 48u32;
    let mut pixels = vec![0u8; (w * h * 3) as usize];
    for y in 0..h {
        for x in 0..w {
            let i = ((y * w + x) * 3) as usize;
            pixels[i] = (x * 4) as u8;
            pixels[i + 1] = (y * 5) as u8;
            pixels[i + 2] = ((x + y) * 2) as u8;
        }
    }
    (pixels, w, h)
}

/// Verify probe at various truncation lengths never panics and gives
/// correct results when enough data is present.
fn verify_probe_truncation(encoded: &[u8], format: ImageFormat, expected_w: u32, expected_h: u32) {
    // With 12 bytes: format detection works but dimensions may not
    if encoded.len() >= 12 {
        let result = ProbeResult::for_format(&encoded[..12], format);
        assert_eq!(result.format, format);
    }

    // With min_probe_bytes: dimensions should be present
    let min = format.min_probe_bytes();
    if encoded.len() >= min {
        let result = ProbeResult::for_format(&encoded[..min], format);
        assert_eq!(result.format, format);
        // For most formats, min_probe_bytes should give dimensions
        // (JPEG is an exception - SOF position is variable)
        if format != ImageFormat::Jpeg {
            assert_eq!(
                result.width,
                Some(expected_w),
                "width mismatch at min_probe_bytes for {format:?}"
            );
            assert_eq!(
                result.height,
                Some(expected_h),
                "height mismatch at min_probe_bytes for {format:?}"
            );
        }
    }

    // With full data: should always have dimensions
    let result = ProbeResult::for_format(encoded, format);
    assert_eq!(result.width, Some(expected_w), "width mismatch for {format:?}");
    assert_eq!(result.height, Some(expected_h), "height mismatch for {format:?}");

    // Random truncation should never panic
    for len in (1..encoded.len()).step_by(7) {
        let _ = ProbeResult::for_format(&encoded[..len], format);
    }
}

fn encode_png(pixels: &[u8], w: u32, h: u32, color: png::ColorType) -> Vec<u8> {
    let mut png_buf = Vec::new();
    {
        let mut encoder = png::Encoder::new(&mut png_buf, w, h);
        encoder.set_color(color);
        encoder.set_depth(png::BitDepth::Eight);
        let mut writer = encoder.write_header().unwrap();
        writer.write_image_data(pixels).unwrap();
    }
    png_buf
}

#[test]
fn probe_real_png() {
    // Encode a PNG via the png crate
    let (pixels, w, h) = test_rgb_pixels();
    let png_buf = encode_png(&pixels, w, h, png::ColorType::Rgb);

    verify_probe_truncation(&png_buf, ImageFormat::Png, w, h);

    let result = probe_png(&png_buf);
    assert_eq!(result.has_alpha, Some(false));
    assert_eq!(result.bit_depth, Some(8));
}

#[test]
fn probe_real_png_rgba() {
    let w = 32u32;
    let h = 24u32;
    let mut pixels = vec![0u8; (w * h * 4) as usize];
    for i in (0..pixels.len()).step_by(4) {
        pixels[i] = 128;
        pixels[i + 1] = 64;
        pixels[i + 2] = 32;
        pixels[i + 3] = 200;
    }

    let png_buf = encode_png(&pixels, w, h, png::ColorType::Rgba);

    let result = probe_png(&png_buf);
    assert_eq!(result.width, Some(w));
    assert_eq!(result.height, Some(h));
    assert_eq!(result.has_alpha, Some(true));
}

// ---- probe entry points ----

#[test]
fn image_info_probe_png() {
    let (pixels, w, h) = test_rgb_pixels();
    let png_buf = encode_png(&pixels, w, h, png::ColorType::Rgb);

    let probe = zencodecs::probe(&png_buf).unwrap();
    assert_eq!(probe.format, ImageFormat::Png);
    assert_eq!(probe.width, Some(w));
    assert_eq!(probe.height, Some(h));

    // Convert to ImageInfo
    let info = probe.into_image_info().unwrap();
    assert_eq!(info.width, w);
    assert_eq!(info.height, h);
}

#[test]
fn image_info_probe_unrecognized() {
    let data = b"not an image format at all";
    let result = zencodecs::probe(data);
    assert!(matches!(result, Err(CodecError::UnrecognizedFormat)));
}

#[test]
fn image_info_probe_with_registry_disabled() {
    let jpeg_data = [0xFF, 0xD8, 0xFF, 0xE0, 0x00, 0x10];
    let registry = CodecRegistry::none();
    let result = zencodecs::probe_with_registry(&jpeg_data, &registry);
    assert!(matches!(result, Err(CodecError::DisabledFormat(_))));
}

#[test]
fn probe_real_jpeg() {
    let (pixels, w, h) = test_rgb_pixels();
    let config =
        zenjpeg::encoder::EncoderConfig::ycbcr(85, zenjpeg::encoder::ChromaSubsampling::Quarter);
    let encoded = config
        .request()
        .encode_bytes(&pixels, w, h, zenjpeg::encoder::PixelLayout::Rgb8Srgb)
        .unwrap();

    // Full probe
    let result = probe_jpeg(&encoded);
    assert_eq!(result.width, Some(w));
    assert_eq!(result.height, Some(h));
    assert_eq!(result.has_alpha, Some(false));
    assert_eq!(result.bit_depth, Some(8));

    // Matches codec probe
    let info = zencodecs::from_bytes(&encoded).unwrap();
    assert_eq!(result.width, Some(info.width));
    assert_eq!(result.height, Some(info.height));

    // Truncation safety
    for len in (1..encoded.len()).step_by(17) {
        let _ = probe_jpeg(&encoded[..len]);
    }
}

#[test]
fn probe_real_webp_lossy() {
    let (pixels, w, h) = test_rgb_pixels();
    let config = zenwebp::LossyConfig::new().with_quality(75.0);
    let encoded = zenwebp::EncodeRequest::lossy(&config, &pixels, zenwebp::PixelLayout::Rgb8, w, h)
        .encode()
        .unwrap();

    verify_probe_truncation(&encoded, ImageFormat::WebP, w, h);

    let result = probe_webp(&encoded);
    assert_eq!(result.has_alpha, Some(false));
    assert_eq!(result.has_animation, Some(false));
}

#[test]
fn probe_real_webp_lossless() {
    let (pixels, w, h) = test_rgb_pixels();
    let config = zenwebp::LosslessConfig::default();
    let encoded =
        zenwebp::EncodeRequest::lossless(&config, &pixels, zenwebp::PixelLayout::Rgb8, w, h)
            .encode()
            .unwrap();

    let result = probe_webp(&encoded);
    assert_eq!(result.width, Some(w));
    assert_eq!(result.height, Some(h));
}

#[test]
fn probe_real_gif() {
    let w = 16u32;
    let h = 12u32;
    let mut pixels = Vec::new();
    for _ in 0..(w * h) {
        pixels.extend_from_slice(&[128u8, 64, 32, 255]);
    }
    let frame = zengif::FrameInput::from_bytes(w as u16, h as u16, 10, &pixels);
    let encoded = zengif::encode_gif(
        vec![frame],
        w as u16,
        h as u16,
        zengif::EncoderConfig::new(),
        zengif::Limits::default(),
        &zengif::Unstoppable,
    )
    .unwrap();

    verify_probe_truncation(&encoded, ImageFormat::Gif, w, h);
}

#[test]
fn image_info_probe_matches_from_bytes() {
    let (pixels, w, h) = test_rgb_pixels();
    let config =
        zenjpeg::encoder::EncoderConfig::ycbcr(85, zenjpeg::encoder::ChromaSubsampling::Quarter);
    let encoded = config
        .request()
        .encode_bytes(&pixels, w, h, zenjpeg::encoder::PixelLayout::Rgb8Srgb)
        .unwrap();

    let probe = zencodecs::probe(&encoded).unwrap();
    let full = zencodecs::from_bytes(&encoded).unwrap();

    assert_eq!(probe.width, Some(full.width));
    assert_eq!(probe.height, Some(full.height));
}
