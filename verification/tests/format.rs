use zencodecs::ImageFormat;

#[test]
fn detect_jpeg() {
    let data = [0xFF, 0xD8, 0xFF, 0xE0, 0x00, 0x10];
    assert_eq!(ImageFormat::detect(&data), Some(ImageFormat::Jpeg));
}

#[test]
fn detect_png() {
    let data = [
        0x89, 0x50, 0x4E, 0x47, 0x0D, 0x0A, 0x1A, 0x0A, 0x00, 0x00, 0x00, 0x0D,
    ];
    assert_eq!(ImageFormat::detect(&data), Some(ImageFormat::Png));
}

#[test]
fn detect_gif() {
    let data = b"GIF89a\x00\x00\x00\x00\x00\x00";
    assert_eq!(ImageFormat::detect(data), Some(ImageFormat::Gif));
}

#[test]
fn detect_webp() {
    let data = b"RIFF\x00\x00\x00\x00WEBP";
    assert_eq!(ImageFormat::detect(data), Some(ImageFormat::WebP));
}

#[test]
fn detect_avif() {
    let data = b"\x00\x00\x00\x18ftypavif";
    assert_eq!(ImageFormat::detect(data), Some(ImageFormat::Avif));
}

#[test]
fn detect_jxl_codestream() {
    let data = [0xFF, 0x0A, 0x00, 0x00];
    assert_eq!(ImageFormat::detect(&data), Some(ImageFormat::Jxl));
}

#[test]
fn detect_jxl_container() {
    let data = [0x00, 0x00, 0x00, 0x0C, b'J', b'X', b'L', b' ', 0x0D, 0x0A, 0x87, 0x0A];
    assert_eq!(ImageFormat::detect(&data), Some(ImageFormat::Jxl));
}

#[test]
fn detect_too_short() {
    let data = [0xFF, 0xD8];
    assert_eq!(ImageFormat::detect(&data), None);
}

#[test]
fn from_extension_case_insensitive() {
    assert_eq!(ImageFormat::from_extension("JPG"), Some(ImageFormat::Jpeg));
    assert_eq!(ImageFormat::from_extension("WebP"), Some(ImageFormat::WebP));
    assert_eq!(ImageFormat::from_extension("unknown"), None);
}

#[test]
fn min_probe_bytes_values() {
    assert_eq!(ImageFormat::Png.min_probe_bytes(), 33);
    assert_eq!(ImageFormat::Gif.min_probe_bytes(), 13);
    assert_eq!(ImageFormat::WebP.min_probe_bytes(), 30);
    assert_eq!(ImageFormat::Jpeg.min_probe_bytes(), 2048);
    assert_eq!(ImageFormat::Avif.min_probe_bytes(), 512);
    assert_eq!(ImageFormat::Jxl.min_probe_bytes(), 256);
    assert_eq!(ImageFormat::RECOMMENDED_PROBE_BYTES, 4096);
}

#[test]
fn detect_empty_and_single_byte() {
    assert_eq!(ImageFormat::detect(&[]), None);
    assert_eq!(ImageFormat::detect(&[0xFF]), None);
    assert_eq!(ImageFormat::detect(&[0x89]), None);
}

#[test]
fn detect_gif87a() {
    assert_eq!(ImageFormat::detect(b"GIF87a"), Some(ImageFormat::Gif));
    assert_eq!(ImageFormat::detect(b"GIF88a"), None);
    assert_eq!(ImageFormat::detect(b"GIF89"), None);
}

#[test]
fn detect_avis_brand_and_other_brand() {
    assert_eq!(ImageFormat::detect(b"\x00\x00\x00\x18ftypavis"), Some(ImageFormat::Avif));
    assert_eq!(ImageFormat::detect(b"\x00\x00\x00\x18ftypheic"), None);
    assert_eq!(ImageFormat::detect(b"\x00\x00\x00\x18ftypavi"), None);
}

#[test]
fn detect_signature_one_byte_short() {
    assert_eq!(ImageFormat::detect(&[0x89, 0x50, 0x4E, 0x47, 0x0D, 0x0A, 0x1A]), None);
    assert_eq!(ImageFormat::detect(b"RIFF\x00\x00\x00\x00WEB"), None);
    assert_eq!(
        ImageFormat::detect(&[0x00, 0x00, 0x00, 0x0C, b'J', b'X', b'L', b' ', 0x0D, 0x0A, 0x87]),
        None
    );
}

#[test]
fn detect_order_when_signatures_overlap() {
    // A JPEG signature in front of an `ftyp` tag wins over AVIF.
    let jpeg_first = b"\xFF\xD8\xFF\x00ftypavif";
    assert_eq!(ImageFormat::detect(jpeg_first), Some(ImageFormat::Jpeg));
    // AVIF wins over a JPEG XL codestream signature.
    let avif_first = b"\xFF\x0A\x00\x00ftypavif";
    assert_eq!(ImageFormat::detect(avif_first), Some(ImageFormat::Avif));
}

#[test]
fn detect_on_twelve_byte_prefix_matches_whole() {
    let mut png = vec![0x89, 0x50, 0x4E, 0x47, 0x0D, 0x0A, 0x1A, 0x0A];
    png.extend_from_slice(&[0u8; 40]);
    assert_eq!(ImageFormat::detect(&png[..12]), ImageFormat::detect(&png));
    let mut webp = b"RIFF\x10\x00\x00\x00WEBPVP8 ".to_vec();
    webp.extend_from_slice(&[7u8; 20]);
    assert_eq!(ImageFormat::detect(&webp[..12]), Some(ImageFormat::WebP));
    assert_eq!(ImageFormat::detect(&webp), Some(ImageFormat::WebP));
}

#[test]
fn from_extension_all_names() {
    for ext in ["jpg", "jpeg", "jpe", "jfif", "JPEG", "Jfif"] {
        assert_eq!(ImageFormat::from_extension(ext), Some(ImageFormat::Jpeg));
    }
    assert_eq!(ImageFormat::from_extension("gif"), Some(ImageFormat::Gif));
    assert_eq!(ImageFormat::from_extension("PNG"), Some(ImageFormat::Png));
    assert_eq!(ImageFormat::from_extension("Avif"), Some(ImageFormat::Avif));
    assert_eq!(ImageFormat::from_extension("jXl"), Some(ImageFormat::Jxl));
    assert_eq!(ImageFormat::from_extension(""), None);
    assert_eq!(ImageFormat::from_extension("jp"), None);
    assert_eq!(ImageFormat::from_extension("jpgx"), None);
    assert_eq!(ImageFormat::from_extension(".png"), None);
    assert_eq!(ImageFormat::from_extension("g\u{0130}f"), None);
}

#[test]
fn extensions_name_their_own_format() {
    let all = [
        ImageFormat::Jpeg,
        ImageFormat::WebP,
        ImageFormat::Gif,
        ImageFormat::Png,
        ImageFormat::Avif,
        ImageFormat::Jxl,
    ];
    for format in all {
        assert!(!format.extensions().is_empty());
        for ext in format.extensions() {
            assert_eq!(ImageFormat::from_extension(ext), Some(format));
        }
    }
    assert_eq!(ImageFormat::Jpeg.extensions(), &["jpg", "jpeg", "jpe", "jfif"]);
    assert_eq!(ImageFormat::WebP.extensions()[0], "webp");
}

#[test]
fn mime_types() {
    assert_eq!(ImageFormat::Jpeg.mime_type(), "image/jpeg");
    assert_eq!(ImageFormat::WebP.mime_type(), "image/webp");
    assert_eq!(ImageFormat::Gif.mime_type(), "image/gif");
    assert_eq!(ImageFormat::Png.mime_type(), "image/png");
    assert_eq!(ImageFormat::Avif.mime_type(), "image/avif");
    assert_eq!(ImageFormat::Jxl.mime_type(), "image/jxl");
}

#[test]
fn capabilities() {
    assert!(ImageFormat::Jpeg.supports_lossy());
    assert!(!ImageFormat::Jpeg.supports_lossless());
    assert!(!ImageFormat::Jpeg.supports_alpha());
    assert!(!ImageFormat::Jpeg.supports_animation());
    assert!(ImageFormat::WebP.supports_lossy());
    assert!(ImageFormat::WebP.supports_lossless());
    assert!(ImageFormat::WebP.supports_animation());
    assert!(!ImageFormat::Gif.supports_lossy());
    assert!(ImageFormat::Gif.supports_animation());
    assert!(!ImageFormat::Png.supports_lossy());
    assert!(ImageFormat::Png.supports_lossless());
    assert!(!ImageFormat::Png.supports_animation());
    assert!(ImageFormat::Avif.supports_lossy());
    assert!(!ImageFormat::Avif.supports_lossless());
    assert!(!ImageFormat::Avif.supports_animation());
    assert!(ImageFormat::Avif.supports_alpha());
    assert!(ImageFormat::Jxl.supports_lossy());
    assert!(ImageFormat::Jxl.supports_lossless());
    assert!(ImageFormat::Jxl.supports_animation());
}
