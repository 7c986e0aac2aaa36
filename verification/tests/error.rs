use zencodecs::{CodecError, ImageFormat};

#[test]
fn messages() {
    assert_eq!(CodecError::UnrecognizedFormat.message(), "unrecognized image format");
    assert_eq!(
        CodecError::UnsupportedFormat(ImageFormat::WebP).message(),
        "format WebP not supported (codec not compiled in)"
    );
    assert_eq!(
        CodecError::UnsupportedOperation { format: ImageFormat::Jpeg, detail: "lossless" }.message(),
        "format Jpeg does not support: lossless"
    );
    assert_eq!(
        CodecError::DisabledFormat(ImageFormat::Avif).message(),
        "format Avif is disabled in the codec registry"
    );
    assert_eq!(CodecError::InvalidInput("bad".to_string()).message(), "invalid input: bad");
    assert_eq!(CodecError::LimitExceeded("wide".to_string()).message(), "limit exceeded: wide");
    assert_eq!(CodecError::Cancelled.message(), "operation cancelled");
    assert_eq!(CodecError::Oom.message(), "out of memory");
    assert_eq!(
        CodecError::NoSuitableEncoder.message(),
        "no suitable encoder found for auto-selection"
    );
    assert_eq!(
        CodecError::Codec { format: ImageFormat::Jxl, message: "broken".to_string() }.message(),
        "codec error (Jxl): broken"
    );
}

#[test]
fn format_names_are_the_debug_names() {
    for format in [
        ImageFormat::Jpeg,
        ImageFormat::WebP,
        ImageFormat::Gif,
        ImageFormat::Png,
        ImageFormat::Avif,
        ImageFormat::Jxl,
    ] {
        assert_eq!(format.name(), format!("{format:?}"));
    }
}

#[test]
fn from_codec_keeps_format_and_text() {
    let source = "12x".parse::<u32>().unwrap_err();
    let text = source.to_string();
    match CodecError::from_codec(ImageFormat::Png, source) {
        CodecError::Codec { format, message } => {
            assert_eq!(format, ImageFormat::Png);
            assert_eq!(message, text);
        }
        _ => panic!("expected a codec error"),
    }
}
