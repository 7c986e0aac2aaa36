use zencodecs::cli::{
    check_flags, check_writable, kept_metadata, names_directory, output_filename, output_place,
    parse_size, preset_for_format, preset_quality_tenths, resolve_dimensions, resolve_format,
    shorten_name, skip_as_larger, FitMode, FlipArg, FormatArg, InfoArgs, KeptMetadata, OutputError,
    OutputPlace, PresetArg, SizeError,
};
use zencodecs::ImageFormat;

#[test]
fn format_arguments_name_formats() {
    assert_eq!(FormatArg::Jpeg.to_image_format(), ImageFormat::Jpeg);
    assert_eq!(FormatArg::Webp.to_image_format(), ImageFormat::WebP);
    assert_eq!(FormatArg::Png.to_image_format(), ImageFormat::Png);
    assert_eq!(FormatArg::Gif.to_image_format(), ImageFormat::Gif);
    assert_eq!(FormatArg::Avif.to_image_format(), ImageFormat::Avif);
    assert_eq!(FormatArg::Jxl.to_image_format(), ImageFormat::Jxl);
}

#[test]
fn defaults_and_plain_values() {
    assert_eq!(FitMode::default(), FitMode::ScaleDown);
    assert_ne!(FlipArg::H, FlipArg::V);
    let args = InfoArgs { files: vec!["a.png".to_string()], json: true };
    assert_eq!(args.files.len(), 1);
    assert!(args.json);
}

#[test]
fn explicit_format_wins_over_extension() {
    assert_eq!(resolve_format(Some(FormatArg::Png), Some("jpg")), Some(ImageFormat::Png));
    assert_eq!(resolve_format(Some(FormatArg::Jxl), None), Some(ImageFormat::Jxl));
    assert_eq!(resolve_format(None, Some("WEBP")), Some(ImageFormat::WebP));
    assert_eq!(resolve_format(None, Some("txt")), None);
    assert_eq!(resolve_format(None, None), None);
}

#[test]
fn preset_table() {
    let formats = [
        ImageFormat::Jpeg,
        ImageFormat::WebP,
        ImageFormat::Gif,
        ImageFormat::Png,
        ImageFormat::Avif,
        ImageFormat::Jxl,
    ];
    let table = [
        (PresetArg::Lossless, [1000u16, 1000, 1000, 1000, 1000, 1000]),
        (PresetArg::NearLossless, [970, 950, 970, 970, 950, 995]),
        (PresetArg::High, [900, 900, 900, 900, 850, 990]),
        (PresetArg::Balanced, [800, 800, 800, 800, 700, 980]),
        (PresetArg::Small, [600, 600, 600, 600, 450, 960]),
    ];
    for (preset, row) in table {
        for (format, expected) in formats.iter().zip(row) {
            assert_eq!(preset_quality_tenths(preset, *format), expected);
        }
    }
}

#[test]
fn preset_for_format_pairs() {
    assert_eq!(preset_for_format(PresetArg::Lossless, ImageFormat::Jpeg), (Some(1000), false));
    assert_eq!(preset_for_format(PresetArg::Lossless, ImageFormat::WebP), (None, true));
    assert_eq!(preset_for_format(PresetArg::Lossless, ImageFormat::Png), (None, true));
    assert_eq!(preset_for_format(PresetArg::Lossless, ImageFormat::Avif), (Some(1000), false));
    assert_eq!(preset_for_format(PresetArg::Lossless, ImageFormat::Jxl), (None, true));
    assert_eq!(preset_for_format(PresetArg::Balanced, ImageFormat::Jpeg), (Some(800), false));
    assert_eq!(preset_for_format(PresetArg::Balanced, ImageFormat::Avif), (Some(700), false));
    assert_eq!(preset_for_format(PresetArg::Small, ImageFormat::WebP), (Some(600), false));
    assert_eq!(preset_for_format(PresetArg::NearLossless, ImageFormat::Avif), (Some(950), false));
    for preset in [PresetArg::Small, PresetArg::Balanced, PresetArg::High, PresetArg::NearLossless] {
        assert_eq!(preset_for_format(preset, ImageFormat::Gif), (None, true));
        assert_eq!(preset_for_format(preset, ImageFormat::Png), (None, true));
    }
}

#[test]
fn sizes_that_parse() {
    assert_eq!(parse_size("800x600"), Ok((800, 600)));
    assert_eq!(parse_size("0x0"), Ok((0, 0)));
    assert_eq!(parse_size("+12x+034"), Ok((12, 34)));
    assert_eq!(parse_size("4294967295x1"), Ok((u32::MAX, 1)));
    assert_eq!(parse_size("0004294967295x00"), Ok((u32::MAX, 0)));
}

#[test]
fn sizes_that_do_not_parse() {
    for text in ["", "800", "800X600", "1x2x3", "xx", "800*600"] {
        assert_eq!(parse_size(text), Err(SizeError::NotTwoParts));
    }
    let bad_widths = [
        "x600", "-1x600", " 1x2", "1 x2", "+x3", "4294967296x1", "99999999999x1", "ax1", "1.5x2",
        "++1x2",
    ];
    for text in bad_widths {
        assert_eq!(parse_size(text), Err(SizeError::InvalidWidth));
    }
    for text in ["800x", "1x-2", "1x2 ", "1x+", "1x4294967296", "1x\u{0661}", "1x0x"] {
        let expected = if text == "1x0x" { SizeError::NotTwoParts } else { SizeError::InvalidHeight };
        assert_eq!(parse_size(text), Err(expected));
    }
}

#[test]
fn parse_size_agrees_with_std() {
    let parts = ["", "0", "7", "+7", "-7", "007", "4294967295", "4294967296", "12a", "+", " 1"];
    for w in parts {
        for h in parts {
            let text = format!("{w}x{h}");
            let expected = match (w.parse::<u32>(), h.parse::<u32>()) {
                (Err(_), _) => Err(SizeError::InvalidWidth),
                (Ok(_), Err(_)) => Err(SizeError::InvalidHeight),
                (Ok(a), Ok(b)) => Ok((a, b)),
            };
            assert_eq!(parse_size(&text), expected);
        }
    }
}

#[test]
fn dimensions_from_size_or_sides() {
    assert_eq!(resolve_dimensions(Some("640x480"), Some(1), Some(2)), Ok(Some((640, 480))));
    assert_eq!(resolve_dimensions(Some("640"), Some(1), Some(2)), Err(SizeError::NotTwoParts));
    assert_eq!(resolve_dimensions(None, Some(1), Some(2)), Ok(Some((1, 2))));
    assert_eq!(resolve_dimensions(None, Some(1), None), Ok(Some((1, 0))));
    assert_eq!(resolve_dimensions(None, None, Some(2)), Ok(Some((0, 2))));
    assert_eq!(resolve_dimensions(None, None, None), Ok(None));
}

fn percent(pair: (Option<u16>, bool)) -> (Option<f32>, bool) {
    (pair.0.map(|tenths| tenths as f32 / 10.0), pair.1)
}

#[test]
fn lossless_jpeg_gives_max_quality() {
    let (q, lossless) = percent(preset_for_format(PresetArg::Lossless, ImageFormat::Jpeg));
    assert_eq!(q, Some(100.0));
    assert!(!lossless);
}

#[test]
fn lossless_webp_is_lossless() {
    let (q, lossless) = percent(preset_for_format(PresetArg::Lossless, ImageFormat::WebP));
    assert_eq!(q, None);
    assert!(lossless);
}

#[test]
fn lossless_png_always_lossless() {
    let (q, lossless) = percent(preset_for_format(PresetArg::Lossless, ImageFormat::Png));
    assert_eq!(q, None);
    assert!(lossless);
}

#[test]
fn balanced_jpeg() {
    let (q, lossless) = percent(preset_for_format(PresetArg::Balanced, ImageFormat::Jpeg));
    assert_eq!(q, Some(80.0));
    assert!(!lossless);
}

#[test]
fn balanced_avif() {
    let (q, lossless) = percent(preset_for_format(PresetArg::Balanced, ImageFormat::Avif));
    assert_eq!(q, Some(70.0));
    assert!(!lossless);
}

#[test]
fn gif_always_lossless() {
    // GIF is always lossless regardless of preset
    for preset in [PresetArg::Small, PresetArg::Balanced, PresetArg::High] {
        let (q, lossless) = percent(preset_for_format(preset, ImageFormat::Gif));
        assert_eq!(q, None);
        assert!(lossless);
    }
}

#[test]
fn small_file_webp() {
    let (q, lossless) = percent(preset_for_format(PresetArg::Small, ImageFormat::WebP));
    assert_eq!(q, Some(60.0));
    assert!(!lossless);
}

#[test]
fn near_lossless_avif() {
    let (q, lossless) = percent(preset_for_format(PresetArg::NearLossless, ImageFormat::Avif));
    assert_eq!(q, Some(95.0));
    assert!(!lossless);
}

#[test]
fn metadata_kept_by_flags() {
    let all = KeptMetadata { icc: true, exif: true, xmp: true };
    assert_eq!(kept_metadata(false, false, false, false, false), Some(all));
    assert_eq!(kept_metadata(true, true, false, false, false), None);
    assert_eq!(kept_metadata(true, false, true, true, true), None);
    assert_eq!(
        kept_metadata(false, true, true, false, false),
        Some(KeptMetadata { icc: true, exif: false, xmp: false })
    );
    assert_eq!(
        kept_metadata(false, false, true, false, true),
        Some(KeptMetadata { icc: false, exif: true, xmp: false })
    );
    assert_eq!(
        kept_metadata(false, false, false, true, false),
        Some(KeptMetadata { icc: true, exif: false, xmp: true })
    );
}

#[test]
fn output_flags_and_places() {
    assert_eq!(check_flags(true, false), Err(OutputError::InPlaceWithoutForce));
    assert_eq!(check_flags(true, true), Ok(()));
    assert_eq!(check_flags(false, false), Ok(()));
    assert!(names_directory(true, false));
    assert!(names_directory(false, true));
    assert!(!names_directory(false, false));

    assert_eq!(output_place(true, true, true, 5), Ok(OutputPlace::InPlace));
    assert_eq!(output_place(false, true, false, 1), Ok(OutputPlace::TargetFile));
    assert_eq!(output_place(false, true, false, 0), Ok(OutputPlace::TargetFile));
    assert_eq!(output_place(false, true, true, 2), Err(OutputError::FileForManyInputs));
    assert_eq!(output_place(false, false, true, 9), Ok(OutputPlace::TargetDir));
    assert_eq!(output_place(false, false, false, 9), Ok(OutputPlace::BesideInput));
}

#[test]
fn output_names() {
    assert_eq!(output_filename("photo", "", "webp"), "photo.webp");
    assert_eq!(output_filename("photo", "-small", "jpg"), "photo-small.jpg");
    assert_eq!(output_filename("", "", ""), ".");
}

#[test]
fn writable_checks() {
    // A dry run writes nothing, so anything goes.
    assert_eq!(check_writable(true, false, false, true, true), Ok(()));
    assert_eq!(check_writable(false, false, true, true, true), Err(OutputError::WouldOverwriteInput));
    assert_eq!(check_writable(false, true, true, true, true), Ok(()));
    assert_eq!(check_writable(false, false, false, false, true), Err(OutputError::AlreadyExists));
    assert_eq!(check_writable(false, false, true, false, true), Ok(()));
    assert_eq!(check_writable(false, false, false, false, false), Ok(()));
    assert_eq!(check_writable(false, true, false, false, true), Ok(()));
}

#[test]
fn skipping_larger_outputs() {
    assert!(skip_as_larger(true, 100, 100));
    assert!(skip_as_larger(true, 100, 101));
    assert!(!skip_as_larger(true, 100, 99));
    assert!(!skip_as_larger(false, 100, 500));
}

#[test]
fn names_in_the_report() {
    assert_eq!(shorten_name("photo.jpg"), "photo.jpg");
    let exact: String = "a".repeat(38);
    assert_eq!(shorten_name(&exact), exact);
    let long: String = format!("{}{}", "x".repeat(10), "0123456789".repeat(3));
    assert_eq!(long.len(), 40);
    let short = shorten_name(&long);
    assert_eq!(short.len(), 38);
    assert_eq!(short, format!("..{}", &long[4..]));
    let wide: String = "\u{00e9}".repeat(39);
    assert_eq!(shorten_name(&wide).chars().count(), 38);
    assert_eq!(shorten_name(""), "");
}
