use img_shrink::command::{Arg, Invocation, OnFailure};
use img_shrink::format::{parse_input_format, parse_output_format, Backend, ImageFormat};
use img_shrink::util::TempStore;

fn args_text(inv: &Invocation) -> Vec<String> {
    inv.args
        .iter()
        .map(|a| match a {
            Arg::Text(t) => t.clone(),
            Arg::Path(k) => format!("<{k}>"),
        })
        .collect()
}

#[test]
fn input_format_names_ignore_case() {
    assert_eq!(parse_input_format("jpg"), Some(ImageFormat::Jpg));
    assert_eq!(parse_input_format("JPEG"), Some(ImageFormat::Jpg));
    assert_eq!(parse_input_format("Jxl"), Some(ImageFormat::Jxl));
    assert_eq!(parse_input_format("PNG"), Some(ImageFormat::Png));
    assert_eq!(parse_input_format("webp"), Some(ImageFormat::Webp));
    assert_eq!(parse_input_format("HEIF"), Some(ImageFormat::Heic));
    assert_eq!(parse_input_format("heic"), Some(ImageFormat::Heic));
    assert_eq!(parse_input_format("gif"), None);
    assert_eq!(parse_input_format(""), None);
    assert_eq!(parse_input_format(" jpg"), None);
}

#[test]
fn png_is_not_an_output_format() {
    assert_eq!(parse_output_format("png"), None);
    assert_eq!(parse_output_format("WEBP"), Some(ImageFormat::Webp));
    assert_eq!(parse_output_format("jpeg"), Some(ImageFormat::Jpg));
    assert_eq!(parse_output_format("tiff"), None);
}

#[test]
fn format_extensions() {
    assert_eq!(ImageFormat::Jxl.extension(), "jxl");
    assert_eq!(ImageFormat::Jpg.extension(), "jpg");
    assert_eq!(ImageFormat::Heic.extension(), "heic");
}

#[test]
fn jxl_encoder_uses_quality_list() {
    let inv = img_shrink::jxl::encode(0);
    assert_eq!(inv.program, "/usr/bin/cjxl");
    assert_eq!(args_text(&inv), vec!["-q", "65", "<0>", "<1>"]);
    assert_eq!(inv.on_failure, OnFailure::Abort);
    assert_eq!(inv.name, "jxl::encode()");
    let inv = img_shrink::jxl::encode(6);
    assert_eq!(args_text(&inv), vec!["-q", "95", "<0>", "<1>"]);
    let inv = img_shrink::jxl::encode_quality(7);
    assert_eq!(args_text(&inv), vec!["-q", "7", "<0>", "<1>"]);
}

#[test]
fn jpg_and_heic_encoders() {
    let inv = img_shrink::jpg::encode(4);
    assert_eq!(inv.program, "/usr/bin/cjpg");
    assert_eq!(args_text(&inv), vec!["-q", "85", "<0>", "<1>"]);
    let inv = img_shrink::heic::encode_quality(100);
    assert_eq!(inv.program, "/usr/bin/heif-enc");
    assert_eq!(args_text(&inv), vec!["-q", "100", "<0>", "<1>"]);
    assert_eq!(inv.name, "heic::encode_quality()");
}

#[test]
fn webp_encoder_sharp_yuv() {
    let inv = img_shrink::webp::encode(5, true);
    assert_eq!(inv.program, "/usr/bin/cwebp");
    assert_eq!(args_text(&inv), vec!["-q", "99", "-sharp_yuv", "<0>", "-o", "<1>"]);
    let inv = img_shrink::webp::encode(6, false);
    assert_eq!(args_text(&inv), vec!["-q", "100", "<0>", "-o", "<1>"]);
    let inv = img_shrink::webp::encode_quality(42, true);
    assert_eq!(args_text(&inv), vec!["-q", "42", "-sharp_yuv", "<0>", "-o", "<1>"]);
}

#[test]
fn quality_lists() {
    assert_eq!(img_shrink::jxl::quality_list(), vec![65, 70, 75, 80, 85, 90, 95]);
    assert_eq!(img_shrink::jpg::quality_list(), vec![65, 70, 75, 80, 85, 90, 95]);
    assert_eq!(img_shrink::webp::quality_list(), vec![75, 80, 85, 90, 95, 99, 100]);
    assert_eq!(img_shrink::heic::quality_list(), vec![65, 70, 75, 80, 85, 90, 95]);
}

#[test]
fn to_png_per_format() {
    let c = img_shrink::to_png("JXL", Backend::Vips);
    assert_eq!(c.input_ext, "jxl");
    assert_eq!(c.store, TempStore::Mktemp);
    // The copy of the input stays in place.
    assert!(!c.remove_input);
    assert_eq!(c.decode.len(), 1);
    assert_eq!(c.decode[0].program, "/usr/bin/djxl");
    assert_eq!(c.decode[0].on_failure, OnFailure::Report);

    let c = img_shrink::to_png("jpeg", Backend::Vips);
    assert_eq!(c.input_ext, "jpg");
    assert!(c.remove_input);
    assert_eq!(c.decode[0].program, "/usr/bin/vips");
    assert_eq!(args_text(&c.decode[0]), vec!["autorot", "<0>", "<1>"]);

    let c = img_shrink::to_png("jpg", Backend::Magick);
    assert_eq!(c.decode[0].program, "/usr/bin/convert");
    assert_eq!(args_text(&c.decode[0]), vec!["<0>", "-auto-orient", "<1>"]);

    let c = img_shrink::to_png("png", Backend::Vips);
    assert_eq!(c.input_ext, "png");
    assert!(c.decode.is_empty());

    let c = img_shrink::to_png("webp", Backend::Magick);
    assert_eq!(c.decode[0].program, "/usr/bin/dwebp");
    assert_eq!(args_text(&c.decode[0]), vec!["<0>", "-o", "<1>"]);

    let c = img_shrink::to_png("heif", Backend::Magick);
    assert_eq!(c.store, TempStore::Scoped);
    assert_eq!(c.decode.len(), 2);
    assert_eq!(c.decode[0].program, "/usr/bin/heif-convert");
    assert_eq!(args_text(&c.decode[1]), vec!["<1>", "-auto-orient", "<1>"]);
    assert_eq!(c.decode[1].on_failure, OnFailure::Ignore);

    // Formats that cannot be read are refused before `to_png` is called.
    assert!(img_shrink::format::parse_input_format("bmp").is_none());
    assert!(img_shrink::format::parse_input_format("gif").is_none());
}
