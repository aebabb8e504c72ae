use img_shrink::command::Arg;
use img_shrink::format::Backend;
use img_shrink::text::{chars_of, i64_decimal, parse_i32_chars, parse_u8_chars, u8_decimal};
use img_shrink::Corner;
use img_shrink::png::parse_size;
use img_shrink::png::image_size;
use img_shrink::png::{after_probe, resize, ResizeStep};
use img_shrink::diff::{has_score, score_token};
use img_shrink::png::watermark_offset;
use img_shrink::util::{is_img_shrink_temp, mktemp, mktemp_path, temp_suffix};

fn args_text(args: &[Arg]) -> Vec<String> {
    args.iter()
        .map(|a| match a {
            Arg::Text(t) => t.clone(),
            Arg::Path(k) => format!("<{k}>"),
        })
        .collect()
}

#[test]
fn u8_from_str_cases() {
    let p = |s: &str| parse_u8_chars(&chars_of(s));
    assert_eq!(p("85"), Some(85));
    assert_eq!(p("+7"), Some(7));
    assert_eq!(p("007"), Some(7));
    assert_eq!(p("255"), Some(255));
    assert_eq!(p("256"), None);
    assert_eq!(p("-0"), None);
    assert_eq!(p("+"), None);
    assert_eq!(p(""), None);
    assert_eq!(p(" 5"), None);
    assert_eq!(p("99999999999999999999"), None);
    for q in 0..=255u8 {
        assert_eq!(p(&q.to_string()), Some(q));
        assert_eq!(u8_decimal(q), q.to_string());
    }
}

#[test]
fn i32_from_str_cases() {
    let p = |s: &str| parse_i32_chars(&chars_of(s));
    assert_eq!(p("800"), Some(800));
    assert_eq!(p("-5"), Some(-5));
    assert_eq!(p("+5"), Some(5));
    assert_eq!(p("2147483647"), Some(i32::MAX));
    assert_eq!(p("2147483648"), None);
    assert_eq!(p("-2147483648"), Some(i32::MIN));
    assert_eq!(p("-2147483649"), None);
    assert_eq!(p("-"), None);
    assert_eq!(p("-+5"), None);
    assert_eq!(p("1e3"), None);
}

#[test]
fn i64_to_string_cases() {
    for n in [0i64, 7, -7, 10, 1234567, -1234567, i64::MAX, i64::MIN] {
        assert_eq!(i64_decimal(n), n.to_string());
    }
}

#[test]
fn size_parsing() {
    assert_eq!(parse_size("800x600"), Some((800, 600)));
    assert_eq!(parse_size(" 800x600> "), Some((800, 600)));
    assert_eq!(parse_size("800x600>>"), Some((800, 600)));
    assert_eq!(parse_size("800x600x3"), Some((800, 600)));
    assert_eq!(parse_size("800"), None);
    assert_eq!(parse_size(">"), None);
    assert_eq!(parse_size("800x"), None);
    assert_eq!(parse_size("ax600"), None);
    assert_eq!(parse_size("-1x-2"), Some((-1, -2)));
}

#[test]
fn vipsheader_output_parsing() {
    let out = "a.png: 640x480 uchar, 3 bands, srgb, pngload\nwidth: 640\nheight: 480\nbands: 3\n";
    assert_eq!(image_size(out), Some((640, 480)));
    assert_eq!(image_size("height: 10\r\nwidth:  20 \r\n"), Some((20, 10)));
    assert_eq!(image_size("width: 20\n"), None);
    assert_eq!(image_size("width: x\nheight: 3\n"), None);
    // A later unreadable width line clears the width read before.
    assert_eq!(image_size("width: 5\nwidth: ?\nheight: 3\n"), None);
    // Scanning stops as soon as both are known.
    assert_eq!(image_size("width: 5\nheight: 3\nwidth: 9\n"), Some((5, 3)));
    assert_eq!(image_size(""), None);
}

#[test]
fn resize_plans() {
    let p = resize("800x600", false, Backend::Vips);
    assert_eq!(p.first, ResizeStep::Probe(800, 600));
    assert_eq!(p.command.program, "/usr/bin/vipsthumbnail");
    assert_eq!(args_text(&p.command.args), vec!["<0>", "--size", "800x600", "-o", "<1>"]);
    assert_eq!(p.command.name, "png::resize(vips)");
    // The default size asks for no resize: the input is kept.
    let p = resize(">", true, Backend::Vips);
    assert_eq!(p.first, ResizeStep::KeepInput);
    assert_eq!(resize(">", false, Backend::Magick).first, ResizeStep::KeepInput);
    assert_eq!(resize("800x", false, Backend::Vips).first, ResizeStep::Thumbnail);
    assert_eq!(args_text(&p.command.args), vec!["<0>", "--size", ">", "-o", "<1>", "--crop"]);
    let p = resize("100x50", false, Backend::Magick);
    assert_eq!(p.first, ResizeStep::Thumbnail);
    assert_eq!(p.command.program, "/usr/bin/convert");
    assert_eq!(args_text(&p.command.args), vec!["-resize", "100x50>", "<0>", "<1>"]);
    let p = resize("100x50", true, Backend::Magick);
    assert_eq!(
        args_text(&p.command.args),
        vec!["-resize", "100x50>", "-gravity", "Center", "-extent", "100x50+0+0", "<0>", "<1>"]
    );
    assert_eq!(after_probe((800, 600), Some((800, 600))), ResizeStep::KeepInput);
    assert_eq!(after_probe((800, 600), Some((10, 10))), ResizeStep::KeepInput);
    assert_eq!(after_probe((800, 600), Some((801, 10))), ResizeStep::Thumbnail);
    assert_eq!(after_probe((800, 600), Some((10, 601))), ResizeStep::Thumbnail);
    assert_eq!(after_probe((800, 600), None), ResizeStep::Thumbnail);
}

#[test]
fn header_and_distance_commands() {
    let h = img_shrink::png::header_command();
    assert_eq!(h.program, "/usr/bin/vipsheader");
    assert_eq!(args_text(&h.args), vec!["-a", "<0>"]);
    let d = img_shrink::diff::distance_command();
    assert_eq!(d.program, "dssim");
    assert_eq!(args_text(&d.args), vec!["<0>", "<1>"]);
}

#[test]
fn dssim_score_token() {
    assert!(has_score("0.00123\tb.png\n"));
    assert_eq!(score_token("0.00123\tb.png\n"), "0.00123");
    assert!(has_score("  \n 0.5 x"));
    assert_eq!(score_token("  \n 0.5 x"), "0.5");
    assert!(!has_score("   "));
    assert!(!has_score(""));
}

#[test]
fn watermark_geometry() {
    assert_eq!(watermark_offset(Corner::SouthEast, (1000, 800), (300, 100), 20), (680, 680));
    assert_eq!(watermark_offset(Corner::SouthWest, (1000, 800), (300, 100), 20), (20, 680));
    assert_eq!(watermark_offset(Corner::NorthEast, (1000, 800), (300, 100), 20), (680, 20));
    assert_eq!(watermark_offset(Corner::NorthWest, (1000, 800), (300, 100), 20), (20, 20));
    assert_eq!(watermark_offset(Corner::SouthEast, (10, 10), (30, 30), 2), (-22, -22));
    let s = img_shrink::png::watermark_scale(300);
    assert_eq!(args_text(&s.args), vec!["<0>", "--size", "300x", "-o", "<1>"]);
    let c = img_shrink::png::watermark_composite(-3, 40);
    assert_eq!(c.program, "/usr/bin/vips");
    assert_eq!(
        args_text(&c.args),
        vec!["composite2", "<0>", "<1>", "<2>", "over", "--x", "-3", "--y", "40"]
    );
}

#[test]
fn temp_files() {
    let m = mktemp("png");
    assert_eq!(m.program, "/usr/bin/mktemp");
    assert_eq!(args_text(&m.args), vec!["/tmp/img-shrink_XXXXXXXXXXXX.png"]);
    assert_eq!(m.name, "`mktemp`");
    assert_eq!(mktemp_path("/tmp/img-shrink_abc.png\n"), "/tmp/img-shrink_abc.png");
    assert_eq!(temp_suffix("heic"), ".heic");
    assert!(is_img_shrink_temp("/tmp/img-shrink_abc.png"));
    assert!(is_img_shrink_temp("/tmp/img-shrink_"));
    assert!(!is_img_shrink_temp("/tmp/not-img-shrink_abc.png"));
    assert!(!is_img_shrink_temp("/var/tmp/img-shrink_abc.png"));
    assert!(!is_img_shrink_temp("/tmp/sub/img-shrink_abc.png"));
    assert!(!is_img_shrink_temp("img-shrink_abc.png"));
    assert!(!is_img_shrink_temp("/tmp"));
}
