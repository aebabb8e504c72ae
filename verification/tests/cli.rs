use img_shrink::cli::{
    build_fixed_opts, build_high_opts, build_medium_opts, build_webp_opts, check_webp_quality,
    fixed_quality_spec, input_format_for_path, is_supported_output_format, normalize_format,
    output_file_name, output_target, parse_command_line, parse_dssim_preset, parse_dssim_presets,
    parse_quality_value, prepare_run, quality_idx_for_target, quality_list_for_format,
    substituted_quality,
    webp_run_mode, webp_sweep_size, Args, CliError, CommandLine, DssimPreset, DssimPresets,
    FixedQualitySpec, Parsed, WebpDssimArgs, WebpRun,
};
use img_shrink::util::{file_extension, file_stem, split_name};
use img_shrink::{HIGH_QUALITY_THRESHOLD_BITS, MEDIUM_QUALITY_THRESHOLD_BITS};

fn strings(v: &[&str]) -> Vec<String> {
    v.iter().map(|s| s.to_string()).collect()
}

fn main_args(v: &[&str]) -> Result<Parsed<Args>, CliError> {
    Args::parse_from(&strings(v), 0)
}

fn msg(r: Result<Parsed<Args>, CliError>) -> String {
    match r {
        Err(e) => e.message(),
        Ok(_) => "ok".to_string(),
    }
}

#[test]
fn main_arguments() {
    let r = main_args(&["--input", "in", "--output", "out"]);
    let a = match r {
        Ok(Parsed::Run(a)) => a,
        _ => panic!("expected arguments"),
    };
    assert_eq!(a.input_dir, "in");
    assert_eq!(a.output_dir, "out");
    assert_eq!(a.output_format, "jxl");
    assert_eq!(a.size, None);
    assert!(!a.crop && !a.recursive);
    assert_eq!(a.dssim_presets, DssimPresets { high: true, medium: true });

    let r = main_args(&[
        "--output-format", "WEBP", "--size", "800x800", "--crop", "--recursive", "--input", "a",
        "--input", "b", "--output", "o", "--dssim-presets", "medium",
    ]);
    let a = match r {
        Ok(Parsed::Run(a)) => a,
        _ => panic!("expected arguments"),
    };
    assert_eq!(a.input_dir, "b");
    assert_eq!(a.output_format, "WEBP");
    assert_eq!(a.size.as_deref(), Some("800x800"));
    assert!(a.crop && a.recursive);
    assert_eq!(a.dssim_presets, DssimPresets { high: false, medium: true });
}

#[test]
fn main_argument_errors() {
    assert_eq!(msg(main_args(&["--output", "o"])), "missing required --input <DIR>");
    assert_eq!(msg(main_args(&["--input", "i"])), "missing required --output <DIR>");
    assert_eq!(msg(main_args(&["--input"])), "missing value for --input");
    assert_eq!(msg(main_args(&["--bogus", "--input"])), "unknown argument: --bogus");
    assert_eq!(msg(main_args(&["--dssim-presets", "low"])), "unknown dssim preset: low");
    assert!(matches!(main_args(&["--input", "i", "--help", "--bogus"]), Ok(Parsed::Help)));
    assert!(matches!(main_args(&["-h"]), Ok(Parsed::Help)));
}

#[test]
fn webp_dssim_arguments() {
    let parse = |v: &[&str]| WebpDssimArgs::parse_from(&strings(v), 0);
    let a = match parse(&["--input", "i", "--output", "o", "--quality", "80", "--size", "10x10"]) {
        Ok(Parsed::Run(a)) => a,
        _ => panic!("expected arguments"),
    };
    assert_eq!(a.quality, Some(80));
    assert_eq!(a.preset, None);
    assert_eq!(a.size.as_deref(), Some("10x10"));
    let a = match parse(&["--preset", "high", "--input", "i", "--output", "o", "--crop"]) {
        Ok(Parsed::Run(a)) => a,
        _ => panic!("expected arguments"),
    };
    assert_eq!(a.preset, Some(DssimPreset::High));
    assert!(a.crop);
    let m = |v: &[&str]| match parse(v) {
        Err(e) => e.message(),
        Ok(_) => "ok".to_string(),
    };
    assert_eq!(m(&["--input", "i", "--output", "o"]), "missing required --quality <0-100> or --preset <high|medium>");
    assert_eq!(m(&["--input", "i", "--output", "o", "--quality", "5", "--preset", "medium"]), "use only one of --quality or --preset");
    assert_eq!(m(&["--quality", "101"]), "quality must be between 0 and 100");
    assert_eq!(m(&["--quality", "abc"]), "invalid quality value: abc");
    assert_eq!(m(&["--preset", "High"]), "unknown preset: High");
    assert_eq!(m(&["--dssim-presets", "high"]), "unknown argument: --dssim-presets");
}

#[test]
fn webp_dssim_last_directory_flag_wins() {
    let parse = |v: &[&str]| WebpDssimArgs::parse_from(&strings(v), 0);
    let a = match parse(&[
        "--input", "a", "--output", "o1", "--input", "b", "--preset", "medium", "--output", "o2",
    ]) {
        Ok(Parsed::Run(a)) => a,
        _ => panic!("expected arguments"),
    };
    assert_eq!(a.input_dir, "b");
    assert_eq!(a.output_dir, "o2");
    assert_eq!(a.quality, None);
    assert_eq!(a.preset, Some(DssimPreset::Medium));
    // A flag's value is never read as a flag, even when it looks like one.
    let a = match parse(&["--input", "--output", "--output", "--input", "--quality", "100"]) {
        Ok(Parsed::Run(a)) => a,
        _ => panic!("expected arguments"),
    };
    assert_eq!(a.input_dir, "--output");
    assert_eq!(a.output_dir, "--input");
    assert_eq!(a.quality, Some(100));
    // The last quality is the one kept, and it is checked.
    assert!(matches!(
        parse(&["--input", "i", "--output", "o", "--quality", "7", "--quality", "200"]),
        Err(CliError::QualityOutOfRange)
    ));
}

#[test]
fn command_line_dispatch() {
    assert!(matches!(parse_command_line(&Vec::new()), CommandLine::Usage));
    match parse_command_line(&strings(&["webp-dssim", "--input", "i", "--output", "o", "--quality", "1"])) {
        CommandLine::WebpDssim(Ok(Parsed::Run(a))) => assert_eq!(a.quality, Some(1)),
        _ => panic!("expected webp-dssim"),
    }
    match parse_command_line(&strings(&["--input", "i", "--output", "o"])) {
        CommandLine::Main(Ok(Parsed::Run(a))) => assert_eq!(a.input_dir, "i"),
        _ => panic!("expected main command"),
    }
    assert!(matches!(parse_command_line(&strings(&["webp"])), CommandLine::Main(Err(CliError::UnknownArgument(_)))));
}

#[test]
fn dssim_preset_lists() {
    let p = |s: &str| parse_dssim_presets(s).map_err(|e| e.message());
    assert_eq!(p("both"), Ok(DssimPresets { high: true, medium: true }));
    assert_eq!(p("ALL"), Ok(DssimPresets { high: true, medium: true }));
    assert_eq!(p("high"), Ok(DssimPresets { high: true, medium: false }));
    assert_eq!(p(" Medium , ,"), Ok(DssimPresets { high: false, medium: true }));
    assert_eq!(p("high,medium"), Ok(DssimPresets { high: true, medium: true }));
    assert_eq!(p(",,"), Err("no dssim presets selected".to_string()));
    assert_eq!(p(""), Err("no dssim presets selected".to_string()));
    assert_eq!(p("high, Low "), Err("unknown dssim preset: low".to_string()));
    assert!(matches!(parse_dssim_preset("medium"), Ok(DssimPreset::Medium)));
    assert!(matches!(parse_quality_value("100"), Ok(100)));
    assert!(matches!(parse_quality_value("+0"), Ok(0)));
    assert!(matches!(parse_quality_value("101"), Err(CliError::QualityOutOfRange)));
}

#[test]
fn formats_and_quality_indices() {
    assert_eq!(normalize_format("JpEg"), "jpeg");
    assert!(is_supported_output_format("heif"));
    assert!(!is_supported_output_format("png"));
    assert!(!is_supported_output_format("JXL"));
    assert_eq!(quality_list_for_format("webp"), None);
    assert_eq!(quality_list_for_format("jpeg"), Some(vec![65, 70, 75, 80, 85, 90, 95]));
    let list = vec![65u8, 70, 75, 80, 85, 90, 95];
    assert_eq!(quality_idx_for_target(85, &list), 4);
    assert_eq!(quality_idx_for_target(0, &list), 0);
    assert_eq!(quality_idx_for_target(255, &list), 6);
    // 72 is as close to 70 as to 75: the higher level wins.
    assert_eq!(quality_idx_for_target(72, &vec![70, 74, 75]), 1);
    assert_eq!(quality_idx_for_target(72, &vec![70, 74]), 1);
    assert_eq!(quality_idx_for_target(72, &vec![74, 70]), 0);
    assert_eq!(quality_idx_for_target(72, &vec![70, 70, 74, 74]), 2);
    assert_eq!(quality_idx_for_target(5, &vec![9, 5, 5]), 1);
    assert!(matches!(fixed_quality_spec("webp", 85), Ok(FixedQualitySpec::Value(85))));
    assert_eq!(substituted_quality("jxl", 85, FixedQualitySpec::Index(4)), None);
    assert_eq!(substituted_quality("jxl", 86, FixedQualitySpec::Index(4)), Some(85));
    assert_eq!(substituted_quality("webp", 86, FixedQualitySpec::Value(86)), None);
    assert!(matches!(fixed_quality_spec("jxl", 75), Ok(FixedQualitySpec::Index(2))));
    assert!(matches!(fixed_quality_spec("heic", 85), Ok(FixedQualitySpec::Index(4))));
    assert_eq!(fixed_quality_spec("png", 85).err().map(|e| e.message()), Some("unsupported output format: png".to_string()));
}

#[test]
fn input_files_by_extension() {
    assert_eq!(input_format_for_path("/a/b/photo.JPG").as_deref(), Some("jpg"));
    assert_eq!(input_format_for_path("x.heif").as_deref(), Some("heif"));
    assert_eq!(input_format_for_path("x.tar.png").as_deref(), Some("png"));
    assert_eq!(input_format_for_path("x.gif"), None);
    assert_eq!(input_format_for_path("README"), None);
    assert_eq!(input_format_for_path(".png"), None);
    assert_eq!(output_file_name("photo", "jxl"), "photo.jxl");
}

#[test]
fn file_stems_and_extensions() {
    assert_eq!(split_name("photo.tar.gz"), ("photo.tar".to_string(), Some("gz".to_string())));
    assert_eq!(split_name(".hidden"), (".hidden".to_string(), None));
    assert_eq!(split_name("trailing."), ("trailing".to_string(), Some("".to_string())));
    assert_eq!(split_name(".."), ("..".to_string(), None));
    assert_eq!(split_name("plain"), ("plain".to_string(), None));
    assert_eq!(file_stem("/a/b/photo.JPG").as_deref(), Some("photo"));
    assert_eq!(file_extension("/a/b/photo.JPG").as_deref(), Some("JPG"));
    assert_eq!(file_stem("/a/b/.png").as_deref(), Some(".png"));
    assert_eq!(file_extension("/a/b/.png"), None);
    assert_eq!(file_stem("/"), None);
    assert_eq!(file_stem("a/.."), None);
    // The same answers as std's own.
    for p in ["/a/b/photo.JPG", "x.tar.png", ".png", "README", "a/b.", "/", "a/..", "dir/"] {
        let path = std::path::Path::new(p);
        assert_eq!(file_stem(p).as_deref(), path.file_stem().and_then(|s| s.to_str()));
        assert_eq!(file_extension(p).as_deref(), path.extension().and_then(|s| s.to_str()));
    }
}

#[test]
fn output_targets() {
    let t = output_target("in", "in/sub/photo.png", "out", "jxl").ok().unwrap();
    assert_eq!(t.dir, "out/sub");
    assert_eq!(t.file, "out/sub/photo.jxl");
    let t = output_target("in", "in/photo.jpeg", "out", "webp").ok().unwrap();
    assert_eq!(t.dir, "out/");
    assert_eq!(t.file, "out/photo.webp");
    // A path outside the root keeps its own directories.
    let t = output_target("in", "elsewhere/x.png", "/o", "jpg").ok().unwrap();
    assert_eq!(t.dir, "/o/elsewhere");
    assert_eq!(t.file, "/o/elsewhere/x.jpg");
    let t = output_target("in", "in/a/b.JPG", "out", "webp").ok().unwrap();
    assert_eq!(t.file, "out/a/b.webp");
    let t = output_target("in", "in/a/b.png", "out/", "jxl").ok().unwrap();
    assert_eq!(t.dir, "out/a");
    assert_eq!(t.file, "out/a/b.jxl");
    // An absolute directory outside the root replaces the output directory.
    let t = output_target("in", "/abs/x.png", "out", "jxl").ok().unwrap();
    assert_eq!(t.dir, "/abs");
    assert_eq!(t.file, "/abs/x.jxl");
    let e = output_target("in", "/", "out", "jxl").err().unwrap();
    assert_eq!(e.message(), "invalid filename: /");
}

#[test]
fn run_plans_and_options() {
    let a = match main_args(&["--input", "i", "--output", "o", "--output-format", "JPEG", "--size", "5x5"]) {
        Ok(Parsed::Run(a)) => a,
        _ => panic!("expected arguments"),
    };
    let p = prepare_run(&a).ok().unwrap();
    assert_eq!(p.output_format, "jpeg");
    assert!(matches!(p.quality_high, FixedQualitySpec::Index(4)));
    assert!(matches!(p.quality_medium, FixedQualitySpec::Index(2)));
    assert!(p.run_high && p.run_medium);
    let o = build_fixed_opts(&a, p.quality_high);
    assert_eq!(o.size, "5x5");
    assert_eq!((o.threshold, o.quality_idx, o.quality_value), (None, Some(4), None));
    let o = build_high_opts(&a);
    assert_eq!(o.threshold, Some(HIGH_QUALITY_THRESHOLD_BITS));
    let o = build_medium_opts(&a);
    assert_eq!(o.threshold, Some(MEDIUM_QUALITY_THRESHOLD_BITS));

    let bad = match main_args(&["--input", "i", "--output", "o", "--output-format", "png"]) {
        Ok(Parsed::Run(a)) => a,
        _ => panic!("expected arguments"),
    };
    assert_eq!(prepare_run(&bad).err().map(|e| e.message()), Some("unsupported output format: png".to_string()));
}

#[test]
fn webp_runs() {
    let w = WebpDssimArgs {
        input_dir: "i".to_string(),
        output_dir: "o".to_string(),
        quality: None,
        preset: Some(DssimPreset::Medium),
        size: None,
        crop: false,
        recursive: false,
    };
    assert!(matches!(webp_run_mode(&w), Ok(WebpRun::Adaptive(t)) if t == MEDIUM_QUALITY_THRESHOLD_BITS));
    assert_eq!(webp_sweep_size(&w), ">");
    assert_eq!(build_webp_opts(&w).threshold, Some(MEDIUM_QUALITY_THRESHOLD_BITS));
    assert!(check_webp_quality(&w).is_ok());
    let w = WebpDssimArgs { quality: Some(120), preset: None, size: Some("3x3".to_string()), ..w };
    assert!(matches!(check_webp_quality(&w), Err(CliError::QualityOutOfRange)));
    assert!(matches!(webp_run_mode(&w), Ok(WebpRun::Fixed(120))));
    assert_eq!(webp_sweep_size(&w), "3x3");
    let o = build_webp_opts(&w);
    assert_eq!((o.threshold, o.quality_value), (None, Some(120)));
    let w = WebpDssimArgs { quality: None, preset: None, ..w };
    assert!(matches!(webp_run_mode(&w), Err(CliError::MissingQualityOrPreset)));
}
