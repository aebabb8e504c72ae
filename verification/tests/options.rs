use img_shrink::encode::{
    base_is_input, candidate_decoder, encoder, plan_encode, quality_encoder, quality_mode,
    refused_quality_idx_of, steps_after_resize, sweep_step, PipelineStep, QualityMode, SweepStep,
};
use img_shrink::format::{Backend, ImageFormat};
use img_shrink::{
    Corner, EncodeOptions, EncodeOptionsBuilder, Watermark, DEFAULT_DSSIM_THRESHOLD_BITS,
    DEFAULT_WATERMARK_MARGIN_FRAC_BITS, DEFAULT_WATERMARK_WIDTH_FRAC_BITS,
    HIGH_QUALITY_THRESHOLD_BITS, LOW_QUALITY_THRESHOLD_BITS, MAX_QUALITY_IDX,
    MEDIUM_QUALITY_THRESHOLD_BITS,
};

#[test]
fn threshold_bits_are_the_presets() {
    assert_eq!(f32::from_bits(LOW_QUALITY_THRESHOLD_BITS), 0.008f32);
    assert_eq!(f32::from_bits(MEDIUM_QUALITY_THRESHOLD_BITS), 0.004f32);
    assert_eq!(f32::from_bits(HIGH_QUALITY_THRESHOLD_BITS), 0.002f32);
    assert_eq!(DEFAULT_DSSIM_THRESHOLD_BITS, MEDIUM_QUALITY_THRESHOLD_BITS);
    // Higher quality means a stricter (smaller) distance.
    assert!(f32::from_bits(HIGH_QUALITY_THRESHOLD_BITS) < f32::from_bits(MEDIUM_QUALITY_THRESHOLD_BITS));
    assert!(f32::from_bits(MEDIUM_QUALITY_THRESHOLD_BITS) < f32::from_bits(LOW_QUALITY_THRESHOLD_BITS));
    assert_eq!(f64::from_bits(DEFAULT_WATERMARK_WIDTH_FRAC_BITS), 0.30f64);
    assert_eq!(f64::from_bits(DEFAULT_WATERMARK_MARGIN_FRAC_BITS), 0.02f64);
}

#[test]
fn default_options() {
    let o = EncodeOptions::default();
    assert_eq!(o.size, ">");
    assert!(!o.crop);
    assert_eq!(o.threshold, Some(DEFAULT_DSSIM_THRESHOLD_BITS));
    assert_eq!(o.quality_idx, None);
    assert_eq!(o.quality_value, None);
    assert!(o.sharp_yuv);
    assert!(o.watermark.is_none());
    let b = EncodeOptionsBuilder::new().build();
    assert_eq!(b.size, ">");
    assert_eq!(b.threshold, Some(DEFAULT_DSSIM_THRESHOLD_BITS));
    assert!(matches!(quality_mode(&b), QualityMode::Adaptive(t) if t == DEFAULT_DSSIM_THRESHOLD_BITS));
}

#[test]
fn builder_presets_and_fixed_quality() {
    let o = EncodeOptionsBuilder::new().size("800x800").crop(true).low().build();
    assert_eq!(o.size, "800x800");
    assert!(o.crop);
    assert_eq!(o.threshold, Some(LOW_QUALITY_THRESHOLD_BITS));
    let o = EncodeOptionsBuilder::new().high().build();
    assert_eq!(o.threshold, Some(HIGH_QUALITY_THRESHOLD_BITS));
    let o = EncodeOptionsBuilder::new().medium().build();
    assert_eq!(o.threshold, Some(MEDIUM_QUALITY_THRESHOLD_BITS));
    let o = EncodeOptionsBuilder::new().max().build();
    assert_eq!(o.threshold, None);
    assert!(matches!(quality_mode(&o), QualityMode::FixedIndex(6)));

    let o = EncodeOptionsBuilder::new().quality_idx(3).build();
    assert_eq!((o.threshold, o.quality_idx, o.quality_value), (None, Some(3), None));
    assert!(matches!(quality_mode(&o), QualityMode::FixedIndex(3)));
    let o = EncodeOptionsBuilder::new().quality_idx(3).quality_value(77).build();
    assert_eq!((o.threshold, o.quality_idx, o.quality_value), (None, None, Some(77)));
    assert!(matches!(quality_mode(&o), QualityMode::FixedValue(77)));
    let o = EncodeOptionsBuilder::new().quality_value(77).quality_idx(2).build();
    assert_eq!((o.threshold, o.quality_idx, o.quality_value), (None, Some(2), None));
    // A preset after a fixed quality makes the encode adaptive again.
    let o = EncodeOptionsBuilder::new().quality_value(77).high().build();
    assert!(matches!(quality_mode(&o), QualityMode::Adaptive(t) if t == HIGH_QUALITY_THRESHOLD_BITS));
    let o = EncodeOptionsBuilder::new().threshold(0.01f32.to_bits()).sharp_yuv(false).build();
    assert_eq!(o.threshold, Some(0.01f32.to_bits()));
    assert!(!o.sharp_yuv);
    let o = EncodeOptionsBuilder::new().quality_idx(7).build();
    assert_eq!(refused_quality_idx_of(&o), Some(7));
    let o = EncodeOptionsBuilder::new().quality_idx(6).build();
    assert_eq!(refused_quality_idx_of(&o), None);
    // A threshold or a raw value means the index is never used.
    let o = EncodeOptionsBuilder::new().quality_idx(9).quality_value(40).build();
    assert_eq!(refused_quality_idx_of(&o), None);
    assert_eq!(refused_quality_idx_of(&EncodeOptions::default()), None);
}

#[test]
fn watermark_builder() {
    let wm = Watermark::new("logo.png");
    assert_eq!(wm.path, "logo.png");
    assert_eq!(wm.width_frac, DEFAULT_WATERMARK_WIDTH_FRAC_BITS);
    assert_eq!(wm.margin_frac, DEFAULT_WATERMARK_MARGIN_FRAC_BITS);
    assert_eq!(wm.corner, Corner::SouthEast);
    assert_eq!(Corner::default(), Corner::SouthEast);
    let wm = wm.width_frac(0.25f64.to_bits()).margin_frac(0.03f64.to_bits()).corner(Corner::NorthWest);
    assert_eq!(f64::from_bits(wm.width_frac), 0.25);
    assert_eq!(f64::from_bits(wm.margin_frac), 0.03);
    assert_eq!(wm.corner, Corner::NorthWest);
    let o = EncodeOptionsBuilder::new().size("800x800").watermark(wm).build();
    assert_eq!(o.watermark.as_ref().map(|w| w.corner), Some(Corner::NorthWest));
}

#[test]
fn encode_plans() {
    let o = EncodeOptions::default();
    let p = plan_encode(&o, "JXL");
    assert_eq!(p.format, ImageFormat::Jxl);
    assert_eq!(p.mode, QualityMode::Adaptive(DEFAULT_DSSIM_THRESHOLD_BITS));
    // HEIC takes the adaptive sweep like the other output formats.
    let p = plan_encode(&o, "heic");
    assert_eq!(p.format, ImageFormat::Heic);
    assert_eq!(p.mode, QualityMode::Adaptive(DEFAULT_DSSIM_THRESHOLD_BITS));
    let fixed = EncodeOptionsBuilder::new().size("10x20").quality_value(50).build();
    let p = plan_encode(&fixed, "heif");
    assert_eq!(p.format, ImageFormat::Heic);
    assert_eq!(p.mode, QualityMode::FixedValue(50));
    let idx = EncodeOptionsBuilder::new().quality_idx(2).build();
    let p = plan_encode(&idx, "jpeg");
    assert_eq!(p.format, ImageFormat::Jpg);
    assert_eq!(p.mode, QualityMode::FixedIndex(2));
    let max = EncodeOptionsBuilder::new().max().build();
    assert_eq!(plan_encode(&max, "webp").mode, QualityMode::FixedIndex(MAX_QUALITY_IDX));
    // PNG is read, never written; a caller tests this before planning.
    assert!(img_shrink::format::parse_output_format("png").is_none());
    assert!(img_shrink::format::parse_output_format("gif").is_none());
}

#[test]
fn encoders_by_format() {
    assert_eq!(encoder(ImageFormat::Jpg, 0, true).program, "/usr/bin/cjpg");
    assert_eq!(encoder(ImageFormat::Webp, MAX_QUALITY_IDX, true).program, "/usr/bin/cwebp");
    assert_eq!(quality_encoder(ImageFormat::Heic, 30, true).name, "heic::encode_quality()");
    assert_eq!(candidate_decoder(ImageFormat::Jxl, Backend::Vips)[0].program, "/usr/bin/djxl");
    assert_eq!(candidate_decoder(ImageFormat::Webp, Backend::Vips)[0].program, "/usr/bin/vips");
    assert_eq!(candidate_decoder(ImageFormat::Webp, Backend::Magick)[0].program, "/usr/bin/dwebp");
    assert_eq!(candidate_decoder(ImageFormat::Heic, Backend::Vips)[0].program, "/usr/bin/vips");
    let heic = candidate_decoder(ImageFormat::Heic, Backend::Magick);
    assert_eq!(heic.len(), 2);
    assert_eq!(heic[0].program, "/usr/bin/heif-convert");
    assert!(base_is_input(true, false));
    assert!(!base_is_input(true, true));
    assert!(!base_is_input(false, false));
}

fn run_sweep(accepted: [bool; 7]) -> (usize, usize) {
    let mut idx = 0;
    let mut encodes = 0;
    loop {
        encodes += 1;
        match sweep_step(idx, accepted[idx]) {
            SweepStep::Accept(i) | SweepStep::Settle(i) => return (i, encodes),
            SweepStep::Next(j) => idx = j,
        }
    }
}

#[test]
fn sweep_takes_first_passing_level() {
    assert_eq!(run_sweep([false, false, true, false, true, true, true]), (2, 3));
    assert_eq!(run_sweep([true; 7]), (0, 1));
    assert_eq!(run_sweep([false; 7]), (6, 7));
    assert_eq!(run_sweep([false, false, false, false, false, false, true]), (6, 7));
}

#[test]
fn pipeline_steps() {
    assert_eq!(steps_after_resize(true, false), vec![PipelineStep::Encode]);
    assert_eq!(steps_after_resize(false, false), vec![PipelineStep::Encode, PipelineStep::RemoveBase]);
    assert_eq!(steps_after_resize(true, true), vec![PipelineStep::Watermark, PipelineStep::Encode, PipelineStep::RemoveBase]);
    assert_eq!(steps_after_resize(false, true), vec![PipelineStep::Watermark, PipelineStep::RemoveResized, PipelineStep::Encode, PipelineStep::RemoveBase]);
    // Each intermediate file is removed once; the caller's file never.
    for kept in [false, true] {
        for wm in [false, true] {
            let s = steps_after_resize(kept, wm);
            let removals = s.iter().filter(|x| matches!(x, PipelineStep::RemoveResized | PipelineStep::RemoveBase)).count();
            assert_eq!(removals, (!kept) as usize + wm as usize);
            assert_eq!(s.iter().filter(|x| **x == PipelineStep::Encode).count(), 1);
        }
    }
}
