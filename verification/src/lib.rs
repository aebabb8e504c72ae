//! Image recompression with external encoders.
//!
//! The library decides; the caller runs programs and moves files.  Every
//! step that touches the file system or starts a program is handed out as
//! plain data (`command::Invocation`, `util::PngConversion`,
//! `png::ResizePlan`, `EncodePlan`), and every decision that depends on what
//! such a step produced is a function of that result (`png::image_size`,
//! `png::after_probe`, `sweep_step`, ...).
use vstd::prelude::*;

pub mod text;
pub mod command;
pub mod format;
pub mod util;
pub mod jxl;
pub mod jpg;
pub mod webp;
pub mod heic;
pub mod png;
pub mod diff;
pub mod encode;
pub mod cli;

pub use encode::to_png;

verus! {

/// The highest quality index: every quality list has seven levels.
pub const MAX_QUALITY_IDX: usize = 6;

/// The dSSIM threshold of the strongest compression (0.008), as the bit
/// pattern of an `f32` (`f32::to_bits`).
pub const LOW_QUALITY_THRESHOLD_BITS: u32 = 0x3c03126f;

/// The balanced default dSSIM threshold (0.004), as the bit pattern of an
/// `f32`.
pub const MEDIUM_QUALITY_THRESHOLD_BITS: u32 = 0x3b83126f;

/// The near-lossless dSSIM threshold (0.002), as the bit pattern of an
/// `f32`.
pub const HIGH_QUALITY_THRESHOLD_BITS: u32 = 0x3b03126f;

/// The default dSSIM threshold, as the bit pattern of an `f32`.
pub const DEFAULT_DSSIM_THRESHOLD_BITS: u32 = 0x3b83126f;

/// Default watermark width as a fraction of the base image width (0.30),
/// as the bit pattern of an `f64` (`f64::to_bits`).
pub const DEFAULT_WATERMARK_WIDTH_FRAC_BITS: u64 = 0x3fd3333333333333;

/// Default watermark margin from the edges as a fraction of the base image
/// width (0.02), as the bit pattern of an `f64`.
pub const DEFAULT_WATERMARK_MARGIN_FRAC_BITS: u64 = 0x3f947ae147ae147b;

/// Corner of the base image where the watermark is placed.
#[derive(Clone, Copy, PartialEq, Eq, Structural, Debug)]
pub enum Corner {
    SouthEast,
    SouthWest,
    NorthEast,
    NorthWest,
}

impl Default for Corner {
    fn default() -> (r: Self)
        ensures
            r == Corner::SouthEast,
    {
        Corner::SouthEast
    }
}

/// Watermark overlay: a PNG with alpha, scaled relative to the base image
/// and composited into the chosen corner after resize.  The fractions are
/// the bit patterns of `f64` values (`f64::to_bits`).
pub struct Watermark {
    pub path: String,
    /// Watermark width as a fraction of the base image width.
    pub width_frac: u64,
    /// Margin from the edges as a fraction of the base image width.
    pub margin_frac: u64,
    pub corner: Corner,
}

pub struct WatermarkView {
    pub path: Seq<char>,
    pub width_frac: u64,
    pub margin_frac: u64,
    pub corner: Corner,
}

impl View for Watermark {
    type V = WatermarkView;

    open spec fn view(&self) -> WatermarkView {
        WatermarkView {
            path: self.path@,
            width_frac: self.width_frac,
            margin_frac: self.margin_frac,
            corner: self.corner,
        }
    }
}

impl Watermark {
    /// A watermark from the image at `path`, with the default width,
    /// margin and corner.
    pub fn new(path: &str) -> (r: Self)
        ensures
            r@ == (WatermarkView {
                path: path@,
                width_frac: DEFAULT_WATERMARK_WIDTH_FRAC_BITS,
                margin_frac: DEFAULT_WATERMARK_MARGIN_FRAC_BITS,
                corner: Corner::SouthEast,
            }),
    {
        Watermark {
            path: path.to_owned(),
            width_frac: DEFAULT_WATERMARK_WIDTH_FRAC_BITS,
            margin_frac: DEFAULT_WATERMARK_MARGIN_FRAC_BITS,
            corner: Corner::default(),
        }
    }

    pub fn width_frac(self, width_frac: u64) -> (r: Self)
        ensures
            r@ == (WatermarkView { width_frac, ..self@ }),
    {
        Watermark { width_frac, ..self }
    }

    pub fn margin_frac(self, margin_frac: u64) -> (r: Self)
        ensures
            r@ == (WatermarkView { margin_frac, ..self@ }),
    {
        Watermark { margin_frac, ..self }
    }

    pub fn corner(self, corner: Corner) -> (r: Self)
        ensures
            r@ == (WatermarkView { corner, ..self@ }),
    {
        Watermark { corner, ..self }
    }
}

/// How an image is encoded: the resize box (`size`, libvips or ImageMagick
/// geometry), whether to crop to it, the adaptive dSSIM threshold (`None`
/// for a fixed quality; the bit pattern of an `f32` otherwise), the fixed
/// quality as an index into the format's quality list or as a raw value,
/// WebP's sharp YUV conversion, and an optional watermark.
pub struct EncodeOptions {
    pub size: String,
    pub crop: bool,
    pub threshold: Option<u32>,
    pub quality_idx: Option<usize>,
    pub quality_value: Option<u8>,
    pub sharp_yuv: bool,
    pub watermark: Option<Watermark>,
}

pub struct EncodeOptionsView {
    pub size: Seq<char>,
    pub crop: bool,
    pub threshold: Option<u32>,
    pub quality_idx: Option<usize>,
    pub quality_value: Option<u8>,
    pub sharp_yuv: bool,
    pub watermark: Option<WatermarkView>,
}

impl View for EncodeOptions {
    type V = EncodeOptionsView;

    open spec fn view(&self) -> EncodeOptionsView {
        EncodeOptionsView {
            size: self.size@,
            crop: self.crop,
            threshold: self.threshold,
            quality_idx: self.quality_idx,
            quality_value: self.quality_value,
            sharp_yuv: self.sharp_yuv,
            watermark: match self.watermark {
                Some(w) => Some(w@),
                None => None,
            },
        }
    }
}

/// The default options: no resize (`>`), no crop, adaptive quality at the
/// default threshold, sharp YUV on, no watermark.
pub open spec fn default_options() -> EncodeOptionsView {
    EncodeOptionsView {
        size: ">"@,
        crop: false,
        threshold: Some(DEFAULT_DSSIM_THRESHOLD_BITS),
        quality_idx: None,
        quality_value: None,
        sharp_yuv: true,
        watermark: None,
    }
}

impl Default for EncodeOptions {
    fn default() -> (r: Self)
        ensures
            r@ == default_options(),
    {
        EncodeOptions {
            size: ">".to_owned(),
            crop: false,
            threshold: Some(DEFAULT_DSSIM_THRESHOLD_BITS),
            quality_idx: None,
            quality_value: None,
            sharp_yuv: true,
            watermark: None,
        }
    }
}

pub open spec fn with_size(o: EncodeOptionsView, size: Seq<char>) -> EncodeOptionsView {
    EncodeOptionsView { size, ..o }
}

pub open spec fn with_crop(o: EncodeOptionsView, crop: bool) -> EncodeOptionsView {
    EncodeOptionsView { crop, ..o }
}

/// A preset or explicit threshold: adaptive quality (or, with `None`, the
/// fixed quality chosen so far).
pub open spec fn with_threshold(o: EncodeOptionsView, threshold: Option<u32>) -> EncodeOptionsView {
    EncodeOptionsView { threshold, ..o }
}

/// Fixed quality by index: the threshold and any raw quality are dropped.
pub open spec fn with_quality_idx(o: EncodeOptionsView, idx: usize) -> EncodeOptionsView {
    EncodeOptionsView { threshold: None, quality_idx: Some(idx), quality_value: None, ..o }
}

/// Fixed quality by value: the threshold and any quality index are dropped.
pub open spec fn with_quality_value(o: EncodeOptionsView, q: u8) -> EncodeOptionsView {
    EncodeOptionsView { threshold: None, quality_idx: None, quality_value: Some(q), ..o }
}

pub open spec fn with_sharp_yuv(o: EncodeOptionsView, sharp_yuv: bool) -> EncodeOptionsView {
    EncodeOptionsView { sharp_yuv, ..o }
}

pub open spec fn with_watermark(o: EncodeOptionsView, w: WatermarkView) -> EncodeOptionsView {
    EncodeOptionsView { watermark: Some(w), ..o }
}

/// Builds `EncodeOptions` step by step, starting from the defaults.
pub struct EncodeOptionsBuilder {
    opts: EncodeOptions,
}

/// A fixed quality is given either by index or by value, never both.
pub open spec fn quality_exclusive(o: EncodeOptionsView) -> bool {
    !(o.quality_idx is Some && o.quality_value is Some)
}

/// Every builder step keeps a fixed quality given one way only: the
/// defaults have none, `quality_idx` drops any value and `quality_value`
/// any index (so the later of the two is the one that holds), and the other
/// steps leave both alone.
pub proof fn builder_keeps_quality_exclusive(
    o: EncodeOptionsView,
    size: Seq<char>,
    b: bool,
    t: Option<u32>,
    idx: usize,
    q: u8,
    w: WatermarkView,
)
    requires
        quality_exclusive(o),
    ensures
        quality_exclusive(default_options()),
        quality_exclusive(with_size(o, size)),
        quality_exclusive(with_crop(o, b)),
        quality_exclusive(with_threshold(o, t)),
        quality_exclusive(with_sharp_yuv(o, b)),
        quality_exclusive(with_watermark(o, w)),
        with_quality_idx(o, idx).quality_idx == Some(idx),
        with_quality_idx(o, idx).quality_value is None,
        with_quality_value(o, q).quality_value == Some(q),
        with_quality_value(o, q).quality_idx is None,
{
}

/// A builder call, by what it does to the options (the presets `low`,
/// `medium`, `high` and `max` set a threshold).
pub enum BuilderCall {
    Size(Seq<char>),
    Crop(bool),
    Threshold(Option<u32>),
    QualityIdx(usize),
    QualityValue(u8),
    SharpYuv(bool),
    Watermark(WatermarkView),
}

/// The options after one builder call.
pub open spec fn apply_call(o: EncodeOptionsView, c: BuilderCall) -> EncodeOptionsView {
    match c {
        BuilderCall::Size(s) => with_size(o, s),
        BuilderCall::Crop(b) => with_crop(o, b),
        BuilderCall::Threshold(t) => with_threshold(o, t),
        BuilderCall::QualityIdx(i) => with_quality_idx(o, i),
        BuilderCall::QualityValue(q) => with_quality_value(o, q),
        BuilderCall::SharpYuv(b) => with_sharp_yuv(o, b),
        BuilderCall::Watermark(w) => with_watermark(o, w),
    }
}

/// The options after `calls`, made in order on `o`.
pub open spec fn apply_calls(o: EncodeOptionsView, calls: Seq<BuilderCall>) -> EncodeOptionsView
    decreases calls.len(),
{
    if calls.len() == 0 {
        o
    } else {
        apply_call(apply_calls(o, calls.drop_last()), calls.last())
    }
}

/// The last of `calls` that fixes a quality, by index or by value.
pub open spec fn last_fixed_quality(calls: Seq<BuilderCall>) -> Option<BuilderCall>
    decreases calls.len(),
{
    if calls.len() == 0 {
        None
    } else {
        match calls.last() {
            BuilderCall::QualityIdx(_) => Some(calls.last()),
            BuilderCall::QualityValue(_) => Some(calls.last()),
            _ => last_fixed_quality(calls.drop_last()),
        }
    }
}

/// Whatever calls a builder gets, its options never fix the quality both
/// by index and by value: the later of the two calls is the one that holds,
/// and without either call neither is set.
pub proof fn builder_calls_keep_the_later_fixed_quality(calls: Seq<BuilderCall>)
    ensures
        quality_exclusive(apply_calls(default_options(), calls)),
        apply_calls(default_options(), calls).quality_idx == match last_fixed_quality(calls) {
            Some(BuilderCall::QualityIdx(i)) => Some(i),
            _ => None,
        },
        apply_calls(default_options(), calls).quality_value == match last_fixed_quality(calls) {
            Some(BuilderCall::QualityValue(q)) => Some(q),
            _ => None,
        },
    decreases calls.len(),
{
    if calls.len() > 0 {
        builder_calls_keep_the_later_fixed_quality(calls.drop_last());
    }
}

impl EncodeOptionsBuilder {
    #[verifier::type_invariant]
    spec fn fixed_quality_one_way(self) -> bool {
        quality_exclusive(self.opts@)
    }
}

impl View for EncodeOptionsBuilder {
    type V = EncodeOptionsView;

    closed spec fn view(&self) -> EncodeOptionsView {
        self.opts@
    }
}

impl EncodeOptionsBuilder {
    pub fn new() -> (r: Self)
        ensures
            r@ == default_options(),
    {
        EncodeOptionsBuilder { opts: EncodeOptions::default() }
    }

    pub fn size(self, size: &str) -> (r: Self)
        ensures
            r@ == with_size(self@, size@),
    {
        proof {
            use_type_invariant(&self);
        }
        let mut opts = self.opts;
        opts.size = size.to_owned();
        EncodeOptionsBuilder { opts }
    }

    pub fn crop(self, crop: bool) -> (r: Self)
        ensures
            r@ == with_crop(self@, crop),
    {
        proof {
            use_type_invariant(&self);
        }
        let mut opts = self.opts;
        opts.crop = crop;
        EncodeOptionsBuilder { opts }
    }

    /// Strongest compression: adaptive at the low-quality threshold.
    pub fn low(self) -> (r: Self)
        ensures
            r@ == with_threshold(self@, Some(LOW_QUALITY_THRESHOLD_BITS)),
    {
        proof {
            use_type_invariant(&self);
        }
        let mut opts = self.opts;
        opts.threshold = Some(LOW_QUALITY_THRESHOLD_BITS);
        EncodeOptionsBuilder { opts }
    }

    /// Balanced: adaptive at the medium threshold.
    pub fn medium(self) -> (r: Self)
        ensures
            r@ == with_threshold(self@, Some(MEDIUM_QUALITY_THRESHOLD_BITS)),
    {
        proof {
            use_type_invariant(&self);
        }
        let mut opts = self.opts;
        opts.threshold = Some(MEDIUM_QUALITY_THRESHOLD_BITS);
        EncodeOptionsBuilder { opts }
    }

    /// Near-lossless: adaptive at the high-quality threshold.
    pub fn high(self) -> (r: Self)
        ensures
            r@ == with_threshold(self@, Some(HIGH_QUALITY_THRESHOLD_BITS)),
    {
        proof {
            use_type_invariant(&self);
        }
        let mut opts = self.opts;
        opts.threshold = Some(HIGH_QUALITY_THRESHOLD_BITS);
        EncodeOptionsBuilder { opts }
    }

    /// No threshold: a single encode at the fixed quality chosen so far, or
    /// at the highest quality.
    pub fn max(self) -> (r: Self)
        ensures
            r@ == with_threshold(self@, None),
    {
        proof {
            use_type_invariant(&self);
        }
        let mut opts = self.opts;
        opts.threshold = None;
        EncodeOptionsBuilder { opts }
    }

    /// Fixed-quality mode by index into the format's quality list; disables
    /// adaptive thresholding.
    pub fn quality_idx(self, quality_idx: usize) -> (r: Self)
        ensures
            r@ == with_quality_idx(self@, quality_idx),
    {
        proof {
            use_type_invariant(&self);
        }
        let mut opts = self.opts;
        opts.threshold = None;
        opts.quality_idx = Some(quality_idx);
        opts.quality_value = None;
        EncodeOptionsBuilder { opts }
    }

    /// Fixed-quality mode by the encoder's own quality value; disables
    /// adaptive thresholding.
    pub fn quality_value(self, quality: u8) -> (r: Self)
        ensures
            r@ == with_quality_value(self@, quality),
    {
        proof {
            use_type_invariant(&self);
        }
        let mut opts = self.opts;
        opts.threshold = None;
        opts.quality_idx = None;
        opts.quality_value = Some(quality);
        EncodeOptionsBuilder { opts }
    }

    /// Adaptive quality at the threshold whose `f32` bit pattern is
    /// `threshold`.
    pub fn threshold(self, threshold: u32) -> (r: Self)
        ensures
            r@ == with_threshold(self@, Some(threshold)),
    {
        proof {
            use_type_invariant(&self);
        }
        let mut opts = self.opts;
        opts.threshold = Some(threshold);
        EncodeOptionsBuilder { opts }
    }

    pub fn sharp_yuv(self, sharp_yuv: bool) -> (r: Self)
        ensures
            r@ == with_sharp_yuv(self@, sharp_yuv),
    {
        proof {
            use_type_invariant(&self);
        }
        let mut opts = self.opts;
        opts.sharp_yuv = sharp_yuv;
        EncodeOptionsBuilder { opts }
    }

    pub fn watermark(self, watermark: Watermark) -> (r: Self)
        ensures
            r@ == with_watermark(self@, watermark@),
    {
        proof {
            use_type_invariant(&self);
        }
        let mut opts = self.opts;
        opts.watermark = Some(watermark);
        EncodeOptionsBuilder { opts }
    }

    pub fn build(self) -> (r: EncodeOptions)
        ensures
            r@ == self@,
            quality_exclusive(r@),
    {
        proof {
            use_type_invariant(&self);
        }
        self.opts
    }
}

} // verus!
