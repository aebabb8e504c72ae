//! The decisions of an encode: which quality mode the options ask for,
//! which programs encode and decode each format, how a PNG is obtained from
//! input bytes, and the adaptive sweep over the quality levels.
use vstd::prelude::*;
use crate::command::{Invocation, InvocationView, invocations_view};
use crate::format::{Backend, ImageFormat, input_format_of, output_format_of, parse_input_format, parse_output_format};
use crate::util::{PngConversion, PngConversionView};
use crate::{EncodeOptions, EncodeOptionsView, MAX_QUALITY_IDX, DEFAULT_DSSIM_THRESHOLD_BITS, default_options, with_quality_idx, with_quality_value, with_threshold};
use crate::command::ArgView;

verus! {

/// How many encodes an encode makes, and at which quality.
#[derive(Clone, Copy, PartialEq, Eq, Structural, Debug)]
pub enum QualityMode {
    /// One encode at the encoder's own quality value.
    FixedValue(u8),
    /// One encode at this index of the format's quality list.
    FixedIndex(usize),
    /// Encodes from the lowest quality level up, until the dSSIM distance
    /// to the base image is at most the threshold (an `f32` bit pattern).
    Adaptive(u32),
}

/// The fixed quality index that an encode of `o` cannot use: one beyond
/// `MAX_QUALITY_IDX`, where neither a threshold nor a raw quality value is
/// set.  (The caller stops there: such an encode is refused.)
pub open spec fn refused_quality_idx(o: EncodeOptionsView) -> Option<usize> {
    match (o.threshold, o.quality_value, o.quality_idx) {
        (None, None, Some(i)) => if i > MAX_QUALITY_IDX {
            Some(i)
        } else {
            None
        },
        _ => None,
    }
}

/// The fixed quality index that an encode of `opts` cannot use, if any.
pub fn refused_quality_idx_of(opts: &EncodeOptions) -> (r: Option<usize>)
    ensures
        r == refused_quality_idx(opts@),
{
    match (opts.threshold, opts.quality_value, opts.quality_idx) {
        (None, None, Some(i)) => if i > MAX_QUALITY_IDX {
            Some(i)
        } else {
            None
        },
        _ => None,
    }
}

/// The quality mode of a set of options: a threshold makes the encode
/// adaptive; otherwise a raw quality value wins over an index; with
/// neither, the highest quality index is used.
pub open spec fn quality_mode_spec(o: EncodeOptionsView) -> QualityMode {
    match o.threshold {
        Some(t) => QualityMode::Adaptive(t),
        None => match o.quality_value {
            Some(q) => QualityMode::FixedValue(q),
            None => match o.quality_idx {
                Some(i) => QualityMode::FixedIndex(i),
                None => QualityMode::FixedIndex(MAX_QUALITY_IDX),
            },
        },
    }
}

/// The quality mode of `opts`, whose quality index (if used) is in range.
pub fn quality_mode(opts: &EncodeOptions) -> (r: QualityMode)
    requires
        refused_quality_idx(opts@) is None,
    ensures
        r == quality_mode_spec(opts@),
        r matches QualityMode::FixedIndex(i) ==> i <= MAX_QUALITY_IDX,
{
    match opts.threshold {
        Some(t) => QualityMode::Adaptive(t),
        None => match opts.quality_value {
            Some(q) => QualityMode::FixedValue(q),
            None => match opts.quality_idx {
                Some(i) => QualityMode::FixedIndex(i),
                None => QualityMode::FixedIndex(MAX_QUALITY_IDX),
            },
        },
    }
}

/// The encodes of a PNG, after its resize (`png::resize` with the
/// options' size and crop) and its watermark (if the options carry one):
/// those of `mode`, in `format`.
pub struct EncodePlan {
    pub format: ImageFormat,
    pub mode: QualityMode,
}

/// The plan of an encode of a PNG with `opts` to `output_format`: the
/// output format it names and the options' quality mode.  The caller first
/// refuses an unknown output format and an out-of-range quality index.
pub fn plan_encode(opts: &EncodeOptions, output_format: &str) -> (r: EncodePlan)
    requires
        refused_quality_idx(opts@) is None,
        output_format_of(output_format@) is Some,
    ensures
        output_format_of(output_format@) == Some(r.format),
        r.format != ImageFormat::Png,
        r.mode == quality_mode_spec(opts@),
        r.mode matches QualityMode::FixedIndex(i) ==> i <= MAX_QUALITY_IDX,
{
    let mode = quality_mode(opts);
    let format = parse_output_format(output_format).unwrap();
    EncodePlan { format, mode }
}

/// The quality levels of an output format, from lowest to highest.
pub open spec fn quality_levels_of(f: ImageFormat) -> Seq<u8> {
    match f {
        ImageFormat::Jxl => crate::jxl::quality_levels(),
        ImageFormat::Jpg => crate::jpg::quality_levels(),
        ImageFormat::Webp => crate::webp::quality_levels(),
        _ => crate::heic::quality_levels(),
    }
}

/// The encoder of an output format at quality level `idx`.
pub open spec fn encoder_spec(f: ImageFormat, idx: int, sharp_yuv: bool) -> InvocationView {
    match f {
        ImageFormat::Jxl => crate::jxl::encode_spec(crate::jxl::quality_levels()[idx], "jxl::encode()"@),
        ImageFormat::Jpg => crate::jpg::encode_spec(crate::jpg::quality_levels()[idx], "jpg::encode()"@),
        ImageFormat::Webp => crate::webp::encode_spec(
            crate::webp::quality_levels()[idx],
            sharp_yuv,
            "webp::encode()"@,
        ),
        _ => crate::heic::encode_spec(crate::heic::quality_levels()[idx], "heic::encode()"@),
    }
}

/// The encoder of an output format at the raw quality `q`.
pub open spec fn quality_encoder_spec(f: ImageFormat, q: u8, sharp_yuv: bool) -> InvocationView {
    match f {
        ImageFormat::Jxl => crate::jxl::encode_spec(q, "jxl::encode_quality()"@),
        ImageFormat::Jpg => crate::jpg::encode_spec(q, "jpg::encode_quality()"@),
        ImageFormat::Webp => crate::webp::encode_spec(q, sharp_yuv, "webp::encode_quality()"@),
        _ => crate::heic::encode_spec(q, "heic::encode_quality()"@),
    }
}

/// The encoder at quality level `idx` is the format's encoder at that
/// level's quality: the same program, arguments and failure handling as a
/// raw-quality encode at `quality_levels_of(f)[idx]`.  With the levels
/// increasing, a sweep over rising levels encodes at rising quality.
pub proof fn level_encoders_use_their_level(f: ImageFormat, idx: int, jdx: int, sharp_yuv: bool)
    requires
        f != ImageFormat::Png,
        0 <= idx <= MAX_QUALITY_IDX,
        0 <= jdx <= MAX_QUALITY_IDX,
    ensures
        encoder_spec(f, idx, sharp_yuv).program == quality_encoder_spec(
            f,
            quality_levels_of(f)[idx],
            sharp_yuv,
        ).program,
        encoder_spec(f, idx, sharp_yuv).args == quality_encoder_spec(
            f,
            quality_levels_of(f)[idx],
            sharp_yuv,
        ).args,
        encoder_spec(f, idx, sharp_yuv).on_failure == quality_encoder_spec(
            f,
            quality_levels_of(f)[idx],
            sharp_yuv,
        ).on_failure,
        quality_levels_of(f).len() == MAX_QUALITY_IDX + 1,
        idx < jdx ==> quality_levels_of(f)[idx] < quality_levels_of(f)[jdx],
{
    quality_levels_increase(f);
}

/// The command that encodes the PNG in slot 0 to a file of format `f` in
/// slot 1, at quality level `quality_idx` (WebP with sharp YUV where
/// `sharp_yuv` holds).
pub fn encoder(f: ImageFormat, quality_idx: usize, sharp_yuv: bool) -> (r: Invocation)
    requires
        f != ImageFormat::Png,
        quality_idx <= MAX_QUALITY_IDX,
    ensures
        r@ == encoder_spec(f, quality_idx as int, sharp_yuv),
{
    match f {
        ImageFormat::Jxl => crate::jxl::encode(quality_idx),
        ImageFormat::Jpg => crate::jpg::encode(quality_idx),
        ImageFormat::Webp => crate::webp::encode(quality_idx, sharp_yuv),
        _ => crate::heic::encode(quality_idx),
    }
}

/// The command that encodes the PNG in slot 0 to a file of format `f` in
/// slot 1, at the raw quality `quality`.
pub fn quality_encoder(f: ImageFormat, quality: u8, sharp_yuv: bool) -> (r: Invocation)
    requires
        f != ImageFormat::Png,
    ensures
        r@ == quality_encoder_spec(f, quality, sharp_yuv),
{
    match f {
        ImageFormat::Jxl => crate::jxl::encode_quality(quality),
        ImageFormat::Jpg => crate::jpg::encode_quality(quality),
        ImageFormat::Webp => crate::webp::encode_quality(quality, sharp_yuv),
        _ => crate::heic::encode_quality(quality),
    }
}

/// The commands that decode a candidate of output format `f` (slot 0) back
/// to a PNG (slot 1) for measuring: every output format has them.
pub open spec fn candidate_decoder_spec(f: ImageFormat, backend: Backend) -> Seq<InvocationView> {
    match f {
        ImageFormat::Jxl => seq![crate::jxl::decode_spec()],
        ImageFormat::Jpg => seq![crate::util::file_to_png_spec(backend)],
        ImageFormat::Heic => crate::heic::file_to_png_steps(backend),
        _ => crate::webp::file_to_png_steps(backend),
    }
}

/// The commands that decode a candidate of format `f` back to a PNG.
pub fn candidate_decoder(f: ImageFormat, backend: Backend) -> (r: Vec<Invocation>)
    requires
        f != ImageFormat::Png,
    ensures
        invocations_view(r@) == candidate_decoder_spec(f, backend),
{
    match f {
        ImageFormat::Jxl => crate::jxl::file_to_png(),
        ImageFormat::Jpg => crate::jpg::file_to_png(backend),
        ImageFormat::Heic => crate::heic::file_to_png(backend),
        _ => crate::webp::file_to_png(backend),
    }
}

/// Whether the image that the encodes start from is the caller's own file:
/// it is when the resize kept its input and no watermark was stamped on it.
/// Only an image that is not the caller's file is removed afterwards.
pub fn base_is_input(resize_kept_input: bool, watermarked: bool) -> (r: bool)
    ensures
        r == (resize_kept_input && !watermarked),
{
    resize_kept_input && !watermarked
}

/// A step of an encode from a PNG, once its resize (the first step) has
/// run.
#[derive(Clone, Copy, PartialEq, Eq, Structural, Debug)]
pub enum PipelineStep {
    /// Stamp the watermark on the current image, into a fresh PNG.
    Watermark,
    /// Remove the resized image, now that the watermarked one replaces it.
    RemoveResized,
    /// Run the encodes of the plan on the current image (the base).
    Encode,
    /// Remove the base image, which the encodes no longer need.
    RemoveBase,
}

/// The steps after the resize: the watermark (if any) is stamped on the
/// resized image, which then goes unless it is the caller's file; the
/// encodes run on the result; the base goes unless it is the caller's file.
pub open spec fn steps_after_resize_spec(resize_kept_input: bool, watermarked: bool) -> Seq<PipelineStep> {
    if watermarked {
        if resize_kept_input {
            seq![PipelineStep::Watermark, PipelineStep::Encode, PipelineStep::RemoveBase]
        } else {
            seq![
                PipelineStep::Watermark,
                PipelineStep::RemoveResized,
                PipelineStep::Encode,
                PipelineStep::RemoveBase,
            ]
        }
    } else if resize_kept_input {
        seq![PipelineStep::Encode]
    } else {
        seq![PipelineStep::Encode, PipelineStep::RemoveBase]
    }
}

/// The steps of an encode after its resize, given whether the resize kept
/// the input and whether the options carry a watermark.
pub fn steps_after_resize(resize_kept_input: bool, watermarked: bool) -> (r: Vec<PipelineStep>)
    ensures
        r@ == steps_after_resize_spec(resize_kept_input, watermarked),
{
    let mut r: Vec<PipelineStep> = Vec::new();
    if watermarked {
        r.push(PipelineStep::Watermark);
        if !resize_kept_input {
            r.push(PipelineStep::RemoveResized);
        }
    }
    r.push(PipelineStep::Encode);
    if !base_is_input(resize_kept_input, watermarked) {
        r.push(PipelineStep::RemoveBase);
    }
    proof {
        assert(r@ =~= steps_after_resize_spec(resize_kept_input, watermarked));
    }
    r
}

/// How many of `steps` are `step`.
pub open spec fn count_of(steps: Seq<PipelineStep>, step: PipelineStep) -> int
    decreases steps.len(),
{
    if steps.len() == 0 {
        0
    } else {
        count_of(steps.drop_last(), step) + if steps.last() == step {
            1int
        } else {
            0int
        }
    }
}

/// An encode leaves no file of its own behind and never removes the
/// caller's: it encodes exactly once, last but for the base's removal and
/// after the watermark; it removes as many files as the resize and the
/// watermark made; and it removes the base exactly when the base is not
/// the caller's file.
pub proof fn encode_cleans_up_after_itself(resize_kept_input: bool, watermarked: bool)
    ensures
        ({
            let s = steps_after_resize_spec(resize_kept_input, watermarked);
            &&& count_of(s, PipelineStep::Encode) == 1
            &&& count_of(s, PipelineStep::Watermark) == if watermarked { 1int } else { 0int }
            &&& count_of(s, PipelineStep::RemoveResized) + count_of(s, PipelineStep::RemoveBase)
                == (if resize_kept_input { 0int } else { 1int }) + (if watermarked {
                1int
            } else {
                0int
            })
            &&& count_of(s, PipelineStep::RemoveBase) == if resize_kept_input && !watermarked {
                0int
            } else {
                1int
            }
            &&& watermarked ==> s[0] == PipelineStep::Watermark
            &&& s.last() == PipelineStep::Encode || (s.last() == PipelineStep::RemoveBase && s[s.len()
                - 2] == PipelineStep::Encode)
        }),
{
    reveal_with_fuel(count_of, 5);
}

/// A fixed quality value disables adaptive thresholding, whatever was set
/// before: the encode is a single one at that value.
pub proof fn quality_value_fixes_quality(o: EncodeOptionsView, q: u8)
    ensures
        refused_quality_idx(with_quality_value(o, q)) is None,
        quality_mode_spec(with_quality_value(o, q)) == QualityMode::FixedValue(q),
{
}

/// A fixed quality index disables adaptive thresholding, whatever was set
/// before: the encode is a single one at that index, or is refused when the
/// index is beyond the quality lists.
pub proof fn quality_idx_fixes_quality(o: EncodeOptionsView, idx: usize)
    ensures
        quality_mode_spec(with_quality_idx(o, idx)) == QualityMode::FixedIndex(idx),
        refused_quality_idx(with_quality_idx(o, idx)) == if idx > MAX_QUALITY_IDX {
            Some(idx)
        } else {
            None
        },
{
}

/// A threshold (set directly or by a preset) makes the encode adaptive,
/// whatever fixed quality was set before.
pub proof fn threshold_makes_adaptive(o: EncodeOptionsView, t: u32)
    ensures
        refused_quality_idx(with_threshold(o, Some(t))) is None,
        quality_mode_spec(with_threshold(o, Some(t))) == QualityMode::Adaptive(t),
{
}

/// The default options encode adaptively at the default threshold; without
/// a threshold they encode once at the highest quality level.
pub proof fn default_quality_modes()
    ensures
        refused_quality_idx(default_options()) is None,
        quality_mode_spec(default_options()) == QualityMode::Adaptive(DEFAULT_DSSIM_THRESHOLD_BITS),
        refused_quality_idx(with_threshold(default_options(), None)) is None,
        quality_mode_spec(with_threshold(default_options(), None)) == QualityMode::FixedIndex(
            MAX_QUALITY_IDX,
        ),
{
}

/// WebP encodes with the default options pass `-sharp_yuv` to `cwebp`.
pub proof fn default_webp_encodes_are_sharp(idx: int)
    requires
        0 <= idx <= MAX_QUALITY_IDX,
    ensures
        encoder_spec(ImageFormat::Webp, idx, default_options().sharp_yuv).args.contains(
            ArgView::Text("-sharp_yuv"@),
        ),
{
    let a = encoder_spec(ImageFormat::Webp, idx, default_options().sharp_yuv).args;
    assert(a[2] == ArgView::Text("-sharp_yuv"@));
}

// ---------------------------------------------------------------------
// The adaptive sweep
// ---------------------------------------------------------------------

/// What the sweep does after measuring the candidate at one quality level.
#[derive(Clone, Copy, PartialEq, Eq, Structural, Debug)]
pub enum SweepStep {
    /// The candidate at this index is close enough: it is the result.
    Accept(usize),
    /// Encode and measure the candidate at this next index.
    Next(usize),
    /// No level was close enough; the candidate at this (highest) index is
    /// the result.
    Settle(usize),
}

/// The sweep's decision at `idx`, given whether its candidate's distance
/// was within the threshold.
pub open spec fn sweep_step_spec(idx: usize, accepted: bool) -> SweepStep {
    if accepted {
        SweepStep::Accept(idx)
    } else if idx < MAX_QUALITY_IDX {
        SweepStep::Next((idx + 1) as usize)
    } else {
        SweepStep::Settle(idx)
    }
}

/// The sweep's decision at `idx`, given whether its candidate's distance
/// was within the threshold.
pub fn sweep_step(idx: usize, accepted: bool) -> (r: SweepStep)
    requires
        idx <= MAX_QUALITY_IDX,
    ensures
        r == sweep_step_spec(idx, accepted),
{
    if accepted {
        SweepStep::Accept(idx)
    } else if idx < MAX_QUALITY_IDX {
        SweepStep::Next(idx + 1)
    } else {
        SweepStep::Settle(idx)
    }
}

/// The index that the sweep ends with, starting at `idx`, when the
/// candidate at each index `k` is within the threshold exactly when
/// `accepted[k]` holds.
pub open spec fn sweep_result(accepted: Seq<bool>, idx: usize) -> usize
    decreases MAX_QUALITY_IDX - idx,
{
    if idx >= MAX_QUALITY_IDX {
        idx
    } else {
        match sweep_step_spec(idx, accepted[idx as int]) {
            SweepStep::Next(j) => sweep_result(accepted, j),
            SweepStep::Accept(i) => i,
            SweepStep::Settle(i) => i,
        }
    }
}

proof fn lemma_sweep_from(accepted: Seq<bool>, idx: usize)
    requires
        accepted.len() == MAX_QUALITY_IDX + 1,
        idx <= MAX_QUALITY_IDX,
    ensures
        idx <= sweep_result(accepted, idx) <= MAX_QUALITY_IDX,
        forall|k: int| idx <= k < sweep_result(accepted, idx) ==> !accepted[k],
        accepted[sweep_result(accepted, idx) as int] || sweep_result(accepted, idx)
            == MAX_QUALITY_IDX,
    decreases MAX_QUALITY_IDX - idx,
{
    if idx < MAX_QUALITY_IDX && !accepted[idx as int] {
        lemma_sweep_from(accepted, (idx + 1) as usize);
    }
}

/// The adaptive sweep ends with the first quality level whose candidate is
/// within the threshold, and with the highest level when none is.
pub proof fn sweep_takes_first_acceptable(accepted: Seq<bool>)
    requires
        accepted.len() == MAX_QUALITY_IDX + 1,
    ensures
        sweep_result(accepted, 0) <= MAX_QUALITY_IDX,
        forall|k: int| 0 <= k < sweep_result(accepted, 0) ==> !accepted[k],
        accepted[sweep_result(accepted, 0) as int] || sweep_result(accepted, 0) == MAX_QUALITY_IDX,
{
    lemma_sweep_from(accepted, 0);
}

/// Every quality list rises strictly from its first level to its last.
pub proof fn quality_levels_increase(f: ImageFormat)
    ensures
        quality_levels_of(f).len() == MAX_QUALITY_IDX + 1,
        forall|i: int, j: int|
            0 <= i < j < quality_levels_of(f).len() ==> quality_levels_of(f)[i]
                < quality_levels_of(f)[j],
{
}

/// Adaptive quality picks the lowest quality level whose candidate is
/// within the threshold: every lower level's candidate was not.
pub proof fn adaptive_picks_lowest_passing_quality(f: ImageFormat, accepted: Seq<bool>)
    requires
        accepted.len() == MAX_QUALITY_IDX + 1,
    ensures
        forall|k: int|
            0 <= k < quality_levels_of(f).len() && quality_levels_of(f)[k] < quality_levels_of(
                f,
            )[sweep_result(accepted, 0) as int] ==> !accepted[k],
{
    sweep_takes_first_acceptable(accepted);
    quality_levels_increase(f);
    let c = sweep_result(accepted, 0) as int;
    assert forall|k: int|
        0 <= k < quality_levels_of(f).len() && quality_levels_of(f)[k] < quality_levels_of(f)[c]
            implies !accepted[k] by {
        if k >= c {
            if k > c {
                assert(quality_levels_of(f)[c] < quality_levels_of(f)[k]);
            }
        }
    }
}

// ---------------------------------------------------------------------
// Input bytes to PNG
// ---------------------------------------------------------------------

/// How input bytes of format `f` become a PNG file.
pub open spec fn conversion_for(f: ImageFormat, backend: Backend) -> PngConversionView {
    match f {
        ImageFormat::Jxl => crate::jxl::conversion_spec(),
        ImageFormat::Jpg => crate::jpg::conversion_spec(backend),
        ImageFormat::Png => crate::png::conversion_spec(),
        ImageFormat::Webp => crate::webp::conversion_spec(backend),
        ImageFormat::Heic => crate::heic::conversion_spec(backend),
    }
}

/// How input bytes in the format named `input_format` become a PNG file.
/// The caller first refuses a name that is not an input format
/// (`format::parse_input_format`).
pub fn to_png(input_format: &str, backend: Backend) -> (r: PngConversion)
    requires
        input_format_of(input_format@) is Some,
    ensures
        r@ == conversion_for(input_format_of(input_format@)->0, backend),
{
    match parse_input_format(input_format).unwrap() {
        ImageFormat::Jxl => crate::jxl::bytes_to_png(),
        ImageFormat::Jpg => crate::jpg::bytes_to_png(backend),
        ImageFormat::Png => crate::png::bytes_to_png(),
        ImageFormat::Webp => crate::webp::bytes_to_png(backend),
        ImageFormat::Heic => crate::heic::bytes_to_png(backend),
    }
}

} // verus!
