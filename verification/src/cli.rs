//! The command-line tool: its arguments, its errors and messages, and the
//! choices it makes for each file.
use vstd::prelude::*;
use crate::text::{decimal, lemma_decimal_digits, ascii_lower, chars_of, chars_eq_str, lower_chars, parse_u8, parse_u8_chars, split_on, split_chars, pieces_view, trim, trim_chars, string_of, str_eq};
use crate::format::{input_format_of, output_format_of};
use crate::util::{is_prefix_of, extension_spec, file_extension, file_stem, file_stem_spec, join_text, parent_text, path_join, path_parent, path_strip_prefix, strip_prefix_text};
use crate::{EncodeOptions, EncodeOptionsBuilder, EncodeOptionsView, default_options, with_crop, with_size, with_quality_idx, with_quality_value, with_threshold, HIGH_QUALITY_THRESHOLD_BITS, MEDIUM_QUALITY_THRESHOLD_BITS};

verus! {

/// The fixed quality of the first fixed-quality run.
pub const FIXED_QUALITY_HIGH: u8 = 85;

/// The fixed quality of the second fixed-quality run.
pub const FIXED_QUALITY_MEDIUM: u8 = 75;

/// Why a command line or a run is refused.
pub enum CliError {
    UnknownArgument(String),
    /// A flag that needs a value came last.
    MissingValue(String),
    UnknownDssimPreset(String),
    NoDssimPresets,
    InvalidQuality(String),
    QualityOutOfRange,
    UnknownPreset(String),
    MissingInput,
    MissingOutput,
    MissingQualityOrPreset,
    QualityAndPreset,
    UnsupportedOutputFormat(String),
    /// An input path whose file name has no stem.
    InvalidFilename(String),
}

pub enum CliErrorView {
    UnknownArgument(Seq<char>),
    MissingValue(Seq<char>),
    UnknownDssimPreset(Seq<char>),
    NoDssimPresets,
    InvalidQuality(Seq<char>),
    QualityOutOfRange,
    UnknownPreset(Seq<char>),
    MissingInput,
    MissingOutput,
    MissingQualityOrPreset,
    QualityAndPreset,
    UnsupportedOutputFormat(Seq<char>),
    InvalidFilename(Seq<char>),
}

impl View for CliError {
    type V = CliErrorView;

    open spec fn view(&self) -> CliErrorView {
        match self {
            CliError::UnknownArgument(s) => CliErrorView::UnknownArgument(s@),
            CliError::MissingValue(s) => CliErrorView::MissingValue(s@),
            CliError::UnknownDssimPreset(s) => CliErrorView::UnknownDssimPreset(s@),
            CliError::NoDssimPresets => CliErrorView::NoDssimPresets,
            CliError::InvalidQuality(s) => CliErrorView::InvalidQuality(s@),
            CliError::QualityOutOfRange => CliErrorView::QualityOutOfRange,
            CliError::UnknownPreset(s) => CliErrorView::UnknownPreset(s@),
            CliError::MissingInput => CliErrorView::MissingInput,
            CliError::MissingOutput => CliErrorView::MissingOutput,
            CliError::MissingQualityOrPreset => CliErrorView::MissingQualityOrPreset,
            CliError::QualityAndPreset => CliErrorView::QualityAndPreset,
            CliError::UnsupportedOutputFormat(s) => CliErrorView::UnsupportedOutputFormat(s@),
            CliError::InvalidFilename(s) => CliErrorView::InvalidFilename(s@),
        }
    }
}

/// The message that reports an error.
pub open spec fn message_spec(e: CliErrorView) -> Seq<char> {
    match e {
        CliErrorView::UnknownArgument(s) => "unknown argument: "@ + s,
        CliErrorView::MissingValue(s) => "missing value for "@ + s,
        CliErrorView::UnknownDssimPreset(s) => "unknown dssim preset: "@ + s,
        CliErrorView::NoDssimPresets => "no dssim presets selected"@,
        CliErrorView::InvalidQuality(s) => "invalid quality value: "@ + s,
        CliErrorView::QualityOutOfRange => "quality must be between 0 and 100"@,
        CliErrorView::UnknownPreset(s) => "unknown preset: "@ + s,
        CliErrorView::MissingInput => "missing required --input <DIR>"@,
        CliErrorView::MissingOutput => "missing required --output <DIR>"@,
        CliErrorView::MissingQualityOrPreset => "missing required --quality <0-100> or --preset <high|medium>"@,
        CliErrorView::QualityAndPreset => "use only one of --quality or --preset"@,
        CliErrorView::UnsupportedOutputFormat(s) => "unsupported output format: "@ + s,
        CliErrorView::InvalidFilename(s) => "invalid filename: "@ + s,
    }
}

fn join(head: &str, tail: &String) -> (r: String)
    ensures
        r@ == head@ + tail@,
{
    let mut r = head.to_owned();
    r.append(tail.as_str());
    r
}

impl CliError {
    /// The message that reports this error.
    pub fn message(&self) -> (r: String)
        ensures
            r@ == message_spec(self@),
    {
        match self {
            CliError::UnknownArgument(s) => join("unknown argument: ", s),
            CliError::MissingValue(s) => join("missing value for ", s),
            CliError::UnknownDssimPreset(s) => join("unknown dssim preset: ", s),
            CliError::NoDssimPresets => "no dssim presets selected".to_owned(),
            CliError::InvalidQuality(s) => join("invalid quality value: ", s),
            CliError::QualityOutOfRange => "quality must be between 0 and 100".to_owned(),
            CliError::UnknownPreset(s) => join("unknown preset: ", s),
            CliError::MissingInput => "missing required --input <DIR>".to_owned(),
            CliError::MissingOutput => "missing required --output <DIR>".to_owned(),
            CliError::MissingQualityOrPreset => "missing required --quality <0-100> or --preset <high|medium>".to_owned(),
            CliError::QualityAndPreset => "use only one of --quality or --preset".to_owned(),
            CliError::UnsupportedOutputFormat(s) => join("unsupported output format: ", s),
            CliError::InvalidFilename(s) => join("invalid filename: ", s),
        }
    }
}

// ---------------------------------------------------------------------
// Presets and quality values
// ---------------------------------------------------------------------

/// Which dSSIM presets the main command runs.
#[derive(Clone, Copy, PartialEq, Eq, Structural, Debug)]
pub struct DssimPresets {
    pub high: bool,
    pub medium: bool,
}

/// The dSSIM preset of the `webp-dssim` command.
#[derive(Clone, Copy, PartialEq, Eq, Structural, Debug)]
pub enum DssimPreset {
    High,
    Medium,
}

/// The comma-separated parts of a preset list read in order: empty parts
/// are skipped, `high` and `medium` switch their preset on, and any other
/// part is refused.
pub open spec fn presets_scan(parts: Seq<Seq<char>>, acc: DssimPresets) -> Result<
    DssimPresets,
    CliErrorView,
>
    decreases parts.len(),
{
    if parts.len() == 0 {
        Ok(acc)
    } else {
        let part = trim(parts[0]);
        if part.len() == 0 {
            presets_scan(parts.drop_first(), acc)
        } else if part == "high"@ {
            presets_scan(parts.drop_first(), DssimPresets { high: true, ..acc })
        } else if part == "medium"@ {
            presets_scan(parts.drop_first(), DssimPresets { medium: true, ..acc })
        } else {
            Err(CliErrorView::UnknownDssimPreset(part))
        }
    }
}

/// The presets that `--dssim-presets` selects, ignoring ASCII case: `both`
/// or `all` select both; otherwise a comma-separated list of `high` and
/// `medium`, of which at least one must be named.
pub open spec fn dssim_presets_spec(value: Seq<char>) -> Result<DssimPresets, CliErrorView> {
    let l = ascii_lower(value);
    if l == "both"@ || l == "all"@ {
        Ok(DssimPresets { high: true, medium: true })
    } else {
        match presets_scan(split_on(l, ','), DssimPresets { high: false, medium: false }) {
            Ok(p) => if !p.high && !p.medium {
                Err(CliErrorView::NoDssimPresets)
            } else {
                Ok(p)
            },
            Err(e) => Err(e),
        }
    }
}

/// The presets that a `--dssim-presets` value selects.
pub fn parse_dssim_presets(value: &str) -> (r: Result<DssimPresets, CliError>)
    ensures
        match r {
            Ok(p) => dssim_presets_spec(value@) == Ok::<DssimPresets, CliErrorView>(p),
            Err(e) => dssim_presets_spec(value@) == Err::<DssimPresets, CliErrorView>(e@),
        },
{
    let l = lower_chars(&chars_of(value));
    if chars_eq_str(&l, "both") || chars_eq_str(&l, "all") {
        return Ok(DssimPresets { high: true, medium: true });
    }
    let parts = split_chars(&l, ',');
    let ghost all = pieces_view(parts@);
    let mut acc = DssimPresets { high: false, medium: false };
    let mut i: usize = 0;
    assert(all.skip(0) =~= all);
    while i < parts.len()
        invariant
            i <= parts.len(),
            all == pieces_view(parts@),
            all == split_on(l@, ','),
            l@ == ascii_lower(value@),
            !(l@ == "both"@ || l@ == "all"@),
            presets_scan(all, DssimPresets { high: false, medium: false }) == presets_scan(
                all.skip(i as int),
                acc,
            ),
        decreases parts.len() - i,
    {
        let ghost rest = all.skip(i as int);
        assert(rest[0] == parts@[i as int]@);
        assert(rest.drop_first() =~= all.skip(i + 1));
        let part = trim_chars(&parts[i]);
        if part.len() == 0 {
        } else if chars_eq_str(&part, "high") {
            acc = DssimPresets { high: true, ..acc };
        } else if chars_eq_str(&part, "medium") {
            acc = DssimPresets { medium: true, ..acc };
        } else {
            let p = string_of(&part);
            assert(presets_scan(rest, acc) == Err::<DssimPresets, CliErrorView>(
                CliErrorView::UnknownDssimPreset(p@),
            ));
            return Err(CliError::UnknownDssimPreset(p));
        }
        i = i + 1;
    }
    if !acc.high && !acc.medium {
        return Err(CliError::NoDssimPresets);
    }
    Ok(acc)
}

/// A `--quality` value: a `u8` of at most 100.
pub open spec fn quality_value_spec(value: Seq<char>) -> Result<u8, CliErrorView> {
    match parse_u8(value) {
        None => Err(CliErrorView::InvalidQuality(value)),
        Some(q) => if q > 100 {
            Err(CliErrorView::QualityOutOfRange)
        } else {
            Ok(q)
        },
    }
}

/// The quality that a `--quality` value names.
pub fn parse_quality_value(value: &str) -> (r: Result<u8, CliError>)
    ensures
        match r {
            Ok(q) => quality_value_spec(value@) == Ok::<u8, CliErrorView>(q),
            Err(e) => quality_value_spec(value@) == Err::<u8, CliErrorView>(e@),
        },
{
    match parse_u8_chars(&chars_of(value)) {
        None => Err(CliError::InvalidQuality(value.to_owned())),
        Some(q) => if q > 100 {
            Err(CliError::QualityOutOfRange)
        } else {
            Ok(q)
        },
    }
}

/// A quality written into an encoder's command line reads back as the
/// same `--quality` value.
pub proof fn quality_values_read_back(q: u8)
    requires
        q <= 100,
    ensures
        quality_value_spec(decimal(q as nat)) == Ok::<u8, CliErrorView>(q),
{
    lemma_decimal_digits(q as nat);
}

/// A `--preset` value: exactly `high` or `medium`.
pub open spec fn dssim_preset_spec(value: Seq<char>) -> Result<DssimPreset, CliErrorView> {
    if value == "high"@ {
        Ok(DssimPreset::High)
    } else if value == "medium"@ {
        Ok(DssimPreset::Medium)
    } else {
        Err(CliErrorView::UnknownPreset(value))
    }
}

/// The preset that a `--preset` value names.
pub fn parse_dssim_preset(value: &str) -> (r: Result<DssimPreset, CliError>)
    ensures
        match r {
            Ok(p) => dssim_preset_spec(value@) == Ok::<DssimPreset, CliErrorView>(p),
            Err(e) => dssim_preset_spec(value@) == Err::<DssimPreset, CliErrorView>(e@),
        },
{
    if str_eq(value, "high") {
        Ok(DssimPreset::High)
    } else if str_eq(value, "medium") {
        Ok(DssimPreset::Medium)
    } else {
        Err(CliError::UnknownPreset(value.to_owned()))
    }
}


// ---------------------------------------------------------------------
// Formats and fixed qualities
// ---------------------------------------------------------------------

/// `normalize_format`: the ASCII lower-case form of a format name.
pub fn normalize_format(value: &str) -> (r: String)
    ensures
        r@ == ascii_lower(value@),
{
    string_of(&lower_chars(&chars_of(value)))
}

/// The output formats that the tool accepts, by exact name.
pub open spec fn is_supported_output_format_spec(format: Seq<char>) -> bool {
    ||| format == "jxl"@
    ||| format == "jpg"@
    ||| format == "jpeg"@
    ||| format == "webp"@
    ||| format == "heic"@
    ||| format == "heif"@
}

pub fn is_supported_output_format(format: &str) -> (r: bool)
    ensures
        r == is_supported_output_format_spec(format@),
{
    str_eq(format, "jxl") || str_eq(format, "jpg") || str_eq(format, "jpeg") || str_eq(format, "webp")
        || str_eq(format, "heic") || str_eq(format, "heif")
}

/// The quality list of a format with a list of quality levels, by exact
/// name; WebP takes raw quality values instead.
pub open spec fn quality_list_spec(format: Seq<char>) -> Option<Seq<u8>> {
    if format == "jxl"@ {
        Some(crate::jxl::quality_levels())
    } else if format == "jpg"@ || format == "jpeg"@ {
        Some(crate::jpg::quality_levels())
    } else if format == "heic"@ || format == "heif"@ {
        Some(crate::heic::quality_levels())
    } else {
        None
    }
}

pub fn quality_list_for_format(format: &str) -> (r: Option<Vec<u8>>)
    ensures
        match r {
            Some(l) => quality_list_spec(format@) == Some(l@),
            None => quality_list_spec(format@) is None,
        },
{
    if str_eq(format, "jxl") {
        Some(crate::jxl::quality_list())
    } else if str_eq(format, "jpg") || str_eq(format, "jpeg") {
        Some(crate::jpg::quality_list())
    } else if str_eq(format, "heic") || str_eq(format, "heif") {
        Some(crate::heic::quality_list())
    } else {
        None
    }
}

pub open spec fn abs_diff(a: u8, b: u8) -> int {
    if a >= b {
        a - b
    } else {
        b - a
    }
}

/// Level `i` of `list` is a better match for `target` than level `j`: it
/// is closer, or as close and higher.
pub open spec fn better_match(list: Seq<u8>, target: u8, i: int, j: int) -> bool {
    let di = abs_diff(list[i], target);
    let dj = abs_diff(list[j], target);
    di < dj || (di == dj && list[i] > list[j])
}

/// Index `j` is the level of `list` that a fixed quality `target` maps to:
/// the first level equal to `target` if there is one; otherwise the first
/// of the levels that no other level matches better.
pub open spec fn is_best_match(list: Seq<u8>, target: u8, j: int) -> bool {
    &&& 0 <= j < list.len()
    &&& if list.contains(target) {
        list[j] == target && forall|k: int| 0 <= k < j ==> list[k] != target
    } else {
        &&& forall|k: int| 0 <= k < list.len() ==> !better_match(list, target, k, j)
        &&& forall|k: int| 0 <= k < j ==> better_match(list, target, j, k)
    }
}

/// A quality maps to exactly one level.
pub proof fn best_match_is_unique(list: Seq<u8>, target: u8, i: int, j: int)
    requires
        is_best_match(list, target, i),
        is_best_match(list, target, j),
    ensures
        i == j,
{
    if i < j {
        if !list.contains(target) {
            assert(better_match(list, target, j, i));
        }
    } else if j < i {
        if !list.contains(target) {
            assert(better_match(list, target, i, j));
        }
    }
}

/// The index of the level of `list` that the quality `target` maps to.
/// The caller warns when `list[result]` differs from `target`.
pub fn quality_idx_for_target(target: u8, list: &Vec<u8>) -> (r: usize)
    requires
        list.len() > 0,
    ensures
        is_best_match(list@, target, r as int),
{
    let mut p: usize = 0;
    while p < list.len()
        invariant
            p <= list.len(),
            forall|k: int| 0 <= k < p ==> list@[k] != target,
        decreases list.len() - p,
    {
        if list[p] == target {
            assert(list@.contains(target));
            return p;
        }
        p = p + 1;
    }
    assert(!list@.contains(target));
    let mut best_idx: usize = 0;
    let mut idx: usize = 1;
    while idx < list.len()
        invariant
            1 <= idx <= list.len(),
            best_idx < idx,
            !list@.contains(target),
            forall|k: int| 0 <= k < idx ==> !better_match(list@, target, k, best_idx as int),
            forall|k: int| 0 <= k < best_idx ==> better_match(list@, target, best_idx as int, k),
        decreases list.len() - idx,
    {
        let q = list[idx];
        let b = list[best_idx];
        let diff: u8 = if q >= target { q - target } else { target - q };
        let best_diff: u8 = if b >= target { b - target } else { target - b };
        let ghost old_best = best_idx as int;
        assert(diff as int == abs_diff(list@[idx as int], target));
        assert(best_diff as int == abs_diff(list@[old_best], target));
        if diff < best_diff || (diff == best_diff && q > b) {
            assert(better_match(list@, target, idx as int, old_best));
            assert forall|k: int| 0 <= k < idx + 1 implies !better_match(
                list@,
                target,
                k,
                idx as int,
            ) by {
                if k < idx {
                    assert(!better_match(list@, target, k, old_best));
                }
            }
            assert forall|k: int| 0 <= k < idx implies better_match(list@, target, idx as int, k) by {
                assert(!better_match(list@, target, k, old_best));
            }
            best_idx = idx;
        } else {
            assert(!better_match(list@, target, idx as int, old_best));
        }
        idx = idx + 1;
    }
    best_idx
}

/// How a fixed quality is given to the encoder.
#[derive(Clone, Copy, PartialEq, Eq, Structural, Debug)]
pub enum FixedQualitySpec {
    Index(usize),
    Value(u8),
}

/// How the fixed quality `target` is given for `format`: WebP takes it as
/// a value; the other formats take the index of the best-matching level of
/// their list.
pub open spec fn fixed_quality_matches(format: Seq<char>, target: u8, q: FixedQualitySpec) -> bool {
    match q {
        FixedQualitySpec::Value(v) => format == "webp"@ && v == target,
        FixedQualitySpec::Index(i) => {
            &&& format != "webp"@
            &&& quality_list_spec(format) matches Some(l) && is_best_match(l, target, i as int)
        },
    }
}

/// Whether `q` gives the encoder exactly the quality `target`.
pub open spec fn uses_exactly(format: Seq<char>, target: u8, q: FixedQualitySpec) -> bool {
    match q {
        FixedQualitySpec::Value(v) => v == target,
        FixedQualitySpec::Index(i) => quality_list_spec(format) matches Some(l) && l[i as int]
            == target,
    }
}

/// The tool's two fixed qualities are levels of every quality list, so
/// every format receives them exactly as given.
pub proof fn tool_fixed_qualities_are_exact(format: Seq<char>, q: FixedQualitySpec)
    ensures
        fixed_quality_matches(format, FIXED_QUALITY_HIGH, q) ==> uses_exactly(
            format,
            FIXED_QUALITY_HIGH,
            q,
        ),
        fixed_quality_matches(format, FIXED_QUALITY_MEDIUM, q) ==> uses_exactly(
            format,
            FIXED_QUALITY_MEDIUM,
            q,
        ),
{
    if let FixedQualitySpec::Index(i) = q {
        if let Some(l) = quality_list_spec(format) {
            assert(l[4] == 85u8 && l[2] == 75u8);
            assert(l.contains(85u8));
            assert(l.contains(75u8));
        }
    }
}

/// A fixed quality `target` for `format`.
pub fn fixed_quality_spec(format: &str, target: u8) -> (r: Result<FixedQualitySpec, CliError>)
    ensures
        match r {
            Ok(q) => fixed_quality_matches(format@, target, q),
            Err(e) => {
                &&& format@ != "webp"@
                &&& quality_list_spec(format@) is None
                &&& e@ == CliErrorView::UnsupportedOutputFormat(format@)
            },
        },
{
    if str_eq(format, "webp") {
        return Ok(FixedQualitySpec::Value(target));
    }
    match quality_list_for_format(format) {
        None => Err(CliError::UnsupportedOutputFormat(format.to_owned())),
        Some(list) => {
            assert(list@.len() == 7);
            Ok(FixedQualitySpec::Index(quality_idx_for_target(target, &list)))
        },
    }
}

/// The level that replaces a fixed quality `target` that is not one of the
/// format's levels, for the warning that says so; `None` when the quality
/// is used as given.
pub fn substituted_quality(format: &str, target: u8, spec: FixedQualitySpec) -> (r: Option<u8>)
    ensures
        match spec {
            FixedQualitySpec::Index(i) => match quality_list_spec(format@) {
                Some(l) => if 0 <= i < l.len() && l[i as int] != target {
                    r == Some(l[i as int])
                } else {
                    r is None
                },
                None => r is None,
            },
            FixedQualitySpec::Value(_) => r is None,
        },
{
    match spec {
        FixedQualitySpec::Index(i) => match quality_list_for_format(format) {
            Some(list) => if i < list.len() && list[i] != target {
                Some(list[i])
            } else {
                None
            },
            None => None,
        },
        FixedQualitySpec::Value(_) => None,
    }
}

/// The input formats that the tool picks files by.
pub open spec fn is_input_extension(e: Seq<char>) -> bool {
    ||| e == "jxl"@
    ||| e == "jpg"@
    ||| e == "jpeg"@
    ||| e == "png"@
    ||| e == "webp"@
    ||| e == "heic"@
    ||| e == "heif"@
}

/// The input format of a file, by its extension in ASCII lower case.
pub open spec fn input_format_for_path_spec(path: Seq<char>) -> Option<Seq<char>> {
    match extension_spec(path) {
        Some(e) => if is_input_extension(ascii_lower(e)) {
            Some(ascii_lower(e))
        } else {
            None
        },
        None => None,
    }
}

/// The input format of the file at `path`, if the tool reads it.
pub fn input_format_for_path(path: &str) -> (r: Option<String>)
    ensures
        r.deep_view() == input_format_for_path_spec(path@),
{
    match file_extension(path) {
        None => None,
        Some(e) => {
            let l = lower_chars(&chars_of(e.as_str()));
            if chars_eq_str(&l, "jxl") || chars_eq_str(&l, "jpg") || chars_eq_str(&l, "jpeg")
                || chars_eq_str(&l, "png") || chars_eq_str(&l, "webp") || chars_eq_str(&l, "heic")
                || chars_eq_str(&l, "heif") {
                Some(string_of(&l))
            } else {
                None
            }
        },
    }
}

/// The name of an output file: the input's stem, a dot, the format.
pub fn output_file_name(stem: &str, format: &str) -> (r: String)
    ensures
        r@ == stem@ + "."@ + format@,
{
    let mut r = stem.to_owned();
    r.append(".");
    r.append(format);
    r
}


/// Where the output for an input file goes: the directory to create and
/// the file in it.
pub struct OutputTarget {
    pub dir: String,
    pub file: String,
}

/// The output place of the input at `path`, found under `input_root`: the
/// input's directory relative to the root (the path itself where it is not
/// under the root; none where it has no parent), joined onto `output_dir`;
/// in it, the input's stem with the format as extension.  An input whose
/// file name has no stem is refused.
/// The directory of the input at `path` relative to `input_root`: the
/// parent of the path with the root stripped (of the path itself where it
/// is not under the root), or nothing where it has no parent.
pub open spec fn relative_dir(input_root: Seq<char>, path: Seq<char>) -> Seq<char> {
    let rel = match strip_prefix_text(path, input_root) {
        Some(r) => r,
        None => path,
    };
    match parent_text(rel) {
        Some(d) => d,
        None => Seq::empty(),
    }
}

pub open spec fn output_target_spec(
    input_root: Seq<char>,
    path: Seq<char>,
    output_dir: Seq<char>,
    format: Seq<char>,
) -> Result<(Seq<char>, Seq<char>), CliErrorView> {
    let rel_dir = relative_dir(input_root, path);
    match file_stem_spec(path) {
        None => Err(CliErrorView::InvalidFilename(path)),
        Some(stem) => {
            let dir = join_text(output_dir, rel_dir);
            Ok((dir, join_text(dir, stem + "."@ + format)))
        },
    }
}

/// The output place of the input at `path`; the caller creates its
/// directory.
pub fn output_target(input_root: &str, path: &str, output_dir: &str, format: &str) -> (r: Result<
    OutputTarget,
    CliError,
>)
    ensures
        match r {
            Ok(t) => output_target_spec(input_root@, path@, output_dir@, format@) == Ok::<
                (Seq<char>, Seq<char>),
                CliErrorView,
            >((t.dir@, t.file@)),
            Err(e) => output_target_spec(input_root@, path@, output_dir@, format@) == Err::<
                (Seq<char>, Seq<char>),
                CliErrorView,
            >(e@),
        },
{
    let stripped = path_strip_prefix(path, input_root);
    let rel = match stripped {
        Some(r) => r,
        None => path.to_owned(),
    };
    assert(rel@ == match strip_prefix_text(path@, input_root@) {
        Some(r) => r,
        None => path@,
    });
    let parent = path_parent(rel.as_str());
    let rel_dir = match parent {
        Some(d) => d,
        None => String::new(),
    };
    assert(rel_dir@ == match parent_text(rel@) {
        Some(d) => d,
        None => Seq::empty(),
    });
    match file_stem(path) {
        None => Err(CliError::InvalidFilename(path.to_owned())),
        Some(stem) => {
            let dir = path_join(output_dir, rel_dir.as_str());
            let name = output_file_name(stem.as_str(), format);
            let file = path_join(dir.as_str(), name.as_str());
            Ok(OutputTarget { dir, file })
        },
    }
}

/// An output file lies in its directory, named by the input's stem and
/// the format (directly, with a separator where one is needed, unless the
/// name would begin with `/`); and where the input's relative directory is
/// relative, that directory lies under the output directory.
pub proof fn outputs_stay_under_output_dir(
    input_root: Seq<char>,
    path: Seq<char>,
    output_dir: Seq<char>,
    format: Seq<char>,
)
    requires
        output_target_spec(input_root, path, output_dir, format) is Ok,
    ensures
        ({
            let (dir, file) = output_target_spec(input_root, path, output_dir, format)->Ok_0;
            let name = file_stem_spec(path)->0 + "."@ + format;
            let rel_dir = relative_dir(input_root, path);
            &&& dir == join_text(output_dir, rel_dir)
            &&& file == join_text(dir, name)
            &&& (name[0] != '/' ==> file == if dir.len() == 0 || dir.last() == '/' {
                dir + name
            } else {
                dir + seq!['/'] + name
            })
            &&& (rel_dir.len() == 0 || rel_dir[0] != '/') ==> is_prefix_of(output_dir, dir)
        }),
{
    let rel_dir = relative_dir(input_root, path);
    let dir = join_text(output_dir, rel_dir);
    if !(rel_dir.len() > 0 && rel_dir[0] == '/') {
        if output_dir.len() == 0 || output_dir.last() == '/' {
            assert(dir.take(output_dir.len() as int) =~= output_dir);
        } else {
            assert(dir.take(output_dir.len() as int) =~= output_dir);
        }
    }
}

// ---------------------------------------------------------------------
// Command lines
// ---------------------------------------------------------------------

/// The views of a sequence of strings.
pub open spec fn strings_view(v: Seq<String>) -> Seq<Seq<char>> {
    v.map_values(|s: String| s@)
}

/// What a command line asks for: a run with these arguments, or the usage
/// text (`-h` / `--help`).
pub enum Parsed<T> {
    Run(T),
    Help,
}

impl<T: View> View for Parsed<T> {
    type V = Parsed<T::V>;

    open spec fn view(&self) -> Parsed<T::V> {
        match self {
            Parsed::Run(t) => Parsed::Run(t@),
            Parsed::Help => Parsed::Help,
        }
    }
}

/// The arguments of the main command: encode every image under
/// `input_dir` into `output_dir` at two fixed qualities and with the
/// selected dSSIM presets.
pub struct Args {
    pub input_dir: String,
    pub output_dir: String,
    pub output_format: String,
    pub size: Option<String>,
    pub crop: bool,
    pub recursive: bool,
    pub dssim_presets: DssimPresets,
}

pub struct ArgsView {
    pub input_dir: Seq<char>,
    pub output_dir: Seq<char>,
    pub output_format: Seq<char>,
    pub size: Option<Seq<char>>,
    pub crop: bool,
    pub recursive: bool,
    pub dssim_presets: DssimPresets,
}

impl View for Args {
    type V = ArgsView;

    open spec fn view(&self) -> ArgsView {
        ArgsView {
            input_dir: self.input_dir@,
            output_dir: self.output_dir@,
            output_format: self.output_format@,
            size: self.size.deep_view(),
            crop: self.crop,
            recursive: self.recursive,
            dssim_presets: self.dssim_presets,
        }
    }
}

/// The main command's arguments read so far.
pub struct MainAcc {
    pub input: Option<Seq<char>>,
    pub output: Option<Seq<char>>,
    pub format: Seq<char>,
    pub size: Option<Seq<char>>,
    pub crop: bool,
    pub recursive: bool,
    pub presets: DssimPresets,
}

/// Before any argument: output format `jxl`, both presets.
pub open spec fn main_init() -> MainAcc {
    MainAcc {
        input: None,
        output: None,
        format: "jxl"@,
        size: None,
        crop: false,
        recursive: false,
        presets: DssimPresets { high: true, medium: true },
    }
}

/// The end of the main command's arguments: `--input` and `--output` are
/// required.
pub open spec fn main_finish(acc: MainAcc) -> Result<Parsed<ArgsView>, CliErrorView> {
    match (acc.input, acc.output) {
        (None, _) => Err(CliErrorView::MissingInput),
        (Some(_), None) => Err(CliErrorView::MissingOutput),
        (Some(i), Some(o)) => Ok(
            Parsed::Run(
                ArgsView {
                    input_dir: i,
                    output_dir: o,
                    output_format: acc.format,
                    size: acc.size,
                    crop: acc.crop,
                    recursive: acc.recursive,
                    dssim_presets: acc.presets,
                },
            ),
        ),
    }
}

/// The main command's arguments `toks[i..]` read in order, after `acc`:
/// `--input`, `--output`, `--output-format`, `--size` and
/// `--dssim-presets` take the next argument as their value (a later one
/// replaces an earlier); `--crop` and `--recursive` are switches; `-h` and
/// `--help` ask for the usage text at once; anything else is refused.
pub open spec fn main_parse(toks: Seq<Seq<char>>, i: int, acc: MainAcc) -> Result<
    Parsed<ArgsView>,
    CliErrorView,
>
    decreases toks.len() - i,
{
    if i < 0 || i >= toks.len() {
        main_finish(acc)
    } else {
        let a = toks[i];
        let has_value = i + 1 < toks.len();
        if a == "--input"@ {
            if has_value {
                main_parse(toks, i + 2, MainAcc { input: Some(toks[i + 1]), ..acc })
            } else {
                Err(CliErrorView::MissingValue(a))
            }
        } else if a == "--output"@ {
            if has_value {
                main_parse(toks, i + 2, MainAcc { output: Some(toks[i + 1]), ..acc })
            } else {
                Err(CliErrorView::MissingValue(a))
            }
        } else if a == "--output-format"@ {
            if has_value {
                main_parse(toks, i + 2, MainAcc { format: toks[i + 1], ..acc })
            } else {
                Err(CliErrorView::MissingValue(a))
            }
        } else if a == "--size"@ {
            if has_value {
                main_parse(toks, i + 2, MainAcc { size: Some(toks[i + 1]), ..acc })
            } else {
                Err(CliErrorView::MissingValue(a))
            }
        } else if a == "--crop"@ {
            main_parse(toks, i + 1, MainAcc { crop: true, ..acc })
        } else if a == "--recursive"@ {
            main_parse(toks, i + 1, MainAcc { recursive: true, ..acc })
        } else if a == "--dssim-presets"@ {
            if has_value {
                match dssim_presets_spec(toks[i + 1]) {
                    Ok(p) => main_parse(toks, i + 2, MainAcc { presets: p, ..acc }),
                    Err(e) => Err(e),
                }
            } else {
                Err(CliErrorView::MissingValue(a))
            }
        } else if a == "-h"@ || a == "--help"@ {
            Ok(Parsed::Help)
        } else {
            Err(CliErrorView::UnknownArgument(a))
        }
    }
}

pub open spec fn main_acc(
    input: Option<String>,
    output: Option<String>,
    format: String,
    size: Option<String>,
    crop: bool,
    recursive: bool,
    presets: DssimPresets,
) -> MainAcc {
    MainAcc {
        input: input.deep_view(),
        output: output.deep_view(),
        format: format@,
        size: size.deep_view(),
        crop,
        recursive,
        presets,
    }
}

impl Args {
    /// The main command's arguments, read from `args[start..]`.
    pub fn parse_from(args: &Vec<String>, start: usize) -> (r: Result<Parsed<Args>, CliError>)
        ensures
            match r {
                Ok(p) => main_parse(strings_view(args@), start as int, main_init()) == Ok::<
                    Parsed<ArgsView>,
                    CliErrorView,
                >(p@),
                Err(e) => main_parse(strings_view(args@), start as int, main_init()) == Err::<
                    Parsed<ArgsView>,
                    CliErrorView,
                >(e@),
            },
    {
        let ghost toks = strings_view(args@);
        let n = args.len();
        let mut input: Option<String> = None;
        let mut output: Option<String> = None;
        let mut format: String = "jxl".to_owned();
        let mut size: Option<String> = None;
        let mut crop = false;
        let mut recursive = false;
        let mut presets = DssimPresets { high: true, medium: true };
        let mut i: usize = start;
        if i > n {
            i = n;
        }
        while i < n
            invariant
                n == args.len(),
                toks == strings_view(args@),
                i <= n,
                main_parse(toks, start as int, main_init()) == main_parse(
                    toks,
                    i as int,
                    main_acc(input, output, format, size, crop, recursive, presets),
                ),
            decreases n - i,
        {
            let a = args[i].as_str();
            let has_value = i + 1 < n;
            assert(toks[i as int] == a@);
            if has_value {
                assert(toks[i + 1] == args@[i + 1]@);
            }
            if str_eq(a, "--input") {
                if !has_value {
                    return Err(CliError::MissingValue(a.to_owned()));
                }
                input = Some(args[i + 1].clone());
                i = i + 2;
            } else if str_eq(a, "--output") {
                if !has_value {
                    return Err(CliError::MissingValue(a.to_owned()));
                }
                output = Some(args[i + 1].clone());
                i = i + 2;
            } else if str_eq(a, "--output-format") {
                if !has_value {
                    return Err(CliError::MissingValue(a.to_owned()));
                }
                format = args[i + 1].clone();
                i = i + 2;
            } else if str_eq(a, "--size") {
                if !has_value {
                    return Err(CliError::MissingValue(a.to_owned()));
                }
                size = Some(args[i + 1].clone());
                i = i + 2;
            } else if str_eq(a, "--crop") {
                crop = true;
                i = i + 1;
            } else if str_eq(a, "--recursive") {
                recursive = true;
                i = i + 1;
            } else if str_eq(a, "--dssim-presets") {
                if !has_value {
                    return Err(CliError::MissingValue(a.to_owned()));
                }
                match parse_dssim_presets(args[i + 1].as_str()) {
                    Ok(p) => {
                        presets = p;
                    },
                    Err(e) => {
                        return Err(e);
                    },
                }
                i = i + 2;
            } else if str_eq(a, "-h") || str_eq(a, "--help") {
                return Ok(Parsed::Help);
            } else {
                return Err(CliError::UnknownArgument(a.to_owned()));
            }
        }
        match (input, output) {
            (None, _) => Err(CliError::MissingInput),
            (Some(_), None) => Err(CliError::MissingOutput),
            (Some(input_dir), Some(output_dir)) => Ok(
                Parsed::Run(
                    Args {
                        input_dir,
                        output_dir,
                        output_format: format,
                        size,
                        crop,
                        recursive,
                        dssim_presets: presets,
                    },
                ),
            ),
        }
    }
}


/// The arguments of the `webp-dssim` command: encode every image under
/// `input_dir` to WebP at a fixed quality or a dSSIM preset and report the
/// distance.
pub struct WebpDssimArgs {
    pub input_dir: String,
    pub output_dir: String,
    pub quality: Option<u8>,
    pub preset: Option<DssimPreset>,
    pub size: Option<String>,
    pub crop: bool,
    pub recursive: bool,
}

pub struct WebpDssimArgsView {
    pub input_dir: Seq<char>,
    pub output_dir: Seq<char>,
    pub quality: Option<u8>,
    pub preset: Option<DssimPreset>,
    pub size: Option<Seq<char>>,
    pub crop: bool,
    pub recursive: bool,
}

impl View for WebpDssimArgs {
    type V = WebpDssimArgsView;

    open spec fn view(&self) -> WebpDssimArgsView {
        WebpDssimArgsView {
            input_dir: self.input_dir@,
            output_dir: self.output_dir@,
            quality: self.quality,
            preset: self.preset,
            size: self.size.deep_view(),
            crop: self.crop,
            recursive: self.recursive,
        }
    }
}

/// The `webp-dssim` arguments read so far.
pub struct WebpAcc {
    pub input: Option<Seq<char>>,
    pub output: Option<Seq<char>>,
    pub quality: Option<u8>,
    pub preset: Option<DssimPreset>,
    pub size: Option<Seq<char>>,
    pub crop: bool,
    pub recursive: bool,
}

pub open spec fn webp_init() -> WebpAcc {
    WebpAcc {
        input: None,
        output: None,
        quality: None,
        preset: None,
        size: None,
        crop: false,
        recursive: false,
    }
}

/// The end of the `webp-dssim` arguments: `--input` and `--output` are
/// required, and exactly one of `--quality` and `--preset`.
pub open spec fn webp_finish(acc: WebpAcc) -> Result<Parsed<WebpDssimArgsView>, CliErrorView> {
    match (acc.input, acc.output) {
        (None, _) => Err(CliErrorView::MissingInput),
        (Some(_), None) => Err(CliErrorView::MissingOutput),
        (Some(i), Some(o)) => if acc.quality is None && acc.preset is None {
            Err(CliErrorView::MissingQualityOrPreset)
        } else if acc.quality is Some && acc.preset is Some {
            Err(CliErrorView::QualityAndPreset)
        } else {
            Ok(
                Parsed::Run(
                    WebpDssimArgsView {
                        input_dir: i,
                        output_dir: o,
                        quality: acc.quality,
                        preset: acc.preset,
                        size: acc.size,
                        crop: acc.crop,
                        recursive: acc.recursive,
                    },
                ),
            )
        },
    }
}

/// The `webp-dssim` arguments `toks[i..]` read in order, after `acc`:
/// `--input`, `--output`, `--quality`, `--preset` and `--size` take the
/// next argument as their value; `--crop` and `--recursive` are switches;
/// `-h` and `--help` ask for the usage text at once; anything else is
/// refused.
pub open spec fn webp_parse(toks: Seq<Seq<char>>, i: int, acc: WebpAcc) -> Result<
    Parsed<WebpDssimArgsView>,
    CliErrorView,
>
    decreases toks.len() - i,
{
    if i < 0 || i >= toks.len() {
        webp_finish(acc)
    } else {
        let a = toks[i];
        let has_value = i + 1 < toks.len();
        if a == "--input"@ {
            if has_value {
                webp_parse(toks, i + 2, WebpAcc { input: Some(toks[i + 1]), ..acc })
            } else {
                Err(CliErrorView::MissingValue(a))
            }
        } else if a == "--output"@ {
            if has_value {
                webp_parse(toks, i + 2, WebpAcc { output: Some(toks[i + 1]), ..acc })
            } else {
                Err(CliErrorView::MissingValue(a))
            }
        } else if a == "--quality"@ {
            if has_value {
                match quality_value_spec(toks[i + 1]) {
                    Ok(q) => webp_parse(toks, i + 2, WebpAcc { quality: Some(q), ..acc }),
                    Err(e) => Err(e),
                }
            } else {
                Err(CliErrorView::MissingValue(a))
            }
        } else if a == "--preset"@ {
            if has_value {
                match dssim_preset_spec(toks[i + 1]) {
                    Ok(p) => webp_parse(toks, i + 2, WebpAcc { preset: Some(p), ..acc }),
                    Err(e) => Err(e),
                }
            } else {
                Err(CliErrorView::MissingValue(a))
            }
        } else if a == "--size"@ {
            if has_value {
                webp_parse(toks, i + 2, WebpAcc { size: Some(toks[i + 1]), ..acc })
            } else {
                Err(CliErrorView::MissingValue(a))
            }
        } else if a == "--crop"@ {
            webp_parse(toks, i + 1, WebpAcc { crop: true, ..acc })
        } else if a == "--recursive"@ {
            webp_parse(toks, i + 1, WebpAcc { recursive: true, ..acc })
        } else if a == "-h"@ || a == "--help"@ {
            Ok(Parsed::Help)
        } else {
            Err(CliErrorView::UnknownArgument(a))
        }
    }
}

/// The `webp-dssim` flags that take the next argument as their value.
pub open spec fn webp_takes_value(a: Seq<char>) -> bool {
    a == "--input"@ || a == "--output"@ || a == "--quality"@ || a == "--preset"@ || a == "--size"@
}

/// The `webp-dssim` flags of a run.
pub open spec fn webp_is_flag(a: Seq<char>) -> bool {
    webp_takes_value(a) || a == "--crop"@ || a == "--recursive"@
}

/// Where the next flag is read after the one at `i`: past its value, if it
/// takes one.
pub open spec fn webp_next(toks: Seq<Seq<char>>, i: int) -> int {
    if webp_takes_value(toks[i]) {
        i + 2
    } else {
        i + 1
    }
}

/// Whether reading the arguments from `i` on reads one as a flag at `k`:
/// each argument is read as a flag, but for the value that follows a flag
/// that takes one.
pub open spec fn webp_reads_flag_at(toks: Seq<Seq<char>>, i: int, k: int) -> bool
    decreases toks.len() + 2 - i,
{
    if i < 0 || i >= toks.len() || k < i {
        false
    } else if i == k {
        true
    } else {
        webp_reads_flag_at(toks, webp_next(toks, i), k)
    }
}

/// `k` is the last place, reading from `start`, where `flag` is read as a
/// flag.
pub open spec fn is_last_flag(toks: Seq<Seq<char>>, start: int, flag: Seq<char>, k: int) -> bool {
    &&& webp_reads_flag_at(toks, start, k)
    &&& toks[k] == flag
    &&& forall|j: int| k < j && #[trigger] webp_reads_flag_at(toks, start, j) ==> toks[j] != flag
}

/// The value of `--input` or `--output` read so far.
spec fn acc_value(acc: WebpAcc, flag: Seq<char>) -> Option<Seq<char>> {
    if flag == "--input"@ {
        acc.input
    } else {
        acc.output
    }
}

/// The directory a run got from `--input` or `--output`.
spec fn run_value(a: WebpDssimArgsView, flag: Seq<char>) -> Seq<char> {
    if flag == "--input"@ {
        a.input_dir
    } else {
        a.output_dir
    }
}

/// What the flag at `i` sets, on top of `acc`.
spec fn webp_step_acc(toks: Seq<Seq<char>>, i: int, acc: WebpAcc) -> WebpAcc {
    let a = toks[i];
    if a == "--input"@ {
        WebpAcc { input: Some(toks[i + 1]), ..acc }
    } else if a == "--output"@ {
        WebpAcc { output: Some(toks[i + 1]), ..acc }
    } else if a == "--quality"@ {
        match quality_value_spec(toks[i + 1]) {
            Ok(q) => WebpAcc { quality: Some(q), ..acc },
            Err(_) => acc,
        }
    } else if a == "--preset"@ {
        match dssim_preset_spec(toks[i + 1]) {
            Ok(p) => WebpAcc { preset: Some(p), ..acc },
            Err(_) => acc,
        }
    } else if a == "--size"@ {
        WebpAcc { size: Some(toks[i + 1]), ..acc }
    } else if a == "--crop"@ {
        WebpAcc { crop: true, ..acc }
    } else {
        WebpAcc { recursive: true, ..acc }
    }
}

/// A run read from `i` on, after `acc`: its quality is in range where
/// `acc`'s is; every argument read as a flag is one; and its `flag`
/// directory is the value after the last `flag` read, or `acc`'s where
/// none is read.
proof fn lemma_webp_run(toks: Seq<Seq<char>>, i: int, acc: WebpAcc, a: WebpDssimArgsView, flag: Seq<char>)
    requires
        0 <= i,
        flag == "--input"@ || flag == "--output"@,
        webp_parse(toks, i, acc) == Ok::<Parsed<WebpDssimArgsView>, CliErrorView>(Parsed::Run(a)),
        acc.quality matches Some(q) ==> q <= 100,
    ensures
        a.quality is Some != a.preset is Some,
        a.quality matches Some(q) ==> q <= 100,
        forall|k: int| #[trigger]
            webp_reads_flag_at(toks, i, k) ==> 0 <= k < toks.len() && webp_is_flag(toks[k]) && (
            webp_takes_value(toks[k]) ==> k + 1 < toks.len()),
        (exists|k: int|
            is_last_flag(toks, i, flag, k) && k + 1 < toks.len() && toks[k + 1] == run_value(a, flag))
            || ((forall|k: int| #[trigger] webp_reads_flag_at(toks, i, k) ==> toks[k] != flag)
            && acc_value(acc, flag) == Some(run_value(a, flag))),
    decreases toks.len() - i,
{
    if i >= toks.len() {
        assert forall|k: int| #[trigger] webp_reads_flag_at(toks, i, k) implies false by {}
    } else {
        let t = toks[i];
        let n = webp_next(toks, i);
        let acc2 = webp_step_acc(toks, i, acc);
        assert(webp_is_flag(t) && (webp_takes_value(t) ==> i + 1 < toks.len()));
        assert(webp_parse(toks, i, acc) == webp_parse(toks, n, acc2));
        assert(acc2.quality matches Some(q) ==> q <= 100);
        lemma_webp_run(toks, n, acc2, a, flag);
        assert forall|k: int| #[trigger] webp_reads_flag_at(toks, i, k) implies k == i
            || webp_reads_flag_at(toks, n, k) by {}
        if exists|k: int|
            is_last_flag(toks, n, flag, k) && k + 1 < toks.len() && toks[k + 1] == run_value(a, flag) {
            let k = choose|k: int|
                is_last_flag(toks, n, flag, k) && k + 1 < toks.len() && toks[k + 1] == run_value(a, flag);
            assert(webp_reads_flag_at(toks, i, k));
            assert forall|j: int| k < j && #[trigger] webp_reads_flag_at(toks, i, j) implies toks[j]
                != flag by {
                assert(webp_reads_flag_at(toks, n, j));
            }
            assert(is_last_flag(toks, i, flag, k));
        } else if t == flag {
            assert(webp_reads_flag_at(toks, i, i));
            assert forall|j: int| i < j && #[trigger] webp_reads_flag_at(toks, i, j) implies toks[j]
                != flag by {
                assert(webp_reads_flag_at(toks, n, j));
            }
            assert(is_last_flag(toks, i, flag, i));
        }
    }
}

/// What an accepted `webp-dssim` command line holds: exactly one of a
/// quality and a preset, a quality of at most 100, only known flags, and
/// as input and output directories the values after the last `--input`
/// and the last `--output`.
pub proof fn webp_runs_are_well_formed(toks: Seq<Seq<char>>, start: int, a: WebpDssimArgsView)
    requires
        0 <= start,
        webp_parse(toks, start, webp_init()) == Ok::<Parsed<WebpDssimArgsView>, CliErrorView>(
            Parsed::Run(a),
        ),
    ensures
        a.quality is Some != a.preset is Some,
        a.quality matches Some(q) ==> q <= 100,
        forall|k: int| #[trigger]
            webp_reads_flag_at(toks, start, k) ==> 0 <= k < toks.len() && webp_is_flag(toks[k]),
        exists|k: int| #[trigger]
            is_last_flag(toks, start, "--input"@, k) && k + 1 < toks.len() && toks[k + 1] == a.input_dir,
        exists|k: int| #[trigger]
            is_last_flag(toks, start, "--output"@, k) && k + 1 < toks.len() && toks[k + 1] == a.output_dir,
{
    reveal_strlit("--input");
    reveal_strlit("--output");
    assert("--output"@ != "--input"@) by {
        assert("--output"@.len() != "--input"@.len());
    }
    lemma_webp_run(toks, start, webp_init(), a, "--input"@);
    lemma_webp_run(toks, start, webp_init(), a, "--output"@);
    assert(run_value(a, "--output"@) == a.output_dir);
}

pub open spec fn webp_acc(
    input: Option<String>,
    output: Option<String>,
    quality: Option<u8>,
    preset: Option<DssimPreset>,
    size: Option<String>,
    crop: bool,
    recursive: bool,
) -> WebpAcc {
    WebpAcc {
        input: input.deep_view(),
        output: output.deep_view(),
        quality,
        preset,
        size: size.deep_view(),
        crop,
        recursive,
    }
}

impl WebpDssimArgs {
    /// The `webp-dssim` arguments, read from `args[start..]`.
    pub fn parse_from(args: &Vec<String>, start: usize) -> (r: Result<
        Parsed<WebpDssimArgs>,
        CliError,
    >)
        ensures
            match r {
                Ok(p) => webp_parse(strings_view(args@), start as int, webp_init()) == Ok::<
                    Parsed<WebpDssimArgsView>,
                    CliErrorView,
                >(p@),
                Err(e) => webp_parse(strings_view(args@), start as int, webp_init()) == Err::<
                    Parsed<WebpDssimArgsView>,
                    CliErrorView,
                >(e@),
            },
    {
        let ghost toks = strings_view(args@);
        let n = args.len();
        let mut input: Option<String> = None;
        let mut output: Option<String> = None;
        let mut quality: Option<u8> = None;
        let mut preset: Option<DssimPreset> = None;
        let mut size: Option<String> = None;
        let mut crop = false;
        let mut recursive = false;
        let mut i: usize = start;
        if i > n {
            i = n;
        }
        while i < n
            invariant
                n == args.len(),
                toks == strings_view(args@),
                i <= n,
                webp_parse(toks, start as int, webp_init()) == webp_parse(
                    toks,
                    i as int,
                    webp_acc(input, output, quality, preset, size, crop, recursive),
                ),
            decreases n - i,
        {
            let a = args[i].as_str();
            let has_value = i + 1 < n;
            assert(toks[i as int] == a@);
            if has_value {
                assert(toks[i + 1] == args@[i + 1]@);
            }
            if str_eq(a, "--input") {
                if !has_value {
                    return Err(CliError::MissingValue(a.to_owned()));
                }
                input = Some(args[i + 1].clone());
                i = i + 2;
            } else if str_eq(a, "--output") {
                if !has_value {
                    return Err(CliError::MissingValue(a.to_owned()));
                }
                output = Some(args[i + 1].clone());
                i = i + 2;
            } else if str_eq(a, "--quality") {
                if !has_value {
                    return Err(CliError::MissingValue(a.to_owned()));
                }
                match parse_quality_value(args[i + 1].as_str()) {
                    Ok(q) => {
                        quality = Some(q);
                    },
                    Err(e) => {
                        return Err(e);
                    },
                }
                i = i + 2;
            } else if str_eq(a, "--preset") {
                if !has_value {
                    return Err(CliError::MissingValue(a.to_owned()));
                }
                match parse_dssim_preset(args[i + 1].as_str()) {
                    Ok(p) => {
                        preset = Some(p);
                    },
                    Err(e) => {
                        return Err(e);
                    },
                }
                i = i + 2;
            } else if str_eq(a, "--size") {
                if !has_value {
                    return Err(CliError::MissingValue(a.to_owned()));
                }
                size = Some(args[i + 1].clone());
                i = i + 2;
            } else if str_eq(a, "--crop") {
                crop = true;
                i = i + 1;
            } else if str_eq(a, "--recursive") {
                recursive = true;
                i = i + 1;
            } else if str_eq(a, "-h") || str_eq(a, "--help") {
                return Ok(Parsed::Help);
            } else {
                return Err(CliError::UnknownArgument(a.to_owned()));
            }
        }
        match (input, output) {
            (None, _) => Err(CliError::MissingInput),
            (Some(_), None) => Err(CliError::MissingOutput),
            (Some(input_dir), Some(output_dir)) => {
                if quality.is_none() && preset.is_none() {
                    return Err(CliError::MissingQualityOrPreset);
                }
                if quality.is_some() && preset.is_some() {
                    return Err(CliError::QualityAndPreset);
                }
                Ok(
                    Parsed::Run(
                        WebpDssimArgs {
                            input_dir,
                            output_dir,
                            quality,
                            preset,
                            size,
                            crop,
                            recursive,
                        },
                    ),
                )
            },
        }
    }
}

/// What the tool's command line asks for.
pub enum CommandLine {
    /// No arguments: print the usage text and fail.
    Usage,
    /// The main command.
    Main(Result<Parsed<Args>, CliError>),
    /// The `webp-dssim` command.
    WebpDssim(Result<Parsed<WebpDssimArgs>, CliError>),
}

/// The tool's command line `args` (without the program name): no argument
/// asks for the usage text; a first argument `webp-dssim` selects that
/// command, read from the second argument on; otherwise every argument is
/// the main command's.
pub fn parse_command_line(args: &Vec<String>) -> (r: CommandLine)
    ensures
        args.len() == 0 ==> r is Usage,
        args.len() > 0 && args@[0]@ == "webp-dssim"@ ==> match r {
            CommandLine::WebpDssim(Ok(p)) => webp_parse(strings_view(args@), 1, webp_init())
                == Ok::<Parsed<WebpDssimArgsView>, CliErrorView>(p@),
            CommandLine::WebpDssim(Err(e)) => webp_parse(strings_view(args@), 1, webp_init())
                == Err::<Parsed<WebpDssimArgsView>, CliErrorView>(e@),
            _ => false,
        },
        args.len() > 0 && args@[0]@ != "webp-dssim"@ ==> match r {
            CommandLine::Main(Ok(p)) => main_parse(strings_view(args@), 0, main_init()) == Ok::<
                Parsed<ArgsView>,
                CliErrorView,
            >(p@),
            CommandLine::Main(Err(e)) => main_parse(strings_view(args@), 0, main_init()) == Err::<
                Parsed<ArgsView>,
                CliErrorView,
            >(e@),
            _ => false,
        },
{
    if args.len() == 0 {
        CommandLine::Usage
    } else if str_eq(args[0].as_str(), "webp-dssim") {
        CommandLine::WebpDssim(WebpDssimArgs::parse_from(args, 1))
    } else {
        CommandLine::Main(Args::parse_from(args, 0))
    }
}


// ---------------------------------------------------------------------
// Runs
// ---------------------------------------------------------------------

/// What the main command does for every file: the output format (in lower
/// case), the two fixed qualities, and which dSSIM presets run.
pub struct RunPlan {
    pub output_format: String,
    pub quality_high: FixedQualitySpec,
    pub quality_medium: FixedQualitySpec,
    pub run_high: bool,
    pub run_medium: bool,
}

/// The plan of a main-command run: the output format, in lower case, must
/// be one the tool writes.
pub fn prepare_run(args: &Args) -> (r: Result<RunPlan, CliError>)
    ensures
        match r {
            Ok(p) => {
                &&& is_supported_output_format_spec(ascii_lower(args@.output_format))
                &&& p.output_format@ == ascii_lower(args@.output_format)
                &&& fixed_quality_matches(p.output_format@, FIXED_QUALITY_HIGH, p.quality_high)
                &&& fixed_quality_matches(p.output_format@, FIXED_QUALITY_MEDIUM, p.quality_medium)
                &&& p.run_high == args.dssim_presets.high
                &&& p.run_medium == args.dssim_presets.medium
            },
            Err(e) => {
                &&& !is_supported_output_format_spec(ascii_lower(args@.output_format))
                &&& e@ == CliErrorView::UnsupportedOutputFormat(ascii_lower(args@.output_format))
            },
        },
{
    let output_format = normalize_format(args.output_format.as_str());
    if !is_supported_output_format(output_format.as_str()) {
        return Err(CliError::UnsupportedOutputFormat(output_format));
    }
    let quality_high = match fixed_quality_spec(output_format.as_str(), FIXED_QUALITY_HIGH) {
        Ok(q) => q,
        Err(e) => return Err(e),
    };
    let quality_medium = match fixed_quality_spec(output_format.as_str(), FIXED_QUALITY_MEDIUM) {
        Ok(q) => q,
        Err(e) => return Err(e),
    };
    Ok(RunPlan {
        output_format,
        quality_high,
        quality_medium,
        run_high: args.dssim_presets.high,
        run_medium: args.dssim_presets.medium,
    })
}

/// The options every run starts from: the defaults, with the requested
/// size (if any) and crop.
pub open spec fn run_base_options(size: Option<Seq<char>>, crop: bool) -> EncodeOptionsView {
    let o = match size {
        Some(s) => with_size(default_options(), s),
        None => default_options(),
    };
    with_crop(o, crop)
}

fn base_builder(size: &Option<String>, crop: bool) -> (b: EncodeOptionsBuilder)
    ensures
        b@ == run_base_options(size.deep_view(), crop),
        b@.crop == crop,
{
    let mut builder = EncodeOptionsBuilder::new();
    match size {
        Some(s) => {
            builder = builder.size(s.as_str());
        },
        None => {},
    }
    builder.crop(crop)
}

/// Options of a fixed-quality run.
pub fn build_fixed_opts(args: &Args, quality: FixedQualitySpec) -> (r: EncodeOptions)
    ensures
        r@ == match quality {
            FixedQualitySpec::Index(i) => with_quality_idx(run_base_options(args@.size, args.crop), i),
            FixedQualitySpec::Value(v) => with_quality_value(run_base_options(args@.size, args.crop), v),
        },
        r.crop == args.crop,
{
    let builder = base_builder(&args.size, args.crop);
    let builder = match quality {
        FixedQualitySpec::Index(i) => builder.quality_idx(i),
        FixedQualitySpec::Value(v) => builder.quality_value(v),
    };
    builder.build()
}

/// Options of the high dSSIM preset run.
pub fn build_high_opts(args: &Args) -> (r: EncodeOptions)
    ensures
        r@ == with_threshold(run_base_options(args@.size, args.crop), Some(HIGH_QUALITY_THRESHOLD_BITS)),
        r.crop == args.crop,
{
    base_builder(&args.size, args.crop).high().build()
}

/// Options of the medium dSSIM preset run.
pub fn build_medium_opts(args: &Args) -> (r: EncodeOptions)
    ensures
        r@ == with_threshold(run_base_options(args@.size, args.crop), Some(MEDIUM_QUALITY_THRESHOLD_BITS)),
        r.crop == args.crop,
{
    base_builder(&args.size, args.crop).medium().build()
}

/// Options of a `webp-dssim` encode: a fixed quality value if one was
/// given, otherwise the preset's threshold.
pub open spec fn webp_options_spec(a: WebpDssimArgsView) -> EncodeOptionsView {
    let base = run_base_options(a.size, a.crop);
    match a.quality {
        Some(q) => with_quality_value(base, q),
        None => match a.preset {
            Some(DssimPreset::High) => with_threshold(base, Some(HIGH_QUALITY_THRESHOLD_BITS)),
            Some(DssimPreset::Medium) => with_threshold(base, Some(MEDIUM_QUALITY_THRESHOLD_BITS)),
            None => base,
        },
    }
}

pub fn build_webp_opts(args: &WebpDssimArgs) -> (r: EncodeOptions)
    ensures
        r@ == webp_options_spec(args@),
        r.crop == args.crop,
{
    let builder = base_builder(&args.size, args.crop);
    let builder = match args.quality {
        Some(q) => builder.quality_value(q),
        None => match args.preset {
            Some(DssimPreset::High) => builder.high(),
            Some(DssimPreset::Medium) => builder.medium(),
            None => builder,
        },
    };
    builder.build()
}

/// A `webp-dssim` run refuses a quality above 100 before any file.
pub fn check_webp_quality(args: &WebpDssimArgs) -> (r: Result<(), CliError>)
    ensures
        match r {
            Ok(_) => !(args.quality matches Some(q) && q > 100),
            Err(e) => (args.quality matches Some(q) && q > 100) && e@ == CliErrorView::QualityOutOfRange,
        },
{
    match args.quality {
        Some(q) => if q > 100 {
            Err(CliError::QualityOutOfRange)
        } else {
            Ok(())
        },
        None => Ok(()),
    }
}

/// How `webp-dssim` encodes one file.
#[derive(Clone, Copy, PartialEq, Eq, Structural, Debug)]
pub enum WebpRun {
    /// One encode at this quality value.
    Fixed(u8),
    /// The WebP quality sweep at this threshold (an `f32` bit pattern).
    Adaptive(u32),
}

/// How `webp-dssim` encodes a file: at the fixed quality if one was given,
/// otherwise by sweeping at the preset's threshold; with neither, the file
/// is refused.
pub fn webp_run_mode(args: &WebpDssimArgs) -> (r: Result<WebpRun, CliError>)
    ensures
        match args.quality {
            Some(q) => r == Ok::<WebpRun, CliError>(WebpRun::Fixed(q)),
            None => match args.preset {
                Some(DssimPreset::High) => r == Ok::<WebpRun, CliError>(
                    WebpRun::Adaptive(HIGH_QUALITY_THRESHOLD_BITS),
                ),
                Some(DssimPreset::Medium) => r == Ok::<WebpRun, CliError>(
                    WebpRun::Adaptive(MEDIUM_QUALITY_THRESHOLD_BITS),
                ),
                None => r matches Err(e) && e@ == CliErrorView::MissingQualityOrPreset,
            },
        },
{
    match args.quality {
        Some(q) => Ok(WebpRun::Fixed(q)),
        None => match args.preset {
            Some(DssimPreset::High) => Ok(WebpRun::Adaptive(HIGH_QUALITY_THRESHOLD_BITS)),
            Some(DssimPreset::Medium) => Ok(WebpRun::Adaptive(MEDIUM_QUALITY_THRESHOLD_BITS)),
            None => Err(CliError::MissingQualityOrPreset),
        },
    }
}

/// The size that the `webp-dssim` sweep resizes to: the requested one, or
/// `>` (no resize).
pub fn webp_sweep_size(args: &WebpDssimArgs) -> (r: String)
    ensures
        r@ == match args@.size {
            Some(s) => s,
            None => ">"@,
        },
{
    match &args.size {
        Some(s) => s.clone(),
        None => ">".to_owned(),
    }
}


// ---------------------------------------------------------------------
// Laws of the command-line tool
// ---------------------------------------------------------------------

/// The tool accepts as output format exactly the lower-case names of the
/// library's output formats; in particular every format with a quality
/// list, and WebP.
pub proof fn supported_output_formats_are_the_output_formats(f: Seq<char>)
    ensures
        is_supported_output_format_spec(f) <==> (output_format_of(f) is Some && ascii_lower(f) == f),
        quality_list_spec(f) is Some || f == "webp"@ ==> is_supported_output_format_spec(f),
{
    reveal_strlit("jxl");
    reveal_strlit("jpg");
    reveal_strlit("jpeg");
    reveal_strlit("webp");
    reveal_strlit("heic");
    reveal_strlit("heif");
    reveal_strlit("png");
    if f == "jxl"@ || f == "jpg"@ || f == "jpeg"@ || f == "webp"@ || f == "heic"@ || f == "heif"@ {
        assert forall|i: int| 0 <= i < f.len() implies #[trigger] ascii_lower(f)[i] == f[i] by {
            assert(!crate::text::is_ascii_upper(f[i]));
        }
        assert(ascii_lower(f) =~= f);
    }
}

/// A file is picked exactly when its extension names an input format of
/// the library, in any case; the format it is read as is that extension in
/// lower case, which names the same format.
pub proof fn input_files_are_the_input_formats(p: Seq<char>)
    ensures
        input_format_for_path_spec(p) is Some <==> (extension_spec(p) matches Some(e)
            && input_format_of(e) is Some),
        input_format_for_path_spec(p) matches Some(x) ==> (extension_spec(p) matches Some(e) && x
            == ascii_lower(e) && input_format_of(x) == input_format_of(e)),
{
    if let Some(e) = extension_spec(p) {
        crate::format::format_names_ignore_case(e);
    }
}

/// Whether some part of `parts`, trimmed, is `w`.
pub open spec fn names_part(parts: Seq<Seq<char>>, w: Seq<char>) -> bool {
    exists|i: int| 0 <= i < parts.len() && #[trigger] trim(parts[i]) == w
}

/// A preset list read after `acc` switches a preset on exactly when it was
/// on already or some part names it.
proof fn lemma_presets_scan(parts: Seq<Seq<char>>, acc: DssimPresets, p: DssimPresets)
    requires
        presets_scan(parts, acc) == Ok::<DssimPresets, CliErrorView>(p),
    ensures
        p.high == (acc.high || names_part(parts, "high"@)),
        p.medium == (acc.medium || names_part(parts, "medium"@)),
    decreases parts.len(),
{
    reveal_strlit("high");
    reveal_strlit("medium");
    if parts.len() > 0 {
        let rest = parts.drop_first();
        let part = trim(parts[0]);
        let acc2 = if part == "high"@ {
            DssimPresets { high: true, ..acc }
        } else if part == "medium"@ {
            DssimPresets { medium: true, ..acc }
        } else {
            acc
        };
        assert(presets_scan(rest, acc2) == presets_scan(parts, acc));
        lemma_presets_scan(rest, acc2, p);
        assert forall|w: Seq<char>| names_part(parts, w) == (trim(parts[0]) == w || names_part(rest, w)) by {
            if names_part(rest, w) {
                let j = choose|j: int| 0 <= j < rest.len() && #[trigger] trim(rest[j]) == w;
                assert(trim(parts[j + 1]) == w);
            }
            if names_part(parts, w) && trim(parts[0]) != w {
                let j = choose|j: int| 0 <= j < parts.len() && #[trigger] trim(parts[j]) == w;
                assert(trim(rest[j - 1]) == w);
            }
            if trim(parts[0]) == w {
                assert(trim(parts[0]) == w);
            }
        }
    }
}

/// `--dssim-presets` selects a preset exactly when the list is `both` or
/// `all`, or some comma-separated part of it names that preset: the order
/// of the list does not matter, and naming one preset never drops the
/// other.
pub proof fn dssim_presets_are_the_named_ones(s: Seq<char>, p: DssimPresets)
    requires
        dssim_presets_spec(s) == Ok::<DssimPresets, CliErrorView>(p),
    ensures
        ({
            let l = ascii_lower(s);
            let parts = split_on(l, ',');
            &&& p.high == (l == "both"@ || l == "all"@ || names_part(parts, "high"@))
            &&& p.medium == (l == "both"@ || l == "all"@ || names_part(parts, "medium"@))
        }),
{
    let l = ascii_lower(s);
    if !(l == "both"@ || l == "all"@) {
        let r = presets_scan(split_on(l, ','), DssimPresets { high: false, medium: false });
        lemma_presets_scan(split_on(l, ','), DssimPresets { high: false, medium: false }, r->Ok_0);
    }
}

/// Every run encodes with the size and crop it was asked for: the base
/// options carry them, and the fixed-quality, preset and `webp-dssim`
/// options keep them; the rest of the base options are the defaults.
pub proof fn runs_keep_requested_size_and_crop(
    size: Option<Seq<char>>,
    crop: bool,
    idx: usize,
    q: u8,
    t: Option<u32>,
    a: WebpDssimArgsView,
)
    ensures
        run_base_options(size, crop).crop == crop,
        run_base_options(size, crop).size == match size {
            Some(s) => s,
            None => default_options().size,
        },
        run_base_options(size, crop).threshold == default_options().threshold,
        run_base_options(size, crop).sharp_yuv == default_options().sharp_yuv,
        run_base_options(size, crop).watermark == default_options().watermark,
        with_quality_idx(run_base_options(size, crop), idx).crop == crop,
        with_quality_value(run_base_options(size, crop), q).crop == crop,
        with_threshold(run_base_options(size, crop), t).crop == crop,
        webp_options_spec(a).crop == a.crop,
        a.size matches Some(s) ==> webp_options_spec(a).size == s,
        a.quality matches Some(v) ==> webp_options_spec(a).quality_value == Some(v),
{
}

} // verus!
