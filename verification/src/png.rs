//! PNG files: resizing with the back end, reading an image's size from
//! `vipsheader`, and PNG bytes as a conversion without decoding.
use vstd::prelude::*;
use crate::command::{ArgView, InvocationView, Invocation, OnFailure, inv, invocation, path, text, text_of};
use crate::format::Backend;
use crate::Corner;
use crate::text::{i64_decimal, signed_decimal, chars_of, lines_chars, lines_of, parse_i32, parse_i32_chars, pieces_view, split_chars, split_on, trim, trim_chars, trim_end_char, trim_end_matching, trim_str};
use crate::util::{is_prefix_of, starts_with, PngConversion, PngConversionView, TempStore};

verus! {

/// The target of a `WIDTHxHEIGHT` size, as the libvips path of `resize`
/// reads it: surrounding white space and trailing `>` are ignored, the
/// text before the first `x` is the width and the text between the first
/// and second `x` the height, each an `i32`.
pub open spec fn parse_size_spec(size: Seq<char>) -> Option<(i32, i32)> {
    let clean = trim_end_char(trim(size), '>');
    let parts = split_on(clean, 'x');
    if parts.len() < 2 {
        None
    } else {
        match (parse_i32(parts[0]), parse_i32(parts[1])) {
            (Some(w), Some(h)) => Some((w, h)),
            _ => None,
        }
    }
}

/// The width and height that `size` asks for, if it spells them.
pub fn parse_size(size: &str) -> (r: Option<(i32, i32)>)
    ensures
        r == parse_size_spec(size@),
{
    let clean = trim_end_matching(&trim_str(size), '>');
    let parts = split_chars(&clean, 'x');
    if parts.len() < 2 {
        return None;
    }
    assert(parts@[0]@ == split_on(clean@, 'x')[0]);
    assert(parts@[1]@ == split_on(clean@, 'x')[1]);
    let w = parse_i32_chars(&parts[0]);
    let h = parse_i32_chars(&parts[1]);
    match (w, h) {
        (Some(w), Some(h)) => Some((w, h)),
        _ => None,
    }
}

/// `vipsheader -a <image>`: prints the header fields of slot 0.
pub open spec fn header_command_spec() -> InvocationView {
    inv(
        "/usr/bin/vipsheader"@,
        seq![ArgView::Text("-a"@), ArgView::Path(0)],
        OnFailure::Ignore,
        "vipsheader"@,
    )
}

/// The command whose output tells an image's size.
pub fn header_command() -> (r: Invocation)
    ensures
        r@ == header_command_spec(),
{
    let args = vec![text("-a"), path(0)];
    let r = invocation("/usr/bin/vipsheader", args, OnFailure::Ignore, "vipsheader");
    assert(r@.args =~= header_command_spec().args);
    r
}

/// One line of `vipsheader` output applied to the width and height read so
/// far: a `width:` line sets the width, a `height:` line the height, each to
/// the `i32` that follows the label (or to nothing, where none follows).
pub open spec fn header_line(line: Seq<char>, w: Option<i32>, h: Option<i32>) -> (
    Option<i32>,
    Option<i32>,
) {
    if is_prefix_of("width:"@, line) {
        (parse_i32(trim(line.skip("width:"@.len() as int))), h)
    } else if is_prefix_of("height:"@, line) {
        (w, parse_i32(trim(line.skip("height:"@.len() as int))))
    } else {
        (w, h)
    }
}

/// The lines of `vipsheader` output read in order until both the width and
/// the height are known.
pub open spec fn header_scan(lines: Seq<Seq<char>>, w: Option<i32>, h: Option<i32>) -> (
    Option<i32>,
    Option<i32>,
)
    decreases lines.len(),
{
    if lines.len() == 0 {
        (w, h)
    } else {
        let (w2, h2) = header_line(lines[0], w, h);
        if w2 is Some && h2 is Some {
            (w2, h2)
        } else {
            header_scan(lines.drop_first(), w2, h2)
        }
    }
}

/// The image size that `vipsheader` output tells, if it tells both the
/// width and the height.
pub open spec fn image_size_spec(output: Seq<char>) -> Option<(i32, i32)> {
    match header_scan(lines_of(output), None, None) {
        (Some(w), Some(h)) => Some((w, h)),
        _ => None,
    }
}

/// The value after a header label, if the line carries that label.
fn labelled_value(line: &Vec<char>, label: &str) -> (r: Option<Option<i32>>)
    ensures
        match r {
            Some(v) => is_prefix_of(label@, line@) && v == parse_i32(
                trim(line@.skip(label@.len() as int)),
            ),
            None => !is_prefix_of(label@, line@),
        },
{
    let l = chars_of(label);
    if !starts_with(line, &l) {
        return None;
    }
    let mut rest: Vec<char> = Vec::new();
    let mut k: usize = l.len();
    while k < line.len()
        invariant
            l.len() <= k <= line.len(),
            rest@ == line@.subrange(l.len() as int, k as int),
        decreases line.len() - k,
    {
        rest.push(line[k]);
        assert(line@.subrange(l.len() as int, k + 1) =~= line@.subrange(l.len() as int, k as int).push(
            line@[k as int],
        ));
        k = k + 1;
    }
    assert(rest@ =~= line@.skip(label@.len() as int));
    Some(parse_i32_chars(&trim_chars(&rest)))
}

/// The image size that the `vipsheader` output `output` tells.
pub fn image_size(output: &str) -> (r: Option<(i32, i32)>)
    ensures
        r == image_size_spec(output@),
{
    let lines = lines_chars(&chars_of(output));
    let ghost all = pieces_view(lines@);
    let mut w: Option<i32> = None;
    let mut h: Option<i32> = None;
    let mut i: usize = 0;
    assert(all.skip(0) =~= all);
    while i < lines.len()
        invariant
            i <= lines.len(),
            all == pieces_view(lines@),
            all == lines_of(output@),
            header_scan(all, None, None) == header_scan(all.skip(i as int), w, h),
        decreases lines.len() - i,
    {
        let ghost rest = all.skip(i as int);
        let ghost w0 = w;
        let ghost h0 = h;
        assert(rest[0] == lines@[i as int]@);
        assert(rest.drop_first() =~= all.skip(i + 1));
        match labelled_value(&lines[i], "width:") {
            Some(v) => {
                w = v;
            },
            None => match labelled_value(&lines[i], "height:") {
                Some(v) => {
                    h = v;
                },
                None => {},
            },
        }
        assert(header_line(rest[0], w0, h0) == (w, h));
        if let (Some(wv), Some(hv)) = (w, h) {
            assert(header_scan(rest, w0, h0) == (w, h));
            return Some((wv, hv));
        }
        assert(header_scan(rest, w0, h0) == header_scan(all.skip(i + 1), w, h));
        i = i + 1;
    }
    match (w, h) {
        (Some(w), Some(h)) => Some((w, h)),
        _ => None,
    }
}

/// Whether an image of size `actual` already fits within `target`.
pub open spec fn fits_within_spec(target: (i32, i32), actual: (i32, i32)) -> bool {
    actual.0 <= target.0 && actual.1 <= target.1
}

/// The resize command: `vipsthumbnail` with libvips, `convert -resize`
/// (shrinking only) with ImageMagick; with `crop`, the image is cut to the
/// requested box.  The input is slot 0, the output slot 1.
pub open spec fn resize_command_spec(size: Seq<char>, crop: bool, backend: Backend) -> InvocationView {
    match backend {
        Backend::Vips => inv(
            "/usr/bin/vipsthumbnail"@,
            seq![
                ArgView::Path(0),
                ArgView::Text("--size"@),
                ArgView::Text(size),
                ArgView::Text("-o"@),
                ArgView::Path(1),
            ] + if crop {
                seq![ArgView::Text("--crop"@)]
            } else {
                Seq::<ArgView>::empty()
            },
            OnFailure::Abort,
            "png::resize(vips)"@,
        ),
        Backend::Magick => inv(
            "/usr/bin/convert"@,
            seq![ArgView::Text("-resize"@), ArgView::Text(size + ">"@)] + if crop {
                seq![
                    ArgView::Text("-gravity"@),
                    ArgView::Text("Center"@),
                    ArgView::Text("-extent"@),
                    ArgView::Text(size + "+0+0"@),
                ]
            } else {
                Seq::<ArgView>::empty()
            } + seq![ArgView::Path(0), ArgView::Path(1)],
            OnFailure::Abort,
            "png::resize(magick)"@,
        ),
    }
}

/// A step of a resize.
#[derive(Clone, Copy, PartialEq, Eq, Structural, Debug)]
pub enum ResizeStep {
    /// No resize is needed: the input itself is the result, and no file is
    /// made.
    KeepInput,
    /// Measure the input with `header_command`, then take the step that
    /// `after_probe` gives for this target and the measured size.
    Probe(i32, i32),
    /// Make a fresh `mktemp` PNG (slot 1) and run the resize command from
    /// the input (slot 0) into it; that file is the result.  This is the
    /// only step that makes a file.
    Thumbnail,
}

/// The size `>` asks for no resize at all.
pub open spec fn is_no_resize(size: Seq<char>) -> bool {
    size == ">"@
}

/// The first step of a resize to `size`: none for `>`; with libvips, a
/// probe when the size spells a target; otherwise the resize command.
pub open spec fn resize_first_spec(size: Seq<char>, backend: Backend) -> ResizeStep {
    if is_no_resize(size) {
        ResizeStep::KeepInput
    } else {
        match backend {
            Backend::Vips => match parse_size_spec(size) {
                Some((w, h)) => ResizeStep::Probe(w, h),
                None => ResizeStep::Thumbnail,
            },
            Backend::Magick => ResizeStep::Thumbnail,
        }
    }
}

/// How a PNG is resized: its first step, and the command that a
/// `Thumbnail` step runs.
pub struct ResizePlan {
    pub first: ResizeStep,
    pub command: Invocation,
}

/// The plan for resizing a PNG to `size`.
pub fn resize(size: &str, crop: bool, backend: Backend) -> (r: ResizePlan)
    ensures
        r.first == resize_first_spec(size@, backend),
        r.command@ == resize_command_spec(size@, crop, backend),
{
    let no_resize = crate::text::str_eq(size, ">");
    match backend {
        Backend::Vips => {
            let mut args = vec![path(0), text("--size"), text(size), text("-o"), path(1)];
            if crop {
                args.push(text("--crop"));
            }
            let command = invocation("/usr/bin/vipsthumbnail", args, OnFailure::Abort, "png::resize(vips)");
            assert(command@.args =~= resize_command_spec(size@, crop, backend).args);
            let first = if no_resize {
                ResizeStep::KeepInput
            } else {
                match parse_size(size) {
                    Some((w, h)) => ResizeStep::Probe(w, h),
                    None => ResizeStep::Thumbnail,
                }
            };
            ResizePlan { first, command }
        },
        Backend::Magick => {
            let mut shrink = size.to_owned();
            shrink.append(">");
            let mut args = vec![text("-resize"), text_of(shrink)];
            if crop {
                let mut extent = size.to_owned();
                extent.append("+0+0");
                args.push(text("-gravity"));
                args.push(text("Center"));
                args.push(text("-extent"));
                args.push(text_of(extent));
            }
            args.push(path(0));
            args.push(path(1));
            let command = invocation("/usr/bin/convert", args, OnFailure::Abort, "png::resize(magick)");
            assert(command@.args =~= resize_command_spec(size@, crop, backend).args);
            let first = if no_resize {
                ResizeStep::KeepInput
            } else {
                ResizeStep::Thumbnail
            };
            ResizePlan { first, command }
        },
    }
}

/// The step after a probe: the input is kept when its size is known and
/// fits within the target; otherwise the resize command runs.
pub open spec fn after_probe_spec(target: (i32, i32), image: Option<(i32, i32)>) -> ResizeStep {
    match image {
        Some(a) => if fits_within_spec(target, a) {
            ResizeStep::KeepInput
        } else {
            ResizeStep::Thumbnail
        },
        None => ResizeStep::Thumbnail,
    }
}

/// The step after measuring the input (`image`, where `header_command`
/// told a size).
pub fn after_probe(target: (i32, i32), image: Option<(i32, i32)>) -> (r: ResizeStep)
    ensures
        r == after_probe_spec(target, image),
{
    match image {
        Some(a) => if a.0 <= target.0 && a.1 <= target.1 {
            ResizeStep::KeepInput
        } else {
            ResizeStep::Thumbnail
        },
        None => ResizeStep::Thumbnail,
    }
}

/// The default size never makes a file: a resize to `>` keeps its input,
/// with either back end.
pub proof fn default_size_keeps_input(backend: Backend)
    ensures
        resize_first_spec(">"@, backend) == ResizeStep::KeepInput,
{
}

/// A resize keeps its input exactly when no resize is asked for, or when
/// the probed image fits within the target; only otherwise is a file made.
pub proof fn resize_makes_file_only_when_needed(
    size: Seq<char>,
    backend: Backend,
    image: Option<(i32, i32)>,
)
    ensures
        match resize_first_spec(size, backend) {
            ResizeStep::Probe(w, h) => (after_probe_spec((w, h), image) == ResizeStep::KeepInput)
                == (image matches Some(a) && a.0 <= w && a.1 <= h),
            ResizeStep::KeepInput => is_no_resize(size),
            ResizeStep::Thumbnail => !is_no_resize(size),
        },
{
}

/// PNG bytes go to a `mktemp` file, which is the PNG itself.
pub open spec fn conversion_spec() -> PngConversionView {
    PngConversionView {
        input_ext: "png"@,
        store: TempStore::Mktemp,
        decode: Seq::<InvocationView>::empty(),
        remove_input: false,
    }
}

/// How PNG bytes become a PNG file.
pub fn bytes_to_png() -> (r: PngConversion)
    ensures
        r@ == conversion_spec(),
{
    let r = PngConversion {
        input_ext: "png".to_owned(),
        store: TempStore::Mktemp,
        decode: Vec::new(),
        remove_input: false,
    };
    assert(r@.decode =~= Seq::<InvocationView>::empty());
    r
}


/// Where the watermark's top-left corner goes on a base image of
/// `base_w`x`base_h`, for a watermark of `mark_w`x`mark_h` kept `margin`
/// pixels from the two edges of `corner`.
pub open spec fn watermark_offset_spec(
    corner: Corner,
    base_w: int,
    base_h: int,
    mark_w: int,
    mark_h: int,
    margin: int,
) -> (int, int) {
    let right = base_w - mark_w - margin;
    let bottom = base_h - mark_h - margin;
    match corner {
        Corner::SouthEast => (right, bottom),
        Corner::SouthWest => (margin, bottom),
        Corner::NorthEast => (right, margin),
        Corner::NorthWest => (margin, margin),
    }
}

/// Where the watermark's top-left corner goes on the base image.
pub fn watermark_offset(corner: Corner, base: (i32, i32), mark: (i32, i32), margin: i32) -> (r: (
    i64,
    i64,
))
    ensures
        (r.0 as int, r.1 as int) == watermark_offset_spec(
            corner,
            base.0 as int,
            base.1 as int,
            mark.0 as int,
            mark.1 as int,
            margin as int,
        ),
{
    let right: i64 = (base.0 as i64) - (mark.0 as i64) - (margin as i64);
    let bottom: i64 = (base.1 as i64) - (mark.1 as i64) - (margin as i64);
    match corner {
        Corner::SouthEast => (right, bottom),
        Corner::SouthWest => (margin as i64, bottom),
        Corner::NorthEast => (right, margin as i64),
        Corner::NorthWest => (margin as i64, margin as i64),
    }
}

/// `vipsthumbnail <mark> --size <width>x -o <out>`: scales the watermark
/// image (slot 0) to `width` pixels wide into slot 1.
pub open spec fn watermark_scale_spec(width: i32) -> InvocationView {
    inv(
        "/usr/bin/vipsthumbnail"@,
        seq![
            ArgView::Path(0),
            ArgView::Text("--size"@),
            ArgView::Text(signed_decimal(width as int) + "x"@),
            ArgView::Text("-o"@),
            ArgView::Path(1),
        ],
        OnFailure::Abort,
        "png::watermark(scale)"@,
    )
}

/// The command that scales the watermark image to `width` pixels wide.
pub fn watermark_scale(width: i32) -> (r: Invocation)
    ensures
        r@ == watermark_scale_spec(width),
{
    let mut w = i64_decimal(width as i64);
    w.append("x");
    let args = vec![path(0), text("--size"), text_of(w), text("-o"), path(1)];
    let r = invocation("/usr/bin/vipsthumbnail", args, OnFailure::Abort, "png::watermark(scale)");
    assert(r@.args =~= watermark_scale_spec(width).args);
    r
}

/// `vips composite2 <base> <mark> <out> over --x <x> --y <y>`: lays the
/// watermark (slot 1) over the base image (slot 0) with its top-left corner
/// at (`x`, `y`), into slot 2.
pub open spec fn watermark_composite_spec(x: i64, y: i64) -> InvocationView {
    inv(
        "/usr/bin/vips"@,
        seq![
            ArgView::Text("composite2"@),
            ArgView::Path(0),
            ArgView::Path(1),
            ArgView::Path(2),
            ArgView::Text("over"@),
            ArgView::Text("--x"@),
            ArgView::Text(signed_decimal(x as int)),
            ArgView::Text("--y"@),
            ArgView::Text(signed_decimal(y as int)),
        ],
        OnFailure::Abort,
        "png::watermark()"@,
    )
}

/// The command that lays the watermark over the base image.
pub fn watermark_composite(x: i64, y: i64) -> (r: Invocation)
    ensures
        r@ == watermark_composite_spec(x, y),
{
    let args = vec![
        text("composite2"),
        path(0),
        path(1),
        path(2),
        text("over"),
        text("--x"),
        text_of(i64_decimal(x)),
        text("--y"),
        text_of(i64_decimal(y)),
    ];
    let r = invocation("/usr/bin/vips", args, OnFailure::Abort, "png::watermark()");
    assert(r@.args =~= watermark_composite_spec(x, y).args);
    r
}

} // verus!
