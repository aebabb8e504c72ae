//! WebP: `cwebp` encodes; `dwebp` or libvips decodes.
use vstd::prelude::*;
use crate::command::{ArgView, InvocationView, Invocation, OnFailure, inv, invocation, invocations_view, path, text, text_of};
use crate::format::Backend;
use crate::text::{decimal, u8_decimal};
use crate::util::{file_to_png_spec, PngConversion, PngConversionView, TempStore};

verus! {

/// The `cwebp` quality levels, from lowest to highest.
pub open spec fn quality_levels() -> Seq<u8> {
    seq![75u8, 80u8, 85u8, 90u8, 95u8, 99u8, 100u8]
}

/// The `cwebp` quality levels, from lowest to highest.
pub fn quality_list() -> (v: Vec<u8>)
    ensures
        v@ == quality_levels(),
{
    let v = vec![75u8, 80u8, 85u8, 90u8, 95u8, 99u8, 100u8];
    assert(v@ =~= quality_levels());
    v
}

/// `cwebp -q <quality> [-sharp_yuv] <png> -o <out>`: encodes the PNG in
/// slot 0 to the WebP file in slot 1, with sharp RGB to YUV conversion
/// where `sharp_yuv` holds.
pub open spec fn encode_spec(quality: u8, sharp_yuv: bool, name: Seq<char>) -> InvocationView {
    let head = seq![ArgView::Text("-q"@), ArgView::Text(decimal(quality as nat))];
    let sharp = if sharp_yuv {
        seq![ArgView::Text("-sharp_yuv"@)]
    } else {
        Seq::<ArgView>::empty()
    };
    inv(
        "/usr/bin/cwebp"@,
        head + sharp + seq![ArgView::Path(0), ArgView::Text("-o"@), ArgView::Path(1)],
        OnFailure::Abort,
        name,
    )
}

fn cwebp(quality: u8, sharp_yuv: bool, name: &str) -> (r: Invocation)
    ensures
        r@ == encode_spec(quality, sharp_yuv, name@),
{
    let mut args = vec![text("-q"), text_of(u8_decimal(quality))];
    if sharp_yuv {
        args.push(text("-sharp_yuv"));
    }
    args.push(path(0));
    args.push(text("-o"));
    args.push(path(1));
    let r = invocation("/usr/bin/cwebp", args, OnFailure::Abort, name);
    assert(r@.args =~= encode_spec(quality, sharp_yuv, name@).args);
    r
}

/// Encoding at the quality level with index `quality_idx`.
pub fn encode(quality_idx: usize, sharp_yuv: bool) -> (r: Invocation)
    requires
        quality_idx < 7,
    ensures
        r@ == encode_spec(quality_levels()[quality_idx as int], sharp_yuv, "webp::encode()"@),
{
    let levels = quality_list();
    cwebp(levels[quality_idx], sharp_yuv, "webp::encode()")
}

/// Encoding at the quality `quality`.
pub fn encode_quality(quality: u8, sharp_yuv: bool) -> (r: Invocation)
    ensures
        r@ == encode_spec(quality, sharp_yuv, "webp::encode_quality()"@),
{
    cwebp(quality, sharp_yuv, "webp::encode_quality()")
}

/// `dwebp <in> -o <out>`; a failure is reported and decoding goes on.
pub open spec fn dwebp_spec() -> InvocationView {
    inv(
        "/usr/bin/dwebp"@,
        seq![ArgView::Path(0), ArgView::Text("-o"@), ArgView::Path(1)],
        OnFailure::Report,
        "webp decode"@,
    )
}

/// The decoding commands of a back end: `dwebp` beside ImageMagick,
/// libvips' own converter otherwise.
pub open spec fn file_to_png_steps(backend: Backend) -> Seq<InvocationView> {
    match backend {
        Backend::Magick => seq![dwebp_spec()],
        Backend::Vips => seq![file_to_png_spec(Backend::Vips)],
    }
}

/// The commands that decode a WebP file (slot 0) to a PNG file (slot 1).
pub fn file_to_png(backend: Backend) -> (r: Vec<Invocation>)
    ensures
        invocations_view(r@) == file_to_png_steps(backend),
{
    match backend {
        Backend::Magick => {
            let args = vec![path(0), text("-o"), path(1)];
            let d = invocation("/usr/bin/dwebp", args, OnFailure::Report, "webp decode");
            assert(d@.args =~= dwebp_spec().args);
            let r = vec![d];
            assert(invocations_view(r@) =~= seq![dwebp_spec()]);
            r
        },
        Backend::Vips => {
            let r = vec![crate::util::file_to_png(Backend::Vips)];
            assert(invocations_view(r@) =~= seq![file_to_png_spec(Backend::Vips)]);
            r
        },
    }
}

/// WebP bytes go to a `mktemp` file, which is removed once decoded.
pub open spec fn conversion_spec(backend: Backend) -> PngConversionView {
    PngConversionView {
        input_ext: "webp"@,
        store: TempStore::Mktemp,
        decode: file_to_png_steps(backend),
        remove_input: true,
    }
}

/// How WebP bytes become a PNG file.
pub fn bytes_to_png(backend: Backend) -> (r: PngConversion)
    ensures
        r@ == conversion_spec(backend),
{
    PngConversion {
        input_ext: "webp".to_owned(),
        store: TempStore::Mktemp,
        decode: file_to_png(backend),
        remove_input: true,
    }
}

} // verus!
