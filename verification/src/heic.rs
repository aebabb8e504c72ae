//! HEIC/HEIF: `heif-enc` encodes; `heif-convert` or libvips decodes.
use vstd::prelude::*;
use crate::command::{ArgView, InvocationView, Invocation, OnFailure, inv, invocation, invocations_view, path, text, text_of};
use crate::format::Backend;
use crate::text::{decimal, u8_decimal};
use crate::util::{file_to_png_spec, PngConversion, PngConversionView, TempStore};

verus! {

/// The `heif-enc` quality levels, from lowest to highest.
pub open spec fn quality_levels() -> Seq<u8> {
    seq![65u8, 70u8, 75u8, 80u8, 85u8, 90u8, 95u8]
}

/// The `heif-enc` quality levels, from lowest to highest.
pub fn quality_list() -> (v: Vec<u8>)
    ensures
        v@ == quality_levels(),
{
    let v = vec![65u8, 70u8, 75u8, 80u8, 85u8, 90u8, 95u8];
    assert(v@ =~= quality_levels());
    v
}

/// `heif-enc -q <quality> <png> <out>`: encodes the PNG in slot 0 to the
/// HEIC file in slot 1.
pub open spec fn encode_spec(quality: u8, name: Seq<char>) -> InvocationView {
    inv(
        "/usr/bin/heif-enc"@,
        seq![ArgView::Text("-q"@), ArgView::Text(decimal(quality as nat)), ArgView::Path(0), ArgView::Path(1)],
        OnFailure::Abort,
        name,
    )
}

fn heif_enc(quality: u8, name: &str) -> (r: Invocation)
    ensures
        r@ == encode_spec(quality, name@),
{
    let args = vec![text("-q"), text_of(u8_decimal(quality)), path(0), path(1)];
    let r = invocation("/usr/bin/heif-enc", args, OnFailure::Abort, name);
    assert(r@.args =~= encode_spec(quality, name@).args);
    r
}

/// Encoding at the quality level with index `quality_idx`.
pub fn encode(quality_idx: usize) -> (r: Invocation)
    requires
        quality_idx < 7,
    ensures
        r@ == encode_spec(quality_levels()[quality_idx as int], "heic::encode()"@),
{
    let levels = quality_list();
    heif_enc(levels[quality_idx], "heic::encode()")
}

/// Encoding at the quality `quality`.
pub fn encode_quality(quality: u8) -> (r: Invocation)
    ensures
        r@ == encode_spec(quality, "heic::encode_quality()"@),
{
    heif_enc(quality, "heic::encode_quality()")
}

/// `heif-convert <in> <out>`; a failure is reported and decoding goes on.
pub open spec fn heif_convert_spec() -> InvocationView {
    inv(
        "/usr/bin/heif-convert"@,
        seq![ArgView::Path(0), ArgView::Path(1)],
        OnFailure::Report,
        "heic decode"@,
    )
}

/// `convert <out> -auto-orient <out>`: applies the EXIF orientation in
/// place; its outcome is ignored.
pub open spec fn orient_spec() -> InvocationView {
    inv(
        "/usr/bin/convert"@,
        seq![ArgView::Path(1), ArgView::Text("-auto-orient"@), ArgView::Path(1)],
        OnFailure::Ignore,
        "heic orientation"@,
    )
}

/// The decoding commands of a back end: `heif-convert` and an orientation
/// pass beside ImageMagick, libvips' own converter otherwise.
pub open spec fn file_to_png_steps(backend: Backend) -> Seq<InvocationView> {
    match backend {
        Backend::Magick => seq![heif_convert_spec(), orient_spec()],
        Backend::Vips => seq![file_to_png_spec(Backend::Vips)],
    }
}

/// The commands that decode a HEIC/HEIF file (slot 0) to a PNG file
/// (slot 1).
pub fn file_to_png(backend: Backend) -> (r: Vec<Invocation>)
    ensures
        invocations_view(r@) == file_to_png_steps(backend),
{
    match backend {
        Backend::Magick => {
            let a1 = vec![path(0), path(1)];
            let d = invocation("/usr/bin/heif-convert", a1, OnFailure::Report, "heic decode");
            assert(d@.args =~= heif_convert_spec().args);
            let a2 = vec![path(1), text("-auto-orient"), path(1)];
            let o = invocation("/usr/bin/convert", a2, OnFailure::Ignore, "heic orientation");
            assert(o@.args =~= orient_spec().args);
            let r = vec![d, o];
            assert(invocations_view(r@) =~= seq![heif_convert_spec(), orient_spec()]);
            r
        },
        Backend::Vips => {
            let r = vec![crate::util::file_to_png(Backend::Vips)];
            assert(invocations_view(r@) =~= seq![file_to_png_spec(Backend::Vips)]);
            r
        },
    }
}

/// HEIC bytes go to a temporary file that is removed when the conversion
/// ends.
pub open spec fn conversion_spec(backend: Backend) -> PngConversionView {
    PngConversionView {
        input_ext: "heic"@,
        store: TempStore::Scoped,
        decode: file_to_png_steps(backend),
        remove_input: false,
    }
}

/// How HEIC/HEIF bytes become a PNG file.
pub fn bytes_to_png(backend: Backend) -> (r: PngConversion)
    ensures
        r@ == conversion_spec(backend),
{
    PngConversion {
        input_ext: "heic".to_owned(),
        store: TempStore::Scoped,
        decode: file_to_png(backend),
        remove_input: false,
    }
}

} // verus!
