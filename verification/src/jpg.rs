//! JPEG: `cjpg` encodes; the back end's converter decodes.
use vstd::prelude::*;
use crate::command::{ArgView, InvocationView, Invocation, OnFailure, inv, invocation, invocations_view, path, text, text_of};
use crate::format::Backend;
use crate::text::{decimal, u8_decimal};
use crate::util::{file_to_png_spec, PngConversion, PngConversionView, TempStore};

verus! {

/// The `cjpg` quality levels, from lowest to highest.
pub open spec fn quality_levels() -> Seq<u8> {
    seq![65u8, 70u8, 75u8, 80u8, 85u8, 90u8, 95u8]
}

/// The `cjpg` quality levels, from lowest to highest.
pub fn quality_list() -> (v: Vec<u8>)
    ensures
        v@ == quality_levels(),
{
    let v = vec![65u8, 70u8, 75u8, 80u8, 85u8, 90u8, 95u8];
    assert(v@ =~= quality_levels());
    v
}

/// `cjpg -q <quality> <png> <out>`: encodes the PNG in slot 0 to the JPEG
/// file in slot 1.
pub open spec fn encode_spec(quality: u8, name: Seq<char>) -> InvocationView {
    inv(
        "/usr/bin/cjpg"@,
        seq![ArgView::Text("-q"@), ArgView::Text(decimal(quality as nat)), ArgView::Path(0), ArgView::Path(1)],
        OnFailure::Abort,
        name,
    )
}

fn cjpg(quality: u8, name: &str) -> (r: Invocation)
    ensures
        r@ == encode_spec(quality, name@),
{
    let args = vec![text("-q"), text_of(u8_decimal(quality)), path(0), path(1)];
    let r = invocation("/usr/bin/cjpg", args, OnFailure::Abort, name);
    assert(r@.args =~= encode_spec(quality, name@).args);
    r
}

/// Encoding at the quality level with index `quality_idx`.
pub fn encode(quality_idx: usize) -> (r: Invocation)
    requires
        quality_idx < 7,
    ensures
        r@ == encode_spec(quality_levels()[quality_idx as int], "jpg::encode()"@),
{
    let levels = quality_list();
    cjpg(levels[quality_idx], "jpg::encode()")
}

/// Encoding at the quality `quality`.
pub fn encode_quality(quality: u8) -> (r: Invocation)
    ensures
        r@ == encode_spec(quality, "jpg::encode_quality()"@),
{
    cjpg(quality, "jpg::encode_quality()")
}

/// The commands that decode a JPEG file (slot 0) to a PNG file (slot 1).
pub fn file_to_png(backend: Backend) -> (r: Vec<Invocation>)
    ensures
        invocations_view(r@) == seq![file_to_png_spec(backend)],
{
    let r = vec![crate::util::file_to_png(backend)];
    assert(invocations_view(r@) =~= seq![file_to_png_spec(backend)]);
    r
}

/// JPEG bytes go to a `mktemp` file, which is removed once the back end has
/// decoded it.
pub open spec fn conversion_spec(backend: Backend) -> PngConversionView {
    PngConversionView {
        input_ext: "jpg"@,
        store: TempStore::Mktemp,
        decode: seq![file_to_png_spec(backend)],
        remove_input: true,
    }
}

/// How JPEG bytes become a PNG file.
pub fn bytes_to_png(backend: Backend) -> (r: PngConversion)
    ensures
        r@ == conversion_spec(backend),
{
    PngConversion {
        input_ext: "jpg".to_owned(),
        store: TempStore::Mktemp,
        decode: file_to_png(backend),
        remove_input: true,
    }
}

} // verus!
