//! JPEG XL: `cjxl` encodes, `djxl` decodes.
use vstd::prelude::*;
use crate::command::{ArgView, InvocationView, Invocation, OnFailure, inv, invocation, invocations_view, path, text, text_of};
use crate::text::{decimal, u8_decimal};
use crate::util::{PngConversion, PngConversionView, TempStore};

verus! {

/// The `cjxl` quality levels, from lowest to highest.
pub open spec fn quality_levels() -> Seq<u8> {
    seq![65u8, 70u8, 75u8, 80u8, 85u8, 90u8, 95u8]
}

/// The `cjxl` quality levels, from lowest to highest.
pub fn quality_list() -> (v: Vec<u8>)
    ensures
        v@ == quality_levels(),
{
    let v = vec![65u8, 70u8, 75u8, 80u8, 85u8, 90u8, 95u8];
    assert(v@ =~= quality_levels());
    v
}

/// `cjxl -q <quality> <png> <out>`: encodes the PNG in slot 0 to the
/// JPEG XL file in slot 1.
pub open spec fn encode_spec(quality: u8, name: Seq<char>) -> InvocationView {
    inv(
        "/usr/bin/cjxl"@,
        seq![ArgView::Text("-q"@), ArgView::Text(decimal(quality as nat)), ArgView::Path(0), ArgView::Path(1)],
        OnFailure::Abort,
        name,
    )
}

fn cjxl(quality: u8, name: &str) -> (r: Invocation)
    ensures
        r@ == encode_spec(quality, name@),
{
    let args = vec![text("-q"), text_of(u8_decimal(quality)), path(0), path(1)];
    let r = invocation("/usr/bin/cjxl", args, OnFailure::Abort, name);
    assert(r@.args =~= encode_spec(quality, name@).args);
    r
}

/// Encoding at the quality level with index `quality_idx`.
pub fn encode(quality_idx: usize) -> (r: Invocation)
    requires
        quality_idx < 7,
    ensures
        r@ == encode_spec(quality_levels()[quality_idx as int], "jxl::encode()"@),
{
    let levels = quality_list();
    cjxl(levels[quality_idx], "jxl::encode()")
}

/// Encoding at the quality `quality`.
pub fn encode_quality(quality: u8) -> (r: Invocation)
    ensures
        r@ == encode_spec(quality, "jxl::encode_quality()"@),
{
    cjxl(quality, "jxl::encode_quality()")
}

/// `djxl <in> <out>`: decodes slot 0 to the PNG in slot 1; a failure is
/// reported and decoding goes on.
pub open spec fn decode_spec() -> InvocationView {
    inv("/usr/bin/djxl"@, seq![ArgView::Path(0), ArgView::Path(1)], OnFailure::Report, "jxl decode"@)
}

/// The commands that decode a JPEG XL file (slot 0) to a PNG file (slot 1).
pub fn file_to_png() -> (r: Vec<Invocation>)
    ensures
        invocations_view(r@) == seq![decode_spec()],
{
    let args = vec![path(0), path(1)];
    let d = invocation("/usr/bin/djxl", args, OnFailure::Report, "jxl decode");
    assert(d@.args =~= decode_spec().args);
    let r = vec![d];
    assert(invocations_view(r@) =~= seq![decode_spec()]);
    r
}

/// JPEG XL bytes go to a `mktemp` file, which `djxl` decodes; unlike the
/// JPEG and WebP copies, that file is left in place.
pub open spec fn conversion_spec() -> PngConversionView {
    PngConversionView {
        input_ext: "jxl"@,
        store: TempStore::Mktemp,
        decode: seq![decode_spec()],
        remove_input: false,
    }
}

/// How JPEG XL bytes become a PNG file.
pub fn bytes_to_png() -> (r: PngConversion)
    ensures
        r@ == conversion_spec(),
{
    PngConversion {
        input_ext: "jxl".to_owned(),
        store: TempStore::Mktemp,
        decode: file_to_png(),
        remove_input: false,
    }
}

} // verus!
