//! Image formats by name, and the tool chain that reads and scales images.
use vstd::prelude::*;
use crate::text::{ascii_lower, ascii_lower_char, is_ascii_upper, chars_of, lower_chars, chars_eq_str};

verus! {

/// An image format that the library reads or writes.
#[derive(Clone, Copy, PartialEq, Eq, Structural, Debug)]
pub enum ImageFormat {
    Jxl,
    Jpg,
    Png,
    Webp,
    Heic,
}

/// The external tool chain used to decode, orient and resize images.
#[derive(Clone, Copy, PartialEq, Eq, Structural, Debug)]
pub enum Backend {
    /// libvips (`vips`, `vipsthumbnail`, `vipsheader`).
    Vips,
    /// ImageMagick (`convert`) with the format's own decoders.
    Magick,
}

/// The format that a name denotes as an input, ignoring ASCII case:
/// `jxl`, `jpg`/`jpeg`, `png`, `webp`, `heic`/`heif`.
pub open spec fn input_format_of(name: Seq<char>) -> Option<ImageFormat> {
    let l = ascii_lower(name);
    if l == "jxl"@ {
        Some(ImageFormat::Jxl)
    } else if l == "jpg"@ || l == "jpeg"@ {
        Some(ImageFormat::Jpg)
    } else if l == "png"@ {
        Some(ImageFormat::Png)
    } else if l == "webp"@ {
        Some(ImageFormat::Webp)
    } else if l == "heic"@ || l == "heif"@ {
        Some(ImageFormat::Heic)
    } else {
        None
    }
}

/// The format that a name denotes as an output: every input format but PNG.
pub open spec fn output_format_of(name: Seq<char>) -> Option<ImageFormat> {
    match input_format_of(name) {
        Some(ImageFormat::Png) => None,
        f => f,
    }
}

/// The file extension that the library gives files of a format.
pub open spec fn extension_of(f: ImageFormat) -> Seq<char> {
    match f {
        ImageFormat::Jxl => "jxl"@,
        ImageFormat::Jpg => "jpg"@,
        ImageFormat::Png => "png"@,
        ImageFormat::Webp => "webp"@,
        ImageFormat::Heic => "heic"@,
    }
}

/// The input format that `name` denotes, if any.
pub fn parse_input_format(name: &str) -> (r: Option<ImageFormat>)
    ensures
        r == input_format_of(name@),
{
    let l = lower_chars(&chars_of(name));
    if chars_eq_str(&l, "jxl") {
        Some(ImageFormat::Jxl)
    } else if chars_eq_str(&l, "jpg") || chars_eq_str(&l, "jpeg") {
        Some(ImageFormat::Jpg)
    } else if chars_eq_str(&l, "png") {
        Some(ImageFormat::Png)
    } else if chars_eq_str(&l, "webp") {
        Some(ImageFormat::Webp)
    } else if chars_eq_str(&l, "heic") || chars_eq_str(&l, "heif") {
        Some(ImageFormat::Heic)
    } else {
        None
    }
}

/// The output format that `name` denotes, if any.
pub fn parse_output_format(name: &str) -> (r: Option<ImageFormat>)
    ensures
        r == output_format_of(name@),
{
    match parse_input_format(name) {
        Some(ImageFormat::Png) => None,
        f => f,
    }
}

impl ImageFormat {
    /// The file extension of this format.
    pub fn extension(self) -> (s: String)
        ensures
            s@ == extension_of(self),
    {
        match self {
            ImageFormat::Jxl => "jxl".to_owned(),
            ImageFormat::Jpg => "jpg".to_owned(),
            ImageFormat::Png => "png".to_owned(),
            ImageFormat::Webp => "webp".to_owned(),
            ImageFormat::Heic => "heic".to_owned(),
        }
    }
}

/// ASCII lower-casing is idempotent.
pub proof fn lemma_ascii_lower_idempotent(s: Seq<char>)
    ensures
        ascii_lower(ascii_lower(s)) == ascii_lower(s),
{
    assert forall|i: int| 0 <= i < s.len() implies ascii_lower_char(ascii_lower_char(s[i]))
        == ascii_lower_char(s[i]) by {
        let c = s[i];
        if is_ascii_upper(c) {
            assert((((c as u32) + 32) as char) as u32 == (c as u32) + 32);
        }
    }
    assert(ascii_lower(ascii_lower(s)) =~= ascii_lower(s));
}

/// Format names are read without regard to ASCII case: a name and its
/// lower-case form denote the same format, as input and as output.
pub proof fn format_names_ignore_case(name: Seq<char>)
    ensures
        input_format_of(ascii_lower(name)) == input_format_of(name),
        output_format_of(ascii_lower(name)) == output_format_of(name),
{
    lemma_ascii_lower_idempotent(name);
}

/// Every format that can be written can also be read back, under the same
/// name.
pub proof fn output_formats_are_readable(name: Seq<char>)
    ensures
        output_format_of(name) is Some ==> input_format_of(name) == output_format_of(name),
{
}

} // verus!
