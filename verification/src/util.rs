//! Temporary files: their names, the `mktemp` call that makes them, which
//! of them may be removed, and how input bytes become a PNG file.
use vstd::prelude::*;
use crate::text::{chars_of, chars_eq_str, chars_range, trim, trim_str, string_of};
use crate::command::{ArgView, InvocationView, Invocation, OnFailure, inv, invocation, invocations_view, path, text, text_of};
use crate::format::Backend;

verus! {

/// Whether `p` begins `s`.
pub open spec fn is_prefix_of(p: Seq<char>, s: Seq<char>) -> bool {
    p.len() <= s.len() && s.take(p.len() as int) == p
}

/// The prefix of every temporary file name that the library makes.
pub open spec fn temp_prefix_spec() -> Seq<char> {
    "img-shrink_"@
}

/// The directory that holds the library's temporary files.
pub open spec fn temp_dir_spec() -> Seq<char> {
    "/tmp"@
}

/// The prefix of every temporary file name that the library makes.
pub fn temp_prefix() -> (s: String)
    ensures
        s@ == temp_prefix_spec(),
{
    "img-shrink_".to_owned()
}

/// The directory that holds the library's temporary files.
pub fn temp_dir() -> (s: String)
    ensures
        s@ == temp_dir_spec(),
{
    "/tmp".to_owned()
}

/// The suffix of a temporary file with extension `ext`: a dot and `ext`.
pub fn temp_suffix(ext: &str) -> (s: String)
    ensures
        s@ == "."@ + ext@,
{
    let mut s = ".".to_owned();
    s.append(ext);
    s
}

/// The template that `mktemp` fills in for a file with extension `ext`.
pub open spec fn mktemp_template(ext: Seq<char>) -> Seq<char> {
    "/tmp/img-shrink_XXXXXXXXXXXX."@ + ext
}

/// The `mktemp` call that creates an empty temporary file with extension
/// `ext` and prints its path.
pub fn mktemp(ext: &str) -> (r: Invocation)
    ensures
        r@ == inv(
            "/usr/bin/mktemp"@,
            seq![ArgView::Text(mktemp_template(ext@))],
            OnFailure::Abort,
            "`mktemp`"@,
        ),
{
    let mut template = "/tmp/img-shrink_XXXXXXXXXXXX.".to_owned();
    template.append(ext);
    let args = vec![text_of(template)];
    let r = invocation("/usr/bin/mktemp", args, OnFailure::Abort, "`mktemp`");
    assert(r@.args =~= seq![ArgView::Text(mktemp_template(ext@))]);
    r
}

/// The path that `mktemp` printed: its output without surrounding white
/// space.
pub fn mktemp_path(stdout: &str) -> (p: String)
    ensures
        p@ == trim(stdout@),
{
    string_of(&trim_str(stdout))
}

/// The parent directory of a path as text: `Path::parent`, then
/// `OsStr::to_str`.
pub uninterp spec fn parent_text(path: Seq<char>) -> Option<Seq<char>>;

/// The final component of a path as text: `Path::file_name`, then
/// `OsStr::to_str`.
pub uninterp spec fn file_name_text(path: Seq<char>) -> Option<Seq<char>>;

/// A plain file name: not empty, without a slash, and neither `.` nor
/// `..`.
pub open spec fn is_plain_name(name: Seq<char>) -> bool {
    name.len() > 0 && !name.contains('/') && name != "."@ && name != ".."@
}

/// The plain file name of a path that is `/tmp/` followed by one, if it is.
pub open spec fn tmp_child_name(path: Seq<char>) -> Option<Seq<char>> {
    let d = "/tmp/"@;
    if is_prefix_of(d, path) && is_plain_name(path.skip(d.len() as int)) {
        Some(path.skip(d.len() as int))
    } else {
        None
    }
}

/// `Path::parent` of `path`, as text.  Of the result it claims only that
/// it is a function of the path, and that the parent of `/tmp/<name>`, for
/// a plain name, is `/tmp`.
#[verifier::external_body]
pub(crate) fn path_parent(path: &str) -> (r: Option<String>)
    ensures
        r.deep_view() == parent_text(path@),
        tmp_child_name(path@) is Some ==> r.deep_view() == Some("/tmp"@),
{
    std::path::Path::new(path).parent().and_then(|p| p.to_str()).map(|s| s.to_owned())
}

/// `Path::file_name` of `path`, as text.  Of the result it claims only
/// that it is a function of the path, and that the file name of
/// `/tmp/<name>`, for a plain name, is that name.
#[verifier::external_body]
fn path_file_name(path: &str) -> (r: Option<String>)
    ensures
        r.deep_view() == file_name_text(path@),
        tmp_child_name(path@) matches Some(n) ==> r.deep_view() == Some(n),
{
    std::path::Path::new(path).file_name().and_then(|n| n.to_str()).map(|s| s.to_owned())
}

/// The index of the last `.` in `name`, or -1 where it has none.
pub open spec fn last_dot(name: Seq<char>) -> int
    decreases name.len(),
{
    if name.len() == 0 {
        -1
    } else if name.last() == '.' {
        name.len() - 1
    } else {
        last_dot(name.drop_last())
    }
}

/// A file name split into its stem and its extension: the extension is
/// what follows the last `.`, unless that dot begins the name (a hidden
/// file) or the name is `..`; then the whole name is the stem.
pub open spec fn split_name_spec(name: Seq<char>) -> (Seq<char>, Option<Seq<char>>) {
    if name == ".."@ || last_dot(name) <= 0 {
        (name, None)
    } else {
        (name.take(last_dot(name)), Some(name.skip(last_dot(name) + 1)))
    }
}

/// The stem of a path's file name (`Path::file_stem`), where it has one.
pub open spec fn file_stem_spec(path: Seq<char>) -> Option<Seq<char>> {
    match file_name_text(path) {
        Some(n) => Some(split_name_spec(n).0),
        None => None,
    }
}

/// The extension of a path's file name (`Path::extension`), where it has
/// one.
pub open spec fn extension_spec(path: Seq<char>) -> Option<Seq<char>> {
    match file_name_text(path) {
        Some(n) => split_name_spec(n).1,
        None => None,
    }
}

/// The index of the last `.` in `name`.
fn find_last_dot(name: &Vec<char>) -> (r: Option<usize>)
    ensures
        match r {
            Some(i) => i == last_dot(name@) && i < name.len(),
            None => last_dot(name@) == -1,
        },
{
    let mut i: usize = name.len();
    assert(name@.take(i as int) =~= name@);
    while i > 0
        invariant
            i <= name.len(),
            last_dot(name@) == last_dot(name@.take(i as int)),
        decreases i,
    {
        assert(name@.take(i as int).drop_last() =~= name@.take(i - 1));
        if name[i - 1] == '.' {
            return Some(i - 1);
        }
        i = i - 1;
    }
    assert(name@.take(0) =~= Seq::<char>::empty());
    None
}

/// A file name split into its stem and its extension.
pub fn split_name(name: &str) -> (r: (String, Option<String>))
    ensures
        r.0@ == split_name_spec(name@).0,
        r.1.deep_view() == split_name_spec(name@).1,
{
    let v = chars_of(name);
    if crate::text::str_eq(name, "..") {
        return (name.to_owned(), None);
    }
    match find_last_dot(&v) {
        Some(i) => if i == 0 {
            (name.to_owned(), None)
        } else {
            let stem = chars_range(&v, 0, i);
            let ext = chars_range(&v, i + 1, v.len());
            assert(stem@ =~= name@.take(i as int));
            assert(ext@ =~= name@.skip(i + 1));
            (string_of(&stem), Some(string_of(&ext)))
        },
        None => (name.to_owned(), None),
    }
}
/// The stem of the file name of `path` (`Path::file_stem`).
pub fn file_stem(path: &str) -> (r: Option<String>)
    ensures
        r.deep_view() == file_stem_spec(path@),
{
    match path_file_name(path) {
        Some(n) => Some(split_name(n.as_str()).0),
        None => None,
    }
}

/// The extension of the file name of `path` (`Path::extension`).
pub fn file_extension(path: &str) -> (r: Option<String>)
    ensures
        r.deep_view() == extension_spec(path@),
{
    match path_file_name(path) {
        Some(n) => split_name(n.as_str()).1,
        None => None,
    }
}

/// `path` relative to `base`, as text: `Path::strip_prefix`, which
/// compares whole components, then `OsStr::to_str`; none where `base` is
/// not a prefix of `path`.
pub uninterp spec fn strip_prefix_text(path: Seq<char>, base: Seq<char>) -> Option<Seq<char>>;

/// `Path::strip_prefix` of `path` by `base`, as text.  Nothing is claimed
/// of it beyond its being a function of the two paths.
#[verifier::external_body]
pub(crate) fn path_strip_prefix(path: &str, base: &str) -> (r: Option<String>)
    ensures
        r.deep_view() == strip_prefix_text(path@, base@),
{
    std::path::Path::new(path).strip_prefix(base).ok().and_then(|p| p.to_str()).map(|s| s.to_owned())
}

/// `rel` joined onto `base`, as Unix paths: an absolute `rel` (one that
/// begins with `/`) replaces `base`; otherwise a `/` goes between them,
/// unless `base` is empty or already ends with one.
pub open spec fn join_text(base: Seq<char>, rel: Seq<char>) -> Seq<char> {
    if rel.len() > 0 && rel[0] == '/' {
        rel
    } else if base.len() == 0 || base.last() == '/' {
        base + rel
    } else {
        base + seq!['/'] + rel
    }
}

/// `Path::join` of `base` and `rel`, as text.  It claims what std
/// documents of `PathBuf::push` on Unix: an absolute path replaces the
/// current one, and a relative one is appended after a separator where one
/// is needed.
#[verifier::external_body]
pub(crate) fn path_join(base: &str, rel: &str) -> (r: String)
    ensures
        r@ == join_text(base@, rel@),
{
    std::path::Path::new(base).join(rel).to_string_lossy().into_owned()
}

/// Whether a path names one of the library's temporary files: it lies
/// directly in `/tmp` and its file name begins with `img-shrink_`.
pub open spec fn is_img_shrink_temp_spec(path: Seq<char>) -> bool {
    &&& parent_text(path) == Some(temp_dir_spec())
    &&& match file_name_text(path) {
        Some(name) => is_prefix_of(temp_prefix_spec(), name),
        None => false,
    }
}

/// Whether `p` begins `s`.
pub fn starts_with(s: &Vec<char>, p: &Vec<char>) -> (r: bool)
    ensures
        r == is_prefix_of(p@, s@),
{
    if p.len() > s.len() {
        return false;
    }
    let mut i: usize = 0;
    while i < p.len()
        invariant
            p.len() <= s.len(),
            i <= p.len(),
            forall|k: int| 0 <= k < i ==> s@[k] == p@[k],
        decreases p.len() - i,
    {
        if s[i] != p[i] {
            return false;
        }
        i = i + 1;
    }
    assert(s@.take(p.len() as int) =~= p@);
    true
}

/// Whether `path` names one of the library's temporary files, the only
/// files that the library removes.  Of the files directly in `/tmp`, it
/// picks exactly those whose name begins with `img-shrink_`.
pub fn is_img_shrink_temp(path: &str) -> (r: bool)
    ensures
        r == is_img_shrink_temp_spec(path@),
        tmp_child_name(path@) matches Some(n) ==> r == is_prefix_of(temp_prefix_spec(), n),
{
    let parent = path_parent(path);
    let file = path_file_name(path);
    let parent_ok = match parent {
        Some(p) => chars_eq_str(&chars_of(p.as_str()), "/tmp"),
        None => false,
    };
    let name_ok = match file {
        Some(n) => starts_with(&chars_of(n.as_str()), &chars_of("img-shrink_")),
        None => false,
    };
    parent_ok && name_ok
}

/// How the input bytes are put on disk before conversion.
#[derive(Clone, Copy, PartialEq, Eq, Structural, Debug)]
pub enum TempStore {
    /// A file made by `mktemp`, which stays until removed.
    Mktemp,
    /// A temporary file that is removed when the conversion ends.
    Scoped,
}

/// How input bytes of one format become a PNG file: they are written to a
/// temporary file with extension `input_ext`; the `decode` commands then
/// read that file (path slot 0) and write the PNG (path slot 1, a fresh
/// `mktemp` file with extension `png`); with no decode commands the input
/// file is itself the PNG.  Where `remove_input` holds, the input file is
/// removed after decoding.
pub struct PngConversion {
    pub input_ext: String,
    pub store: TempStore,
    pub decode: Vec<Invocation>,
    pub remove_input: bool,
}

pub struct PngConversionView {
    pub input_ext: Seq<char>,
    pub store: TempStore,
    pub decode: Seq<InvocationView>,
    pub remove_input: bool,
}

impl View for PngConversion {
    type V = PngConversionView;

    open spec fn view(&self) -> PngConversionView {
        PngConversionView {
            input_ext: self.input_ext@,
            store: self.store,
            decode: invocations_view(self.decode@),
            remove_input: self.remove_input,
        }
    }
}

/// The command that decodes an image file (slot 0) to a PNG file (slot 1)
/// and applies its EXIF orientation.
pub open spec fn file_to_png_spec(backend: Backend) -> InvocationView {
    match backend {
        Backend::Vips => inv(
            "/usr/bin/vips"@,
            seq![ArgView::Text("autorot"@), ArgView::Path(0), ArgView::Path(1)],
            OnFailure::Abort,
            "vips::file_to_png()"@,
        ),
        Backend::Magick => inv(
            "/usr/bin/convert"@,
            seq![ArgView::Path(0), ArgView::Text("-auto-orient"@), ArgView::Path(1)],
            OnFailure::Abort,
            "magick::file_to_png()"@,
        ),
    }
}

/// The command that decodes an image file (slot 0) to a PNG file (slot 1)
/// and applies its EXIF orientation.
pub fn file_to_png(backend: Backend) -> (r: Invocation)
    ensures
        r@ == file_to_png_spec(backend),
{
    match backend {
        Backend::Vips => {
            let args = vec![text("autorot"), path(0), path(1)];
            let r = invocation("/usr/bin/vips", args, OnFailure::Abort, "vips::file_to_png()");
            assert(r@.args =~= seq![ArgView::Text("autorot"@), ArgView::Path(0), ArgView::Path(1)]);
            r
        },
        Backend::Magick => {
            let args = vec![path(0), text("-auto-orient"), path(1)];
            let r = invocation("/usr/bin/convert", args, OnFailure::Abort, "magick::file_to_png()");
            assert(r@.args =~= seq![ArgView::Path(0), ArgView::Text("-auto-orient"@), ArgView::Path(1)]);
            r
        },
    }
}

} // verus!
