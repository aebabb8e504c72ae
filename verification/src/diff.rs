//! Image distance with `dssim`.
use vstd::prelude::*;
use crate::command::{ArgView, InvocationView, Invocation, OnFailure, inv, invocation, path};
use crate::text::{chars_of, first_word, first_word_chars, string_of};

verus! {

/// `dssim <a> <b>`: prints the DSSIM distance between the images in slots
/// 0 and 1 (0 for identical images), then the second path.
pub open spec fn distance_command_spec() -> InvocationView {
    inv("dssim"@, seq![ArgView::Path(0), ArgView::Path(1)], OnFailure::Abort, "dssim"@)
}

/// The command that measures the distance between two images.
pub fn distance_command() -> (r: Invocation)
    ensures
        r@ == distance_command_spec(),
{
    let args = vec![path(0), path(1)];
    let r = invocation("dssim", args, OnFailure::Abort, "dssim");
    assert(r@.args =~= distance_command_spec().args);
    r
}

/// Whether `dssim` output holds a score at all (a word that is not white
/// space).
pub fn has_score(output: &str) -> (r: bool)
    ensures
        r == first_word(output@) is Some,
{
    first_word_chars(&chars_of(output)).is_some()
}

/// The score in `dssim` output: its first white-space-separated word.
/// The caller first refuses output without one (`has_score`).
pub fn score_token(output: &str) -> (r: String)
    requires
        first_word(output@) is Some,
    ensures
        Some(r@) == first_word(output@),
{
    let w = first_word_chars(&chars_of(output)).unwrap();
    string_of(&w)
}

} // verus!
