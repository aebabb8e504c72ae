//! External programs as plain data: what to run, with which arguments, and
//! what a failure of the program means.  The paths that a command reads and
//! writes stand as numbered slots that the caller fills in.
use vstd::prelude::*;

verus! {

/// One argument of an external command line.
pub enum Arg {
    /// A fixed piece of text.
    Text(String),
    /// The path in the given slot of the paths that the caller supplies.
    Path(usize),
}

/// What an argument stands for.
pub enum ArgView {
    Text(Seq<char>),
    Path(nat),
}

impl View for Arg {
    type V = ArgView;

    open spec fn view(&self) -> ArgView {
        match self {
            Arg::Text(s) => ArgView::Text(s@),
            Arg::Path(k) => ArgView::Path(*k as nat),
        }
    }
}

/// What the caller does when the program exits unsuccessfully.
#[derive(Clone, Copy, PartialEq, Eq, Structural, Debug)]
pub enum OnFailure {
    /// Stop with a panic that shows the program's output.
    Abort,
    /// Print the program's output and go on.
    Report,
    /// Go on silently.
    Ignore,
}

/// An external program together with its arguments.
pub struct Invocation {
    /// Path of the program.
    pub program: String,
    pub args: Vec<Arg>,
    pub on_failure: OnFailure,
    /// How a failure is named in the message that reports it.
    pub name: String,
}

pub struct InvocationView {
    pub program: Seq<char>,
    pub args: Seq<ArgView>,
    pub on_failure: OnFailure,
    pub name: Seq<char>,
}

impl View for Invocation {
    type V = InvocationView;

    open spec fn view(&self) -> InvocationView {
        InvocationView {
            program: self.program@,
            args: self.args@.map_values(|a: Arg| a@),
            on_failure: self.on_failure,
            name: self.name@,
        }
    }
}

/// The views of a sequence of invocations.
pub open spec fn invocations_view(v: Seq<Invocation>) -> Seq<InvocationView> {
    v.map_values(|i: Invocation| i@)
}

pub open spec fn inv(
    program: Seq<char>,
    args: Seq<ArgView>,
    on_failure: OnFailure,
    name: Seq<char>,
) -> InvocationView {
    InvocationView { program, args, on_failure, name }
}

/// A text argument.
pub fn text(s: &str) -> (a: Arg)
    ensures
        a@ == ArgView::Text(s@),
{
    Arg::Text(s.to_owned())
}

/// A text argument that takes over `s`.
pub fn text_of(s: String) -> (a: Arg)
    ensures
        a@ == ArgView::Text(s@),
{
    Arg::Text(s)
}

/// A path argument.
pub fn path(k: usize) -> (a: Arg)
    ensures
        a@ == ArgView::Path(k as nat),
{
    Arg::Path(k)
}

/// The invocation of `program` with `args`.
pub fn invocation(program: &str, args: Vec<Arg>, on_failure: OnFailure, name: &str) -> (r:
    Invocation)
    ensures
        r@ == inv(program@, args@.map_values(|a: Arg| a@), on_failure, name@),
{
    Invocation { program: program.to_owned(), args, on_failure, name: name.to_owned() }
}

} // verus!
