use vstd::prelude::*;

verus! {

/// The mathematical value of a token sequence: each token taken as its
/// byte sequence. Tokens are opaque, byte-exact strings; they need not
/// be valid text.
pub open spec fn tokens_view(tokens: Vec<Vec<u8>>) -> Seq<Seq<u8>> {
    Seq::new(tokens@.len(), |i: int| tokens@[i]@)
}

/// The mathematical value of a [`Conclusion`].
pub enum ConclusionView {
    Exit(int),
    Exec(Seq<Seq<u8>>),
}

impl ConclusionView {
    /// A well-formed conclusion never carries an empty command line: an
    /// empty `Exec` has no defined meaning and is never produced.
    pub open spec fn wf(self) -> bool {
        match self {
            ConclusionView::Exit(_) => true,
            ConclusionView::Exec(tokens) => tokens.len() > 0,
        }
    }
}

/// What the resolver decides: either the process exits with the given
/// status, or it replaces itself with the given command line, whose
/// first token names the program and whose remaining tokens are its
/// arguments.
#[derive(Debug, Clone, PartialEq, Eq)]
pub enum Conclusion {
    Exit(i32),
    Exec(Vec<Vec<u8>>),
}

impl View for Conclusion {
    type V = ConclusionView;

    open spec fn view(&self) -> ConclusionView {
        match self {
            Conclusion::Exit(code) => ConclusionView::Exit(*code as int),
            Conclusion::Exec(tokens) => ConclusionView::Exec(tokens_view(*tokens)),
        }
    }
}

} // verus!
