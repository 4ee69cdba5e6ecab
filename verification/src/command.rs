//! A call of an outside program, as a plain value.

use crate::outcome::Program;
use vstd::prelude::*;

verus! {

/// A program to start and wait for: its arguments in order, and the
/// variables to set for it on top of those that it inherits.
#[derive(Debug, PartialEq, Eq)]
pub struct Invocation {
    pub program: Program,
    pub args: Vec<String>,
    pub env: Vec<(String, String)>,
}

/// What an [`Invocation`] is to the verifier.
pub struct InvocationView {
    pub program: Program,
    pub args: Seq<Seq<char>>,
    pub env: Seq<(Seq<char>, Seq<char>)>,
}

impl View for Invocation {
    type V = InvocationView;

    open spec fn view(&self) -> InvocationView {
        InvocationView {
            program: self.program,
            args: self.args.deep_view(),
            env: self.env.deep_view(),
        }
    }
}

} // verus!
