//! The arguments of a generator that takes none.

use crate::diagnostic::{Diagnostic, DiagnosticKind, DiagnosticView};
use crate::token::{flat, flatten, render_tokens, source_text, Token, tokens, TokenTree};
use crate::transport::Parse;
use vstd::prelude::*;
use vstd::string::*;

verus! {

/// No arguments accepted by the generator.
#[derive(Clone, Copy, Debug, PartialEq, Eq, Structural, Hash)]
pub struct NoArgs;

impl View for NoArgs {
    type V = NoArgs;

    open spec fn view(&self) -> NoArgs {
        NoArgs
    }
}

/// What `NoArgs::parse` returns: success exactly for no tokens at all.
pub open spec fn parsed_no_args(input: Seq<Token>) -> Result<NoArgs, DiagnosticView> {
    if flat(input).len() == 0 {
        Ok(NoArgs)
    } else {
        Err(DiagnosticView { kind: DiagnosticKind::UnexpectedArgument, subject: source_text(input) })
    }
}

impl Parse for NoArgs {
    open spec fn parsed(input: Seq<Token>) -> Result<NoArgs, DiagnosticView> {
        parsed_no_args(input)
    }

    /// Accepts the arguments of a generator that takes none: no tokens.
    fn parse(input: &Vec<TokenTree>) -> (r: Result<NoArgs, Diagnostic>) {
        let seen = flatten(input);
        if seen.len() == 0 {
            Ok(NoArgs)
        } else {
            Err(
                Diagnostic {
                    kind: DiagnosticKind::UnexpectedArgument,
                    subject: render_tokens(input),
                },
            )
        }
    }
}

} // verus!
