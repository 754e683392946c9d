//! The three commands, each with a failure turned into source text that stops the
//! compilation with the failure's message.

use crate::diagnostic::{compile_error_text, Diagnostic, message_text};
use crate::make::{captured, ItemTrait};
use crate::naming::alias_name;
use crate::syntax::ItemImpl;
use crate::text::quoted;
use crate::token::{tokens, TokenTree};
use crate::transport::{Emitted, EmittedView};
use vstd::prelude::*;
use vstd::string::*;

verus! {

/// Whether `emitted` is what a command hands on for `outcome`: the output of a success as
/// it is, and for a failure the invocation of `compile_error` with the failure's message,
/// which is not shown.
pub open spec fn handed_on(
    outcome: Result<EmittedView, crate::diagnostic::DiagnosticView>,
    emitted: Emitted,
) -> bool {
    match outcome {
        Ok(made) => emitted@ == made,
        Err(d) => !emitted.debug_print && emitted.output@ == compile_error_text(
            quoted(message_text(d)),
        ),
    }
}

fn hand_on(r: Result<Emitted, Diagnostic>) -> (emitted: Emitted)
    ensures
        handed_on(crate::syntax::result_view(r), emitted),
{
    match r {
        Ok(made) => made,
        Err(d) => Emitted { output: d.into_compile_error(), debug_print: false },
    }
}

/// Captures a trait: see [`crate::make::run`].
pub fn make(item: &ItemTrait, attr: &Vec<TokenTree>) -> (r: Emitted)
    ensures
        exists|nonce: u128| handed_on(captured(*item, tokens(attr@), alias_name(nonce)), r),
{
    hand_on(crate::make::run(item, attr))
}

/// Fills an impl block: see [`crate::fill::run`].
pub fn fill(attr: &Vec<TokenTree>, item: &ItemImpl, text: &str) -> (r: Emitted)
    ensures
        handed_on(crate::fill::filled(tokens(attr@), *item, text@), r),
{
    hand_on(crate::fill::run(attr, item, text))
}

/// Derives an impl block: see [`crate::derive::run`].
pub fn derive(attr: &Vec<TokenTree>, item: &Vec<TokenTree>) -> (r: Emitted)
    ensures
        handed_on(crate::derive::derived(tokens(attr@), tokens(item@)), r),
{
    hand_on(crate::derive::run(attr, item))
}

} // verus!
