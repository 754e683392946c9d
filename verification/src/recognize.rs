//! Which texts are a given piece of Rust syntax, as `syn` reads them from the tokens that
//! `proc_macro2`'s own lexer finds in the text.

use vstd::prelude::*;

verus! {

/// A piece of Rust syntax.
#[derive(Clone, Copy, Debug, PartialEq, Eq, Structural, Hash)]
pub enum Syntax {
    /// An expression.
    Expr,
    /// A path.
    Path,
    /// A type.
    Type,
    /// What follows `use` in an import.
    UseTree,
    /// An identifier that is no keyword.
    Ident,
    /// One member declaration of a trait.
    TraitItem,
    /// An impl block.
    ItemImpl,
    /// The declaration of a struct, an enum or a union.
    DeriveInput,
}

/// Whether `syn` reads the whole text as an expression, from the tokens that
/// `proc_macro2`'s own lexer finds in it.
pub uninterp spec fn is_expression(text: Seq<char>) -> bool;

/// Whether `syn` reads the whole text as a path, from the tokens that
/// `proc_macro2`'s own lexer finds in it.
pub uninterp spec fn is_path(text: Seq<char>) -> bool;

/// Whether `syn` reads the whole text as a type, from the tokens that
/// `proc_macro2`'s own lexer finds in it.
pub uninterp spec fn is_type(text: Seq<char>) -> bool;

/// Whether `syn` reads the whole text as what follows `use` in an import, from the tokens that
/// `proc_macro2`'s own lexer finds in it.
pub uninterp spec fn is_use_tree(text: Seq<char>) -> bool;

/// Whether `syn` reads the whole text as an identifier that is no keyword, from the tokens that
/// `proc_macro2`'s own lexer finds in it.
pub uninterp spec fn is_identifier(text: Seq<char>) -> bool;

/// Whether `syn` reads the whole text as one member declaration of a trait, from the tokens that
/// `proc_macro2`'s own lexer finds in it.
pub uninterp spec fn is_trait_item(text: Seq<char>) -> bool;

/// Whether `syn` reads the whole text as an impl block, from the tokens that
/// `proc_macro2`'s own lexer finds in it.
pub uninterp spec fn is_item_impl(text: Seq<char>) -> bool;

/// Whether `syn` reads the whole text as the declaration of a struct, an enum or a union, from the tokens that
/// `proc_macro2`'s own lexer finds in it.
pub uninterp spec fn is_derive_input(text: Seq<char>) -> bool;

/// Whether the whole text is an expression.
///
/// Trusted: calls `syn::parse_str` for `syn::Expr` and tells whether it succeeds. Around
/// the call stand `proc_macro2::fallback::force` and `unforce`, so that the text is split
/// into tokens by `proc_macro2`'s own lexer wherever the call is made. The result is then
/// a function of the text alone, and is named by [`is_expression`].
#[verifier::external_body]
fn reads_as_expression(text: &str) -> (r: bool)
    ensures
        r == is_expression(text@),
{
    proc_macro2::fallback::force();
    let read = syn::parse_str::<syn::Expr>(text).is_ok();
    proc_macro2::fallback::unforce();
    read
}

/// Whether the whole text is a path.
///
/// Trusted: calls `syn::parse_str` for `syn::Path` and tells whether it succeeds. Around
/// the call stand `proc_macro2::fallback::force` and `unforce`, so that the text is split
/// into tokens by `proc_macro2`'s own lexer wherever the call is made. The result is then
/// a function of the text alone, and is named by [`is_path`].
#[verifier::external_body]
fn reads_as_path(text: &str) -> (r: bool)
    ensures
        r == is_path(text@),
{
    proc_macro2::fallback::force();
    let read = syn::parse_str::<syn::Path>(text).is_ok();
    proc_macro2::fallback::unforce();
    read
}

/// Whether the whole text is a type.
///
/// Trusted: calls `syn::parse_str` for `syn::Type` and tells whether it succeeds. Around
/// the call stand `proc_macro2::fallback::force` and `unforce`, so that the text is split
/// into tokens by `proc_macro2`'s own lexer wherever the call is made. The result is then
/// a function of the text alone, and is named by [`is_type`].
#[verifier::external_body]
fn reads_as_type(text: &str) -> (r: bool)
    ensures
        r == is_type(text@),
{
    proc_macro2::fallback::force();
    let read = syn::parse_str::<syn::Type>(text).is_ok();
    proc_macro2::fallback::unforce();
    read
}

/// Whether the whole text is what follows `use` in an import.
///
/// Trusted: calls `syn::parse_str` for `syn::UseTree` and tells whether it succeeds. Around
/// the call stand `proc_macro2::fallback::force` and `unforce`, so that the text is split
/// into tokens by `proc_macro2`'s own lexer wherever the call is made. The result is then
/// a function of the text alone, and is named by [`is_use_tree`].
#[verifier::external_body]
fn reads_as_use_tree(text: &str) -> (r: bool)
    ensures
        r == is_use_tree(text@),
{
    proc_macro2::fallback::force();
    let read = syn::parse_str::<syn::UseTree>(text).is_ok();
    proc_macro2::fallback::unforce();
    read
}

/// Whether the whole text is an identifier that is no keyword.
///
/// Trusted: calls `syn::parse_str` for `syn::Ident` and tells whether it succeeds. Around
/// the call stand `proc_macro2::fallback::force` and `unforce`, so that the text is split
/// into tokens by `proc_macro2`'s own lexer wherever the call is made. The result is then
/// a function of the text alone, and is named by [`is_identifier`].
#[verifier::external_body]
fn reads_as_identifier(text: &str) -> (r: bool)
    ensures
        r == is_identifier(text@),
{
    proc_macro2::fallback::force();
    let read = syn::parse_str::<syn::Ident>(text).is_ok();
    proc_macro2::fallback::unforce();
    read
}

/// Whether the whole text is one member declaration of a trait.
///
/// Trusted: calls `syn::parse_str` for `syn::TraitItem` and tells whether it succeeds. Around
/// the call stand `proc_macro2::fallback::force` and `unforce`, so that the text is split
/// into tokens by `proc_macro2`'s own lexer wherever the call is made. The result is then
/// a function of the text alone, and is named by [`is_trait_item`].
#[verifier::external_body]
fn reads_as_trait_item(text: &str) -> (r: bool)
    ensures
        r == is_trait_item(text@),
{
    proc_macro2::fallback::force();
    let read = syn::parse_str::<syn::TraitItem>(text).is_ok();
    proc_macro2::fallback::unforce();
    read
}

/// Whether the whole text is an impl block.
///
/// Trusted: calls `syn::parse_str` for `syn::ItemImpl` and tells whether it succeeds. Around
/// the call stand `proc_macro2::fallback::force` and `unforce`, so that the text is split
/// into tokens by `proc_macro2`'s own lexer wherever the call is made. The result is then
/// a function of the text alone, and is named by [`is_item_impl`].
#[verifier::external_body]
fn reads_as_item_impl(text: &str) -> (r: bool)
    ensures
        r == is_item_impl(text@),
{
    proc_macro2::fallback::force();
    let read = syn::parse_str::<syn::ItemImpl>(text).is_ok();
    proc_macro2::fallback::unforce();
    read
}

/// Whether the whole text is the declaration of a struct, an enum or a union.
///
/// Trusted: calls `syn::parse_str` for `syn::DeriveInput` and tells whether it succeeds. Around
/// the call stand `proc_macro2::fallback::force` and `unforce`, so that the text is split
/// into tokens by `proc_macro2`'s own lexer wherever the call is made. The result is then
/// a function of the text alone, and is named by [`is_derive_input`].
#[verifier::external_body]
fn reads_as_derive_input(text: &str) -> (r: bool)
    ensures
        r == is_derive_input(text@),
{
    proc_macro2::fallback::force();
    let read = syn::parse_str::<syn::DeriveInput>(text).is_ok();
    proc_macro2::fallback::unforce();
    read
}

/// Whether the whole text is the given piece of syntax.
pub open spec fn accepts(kind: Syntax, text: Seq<char>) -> bool {
    match kind {
        Syntax::Expr => is_expression(text),
        Syntax::Path => is_path(text),
        Syntax::Type => is_type(text),
        Syntax::UseTree => is_use_tree(text),
        Syntax::Ident => is_identifier(text),
        Syntax::TraitItem => is_trait_item(text),
        Syntax::ItemImpl => is_item_impl(text),
        Syntax::DeriveInput => is_derive_input(text),
    }
}

/// Tells whether the whole text is the given piece of syntax.
pub fn recognizes(kind: Syntax, text: &str) -> (r: bool)
    ensures
        r == accepts(kind, text@),
{
    match kind {
        Syntax::Expr => reads_as_expression(text),
        Syntax::Path => reads_as_path(text),
        Syntax::Type => reads_as_type(text),
        Syntax::UseTree => reads_as_use_tree(text),
        Syntax::Ident => reads_as_identifier(text),
        Syntax::TraitItem => reads_as_trait_item(text),
        Syntax::ItemImpl => reads_as_item_impl(text),
        Syntax::DeriveInput => reads_as_derive_input(text),
    }
}

} // verus!
