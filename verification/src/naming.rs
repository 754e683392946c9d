//! The names under which a captured trait is offered.

use crate::text::{hexadecimal, hexadecimal_string};
use vstd::prelude::*;
use vstd::string::*;

verus! {

/// What `heck` makes of a name when it converts it to snake case.
pub uninterp spec fn snake_case(name: Seq<char>) -> Seq<char>;

/// Converts a name to snake case.
///
/// Trusted: calls `heck::ToSnakeCase::to_snake_case` on the name. The result is a function
/// of the name alone, and is named by [`snake_case`].
#[verifier::external_body]
fn to_snake_case(name: &str) -> (r: String)
    ensures
        r@ == snake_case(name@),
{
    heck::ToSnakeCase::to_snake_case(name)
}

/// A number drawn at random.
///
/// Trusted: calls `rand::random`. Any number may come back.
#[verifier::external_body]
fn random_nonce() -> (r: u128) {
    rand::random::<u128>()
}

/// The name of the module that accompanies the trait `name`: the name in snake case, with
/// `_portrait` behind it.
pub open spec fn companion_name(name: Seq<char>) -> Seq<char> {
    snake_case(name) + "_portrait"@
}

/// The name of the template that is made with the number `nonce`.
pub open spec fn alias_name(nonce: u128) -> Seq<char> {
    "portrait_items_"@ + hexadecimal(nonce as nat)
}

/// The name of the module that accompanies a trait whose name is `snake` in snake case.
pub fn companion_of_snake(snake: &str) -> (r: String)
    ensures
        r@ == snake@ + "_portrait"@,
{
    let mut out = String::from_str(snake);
    out.append("_portrait");
    out
}

/// Derives the name of the module that accompanies a trait.
pub fn companion_module(name: &str) -> (r: String)
    ensures
        r@ == companion_name(name@),
{
    let snake = to_snake_case(name);
    companion_of_snake(snake.as_str())
}

/// Writes the name of the template that is made with the number `nonce`.
pub fn alias_for(nonce: u128) -> (r: String)
    ensures
        r@ == alias_name(nonce),
{
    let mut out = String::from_str("portrait_items_");
    let digits = hexadecimal_string(nonce);
    out.append(digits.as_str());
    out
}

/// Makes a name for a template that no other template is likely to have.
pub fn fresh_alias() -> (r: String)
    ensures
        exists|nonce: u128| r@ == alias_name(nonce),
{
    alias_for(random_nonce())
}

} // verus!
