//! How the members of a trait reach a generator: they are captured, word for word, in a
//! template, and the template hands them on together with what its caller passes.

use crate::diagnostic::{Diagnostic, DiagnosticKind, DiagnosticView, failure};
use crate::recognize::{accepts, recognizes, Syntax};
use crate::results::{collect, lemma_collect_err, lemma_collect_ok};
use crate::text::{concat, lemma_concat_push, lemma_take_push, str_eq};
use crate::token::{
    Delimiter, duplicate_tokens, flat, flatten, flattened, is_word, lemma_group_view,
    render_tokens, source_text, Token, tokens, TokenTree,
};
use vstd::prelude::*;
use vstd::string::*;

verus! {

/// Source text that one of the commands has made, and whether it is to be shown.
pub struct Emitted {
    /// The source text.
    pub output: String,
    /// Whether the caller asked for the output to be shown.
    pub debug_print: bool,
}

/// The mathematical content of the output of a command.
pub struct EmittedView {
    pub output: Seq<char>,
    pub debug_print: bool,
}

impl View for Emitted {
    type V = EmittedView;

    open spec fn view(&self) -> EmittedView {
        EmittedView { output: self.output@, debug_print: self.debug_print }
    }
}

/// The mathematical contents of a sequence of token streams.
pub open spec fn streams(members: Seq<Vec<TokenTree>>) -> Seq<Seq<Token>> {
    members.map_values(|m: Vec<TokenTree>| tokens(m@))
}

/// The tokens inside the braces of the section that begins at `at`: the keyword stands at
/// `at`, and a group in braces follows it.
pub open spec fn section(stream: Seq<Token>, at: int, keyword: Seq<char>) -> Result<
    Seq<Token>,
    DiagnosticView,
> {
    if !(0 <= at < stream.len() && is_word(stream[at], keyword)) {
        Err(failure(DiagnosticKind::ExpectedKeyword, keyword))
    } else if !(at + 1 < stream.len() && stream[at + 1] matches Token::Group(
        Delimiter::Brace,
        _,
    )) {
        Err(failure(DiagnosticKind::ExpectedBraces, keyword))
    } else {
        Ok(stream[at + 1]->Group_1)
    }
}

/// One captured member: the tokens inside its braces, which are one member declaration
/// of a trait.
pub open spec fn captured_member(token: Token) -> Result<Seq<Token>, DiagnosticView> {
    match token {
        Token::Group(Delimiter::Brace, inner) => if accepts(
            Syntax::TraitItem,
            source_text(inner),
        ) {
            Ok(inner)
        } else {
            Err(failure(DiagnosticKind::ExpectedMember, source_text(inner)))
        },
        _ => Err(failure(DiagnosticKind::ExpectedMember, "TRAIT_PORTRAIT"@)),
    }
}

/// Arguments of a generator that are read from the tokens in the `ARGS` section of the
/// generator's input.
pub trait Parse: View + Sized {
    /// What `parse` returns.
    spec fn parsed(input: Seq<Token>) -> Result<Self::V, DiagnosticView>;

    /// Reads the arguments.
    fn parse(input: &Vec<TokenTree>) -> (r: Result<Self, Diagnostic>)
        ensures
            crate::syntax::result_view(r) == Self::parsed(tokens(input@)),
    ;
}

/// The captured members: each stands in braces of its own, and nothing stands between.
pub open spec fn captured_members(content: Seq<Token>) -> Result<Seq<Seq<Token>>, DiagnosticView> {
    collect(Seq::new(flat(content).len(), |i: int| captured_member(flat(content)[i])))
}

/// The debug switch: the word `true` or the word `false`, alone.
pub open spec fn debug_switch(content: Seq<Token>) -> Result<bool, DiagnosticView> {
    if flat(content).len() == 1 && is_word(flat(content)[0], "true"@) {
        Ok(true)
    } else if flat(content).len() == 1 && is_word(flat(content)[0], "false"@) {
        Ok(false)
    } else {
        Err(failure(DiagnosticKind::ExpectedBool, "DEBUG_PRINT_FILLER_OUTPUT"@))
    }
}

/// The failure for tokens after the last section, if there are any.
pub open spec fn trailing(stream: Seq<Token>, sections: int) -> Option<DiagnosticView> {
    if stream.len() > 2 * sections {
        Some(failure(DiagnosticKind::TrailingTokens, Seq::empty()))
    } else {
        None
    }
}

/// Takes the section that begins at `at` out of a flat stream.
pub fn take_section<'a>(stream: &'a Vec<TokenTree>, at: usize, keyword: &str) -> (r: Result<
    &'a Vec<TokenTree>,
    Diagnostic,
>)
    ensures
        match r {
            Ok(inner) => section(tokens(stream@), at as int, keyword@) == Ok::<
                Seq<Token>,
                DiagnosticView,
            >(tokens(inner@)),
            Err(d) => section(tokens(stream@), at as int, keyword@) == Err::<
                Seq<Token>,
                DiagnosticView,
            >(d@),
        },
{
    if at >= stream.len() {
        return Err(Diagnostic::new(DiagnosticKind::ExpectedKeyword, keyword));
    }
    let named = match &stream[at] {
        TokenTree::Ident(word) => str_eq(word.as_str(), keyword),
        _ => false,
    };
    if !named {
        return Err(Diagnostic::new(DiagnosticKind::ExpectedKeyword, keyword));
    }
    if at + 1 < stream.len() {
        match &stream[at + 1] {
            TokenTree::Group(delimiter, inner) => {
                proof {
                    lemma_group_view(*delimiter, *inner);
                }
                match delimiter {
                    Delimiter::Brace => {
                        return Ok(inner);
                    },
                    _ => {},
                }
            },
            _ => {},
        }
    }
    Err(Diagnostic::new(DiagnosticKind::ExpectedBraces, keyword))
}

/// Takes the captured members apart.
pub fn split_members(content: &Vec<TokenTree>) -> (r: Result<Vec<Vec<TokenTree>>, Diagnostic>)
    ensures
        match r {
            Ok(members) => captured_members(tokens(content@)) == Ok::<
                Seq<Seq<Token>>,
                DiagnosticView,
            >(streams(members@)),
            Err(d) => captured_members(tokens(content@)) == Err::<
                Seq<Seq<Token>>,
                DiagnosticView,
            >(d@),
        },
{
    let seen = flatten(content);
    let ghost results = Seq::new(
        flat(tokens(content@)).len(),
        |i: int| captured_member(flat(tokens(content@))[i]),
    );
    let mut members: Vec<Vec<TokenTree>> = Vec::new();
    let mut i: usize = 0;
    while i < seen.len()
        invariant
            i <= seen.len(),
            tokens(seen@) == flat(tokens(content@)),
            results == Seq::new(
                flat(tokens(content@)).len(),
                |i: int| captured_member(flat(tokens(content@))[i]),
            ),
            members@.len() == i,
            forall|k: int|
                #![trigger results[k]]
                #![trigger members@[k]]
                0 <= k < i ==> results[k] == Ok::<Seq<Token>, DiagnosticView>(
                    tokens(members@[k]@),
                ),
        decreases seen.len() - i,
    {
        proof {
            assert(tokens(seen@)[i as int] == seen@[i as int]@);
        }
        let mut taken = false;
        match &seen[i] {
            TokenTree::Group(delimiter, inner) => {
                proof {
                    lemma_group_view(*delimiter, *inner);
                }
                match delimiter {
                    Delimiter::Brace => {
                        let written = render_tokens(inner);
                        if !recognizes(Syntax::TraitItem, written.as_str()) {
                            proof {
                                lemma_collect_err(results, i as int);
                            }
                            return Err(
                                Diagnostic {
                                    kind: DiagnosticKind::ExpectedMember,
                                    subject: written,
                                },
                            );
                        }
                        members.push(duplicate_tokens(inner));
                        taken = true;
                    },
                    _ => {},
                }
            },
            _ => {},
        }
        if !taken {
            proof {
                lemma_collect_err(results, i as int);
            }
            return Err(Diagnostic::new(DiagnosticKind::ExpectedMember, "TRAIT_PORTRAIT"));
        }
        i += 1;
    }
    proof {
        assert(tokens(seen@).len() == seen@.len());
        lemma_collect_ok(results, streams(members@));
    }
    Ok(members)
}

/// Reads the debug switch.
pub fn read_switch(content: &Vec<TokenTree>) -> (r: Result<bool, Diagnostic>)
    ensures
        match r {
            Ok(on) => debug_switch(tokens(content@)) == Ok::<bool, DiagnosticView>(on),
            Err(d) => debug_switch(tokens(content@)) == Err::<bool, DiagnosticView>(d@),
        },
{
    let seen = flatten(content);
    if seen.len() == 1 {
        proof {
            assert(tokens(seen@)[0] == seen@[0]@);
        }
        match &seen[0] {
            TokenTree::Ident(word) => {
                if str_eq(word.as_str(), "true") {
                    return Ok(true);
                }
                if str_eq(word.as_str(), "false") {
                    return Ok(false);
                }
            },
            _ => {},
        }
    }
    Err(Diagnostic::new(DiagnosticKind::ExpectedBool, "DEBUG_PRINT_FILLER_OUTPUT"))
}

/// Fails when tokens follow the last of `sections` sections of a flat stream.
pub fn check_end(stream: &Vec<TokenTree>, sections: usize) -> (r: Result<(), Diagnostic>)
    ensures
        match r {
            Ok(()) => trailing(tokens(stream@), sections as int) is None,
            Err(d) => trailing(tokens(stream@), sections as int) == Some(d@),
        },
{
    if stream.len() / 2 > sections || (stream.len() / 2 == sections && stream.len() % 2 == 1) {
        let d = Diagnostic::new(DiagnosticKind::TrailingTokens, "");
        proof {
            reveal_strlit("");
            assert(d@.subject =~= Seq::<char>::empty());
        }
        Err(d)
    } else {
        Ok(())
    }
}

/// The word `true` or `false`.
pub open spec fn switch_token(on: bool) -> Token {
    if on {
        Token::Ident("true"@)
    } else {
        Token::Ident("false"@)
    }
}

/// The members as they stand in a template: each in braces of its own.
pub open spec fn braced_members(members: Seq<Seq<Token>>) -> Seq<Token> {
    members.map_values(|m: Seq<Token>| Token::Group(Delimiter::Brace, m))
}

/// What a template hands to the generator of an impl block: the captured members, then
/// the caller's arguments, impl block and debug switch, each section under its keyword.
pub open spec fn forwarded_impl(
    members: Seq<Seq<Token>>,
    args: Seq<Token>,
    item_impl: Seq<Token>,
    debug_print: bool,
) -> Seq<Token> {
    seq![
        Token::Ident("TRAIT_PORTRAIT"@),
        Token::Group(Delimiter::Brace, braced_members(members)),
        Token::Ident("ARGS"@),
        Token::Group(Delimiter::Brace, args),
        Token::Ident("IMPL"@),
        Token::Group(Delimiter::Brace, item_impl),
        Token::Ident("DEBUG_PRINT_FILLER_OUTPUT"@),
        Token::Group(Delimiter::Brace, seq![switch_token(debug_print)]),
    ]
}

/// What a template hands to the generator of a derived impl: the captured members, then
/// the caller's trait path, arguments, type declaration and debug switch.
pub open spec fn forwarded_derive(
    members: Seq<Seq<Token>>,
    trait_path: Seq<Token>,
    args: Seq<Token>,
    input: Seq<Token>,
    debug_print: bool,
) -> Seq<Token> {
    seq![
        Token::Ident("TRAIT_PORTRAIT"@),
        Token::Group(Delimiter::Brace, braced_members(members)),
        Token::Ident("TRAIT_PATH"@),
        Token::Group(Delimiter::Brace, trait_path),
        Token::Ident("ARGS"@),
        Token::Group(Delimiter::Brace, args),
        Token::Ident("INPUT"@),
        Token::Group(Delimiter::Brace, input),
        Token::Ident("DEBUG_PRINT_FILLER_OUTPUT"@),
        Token::Group(Delimiter::Brace, seq![switch_token(debug_print)]),
    ]
}

/// The invocation of the generator `target` with `forwarded` as its input.
pub open spec fn invocation(target: Seq<Token>, forwarded: Seq<Token>) -> Seq<Token> {
    target + seq![Token::Punct('!', false), Token::Group(Delimiter::Brace, forwarded)]
}

/// The members as they are written into the definition of a template.
pub open spec fn members_text(members: Seq<Seq<Token>>) -> Seq<char> {
    concat(members.map_values(|m: Seq<Token>| "{ "@ + source_text(m) + " } "@))
}

/// The rule of a template that serves the completion of impl blocks.
pub open spec fn impl_rule(members: Seq<Seq<Token>>) -> Seq<char> {
    "(@TARGET {$target_macro:path} @ARGS {$($args:tt)*} @IMPL {$($impl:tt)*} @DEBUG_PRINT_FILLER_OUTPUT {$debug_print:literal}) => { $target_macro! { TRAIT_PORTRAIT { "@
        + members_text(members)
        + "} ARGS { $($args)* } IMPL { $($impl)* } DEBUG_PRINT_FILLER_OUTPUT { $debug_print } } }; "@
}

/// The rule of a template that serves the derivation of impl blocks.
pub open spec fn derive_rule(members: Seq<Seq<Token>>) -> Seq<char> {
    "(@TARGET {$target_macro:path} @TRAIT_PATH {$trait_path:path} @ARGS {$($args:tt)*} @INPUT {$($input:tt)*} @DEBUG_PRINT_FILLER_OUTPUT {$debug_print:literal}) => { $target_macro! { TRAIT_PORTRAIT { "@
        + members_text(members)
        + "} TRAIT_PATH { $trait_path } ARGS { $($args)* } INPUT { $($input)* } DEBUG_PRINT_FILLER_OUTPUT { $debug_print } } }; "@
}

/// The definition of a template called `alias`: a macro with one rule for each way of
/// invoking it.
pub open spec fn template_text(alias: Seq<char>, members: Seq<Seq<Token>>) -> Seq<char> {
    "macro_rules! "@ + alias + " { "@ + impl_rule(members) + derive_rule(members) + "}"@
}

/// The members of a trait, captured for transport to the generators.
pub struct Template {
    /// The name under which the template is defined.
    pub alias: String,
    /// The declaration of every member, as written, in declaration order.
    pub members: Vec<Vec<TokenTree>>,
}

fn brace_members(members: &Vec<Vec<TokenTree>>) -> (r: Vec<TokenTree>)
    ensures
        tokens(r@) == braced_members(streams(members@)),
{
    let mut out: Vec<TokenTree> = Vec::new();
    let mut i: usize = 0;
    while i < members.len()
        invariant
            i <= members.len(),
            out@.len() == i,
            forall|k: int|
                0 <= k < i ==> (#[trigger] out@[k])@ == Token::Group(
                    Delimiter::Brace,
                    tokens(members@[k]@),
                ),
        decreases members.len() - i,
    {
        let copy = duplicate_tokens(&members[i]);
        proof {
            lemma_group_view(Delimiter::Brace, copy);
        }
        out.push(TokenTree::Group(Delimiter::Brace, copy));
        i += 1;
    }
    proof {
        assert(tokens(out@) =~= braced_members(streams(members@)));
    }
    out
}

fn word(text: &str) -> (r: TokenTree)
    ensures
        r@ == Token::Ident(text@),
{
    TokenTree::Ident(String::from_str(text))
}

fn braced(content: Vec<TokenTree>) -> (r: TokenTree)
    ensures
        r@ == Token::Group(Delimiter::Brace, tokens(content@)),
{
    proof {
        lemma_group_view(Delimiter::Brace, content);
    }
    TokenTree::Group(Delimiter::Brace, content)
}

fn switch(on: bool) -> (r: Vec<TokenTree>)
    ensures
        tokens(r@) == seq![switch_token(on)],
{
    let mut out: Vec<TokenTree> = Vec::new();
    out.push(
        if on {
            word("true")
        } else {
            word("false")
        },
    );
    proof {
        assert(tokens(out@) =~= seq![switch_token(on)]);
    }
    out
}

fn invoke_with(target: &Vec<TokenTree>, forwarded: Vec<TokenTree>) -> (r: Vec<TokenTree>)
    ensures
        tokens(r@) == invocation(tokens(target@), tokens(forwarded@)),
{
    let mut out = duplicate_tokens(target);
    let ghost start = tokens(out@);
    let bang = TokenTree::Punct('!', false);
    let group = braced(forwarded);
    proof {
        assert(tokens(out@.push(bang).push(group)) =~= start + seq![bang@, group@]);
    }
    out.push(bang);
    out.push(group);
    out
}

impl Template {
    /// Captures the members of a trait under the name `alias`.
    pub fn capture(alias: &str, members: &Vec<Vec<TokenTree>>) -> (r: Template)
        ensures
            r.alias@ == alias@,
            streams(r.members@) == streams(members@),
    {
        let mut copy: Vec<Vec<TokenTree>> = Vec::new();
        let mut i: usize = 0;
        while i < members.len()
            invariant
                i <= members.len(),
                copy@.len() == i,
                forall|k: int|
                    0 <= k < i ==> tokens((#[trigger] copy@[k])@) == tokens(members@[k]@),
            decreases members.len() - i,
        {
            copy.push(duplicate_tokens(&members[i]));
            i += 1;
        }
        proof {
            assert(streams(copy@) =~= streams(members@));
        }
        Template { alias: String::from_str(alias), members: copy }
    }

    /// Writes the definition of the template.
    pub fn definition(&self) -> (r: String)
        ensures
            r@ == template_text(self.alias@, streams(self.members@)),
    {
        let ghost parts = streams(self.members@).map_values(
            |m: Seq<Token>| "{ "@ + source_text(m) + " } "@,
        );
        let mut members = String::new();
        let mut i: usize = 0;
        while i < self.members.len()
            invariant
                i <= self.members.len(),
                parts == streams(self.members@).map_values(
                    |m: Seq<Token>| "{ "@ + source_text(m) + " } "@,
                ),
                members@ == concat(parts.take(i as int)),
            decreases self.members.len() - i,
        {
            let text = render_tokens(&self.members[i]);
            members.append("{ ");
            members.append(text.as_str());
            members.append(" } ");
            proof {
                lemma_take_push(parts, i as int);
                lemma_concat_push(parts.take(i as int), parts[i as int]);
                assert(members@ =~= concat(parts.take(i as int)) + parts[i as int]);
            }
            i += 1;
        }
        proof {
            assert(parts.take(self.members.len() as int) =~= parts);
        }
        let mut out = String::from_str("macro_rules! ");
        out.append(self.alias.as_str());
        out.append(" { ");
        out.append(
            "(@TARGET {$target_macro:path} @ARGS {$($args:tt)*} @IMPL {$($impl:tt)*} @DEBUG_PRINT_FILLER_OUTPUT {$debug_print:literal}) => { $target_macro! { TRAIT_PORTRAIT { ",
        );
        out.append(members.as_str());
        out.append(
            "} ARGS { $($args)* } IMPL { $($impl)* } DEBUG_PRINT_FILLER_OUTPUT { $debug_print } } }; ",
        );
        out.append(
            "(@TARGET {$target_macro:path} @TRAIT_PATH {$trait_path:path} @ARGS {$($args:tt)*} @INPUT {$($input:tt)*} @DEBUG_PRINT_FILLER_OUTPUT {$debug_print:literal}) => { $target_macro! { TRAIT_PORTRAIT { ",
        );
        out.append(members.as_str());
        out.append(
            "} TRAIT_PATH { $trait_path } ARGS { $($args)* } INPUT { $($input)* } DEBUG_PRINT_FILLER_OUTPUT { $debug_print } } }; ",
        );
        out.append("}");
        proof {
            assert(out@ =~= template_text(self.alias@, streams(self.members@)));
        }
        out
    }

    /// Invokes the template for the completion of an impl block: the generator `target`
    /// is called with the captured members, `args`, `item_impl` and the debug switch.
    pub fn invoke(
        &self,
        target: &Vec<TokenTree>,
        args: &Vec<TokenTree>,
        item_impl: &Vec<TokenTree>,
        debug_print: bool,
    ) -> (r: Vec<TokenTree>)
        ensures
            tokens(r@) == invocation(
                tokens(target@),
                forwarded_impl(
                    streams(self.members@),
                    tokens(args@),
                    tokens(item_impl@),
                    debug_print,
                ),
            ),
    {
        let mut forwarded: Vec<TokenTree> = Vec::new();
        forwarded.push(word("TRAIT_PORTRAIT"));
        forwarded.push(braced(brace_members(&self.members)));
        forwarded.push(word("ARGS"));
        forwarded.push(braced(duplicate_tokens(args)));
        forwarded.push(word("IMPL"));
        forwarded.push(braced(duplicate_tokens(item_impl)));
        forwarded.push(word("DEBUG_PRINT_FILLER_OUTPUT"));
        forwarded.push(braced(switch(debug_print)));
        proof {
            assert(tokens(forwarded@) =~= forwarded_impl(
                streams(self.members@),
                tokens(args@),
                tokens(item_impl@),
                debug_print,
            ));
        }
        invoke_with(target, forwarded)
    }

    /// Invokes the template for the derivation of an impl block: the generator `target`
    /// is called with the captured members, `trait_path`, `args`, `input` and the debug
    /// switch.
    pub fn invoke_derive(
        &self,
        target: &Vec<TokenTree>,
        trait_path: &Vec<TokenTree>,
        args: &Vec<TokenTree>,
        input: &Vec<TokenTree>,
        debug_print: bool,
    ) -> (r: Vec<TokenTree>)
        ensures
            tokens(r@) == invocation(
                tokens(target@),
                forwarded_derive(
                    streams(self.members@),
                    tokens(trait_path@),
                    tokens(args@),
                    tokens(input@),
                    debug_print,
                ),
            ),
    {
        let mut forwarded: Vec<TokenTree> = Vec::new();
        forwarded.push(word("TRAIT_PORTRAIT"));
        forwarded.push(braced(brace_members(&self.members)));
        forwarded.push(word("TRAIT_PATH"));
        forwarded.push(braced(duplicate_tokens(trait_path)));
        forwarded.push(word("ARGS"));
        forwarded.push(braced(duplicate_tokens(args)));
        forwarded.push(word("INPUT"));
        forwarded.push(braced(duplicate_tokens(input)));
        forwarded.push(word("DEBUG_PRINT_FILLER_OUTPUT"));
        forwarded.push(braced(switch(debug_print)));
        proof {
            assert(tokens(forwarded@) =~= forwarded_derive(
                streams(self.members@),
                tokens(trait_path@),
                tokens(args@),
                tokens(input@),
                debug_print,
            ));
        }
        invoke_with(target, forwarded)
    }
}

/// Whether no token of the stream is an invisible group.
pub open spec fn all_visible(stream: Seq<Token>) -> bool {
    forall|i: int|
        0 <= i < stream.len() ==> !(#[trigger] stream[i] matches Token::Group(
            Delimiter::Invisible,
            _,
        ))
}

/// Flattening changes nothing where there is no invisible group to see through.
pub proof fn lemma_flat_visible(stream: Seq<Token>, n: nat)
    requires
        all_visible(stream),
        n <= stream.len(),
    ensures
        flattened(stream, n) == stream.take(n as int),
    decreases n,
{
    if n == 0 {
        assert(stream.take(0) =~= Seq::<Token>::empty());
    } else {
        lemma_flat_visible(stream, (n - 1) as nat);
        assert(!(stream[n - 1] matches Token::Group(Delimiter::Invisible, _)));
        assert(stream.take(n as int) =~= stream.take(n - 1) + seq![stream[n - 1]]);
    }
}

/// The members that were put in braces are the members that are taken out of them.
pub proof fn lemma_members_round_trip(members: Seq<Seq<Token>>)
    requires
        forall|i: int|
            0 <= i < members.len() ==> accepts(Syntax::TraitItem, source_text(#[trigger] members[i])),
    ensures
        captured_members(braced_members(members)) == Ok::<Seq<Seq<Token>>, DiagnosticView>(
            members,
        ),
{
    let content = braced_members(members);
    assert(all_visible(content));
    lemma_flat_visible(content, content.len());
    assert(content.take(content.len() as int) =~= content);
    let results = Seq::new(flat(content).len(), |i: int| captured_member(flat(content)[i]));
    lemma_collect_ok(results, members);
}

/// The debug switch that was written is the debug switch that is read.
pub proof fn lemma_switch_round_trip(on: bool)
    ensures
        debug_switch(seq![switch_token(on)]) == Ok::<bool, DiagnosticView>(on),
{
    let content = seq![switch_token(on)];
    assert(all_visible(content));
    lemma_flat_visible(content, content.len());
    assert(content.take(content.len() as int) =~= content);
    reveal_strlit("true");
    reveal_strlit("false");
    assert("true"@.len() != "false"@.len());
}

} // verus!
