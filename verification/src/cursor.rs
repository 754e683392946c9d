//! Reading a stream of tokens from left to right.

use crate::diagnostic::{Diagnostic, DiagnosticKind, DiagnosticView, failure};
use crate::recognize::{accepts, recognizes, Syntax};
use crate::text::{lemma_views_push, str_eq, views};
use crate::token::{
    Delimiter, is_punct, is_word, lemma_group_view, render_tokens, source_text, Token, tokens,
    TokenTree,
};
use vstd::prelude::*;
use vstd::string::*;

verus! {

/// The tokens from `from` up to `to` as source text.
pub open spec fn span_text(stream: Seq<Token>, from: int, to: int) -> Seq<char> {
    source_text(stream.subrange(from, to))
}

/// The greatest index below `n` at which a verdict holds.
pub open spec fn last_true(verdicts: Seq<bool>, n: int) -> Option<int>
    decreases n,
{
    if n <= 0 || n > verdicts.len() {
        None
    } else if verdicts[n - 1] {
        Some(n - 1)
    } else {
        last_true(verdicts, n - 1)
    }
}

/// For every run of tokens that begins at `from`, the shortest first, whether it is the
/// given piece of syntax.
pub open spec fn verdicts(kind: Syntax, stream: Seq<Token>, from: int) -> Seq<bool> {
    Seq::new(
        (stream.len() - from) as nat,
        |k: int| accepts(kind, span_text(stream, from, from + k + 1)),
    )
}

/// The end of the longest run of tokens that begins at `from` and is the given piece of
/// syntax.
pub open spec fn longest(kind: Syntax, stream: Seq<Token>, from: int) -> Option<int> {
    match last_true(verdicts(kind, stream, from), stream.len() - from) {
        Some(k) => Some(from + k + 1),
        None => None,
    }
}

/// Whether the punctuation character `ch` stands at `at`.
pub open spec fn punct_at(stream: Seq<Token>, at: int, ch: char) -> bool {
    0 <= at < stream.len() && is_punct(stream[at], ch)
}

/// Whether the word `word` stands at `at`.
pub open spec fn word_at(stream: Seq<Token>, at: int, word: Seq<char>) -> bool {
    0 <= at < stream.len() && is_word(stream[at], word)
}

/// The tokens inside the group with the given delimiter that stands at `at`.
pub open spec fn group_at(stream: Seq<Token>, at: int, delimiter: Delimiter) -> Option<Seq<Token>> {
    if 0 <= at < stream.len() && stream[at] is Group && stream[at]->Group_0 == delimiter {
        Some(stream[at]->Group_1)
    } else {
        None
    }
}

/// The word that stands at `at`.
pub open spec fn any_word_at(stream: Seq<Token>, at: int) -> Option<Seq<char>> {
    if 0 <= at < stream.len() && stream[at] is Ident {
        Some(stream[at]->Ident_0)
    } else {
        None
    }
}

/// The token at `at` as source text; nothing where the stream has ended.
pub open spec fn found_text(stream: Seq<Token>, at: int) -> Seq<char> {
    if 0 <= at < stream.len() {
        span_text(stream, at, at + 1)
    } else {
        Seq::empty()
    }
}

/// A copy of the tokens from `from` up to `to`.
pub(crate) fn copy_span(stream: &Vec<TokenTree>, from: usize, to: usize) -> (r: Vec<TokenTree>)
    requires
        from <= to <= stream.len(),
    ensures
        tokens(r@) == tokens(stream@).subrange(from as int, to as int),
{
    let mut out: Vec<TokenTree> = Vec::new();
    let mut i: usize = from;
    while i < to
        invariant
            from <= i <= to <= stream.len(),
            out@.len() == i - from,
            forall|k: int| 0 <= k < i - from ==> (#[trigger] out@[k])@ == stream@[from + k]@,
        decreases to - i,
    {
        out.push(stream[i].duplicate());
        i += 1;
    }
    proof {
        assert(tokens(out@) =~= tokens(stream@).subrange(from as int, to as int));
    }
    out
}

/// Writes the tokens from `from` up to `to` out as source text.
pub(crate) fn render_span(stream: &Vec<TokenTree>, from: usize, to: usize) -> (r: String)
    requires
        from <= to <= stream.len(),
    ensures
        r@ == span_text(tokens(stream@), from as int, to as int),
{
    let part = copy_span(stream, from, to);
    render_tokens(&part)
}

/// Writes the token at `at` out as source text; nothing where the stream has ended.
pub fn render_found(stream: &Vec<TokenTree>, at: usize) -> (r: String)
    ensures
        r@ == found_text(tokens(stream@), at as int),
{
    if at < stream.len() {
        render_span(stream, at, at + 1)
    } else {
        String::new()
    }
}

/// Finds the last verdict that holds.
pub fn last_accepted(verdicts: &Vec<bool>) -> (r: Option<usize>)
    ensures
        match r {
            Some(i) => last_true(verdicts@, verdicts@.len() as int) == Some(i as int) && i
                < verdicts.len() && verdicts@[i as int] && forall|j: int|
                i < j < verdicts.len() ==> !verdicts@[j],
            None => last_true(verdicts@, verdicts@.len() as int) is None && forall|j: int|
                0 <= j < verdicts.len() ==> !verdicts@[j],
        },
{
    let mut n: usize = verdicts.len();
    while n > 0
        invariant
            n <= verdicts.len(),
            last_true(verdicts@, verdicts@.len() as int) == last_true(verdicts@, n as int),
            forall|j: int| n <= j < verdicts.len() ==> !verdicts@[j],
        decreases n,
    {
        if verdicts[n - 1] {
            return Some(n - 1);
        }
        n -= 1;
    }
    None
}

/// Finds the end of the longest run of tokens that begins at `from` and is the given
/// piece of syntax.
pub(crate) fn find_longest(kind: Syntax, stream: &Vec<TokenTree>, from: usize) -> (r: Option<usize>)
    requires
        from <= stream.len(),
    ensures
        match r {
            Some(end) => longest(kind, tokens(stream@), from as int) == Some(end as int) && from
                < end <= stream.len(),
            None => longest(kind, tokens(stream@), from as int) is None,
        },
{
    let mut found: Vec<bool> = Vec::new();
    let mut to: usize = from;
    while to < stream.len()
        invariant
            from <= to <= stream.len(),
            found@.len() == to - from,
            forall|k: int|
                0 <= k < found@.len() ==> #[trigger] found@[k] == accepts(
                    kind,
                    span_text(tokens(stream@), from as int, from + k + 1),
                ),
        decreases stream.len() - to,
    {
        let text = render_span(stream, from, to + 1);
        found.push(recognizes(kind, text.as_str()));
        to += 1;
    }
    proof {
        assert(found@ =~= verdicts(kind, tokens(stream@), from as int));
    }
    match last_accepted(&found) {
        Some(k) => Some(from + k + 1),
        None => None,
    }
}

/// Tells whether the punctuation character `ch` stands at `at`.
pub fn peek_punct(stream: &Vec<TokenTree>, at: usize, ch: char) -> (r: bool)
    ensures
        r == punct_at(tokens(stream@), at as int, ch),
        r ==> at < stream.len(),
{
    if at >= stream.len() {
        return false;
    }
    match &stream[at] {
        TokenTree::Punct(c, _) => *c == ch,
        _ => false,
    }
}

/// Tells whether the word `word` stands at `at`.
pub fn peek_word(stream: &Vec<TokenTree>, at: usize, word: &str) -> (r: bool)
    ensures
        r == word_at(tokens(stream@), at as int, word@),
        r ==> at < stream.len(),
{
    if at >= stream.len() {
        return false;
    }
    match &stream[at] {
        TokenTree::Ident(w) => str_eq(w.as_str(), word),
        _ => false,
    }
}

/// The word that stands at `at`, if one does.
pub fn peek_any_word(stream: &Vec<TokenTree>, at: usize) -> (r: Option<&String>)
    ensures
        match r {
            Some(word) => any_word_at(tokens(stream@), at as int) == Some(word@) && at
                < stream.len(),
            None => any_word_at(tokens(stream@), at as int) is None,
        },
{
    if at >= stream.len() {
        return None;
    }
    match &stream[at] {
        TokenTree::Ident(w) => Some(w),
        _ => None,
    }
}

/// The tokens inside the group with the given delimiter that stands at `at`, if one does.
pub fn peek_group(stream: &Vec<TokenTree>, at: usize, delimiter: Delimiter) -> (r: Option<
    &Vec<TokenTree>,
>)
    ensures
        match r {
            Some(inner) => group_at(tokens(stream@), at as int, delimiter) == Some(tokens(inner@))
                && at < stream.len(),
            None => group_at(tokens(stream@), at as int, delimiter) is None,
        },
{
    if at >= stream.len() {
        return None;
    }
    match &stream[at] {
        TokenTree::Group(d, inner) => {
            proof {
                lemma_group_view(*d, *inner);
            }
            if *d == delimiter {
                Some(inner)
            } else {
                None
            }
        },
        _ => None,
    }
}

/// The list that is read from `at` on and added to `found`: one piece of the given
/// syntax after the other, with a comma between each two neighbours, and possibly one
/// after the last. Each piece is the longest that can be read.
pub open spec fn listed(kind: Syntax, stream: Seq<Token>, at: int, found: Seq<Seq<char>>) -> Result<
    Seq<Seq<char>>,
    DiagnosticView,
>
    decreases stream.len() - at,
{
    if at < 0 || at >= stream.len() {
        Ok(found)
    } else {
        match longest(kind, stream, at) {
            None => Err(failure(DiagnosticKind::MalformedArgument, span_text(stream, at, at + 1))),
            Some(end) => if !(at < end <= stream.len()) || end == stream.len() {
                Ok(found.push(span_text(stream, at, end)))
            } else if punct_at(stream, end, ',') {
                listed(kind, stream, end + 1, found.push(span_text(stream, at, end)))
            } else {
                Err(failure(DiagnosticKind::ExpectedComma, span_text(stream, end, end + 1)))
            },
        }
    }
}

/// Reads a list of pieces of the given syntax from `from` on, and adds the text of each
/// piece to `found`.
pub(crate) fn read_list(kind: Syntax, stream: &Vec<TokenTree>, from: usize, found: &mut Vec<String>) -> (r:
    Result<(), Diagnostic>)
    requires
        from <= stream.len(),
    ensures
        match r {
            Ok(()) => listed(kind, tokens(stream@), from as int, views(old(found)@)) == Ok::<
                Seq<Seq<char>>,
                DiagnosticView,
            >(views(final(found)@)),
            Err(d) => listed(kind, tokens(stream@), from as int, views(old(found)@)) == Err::<
                Seq<Seq<char>>,
                DiagnosticView,
            >(d@),
        },
{
    let mut at: usize = from;
    while at < stream.len()
        invariant
            at <= stream.len(),
            listed(kind, tokens(stream@), from as int, views(old(found)@)) == listed(
                kind,
                tokens(stream@),
                at as int,
                views(found@),
            ),
        decreases stream.len() - at,
    {
        let end = match find_longest(kind, stream, at) {
            Some(end) => end,
            None => {
                return Err(
                    Diagnostic {
                        kind: DiagnosticKind::MalformedArgument,
                        subject: render_span(stream, at, at + 1),
                    },
                );
            },
        };
        let piece = render_span(stream, at, end);
        proof {
            lemma_views_push(found@, piece);
        }
        found.push(piece);
        if end == stream.len() {
            return Ok(());
        }
        if !peek_punct(stream, end, ',') {
            return Err(
                Diagnostic {
                    kind: DiagnosticKind::ExpectedComma,
                    subject: render_span(stream, end, end + 1),
                },
            );
        }
        at = end + 1;
    }
    Ok(())
}

} // verus!
