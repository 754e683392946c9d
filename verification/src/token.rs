//! Token trees as plain values.

use crate::text::{push_char, str_eq};
use vstd::prelude::*;
use vstd::string::*;

verus! {

/// How a group of tokens is enclosed.
#[derive(Clone, Copy, Debug, PartialEq, Eq, Structural, Hash)]
pub enum Delimiter {
    /// `( ... )`
    Parenthesis,
    /// `{ ... }`
    Brace,
    /// `[ ... ]`
    Bracket,
    /// Not at all: the group only holds its tokens together.
    Invisible,
}

/// One token, or a delimited group of tokens.
#[derive(Debug, PartialEq, Eq)]
pub enum TokenTree {
    /// A delimited sequence of tokens.
    Group(Delimiter, Vec<TokenTree>),
    /// A word: an identifier or a keyword.
    Ident(String),
    /// One character of punctuation, and whether the next token follows it directly.
    Punct(char, bool),
    /// A literal, as written.
    Literal(String),
}

/// The mathematical content of a [`TokenTree`].
pub enum Token {
    Group(Delimiter, Seq<Token>),
    Ident(Seq<char>),
    Punct(char, bool),
    Literal(Seq<char>),
}

/// The mathematical content of a token tree.
pub open spec fn token_view(tree: TokenTree) -> Token
    decreases tree,
{
    match tree {
        TokenTree::Group(delimiter, stream) => Token::Group(
            delimiter,
            Seq::new(
                stream@.len(),
                |i: int|
                    if 0 <= i < stream@.len() {
                        token_view(stream@[i])
                    } else {
                        Token::Punct(' ', false)
                    },
            ),
        ),
        TokenTree::Ident(word) => Token::Ident(word@),
        TokenTree::Punct(ch, joint) => Token::Punct(ch, joint),
        TokenTree::Literal(text) => Token::Literal(text@),
    }
}

impl View for TokenTree {
    type V = Token;

    open spec fn view(&self) -> Token {
        token_view(*self)
    }
}

/// The mathematical contents of a sequence of token trees.
pub open spec fn tokens(stream: Seq<TokenTree>) -> Seq<Token> {
    stream.map_values(|t: TokenTree| t@)
}

impl TokenTree {
    /// A copy of the token tree.
    pub fn duplicate(&self) -> (r: TokenTree)
        ensures
            r@ == self@,
        decreases self,
    {
        match self {
            TokenTree::Group(delimiter, stream) => {
                let mut copy: Vec<TokenTree> = Vec::new();
                let mut i: usize = 0;
                while i < stream.len()
                    invariant
                        i <= stream.len(),
                        self == (TokenTree::Group(*delimiter, *stream)),
                        copy@.len() == i,
                        forall|k: int| 0 <= k < i ==> (#[trigger] copy@[k])@ == stream@[k]@,
                    decreases stream.len() - i,
                {
                    proof {
                        assert(decreases_to!(self => self->Group_1));
                        assert(decreases_to!(self->Group_1 => self->Group_1@));
                        assert(decreases_to!(self->Group_1@ => self->Group_1@[i as int]));
                    }
                    copy.push(stream[i].duplicate());
                    i += 1;
                }
                let r = TokenTree::Group(*delimiter, copy);
                proof {
                    assert(r@->Group_1 =~= self@->Group_1);
                }
                r
            },
            TokenTree::Ident(word) => TokenTree::Ident(word.clone()),
            TokenTree::Punct(ch, joint) => TokenTree::Punct(*ch, *joint),
            TokenTree::Literal(text) => TokenTree::Literal(text.clone()),
        }
    }
}

/// The view of a group is the group of the views of its tokens.
pub proof fn lemma_group_view(delimiter: Delimiter, stream: Vec<TokenTree>)
    ensures
        TokenTree::Group(delimiter, stream)@ == Token::Group(delimiter, tokens(stream@)),
{
    assert(TokenTree::Group(delimiter, stream)@->Group_1 =~= tokens(stream@));
}

/// A copy of every token tree, in order.
pub fn duplicate_tokens(stream: &Vec<TokenTree>) -> (r: Vec<TokenTree>)
    ensures
        tokens(r@) == tokens(stream@),
{
    let mut copy: Vec<TokenTree> = Vec::new();
    let mut i: usize = 0;
    while i < stream.len()
        invariant
            i <= stream.len(),
            copy@.len() == i,
            forall|k: int| 0 <= k < i ==> (#[trigger] copy@[k])@ == stream@[k]@,
        decreases stream.len() - i,
    {
        copy.push(stream[i].duplicate());
        i += 1;
    }
    proof {
        assert(tokens(copy@) =~= tokens(stream@));
    }
    copy
}

/// Whether the token is the punctuation character `ch`.
pub open spec fn is_punct(token: Token, ch: char) -> bool {
    token matches Token::Punct(c, _) && c == ch
}

/// Whether the token is the word `word`.
pub open spec fn is_word(token: Token, word: Seq<char>) -> bool {
    token matches Token::Ident(w) && w == word
}

/// Whether the tokens inside the brackets of an attribute begin with the path `name`:
/// the word `name`, not followed by a colon.
pub open spec fn names_attribute(inner: Seq<Token>, name: Seq<char>) -> bool {
    &&& inner.len() > 0
    &&& is_word(inner[0], name)
    &&& (inner.len() > 1 ==> !is_punct(inner[1], ':'))
}

/// Whether the token at `i` is the bracketed part of an attribute called `name`, outer
/// (`#[name ...]`) or inner (`#![name ...]`).
pub open spec fn is_attribute_at(stream: Seq<Token>, i: int, name: Seq<char>) -> bool {
    &&& 0 < i < stream.len()
    &&& stream[i] matches Token::Group(Delimiter::Bracket, inner)
    &&& names_attribute(inner, name)
    &&& (is_punct(stream[i - 1], '#') || (i > 1 && is_punct(stream[i - 1], '!') && is_punct(
        stream[i - 2],
        '#',
    )))
}

/// The tokens `cfg(all())`: a condition that always holds.
pub open spec fn always_cfg() -> Seq<Token> {
    seq![
        Token::Ident("cfg"@),
        Token::Group(
            Delimiter::Parenthesis,
            seq![Token::Ident("all"@), Token::Group(Delimiter::Parenthesis, Seq::empty())],
        ),
    ]
}

/// The stream with every attribute called `name` replaced, at any depth, by the attribute
/// `cfg(all())`.
///
/// An attribute is told by its tokens alone: `#` or `#!`, then brackets that begin with
/// `name`. So the tokens are replaced wherever they stand, also in the arguments of a macro
/// invocation or of another attribute, which a parser of the item would pass over unread.
pub open spec fn stripped(name: Seq<char>, stream: Seq<Token>) -> Seq<Token>
    decreases stream,
{
    Seq::new(
        stream.len(),
        |i: int|
            if 0 <= i < stream.len() {
                if is_attribute_at(stream, i, name) {
                    Token::Group(Delimiter::Bracket, always_cfg())
                } else {
                    match stream[i] {
                        Token::Group(delimiter, inner) => Token::Group(
                            delimiter,
                            stripped(name, inner),
                        ),
                        token => token,
                    }
                }
            } else {
                Token::Punct(' ', false)
            },
    )
}

fn punct_is(tree: &TokenTree, ch: char) -> (r: bool)
    ensures
        r == is_punct(tree@, ch),
{
    match tree {
        TokenTree::Punct(c, _) => *c == ch,
        _ => false,
    }
}

fn word_is(tree: &TokenTree, word: &str) -> (r: bool)
    ensures
        r == is_word(tree@, word@),
{
    match tree {
        TokenTree::Ident(w) => str_eq(w.as_str(), word),
        _ => false,
    }
}

fn attribute_at(stream: &Vec<TokenTree>, i: usize, name: &str) -> (r: bool)
    requires
        i < stream.len(),
    ensures
        r == is_attribute_at(tokens(stream@), i as int, name@),
{
    if i == 0 {
        return false;
    }
    let marked = punct_is(&stream[i - 1], '#') || (i > 1 && punct_is(&stream[i - 1], '!')
        && punct_is(&stream[i - 2], '#'));
    match &stream[i] {
        TokenTree::Group(delimiter, inner) => {
            proof {
                lemma_group_view(*delimiter, *inner);
            }
            match delimiter {
                Delimiter::Bracket => {
                    marked && inner.len() > 0 && word_is(&inner[0], name) && (inner.len() == 1
                        || !punct_is(&inner[1], ':'))
                },
                _ => false,
            }
        },
        _ => false,
    }
}

fn always_cfg_tokens() -> (r: Vec<TokenTree>)
    ensures
        tokens(r@) == always_cfg(),
{
    let mut all: Vec<TokenTree> = Vec::new();
    all.push(TokenTree::Ident(String::from_str("all")));
    let empty: Vec<TokenTree> = Vec::new();
    proof {
        lemma_group_view(Delimiter::Parenthesis, empty);
        assert(tokens(empty@) =~= Seq::<Token>::empty());
    }
    all.push(TokenTree::Group(Delimiter::Parenthesis, empty));
    let mut out: Vec<TokenTree> = Vec::new();
    out.push(TokenTree::Ident(String::from_str("cfg")));
    proof {
        lemma_group_view(Delimiter::Parenthesis, all);
        assert(tokens(all@) =~= seq![
            Token::Ident("all"@),
            Token::Group(Delimiter::Parenthesis, Seq::empty()),
        ]);
    }
    out.push(TokenTree::Group(Delimiter::Parenthesis, all));
    proof {
        assert(tokens(out@) =~= always_cfg());
    }
    out
}

/// Replaces every attribute called `ident` in `item`, at any depth, by `#[cfg(all())]`, so
/// that what is left compiles as if the attribute had never been there. Tokens that have
/// the shape of such an attribute are replaced also where they are the arguments of a macro
/// invocation or of another attribute.
pub fn strip_attr(ident: &str, item: &Vec<TokenTree>) -> (r: Vec<TokenTree>)
    ensures
        tokens(r@) == stripped(ident@, tokens(item@)),
    decreases item,
{
    let mut out: Vec<TokenTree> = Vec::new();
    let mut i: usize = 0;
    while i < item.len()
        invariant
            i <= item.len(),
            out@.len() == i,
            forall|k: int|
                0 <= k < i ==> (#[trigger] out@[k])@ == stripped(ident@, tokens(item@))[k],
        decreases item.len() - i,
    {
        let tree = if attribute_at(item, i, ident) {
            let replacement = always_cfg_tokens();
            proof {
                lemma_group_view(Delimiter::Bracket, replacement);
            }
            TokenTree::Group(Delimiter::Bracket, replacement)
        } else {
            match &item[i] {
                TokenTree::Group(delimiter, inner) => {
                    proof {
                        assert(decreases_to!(item => item@));
                        assert(decreases_to!(item@ => item@[i as int]));
                        assert(decreases_to!(item@[i as int] => item@[i as int]->Group_1));
                        lemma_group_view(*delimiter, *inner);
                    }
                    let changed = strip_attr(ident, inner);
                    proof {
                        lemma_group_view(*delimiter, changed);
                    }
                    TokenTree::Group(*delimiter, changed)
                },
                other => other.duplicate(),
            }
        };
        out.push(tree);
        i += 1;
    }
    proof {
        assert(tokens(out@) =~= stripped(ident@, tokens(item@)));
    }
    out
}

/// How a group of the given kind opens.
pub open spec fn opening(delimiter: Delimiter) -> Seq<char> {
    match delimiter {
        Delimiter::Parenthesis => "("@,
        Delimiter::Brace => "{"@,
        Delimiter::Bracket => "["@,
        Delimiter::Invisible => Seq::empty(),
    }
}

/// How a group of the given kind closes.
pub open spec fn closing(delimiter: Delimiter) -> Seq<char> {
    match delimiter {
        Delimiter::Parenthesis => ")"@,
        Delimiter::Brace => "}"@,
        Delimiter::Bracket => "]"@,
        Delimiter::Invisible => Seq::empty(),
    }
}

/// What stands between the token at `at` and the token before it: a space, but nothing
/// before the first token and nothing behind a punctuation character that the next token
/// follows directly.
pub open spec fn gap(stream: Seq<Token>, at: int) -> Seq<char> {
    if at <= 0 || at > stream.len() || (stream[at - 1] matches Token::Punct(_, joint) && joint) {
        Seq::empty()
    } else {
        " "@
    }
}

/// A group as source text: its tokens between its delimiters, with a space on either
/// side of them. An invisible group shows its tokens alone.
pub open spec fn group_text(delimiter: Delimiter, inner: Seq<char>) -> Seq<char> {
    if delimiter == Delimiter::Invisible || inner.len() == 0 {
        opening(delimiter) + inner + closing(delimiter)
    } else {
        opening(delimiter) + " "@ + inner + " "@ + closing(delimiter)
    }
}

/// One token as source text: a word, a punctuation character or a literal as it was
/// written, a group with its tokens between its delimiters.
pub open spec fn tree_text(token: Token) -> Seq<char>
    decreases token, 0nat,
{
    match token {
        Token::Group(delimiter, inner) => group_text(delimiter, stream_text(inner, inner.len())),
        Token::Ident(word) => word,
        Token::Punct(ch, joint) => seq![ch],
        Token::Literal(text) => text,
    }
}

/// The first `n` tokens of the stream as source text, with a space between each two
/// neighbours unless the second follows the first directly.
pub open spec fn stream_text(stream: Seq<Token>, n: nat) -> Seq<char>
    decreases stream, n,
{
    if n == 0 || n > stream.len() {
        Seq::empty()
    } else {
        stream_text(stream, (n - 1) as nat) + gap(stream, n - 1) + tree_text(stream[n - 1])
    }
}

/// The whole stream as source text.
pub open spec fn source_text(stream: Seq<Token>) -> Seq<char> {
    stream_text(stream, stream.len())
}

fn open_group(delimiter: Delimiter) -> (r: &'static str)
    ensures
        r@ == opening(delimiter),
{
    match delimiter {
        Delimiter::Parenthesis => "(",
        Delimiter::Brace => "{",
        Delimiter::Bracket => "[",
        Delimiter::Invisible => {
            let r = "";
            proof {
                reveal_strlit("");
                assert(r@ =~= Seq::<char>::empty());
            }
            r
        },
    }
}

fn close_group(delimiter: Delimiter) -> (r: &'static str)
    ensures
        r@ == closing(delimiter),
{
    match delimiter {
        Delimiter::Parenthesis => ")",
        Delimiter::Brace => "}",
        Delimiter::Bracket => "]",
        Delimiter::Invisible => {
            let r = "";
            proof {
                reveal_strlit("");
                assert(r@ =~= Seq::<char>::empty());
            }
            r
        },
    }
}

fn follows_directly(stream: &Vec<TokenTree>, at: usize) -> (r: bool)
    requires
        at < stream.len(),
    ensures
        r == (gap(tokens(stream@), at as int).len() == 0),
        !r ==> gap(tokens(stream@), at as int) == " "@,
{
    proof {
        reveal_strlit(" ");
    }
    if at == 0 {
        return true;
    }
    proof {
        assert(tokens(stream@)[at - 1] == stream@[at - 1]@);
    }
    match &stream[at - 1] {
        TokenTree::Punct(_, joint) => *joint,
        _ => false,
    }
}

fn wrap_group(delimiter: Delimiter, content: &str) -> (r: String)
    ensures
        r@ == group_text(delimiter, content@),
{
    let spaced = match delimiter {
        Delimiter::Invisible => false,
        _ => !content.is_empty(),
    };
    let mut out = String::from_str(open_group(delimiter));
    if spaced {
        out.append(" ");
    }
    out.append(content);
    if spaced {
        out.append(" ");
    }
    out.append(close_group(delimiter));
    out
}

fn render_tree(tree: &TokenTree) -> (r: String)
    ensures
        r@ == tree_text(tree@),
    decreases tree, 0nat,
{
    match tree {
        TokenTree::Group(delimiter, inner) => {
            proof {
                lemma_group_view(*delimiter, *inner);
            }
            let content = render_stream(inner);
            wrap_group(*delimiter, content.as_str())
        },
        TokenTree::Ident(word) => word.clone(),
        TokenTree::Punct(ch, joint) => {
            let mut out = String::new();
            push_char(&mut out, *ch);
            proof {
                assert(out@ =~= seq![*ch]);
            }
            out
        },
        TokenTree::Literal(text) => text.clone(),
    }
}

fn render_stream(stream: &Vec<TokenTree>) -> (r: String)
    ensures
        r@ == source_text(tokens(stream@)),
    decreases stream, 1nat,
{
    let ghost views = tokens(stream@);
    let mut out = String::new();
    let mut i: usize = 0;
    while i < stream.len()
        invariant
            i <= stream.len(),
            views == tokens(stream@),
            out@ == stream_text(views, i as nat),
        decreases stream.len() - i,
    {
        if !follows_directly(stream, i) {
            out.append(" ");
        }
        proof {
            assert(decreases_to!(stream => stream@));
            assert(decreases_to!(stream@ => stream@[i as int]));
            assert(views[i as int] == stream@[i as int]@);
        }
        let piece = render_tree(&stream[i]);
        out.append(piece.as_str());
        i += 1;
    }
    out
}

/// The way to the first token inside `token` that is written as `text`.
pub open spec fn located_in(token: Token, text: Seq<char>) -> Option<Seq<int>>
    decreases token, 0nat,
{
    match token {
        Token::Group(_, inner) => located(inner, text, inner.len()),
        _ => None,
    }
}

/// The way to the first token that is written as `text`, among the first `n` tokens of
/// the stream and the tokens inside them: the index of the token, and before it the index
/// of every group that it stands in, from the outermost inwards. A group is looked at
/// before the tokens that it holds, and they before the token behind the group.
pub open spec fn located(stream: Seq<Token>, text: Seq<char>, n: nat) -> Option<Seq<int>>
    decreases stream, n,
{
    if n == 0 || n > stream.len() {
        None
    } else {
        match located(stream, text, (n - 1) as nat) {
            Some(way) => Some(way),
            None => if tree_text(stream[n - 1]) == text {
                Some(seq![n - 1])
            } else {
                match located_in(stream[n - 1], text) {
                    Some(way) => Some(seq![n - 1] + way),
                    None => None,
                }
            },
        }
    }
}

/// A way through nested streams, as the indices that it is made of.
pub open spec fn way_view(way: Option<Vec<usize>>) -> Option<Seq<int>> {
    match way {
        Some(way) => Some(way@.map_values(|i: usize| i as int)),
        None => None,
    }
}

proof fn lemma_located_found(stream: Seq<Token>, text: Seq<char>, i: nat, n: nat)
    requires
        i <= n <= stream.len(),
        located(stream, text, i) is Some,
    ensures
        located(stream, text, n) == located(stream, text, i),
    decreases n,
{
    if i < n {
        lemma_located_found(stream, text, i, (n - 1) as nat);
    }
}

/// Finds the first token that is written as `text`, and returns the way to it: see
/// [`located`]. With the way, the place of a failure is found from its subject.
pub fn locate(stream: &Vec<TokenTree>, text: &str) -> (r: Option<Vec<usize>>)
    ensures
        way_view(r) == located(tokens(stream@), text@, stream@.len()),
    decreases stream,
{
    let ghost views = tokens(stream@);
    let mut i: usize = 0;
    while i < stream.len()
        invariant
            i <= stream.len(),
            views == tokens(stream@),
            located(views, text@, i as nat) is None,
        decreases stream.len() - i,
    {
        proof {
            assert(decreases_to!(stream => stream@));
            assert(decreases_to!(stream@ => stream@[i as int]));
            assert(views[i as int] == stream@[i as int]@);
        }
        let written = render_tree(&stream[i]);
        if str_eq(written.as_str(), text) {
            let mut way: Vec<usize> = Vec::new();
            way.push(i);
            proof {
                assert(way@.map_values(|i: usize| i as int) =~= seq![i as int]);
                lemma_located_found(views, text@, (i + 1) as nat, stream@.len() as nat);
            }
            return Some(way);
        }
        match &stream[i] {
            TokenTree::Group(delimiter, inner) => {
                proof {
                    lemma_group_view(*delimiter, *inner);
                }
                proof {
                    assert(tokens(inner@).len() == inner@.len());
                    assert(located_in(views[i as int], text@) == located(
                        tokens(inner@),
                        text@,
                        inner@.len(),
                    ));
                }
                match locate(inner, text) {
                    Some(mut way) => {
                        let ghost inside = way@;
                        way.insert(0, i);
                        proof {
                            assert(way@.map_values(|i: usize| i as int) =~= seq![i as int]
                                + inside.map_values(|i: usize| i as int));
                            lemma_located_found(
                                views,
                                text@,
                                (i + 1) as nat,
                                stream@.len() as nat,
                            );
                        }
                        return Some(way);
                    },
                    None => {},
                }
            },
            _ => {},
        }
        i += 1;
    }
    None
}

/// Writes the tokens out as source text.
pub fn render_tokens(stream: &Vec<TokenTree>) -> (r: String)
    ensures
        r@ == source_text(tokens(stream@)),
{
    render_stream(stream)
}

/// The first `n` tokens of the stream with every invisible group among them replaced by
/// its tokens, which are treated likewise.
pub open spec fn flattened(stream: Seq<Token>, n: nat) -> Seq<Token>
    decreases stream, n,
{
    if n == 0 || n > stream.len() {
        Seq::empty()
    } else {
        flattened(stream, (n - 1) as nat) + (match stream[n - 1] {
            Token::Group(Delimiter::Invisible, inner) => flattened(inner, inner.len()),
            token => seq![token],
        })
    }
}

/// The stream without its invisible groups: a parser sees through them.
pub open spec fn flat(stream: Seq<Token>) -> Seq<Token> {
    flattened(stream, stream.len())
}

fn flatten_into(stream: &Vec<TokenTree>, out: &mut Vec<TokenTree>)
    ensures
        tokens(final(out)@) == tokens(old(out)@) + flat(tokens(stream@)),
    decreases stream,
{
    let ghost start = tokens(out@);
    let ghost views = tokens(stream@);
    let mut i: usize = 0;
    proof {
        assert(start + flattened(views, 0) =~= start);
    }
    while i < stream.len()
        invariant
            i <= stream.len(),
            views == tokens(stream@),
            tokens(out@) == start + flattened(views, i as nat),
        decreases stream.len() - i,
    {
        let ghost before = tokens(out@);
        proof {
            assert(views[i as int] == stream@[i as int]@);
        }
        let mut seen_through = false;
        match &stream[i] {
            TokenTree::Group(delimiter, inner) => {
                proof {
                    lemma_group_view(*delimiter, *inner);
                }
                match delimiter {
                    Delimiter::Invisible => {
                        proof {
                            assert(decreases_to!(stream => stream@));
                            assert(decreases_to!(stream@ => stream@[i as int]));
                            assert(decreases_to!(stream@[i as int] => stream@[i as int]->Group_1));
                        }
                        flatten_into(inner, out);
                        seen_through = true;
                        proof {
                            assert(tokens(out@) =~= start + flattened(views, (i + 1) as nat));
                        }
                    },
                    _ => {},
                }
            },
            _ => {},
        }
        if !seen_through {
            let copy = stream[i].duplicate();
            proof {
                assert(tokens(out@.push(copy)) =~= before.push(copy@));
                assert(before.push(copy@) =~= start + flattened(views, (i + 1) as nat));
            }
            out.push(copy);
        }
        i += 1;
    }
}

/// A copy of the tokens without their invisible groups.
pub fn flatten(stream: &Vec<TokenTree>) -> (r: Vec<TokenTree>)
    ensures
        tokens(r@) == flat(tokens(stream@)),
{
    let mut out: Vec<TokenTree> = Vec::new();
    proof {
        assert(tokens(out@) =~= Seq::<Token>::empty());
    }
    flatten_into(stream, &mut out);
    proof {
        assert(Seq::<Token>::empty() + flat(tokens(stream@)) =~= flat(tokens(stream@)));
    }
    out
}

} // verus!
