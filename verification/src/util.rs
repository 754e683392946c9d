//! Set-once arguments and the reading of argument lists.

use crate::cursor::{
    any_word_at, find_longest, group_at, longest, peek_any_word, peek_group, peek_punct, punct_at,
    render_span, span_text,
};
use crate::diagnostic::{Diagnostic, DiagnosticKind, DiagnosticView, failure};
use crate::recognize::{is_identifier, recognizes, Syntax};
use crate::syntax::{attr_is, Attribute};
use crate::text::str_eq;
use crate::token::{Delimiter, flat, flatten, Token, tokens, TokenTree};
use vstd::prelude::*;
use vstd::string::*;

verus! {

/// An argument that may be given at most once.
#[derive(Debug, PartialEq, Eq)]
pub struct Once<T>(pub Option<T>);

impl<T> Default for Once<T> {
    /// The argument not given yet.
    fn default() -> (r: Self)
        ensures
            r.0 is None,
    {
        Once(None)
    }
}

impl<T> Once<T> {
    /// Records `value`. Fails when a value was recorded before; the new value stands either
    /// way. `subject` names the argument in the failure.
    pub fn set(&mut self, value: T, subject: &str) -> (r: Result<(), Diagnostic>)
        ensures
            final(self).0 == Some(value),
            r is Ok <==> old(self).0 is None,
            r matches Err(d) ==> d@ == failure(DiagnosticKind::ArgumentSetTwice, subject@),
    {
        let was_set = self.0.is_some();
        self.0 = Some(value);
        if was_set {
            Err(Diagnostic::new(DiagnosticKind::ArgumentSetTwice, subject))
        } else {
            Ok(())
        }
    }

    /// The recorded value, if any.
    pub fn try_get(self) -> (r: Option<T>)
        ensures
            r == self.0,
    {
        self.0
    }

    /// The recorded value, or what `f` makes when none was recorded.
    pub fn get_or<F: FnOnce() -> T>(self, f: F) -> (r: T)
        requires
            self.0 is None ==> f.requires(()),
        ensures
            match self.0 {
                Some(value) => r == value,
                None => f.ensures((), r),
            },
    {
        match self.try_get() {
            Some(value) => value,
            None => f(),
        }
    }
}

/// A set of arguments that is read from a list, one argument at a time.
pub trait ParseArgs: View + Sized {
    /// The arguments before any of them was read.
    spec fn initial() -> Self::V;

    /// The arguments after the one that begins at `at` was read into `state`, and where
    /// the next one may begin; or the failure that the argument is refused with.
    spec fn parsed(state: Self::V, stream: Seq<Token>, at: int) -> Result<
        (Self::V, int),
        DiagnosticView,
    >;

    /// The arguments with nothing given.
    fn empty() -> (r: Self)
        ensures
            r@ == Self::initial(),
    ;

    /// Reads the argument that begins at `at`, and returns where it ends.
    fn parse_once(&mut self, stream: &Vec<TokenTree>, at: usize) -> (r: Result<usize, Diagnostic>)
        ensures
            match r {
                Ok(next) => Self::parsed(old(self)@, tokens(stream@), at as int) == Ok::<
                    (Self::V, int),
                    DiagnosticView,
                >((final(self)@, next as int)) && at < next <= stream.len(),
                Err(d) => Self::parsed(old(self)@, tokens(stream@), at as int) == Err::<
                    (Self::V, int),
                    DiagnosticView,
                >(d@),
            },
    ;
}

/// The arguments after the list was read from `at` on: one argument after the other, with
/// a comma between each two neighbours, and possibly one after the last.
pub open spec fn parsed_args<T: ParseArgs>(state: T::V, stream: Seq<Token>, at: int) -> Result<
    T::V,
    DiagnosticView,
>
    decreases stream.len() - at,
{
    if at < 0 || at >= stream.len() {
        Ok(state)
    } else {
        match T::parsed(state, stream, at) {
            Err(d) => Err(d),
            Ok((next_state, next)) => if !(at < next <= stream.len()) || next == stream.len() {
                Ok(next_state)
            } else if punct_at(stream, next, ',') {
                parsed_args::<T>(next_state, stream, next + 1)
            } else {
                Err(failure(DiagnosticKind::ExpectedComma, span_text(stream, next, next + 1)))
            },
        }
    }
}

/// What one group of a list attribute does to the arguments. The group begins at `at` with
/// its name. A group called `name` holds arguments in parentheses, which are read; any
/// other group is passed over, be it a word, `word = expression` or `word(...)`.
///
/// Beside the arguments stand the place where the group ends, and whether tokens were
/// passed over inside the parentheses of a group of another name.
pub open spec fn parsed_group<T: ParseArgs>(
    state: T::V,
    stream: Seq<Token>,
    at: int,
    name: Seq<char>,
) -> Result<(T::V, int, bool), DiagnosticView> {
    match any_word_at(stream, at) {
        None => Err(failure(DiagnosticKind::ExpectedIdentifier, Seq::empty())),
        Some(word) => if !is_identifier(word) {
            Err(failure(DiagnosticKind::ExpectedIdentifier, word))
        } else if word == name {
            match group_at(stream, at + 1, Delimiter::Parenthesis) {
                None => Err(failure(DiagnosticKind::ExpectedArguments, word)),
                Some(inner) => match parsed_args::<T>(state, flat(inner), 0) {
                    Err(d) => Err(d),
                    Ok(next_state) => Ok((next_state, at + 2, false)),
                },
            }
        } else if punct_at(stream, at + 1, '=') {
            match longest(Syntax::Expr, stream, at + 2) {
                None => Err(failure(DiagnosticKind::MalformedArgument, word)),
                Some(end) => Ok((state, end, false)),
            }
        } else {
            match group_at(stream, at + 1, Delimiter::Parenthesis) {
                Some(inner) => Ok((state, at + 2, flat(inner).len() > 0)),
                None => Ok((state, at + 1, false)),
            }
        },
    }
}

/// The arguments when the last group of an attribute was read: tokens that were passed
/// over inside parentheses make the whole attribute fail.
pub open spec fn finished<T: ParseArgs>(state: T::V, leftover: bool) -> Result<
    T::V,
    DiagnosticView,
> {
    if leftover {
        Err(failure(DiagnosticKind::UnexpectedToken, Seq::empty()))
    } else {
        Ok(state)
    }
}

/// The arguments after the groups of a list attribute were read from `at` on. A comma
/// stands between each two groups, and possibly one after the last.
pub open spec fn parsed_groups<T: ParseArgs>(
    state: T::V,
    stream: Seq<Token>,
    at: int,
    name: Seq<char>,
    leftover: bool,
) -> Result<T::V, DiagnosticView>
    decreases stream.len() - at,
{
    match parsed_group::<T>(state, stream, at, name) {
        Err(d) => Err(d),
        Ok((next_state, next, left)) => if !(at < next <= stream.len()) {
            finished::<T>(next_state, leftover || left)
        } else if punct_at(stream, next, ',') {
            if next + 1 == stream.len() {
                finished::<T>(next_state, leftover || left)
            } else {
                parsed_groups::<T>(next_state, stream, next + 1, name, leftover || left)
            }
        } else if next < stream.len() {
            Err(failure(DiagnosticKind::TrailingTokens, Seq::empty()))
        } else {
            finished::<T>(next_state, leftover || left)
        },
    }
}

/// The arguments after one attribute was read: only `portrait` attributes are read, and
/// such an attribute has to take arguments.
pub open spec fn parsed_attr<T: ParseArgs>(state: T::V, attr: Attribute, name: Seq<char>) -> Result<
    T::V,
    DiagnosticView,
> {
    if !attr_is(attr, "portrait"@) {
        Ok(state)
    } else {
        match attr.arguments {
            None => Err(failure(DiagnosticKind::ExpectedArguments, attr.text@)),
            Some(arguments) => parsed_groups::<T>(state, flat(tokens(arguments@)), 0, name, false),
        }
    }
}

/// The arguments after the attributes were read from the one at `from` on.
pub open spec fn parsed_attrs<T: ParseArgs>(
    state: T::V,
    attrs: Seq<Attribute>,
    name: Seq<char>,
    from: int,
) -> Result<T::V, DiagnosticView>
    decreases attrs.len() - from,
{
    if from < 0 || from >= attrs.len() {
        Ok(state)
    } else {
        match parsed_attr::<T>(state, attrs[from], name) {
            Err(d) => Err(d),
            Ok(next_state) => parsed_attrs::<T>(next_state, attrs, name, from + 1),
        }
    }
}

/// What the group `name` of the `portrait` attributes among `attrs` configures.
pub open spec fn grouped_args<T: ParseArgs>(attrs: Seq<Attribute>, name: Seq<char>) -> Result<
    T::V,
    DiagnosticView,
> {
    parsed_attrs::<T>(T::initial(), attrs, name, 0)
}

fn read_args<T: ParseArgs>(stream: &Vec<TokenTree>, args: &mut T) -> (r: Result<(), Diagnostic>)
    ensures
        match r {
            Ok(()) => parsed_args::<T>(old(args)@, tokens(stream@), 0) == Ok::<
                T::V,
                DiagnosticView,
            >(final(args)@),
            Err(d) => parsed_args::<T>(old(args)@, tokens(stream@), 0) == Err::<
                T::V,
                DiagnosticView,
            >(d@),
        },
{
    let mut at: usize = 0;
    while at < stream.len()
        invariant
            at <= stream.len(),
            parsed_args::<T>(old(args)@, tokens(stream@), 0) == parsed_args::<T>(
                args@,
                tokens(stream@),
                at as int,
            ),
        decreases stream.len() - at,
    {
        let next = match args.parse_once(stream, at) {
            Ok(next) => next,
            Err(d) => {
                return Err(d);
            },
        };
        if next == stream.len() {
            return Ok(());
        }
        if !peek_punct(stream, next, ',') {
            return Err(
                Diagnostic {
                    kind: DiagnosticKind::ExpectedComma,
                    subject: render_span(stream, next, next + 1),
                },
            );
        }
        at = next + 1;
    }
    Ok(())
}

/// Reads an argument list: every argument in order, up to the first that is refused.
/// Invisible groups are seen through.
pub fn parse_args<T: ParseArgs>(input: &Vec<TokenTree>, args: &mut T) -> (r: Result<
    (),
    Diagnostic,
>)
    ensures
        match r {
            Ok(()) => parsed_args::<T>(old(args)@, flat(tokens(input@)), 0) == Ok::<
                T::V,
                DiagnosticView,
            >(final(args)@),
            Err(d) => parsed_args::<T>(old(args)@, flat(tokens(input@)), 0) == Err::<
                T::V,
                DiagnosticView,
            >(d@),
        },
{
    let seen = flatten(input);
    read_args(&seen, args)
}

fn read_group<T: ParseArgs>(stream: &Vec<TokenTree>, at: usize, name: &str, args: &mut T) -> (r:
    Result<(usize, bool), Diagnostic>)
    requires
        at <= stream.len(),
    ensures
        match r {
            Ok((next, left)) => parsed_group::<T>(old(args)@, tokens(stream@), at as int, name@)
                == Ok::<(T::V, int, bool), DiagnosticView>((final(args)@, next as int, left))
                && at < next <= stream.len(),
            Err(d) => parsed_group::<T>(old(args)@, tokens(stream@), at as int, name@) == Err::<
                (T::V, int, bool),
                DiagnosticView,
            >(d@),
        },
{
    let word = match peek_any_word(stream, at) {
        Some(word) => word,
        None => {
            let d = Diagnostic::new(DiagnosticKind::ExpectedIdentifier, "");
            proof {
                reveal_strlit("");
                assert(d@.subject =~= Seq::<char>::empty());
            }
            return Err(d);
        },
    };
    if !recognizes(Syntax::Ident, word.as_str()) {
        return Err(Diagnostic { kind: DiagnosticKind::ExpectedIdentifier, subject: word.clone() });
    }
    if str_eq(word.as_str(), name) {
        let inner = match peek_group(stream, at + 1, Delimiter::Parenthesis) {
            Some(inner) => inner,
            None => {
                return Err(
                    Diagnostic { kind: DiagnosticKind::ExpectedArguments, subject: word.clone() },
                );
            },
        };
        match parse_args(inner, args) {
            Ok(()) => Ok((at + 2, false)),
            Err(d) => Err(d),
        }
    } else if peek_punct(stream, at + 1, '=') {
        match find_longest(Syntax::Expr, stream, at + 2) {
            Some(end) => Ok((end, false)),
            None => Err(
                Diagnostic { kind: DiagnosticKind::MalformedArgument, subject: word.clone() },
            ),
        }
    } else {
        match peek_group(stream, at + 1, Delimiter::Parenthesis) {
            Some(inner) => {
                let seen = flatten(inner);
                Ok((at + 2, seen.len() > 0))
            },
            None => Ok((at + 1, false)),
        }
    }
}

fn finish(leftover: bool) -> (r: Result<(), Diagnostic>)
    ensures
        r is Ok <==> !leftover,
        r matches Err(d) ==> d@ == failure(DiagnosticKind::UnexpectedToken, Seq::empty()),
{
    if leftover {
        let d = Diagnostic::new(DiagnosticKind::UnexpectedToken, "");
        proof {
            reveal_strlit("");
            assert(d@.subject =~= Seq::<char>::empty());
        }
        Err(d)
    } else {
        Ok(())
    }
}

fn read_groups<T: ParseArgs>(stream: &Vec<TokenTree>, name: &str, args: &mut T) -> (r: Result<
    (),
    Diagnostic,
>)
    ensures
        match r {
            Ok(()) => parsed_groups::<T>(old(args)@, tokens(stream@), 0, name@, false) == Ok::<
                T::V,
                DiagnosticView,
            >(final(args)@),
            Err(d) => parsed_groups::<T>(old(args)@, tokens(stream@), 0, name@, false) == Err::<
                T::V,
                DiagnosticView,
            >(d@),
        },
{
    let mut at: usize = 0;
    let mut leftover = false;
    loop
        invariant
            at <= stream.len(),
            parsed_groups::<T>(old(args)@, tokens(stream@), 0, name@, false) == parsed_groups::<T>(
                args@,
                tokens(stream@),
                at as int,
                name@,
                leftover,
            ),
        decreases stream.len() - at,
    {
        let (next, left) = match read_group(stream, at, name, args) {
            Ok(found) => found,
            Err(d) => {
                return Err(d);
            },
        };
        leftover = leftover || left;
        if peek_punct(stream, next, ',') {
            if next + 1 == stream.len() {
                return finish(leftover);
            }
            at = next + 1;
        } else if next < stream.len() {
            let d = Diagnostic::new(DiagnosticKind::TrailingTokens, "");
            proof {
                reveal_strlit("");
                assert(d@.subject =~= Seq::<char>::empty());
            }
            return Err(d);
        } else {
            return finish(leftover);
        }
    }
}

/// Collects what the group `group_name` configures in the `portrait` attributes among
/// `attrs`: every such group is read, in order, into one set of arguments.
pub fn parse_grouped_attr<T: ParseArgs>(attrs: &Vec<Attribute>, group_name: &str) -> (r: Result<
    T,
    Diagnostic,
>)
    ensures
        match r {
            Ok(args) => grouped_args::<T>(attrs@, group_name@) == Ok::<T::V, DiagnosticView>(
                args@,
            ),
            Err(d) => grouped_args::<T>(attrs@, group_name@) == Err::<T::V, DiagnosticView>(d@),
        },
{
    let mut args = T::empty();
    let mut i: usize = 0;
    while i < attrs.len()
        invariant
            i <= attrs.len(),
            grouped_args::<T>(attrs@, group_name@) == parsed_attrs::<T>(
                args@,
                attrs@,
                group_name@,
                i as int,
            ),
        decreases attrs.len() - i,
    {
        if attrs[i].is_ident("portrait") {
            match &attrs[i].arguments {
                None => {
                    return Err(
                        Diagnostic {
                            kind: DiagnosticKind::ExpectedArguments,
                            subject: attrs[i].text.clone(),
                        },
                    );
                },
                Some(arguments) => {
                    let seen = flatten(arguments);
                    match read_groups(&seen, group_name, &mut args) {
                        Ok(()) => {},
                        Err(d) => {
                            return Err(d);
                        },
                    }
                },
            }
        }
        i += 1;
    }
    Ok(args)
}

} // verus!
