//! The generator that implements every function by a call of a logging macro that shows
//! the function's name and arguments. It implements neither constants nor types.

use crate::cursor::{
    find_longest, found_text, listed, longest, peek_punct, punct_at, read_list, render_found,
    render_span, span_text,
};
use crate::diagnostic::{Diagnostic, DiagnosticKind, DiagnosticView, failure};
use crate::impl_completer::{GenerateImpl, ImplContext};
use crate::recognize::Syntax;
use crate::syntax::{
    attr_is, Attribute, cfg_attrs, cfg_texts, FnArg, ImplItemConst, ImplItemConstView, ImplItemFn,
    ImplItemFnView, ImplItemType, ImplItemTypeView, pat_text, PatType, result_view,
    signature_text, TraitItemConst, TraitItemFn, TraitItemType,
};
use crate::text::{concat, join, lemma_concat_push, lemma_take_push, lemma_views_push, views};
use crate::token::{flat, flatten, render_tokens, source_text, Token, tokens, TokenTree};
use crate::transport::Parse;
use vstd::prelude::*;
use vstd::string::*;

verus! {

/// The arguments of the generator: the logging macro, and the arguments that lead every
/// logging call.
#[derive(Clone, Debug, PartialEq, Eq)]
pub struct Arg {
    /// The path of the logging macro.
    pub logger: String,
    /// The expressions that stand before the format string in every call.
    pub args: Vec<String>,
}

/// The mathematical content of an [`Arg`].
pub struct ArgView {
    pub logger: Seq<char>,
    pub args: Seq<Seq<char>>,
}

impl View for Arg {
    type V = ArgView;

    open spec fn view(&self) -> ArgView {
        ArgView { logger: self.logger@, args: views(self.args@) }
    }
}

/// What `Arg::parse` returns: the path of the logging macro, then possibly a comma and a
/// list of expressions.
pub open spec fn parsed_arg(input: Seq<Token>) -> Result<ArgView, DiagnosticView> {
    let stream = flat(input);
    match longest(Syntax::Path, stream, 0) {
        None => Err(failure(DiagnosticKind::ExpectedPath, found_text(stream, 0))),
        Some(end) => if end >= stream.len() {
            Ok(ArgView { logger: span_text(stream, 0, end), args: Seq::empty() })
        } else if punct_at(stream, end, ',') {
            match listed(Syntax::Expr, stream, end + 1, Seq::empty()) {
                Err(d) => Err(d),
                Ok(args) => Ok(ArgView { logger: span_text(stream, 0, end), args }),
            }
        } else {
            Err(failure(DiagnosticKind::TrailingTokens, Seq::empty()))
        },
    }
}

impl Parse for Arg {
    open spec fn parsed(input: Seq<Token>) -> Result<ArgView, DiagnosticView> {
        parsed_arg(input)
    }

    /// Reads `logger`, or `logger, expressions`.
    fn parse(input: &Vec<TokenTree>) -> (r: Result<Arg, Diagnostic>) {
        let seen = flatten(input);
        let end = match find_longest(Syntax::Path, &seen, 0) {
            Some(end) => end,
            None => {
                return Err(
                    Diagnostic {
                        kind: DiagnosticKind::ExpectedPath,
                        subject: render_found(&seen, 0),
                    },
                );
            },
        };
        let logger = render_span(&seen, 0, end);
        let mut args: Vec<String> = Vec::new();
        proof {
            assert(views(args@) =~= Seq::<Seq<char>>::empty());
        }
        if end >= seen.len() {
            return Ok(Arg { logger, args });
        }
        if !peek_punct(&seen, end, ',') {
            let d = Diagnostic::new(DiagnosticKind::TrailingTokens, "");
            proof {
                reveal_strlit("");
                assert(d@.subject =~= Seq::<char>::empty());
            }
            return Err(d);
        }
        match read_list(Syntax::Expr, &seen, end + 1, &mut args) {
            Ok(()) => Ok(Arg { logger, args }),
            Err(d) => Err(d),
        }
    }
}

/// The generator that logs.
#[derive(Clone, Debug, PartialEq, Eq)]
pub struct Generator(pub Arg);

impl View for Generator {
    type V = ArgView;

    open spec fn view(&self) -> ArgView {
        self.0@
    }
}

/// The conditions of the `cfg` attributes among the first `n` attributes, in order.
pub open spec fn conditions(attrs: Seq<Attribute>, n: nat) -> Result<Seq<Seq<char>>, DiagnosticView>
    decreases n,
{
    if n == 0 {
        Ok(Seq::empty())
    } else {
        match conditions(attrs, (n - 1) as nat) {
            Err(d) => Err(d),
            Ok(before) => if attr_is(attrs[n - 1], "cfg"@) {
                match attrs[n - 1].arguments {
                    Some(condition) => Ok(before.push(source_text(tokens(condition@)))),
                    None => Err(failure(DiagnosticKind::MalformedArgument, attrs[n - 1].text@)),
                }
            } else {
                Ok(before)
            },
        }
    }
}

/// What stands for an argument that is compiled in only under the given conditions: the
/// argument where they all hold, and a stand-in where they do not.
pub open spec fn conditional(conditions: Seq<Seq<char>>, shown: Seq<char>) -> Seq<char> {
    "{ #[cfg(all("@ + join(conditions, ", "@) + "))] { "@ + shown + " } #[cfg(not(all("@ + join(
        conditions,
        ", "@,
    ) + ")))] { ::portrait::DummyDebug { text: \"(cfg disabled)\" } } }"@
}

/// The expression that shows one typed parameter.
pub open spec fn shown_arg(typed: PatType) -> Result<Seq<char>, DiagnosticView> {
    match conditions(typed.attrs@, typed.attrs@.len()) {
        Err(d) => Err(d),
        Ok(found) => if found.len() == 0 {
            Ok(pat_text(typed.pat))
        } else {
            Ok(conditional(found, pat_text(typed.pat)))
        },
    }
}

/// The expressions that show the typed parameters among the first `n` parameters.
pub open spec fn shown_args(inputs: Seq<FnArg>, n: nat) -> Result<Seq<Seq<char>>, DiagnosticView>
    decreases n,
{
    if n == 0 {
        Ok(Seq::empty())
    } else {
        match shown_args(inputs, (n - 1) as nat) {
            Err(d) => Err(d),
            Ok(before) => match inputs[n - 1] {
                FnArg::Receiver(_) => Ok(before),
                FnArg::Typed(typed) => match shown_arg(typed) {
                    Ok(shown) => Ok(before.push(shown)),
                    Err(d) => Err(d),
                },
            },
        }
    }
}

/// The format string of a logging call, as a literal: the function's name, and in
/// parentheses one placeholder for each argument shown.
pub open spec fn format_text(ident: Seq<char>, shown: nat) -> Seq<char> {
    "\""@ + ident + "("@ + join(Seq::new(shown, |i: int| "{:?}"@), ", "@) + ")\""@
}

/// The expressions that lead a logging call, each with a comma behind it.
pub open spec fn leading_text(args: Seq<Seq<char>>) -> Seq<char> {
    concat(args.map_values(|arg: Seq<char>| arg + ", "@))
}

/// The logging call.
pub open spec fn log_call(state: ArgView, ident: Seq<char>, shown: Seq<Seq<char>>) -> Seq<char> {
    state.logger + "!("@ + leading_text(state.args) + format_text(ident, shown.len()) + ", "@
        + join(shown, ", "@) + ")"@
}

/// The function that the generator synthesizes.
pub open spec fn log_fn(state: ArgView, item: TraitItemFn) -> Result<
    ImplItemFnView,
    DiagnosticView,
> {
    match shown_args(item.sig.inputs@, item.sig.inputs@.len()) {
        Err(d) => Err(d),
        Ok(shown) => Ok(
            ImplItemFnView {
                attrs: cfg_texts(item.attrs@),
                ident: item.sig.ident@,
                sig: signature_text(item.sig),
                stmts: seq![log_call(state, item.sig.ident@, shown)],
            },
        ),
    }
}

/// Joins strings with a separator between each two neighbours.
///
/// Trusted: calls `itertools::Itertools::join` on the strings in order. States what its
/// documentation says: the elements combined into one string, separated by `sep`.
#[verifier::external_body]
fn join_with(parts: &Vec<String>, sep: &str) -> (r: String)
    ensures
        r@ == join(views(parts@), sep@),
{
    itertools::Itertools::join(&mut parts.iter(), sep)
}

proof fn lemma_conditions_failure(attrs: Seq<Attribute>, i: nat, n: nat)
    requires
        i <= n,
        conditions(attrs, i) is Err,
    ensures
        conditions(attrs, n) == conditions(attrs, i),
    decreases n,
{
    if i < n {
        lemma_conditions_failure(attrs, i, (n - 1) as nat);
    }
}

proof fn lemma_shown_failure(inputs: Seq<FnArg>, i: nat, n: nat)
    requires
        i <= n,
        shown_args(inputs, i) is Err,
    ensures
        shown_args(inputs, n) == shown_args(inputs, i),
    decreases n,
{
    if i < n {
        lemma_shown_failure(inputs, i, (n - 1) as nat);
    }
}

fn show_arg(typed: &PatType) -> (r: Result<String, Diagnostic>)
    ensures
        result_view(r) == shown_arg(*typed),
{
    let attrs = &typed.attrs;
    let mut found: Vec<String> = Vec::new();
    let mut i: usize = 0;
    proof {
        assert(views(found@) =~= Seq::<Seq<char>>::empty());
    }
    while i < attrs.len()
        invariant
            i <= attrs.len(),
            attrs == &typed.attrs,
            conditions(attrs@, i as nat) == Ok::<Seq<Seq<char>>, DiagnosticView>(views(found@)),
        decreases attrs.len() - i,
    {
        if attrs[i].is_ident("cfg") {
            match &attrs[i].arguments {
                Some(condition) => {
                    let copy = render_tokens(condition);
                    proof {
                        lemma_views_push(found@, copy);
                    }
                    found.push(copy);
                },
                None => {
                    proof {
                        lemma_conditions_failure(attrs@, (i + 1) as nat, attrs@.len());
                    }
                    return Err(
                        Diagnostic {
                            kind: DiagnosticKind::MalformedArgument,
                            subject: attrs[i].text.clone(),
                        },
                    );
                },
            }
        }
        i += 1;
    }
    let shown = typed.pat.to_text();
    if found.len() == 0 {
        return Ok(shown);
    }
    let all = join_with(&found, ", ");
    let mut out = String::from_str("{ #[cfg(all(");
    out.append(all.as_str());
    out.append("))] { ");
    out.append(shown.as_str());
    out.append(" } #[cfg(not(all(");
    out.append(all.as_str());
    out.append(")))] { ::portrait::DummyDebug { text: \"(cfg disabled)\" } } }");
    Ok(out)
}

fn format_string(ident: &str, shown: usize) -> (r: String)
    ensures
        r@ == format_text(ident@, shown as nat),
{
    let mut placeholders: Vec<String> = Vec::new();
    let mut i: usize = 0;
    while i < shown
        invariant
            i <= shown,
            placeholders@.len() == i,
            forall|k: int| 0 <= k < i ==> (#[trigger] placeholders@[k])@ == "{:?}"@,
        decreases shown - i,
    {
        placeholders.push(String::from_str("{:?}"));
        i += 1;
    }
    proof {
        assert(views(placeholders@) =~= Seq::new(shown as nat, |i: int| "{:?}"@));
    }
    let mut out = String::from_str("\"");
    out.append(ident);
    out.append("(");
    let joined = join_with(&placeholders, ", ");
    out.append(joined.as_str());
    out.append(")\"");
    out
}

fn leading(args: &Vec<String>) -> (r: String)
    ensures
        r@ == leading_text(views(args@)),
{
    let ghost parts = views(args@).map_values(|arg: Seq<char>| arg + ", "@);
    let mut out = String::new();
    let mut i: usize = 0;
    while i < args.len()
        invariant
            i <= args.len(),
            parts == views(args@).map_values(|arg: Seq<char>| arg + ", "@),
            out@ == concat(parts.take(i as int)),
        decreases args.len() - i,
    {
        out.append(args[i].as_str());
        out.append(", ");
        proof {
            lemma_take_push(parts, i as int);
            lemma_concat_push(parts.take(i as int), parts[i as int]);
            assert(out@ =~= concat(parts.take(i as int)) + parts[i as int]);
        }
        i += 1;
    }
    proof {
        assert(parts.take(args.len() as int) =~= parts);
    }
    out
}

impl GenerateImpl for Generator {
    open spec fn on_const(state: ArgView, ctx: ImplContext, item: TraitItemConst) -> (
        ArgView,
        Result<ImplItemConstView, DiagnosticView>,
    ) {
        (state, Err(failure(DiagnosticKind::LogConst, item.ident@)))
    }

    open spec fn on_fn(state: ArgView, ctx: ImplContext, item: TraitItemFn) -> (
        ArgView,
        Result<ImplItemFnView, DiagnosticView>,
    ) {
        (state, log_fn(state, item))
    }

    open spec fn on_type(state: ArgView, ctx: ImplContext, item: TraitItemType) -> (
        ArgView,
        Result<ImplItemTypeView, DiagnosticView>,
    ) {
        (state, Err(failure(DiagnosticKind::LogType, item.ident@)))
    }

    /// Always fails: a logging call is no value for a constant.
    fn generate_const(&mut self, ctx: ImplContext, item: &TraitItemConst) -> (r: Result<
        ImplItemConst,
        Diagnostic,
    >) {
        Err(Diagnostic { kind: DiagnosticKind::LogConst, subject: item.ident.clone() })
    }

    /// The function that calls the logging macro with its name and its arguments.
    fn generate_fn(&mut self, ctx: ImplContext, item: &TraitItemFn) -> (r: Result<
        ImplItemFn,
        Diagnostic,
    >) {
        let inputs = &item.sig.inputs;
        let mut shown: Vec<String> = Vec::new();
        let mut i: usize = 0;
        proof {
            assert(views(shown@) =~= Seq::<Seq<char>>::empty());
        }
        while i < inputs.len()
            invariant
                i <= inputs.len(),
                inputs == &item.sig.inputs,
                self@ == old(self)@,
                shown_args(inputs@, i as nat) == Ok::<Seq<Seq<char>>, DiagnosticView>(
                    views(shown@),
                ),
            decreases inputs.len() - i,
        {
            match &inputs[i] {
                FnArg::Receiver(_) => {},
                FnArg::Typed(typed) => match show_arg(typed) {
                    Ok(arg) => {
                        proof {
                            lemma_views_push(shown@, arg);
                        }
                        shown.push(arg);
                    },
                    Err(d) => {
                        proof {
                            lemma_shown_failure(inputs@, (i + 1) as nat, inputs@.len());
                        }
                        return Err(d);
                    },
                },
            }
            i += 1;
        }
        let mut call = self.0.logger.clone();
        call.append("!(");
        let prefix = leading(&self.0.args);
        call.append(prefix.as_str());
        let format = format_string(item.sig.ident.as_str(), shown.len());
        call.append(format.as_str());
        call.append(", ");
        let joined = join_with(&shown, ", ");
        call.append(joined.as_str());
        call.append(")");
        let mut stmts: Vec<String> = Vec::new();
        stmts.push(call);
        proof {
            assert(views(shown@).len() == shown@.len());
            assert(views(stmts@) =~= seq![stmts@[0]@]);
        }
        Ok(
            ImplItemFn {
                attrs: cfg_attrs(&item.attrs),
                ident: item.sig.ident.clone(),
                sig: item.sig.to_text(),
                stmts,
            },
        )
    }

    /// Always fails: a logging call is no type.
    fn generate_type(&mut self, ctx: ImplContext, item: &TraitItemType) -> (r: Result<
        ImplItemType,
        Diagnostic,
    >) {
        Err(Diagnostic { kind: DiagnosticKind::LogType, subject: item.ident.clone() })
    }
}

} // verus!
