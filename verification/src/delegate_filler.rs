//! The generator that implements every member by the same member of another type.

use crate::cursor::{
    find_longest, found_text, longest, peek_punct, punct_at, render_found, render_span, span_text,
};
use crate::diagnostic::{Diagnostic, DiagnosticKind, DiagnosticView, failure};
use crate::impl_completer::{GenerateImpl, ImplContext};
use crate::recognize::Syntax;
use crate::results::{collect, lemma_collect_err, lemma_collect_ok};
use crate::syntax::{
    all_attrs, arg_text, attr_texts, attrs_prefix, cfg_attrs, cfg_texts, FnArg, ImplItemConst,
    ImplItemConstView, ImplItemFn, ImplItemFnView, ImplItemType, ImplItemTypeView, ItemImpl,
    param_names, param_texts, params_text, Pat, path_text, plain_pat_text, render_attrs,
    render_params, result_view, Signature, signature_with, TraitItemConst, TraitItemFn,
    TraitItemType,
};
use crate::text::{concat, lemma_concat_push, lemma_take_push, lemma_views_push, str_eq, views};
use crate::token::{flat, flatten, Token, TokenTree};
use crate::transport::Parse;
use vstd::prelude::*;
use vstd::string::*;

verus! {

/// The arguments of the generator: `Type`, or `Type; value`.
#[derive(Clone, Debug, PartialEq, Eq)]
pub struct Arg {
    /// The type that every member is taken from.
    pub ty: String,
    /// The expression that stands for the receiver in a forwarded call.
    pub value: Option<String>,
}

/// The mathematical content of an [`Arg`].
pub struct ArgView {
    pub ty: Seq<char>,
    pub value: Option<Seq<char>>,
}

impl View for Arg {
    type V = ArgView;

    open spec fn view(&self) -> ArgView {
        ArgView {
            ty: self.ty@,
            value: match self.value {
                Some(v) => Some(v@),
                None => None,
            },
        }
    }
}

/// What `Arg::parse` returns: the type, which is the longest that can be read, and behind
/// a semicolon the value, which is all the rest.
pub open spec fn parsed_arg(input: Seq<Token>) -> Result<ArgView, DiagnosticView> {
    let stream = flat(input);
    match longest(Syntax::Type, stream, 0) {
        None => Err(failure(DiagnosticKind::ExpectedType, found_text(stream, 0))),
        Some(end) => if end >= stream.len() {
            Ok(ArgView { ty: span_text(stream, 0, end), value: None })
        } else if punct_at(stream, end, ';') {
            match longest(Syntax::Expr, stream, end + 1) {
                None => Err(
                    failure(DiagnosticKind::MalformedArgument, found_text(stream, end + 1)),
                ),
                Some(last) => if last < stream.len() {
                    Err(failure(DiagnosticKind::TrailingTokens, Seq::empty()))
                } else {
                    Ok(
                        ArgView {
                            ty: span_text(stream, 0, end),
                            value: Some(span_text(stream, end + 1, last)),
                        },
                    )
                },
            }
        } else {
            Err(failure(DiagnosticKind::TrailingTokens, Seq::empty()))
        },
    }
}

fn trailing_tokens() -> (d: Diagnostic)
    ensures
        d@ == failure(DiagnosticKind::TrailingTokens, Seq::empty()),
{
    let d = Diagnostic::new(DiagnosticKind::TrailingTokens, "");
    proof {
        reveal_strlit("");
        assert(d@.subject =~= Seq::<char>::empty());
    }
    d
}

impl Parse for Arg {
    open spec fn parsed(input: Seq<Token>) -> Result<ArgView, DiagnosticView> {
        parsed_arg(input)
    }

    /// Reads `Type`, or `Type; value`.
    fn parse(input: &Vec<TokenTree>) -> (r: Result<Arg, Diagnostic>) {
        let seen = flatten(input);
        let end = match find_longest(Syntax::Type, &seen, 0) {
            Some(end) => end,
            None => {
                return Err(
                    Diagnostic {
                        kind: DiagnosticKind::ExpectedType,
                        subject: render_found(&seen, 0),
                    },
                );
            },
        };
        let ty = render_span(&seen, 0, end);
        if end >= seen.len() {
            return Ok(Arg { ty, value: None });
        }
        if !peek_punct(&seen, end, ';') {
            return Err(trailing_tokens());
        }
        let last = match find_longest(Syntax::Expr, &seen, end + 1) {
            Some(last) => last,
            None => {
                return Err(
                    Diagnostic {
                        kind: DiagnosticKind::MalformedArgument,
                        subject: render_found(&seen, end + 1),
                    },
                );
            },
        };
        if last < seen.len() {
            return Err(trailing_tokens());
        }
        Ok(Arg { ty, value: Some(render_span(&seen, end + 1, last)) })
    }
}

/// The generator that forwards to another type.
#[derive(Clone, Debug, PartialEq, Eq)]
pub struct Generator(pub Arg);

impl View for Generator {
    type V = ArgView;

    open spec fn view(&self) -> ArgView {
        self.0@
    }
}

/// The path of the trait that the impl block is for.
pub open spec fn implemented_trait(block: ItemImpl) -> Result<Seq<char>, DiagnosticView> {
    match block.trait_ {
        Some(t) => Ok(path_text(t.path)),
        None => Err(failure(DiagnosticKind::InherentImpl, block.self_ty@)),
    }
}

/// The member `ident` of the delegate type, as a member of the trait.
pub open spec fn delegate_member(ty: Seq<char>, trait_path: Seq<char>, ident: Seq<char>) -> Seq<
    char,
> {
    "<"@ + ty + " as "@ + trait_path + ">::"@ + ident
}

/// Whether the parameter is written as a binding called `self`.
pub open spec fn binds_self(pat: Pat) -> bool {
    pat matches Pat::Ident(p) && p.ident@ == "self"@
}

/// The argument that the forwarded call gets for a parameter: the delegate value for the
/// receiver, any other parameter by its pattern.
pub open spec fn forwarded_arg(arg: FnArg, value: Option<Seq<char>>) -> Result<
    Seq<char>,
    DiagnosticView,
> {
    match arg {
        FnArg::Receiver(receiver) => match value {
            None => Err(failure(DiagnosticKind::DelegateWithoutValue, receiver.text@)),
            Some(v) => Ok(
                attrs_prefix(cfg_texts(receiver.attrs@)) + (if receiver.reference {
                    "&"@
                } else {
                    Seq::empty()
                }) + (if receiver.mutable {
                    "mut "@
                } else {
                    Seq::empty()
                }) + v,
            ),
        },
        FnArg::Typed(typed) => if binds_self(typed.pat) {
            match value {
                None => Err(failure(DiagnosticKind::DelegateWithoutValue, arg_text(arg))),
                Some(v) => Ok(attrs_prefix(cfg_texts(typed.attrs@)) + v),
            }
        } else {
            Ok(attrs_prefix(cfg_texts(typed.attrs@)) + plain_pat_text(typed.pat))
        },
    }
}

/// A parameter as the synthesized function declares it: a binding loses its `mut`.
pub open spec fn declared_arg(arg: FnArg) -> Seq<char> {
    match arg {
        FnArg::Receiver(_) => arg_text(arg),
        FnArg::Typed(typed) => if binds_self(typed.pat) {
            arg_text(arg)
        } else {
            attrs_prefix(attr_texts(typed.attrs@)) + plain_pat_text(typed.pat) + ": "@
                + typed.ty.text@
        },
    }
}

/// The call that forwards to the delegate type.
pub open spec fn forwarded_call(
    ty: Seq<char>,
    trait_path: Seq<char>,
    ident: Seq<char>,
    args: Seq<Seq<char>>,
) -> Seq<char> {
    delegate_member(ty, trait_path, ident) + "("@ + concat(
        args.map_values(|arg: Seq<char>| arg + ", "@),
    ) + ")"@
}

/// The constant that the generator synthesizes.
pub open spec fn delegate_const(state: ArgView, block: ItemImpl, item: TraitItemConst) -> Result<
    ImplItemConstView,
    DiagnosticView,
> {
    match implemented_trait(block) {
        Err(d) => Err(d),
        Ok(trait_path) => Ok(
            ImplItemConstView {
                attrs: cfg_texts(item.attrs@),
                ident: item.ident@,
                generics: params_text(param_texts(item.generics.params@)),
                ty: item.ty.text@,
                expr: delegate_member(state.ty, trait_path, item.ident@),
            },
        ),
    }
}

/// The function that the generator synthesizes.
pub open spec fn delegate_fn(state: ArgView, block: ItemImpl, item: TraitItemFn) -> Result<
    ImplItemFnView,
    DiagnosticView,
> {
    match implemented_trait(block) {
        Err(d) => Err(d),
        Ok(trait_path) => match collect(
            Seq::new(
                item.sig.inputs@.len(),
                |k: int| forwarded_arg(item.sig.inputs@[k], state.value),
            ),
        ) {
            Err(d) => Err(d),
            Ok(args) => Ok(
                ImplItemFnView {
                    attrs: cfg_texts(item.attrs@).push("#[inline]"@),
                    ident: item.sig.ident@,
                    sig: signature_with(
                        item.sig,
                        item.sig.inputs@.map_values(|arg: FnArg| declared_arg(arg)),
                    ),
                    stmts: seq![forwarded_call(state.ty, trait_path, item.sig.ident@, args)],
                },
            ),
        },
    }
}

/// The type that the generator synthesizes.
pub open spec fn delegate_type(state: ArgView, block: ItemImpl, item: TraitItemType) -> Result<
    ImplItemTypeView,
    DiagnosticView,
> {
    match implemented_trait(block) {
        Err(d) => Err(d),
        Ok(trait_path) => Ok(
            ImplItemTypeView {
                attrs: cfg_texts(item.attrs@),
                ident: item.ident@,
                generics: params_text(param_texts(item.generics.params@)),
                ty: delegate_member(state.ty, trait_path, item.ident@) + params_text(
                    param_names(item.generics.params@),
                ),
            },
        ),
    }
}

fn trait_of(block: &ItemImpl) -> (r: Result<String, Diagnostic>)
    ensures
        result_view(r) == implemented_trait(*block),
{
    match &block.trait_ {
        Some(t) => Ok(t.path.to_text()),
        None => Err(
            Diagnostic { kind: DiagnosticKind::InherentImpl, subject: block.self_ty.clone() },
        ),
    }
}

fn member_of(ty: &str, trait_path: &str, ident: &str) -> (r: String)
    ensures
        r@ == delegate_member(ty@, trait_path@, ident@),
{
    let mut out = String::from_str("<");
    out.append(ty);
    out.append(" as ");
    out.append(trait_path);
    out.append(">::");
    out.append(ident);
    out
}

fn is_self_binding(pat: &Pat) -> (r: bool)
    ensures
        r == binds_self(*pat),
{
    match pat {
        Pat::Ident(p) => str_eq(p.ident.as_str(), "self"),
        Pat::Other(_) => false,
    }
}

fn forward_arg(arg: &FnArg, value: &Option<String>) -> (r: Result<String, Diagnostic>)
    ensures
        result_view(r) == forwarded_arg(
            *arg,
            match value {
                Some(v) => Some(v@),
                None => None,
            },
        ),
{
    match arg {
        FnArg::Receiver(receiver) => {
            let v = match value {
                None => {
                    return Err(
                        Diagnostic {
                            kind: DiagnosticKind::DelegateWithoutValue,
                            subject: receiver.text.clone(),
                        },
                    );
                },
                Some(v) => v,
            };
            let attrs = cfg_attrs(&receiver.attrs);
            let mut out = render_attrs(&attrs);
            if receiver.reference {
                out.append("&");
            }
            if receiver.mutable {
                out.append("mut ");
            }
            out.append(v.as_str());
            Ok(out)
        },
        FnArg::Typed(typed) => {
            let attrs = cfg_attrs(&typed.attrs);
            let mut out = render_attrs(&attrs);
            if is_self_binding(&typed.pat) {
                match value {
                    None => Err(
                        Diagnostic {
                            kind: DiagnosticKind::DelegateWithoutValue,
                            subject: arg.to_text(),
                        },
                    ),
                    Some(v) => {
                        out.append(v.as_str());
                        Ok(out)
                    },
                }
            } else {
                let pat = typed.pat.to_plain_text();
                out.append(pat.as_str());
                Ok(out)
            }
        },
    }
}

fn declare_arg(arg: &FnArg) -> (r: String)
    ensures
        r@ == declared_arg(*arg),
{
    match arg {
        FnArg::Receiver(_) => arg.to_text(),
        FnArg::Typed(typed) => {
            if is_self_binding(&typed.pat) {
                arg.to_text()
            } else {
                let attrs = all_attrs(&typed.attrs);
                let mut out = render_attrs(&attrs);
                let pat = typed.pat.to_plain_text();
                out.append(pat.as_str());
                out.append(": ");
                out.append(typed.ty.text.as_str());
                out
            }
        },
    }
}

fn declare_signature(sig: &Signature) -> (r: String)
    ensures
        r@ == signature_with(*sig, sig.inputs@.map_values(|arg: FnArg| declared_arg(arg))),
{
    let mut args: Vec<String> = Vec::new();
    let mut i: usize = 0;
    while i < sig.inputs.len()
        invariant
            i <= sig.inputs.len(),
            args@.len() == i,
            forall|k: int| 0 <= k < i ==> (#[trigger] args@[k])@ == declared_arg(sig.inputs@[k]),
        decreases sig.inputs.len() - i,
    {
        args.push(declare_arg(&sig.inputs[i]));
        i += 1;
    }
    proof {
        assert(views(args@) =~= sig.inputs@.map_values(|arg: FnArg| declared_arg(arg)));
    }
    sig.render_with(&args)
}

fn forward_call(ty: &str, trait_path: &str, ident: &str, args: &Vec<String>) -> (r: String)
    ensures
        r@ == forwarded_call(ty@, trait_path@, ident@, views(args@)),
{
    let mut out = member_of(ty, trait_path, ident);
    out.append("(");
    let ghost before = out@;
    let ghost parts = views(args@).map_values(|arg: Seq<char>| arg + ", "@);
    let mut i: usize = 0;
    while i < args.len()
        invariant
            i <= args.len(),
            parts == views(args@).map_values(|arg: Seq<char>| arg + ", "@),
            out@ == before + concat(parts.take(i as int)),
        decreases args.len() - i,
    {
        out.append(args[i].as_str());
        out.append(", ");
        proof {
            lemma_take_push(parts, i as int);
            lemma_concat_push(parts.take(i as int), parts[i as int]);
            assert(out@ =~= before + concat(parts.take(i as int + 1)));
        }
        i += 1;
    }
    proof {
        assert(parts.take(args.len() as int) =~= parts);
    }
    out.append(")");
    out
}

impl GenerateImpl for Generator {
    open spec fn on_const(state: ArgView, ctx: ImplContext, item: TraitItemConst) -> (
        ArgView,
        Result<ImplItemConstView, DiagnosticView>,
    ) {
        (state, delegate_const(state, *ctx.impl_block, item))
    }

    open spec fn on_fn(state: ArgView, ctx: ImplContext, item: TraitItemFn) -> (
        ArgView,
        Result<ImplItemFnView, DiagnosticView>,
    ) {
        (state, delegate_fn(state, *ctx.impl_block, item))
    }

    open spec fn on_type(state: ArgView, ctx: ImplContext, item: TraitItemType) -> (
        ArgView,
        Result<ImplItemTypeView, DiagnosticView>,
    ) {
        (state, delegate_type(state, *ctx.impl_block, item))
    }

    /// The constant of the same name of the delegate type.
    fn generate_const(&mut self, ctx: ImplContext, item: &TraitItemConst) -> (r: Result<
        ImplItemConst,
        Diagnostic,
    >) {
        let trait_path = match trait_of(ctx.impl_block) {
            Ok(path) => path,
            Err(d) => {
                return Err(d);
            },
        };
        let params = item.generics.param_texts();
        Ok(
            ImplItemConst {
                attrs: cfg_attrs(&item.attrs),
                ident: item.ident.clone(),
                generics: render_params(&params),
                ty: item.ty.text.clone(),
                expr: member_of(self.0.ty.as_str(), trait_path.as_str(), item.ident.as_str()),
            },
        )
    }

    /// The function that calls the function of the same name of the delegate type, with
    /// the delegate value in place of the receiver.
    fn generate_fn(&mut self, ctx: ImplContext, item: &TraitItemFn) -> (r: Result<
        ImplItemFn,
        Diagnostic,
    >) {
        let trait_path = match trait_of(ctx.impl_block) {
            Ok(path) => path,
            Err(d) => {
                return Err(d);
            },
        };
        let inputs = &item.sig.inputs;
        let ghost results = Seq::new(
            inputs@.len(),
            |k: int| forwarded_arg(inputs@[k], self@.value),
        );
        let mut args: Vec<String> = Vec::new();
        let mut k: usize = 0;
        while k < inputs.len()
            invariant
                k <= inputs.len(),
                inputs == &item.sig.inputs,
                self@ == old(self)@,
                implemented_trait(*ctx.impl_block) == Ok::<Seq<char>, DiagnosticView>(
                    trait_path@,
                ),
                results == Seq::new(
                    inputs@.len(),
                    |k: int| forwarded_arg(inputs@[k], self@.value),
                ),
                args@.len() == k,
                forall|j: int|
                    #![trigger results[j]]
                    #![trigger args@[j]]
                    0 <= j < k ==> results[j] == Ok::<Seq<char>, DiagnosticView>(args@[j]@),
            decreases inputs.len() - k,
        {
            match forward_arg(&inputs[k], &self.0.value) {
                Ok(arg) => {
                    args.push(arg);
                },
                Err(d) => {
                    proof {
                        lemma_collect_err(results, k as int);
                    }
                    return Err(d);
                },
            }
            k += 1;
        }
        proof {
            lemma_collect_ok(results, views(args@));
        }
        let mut attrs = cfg_attrs(&item.attrs);
        let inline = String::from_str("#[inline]");
        proof {
            lemma_views_push(attrs@, inline);
        }
        attrs.push(inline);
        let call = forward_call(
            self.0.ty.as_str(),
            trait_path.as_str(),
            item.sig.ident.as_str(),
            &args,
        );
        let mut stmts: Vec<String> = Vec::new();
        stmts.push(call);
        proof {
            assert(views(stmts@) =~= seq![stmts@[0]@]);
        }
        Ok(
            ImplItemFn {
                attrs,
                ident: item.sig.ident.clone(),
                sig: declare_signature(&item.sig),
                stmts,
            },
        )
    }

    /// The type of the same name of the delegate type, with the own parameters applied.
    fn generate_type(&mut self, ctx: ImplContext, item: &TraitItemType) -> (r: Result<
        ImplItemType,
        Diagnostic,
    >) {
        let trait_path = match trait_of(ctx.impl_block) {
            Ok(path) => path,
            Err(d) => {
                return Err(d);
            },
        };
        let params = item.generics.param_texts();
        let names = item.generics.param_names();
        let mut ty = member_of(self.0.ty.as_str(), trait_path.as_str(), item.ident.as_str());
        let applied = render_params(&names);
        ty.append(applied.as_str());
        Ok(
            ImplItemType {
                attrs: cfg_attrs(&item.attrs),
                ident: item.ident.clone(),
                generics: render_params(&params),
                ty,
            },
        )
    }
}

} // verus!
