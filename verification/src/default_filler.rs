//! The generator that implements every member by the default value of its type.

use crate::diagnostic::{Diagnostic, DiagnosticKind, DiagnosticView, failure};
use crate::impl_completer::{GenerateImpl, ImplContext};
use crate::no_args::NoArgs;
use crate::syntax::{
    all_attrs, arg_text, attr_texts, attrs_prefix, cfg_attrs, cfg_texts, FnArg, ImplItemConst,
    ImplItemConstView, ImplItemFn, ImplItemFnView, ImplItemType, ImplItemTypeView, param_texts,
    params_text, pat_text, render_attrs, render_params, Signature, signature_with, TraitItemConst,
    TraitItemFn, TraitItemType,
};
use crate::text::{lemma_views_push, views};
use vstd::prelude::*;
use vstd::string::*;

verus! {

/// A parameter as written, with the attribute in front of a typed one that keeps the
/// compiler from warning that it is unused.
pub open spec fn unused_arg_text(arg: FnArg) -> Seq<char> {
    match arg {
        FnArg::Receiver(_) => arg_text(arg),
        FnArg::Typed(typed) => attrs_prefix(
            attr_texts(typed.attrs@).push("#[allow(unused_variables)]"@),
        ) + pat_text(typed.pat) + ": "@ + typed.ty.text@,
    }
}

/// The signature with every typed parameter marked as possibly unused.
pub open spec fn unused_signature(sig: Signature) -> Seq<char> {
    signature_with(sig, sig.inputs@.map_values(|arg: FnArg| unused_arg_text(arg)))
}

/// The constant that the generator synthesizes.
pub open spec fn default_const(item: TraitItemConst) -> ImplItemConstView {
    ImplItemConstView {
        attrs: cfg_texts(item.attrs@),
        ident: item.ident@,
        generics: params_text(param_texts(item.generics.params@)),
        ty: item.ty.text@,
        expr: "Default::default()"@,
    }
}

/// The function that the generator synthesizes.
pub open spec fn default_fn(item: TraitItemFn) -> ImplItemFnView {
    ImplItemFnView {
        attrs: cfg_texts(item.attrs@),
        ident: item.sig.ident@,
        sig: unused_signature(item.sig),
        stmts: seq!["Default::default()"@],
    }
}

/// Writes the signature with every typed parameter marked as possibly unused.
pub fn unuse_sig(sig: &Signature) -> (r: String)
    ensures
        r@ == unused_signature(*sig),
{
    let mut args: Vec<String> = Vec::new();
    let mut i: usize = 0;
    while i < sig.inputs.len()
        invariant
            i <= sig.inputs.len(),
            args@.len() == i,
            forall|k: int| 0 <= k < i ==> (#[trigger] args@[k])@ == unused_arg_text(sig.inputs@[k]),
        decreases sig.inputs.len() - i,
    {
        let arg = match &sig.inputs[i] {
            FnArg::Receiver(_) => sig.inputs[i].to_text(),
            FnArg::Typed(typed) => {
                let mut attrs = all_attrs(&typed.attrs);
                let allow = String::from_str("#[allow(unused_variables)]");
                proof {
                    lemma_views_push(attrs@, allow);
                }
                attrs.push(allow);
                let mut out = render_attrs(&attrs);
                let pat = typed.pat.to_text();
                out.append(pat.as_str());
                out.append(": ");
                out.append(typed.ty.text.as_str());
                out
            },
        };
        args.push(arg);
        i += 1;
    }
    proof {
        assert(views(args@) =~= sig.inputs@.map_values(|arg: FnArg| unused_arg_text(arg)));
    }
    sig.render_with(&args)
}

/// The generator that fills in default values.
#[derive(Clone, Copy, Debug, PartialEq, Eq)]
pub struct Generator(pub NoArgs);

impl View for Generator {
    type V = ();

    open spec fn view(&self) -> () {
        ()
    }
}

impl GenerateImpl for Generator {
    open spec fn on_const(state: (), ctx: ImplContext, item: TraitItemConst) -> (
        (),
        Result<ImplItemConstView, DiagnosticView>,
    ) {
        ((), Ok(default_const(item)))
    }

    open spec fn on_fn(state: (), ctx: ImplContext, item: TraitItemFn) -> (
        (),
        Result<ImplItemFnView, DiagnosticView>,
    ) {
        ((), Ok(default_fn(item)))
    }

    open spec fn on_type(state: (), ctx: ImplContext, item: TraitItemType) -> (
        (),
        Result<ImplItemTypeView, DiagnosticView>,
    ) {
        ((), Err(failure(DiagnosticKind::DefaultType, item.ident@)))
    }

    /// The constant with the default value of its type.
    fn generate_const(&mut self, ctx: ImplContext, item: &TraitItemConst) -> (r: Result<
        ImplItemConst,
        Diagnostic,
    >) {
        let params = item.generics.param_texts();
        Ok(
            ImplItemConst {
                attrs: cfg_attrs(&item.attrs),
                ident: item.ident.clone(),
                generics: render_params(&params),
                ty: item.ty.text.clone(),
                expr: String::from_str("Default::default()"),
            },
        )
    }

    /// The function that returns the default value of its return type.
    fn generate_fn(&mut self, ctx: ImplContext, item: &TraitItemFn) -> (r: Result<
        ImplItemFn,
        Diagnostic,
    >) {
        let mut stmts: Vec<String> = Vec::new();
        stmts.push(String::from_str("Default::default()"));
        proof {
            assert(views(stmts@) =~= seq!["Default::default()"@]);
        }
        Ok(
            ImplItemFn {
                attrs: cfg_attrs(&item.attrs),
                ident: item.sig.ident.clone(),
                sig: unuse_sig(&item.sig),
                stmts,
            },
        )
    }

    /// Always fails: there is no such thing as a default type.
    fn generate_type(&mut self, ctx: ImplContext, item: &TraitItemType) -> (r: Result<
        ImplItemType,
        Diagnostic,
    >) {
        Err(Diagnostic { kind: DiagnosticKind::DefaultType, subject: item.ident.clone() })
    }
}

} // verus!
