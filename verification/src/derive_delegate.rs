//! Field delegation: every function of a trait is implemented for a struct or an enum by
//! calling the same function on each field and putting the results together.

use crate::cursor::{
    any_word_at, find_longest, found_text, longest, peek_any_word, peek_punct, punct_at,
    render_found, render_span, span_text,
};
use crate::derive_completer::{Bounds, DeriveContext, GenerateDerive};
use crate::diagnostic::{Diagnostic, DiagnosticKind, DiagnosticView, failure};
use crate::no_args::NoArgs;
use crate::recognize::Syntax;
use crate::results::{
    collect, lemma_collect_err, lemma_collect_ok, lemma_collected, strings_result,
};
use crate::syntax::{
    arg_text, attrs_prefix, cfg_attrs, cfg_texts, Data, DeriveInput, Field, FnArg,
    GenericArgument, has_receiver, ImplItemConst, ImplItemConstView, ImplItemFn, ImplItemFnView,
    ImplItemType, ImplItemTypeView, is_self_ty, is_self_type, Pat, Path, path_text, render_attrs,
    result_view, ReturnType, signature_text, TraitItemConst, TraitItemFn, TraitItemType, Type,
    TypeKind, Variant,
};
use crate::text::{
    concat, decimal, decimal_string, join, join_strings, lemma_concat_push, lemma_views_push,
    str_eq, views,
};
use crate::token::{Token, tokens, TokenTree};
use crate::util::{grouped_args, Once, parse_grouped_attr, ParseArgs};
use vstd::prelude::*;
use vstd::string::*;

verus! {

/// What a function declares for its delegation, in the group `derive_delegate` of its
/// `portrait` attributes.
#[derive(Debug, PartialEq, Eq)]
pub struct FnArgs {
    /// `reduce = f`: the binary function that folds the results of the fields.
    pub reduce: Once<String>,
    /// `reduce_base = e`: the value that the fold starts from.
    pub reduce_base: Once<String>,
    /// `try` or `try = f`: propagate the failure of a field's call, and wrap the overall
    /// result with `f`, or with `Ok` where none is given.
    pub with_try: Once<Option<String>>,
}

/// The mathematical content of [`FnArgs`].
pub struct FnArgsView {
    pub reduce: Option<Seq<char>>,
    pub reduce_base: Option<Seq<char>>,
    pub with_try: Option<Option<Seq<char>>>,
}

impl View for FnArgs {
    type V = FnArgsView;

    open spec fn view(&self) -> FnArgsView {
        FnArgsView {
            reduce: match self.reduce.0 {
                Some(f) => Some(f@),
                None => None,
            },
            reduce_base: match self.reduce_base.0 {
                Some(e) => Some(e@),
                None => None,
            },
            with_try: match self.with_try.0 {
                Some(Some(f)) => Some(Some(f@)),
                Some(None) => Some(None),
                None => None,
            },
        }
    }
}

/// What `reduce = e` or `reduce_base = e` at `at` holds: the expression and where it ends.
pub open spec fn assigned(stream: Seq<Token>, at: int) -> Option<(Seq<char>, int)> {
    if !punct_at(stream, at + 1, '=') {
        None
    } else {
        match longest(Syntax::Expr, stream, at + 2) {
            None => None,
            Some(end) => Some((span_text(stream, at + 2, end), end)),
        }
    }
}

impl ParseArgs for FnArgs {
    open spec fn initial() -> FnArgsView {
        FnArgsView { reduce: None, reduce_base: None, with_try: None }
    }

    open spec fn parsed(state: FnArgsView, stream: Seq<Token>, at: int) -> Result<
        (FnArgsView, int),
        DiagnosticView,
    > {
        match any_word_at(stream, at) {
            None => Err(failure(DiagnosticKind::UnknownArgument, found_text(stream, at))),
            Some(key) => if key == "reduce"@ {
                match assigned(stream, at) {
                    None => Err(failure(DiagnosticKind::MalformedArgument, key)),
                    Some((value, end)) => if state.reduce is Some {
                        Err(failure(DiagnosticKind::ArgumentSetTwice, key))
                    } else {
                        Ok((FnArgsView { reduce: Some(value), ..state }, end))
                    },
                }
            } else if key == "reduce_base"@ {
                match assigned(stream, at) {
                    None => Err(failure(DiagnosticKind::MalformedArgument, key)),
                    Some((value, end)) => if state.reduce_base is Some {
                        Err(failure(DiagnosticKind::ArgumentSetTwice, key))
                    } else {
                        Ok((FnArgsView { reduce_base: Some(value), ..state }, end))
                    },
                }
            } else if key == "try"@ {
                if punct_at(stream, at + 1, '=') {
                    match assigned(stream, at) {
                        None => Err(failure(DiagnosticKind::MalformedArgument, key)),
                        Some((value, end)) => if state.with_try is Some {
                            Err(failure(DiagnosticKind::ArgumentSetTwice, key))
                        } else {
                            Ok((FnArgsView { with_try: Some(Some(value)), ..state }, end))
                        },
                    }
                } else if state.with_try is Some {
                    Err(failure(DiagnosticKind::ArgumentSetTwice, key))
                } else {
                    Ok((FnArgsView { with_try: Some(None), ..state }, at + 1))
                }
            } else {
                Err(failure(DiagnosticKind::UnknownArgument, key))
            },
        }
    }

    fn empty() -> (r: FnArgs) {
        FnArgs { reduce: Once(None), reduce_base: Once(None), with_try: Once(None) }
    }

    fn parse_once(&mut self, stream: &Vec<TokenTree>, at: usize) -> (r: Result<usize, Diagnostic>) {
        let key = match peek_any_word(stream, at) {
            Some(key) => key.as_str(),
            None => {
                return Err(
                    Diagnostic {
                        kind: DiagnosticKind::UnknownArgument,
                        subject: render_found(stream, at),
                    },
                );
            },
        };
        if str_eq(key, "reduce") {
            match read_assigned(stream, at) {
                None => Err(Diagnostic::new(DiagnosticKind::MalformedArgument, key)),
                Some((value, end)) => match self.reduce.set(value, key) {
                    Ok(()) => Ok(end),
                    Err(d) => Err(d),
                },
            }
        } else if str_eq(key, "reduce_base") {
            match read_assigned(stream, at) {
                None => Err(Diagnostic::new(DiagnosticKind::MalformedArgument, key)),
                Some((value, end)) => match self.reduce_base.set(value, key) {
                    Ok(()) => Ok(end),
                    Err(d) => Err(d),
                },
            }
        } else if str_eq(key, "try") {
            if peek_punct(stream, at + 1, '=') {
                match read_assigned(stream, at) {
                    None => Err(Diagnostic::new(DiagnosticKind::MalformedArgument, key)),
                    Some((value, end)) => match self.with_try.set(Some(value), key) {
                        Ok(()) => Ok(end),
                        Err(d) => Err(d),
                    },
                }
            } else {
                match self.with_try.set(None, key) {
                    Ok(()) => Ok(at + 1),
                    Err(d) => Err(d),
                }
            }
        } else {
            Err(Diagnostic::new(DiagnosticKind::UnknownArgument, key))
        }
    }
}

/// Reads what `key = e` at `at` holds.
pub(crate) fn read_assigned(stream: &Vec<TokenTree>, at: usize) -> (r: Option<(String, usize)>)
    requires
        at < stream.len(),
    ensures
        match r {
            Some((value, end)) => assigned(tokens(stream@), at as int) == Some(
                (value@, end as int),
            ) && at < end <= stream.len(),
            None => assigned(tokens(stream@), at as int) is None,
        },
{
    if !peek_punct(stream, at + 1, '=') {
        return None;
    }
    match find_longest(Syntax::Expr, stream, at + 2) {
        None => None,
        Some(end) => Some((render_span(stream, at + 2, end), end)),
    }
}

/// How the results of the fields' calls become the result of the function.
#[derive(Clone, Debug, PartialEq, Eq)]
pub enum Aggregation {
    /// Every call is made for its effect, and its result dropped.
    Unit,
    /// A new value of the implementing type is built, each field from its call.
    SelfReconstruct,
    /// The results are folded from the left with `reducer`, starting from `base`, or from
    /// the first result where no base is given.
    Reduce { reducer: String, base: Option<String> },
    /// Nothing applies to the return type, whose text is held.
    Unresolved(String),
}

/// The mathematical content of an [`Aggregation`].
pub enum AggregationView {
    Unit,
    SelfReconstruct,
    Reduce { reducer: Seq<char>, base: Option<Seq<char>> },
    Unresolved(Seq<char>),
}

impl View for Aggregation {
    type V = AggregationView;

    open spec fn view(&self) -> AggregationView {
        match self {
            Aggregation::Unit => AggregationView::Unit,
            Aggregation::SelfReconstruct => AggregationView::SelfReconstruct,
            Aggregation::Reduce { reducer, base } => AggregationView::Reduce {
                reducer: reducer@,
                base: match base {
                    Some(b) => Some(b@),
                    None => None,
                },
            },
            Aggregation::Unresolved(ty) => AggregationView::Unresolved(ty@),
        }
    }
}

/// The type whose values are aggregated: the return type itself, or with fallible
/// propagation the first type argument of the wrapper that is returned. `None` stands for
/// a function without a return type.
pub open spec fn payload_type(output: ReturnType, with_try: bool) -> Result<
    Option<Type>,
    DiagnosticView,
> {
    match output {
        ReturnType::Default => Ok(None),
        ReturnType::Type(ty) => if with_try {
            match ty.kind {
                TypeKind::Path { path, arguments } => if arguments@.len() > 0 && arguments@[0] is Type {
                    Ok(Some(arguments@[0]->Type_0))
                } else {
                    Err(failure(DiagnosticKind::TryWithoutWrapper, ty.text@))
                },
                _ => Err(failure(DiagnosticKind::TryWithoutWrapper, ty.text@)),
            }
        } else {
            Ok(Some(ty))
        },
    }
}

/// Whether a payload type is the unit type.
pub open spec fn is_unit(payload: Option<Type>) -> bool {
    match payload {
        None => true,
        Some(ty) => ty.kind == TypeKind::Tuple(0),
    }
}

/// Whether a payload type is `Self`.
pub open spec fn is_self_path(payload: Option<Type>) -> bool {
    payload matches Some(ty) && ty.kind matches TypeKind::Path { path, .. } && crate::syntax::path_is_ident(
        path,
        "Self"@,
    )
}

/// The aggregation for a payload type: unit before `Self`, `Self` before a configured
/// reduction.
pub open spec fn aggregation_of(args: FnArgsView, payload: Option<Type>) -> AggregationView {
    if is_unit(payload) {
        AggregationView::Unit
    } else if is_self_path(payload) {
        AggregationView::SelfReconstruct
    } else {
        match args.reduce {
            Some(reducer) => AggregationView::Reduce { reducer, base: args.reduce_base },
            None => AggregationView::Unresolved(payload->Some_0.text@),
        }
    }
}

/// The variable that the `ord`-th field of the receiver is bound to.
pub open spec fn self_binding(ord: nat) -> Seq<char> {
    "__portrait_self_"@ + decimal(ord)
}

/// How the `ord`-th field is named in a pattern or a constructor: by its name, or by its
/// position where it has none.
pub open spec fn member_text(field: Field, ord: nat) -> Seq<char> {
    match field.ident {
        Some(ident) => ident@,
        None => decimal(ord),
    }
}

/// The part of a pattern that binds the `ord`-th field of the receiver.
pub open spec fn field_binding(field: Field, ord: nat) -> Seq<char> {
    attrs_prefix(cfg_texts(field.attrs@)) + member_text(field, ord) + ": "@ + self_binding(ord)
}

/// The bindings of all fields, in order.
pub open spec fn field_bindings(fields: Seq<Field>) -> Seq<Seq<char>> {
    Seq::new(fields.len(), |i: int| field_binding(fields[i], i as nat))
}

/// The argument that the call on the `ord`-th field gets for the parameter `arg`.
///
/// The receiver becomes the field of the receiver. A parameter of type `Self` becomes the
/// same field taken out of the parameter's value, which only a struct allows. Any other
/// parameter is passed on by its name.
pub open spec fn delegated_arg(
    arg: FnArg,
    field: Field,
    ord: nat,
    ctor: Seq<char>,
    refutable: bool,
) -> Result<Seq<char>, DiagnosticView> {
    match arg {
        FnArg::Receiver(_) => Ok(self_binding(ord)),
        FnArg::Typed(typed) => if is_self_type(typed.ty) && refutable {
            Err(failure(DiagnosticKind::SelfParameter, arg_text(arg)))
        } else {
            match typed.pat {
                Pat::Other(text) => Err(failure(DiagnosticKind::PatternParameter, text@)),
                Pat::Ident(p) => if is_self_type(typed.ty) {
                    Ok(
                        "{ let "@ + ctor + " { "@ + member_text(field, ord)
                            + ": __portrait_other, .. } = "@ + p.ident@ + "; __portrait_other }"@,
                    )
                } else {
                    Ok(p.ident@)
                },
            }
        },
    }
}

/// The argument, or the failure, for each parameter of the call on one field.
pub open spec fn delegated_args(
    inputs: Seq<FnArg>,
    field: Field,
    ord: nat,
    ctor: Seq<char>,
    refutable: bool,
) -> Seq<Result<Seq<char>, DiagnosticView>> {
    Seq::new(inputs.len(), |k: int| delegated_arg(inputs[k], field, ord, ctor, refutable))
}

/// The call of the trait's function on the `ord`-th field.
pub open spec fn delegated_call(
    item: TraitItemFn,
    with_try: bool,
    trait_path: Path,
    field: Field,
    ord: nat,
    ctor: Seq<char>,
    refutable: bool,
) -> Result<Seq<char>, DiagnosticView> {
    match collect(delegated_args(item.sig.inputs@, field, ord, ctor, refutable)) {
        Err(d) => Err(d),
        Ok(args) => Ok(
            path_text(trait_path) + "::"@ + item.sig.ident@ + "("@ + join(args, ", "@) + ")"@ + (
            if with_try {
                "?"@
            } else {
                Seq::empty()
            }),
        ),
    }
}

/// The calls on all fields, in order, or the first failure among them.
pub open spec fn delegated_calls(
    item: TraitItemFn,
    with_try: bool,
    trait_path: Path,
    fields: Seq<Field>,
    ctor: Seq<char>,
    refutable: bool,
) -> Result<Seq<Seq<char>>, DiagnosticView> {
    collect(
        Seq::new(
            fields.len(),
            |i: int| delegated_call(item, with_try, trait_path, fields[i], i as nat, ctor, refutable),
        ),
    )
}

/// The first `n` of `exprs` folded from the left into `stack`.
pub open spec fn reduced(reducer: Seq<char>, stack: Seq<char>, exprs: Seq<Seq<char>>, n: nat) -> Seq<
    char,
>
    decreases n,
{
    if n == 0 {
        stack
    } else {
        "("@ + reducer + ")("@ + reduced(reducer, stack, exprs, (n - 1) as nat) + ", "@ + exprs[n
            - 1] + ")"@
    }
}

/// The part of a constructor that sets the `ord`-th field to `expr`.
pub open spec fn field_value(field: Field, ord: nat, expr: Seq<char>) -> Seq<char> {
    attrs_prefix(cfg_texts(field.attrs@)) + member_text(field, ord) + ": "@ + expr
}

/// The constructor `ctor` with each field set to its call.
pub open spec fn reconstructed(fields: Seq<Field>, calls: Seq<Seq<char>>, ctor: Seq<char>) -> Seq<
    char,
> {
    ctor + " { "@ + join(
        Seq::new(calls.len(), |i: int| field_value(fields[i], i as nat, calls[i])),
        ", "@,
    ) + " }"@
}

/// The statements that put the calls on the fields together.
///
/// One call alone is the result, whatever the policy. Otherwise the policy decides.
pub open spec fn aggregated(
    calls: Seq<Seq<char>>,
    policy: AggregationView,
    fields: Seq<Field>,
    ctor: Seq<char>,
) -> Result<Seq<Seq<char>>, DiagnosticView> {
    if calls.len() == 1 {
        Ok(seq![calls[0]])
    } else {
        match policy {
            AggregationView::Unit => Ok(calls.map_values(|call: Seq<char>| call + ";"@)),
            AggregationView::SelfReconstruct => Ok(seq![reconstructed(fields, calls, ctor)]),
            AggregationView::Reduce { reducer, base } => match base {
                Some(b) => Ok(seq![reduced(reducer, b, calls, calls.len())]),
                None => if calls.len() == 0 {
                    Err(failure(DiagnosticKind::ReduceWithoutFields, ctor))
                } else {
                    Ok(
                        seq![
                            reduced(reducer, calls[0], calls.skip(1), (calls.len() - 1) as nat),
                        ],
                    )
                },
            },
            AggregationView::Unresolved(ty) => Err(
                failure(DiagnosticKind::UnknownAggregation, ty),
            ),
        }
    }
}

/// The statements that delegate to the given fields and aggregate the results.
pub open spec fn delegated_return(
    item: TraitItemFn,
    with_try: bool,
    trait_path: Path,
    policy: AggregationView,
    fields: Seq<Field>,
    ctor: Seq<char>,
    refutable: bool,
) -> Result<Seq<Seq<char>>, DiagnosticView> {
    match delegated_calls(item, with_try, trait_path, fields, ctor, refutable) {
        Err(d) => Err(d),
        Ok(calls) => aggregated(calls, policy, fields, ctor),
    }
}

/// The statement that takes the receiver of a struct apart.
pub open spec fn destructuring(fields: Seq<Field>) -> Seq<char> {
    "let Self { "@ + join(field_bindings(fields), ", "@) + " } = self;"@
}

/// The body of a function delegated to the fields of a struct.
pub open spec fn delegated_struct(
    item: TraitItemFn,
    with_try: bool,
    trait_path: Path,
    policy: AggregationView,
    fields: Seq<Field>,
) -> Result<Seq<Seq<char>>, DiagnosticView> {
    match delegated_return(item, with_try, trait_path, policy, fields, "Self"@, false) {
        Err(d) => Err(d),
        Ok(stmts) => if has_receiver(item.sig) {
            Ok(seq![destructuring(fields)] + stmts)
        } else {
            Ok(stmts)
        },
    }
}

/// The path that constructs a variant.
pub open spec fn variant_path(variant: Variant) -> Seq<char> {
    "Self::"@ + variant.ident@
}

/// The pattern that takes a variant apart.
pub open spec fn variant_pattern(variant: Variant) -> Seq<char> {
    variant_path(variant) + " { "@ + concat(
        field_bindings(variant.fields@).map_values(|b: Seq<char>| b + ", "@),
    ) + ".. }"@
}

/// The match arm of one variant.
pub open spec fn delegated_arm(
    item: TraitItemFn,
    with_try: bool,
    trait_path: Path,
    policy: AggregationView,
    variant: Variant,
) -> Result<Seq<char>, DiagnosticView> {
    match delegated_return(
        item,
        with_try,
        trait_path,
        policy,
        variant.fields@,
        variant_path(variant),
        true,
    ) {
        Err(d) => Err(d),
        Ok(stmts) => Ok(
            attrs_prefix(cfg_texts(variant.attrs@)) + variant_pattern(variant) + " => { "@ + join(
                stmts,
                " "@,
            ) + " },"@,
        ),
    }
}

/// The match arms of all variants, in order, or the first failure among them.
pub open spec fn delegated_arms(
    item: TraitItemFn,
    with_try: bool,
    trait_path: Path,
    policy: AggregationView,
    variants: Seq<Variant>,
) -> Result<Seq<Seq<char>>, DiagnosticView> {
    collect(
        Seq::new(
            variants.len(),
            |i: int| delegated_arm(item, with_try, trait_path, policy, variants[i]),
        ),
    )
}

/// The body of a function delegated to the fields of an enum's variants: one dispatch over
/// the receiver, with an arm for each variant.
pub open spec fn delegated_enum(
    item: TraitItemFn,
    with_try: bool,
    trait_path: Path,
    policy: AggregationView,
    variants: Seq<Variant>,
) -> Result<Seq<Seq<char>>, DiagnosticView> {
    if !has_receiver(item.sig) {
        Err(failure(DiagnosticKind::MissingReceiver, signature_text(item.sig)))
    } else {
        match delegated_arms(item, with_try, trait_path, policy, variants) {
            Err(d) => Err(d),
            Ok(arms) => Ok(seq!["match self { "@ + join(arms, " "@) + " }"@]),
        }
    }
}

/// The body wrapped into the constructor of success.
pub open spec fn wrapped(ctor: Option<Seq<char>>, stmts: Seq<Seq<char>>) -> Seq<char> {
    (match ctor {
        Some(f) => f,
        None => "Ok"@,
    }) + "({ "@ + join(stmts, " "@) + " })"@
}

/// The body of a delegated function.
pub open spec fn delegated_body(
    item: TraitItemFn,
    args: FnArgsView,
    trait_path: Path,
    input: DeriveInput,
) -> Result<Seq<Seq<char>>, DiagnosticView> {
    match payload_type(item.sig.output, args.with_try is Some) {
        Err(d) => Err(d),
        Ok(payload) => {
            let policy = aggregation_of(args, payload);
            let with_try = args.with_try is Some;
            let body = match input.data {
                Data::Struct(fields) => delegated_struct(
                    item,
                    with_try,
                    trait_path,
                    policy,
                    fields@,
                ),
                Data::Enum(variants) => delegated_enum(
                    item,
                    with_try,
                    trait_path,
                    policy,
                    variants@,
                ),
                Data::Union => Err(failure(DiagnosticKind::DelegateUnion, input.ident@)),
            };
            match body {
                Err(d) => Err(d),
                Ok(stmts) => match args.with_try {
                    Some(ctor) => Ok(seq![wrapped(ctor, stmts)]),
                    None => Ok(stmts),
                },
            }
        },
    }
}

/// The function that field delegation synthesizes for `item`.
pub open spec fn delegated_fn(item: TraitItemFn, trait_path: Path, input: DeriveInput) -> Result<
    ImplItemFnView,
    DiagnosticView,
> {
    match grouped_args::<FnArgs>(item.attrs@, "derive_delegate"@) {
        Err(d) => Err(d),
        Ok(args) => match delegated_body(item, args, trait_path, input) {
            Err(d) => Err(d),
            Ok(stmts) => Ok(
                ImplItemFnView {
                    attrs: cfg_texts(item.attrs@),
                    ident: item.sig.ident@,
                    sig: signature_text(item.sig),
                    stmts,
                },
            ),
        },
    }
}

/// The bound that makes the field's type implement the trait.
pub open spec fn field_bound(field: Field, trait_path: Path) -> Seq<char> {
    field.ty@ + ": "@ + path_text(trait_path)
}

/// The bounds for the given fields, in order.
pub open spec fn field_bounds(fields: Seq<Field>, trait_path: Path) -> Seq<Seq<char>> {
    fields.map_values(|field: Field| field_bound(field, trait_path))
}

/// The bounds for the fields of the first `n` variants, in order.
pub open spec fn variant_bounds(variants: Seq<Variant>, trait_path: Path, n: nat) -> Seq<Seq<char>>
    decreases n,
{
    if n == 0 {
        Seq::empty()
    } else {
        variant_bounds(variants, trait_path, (n - 1) as nat) + field_bounds(
            variants[n - 1].fields@,
            trait_path,
        )
    }
}

/// The bounds that field delegation adds: one for every field of the declared type.
pub open spec fn delegated_bounds(input: DeriveInput, trait_path: Path) -> Seq<Seq<char>> {
    match input.data {
        Data::Struct(fields) => field_bounds(fields@, trait_path),
        Data::Enum(variants) => variant_bounds(variants@, trait_path, variants@.len()),
        Data::Union => Seq::empty(),
    }
}

/// Chooses the aggregation for a payload type; `None` stands for no return type.
pub fn choose_aggregation(fn_args: &FnArgs, payload: Option<&Type>) -> (r: Aggregation)
    ensures
        r@ == aggregation_of(
            fn_args@,
            match payload {
                Some(ty) => Some(*ty),
                None => None,
            },
        ),
{
    let ty = match payload {
        None => {
            return Aggregation::Unit;
        },
        Some(ty) => ty,
    };
    match &ty.kind {
        TypeKind::Tuple(len) => {
            if *len == 0 {
                return Aggregation::Unit;
            }
        },
        TypeKind::Path { path, .. } => {
            if path.is_ident("Self") {
                return Aggregation::SelfReconstruct;
            }
        },
        _ => {},
    }
    match &fn_args.reduce.0 {
        Some(reducer) => Aggregation::Reduce {
            reducer: reducer.clone(),
            base: match &fn_args.reduce_base.0 {
                Some(b) => Some(b.clone()),
                None => None,
            },
        },
        None => Aggregation::Unresolved(ty.text.clone()),
    }
}

fn member_name(field: &Field, ord: usize) -> (r: String)
    ensures
        r@ == member_text(*field, ord as nat),
{
    match &field.ident {
        Some(ident) => ident.clone(),
        None => decimal_string(ord),
    }
}

fn binding_name(ord: usize) -> (r: String)
    ensures
        r@ == self_binding(ord as nat),
{
    let mut out = String::from_str("__portrait_self_");
    let number = decimal_string(ord);
    out.append(number.as_str());
    out
}

fn bind_fields(fields: &Vec<Field>) -> (r: Vec<String>)
    ensures
        views(r@) == field_bindings(fields@),
{
    let mut out: Vec<String> = Vec::new();
    let mut i: usize = 0;
    while i < fields.len()
        invariant
            i <= fields.len(),
            out@.len() == i,
            forall|k: int|
                0 <= k < i ==> (#[trigger] out@[k])@ == field_binding(fields@[k], k as nat),
        decreases fields.len() - i,
    {
        let attrs = cfg_attrs(&fields[i].attrs);
        let mut part = render_attrs(&attrs);
        let member = member_name(&fields[i], i);
        part.append(member.as_str());
        part.append(": ");
        let binding = binding_name(i);
        part.append(binding.as_str());
        out.push(part);
        i += 1;
    }
    proof {
        assert(views(out@) =~= field_bindings(fields@));
    }
    out
}

/// Makes the argument that the call on the `ord`-th field gets for a parameter.
pub fn transform_arg(
    arg: &FnArg,
    field: &Field,
    ord: usize,
    ctor_path: &str,
    is_refutable: bool,
) -> (r: Result<String, Diagnostic>)
    ensures
        result_view(r) == delegated_arg(*arg, *field, ord as nat, ctor_path@, is_refutable),
{
    match arg {
        FnArg::Receiver(_) => Ok(binding_name(ord)),
        FnArg::Typed(typed) => {
            let self_typed = is_self_ty(&typed.ty);
            if self_typed && is_refutable {
                let subject = arg.to_text();
                return Err(Diagnostic { kind: DiagnosticKind::SelfParameter, subject });
            }
            match &typed.pat {
                Pat::Other(text) => Err(
                    Diagnostic { kind: DiagnosticKind::PatternParameter, subject: text.clone() },
                ),
                Pat::Ident(p) => {
                    if self_typed {
                        let mut out = String::from_str("{ let ");
                        out.append(ctor_path);
                        out.append(" { ");
                        let member = member_name(field, ord);
                        out.append(member.as_str());
                        out.append(": __portrait_other, .. } = ");
                        out.append(p.ident.as_str());
                        out.append("; __portrait_other }");
                        Ok(out)
                    } else {
                        Ok(p.ident.clone())
                    }
                },
            }
        },
    }
}

/// Builds the call of the trait's function on the `ord`-th field.
pub fn transform_field(
    item: &TraitItemFn,
    fn_args: &FnArgs,
    trait_path: &Path,
    field: &Field,
    ord: usize,
    ctor_path: &str,
    is_refutable: bool,
) -> (r: Result<String, Diagnostic>)
    ensures
        result_view(r) == delegated_call(
            *item,
            fn_args@.with_try is Some,
            *trait_path,
            *field,
            ord as nat,
            ctor_path@,
            is_refutable,
        ),
{
    let inputs = &item.sig.inputs;
    let ghost results = delegated_args(inputs@, *field, ord as nat, ctor_path@, is_refutable);
    let mut args: Vec<String> = Vec::new();
    let mut k: usize = 0;
    while k < inputs.len()
        invariant
            k <= inputs.len(),
            inputs == &item.sig.inputs,
            results == delegated_args(inputs@, *field, ord as nat, ctor_path@, is_refutable),
            args@.len() == k,
            forall|j: int|
                #![trigger results[j]]
                #![trigger args@[j]]
                0 <= j < k ==> results[j] == Ok::<Seq<char>, DiagnosticView>(args@[j]@),
        decreases inputs.len() - k,
    {
        match transform_arg(&inputs[k], field, ord, ctor_path, is_refutable) {
            Ok(arg) => {
                args.push(arg);
            },
            Err(d) => {
                proof {
                    lemma_collect_err(results, k as int);
                }
                return Err(d);
            },
        }
        k += 1;
    }
    proof {
        lemma_collect_ok(results, views(args@));
    }
    let mut out = trait_path.to_text();
    out.append("::");
    out.append(item.sig.ident.as_str());
    out.append("(");
    let joined = join_strings(&args, ", ");
    out.append(joined.as_str());
    out.append(")");
    if fn_args.with_try.0.is_some() {
        out.append("?");
    }
    Ok(out)
}

/// Builds the calls on all fields, in order.
pub fn transform_arg_fields(
    item: &TraitItemFn,
    fn_args: &FnArgs,
    trait_path: &Path,
    fields: &Vec<Field>,
    ctor_path: &str,
    is_refutable: bool,
) -> (r: Result<Vec<String>, Diagnostic>)
    ensures
        strings_result(r) == delegated_calls(
            *item,
            fn_args@.with_try is Some,
            *trait_path,
            fields@,
            ctor_path@,
            is_refutable,
        ),
{
    let ghost with_try = fn_args@.with_try is Some;
    let ghost results = Seq::new(
        fields@.len(),
        |i: int|
            delegated_call(
                *item,
                with_try,
                *trait_path,
                fields@[i],
                i as nat,
                ctor_path@,
                is_refutable,
            ),
    );
    let mut calls: Vec<String> = Vec::new();
    let mut i: usize = 0;
    while i < fields.len()
        invariant
            i <= fields.len(),
            with_try == (fn_args@.with_try is Some),
            results == Seq::new(
                fields@.len(),
                |i: int|
                    delegated_call(
                        *item,
                        with_try,
                        *trait_path,
                        fields@[i],
                        i as nat,
                        ctor_path@,
                        is_refutable,
                    ),
            ),
            calls@.len() == i,
            forall|j: int|
                #![trigger results[j]]
                #![trigger calls@[j]]
                0 <= j < i ==> results[j] == Ok::<Seq<char>, DiagnosticView>(calls@[j]@),
        decreases fields.len() - i,
    {
        match transform_field(item, fn_args, trait_path, &fields[i], i, ctor_path, is_refutable) {
            Ok(call) => {
                calls.push(call);
            },
            Err(d) => {
                proof {
                    lemma_collect_err(results, i as int);
                }
                return Err(d);
            },
        }
        i += 1;
    }
    proof {
        lemma_collect_ok(results, views(calls@));
    }
    Ok(calls)
}

fn reduce_calls(reducer: &str, start: String, calls: &Vec<String>, from: usize) -> (r: String)
    requires
        from <= calls.len(),
    ensures
        r@ == reduced(
            reducer@,
            start@,
            views(calls@).skip(from as int),
            (calls.len() - from) as nat,
        ),
{
    let ghost rest = views(calls@).skip(from as int);
    let mut stack = start;
    let mut i: usize = from;
    while i < calls.len()
        invariant
            from <= i <= calls.len(),
            rest == views(calls@).skip(from as int),
            stack@ == reduced(reducer@, start@, rest, (i - from) as nat),
        decreases calls.len() - i,
    {
        let mut next = String::from_str("(");
        next.append(reducer);
        next.append(")(");
        next.append(stack.as_str());
        next.append(", ");
        next.append(calls[i].as_str());
        next.append(")");
        proof {
            assert(rest[i - from] == calls@[i as int]@);
        }
        stack = next;
        i += 1;
    }
    stack
}

fn reconstruct(fields: &Vec<Field>, calls: &Vec<String>, ctor_path: &str) -> (r: String)
    requires
        calls.len() <= fields.len(),
    ensures
        r@ == reconstructed(fields@, views(calls@), ctor_path@),
{
    let mut parts: Vec<String> = Vec::new();
    let mut i: usize = 0;
    while i < calls.len()
        invariant
            i <= calls.len(),
            calls.len() <= fields.len(),
            parts@.len() == i,
            forall|k: int|
                0 <= k < i ==> (#[trigger] parts@[k])@ == field_value(
                    fields@[k],
                    k as nat,
                    calls@[k]@,
                ),
        decreases calls.len() - i,
    {
        let attrs = cfg_attrs(&fields[i].attrs);
        let mut part = render_attrs(&attrs);
        let member = member_name(&fields[i], i);
        part.append(member.as_str());
        part.append(": ");
        part.append(calls[i].as_str());
        parts.push(part);
        i += 1;
    }
    proof {
        assert(views(parts@) =~= Seq::new(
            views(calls@).len(),
            |i: int| field_value(fields@[i], i as nat, views(calls@)[i]),
        ));
    }
    let mut out = String::from_str(ctor_path);
    out.append(" { ");
    let joined = join_strings(&parts, ", ");
    out.append(joined.as_str());
    out.append(" }");
    out
}

/// Puts the calls on the fields together, as the policy says.
pub(crate) fn aggregate(
    calls: Vec<String>,
    policy: &Aggregation,
    fields: &Vec<Field>,
    ctor_path: &str,
) -> (r: Result<Vec<String>, Diagnostic>)
    requires
        calls.len() <= fields.len(),
    ensures
        strings_result(r) == aggregated(views(calls@), policy@, fields@, ctor_path@),
{
    if calls.len() == 1 {
        proof {
            assert(views(calls@) =~= seq![calls@[0]@]);
        }
        return Ok(calls);
    }
    match policy {
        Aggregation::Unit => {
            let mut stmts: Vec<String> = Vec::new();
            let mut i: usize = 0;
            while i < calls.len()
                invariant
                    i <= calls.len(),
                    stmts@.len() == i,
                    forall|k: int| 0 <= k < i ==> (#[trigger] stmts@[k])@ == calls@[k]@ + ";"@,
                decreases calls.len() - i,
            {
                let mut stmt = calls[i].clone();
                stmt.append(";");
                stmts.push(stmt);
                i += 1;
            }
            proof {
                assert(views(stmts@) =~= views(calls@).map_values(|call: Seq<char>| call + ";"@));
            }
            Ok(stmts)
        },
        Aggregation::SelfReconstruct => {
            let expr = reconstruct(fields, &calls, ctor_path);
            let mut stmts: Vec<String> = Vec::new();
            stmts.push(expr);
            proof {
                assert(views(stmts@) =~= seq![stmts@[0]@]);
            }
            Ok(stmts)
        },
        Aggregation::Reduce { reducer, base } => {
            let expr = match base {
                Some(b) => {
                    proof {
                        assert(views(calls@).skip(0) =~= views(calls@));
                    }
                    reduce_calls(reducer.as_str(), b.clone(), &calls, 0)
                },
                None => {
                    if calls.len() == 0 {
                        return Err(
                            Diagnostic::new(DiagnosticKind::ReduceWithoutFields, ctor_path),
                        );
                    }
                    reduce_calls(reducer.as_str(), calls[0].clone(), &calls, 1)
                },
            };
            let mut stmts: Vec<String> = Vec::new();
            stmts.push(expr);
            proof {
                assert(views(stmts@) =~= seq![stmts@[0]@]);
            }
            Ok(stmts)
        },
        Aggregation::Unresolved(ty) => Err(
            Diagnostic { kind: DiagnosticKind::UnknownAggregation, subject: ty.clone() },
        ),
    }
}

/// Delegates to the given fields and aggregates the results.
pub fn transform_return(
    item: &TraitItemFn,
    fn_args: &FnArgs,
    trait_path: &Path,
    policy: &Aggregation,
    fields: &Vec<Field>,
    ctor_path: &str,
    is_refutable: bool,
) -> (r: Result<Vec<String>, Diagnostic>)
    ensures
        strings_result(r) == delegated_return(
            *item,
            fn_args@.with_try is Some,
            *trait_path,
            policy@,
            fields@,
            ctor_path@,
            is_refutable,
        ),
{
    let calls = match transform_arg_fields(
        item,
        fn_args,
        trait_path,
        fields,
        ctor_path,
        is_refutable,
    ) {
        Ok(calls) => calls,
        Err(d) => {
            return Err(d);
        },
    };
    proof {
        lemma_collected(
            Seq::new(
                fields@.len(),
                |i: int|
                    delegated_call(
                        *item,
                        fn_args@.with_try is Some,
                        *trait_path,
                        fields@[i],
                        i as nat,
                        ctor_path@,
                        is_refutable,
                    ),
            ),
        );
    }
    aggregate(calls, policy, fields, ctor_path)
}

/// Delegates a function to the fields of a struct.
pub fn transform_struct(
    item: &TraitItemFn,
    trait_path: &Path,
    fn_args: &FnArgs,
    policy: &Aggregation,
    fields: &Vec<Field>,
) -> (r: Result<Vec<String>, Diagnostic>)
    ensures
        strings_result(r) == delegated_struct(
            *item,
            fn_args@.with_try is Some,
            *trait_path,
            policy@,
            fields@,
        ),
{
    let returned = match transform_return(
        item,
        fn_args,
        trait_path,
        policy,
        fields,
        "Self",
        false,
    ) {
        Ok(stmts) => stmts,
        Err(d) => {
            return Err(d);
        },
    };
    if item.sig.receiver().is_none() {
        return Ok(returned);
    }
    let bindings = bind_fields(fields);
    let mut first = String::from_str("let Self { ");
    let joined = join_strings(&bindings, ", ");
    first.append(joined.as_str());
    first.append(" } = self;");
    let mut stmts: Vec<String> = Vec::new();
    stmts.push(first);
    let mut i: usize = 0;
    while i < returned.len()
        invariant
            i <= returned.len(),
            stmts@.len() == i + 1,
            stmts@[0]@ == destructuring(fields@),
            forall|k: int| 1 <= k <= i ==> (#[trigger] stmts@[k])@ == returned@[k - 1]@,
        decreases returned.len() - i,
    {
        stmts.push(returned[i].clone());
        i += 1;
    }
    proof {
        assert(views(stmts@) =~= seq![destructuring(fields@)] + views(returned@));
    }
    Ok(stmts)
}

fn variant_arm(
    item: &TraitItemFn,
    trait_path: &Path,
    fn_args: &FnArgs,
    policy: &Aggregation,
    variant: &Variant,
) -> (r: Result<String, Diagnostic>)
    ensures
        result_view(r) == delegated_arm(
            *item,
            fn_args@.with_try is Some,
            *trait_path,
            policy@,
            *variant,
        ),
{
    let mut ctor = String::from_str("Self::");
    ctor.append(variant.ident.as_str());
    let stmts = match transform_return(
        item,
        fn_args,
        trait_path,
        policy,
        &variant.fields,
        ctor.as_str(),
        true,
    ) {
        Ok(stmts) => stmts,
        Err(d) => {
            return Err(d);
        },
    };
    let attrs = cfg_attrs(&variant.attrs);
    let mut out = render_attrs(&attrs);
    out.append(ctor.as_str());
    out.append(" { ");
    let bindings = bind_fields(&variant.fields);
    let ghost parts = field_bindings(variant.fields@).map_values(|b: Seq<char>| b + ", "@);
    let ghost before = out@;
    let mut i: usize = 0;
    while i < bindings.len()
        invariant
            i <= bindings.len(),
            views(bindings@) == field_bindings(variant.fields@),
            parts == field_bindings(variant.fields@).map_values(|b: Seq<char>| b + ", "@),
            out@ == before + concat(parts.take(i as int)),
        decreases bindings.len() - i,
    {
        out.append(bindings[i].as_str());
        out.append(", ");
        proof {
            assert(views(bindings@)[i as int] == bindings@[i as int]@);
            crate::text::lemma_take_push(parts, i as int);
            lemma_concat_push(parts.take(i as int), parts[i as int]);
            assert(out@ =~= before + concat(parts.take(i as int + 1)));
        }
        i += 1;
    }
    proof {
        assert(parts.take(bindings.len() as int) =~= parts);
    }
    out.append(".. }");
    proof {
        assert(out@ =~= attrs_prefix(cfg_texts(variant.attrs@)) + variant_pattern(*variant));
    }
    out.append(" => { ");
    let body = join_strings(&stmts, " ");
    out.append(body.as_str());
    out.append(" },");
    proof {
        assert(out@ =~= attrs_prefix(cfg_texts(variant.attrs@)) + variant_pattern(*variant)
            + " => { "@ + join(views(stmts@), " "@) + " },"@);
    }
    Ok(out)
}

/// Delegates a function to the fields of an enum's variants.
pub fn transform_enum(
    item: &TraitItemFn,
    trait_path: &Path,
    fn_args: &FnArgs,
    policy: &Aggregation,
    variants: &Vec<Variant>,
) -> (r: Result<Vec<String>, Diagnostic>)
    ensures
        strings_result(r) == delegated_enum(
            *item,
            fn_args@.with_try is Some,
            *trait_path,
            policy@,
            variants@,
        ),
{
    if item.sig.receiver().is_none() {
        let subject = item.sig.to_text();
        return Err(Diagnostic { kind: DiagnosticKind::MissingReceiver, subject });
    }
    let ghost with_try = fn_args@.with_try is Some;
    let ghost results = Seq::new(
        variants@.len(),
        |i: int| delegated_arm(*item, with_try, *trait_path, policy@, variants@[i]),
    );
    let mut arms: Vec<String> = Vec::new();
    let mut i: usize = 0;
    while i < variants.len()
        invariant
            i <= variants.len(),
            with_try == (fn_args@.with_try is Some),
            has_receiver(item.sig),
            results == Seq::new(
                variants@.len(),
                |i: int| delegated_arm(*item, with_try, *trait_path, policy@, variants@[i]),
            ),
            arms@.len() == i,
            forall|j: int|
                #![trigger results[j]]
                #![trigger arms@[j]]
                0 <= j < i ==> results[j] == Ok::<Seq<char>, DiagnosticView>(arms@[j]@),
        decreases variants.len() - i,
    {
        match variant_arm(item, trait_path, fn_args, policy, &variants[i]) {
            Ok(arm) => {
                arms.push(arm);
            },
            Err(d) => {
                proof {
                    lemma_collect_err(results, i as int);
                }
                return Err(d);
            },
        }
        i += 1;
    }
    proof {
        lemma_collect_ok(results, views(arms@));
    }
    let mut dispatch = String::from_str("match self { ");
    let joined = join_strings(&arms, " ");
    dispatch.append(joined.as_str());
    dispatch.append(" }");
    let mut stmts: Vec<String> = Vec::new();
    stmts.push(dispatch);
    proof {
        assert(views(stmts@) =~= seq![stmts@[0]@]);
    }
    Ok(stmts)
}

fn payload_of<'a>(output: &'a ReturnType, with_try: bool) -> (r: Result<Option<&'a Type>, Diagnostic>)
    ensures
        match r {
            Ok(Some(ty)) => payload_type(*output, with_try) == Ok::<Option<Type>, DiagnosticView>(
                Some(*ty),
            ),
            Ok(None) => payload_type(*output, with_try) == Ok::<Option<Type>, DiagnosticView>(
                None,
            ),
            Err(d) => payload_type(*output, with_try) == Err::<Option<Type>, DiagnosticView>(d@),
        },
{
    match output {
        ReturnType::Default => Ok(None),
        ReturnType::Type(ty) => {
            if !with_try {
                return Ok(Some(ty));
            }
            match &ty.kind {
                TypeKind::Path { path, arguments } => {
                    if arguments.len() > 0 {
                        match &arguments[0] {
                            GenericArgument::Type(payload) => {
                                return Ok(Some(payload));
                            },
                            GenericArgument::Other(_) => {},
                        }
                    }
                },
                _ => {},
            }
            Err(Diagnostic { kind: DiagnosticKind::TryWithoutWrapper, subject: ty.text.clone() })
        },
    }
}

fn delegate_body(item: &TraitItemFn, fn_args: &FnArgs, trait_path: &Path, input: &DeriveInput) -> (r:
    Result<Vec<String>, Diagnostic>)
    ensures
        strings_result(r) == delegated_body(*item, fn_args@, *trait_path, *input),
{
    let with_try = fn_args.with_try.0.is_some();
    let payload = match payload_of(&item.sig.output, with_try) {
        Ok(payload) => payload,
        Err(d) => {
            return Err(d);
        },
    };
    let policy = choose_aggregation(fn_args, payload);
    let body = match &input.data {
        Data::Struct(fields) => transform_struct(item, trait_path, fn_args, &policy, fields),
        Data::Enum(variants) => transform_enum(item, trait_path, fn_args, &policy, variants),
        Data::Union => Err(
            Diagnostic { kind: DiagnosticKind::DelegateUnion, subject: input.ident.clone() },
        ),
    };
    let stmts = match body {
        Ok(stmts) => stmts,
        Err(d) => {
            return Err(d);
        },
    };
    match &fn_args.with_try.0 {
        None => Ok(stmts),
        Some(ctor) => {
            let mut out = match ctor {
                Some(f) => f.clone(),
                None => String::from_str("Ok"),
            };
            out.append("({ ");
            let joined = join_strings(&stmts, " ");
            out.append(joined.as_str());
            out.append(" })");
            let mut wrapped_stmts: Vec<String> = Vec::new();
            wrapped_stmts.push(out);
            proof {
                assert(views(wrapped_stmts@) =~= seq![wrapped_stmts@[0]@]);
            }
            Ok(wrapped_stmts)
        },
    }
}

fn bound_fields(fields: &Vec<Field>, trait_path: &str, bounds: &mut Vec<String>)
    ensures
        views(final(bounds)@) == views(old(bounds)@) + fields@.map_values(
            |field: Field| field.ty@ + ": "@ + trait_path@,
        ),
{
    let ghost start = views(bounds@);
    let ghost added = fields@.map_values(|field: Field| field.ty@ + ": "@ + trait_path@);
    let mut i: usize = 0;
    while i < fields.len()
        invariant
            i <= fields.len(),
            added == fields@.map_values(|field: Field| field.ty@ + ": "@ + trait_path@),
            views(bounds@) == start + added.take(i as int),
        decreases fields.len() - i,
    {
        let mut bound = fields[i].ty.clone();
        bound.append(": ");
        bound.append(trait_path);
        proof {
            lemma_views_push(bounds@, bound);
            crate::text::lemma_take_push(added, i as int);
            assert(start + added.take(i as int + 1) =~= (start + added.take(i as int)).push(
                added[i as int],
            ));
        }
        bounds.push(bound);
        i += 1;
    }
    proof {
        assert(added.take(fields.len() as int) =~= added);
    }
}

/// The generator that delegates to the fields of the declared type.
#[derive(Clone, Copy, Debug, PartialEq, Eq)]
pub struct Generator(pub NoArgs);

impl View for Generator {
    type V = ();

    open spec fn view(&self) -> () {
        ()
    }
}

impl GenerateDerive for Generator {
    open spec fn on_const(state: (), ctx: DeriveContext, item: TraitItemConst) -> (
        (),
        Result<ImplItemConstView, DiagnosticView>,
    ) {
        ((), Err(failure(DiagnosticKind::DelegateConst, item.ident@)))
    }

    open spec fn on_fn(state: (), ctx: DeriveContext, item: TraitItemFn) -> (
        (),
        Result<ImplItemFnView, DiagnosticView>,
    ) {
        ((), delegated_fn(item, *ctx.trait_path, *ctx.input))
    }

    open spec fn on_type(state: (), ctx: DeriveContext, item: TraitItemType) -> (
        (),
        Result<ImplItemTypeView, DiagnosticView>,
    ) {
        ((), Err(failure(DiagnosticKind::DelegateType, item.ident@)))
    }

    open spec fn on_generics(state: (), ctx: DeriveContext, bounds: Bounds) -> (
        (),
        Result<Bounds, DiagnosticView>,
    ) {
        ((), Ok((bounds.0, bounds.1 + delegated_bounds(*ctx.input, *ctx.trait_path))))
    }

    open spec fn on_attrs(state: (), ctx: DeriveContext, attrs: Seq<Seq<char>>) -> (
        (),
        Result<Seq<Seq<char>>, DiagnosticView>,
    ) {
        ((), Ok(attrs))
    }

    /// Always fails: a constant has no meaning field by field.
    fn generate_const(&mut self, ctx: DeriveContext, item: &TraitItemConst) -> (r: Result<
        ImplItemConst,
        Diagnostic,
    >) {
        Err(Diagnostic { kind: DiagnosticKind::DelegateConst, subject: item.ident.clone() })
    }

    /// Implements the function by delegating to each field.
    fn generate_fn(&mut self, ctx: DeriveContext, item: &TraitItemFn) -> (r: Result<
        ImplItemFn,
        Diagnostic,
    >) {
        let fn_args = match parse_grouped_attr::<FnArgs>(&item.attrs, "derive_delegate") {
            Ok(fn_args) => fn_args,
            Err(d) => {
                return Err(d);
            },
        };
        let stmts = match delegate_body(item, &fn_args, ctx.trait_path, ctx.input) {
            Ok(stmts) => stmts,
            Err(d) => {
                return Err(d);
            },
        };
        Ok(
            ImplItemFn {
                attrs: cfg_attrs(&item.attrs),
                ident: item.sig.ident.clone(),
                sig: item.sig.to_text(),
                stmts,
            },
        )
    }

    /// Always fails: a type has no meaning field by field.
    fn generate_type(&mut self, ctx: DeriveContext, item: &TraitItemType) -> (r: Result<
        ImplItemType,
        Diagnostic,
    >) {
        Err(Diagnostic { kind: DiagnosticKind::DelegateType, subject: item.ident.clone() })
    }

    /// Requires of every field's type that it implements the trait.
    fn extend_generics(
        &mut self,
        ctx: DeriveContext,
        generics_params: &mut Vec<String>,
        generics_where: &mut Vec<String>,
    ) -> (r: Result<(), Diagnostic>) {
        let path = ctx.trait_path.to_text();
        match &ctx.input.data {
            Data::Struct(fields) => {
                bound_fields(fields, path.as_str(), generics_where);
                proof {
                    assert(fields@.map_values(|field: Field| field.ty@ + ": "@ + path@)
                        =~= field_bounds(fields@, *ctx.trait_path));
                }
            },
            Data::Enum(variants) => {
                let ghost start = views(generics_where@);
                let mut i: usize = 0;
                while i < variants.len()
                    invariant
                        i <= variants.len(),
                        path@ == path_text(*ctx.trait_path),
                        views(generics_where@) == start + variant_bounds(
                            variants@,
                            *ctx.trait_path,
                            i as nat,
                        ),
                    decreases variants.len() - i,
                {
                    let ghost before = views(generics_where@);
                    bound_fields(&variants[i].fields, path.as_str(), generics_where);
                    proof {
                        assert(variants@[i as int].fields@.map_values(
                            |field: Field| field.ty@ + ": "@ + path@,
                        ) =~= field_bounds(variants@[i as int].fields@, *ctx.trait_path));
                        assert(views(generics_where@) =~= start + variant_bounds(
                            variants@,
                            *ctx.trait_path,
                            (i + 1) as nat,
                        ));
                    }
                    i += 1;
                }
            },
            Data::Union => {
                proof {
                    assert(views(generics_where@) =~= views(generics_where@) + Seq::<
                        Seq<char>,
                    >::empty());
                }
            },
        }
        Ok(())
    }

    /// Adds no attribute.
    fn extend_attrs(&mut self, ctx: DeriveContext, attrs: &mut Vec<String>) -> (r: Result<
        (),
        Diagnostic,
    >) {
        Ok(())
    }
}

/// With a single field the delegation is the one call on that field, with no aggregation
/// around it, whatever the return type and the configured policy.
pub proof fn single_field_delegates_once(
    item: TraitItemFn,
    with_try: bool,
    trait_path: Path,
    policy: AggregationView,
    fields: Seq<Field>,
    ctor: Seq<char>,
    refutable: bool,
)
    requires
        fields.len() == 1,
    ensures
        delegated_return(item, with_try, trait_path, policy, fields, ctor, refutable)
            == match delegated_call(item, with_try, trait_path, fields[0], 0, ctor, refutable) {
            Ok(call) => Ok::<Seq<Seq<char>>, DiagnosticView>(seq![call]),
            Err(d) => Err(d),
        },
        delegated_struct(item, with_try, trait_path, policy, fields) == match delegated_call(
            item,
            with_try,
            trait_path,
            fields[0],
            0,
            "Self"@,
            false,
        ) {
            Ok(call) => Ok::<Seq<Seq<char>>, DiagnosticView>(
                if has_receiver(item.sig) {
                    seq![destructuring(fields), call]
                } else {
                    seq![call]
                },
            ),
            Err(d) => Err(d),
        },
{
    lemma_single_call(item, with_try, trait_path, fields, ctor, refutable);
    lemma_single_call(item, with_try, trait_path, fields, "Self"@, false);
    match delegated_call(item, with_try, trait_path, fields[0], 0, "Self"@, false) {
        Ok(call) => {
            assert(seq![destructuring(fields)] + seq![call] =~= seq![destructuring(fields), call]);
        },
        Err(_) => {},
    }
}

proof fn lemma_single_call(
    item: TraitItemFn,
    with_try: bool,
    trait_path: Path,
    fields: Seq<Field>,
    ctor: Seq<char>,
    refutable: bool,
)
    requires
        fields.len() == 1,
    ensures
        delegated_calls(item, with_try, trait_path, fields, ctor, refutable) == match delegated_call(
            item,
            with_try,
            trait_path,
            fields[0],
            0,
            ctor,
            refutable,
        ) {
            Ok(call) => Ok::<Seq<Seq<char>>, DiagnosticView>(seq![call]),
            Err(d) => Err(d),
        },
{
    let results = Seq::new(
        fields.len(),
        |i: int| delegated_call(item, with_try, trait_path, fields[i], i as nat, ctor, refutable),
    );
    match results[0] {
        Ok(call) => {
            lemma_collect_ok(results, seq![call]);
        },
        Err(_) => {
            lemma_collect_err(results, 0);
        },
    }
}

/// Where the function returns nothing and the type has more than one field, the
/// delegation is one statement for each field, in order: the call on that field, its
/// result dropped.
pub proof fn unit_return_delegates_every_field(
    item: TraitItemFn,
    args: FnArgsView,
    payload: Option<Type>,
    with_try: bool,
    trait_path: Path,
    fields: Seq<Field>,
    ctor: Seq<char>,
    refutable: bool,
)
    requires
        is_unit(payload),
        fields.len() > 1,
    ensures
        ({
            let outcome = delegated_return(
                item,
                with_try,
                trait_path,
                aggregation_of(args, payload),
                fields,
                ctor,
                refutable,
            );
            match delegated_calls(item, with_try, trait_path, fields, ctor, refutable) {
                Ok(calls) => {
                    &&& calls.len() == fields.len()
                    &&& forall|i: int|
                        0 <= i < fields.len() ==> delegated_call(
                            item,
                            with_try,
                            trait_path,
                            fields[i],
                            i as nat,
                            ctor,
                            refutable,
                        ) == Ok::<Seq<char>, DiagnosticView>(#[trigger] calls[i])
                    &&& outcome == Ok::<Seq<Seq<char>>, DiagnosticView>(
                        Seq::new(calls.len(), |i: int| calls[i] + ";"@),
                    )
                },
                Err(d) => outcome == Err::<Seq<Seq<char>>, DiagnosticView>(d),
            }
        }),
{
    let results = Seq::new(
        fields.len(),
        |i: int| delegated_call(item, with_try, trait_path, fields[i], i as nat, ctor, refutable),
    );
    lemma_collected(results);
    match collect(results) {
        Ok(calls) => {
            let stmts = calls.map_values(|call: Seq<char>| call + ";"@);
            assert(delegated_calls(item, with_try, trait_path, fields, ctor, refutable) == Ok::<
                Seq<Seq<char>>,
                DiagnosticView,
            >(calls));
            assert(calls.len() == fields.len());
            assert(aggregation_of(args, payload) == AggregationView::Unit);
            assert(aggregated(calls, AggregationView::Unit, fields, ctor) == Ok::<
                Seq<Seq<char>>,
                DiagnosticView,
            >(stmts));
            assert(delegated_return(
                item,
                with_try,
                trait_path,
                aggregation_of(args, payload),
                fields,
                ctor,
                refutable,
            ) == Ok::<Seq<Seq<char>>, DiagnosticView>(stmts));
            assert(stmts =~= Seq::new(calls.len(), |i: int| calls[i] + ";"@));
            assert forall|i: int| 0 <= i < fields.len() implies delegated_call(
                item,
                with_try,
                trait_path,
                fields[i],
                i as nat,
                ctor,
                refutable,
            ) == Ok::<Seq<char>, DiagnosticView>(#[trigger] calls[i]) by {
                assert(results[i] == Ok::<Seq<char>, DiagnosticView>(calls[i]));
            }
        },
        Err(_) => {},
    }
}

/// An enum cannot delegate a function without a receiver: the synthesis fails, and no
/// arm is made.
pub proof fn enum_delegation_needs_receiver(
    item: TraitItemFn,
    args: FnArgsView,
    trait_path: Path,
    input: DeriveInput,
)
    requires
        input.data is Enum,
        !has_receiver(item.sig),
        payload_type(item.sig.output, args.with_try is Some) is Ok,
    ensures
        delegated_body(item, args, trait_path, input) == Err::<Seq<Seq<char>>, DiagnosticView>(
            failure(DiagnosticKind::MissingReceiver, signature_text(item.sig)),
        ),
{
}

/// The function that field delegation synthesizes has the name and the signature of the
/// declaration.
pub proof fn delegation_keeps_signature(item: TraitItemFn, trait_path: Path, input: DeriveInput)
    ensures
        delegated_fn(item, trait_path, input) matches Ok(member) ==> member.ident
            == item.sig.ident@ && member.sig == signature_text(item.sig),
{
}

} // verus!
