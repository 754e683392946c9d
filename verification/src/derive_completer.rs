//! Deriving a whole impl block from a type declaration.

use crate::derive_filler::{derive_filler, FillDerive, Input};
use crate::diagnostic::{compile_error_text, Diagnostic, DiagnosticView, message_text};
use crate::syntax::{
    cfg_attrs, cfg_texts, DeriveInput, ImplItem, ImplItemConst, ImplItemConstView, ImplItemFn,
    ImplItemFnView, ImplItemType, ImplItemTypeView, ImplItemView, item_impl_text, item_views,
    ItemImpl, ItemImplView, param_names, param_texts, params_text, Path, render_params,
    result_view, TraitItem, TraitItemConst, TraitItemFn, TraitItemType, TraitRef, TraitRefView,
};
use crate::text::{clone_strings, quoted, views};
use crate::transport::Emitted;
use vstd::prelude::*;
use vstd::string::*;

verus! {

/// What a generator is told about the derivation that it works for.
pub struct DeriveContext<'t> {
    /// The path by which the implemented trait is named.
    pub trait_path: &'t Path,
    /// All members of the trait, in declaration order.
    pub all_trait_items: &'t Vec<TraitItem>,
    /// The declaration of the implementing type.
    pub input: &'t DeriveInput,
}

/// Generic parameters and `where` predicates, each as written.
pub type Bounds = (Seq<Seq<char>>, Seq<Seq<char>>);

/// A strategy that synthesizes every member of a derived impl block.
///
/// The spec functions name what each method does, as a function of the generator's state:
/// the state afterwards, and the member or the failure that the method returns.
pub trait GenerateDerive: View + Sized {
    /// What `generate_const` does.
    spec fn on_const(state: Self::V, ctx: DeriveContext, item: TraitItemConst) -> (
        Self::V,
        Result<ImplItemConstView, DiagnosticView>,
    );

    /// What `generate_fn` does.
    spec fn on_fn(state: Self::V, ctx: DeriveContext, item: TraitItemFn) -> (
        Self::V,
        Result<ImplItemFnView, DiagnosticView>,
    );

    /// What `generate_type` does.
    spec fn on_type(state: Self::V, ctx: DeriveContext, item: TraitItemType) -> (
        Self::V,
        Result<ImplItemTypeView, DiagnosticView>,
    );

    /// What `extend_generics` does to the given parameters and predicates.
    spec fn on_generics(state: Self::V, ctx: DeriveContext, bounds: Bounds) -> (
        Self::V,
        Result<Bounds, DiagnosticView>,
    );

    /// What `extend_attrs` does to the given attributes.
    spec fn on_attrs(state: Self::V, ctx: DeriveContext, attrs: Seq<Seq<char>>) -> (
        Self::V,
        Result<Seq<Seq<char>>, DiagnosticView>,
    );

    /// Implements an associated constant.
    fn generate_const(&mut self, ctx: DeriveContext, item: &TraitItemConst) -> (r: Result<
        ImplItemConst,
        Diagnostic,
    >)
        ensures
            (final(self)@, result_view(r)) == Self::on_const(old(self)@, ctx, *item),
    ;

    /// Implements an associated function.
    fn generate_fn(&mut self, ctx: DeriveContext, item: &TraitItemFn) -> (r: Result<
        ImplItemFn,
        Diagnostic,
    >)
        ensures
            (final(self)@, result_view(r)) == Self::on_fn(old(self)@, ctx, *item),
    ;

    /// Implements an associated type.
    fn generate_type(&mut self, ctx: DeriveContext, item: &TraitItemType) -> (r: Result<
        ImplItemType,
        Diagnostic,
    >)
        ensures
            (final(self)@, result_view(r)) == Self::on_type(old(self)@, ctx, *item),
    ;

    /// Provides additional generic parameters and bounds for the impl block.
    fn extend_generics(
        &mut self,
        ctx: DeriveContext,
        generics_params: &mut Vec<String>,
        generics_where: &mut Vec<String>,
    ) -> (r: Result<(), Diagnostic>)
        ensures
            ({
                let (state, outcome) = Self::on_generics(
                    old(self)@,
                    ctx,
                    (views(old(generics_params)@), views(old(generics_where)@)),
                );
                &&& final(self)@ == state
                &&& match r {
                    Ok(()) => outcome == Ok::<Bounds, DiagnosticView>(
                        (views(final(generics_params)@), views(final(generics_where)@)),
                    ),
                    Err(d) => outcome == Err::<Bounds, DiagnosticView>(d@),
                }
            }),
    ;

    /// Provides additional attributes for the impl block.
    fn extend_attrs(&mut self, ctx: DeriveContext, attrs: &mut Vec<String>) -> (r: Result<
        (),
        Diagnostic,
    >)
        ensures
            ({
                let (state, outcome) = Self::on_attrs(old(self)@, ctx, views(old(attrs)@));
                &&& final(self)@ == state
                &&& match r {
                    Ok(()) => outcome == Ok::<Seq<Seq<char>>, DiagnosticView>(
                        views(final(attrs)@),
                    ),
                    Err(d) => outcome == Err::<Seq<Seq<char>>, DiagnosticView>(d@),
                }
            }),
    ;
}

/// What the generator does for one trait item: nothing for an item that declares no member.
pub open spec fn derived_item<G: GenerateDerive>(state: G::V, ctx: DeriveContext, item: TraitItem) -> (
    G::V,
    Result<Option<ImplItemView>, DiagnosticView>,
) {
    match item {
        TraitItem::Const(c) => {
            let (next, outcome) = G::on_const(state, ctx, c);
            (
                next,
                match outcome {
                    Ok(member) => Ok(Some(ImplItemView::Const(member))),
                    Err(d) => Err(d),
                },
            )
        },
        TraitItem::Fn(f) => {
            let (next, outcome) = G::on_fn(state, ctx, f);
            (
                next,
                match outcome {
                    Ok(member) => Ok(Some(ImplItemView::Fn(member))),
                    Err(d) => Err(d),
                },
            )
        },
        TraitItem::Type(t) => {
            let (next, outcome) = G::on_type(state, ctx, t);
            (
                next,
                match outcome {
                    Ok(member) => Ok(Some(ImplItemView::Type(member))),
                    Err(d) => Err(d),
                },
            )
        },
        TraitItem::Other(_) => (state, Ok(None)),
    }
}

/// The generator's state and the members synthesized after the first `n` trait items, or
/// the first failure.
pub open spec fn derived_items<G: GenerateDerive>(
    state: G::V,
    ctx: DeriveContext,
    items: Seq<TraitItem>,
    n: nat,
) -> Result<(G::V, Seq<ImplItemView>), DiagnosticView>
    decreases n,
{
    if n == 0 {
        Ok((state, Seq::empty()))
    } else {
        match derived_items::<G>(state, ctx, items, (n - 1) as nat) {
            Ok((s, members)) => {
                let (next, outcome) = derived_item::<G>(s, ctx, items[n - 1]);
                match outcome {
                    Ok(Some(member)) => Ok((next, members.push(member))),
                    Ok(None) => Ok((next, members)),
                    Err(d) => Err(d),
                }
            },
            Err(d) => Err(d),
        }
    }
}

/// The implementing type with its generic parameters applied by name.
pub open spec fn self_type_text(input: DeriveInput) -> Seq<char> {
    input.ident@ + params_text(param_names(input.generics.params@))
}

/// The impl block that `complete_derive` returns, or the failure that it stops at.
pub open spec fn derived_impl<G: GenerateDerive>(
    state: G::V,
    trait_path: &Path,
    trait_items: &Vec<TraitItem>,
    input: &DeriveInput,
) -> Result<ItemImplView, DiagnosticView> {
    let ctx = DeriveContext { trait_path, all_trait_items: trait_items, input };
    let (s1, bounds) = G::on_generics(
        state,
        ctx,
        (param_texts(input.generics.params@), views(input.generics.where_predicates@)),
    );
    match bounds {
        Err(d) => Err(d),
        Ok((params, predicates)) => match derived_items::<G>(
            s1,
            ctx,
            trait_items@,
            trait_items@.len(),
        ) {
            Err(d) => Err(d),
            Ok((s2, members)) => match G::on_attrs(s2, ctx, cfg_texts(input.attrs@)).1 {
                Err(d) => Err(d),
                Ok(attrs) => Ok(
                    ItemImplView {
                        attrs,
                        unsafety: false,
                        generics_params: params,
                        where_predicates: predicates,
                        trait_: Some(TraitRefView { negated: false, path: trait_path@ }),
                        self_ty: self_type_text(*input),
                        items: members,
                    },
                ),
            },
        },
    }
}

proof fn lemma_derived_failure<G: GenerateDerive>(
    state: G::V,
    ctx: DeriveContext,
    items: Seq<TraitItem>,
    i: nat,
    n: nat,
)
    requires
        i <= n,
        derived_items::<G>(state, ctx, items, i) is Err,
    ensures
        derived_items::<G>(state, ctx, items, n) == derived_items::<G>(state, ctx, items, i),
    decreases n,
{
    if i < n {
        lemma_derived_failure::<G>(state, ctx, items, i, (n - 1) as nat);
    }
}

/// Calls the generator for every member that the trait declares, in declaration order, and
/// assembles an impl block of the trait for the declared type.
///
/// The generator first extends the generic parameters and predicates of the declaration,
/// and last the `cfg` attributes that the block takes over from it. The first failure of
/// the generator ends the derivation.
pub fn complete_derive<G: GenerateDerive>(
    trait_path: &Path,
    trait_items: &Vec<TraitItem>,
    input: &DeriveInput,
    generator: G,
) -> (r: Result<ItemImpl, Diagnostic>)
    ensures
        result_view(r) == derived_impl::<G>(generator@, trait_path, trait_items, input),
{
    let ghost state = generator@;
    let mut strategy = generator;
    let mut generics_params = input.generics.param_texts();
    let mut generics_where = clone_strings(&input.generics.where_predicates);
    match strategy.extend_generics(
        DeriveContext { trait_path, all_trait_items: trait_items, input },
        &mut generics_params,
        &mut generics_where,
    ) {
        Ok(()) => {},
        Err(d) => {
            return Err(d);
        },
    }
    let ghost ctx = DeriveContext { trait_path, all_trait_items: trait_items, input };
    let ghost s1 = strategy@;
    let ghost bounds = (views(generics_params@), views(generics_where@));

    let names = input.generics.param_names();
    let mut self_ty = input.ident.clone();
    let applied = render_params(&names);
    self_ty.append(applied.as_str());

    let mut items: Vec<ImplItem> = Vec::new();
    let mut i: usize = 0;
    proof {
        assert(item_views(items@) =~= Seq::<ImplItemView>::empty());
    }
    while i < trait_items.len()
        invariant
            i <= trait_items.len(),
            ctx == (DeriveContext { trait_path, all_trait_items: trait_items, input }),
            state == generator@,
            G::on_generics(
                state,
                ctx,
                (param_texts(input.generics.params@), views(input.generics.where_predicates@)),
            ) == (s1, Ok::<Bounds, DiagnosticView>(bounds)),
            derived_items::<G>(s1, ctx, trait_items@, i as nat) == Ok::<
                (G::V, Seq<ImplItemView>),
                DiagnosticView,
            >((strategy@, item_views(items@))),
        decreases trait_items.len() - i,
    {
        let ghost before = strategy@;
        let ghost members = item_views(items@);
        let outcome = match &trait_items[i] {
            TraitItem::Const(item) => match strategy.generate_const(
                DeriveContext { trait_path, all_trait_items: trait_items, input },
                item,
            ) {
                Ok(member) => Ok(Some(ImplItem::Const(member))),
                Err(d) => Err(d),
            },
            TraitItem::Fn(item) => match strategy.generate_fn(
                DeriveContext { trait_path, all_trait_items: trait_items, input },
                item,
            ) {
                Ok(member) => Ok(Some(ImplItem::Fn(member))),
                Err(d) => Err(d),
            },
            TraitItem::Type(item) => match strategy.generate_type(
                DeriveContext { trait_path, all_trait_items: trait_items, input },
                item,
            ) {
                Ok(member) => Ok(Some(ImplItem::Type(member))),
                Err(d) => Err(d),
            },
            TraitItem::Other(_) => Ok(None),
        };
        proof {
            assert(derived_item::<G>(before, ctx, trait_items@[i as int]).0 == strategy@);
        }
        match outcome {
            Ok(Some(member)) => {
                proof {
                    assert(item_views(items@.push(member)) =~= members.push(member@));
                }
                items.push(member);
            },
            Ok(None) => {},
            Err(d) => {
                proof {
                    assert(derived_items::<G>(s1, ctx, trait_items@, (i + 1) as nat) == Err::<
                        (G::V, Seq<ImplItemView>),
                        DiagnosticView,
                    >(d@));
                    lemma_derived_failure::<G>(
                        s1,
                        ctx,
                        trait_items@,
                        (i + 1) as nat,
                        trait_items@.len(),
                    );
                }
                return Err(d);
            },
        }
        i += 1;
    }

    let mut attrs = cfg_attrs(&input.attrs);
    match strategy.extend_attrs(
        DeriveContext { trait_path, all_trait_items: trait_items, input },
        &mut attrs,
    ) {
        Ok(()) => {},
        Err(d) => {
            return Err(d);
        },
    }

    Ok(
        ItemImpl {
            attrs,
            unsafety: false,
            generics_params,
            where_predicates: generics_where,
            trait_: Some(TraitRef { negated: false, path: trait_path.duplicate() }),
            self_ty,
            items,
        },
    )
}

/// The filler that derives an impl block with the generator that it holds.
pub struct Completer<G>(pub G);

/// The text of the derived impl block, or the failure of the derivation.
pub open spec fn derived_text<G: GenerateDerive>(
    state: G::V,
    trait_path: &Path,
    trait_items: &Vec<TraitItem>,
    input: &DeriveInput,
) -> Result<Seq<char>, DiagnosticView> {
    match derived_impl::<G>(state, trait_path, trait_items, input) {
        Ok(block) => Ok(item_impl_text(block)),
        Err(d) => Err(d),
    }
}

impl<G: GenerateDerive> FillDerive for Completer<G> {
    type Args = ();

    open spec fn filled(
        self,
        trait_path: &Path,
        portrait: &Vec<TraitItem>,
        args: (),
        input: &DeriveInput,
    ) -> Result<Seq<char>, DiagnosticView> {
        derived_text::<G>(self.0@, trait_path, portrait, input)
    }

    fn fill(self, trait_path: &Path, portrait: &Vec<TraitItem>, args: (), input: &DeriveInput) -> (r:
        Result<String, Diagnostic>) {
        match complete_derive(trait_path, portrait, input, self.0) {
            Ok(block) => Ok(block.to_text()),
            Err(d) => Err(d),
        }
    }
}

/// What `completer_derive_filler2` returns when `ctor` has made `generator`.
pub open spec fn completer_outcome<ArgsT, G: GenerateDerive>(
    input: Input<ArgsT>,
    generator: G,
    r: Result<Emitted, Diagnostic>,
) -> bool {
    match r {
        Ok(emitted) => derived_text::<G>(
            generator@,
            &input.trait_path,
            &input.portrait,
            &input.input,
        ) == Ok::<Seq<char>, DiagnosticView>(emitted.output@) && emitted.debug_print
            == input.debug_print,
        Err(d) => derived_text::<G>(generator@, &input.trait_path, &input.portrait, &input.input)
            == Err::<Seq<char>, DiagnosticView>(d@),
    }
}

/// Makes a generator from the arguments of the input, derives the impl block for the
/// type of the input with it, and writes the block out.
pub fn completer_derive_filler2<ArgsT, G: GenerateDerive, F: FnOnce(ArgsT) -> G>(
    input: Input<ArgsT>,
    ctor: F,
) -> (r: Result<Emitted, Diagnostic>)
    requires
        ctor.requires((input.args,)),
    ensures
        exists|generator: G|
            ctor.ensures((input.args,), generator) && completer_outcome(input, generator, r),
{
    let Input { trait_path, portrait, args, input: item, debug_print } = input;
    let generator = ctor(args);
    let ghost made = generator;
    let r = derive_filler(
        Input { trait_path, portrait, args: (), input: item, debug_print },
        Completer(generator),
    );
    proof {
        assert(ctor.ensures((input.args,), made) && completer_outcome(input, made, r));
    }
    r
}

/// As [`completer_derive_filler2`], with a failure turned into source text that stops
/// the compilation with the failure's message.
pub fn completer_derive_filler<ArgsT, G: GenerateDerive, F: FnOnce(ArgsT) -> G>(
    input: Input<ArgsT>,
    ctor: F,
) -> (r: Emitted)
    requires
        ctor.requires((input.args,)),
    ensures
        exists|generator: G|
            ctor.ensures((input.args,), generator) && match derived_text::<G>(
                generator@,
                &input.trait_path,
                &input.portrait,
                &input.input,
            ) {
                Ok(text) => r.output@ == text && r.debug_print == input.debug_print,
                Err(d) => !r.debug_print && r.output@ == compile_error_text(
                    quoted(message_text(d)),
                ),
            },
{
    match completer_derive_filler2(input, ctor) {
        Ok(emitted) => emitted,
        Err(d) => Emitted { output: d.into_compile_error(), debug_print: false },
    }
}

} // verus!
