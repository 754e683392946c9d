//! Completing an impl block: every member that the trait declares and the block lacks is
//! synthesized by a generator.

use crate::diagnostic::{compile_error_text, Diagnostic, DiagnosticView, message_text};
use crate::impl_filler::{FillImpl, impl_filler, Input};
use crate::item_map::{
    has_name, impl_consts, impl_fns, impl_types, ImplItemMap, names, subtract_items,
    surplus_member,
};
use crate::syntax::{
    ImplItem, ImplItemConst, ImplItemConstView, ImplItemFn, ImplItemFnView, ImplItemType,
    ImplItemTypeView, ImplItemView, item_impl_text, item_views, ItemImpl, ItemImplView,
    result_view, TraitItem, TraitItemConst, TraitItemFn, TraitItemType,
};
use crate::text::quoted;
use crate::transport::Emitted;
use vstd::prelude::*;
use vstd::string::*;

verus! {

/// What a generator is told about the completion that it works for.
pub struct ImplContext<'t> {
    /// All members of the trait, in declaration order.
    pub all_trait_items: &'t Vec<TraitItem>,
    /// The impl block as it was written.
    pub impl_block: &'t ItemImpl,
}

/// A strategy that synthesizes the missing members of an impl block.
///
/// The spec functions name what each method does, as a function of the generator's state:
/// the state afterwards, and the member or the failure that the method returns.
pub trait GenerateImpl: View + Sized {
    /// What `generate_const` does.
    spec fn on_const(state: Self::V, ctx: ImplContext, item: TraitItemConst) -> (
        Self::V,
        Result<ImplItemConstView, DiagnosticView>,
    );

    /// What `generate_fn` does.
    spec fn on_fn(state: Self::V, ctx: ImplContext, item: TraitItemFn) -> (
        Self::V,
        Result<ImplItemFnView, DiagnosticView>,
    );

    /// What `generate_type` does.
    spec fn on_type(state: Self::V, ctx: ImplContext, item: TraitItemType) -> (
        Self::V,
        Result<ImplItemTypeView, DiagnosticView>,
    );

    /// Implements an associated constant.
    fn generate_const(&mut self, ctx: ImplContext, item: &TraitItemConst) -> (r: Result<
        ImplItemConst,
        Diagnostic,
    >)
        ensures
            (final(self)@, result_view(r)) == Self::on_const(old(self)@, ctx, *item),
    ;

    /// Implements an associated function.
    fn generate_fn(&mut self, ctx: ImplContext, item: &TraitItemFn) -> (r: Result<
        ImplItemFn,
        Diagnostic,
    >)
        ensures
            (final(self)@, result_view(r)) == Self::on_fn(old(self)@, ctx, *item),
    ;

    /// Implements an associated type.
    fn generate_type(&mut self, ctx: ImplContext, item: &TraitItemType) -> (r: Result<
        ImplItemType,
        Diagnostic,
    >)
        ensures
            (final(self)@, result_view(r)) == Self::on_type(old(self)@, ctx, *item),
    ;
}

/// Whether the impl block provides the member that the trait item declares. An item that
/// declares no member counts as provided.
pub open spec fn is_provided(item: TraitItem, impl_items: Seq<ImplItem>) -> bool {
    match item {
        TraitItem::Const(c) => names(impl_consts(impl_items, impl_items.len())).contains(
            c.ident@,
        ),
        TraitItem::Fn(f) => names(impl_fns(impl_items, impl_items.len())).contains(f.sig.ident@),
        TraitItem::Type(t) => names(impl_types(impl_items, impl_items.len())).contains(
            t.ident@,
        ),
        TraitItem::Other(_) => true,
    }
}

/// What the generator does for a member that the impl block lacks.
pub open spec fn generated_item<G: GenerateImpl>(state: G::V, ctx: ImplContext, item: TraitItem) -> (
    G::V,
    Result<Option<ImplItemView>, DiagnosticView>,
) {
    match item {
        TraitItem::Const(c) => {
            let (next, outcome) = G::on_const(state, ctx, c);
            (
                next,
                match outcome {
                    Ok(member) => Ok(Some(ImplItemView::Const(member))),
                    Err(d) => Err(d),
                },
            )
        },
        TraitItem::Fn(f) => {
            let (next, outcome) = G::on_fn(state, ctx, f);
            (
                next,
                match outcome {
                    Ok(member) => Ok(Some(ImplItemView::Fn(member))),
                    Err(d) => Err(d),
                },
            )
        },
        TraitItem::Type(t) => {
            let (next, outcome) = G::on_type(state, ctx, t);
            (
                next,
                match outcome {
                    Ok(member) => Ok(Some(ImplItemView::Type(member))),
                    Err(d) => Err(d),
                },
            )
        },
        TraitItem::Other(_) => (state, Ok(None)),
    }
}

/// The generator's state and the members synthesized after the first `n` trait items, or
/// the first failure: the generator is asked for every member that the impl block lacks,
/// in declaration order.
pub open spec fn generated_items<G: GenerateImpl>(
    state: G::V,
    ctx: ImplContext,
    trait_items: Seq<TraitItem>,
    impl_items: Seq<ImplItem>,
    n: nat,
) -> Result<(G::V, Seq<ImplItemView>), DiagnosticView>
    decreases n,
{
    if n == 0 {
        Ok((state, Seq::empty()))
    } else {
        match generated_items::<G>(state, ctx, trait_items, impl_items, (n - 1) as nat) {
            Ok((s, members)) => if is_provided(trait_items[n - 1], impl_items) {
                Ok((s, members))
            } else {
                let (next, outcome) = generated_item::<G>(s, ctx, trait_items[n - 1]);
                match outcome {
                    Ok(Some(member)) => Ok((next, members.push(member))),
                    Ok(None) => Ok((next, members)),
                    Err(d) => Err(d),
                }
            },
            Err(d) => Err(d),
        }
    }
}

/// The impl block that `complete_impl` returns, or the failure that it stops at.
pub open spec fn completed_impl<G: GenerateImpl>(
    state: G::V,
    trait_items: &Vec<TraitItem>,
    impl_block: &ItemImpl,
) -> Result<ItemImplView, DiagnosticView> {
    match surplus_member(trait_items@, impl_block.items@) {
        Some(d) => Err(d),
        None => match generated_items::<G>(
            state,
            ImplContext { all_trait_items: trait_items, impl_block },
            trait_items@,
            impl_block.items@,
            trait_items@.len(),
        ) {
            Err(d) => Err(d),
            Ok((_, members)) => Ok(
                ItemImplView { items: impl_block@.items + members, ..impl_block@ },
            ),
        },
    }
}

proof fn lemma_generated_failure<G: GenerateImpl>(
    state: G::V,
    ctx: ImplContext,
    trait_items: Seq<TraitItem>,
    impl_items: Seq<ImplItem>,
    i: nat,
    n: nat,
)
    requires
        i <= n,
        generated_items::<G>(state, ctx, trait_items, impl_items, i) is Err,
    ensures
        generated_items::<G>(state, ctx, trait_items, impl_items, n) == generated_items::<G>(
            state,
            ctx,
            trait_items,
            impl_items,
            i,
        ),
    decreases n,
{
    if i < n {
        lemma_generated_failure::<G>(state, ctx, trait_items, impl_items, i, (n - 1) as nat);
    }
}

/// Calls the generator for every member that the trait declares and the impl block lacks,
/// in declaration order, and returns a copy of the block with the synthesized members
/// after its own.
///
/// Fails before the generator is called when the block has a member that the trait does
/// not declare; else the first failure of the generator ends the completion.
pub fn complete_impl<G: GenerateImpl>(
    trait_items: &Vec<TraitItem>,
    impl_block: &ItemImpl,
    generator: G,
) -> (r: Result<ItemImpl, Diagnostic>)
    ensures
        result_view(r) == completed_impl::<G>(generator@, trait_items, impl_block),
{
    let ghost state = generator@;
    let ghost ctx = ImplContext { all_trait_items: trait_items, impl_block };
    let mut strategy = generator;
    let mut output = impl_block.duplicate();
    match subtract_items(trait_items, impl_block) {
        Ok(_) => {},
        Err(d) => {
            return Err(d);
        },
    }
    let provided = ImplItemMap::new(impl_block);
    let ghost written = output@.items;
    let mut i: usize = 0;
    proof {
        assert(written + Seq::<ImplItemView>::empty() =~= written);
    }
    while i < trait_items.len()
        invariant
            i <= trait_items.len(),
            ctx == (ImplContext { all_trait_items: trait_items, impl_block }),
            state == generator@,
            surplus_member(trait_items@, impl_block.items@) is None,
            provided.consts@ == impl_consts(impl_block.items@, impl_block.items@.len()),
            provided.fns@ == impl_fns(impl_block.items@, impl_block.items@.len()),
            provided.types@ == impl_types(impl_block.items@, impl_block.items@.len()),
            written == impl_block@.items,
            output@ == (ItemImplView { items: output@.items, ..impl_block@ }),
            exists|members: Seq<ImplItemView>|
                {
                    &&& #[trigger] generated_items::<G>(
                        state,
                        ctx,
                        trait_items@,
                        impl_block.items@,
                        i as nat,
                    ) == Ok::<(G::V, Seq<ImplItemView>), DiagnosticView>((strategy@, members))
                    &&& output@.items == written + members
                },
        decreases trait_items.len() - i,
    {
        let ghost before = strategy@;
        let ghost members = choose|members: Seq<ImplItemView>|
            {
                &&& #[trigger] generated_items::<G>(
                    state,
                    ctx,
                    trait_items@,
                    impl_block.items@,
                    i as nat,
                ) == Ok::<(G::V, Seq<ImplItemView>), DiagnosticView>((strategy@, members))
                &&& output@.items == written + members
            };
        let outcome = match &trait_items[i] {
            TraitItem::Const(item) => {
                if has_name(&provided.consts, item.ident.as_str()) {
                    Ok(None)
                } else {
                    match strategy.generate_const(
                        ImplContext { all_trait_items: trait_items, impl_block },
                        item,
                    ) {
                        Ok(member) => Ok(Some(ImplItem::Const(member))),
                        Err(d) => Err(d),
                    }
                }
            },
            TraitItem::Fn(item) => {
                if has_name(&provided.fns, item.sig.ident.as_str()) {
                    Ok(None)
                } else {
                    match strategy.generate_fn(
                        ImplContext { all_trait_items: trait_items, impl_block },
                        item,
                    ) {
                        Ok(member) => Ok(Some(ImplItem::Fn(member))),
                        Err(d) => Err(d),
                    }
                }
            },
            TraitItem::Type(item) => {
                if has_name(&provided.types, item.ident.as_str()) {
                    Ok(None)
                } else {
                    match strategy.generate_type(
                        ImplContext { all_trait_items: trait_items, impl_block },
                        item,
                    ) {
                        Ok(member) => Ok(Some(ImplItem::Type(member))),
                        Err(d) => Err(d),
                    }
                }
            },
            TraitItem::Other(_) => Ok(None),
        };
        match outcome {
            Ok(Some(member)) => {
                proof {
                    assert(item_views(output.items@) == written + members);
                    assert(item_views(output.items@.push(member)) =~= item_views(
                        output.items@,
                    ).push(member@));
                    assert((written + members).push(member@) =~= written + members.push(
                        member@,
                    ));
                    assert(generated_items::<G>(
                        state,
                        ctx,
                        trait_items@,
                        impl_block.items@,
                        (i + 1) as nat,
                    ) == Ok::<(G::V, Seq<ImplItemView>), DiagnosticView>(
                        (strategy@, members.push(member@)),
                    ));
                }
                output.items.push(member);
            },
            Ok(None) => {
                proof {
                    assert(generated_items::<G>(
                        state,
                        ctx,
                        trait_items@,
                        impl_block.items@,
                        (i + 1) as nat,
                    ) == Ok::<(G::V, Seq<ImplItemView>), DiagnosticView>((strategy@, members)));
                }
            },
            Err(d) => {
                proof {
                    assert(generated_items::<G>(
                        state,
                        ctx,
                        trait_items@,
                        impl_block.items@,
                        (i + 1) as nat,
                    ) == Err::<(G::V, Seq<ImplItemView>), DiagnosticView>(d@));
                    lemma_generated_failure::<G>(
                        state,
                        ctx,
                        trait_items@,
                        impl_block.items@,
                        (i + 1) as nat,
                        trait_items@.len(),
                    );
                }
                return Err(d);
            },
        }
        i += 1;
    }
    Ok(output)
}

/// The filler that completes an impl block with the generator that it holds.
pub struct Completer<G>(pub G);

/// The text of the completed impl block, or the failure of the completion.
pub open spec fn completed_text<G: GenerateImpl>(
    state: G::V,
    trait_items: &Vec<TraitItem>,
    impl_block: &ItemImpl,
) -> Result<Seq<char>, DiagnosticView> {
    match completed_impl::<G>(state, trait_items, impl_block) {
        Ok(block) => Ok(item_impl_text(block)),
        Err(d) => Err(d),
    }
}

impl<G: GenerateImpl> FillImpl for Completer<G> {
    type Args = ();

    open spec fn filled(self, portrait: &Vec<TraitItem>, args: (), item_impl: &ItemImpl) -> Result<
        Seq<char>,
        DiagnosticView,
    > {
        completed_text::<G>(self.0@, portrait, item_impl)
    }

    fn fill(self, portrait: &Vec<TraitItem>, args: (), item_impl: &ItemImpl) -> (r: Result<
        String,
        Diagnostic,
    >) {
        match complete_impl(portrait, item_impl, self.0) {
            Ok(block) => Ok(block.to_text()),
            Err(d) => Err(d),
        }
    }
}

/// What `completer_impl_filler2` returns when `ctor` has made `generator`.
pub open spec fn completer_outcome<ArgsT, G: GenerateImpl>(
    input: Input<ArgsT>,
    generator: G,
    r: Result<Emitted, Diagnostic>,
) -> bool {
    match r {
        Ok(emitted) => completed_text::<G>(generator@, &input.portrait, &input.item_impl) == Ok::<
            Seq<char>,
            DiagnosticView,
        >(emitted.output@) && emitted.debug_print == input.debug_print,
        Err(d) => completed_text::<G>(generator@, &input.portrait, &input.item_impl) == Err::<
            Seq<char>,
            DiagnosticView,
        >(d@),
    }
}

/// Makes a generator from the arguments of the input, completes the impl block of the
/// input with it, and writes the completed block out.
pub fn completer_impl_filler2<ArgsT, G: GenerateImpl, F: FnOnce(ArgsT) -> G>(
    input: Input<ArgsT>,
    ctor: F,
) -> (r: Result<Emitted, Diagnostic>)
    requires
        ctor.requires((input.args,)),
    ensures
        exists|generator: G|
            ctor.ensures((input.args,), generator) && completer_outcome(input, generator, r),
{
    let Input { portrait, args, item_impl, debug_print } = input;
    let generator = ctor(args);
    let ghost made = generator;
    let r = impl_filler(Input { portrait, args: (), item_impl, debug_print }, Completer(generator));
    proof {
        assert(ctor.ensures((input.args,), made) && completer_outcome(input, made, r));
    }
    r
}

/// As [`completer_impl_filler2`], with a failure turned into source text that stops the
/// compilation with the failure's message.
pub fn completer_impl_filler<ArgsT, G: GenerateImpl, F: FnOnce(ArgsT) -> G>(
    input: Input<ArgsT>,
    ctor: F,
) -> (r: Emitted)
    requires
        ctor.requires((input.args,)),
    ensures
        exists|generator: G|
            ctor.ensures((input.args,), generator) && match completed_text::<G>(
                generator@,
                &input.portrait,
                &input.item_impl,
            ) {
                Ok(text) => r.output@ == text && r.debug_print == input.debug_print,
                Err(d) => !r.debug_print && r.output@ == compile_error_text(
                    quoted(message_text(d)),
                ),
            },
{
    match completer_impl_filler2(input, ctor) {
        Ok(emitted) => emitted,
        Err(d) => Emitted { output: d.into_compile_error(), debug_print: false },
    }
}

} // verus!
