//! The members of a completed impl block are exactly the members of the trait.

use crate::derive_completer::{
    DeriveContext, derived_impl, derived_item, derived_items, GenerateDerive,
};
use crate::diagnostic::{DiagnosticView, MemberKind};
use crate::impl_completer::{
    completed_impl, generated_item, generated_items, GenerateImpl, ImplContext, is_provided,
};
use crate::item_map::{
    first_unknown, impl_consts, impl_fns, impl_types, Named, names, surplus_member, trait_consts,
    trait_fns, trait_types,
};
use crate::syntax::{
    DeriveInput, ImplItem, ImplItemView, ItemImpl, ItemImplView, Path, TraitItem, TraitItemConst,
    TraitItemFn, TraitItemType,
};
use vstd::prelude::*;

verus! {

/// A member's namespace and name.
pub type MemberKey = (MemberKind, Seq<char>);

/// The member that a trait item declares, if it declares one.
pub open spec fn trait_key(item: TraitItem) -> Option<MemberKey> {
    match item {
        TraitItem::Const(c) => Some((MemberKind::Const, c.ident@)),
        TraitItem::Fn(f) => Some((MemberKind::Fn, f.sig.ident@)),
        TraitItem::Type(t) => Some((MemberKind::Type, t.ident@)),
        TraitItem::Other(_) => None,
    }
}

/// The member that an impl item provides, if it provides one.
pub open spec fn member_key(item: ImplItemView) -> Option<MemberKey> {
    match item {
        ImplItemView::Const(c) => Some((MemberKind::Const, c.ident)),
        ImplItemView::Fn(f) => Some((MemberKind::Fn, f.ident)),
        ImplItemView::Type(t) => Some((MemberKind::Type, t.ident)),
        ImplItemView::Other(_) => None,
    }
}

/// Whether one of the trait items declares the member.
pub open spec fn declares(trait_items: Seq<TraitItem>, key: MemberKey) -> bool {
    exists|i: int| 0 <= i < trait_items.len() && trait_key(#[trigger] trait_items[i]) == Some(key)
}

/// Whether one of the impl items provides the member.
pub open spec fn provides(items: Seq<ImplItemView>, key: MemberKey) -> bool {
    exists|j: int| 0 <= j < items.len() && member_key(#[trigger] items[j]) == Some(key)
}

/// Whether no member is declared twice.
pub open spec fn distinct_declarations(trait_items: Seq<TraitItem>) -> bool {
    forall|i: int, j: int|
        0 <= i < j < trait_items.len() && trait_key(trait_items[i]) is Some ==> trait_key(
            trait_items[i],
        ) != trait_key(trait_items[j])
}

/// Whether no member is provided twice.
pub open spec fn distinct_members(items: Seq<ImplItemView>) -> bool {
    forall|i: int, j: int|
        0 <= i < j < items.len() && member_key(items[i]) is Some ==> member_key(items[i])
            != member_key(items[j])
}

/// Whether the generator gives every member that it synthesizes the name of the
/// declaration that it was asked for.
pub open spec fn keeps_names<G: GenerateImpl>() -> bool {
    &&& forall|state: G::V, ctx: ImplContext, item: TraitItemConst|
        (#[trigger] G::on_const(state, ctx, item)).1 matches Ok(member) ==> member.ident
            == item.ident@
    &&& forall|state: G::V, ctx: ImplContext, item: TraitItemFn|
        (#[trigger] G::on_fn(state, ctx, item)).1 matches Ok(member) ==> member.ident
            == item.sig.ident@
    &&& forall|state: G::V, ctx: ImplContext, item: TraitItemType|
        (#[trigger] G::on_type(state, ctx, item)).1 matches Ok(member) ==> member.ident
            == item.ident@
}

proof fn lemma_contains_push<T>(s: Seq<T>, e: T, x: T)
    ensures
        s.push(e).contains(x) <==> s.contains(x) || e == x,
{
    if s.contains(x) {
        let i = choose|i: int| 0 <= i < s.len() && s[i] == x;
        assert(s.push(e)[i] == x);
    }
    if e == x {
        assert(s.push(e)[s.len() as int] == x);
    }
    if s.push(e).contains(x) {
        let i = choose|i: int| 0 <= i < s.push(e).len() && s.push(e)[i] == x;
        if i < s.len() {
            assert(s[i] == x);
        }
    }
}

proof fn lemma_names_push<T: Named>(s: Seq<&T>, e: &T)
    ensures
        names(s.push(e)) == names(s).push(e.name()),
{
    assert(names(s.push(e)) =~= names(s).push(e.name()));
}

proof fn lemma_provided_consts(items: Seq<ImplItem>, n: nat, x: Seq<char>)
    requires
        n <= items.len(),
    ensures
        names(impl_consts(items, n)).contains(x) <==> exists|j: int|
            0 <= j < n && member_key((#[trigger] items[j])@) == Some((MemberKind::Const, x)),
    decreases n,
{
    if n == 0 {
        assert(names(impl_consts(items, n)) =~= Seq::<Seq<char>>::empty());
    } else {
        let m = (n - 1) as nat;
        lemma_provided_consts(items, m, x);
        let before = impl_consts(items, m);
        if items[n - 1] is Const {
            let item = items[n - 1]->Const_0;
            lemma_names_push(before, &item);
            lemma_contains_push(names(before), item.name(), x);
        }
        if names(impl_consts(items, n)).contains(x) {
            if names(before).contains(x) {
                let j = choose|j: int|
                    0 <= j < m && member_key((#[trigger] items[j])@) == Some(
                        (MemberKind::Const, x),
                    );
                assert(0 <= j < n && member_key(items[j]@) == Some((MemberKind::Const, x)));
            } else {
                assert(member_key(items[n - 1]@) == Some((MemberKind::Const, x)));
            }
        }
        if exists|j: int|
            0 <= j < n && member_key((#[trigger] items[j])@) == Some((MemberKind::Const, x)) {
            let j = choose|j: int|
                0 <= j < n && member_key((#[trigger] items[j])@) == Some(
                    (MemberKind::Const, x),
                );
            if j < m {
                assert(names(before).contains(x));
            }
        }
    }
}

proof fn lemma_declared_consts(items: Seq<TraitItem>, n: nat, x: Seq<char>)
    requires
        n <= items.len(),
    ensures
        names(trait_consts(items, n)).contains(x) <==> exists|j: int|
            0 <= j < n && trait_key(#[trigger] items[j]) == Some((MemberKind::Const, x)),
    decreases n,
{
    if n == 0 {
        assert(names(trait_consts(items, n)) =~= Seq::<Seq<char>>::empty());
    } else {
        let m = (n - 1) as nat;
        lemma_declared_consts(items, m, x);
        let before = trait_consts(items, m);
        if items[n - 1] is Const {
            let item = items[n - 1]->Const_0;
            lemma_names_push(before, &item);
            lemma_contains_push(names(before), item.name(), x);
        }
        if names(trait_consts(items, n)).contains(x) {
            if names(before).contains(x) {
                let j = choose|j: int|
                    0 <= j < m && trait_key(#[trigger] items[j]) == Some((MemberKind::Const, x));
                assert(0 <= j < n && trait_key(items[j]) == Some((MemberKind::Const, x)));
            } else {
                assert(trait_key(items[n - 1]) == Some((MemberKind::Const, x)));
            }
        }
        if exists|j: int|
            0 <= j < n && trait_key(#[trigger] items[j]) == Some((MemberKind::Const, x)) {
            let j = choose|j: int|
                0 <= j < n && trait_key(#[trigger] items[j]) == Some((MemberKind::Const, x));
            if j < m {
                assert(names(before).contains(x));
            }
        }
    }
}

proof fn lemma_provided_fns(items: Seq<ImplItem>, n: nat, x: Seq<char>)
    requires
        n <= items.len(),
    ensures
        names(impl_fns(items, n)).contains(x) <==> exists|j: int|
            0 <= j < n && member_key((#[trigger] items[j])@) == Some((MemberKind::Fn, x)),
    decreases n,
{
    if n == 0 {
        assert(names(impl_fns(items, n)) =~= Seq::<Seq<char>>::empty());
    } else {
        let m = (n - 1) as nat;
        lemma_provided_fns(items, m, x);
        let before = impl_fns(items, m);
        if items[n - 1] is Fn {
            let item = items[n - 1]->Fn_0;
            lemma_names_push(before, &item);
            lemma_contains_push(names(before), item.name(), x);
        }
        if names(impl_fns(items, n)).contains(x) {
            if names(before).contains(x) {
                let j = choose|j: int|
                    0 <= j < m && member_key((#[trigger] items[j])@) == Some(
                        (MemberKind::Fn, x),
                    );
                assert(0 <= j < n && member_key(items[j]@) == Some((MemberKind::Fn, x)));
            } else {
                assert(member_key(items[n - 1]@) == Some((MemberKind::Fn, x)));
            }
        }
        if exists|j: int|
            0 <= j < n && member_key((#[trigger] items[j])@) == Some((MemberKind::Fn, x)) {
            let j = choose|j: int|
                0 <= j < n && member_key((#[trigger] items[j])@) == Some(
                    (MemberKind::Fn, x),
                );
            if j < m {
                assert(names(before).contains(x));
            }
        }
    }
}

proof fn lemma_declared_fns(items: Seq<TraitItem>, n: nat, x: Seq<char>)
    requires
        n <= items.len(),
    ensures
        names(trait_fns(items, n)).contains(x) <==> exists|j: int|
            0 <= j < n && trait_key(#[trigger] items[j]) == Some((MemberKind::Fn, x)),
    decreases n,
{
    if n == 0 {
        assert(names(trait_fns(items, n)) =~= Seq::<Seq<char>>::empty());
    } else {
        let m = (n - 1) as nat;
        lemma_declared_fns(items, m, x);
        let before = trait_fns(items, m);
        if items[n - 1] is Fn {
            let item = items[n - 1]->Fn_0;
            lemma_names_push(before, &item);
            lemma_contains_push(names(before), item.name(), x);
        }
        if names(trait_fns(items, n)).contains(x) {
            if names(before).contains(x) {
                let j = choose|j: int|
                    0 <= j < m && trait_key(#[trigger] items[j]) == Some((MemberKind::Fn, x));
                assert(0 <= j < n && trait_key(items[j]) == Some((MemberKind::Fn, x)));
            } else {
                assert(trait_key(items[n - 1]) == Some((MemberKind::Fn, x)));
            }
        }
        if exists|j: int|
            0 <= j < n && trait_key(#[trigger] items[j]) == Some((MemberKind::Fn, x)) {
            let j = choose|j: int|
                0 <= j < n && trait_key(#[trigger] items[j]) == Some((MemberKind::Fn, x));
            if j < m {
                assert(names(before).contains(x));
            }
        }
    }
}

proof fn lemma_provided_types(items: Seq<ImplItem>, n: nat, x: Seq<char>)
    requires
        n <= items.len(),
    ensures
        names(impl_types(items, n)).contains(x) <==> exists|j: int|
            0 <= j < n && member_key((#[trigger] items[j])@) == Some((MemberKind::Type, x)),
    decreases n,
{
    if n == 0 {
        assert(names(impl_types(items, n)) =~= Seq::<Seq<char>>::empty());
    } else {
        let m = (n - 1) as nat;
        lemma_provided_types(items, m, x);
        let before = impl_types(items, m);
        if items[n - 1] is Type {
            let item = items[n - 1]->Type_0;
            lemma_names_push(before, &item);
            lemma_contains_push(names(before), item.name(), x);
        }
        if names(impl_types(items, n)).contains(x) {
            if names(before).contains(x) {
                let j = choose|j: int|
                    0 <= j < m && member_key((#[trigger] items[j])@) == Some(
                        (MemberKind::Type, x),
                    );
                assert(0 <= j < n && member_key(items[j]@) == Some((MemberKind::Type, x)));
            } else {
                assert(member_key(items[n - 1]@) == Some((MemberKind::Type, x)));
            }
        }
        if exists|j: int|
            0 <= j < n && member_key((#[trigger] items[j])@) == Some((MemberKind::Type, x)) {
            let j = choose|j: int|
                0 <= j < n && member_key((#[trigger] items[j])@) == Some(
                    (MemberKind::Type, x),
                );
            if j < m {
                assert(names(before).contains(x));
            }
        }
    }
}

proof fn lemma_declared_types(items: Seq<TraitItem>, n: nat, x: Seq<char>)
    requires
        n <= items.len(),
    ensures
        names(trait_types(items, n)).contains(x) <==> exists|j: int|
            0 <= j < n && trait_key(#[trigger] items[j]) == Some((MemberKind::Type, x)),
    decreases n,
{
    if n == 0 {
        assert(names(trait_types(items, n)) =~= Seq::<Seq<char>>::empty());
    } else {
        let m = (n - 1) as nat;
        lemma_declared_types(items, m, x);
        let before = trait_types(items, m);
        if items[n - 1] is Type {
            let item = items[n - 1]->Type_0;
            lemma_names_push(before, &item);
            lemma_contains_push(names(before), item.name(), x);
        }
        if names(trait_types(items, n)).contains(x) {
            if names(before).contains(x) {
                let j = choose|j: int|
                    0 <= j < m && trait_key(#[trigger] items[j]) == Some((MemberKind::Type, x));
                assert(0 <= j < n && trait_key(items[j]) == Some((MemberKind::Type, x)));
            } else {
                assert(trait_key(items[n - 1]) == Some((MemberKind::Type, x)));
            }
        }
        if exists|j: int|
            0 <= j < n && trait_key(#[trigger] items[j]) == Some((MemberKind::Type, x)) {
            let j = choose|j: int|
                0 <= j < n && trait_key(#[trigger] items[j]) == Some((MemberKind::Type, x));
            if j < m {
                assert(names(before).contains(x));
            }
        }
    }
}

proof fn lemma_none_unknown(provided: Seq<Seq<char>>, declared: Seq<Seq<char>>, n: nat)
    requires
        n <= provided.len(),
        first_unknown(provided, declared, n) is None,
    ensures
        forall|k: int| 0 <= k < n ==> declared.contains(#[trigger] provided[k]),
    decreases n,
{
    if n > 0 {
        lemma_none_unknown(provided, declared, (n - 1) as nat);
    }
}

proof fn lemma_some_unknown(provided: Seq<Seq<char>>, declared: Seq<Seq<char>>, n: nat, k: int)
    requires
        0 <= k < n <= provided.len(),
        !declared.contains(provided[k]),
    ensures
        first_unknown(provided, declared, n) is Some,
    decreases n,
{
    if k < n - 1 {
        lemma_some_unknown(provided, declared, (n - 1) as nat, k);
    }
}

/// Where `subtract_items` finds no surplus, the trait declares every member of the block.
pub proof fn lemma_no_surplus(trait_items: Seq<TraitItem>, impl_items: Seq<ImplItem>, j: int)
    requires
        surplus_member(trait_items, impl_items) is None,
        0 <= j < impl_items.len(),
        member_key(impl_items[j]@) is Some,
    ensures
        declares(trait_items, member_key(impl_items[j]@)->Some_0),
{
    let key = member_key(impl_items[j]@)->Some_0;
    let x = key.1;
    let n = impl_items.len();
    let t = trait_items.len();
    match key.0 {
        MemberKind::Const => {
            let provided = names(impl_consts(impl_items, n));
            let declared = names(trait_consts(trait_items, t));
            lemma_provided_consts(impl_items, n, x);
            let p = choose|p: int| 0 <= p < provided.len() && provided[p] == x;
            lemma_none_unknown(provided, declared, provided.len());
            assert(declared.contains(provided[p]));
            lemma_declared_consts(trait_items, t, x);
        },
        MemberKind::Fn => {
            let provided = names(impl_fns(impl_items, n));
            let declared = names(trait_fns(trait_items, t));
            lemma_provided_fns(impl_items, n, x);
            let p = choose|p: int| 0 <= p < provided.len() && provided[p] == x;
            lemma_none_unknown(provided, declared, provided.len());
            assert(declared.contains(provided[p]));
            lemma_declared_fns(trait_items, t, x);
        },
        MemberKind::Type => {
            let provided = names(impl_types(impl_items, n));
            let declared = names(trait_types(trait_items, t));
            lemma_provided_types(impl_items, n, x);
            let p = choose|p: int| 0 <= p < provided.len() && provided[p] == x;
            lemma_none_unknown(provided, declared, provided.len());
            assert(declared.contains(provided[p]));
            lemma_declared_types(trait_items, t, x);
        },
    }
}

/// Where the block has a member that the trait does not declare, `subtract_items` finds a
/// surplus.
pub proof fn lemma_surplus(trait_items: Seq<TraitItem>, impl_items: Seq<ImplItem>, j: int)
    requires
        0 <= j < impl_items.len(),
        member_key(impl_items[j]@) is Some,
        !declares(trait_items, member_key(impl_items[j]@)->Some_0),
    ensures
        surplus_member(trait_items, impl_items) is Some,
{
    let key = member_key(impl_items[j]@)->Some_0;
    let x = key.1;
    let n = impl_items.len();
    let t = trait_items.len();
    match key.0 {
        MemberKind::Const => {
            let provided = names(impl_consts(impl_items, n));
            let declared = names(trait_consts(trait_items, t));
            lemma_provided_consts(impl_items, n, x);
            lemma_declared_consts(trait_items, t, x);
            let p = choose|p: int| 0 <= p < provided.len() && provided[p] == x;
            lemma_some_unknown(provided, declared, provided.len(), p);
        },
        MemberKind::Fn => {
            let provided = names(impl_fns(impl_items, n));
            let declared = names(trait_fns(trait_items, t));
            lemma_provided_fns(impl_items, n, x);
            lemma_declared_fns(trait_items, t, x);
            let p = choose|p: int| 0 <= p < provided.len() && provided[p] == x;
            lemma_some_unknown(provided, declared, provided.len(), p);
        },
        MemberKind::Type => {
            let provided = names(impl_types(impl_items, n));
            let declared = names(trait_types(trait_items, t));
            lemma_provided_types(impl_items, n, x);
            lemma_declared_types(trait_items, t, x);
            let p = choose|p: int| 0 <= p < provided.len() && provided[p] == x;
            lemma_some_unknown(provided, declared, provided.len(), p);
        },
    }
}

/// A trait member counts as provided exactly when some item of the block has its
/// namespace and name.
pub proof fn lemma_is_provided(item: TraitItem, impl_items: Seq<ImplItem>)
    ensures
        is_provided(item, impl_items) <==> (trait_key(item) matches Some(key) ==> exists|j: int|
            0 <= j < impl_items.len() && member_key((#[trigger] impl_items[j])@) == Some(key)),
{
    let n = impl_items.len();
    match item {
        TraitItem::Const(c) => {
            lemma_provided_consts(impl_items, n, c.ident@);
        },
        TraitItem::Fn(f) => {
            lemma_provided_fns(impl_items, n, f.sig.ident@);
        },
        TraitItem::Type(t) => {
            lemma_provided_types(impl_items, n, t.ident@);
        },
        TraitItem::Other(_) => {},
    }
}

/// What the synthesized members are: one for every declaration that the block lacks,
/// under the declaration's name, and no other.
pub proof fn lemma_generated_members<G: GenerateImpl>(
    state: G::V,
    ctx: ImplContext,
    trait_items: Seq<TraitItem>,
    impl_items: Seq<ImplItem>,
    n: nat,
)
    requires
        keeps_names::<G>(),
        n <= trait_items.len(),
        generated_items::<G>(state, ctx, trait_items, impl_items, n) is Ok,
    ensures
        ({
            let members = generated_items::<G>(state, ctx, trait_items, impl_items, n)->Ok_0.1;
            &&& forall|k: int|
                0 <= k < members.len() ==> exists|i: int|
                    0 <= i < n && !is_provided(#[trigger] trait_items[i], impl_items) && trait_key(
                        trait_items[i],
                    ) is Some && trait_key(trait_items[i]) == member_key(#[trigger] members[k])
            &&& forall|i: int|
                0 <= i < n && !is_provided(#[trigger] trait_items[i], impl_items) ==> provides(
                    members,
                    trait_key(trait_items[i])->Some_0,
                )
            &&& distinct_declarations(trait_items) ==> distinct_members(members)
        }),
    decreases n,
{
    if n > 0 {
        let m = (n - 1) as nat;
        lemma_generated_members::<G>(state, ctx, trait_items, impl_items, m);
        let (s, before) = generated_items::<G>(state, ctx, trait_items, impl_items, m)->Ok_0;
        let members = generated_items::<G>(state, ctx, trait_items, impl_items, n)->Ok_0.1;
        let item = trait_items[n - 1];
        if is_provided(item, impl_items) {
            assert(members == before);
        } else {
            let (next, outcome) = generated_item::<G>(s, ctx, item);
            let member = outcome->Ok_0->Some_0;
            assert(members == before.push(member));
            assert(trait_key(item) == member_key(member));
            assert forall|k: int| 0 <= k < members.len() implies exists|i: int|
                0 <= i < n && !is_provided(#[trigger] trait_items[i], impl_items) && trait_key(
                    trait_items[i],
                ) is Some && trait_key(trait_items[i]) == member_key(#[trigger] members[k]) by {
                if k < before.len() {
                    assert(members[k] == before[k]);
                    let i = choose|i: int|
                        0 <= i < m && !is_provided(#[trigger] trait_items[i], impl_items)
                            && trait_key(trait_items[i]) is Some && trait_key(trait_items[i])
                            == member_key(before[k]);
                    assert(0 <= i < n && !is_provided(trait_items[i], impl_items));
                } else {
                    assert(!is_provided(trait_items[n - 1], impl_items));
                }
            }
            assert forall|i: int|
                0 <= i < n && !is_provided(#[trigger] trait_items[i], impl_items) implies provides(
                members,
                trait_key(trait_items[i])->Some_0,
            ) by {
                if i < m {
                    let key = trait_key(trait_items[i])->Some_0;
                    let j = choose|j: int|
                        0 <= j < before.len() && member_key(#[trigger] before[j]) == Some(key);
                    assert(members[j] == before[j]);
                } else {
                    assert(members[before.len() as int] == member);
                }
            }
            if distinct_declarations(trait_items) {
                assert forall|a: int, b: int|
                    0 <= a < b < members.len() && member_key(members[a]) is Some implies member_key(
                    members[a],
                ) != member_key(members[b]) by {
                    assert(members[a] == before[a]);
                    if b < before.len() {
                        assert(members[b] == before[b]);
                    } else {
                        let i = choose|i: int|
                            0 <= i < m && !is_provided(#[trigger] trait_items[i], impl_items)
                                && trait_key(trait_items[i]) is Some && trait_key(trait_items[i])
                                == member_key(before[a]);
                        assert(trait_key(trait_items[i]) != trait_key(trait_items[n - 1]));
                    }
                }
            }
        }
    }
}

/// A completed impl block provides every member that the trait declares, no other, and
/// none twice.
///
/// This holds where the completion succeeds, the trait declares no member twice, the
/// block as written provides none twice, and the generator names what it synthesizes as
/// it was asked.
pub proof fn completion_provides_declared_members<G: GenerateImpl>(
    state: G::V,
    trait_items: &Vec<TraitItem>,
    impl_block: &ItemImpl,
)
    requires
        keeps_names::<G>(),
        distinct_declarations(trait_items@),
        distinct_members(impl_block@.items),
        completed_impl::<G>(state, trait_items, impl_block) is Ok,
    ensures
        ({
            let completed = completed_impl::<G>(state, trait_items, impl_block)->Ok_0;
            &&& forall|key: MemberKey|
                provides(completed.items, key) <==> declares(trait_items@, key)
            &&& distinct_members(completed.items)
        }),
{
    let ctx = ImplContext { all_trait_items: trait_items, impl_block };
    let declared = trait_items@;
    let written = impl_block.items@;
    let n = declared.len();
    let members = generated_items::<G>(state, ctx, declared, written, n)->Ok_0.1;
    let completed = completed_impl::<G>(state, trait_items, impl_block)->Ok_0;
    let own = impl_block@.items;
    assert(completed.items == own + members);
    assert(own.len() == written.len());
    assert forall|j: int| 0 <= j < own.len() implies #[trigger] own[j] == written[j]@ by {}
    lemma_generated_members::<G>(state, ctx, declared, written, n);

    assert forall|key: MemberKey| provides(completed.items, key) implies declares(
        declared,
        key,
    ) by {
        let j = choose|j: int|
            0 <= j < completed.items.len() && member_key(#[trigger] completed.items[j]) == Some(
                key,
            );
        if j < own.len() {
            assert(completed.items[j] == own[j]);
            lemma_no_surplus(declared, written, j);
        } else {
            let k = j - own.len();
            assert(completed.items[j] == members[k]);
            let i = choose|i: int|
                0 <= i < n && !is_provided(#[trigger] declared[i], written) && trait_key(
                    declared[i],
                ) is Some && trait_key(declared[i]) == member_key(members[k]);
            assert(trait_key(declared[i]) == Some(key));
        }
    }
    assert forall|key: MemberKey| declares(declared, key) implies provides(
        completed.items,
        key,
    ) by {
        let i = choose|i: int| 0 <= i < n && trait_key(#[trigger] declared[i]) == Some(key);
        lemma_is_provided(declared[i], written);
        if is_provided(declared[i], written) {
            let j = choose|j: int|
                0 <= j < written.len() && member_key((#[trigger] written[j])@) == Some(key);
            assert(completed.items[j] == own[j]);
        } else {
            let k = choose|k: int|
                0 <= k < members.len() && member_key(#[trigger] members[k]) == Some(key);
            assert(completed.items[own.len() + k] == members[k]);
        }
    }
    assert forall|a: int, b: int|
        0 <= a < b < completed.items.len() && member_key(
            completed.items[a],
        ) is Some implies member_key(completed.items[a]) != member_key(completed.items[b]) by {
        if b < own.len() {
            assert(completed.items[a] == own[a]);
            assert(completed.items[b] == own[b]);
        } else if a >= own.len() {
            assert(completed.items[a] == members[a - own.len()]);
            assert(completed.items[b] == members[b - own.len()]);
        } else {
            assert(completed.items[a] == own[a]);
            let k = b - own.len();
            assert(completed.items[b] == members[k]);
            let i = choose|i: int|
                0 <= i < n && !is_provided(#[trigger] declared[i], written) && trait_key(
                    declared[i],
                ) is Some && trait_key(declared[i]) == member_key(members[k]);
            lemma_is_provided(declared[i], written);
            assert(member_key(written[a]@) == member_key(own[a]));
        }
    }
}

/// Where the block provides a member that the trait does not declare, the completion
/// fails with the report of a surplus member, whatever the generator: no member is
/// synthesized.
pub proof fn surplus_member_fails_completion<G: GenerateImpl>(
    state: G::V,
    trait_items: &Vec<TraitItem>,
    impl_block: &ItemImpl,
    key: MemberKey,
)
    requires
        provides(impl_block@.items, key),
        !declares(trait_items@, key),
    ensures
        completed_impl::<G>(state, trait_items, impl_block) is Err,
        completed_impl::<G>(state, trait_items, impl_block) == Err::<
            ItemImplView,
            DiagnosticView,
        >(surplus_member(trait_items@, impl_block.items@)->Some_0),
        ({
            let kind = completed_impl::<G>(state, trait_items, impl_block)->Err_0.kind;
            kind == crate::diagnostic::DiagnosticKind::UnknownConst || kind
                == crate::diagnostic::DiagnosticKind::UnknownFn || kind
                == crate::diagnostic::DiagnosticKind::UnknownType
        }),
{
    let own = impl_block@.items;
    let j = choose|j: int| 0 <= j < own.len() && member_key(#[trigger] own[j]) == Some(key);
    assert(own[j] == impl_block.items@[j]@);
    lemma_surplus(trait_items@, impl_block.items@, j);
}

/// Completing the same block of the same trait with a generator in the same state gives
/// the same result every time.
pub proof fn completion_is_deterministic<G: GenerateImpl>(
    first: Result<ItemImplView, DiagnosticView>,
    second: Result<ItemImplView, DiagnosticView>,
    state: G::V,
    trait_items: &Vec<TraitItem>,
    impl_block: &ItemImpl,
)
    requires
        first == completed_impl::<G>(state, trait_items, impl_block),
        second == completed_impl::<G>(state, trait_items, impl_block),
    ensures
        first == second,
        first matches Ok(block) ==> crate::syntax::item_impl_text(block)
            == crate::syntax::item_impl_text(second->Ok_0),
{
}

/// The generator of default values names every member as it was asked.
pub proof fn default_keeps_names()
    ensures
        keeps_names::<crate::default_filler::Generator>(),
{
}

/// The generator that forwards to another type names every member as it was asked.
pub proof fn delegate_keeps_names()
    ensures
        keeps_names::<crate::delegate_filler::Generator>(),
{
}

/// The generator of logging calls names every member as it was asked.
pub proof fn log_keeps_names()
    ensures
        keeps_names::<crate::log_filler::Generator>(),
{
}

proof fn lemma_unknown_witness(provided: Seq<Seq<char>>, declared: Seq<Seq<char>>, n: nat)
    requires
        n <= provided.len(),
        first_unknown(provided, declared, n) is Some,
    ensures
        exists|k: int| 0 <= k < n && !declared.contains(#[trigger] provided[k]),
    decreases n,
{
    if n > 0 {
        if first_unknown(provided, declared, (n - 1) as nat) is Some {
            lemma_unknown_witness(provided, declared, (n - 1) as nat);
            let k = choose|k: int| 0 <= k < n - 1 && !declared.contains(#[trigger] provided[k]);
            assert(0 <= k < n && !declared.contains(provided[k]));
        } else {
            assert(!declared.contains(provided[n - 1]));
        }
    }
}

/// Where the trait declares every member of the block, `subtract_items` finds no surplus.
pub proof fn lemma_declared_members(trait_items: Seq<TraitItem>, impl_items: Seq<ImplItem>)
    requires
        forall|j: int|
            0 <= j < impl_items.len() && member_key((#[trigger] impl_items[j])@) is Some
                ==> declares(trait_items, member_key(impl_items[j]@)->Some_0),
    ensures
        surplus_member(trait_items, impl_items) is None,
{
    let n = impl_items.len();
    let t = trait_items.len();
    let consts = names(impl_consts(impl_items, n));
    let fns = names(impl_fns(impl_items, n));
    let types = names(impl_types(impl_items, n));
    let declared_consts = names(trait_consts(trait_items, t));
    let declared_fns = names(trait_fns(trait_items, t));
    let declared_types = names(trait_types(trait_items, t));
    if first_unknown(consts, declared_consts, consts.len()) is Some {
        lemma_unknown_witness(consts, declared_consts, consts.len());
        let k = choose|k: int| 0 <= k < consts.len() && !declared_consts.contains(#[trigger] consts[k]);
        let x = consts[k];
        assert(consts.contains(x));
        lemma_provided_consts(impl_items, n, x);
        let j = choose|j: int|
            0 <= j < n && member_key((#[trigger] impl_items[j])@) == Some((MemberKind::Const, x));
        lemma_declared_consts(trait_items, t, x);
        assert(declares(trait_items, member_key(impl_items[j]@)->Some_0));
        let i = choose|i: int|
            0 <= i < trait_items.len() && trait_key(#[trigger] trait_items[i]) == Some(
                (MemberKind::Const, x),
            );
        assert(false);
    }
    if first_unknown(fns, declared_fns, fns.len()) is Some {
        lemma_unknown_witness(fns, declared_fns, fns.len());
        let k = choose|k: int| 0 <= k < fns.len() && !declared_fns.contains(#[trigger] fns[k]);
        let x = fns[k];
        assert(fns.contains(x));
        lemma_provided_fns(impl_items, n, x);
        let j = choose|j: int|
            0 <= j < n && member_key((#[trigger] impl_items[j])@) == Some((MemberKind::Fn, x));
        lemma_declared_fns(trait_items, t, x);
        assert(declares(trait_items, member_key(impl_items[j]@)->Some_0));
        let i = choose|i: int|
            0 <= i < trait_items.len() && trait_key(#[trigger] trait_items[i]) == Some(
                (MemberKind::Fn, x),
            );
        assert(false);
    }
    if first_unknown(types, declared_types, types.len()) is Some {
        lemma_unknown_witness(types, declared_types, types.len());
        let k = choose|k: int| 0 <= k < types.len() && !declared_types.contains(#[trigger] types[k]);
        let x = types[k];
        assert(types.contains(x));
        lemma_provided_types(impl_items, n, x);
        let j = choose|j: int|
            0 <= j < n && member_key((#[trigger] impl_items[j])@) == Some((MemberKind::Type, x));
        lemma_declared_types(trait_items, t, x);
        assert(declares(trait_items, member_key(impl_items[j]@)->Some_0));
        let i = choose|i: int|
            0 <= i < trait_items.len() && trait_key(#[trigger] trait_items[i]) == Some(
                (MemberKind::Type, x),
            );
        assert(false);
    }
}

proof fn lemma_nothing_to_generate<G: GenerateImpl>(
    state: G::V,
    ctx: ImplContext,
    trait_items: Seq<TraitItem>,
    impl_items: Seq<ImplItem>,
    n: nat,
)
    requires
        n <= trait_items.len(),
        forall|i: int| 0 <= i < n ==> is_provided(#[trigger] trait_items[i], impl_items),
    ensures
        generated_items::<G>(state, ctx, trait_items, impl_items, n) == Ok::<
            (G::V, Seq<ImplItemView>),
            DiagnosticView,
        >((state, Seq::empty())),
    decreases n,
{
    if n > 0 {
        lemma_nothing_to_generate::<G>(state, ctx, trait_items, impl_items, (n - 1) as nat);
        assert(is_provided(trait_items[n - 1], impl_items));
    }
}

/// Completing a completed block changes nothing: the generator is not asked for
/// anything, and the block comes back as it is.
///
/// `completed` stands for any block whose content is the result of a successful
/// completion, under the conditions under which a completed block has exactly the members
/// of the trait.
pub proof fn completion_is_idempotent<G: GenerateImpl>(
    state: G::V,
    again: G::V,
    trait_items: &Vec<TraitItem>,
    impl_block: &ItemImpl,
    completed: &ItemImpl,
)
    requires
        keeps_names::<G>(),
        distinct_declarations(trait_items@),
        distinct_members(impl_block@.items),
        completed_impl::<G>(state, trait_items, impl_block) == Ok::<ItemImplView, DiagnosticView>(
            completed@,
        ),
    ensures
        completed_impl::<G>(again, trait_items, completed) == Ok::<ItemImplView, DiagnosticView>(
            completed@,
        ),
{
    completion_provides_declared_members::<G>(state, trait_items, impl_block);
    let declared = trait_items@;
    let written = completed.items@;
    let own = completed@.items;
    assert(own.len() == written.len());
    assert forall|j: int| 0 <= j < own.len() implies #[trigger] own[j] == written[j]@ by {}
    assert forall|j: int|
        0 <= j < written.len() && member_key((#[trigger] written[j])@) is Some implies declares(
        declared,
        member_key(written[j]@)->Some_0,
    ) by {
        assert(member_key(own[j]) == member_key(written[j]@));
        assert(provides(own, member_key(written[j]@)->Some_0));
    }
    lemma_declared_members(declared, written);
    assert forall|i: int| 0 <= i < declared.len() implies is_provided(
        #[trigger] declared[i],
        written,
    ) by {
        lemma_is_provided(declared[i], written);
        if trait_key(declared[i]) is Some {
            let key = trait_key(declared[i])->Some_0;
            assert(declares(declared, key));
            assert(provides(own, key));
            let j = choose|j: int| 0 <= j < own.len() && member_key(#[trigger] own[j]) == Some(key);
            assert(member_key(written[j]@) == Some(key));
        }
    }
    let ctx = ImplContext { all_trait_items: trait_items, impl_block: completed };
    lemma_nothing_to_generate::<G>(again, ctx, declared, written, declared.len());
    assert(own + Seq::<ImplItemView>::empty() =~= own);
}

/// Whether the deriving generator gives every member that it synthesizes the name of the
/// declaration that it was asked for.
pub open spec fn derive_keeps_names<G: GenerateDerive>() -> bool {
    &&& forall|state: G::V, ctx: DeriveContext, item: TraitItemConst|
        (#[trigger] G::on_const(state, ctx, item)).1 matches Ok(member) ==> member.ident
            == item.ident@
    &&& forall|state: G::V, ctx: DeriveContext, item: TraitItemFn|
        (#[trigger] G::on_fn(state, ctx, item)).1 matches Ok(member) ==> member.ident
            == item.sig.ident@
    &&& forall|state: G::V, ctx: DeriveContext, item: TraitItemType|
        (#[trigger] G::on_type(state, ctx, item)).1 matches Ok(member) ==> member.ident
            == item.ident@
}

proof fn lemma_derived_members<G: GenerateDerive>(
    state: G::V,
    ctx: DeriveContext,
    trait_items: Seq<TraitItem>,
    n: nat,
)
    requires
        derive_keeps_names::<G>(),
        n <= trait_items.len(),
        derived_items::<G>(state, ctx, trait_items, n) is Ok,
    ensures
        ({
            let members = derived_items::<G>(state, ctx, trait_items, n)->Ok_0.1;
            &&& forall|k: int|
                0 <= k < members.len() ==> exists|i: int|
                    0 <= i < n && trait_key(#[trigger] trait_items[i]) is Some && trait_key(
                        trait_items[i],
                    ) == member_key(#[trigger] members[k])
            &&& forall|i: int|
                0 <= i < n && trait_key(#[trigger] trait_items[i]) is Some ==> provides(
                    members,
                    trait_key(trait_items[i])->Some_0,
                )
            &&& distinct_declarations(trait_items) ==> distinct_members(members)
        }),
    decreases n,
{
    if n > 0 {
        let m = (n - 1) as nat;
        lemma_derived_members::<G>(state, ctx, trait_items, m);
        let (s, before) = derived_items::<G>(state, ctx, trait_items, m)->Ok_0;
        let members = derived_items::<G>(state, ctx, trait_items, n)->Ok_0.1;
        let item = trait_items[n - 1];
        if trait_key(item) is None {
            assert(members == before);
        } else {
            let (next, outcome) = derived_item::<G>(s, ctx, item);
            let member = outcome->Ok_0->Some_0;
            assert(members == before.push(member));
            assert(trait_key(item) == member_key(member));
            assert forall|k: int| 0 <= k < members.len() implies exists|i: int|
                0 <= i < n && trait_key(#[trigger] trait_items[i]) is Some && trait_key(
                    trait_items[i],
                ) == member_key(#[trigger] members[k]) by {
                if k < before.len() {
                    assert(members[k] == before[k]);
                    let i = choose|i: int|
                        0 <= i < m && trait_key(#[trigger] trait_items[i]) is Some && trait_key(
                            trait_items[i],
                        ) == member_key(before[k]);
                    assert(0 <= i < n && trait_key(trait_items[i]) is Some);
                } else {
                    assert(trait_key(trait_items[n - 1]) is Some);
                }
            }
            assert forall|i: int|
                0 <= i < n && trait_key(#[trigger] trait_items[i]) is Some implies provides(
                members,
                trait_key(trait_items[i])->Some_0,
            ) by {
                if i < m {
                    let key = trait_key(trait_items[i])->Some_0;
                    let j = choose|j: int|
                        0 <= j < before.len() && member_key(#[trigger] before[j]) == Some(key);
                    assert(members[j] == before[j]);
                } else {
                    assert(members[before.len() as int] == member);
                }
            }
            if distinct_declarations(trait_items) {
                assert forall|a: int, b: int|
                    0 <= a < b < members.len() && member_key(members[a]) is Some implies member_key(
                    members[a],
                ) != member_key(members[b]) by {
                    assert(members[a] == before[a]);
                    if b < before.len() {
                        assert(members[b] == before[b]);
                    } else {
                        let i = choose|i: int|
                            0 <= i < m && trait_key(#[trigger] trait_items[i]) is Some
                                && trait_key(trait_items[i]) == member_key(before[a]);
                        assert(trait_key(trait_items[i]) != trait_key(trait_items[n - 1]));
                    }
                }
            }
        }
    }
}

/// A derived impl block provides every member that the trait declares, no other, and none
/// twice.
///
/// This holds where the derivation succeeds, the trait declares no member twice, and the
/// generator names what it synthesizes as it was asked.
pub proof fn derivation_provides_declared_members<G: GenerateDerive>(
    state: G::V,
    trait_path: &Path,
    trait_items: &Vec<TraitItem>,
    input: &DeriveInput,
)
    requires
        derive_keeps_names::<G>(),
        distinct_declarations(trait_items@),
        derived_impl::<G>(state, trait_path, trait_items, input) is Ok,
    ensures
        ({
            let derived = derived_impl::<G>(state, trait_path, trait_items, input)->Ok_0;
            &&& forall|key: MemberKey| provides(derived.items, key) <==> declares(trait_items@, key)
            &&& distinct_members(derived.items)
        }),
{
    let ctx = DeriveContext { trait_path, all_trait_items: trait_items, input };
    let s1 = G::on_generics(
        state,
        ctx,
        (
            crate::syntax::param_texts(input.generics.params@),
            crate::text::views(input.generics.where_predicates@),
        ),
    ).0;
    let declared = trait_items@;
    let n = declared.len();
    let members = derived_items::<G>(s1, ctx, declared, n)->Ok_0.1;
    let derived = derived_impl::<G>(state, trait_path, trait_items, input)->Ok_0;
    assert(derived.items == members);
    lemma_derived_members::<G>(s1, ctx, declared, n);
    assert forall|key: MemberKey| provides(derived.items, key) implies declares(declared, key) by {
        let k = choose|k: int|
            0 <= k < members.len() && member_key(#[trigger] members[k]) == Some(key);
        let i = choose|i: int|
            0 <= i < n && trait_key(#[trigger] declared[i]) is Some && trait_key(declared[i])
                == member_key(members[k]);
        assert(trait_key(declared[i]) == Some(key));
    }
    assert forall|key: MemberKey| declares(declared, key) implies provides(derived.items, key) by {
        let i = choose|i: int| 0 <= i < n && trait_key(#[trigger] declared[i]) == Some(key);
        assert(trait_key(declared[i]) is Some);
    }
}

/// Field delegation names every function as it was asked, and synthesizes nothing else.
pub proof fn field_delegation_keeps_names()
    ensures
        derive_keeps_names::<crate::derive_delegate::Generator>(),
{
}

} // verus!
