//! The members that a trait declares and those that an impl block provides, by namespace,
//! and what an impl block leaves unimplemented.

use crate::diagnostic::{Diagnostic, DiagnosticKind, DiagnosticView, MemberKind, unknown_member};
use crate::syntax::{
    ImplItem, ImplItemConst, ImplItemFn, ImplItemType, ItemImpl, TraitItem, TraitItemConst,
    TraitItemFn, TraitItemType,
};
use crate::text::str_eq;
use vstd::prelude::*;
use vstd::string::*;

verus! {

/// A member with a name.
pub trait Named {
    /// The member's name.
    spec fn name(&self) -> Seq<char>;

    /// The member's name.
    fn ident(&self) -> (r: &String)
        ensures
            r@ == self.name(),
    ;
}

impl Named for TraitItemConst {
    open spec fn name(&self) -> Seq<char> {
        self.ident@
    }

    fn ident(&self) -> (r: &String) {
        &self.ident
    }
}

impl Named for TraitItemFn {
    open spec fn name(&self) -> Seq<char> {
        self.sig.ident@
    }

    fn ident(&self) -> (r: &String) {
        &self.sig.ident
    }
}

impl Named for TraitItemType {
    open spec fn name(&self) -> Seq<char> {
        self.ident@
    }

    fn ident(&self) -> (r: &String) {
        &self.ident
    }
}

impl Named for ImplItemConst {
    open spec fn name(&self) -> Seq<char> {
        self.ident@
    }

    fn ident(&self) -> (r: &String) {
        &self.ident
    }
}

impl Named for ImplItemFn {
    open spec fn name(&self) -> Seq<char> {
        self.ident@
    }

    fn ident(&self) -> (r: &String) {
        &self.ident
    }
}

impl Named for ImplItemType {
    open spec fn name(&self) -> Seq<char> {
        self.ident@
    }

    fn ident(&self) -> (r: &String) {
        &self.ident
    }
}

/// The names of the members, in order.
pub open spec fn names<T: Named>(members: Seq<&T>) -> Seq<Seq<char>> {
    members.map_values(|m: &T| m.name())
}

/// The constants among the first `n` trait items, in order.
pub open spec fn trait_consts<'t>(items: Seq<TraitItem>, n: nat) -> Seq<&'t TraitItemConst>
    decreases n,
{
    if n == 0 {
        Seq::empty()
    } else {
        match items[n - 1] {
            TraitItem::Const(item) => trait_consts(items, (n - 1) as nat).push(&item),
            _ => trait_consts(items, (n - 1) as nat),
        }
    }
}

/// The functions among the first `n` trait items, in order.
pub open spec fn trait_fns<'t>(items: Seq<TraitItem>, n: nat) -> Seq<&'t TraitItemFn>
    decreases n,
{
    if n == 0 {
        Seq::empty()
    } else {
        match items[n - 1] {
            TraitItem::Fn(item) => trait_fns(items, (n - 1) as nat).push(&item),
            _ => trait_fns(items, (n - 1) as nat),
        }
    }
}

/// The types among the first `n` trait items, in order.
pub open spec fn trait_types<'t>(items: Seq<TraitItem>, n: nat) -> Seq<&'t TraitItemType>
    decreases n,
{
    if n == 0 {
        Seq::empty()
    } else {
        match items[n - 1] {
            TraitItem::Type(item) => trait_types(items, (n - 1) as nat).push(&item),
            _ => trait_types(items, (n - 1) as nat),
        }
    }
}

/// The constants among the first `n` impl items, in order.
pub open spec fn impl_consts<'t>(items: Seq<ImplItem>, n: nat) -> Seq<&'t ImplItemConst>
    decreases n,
{
    if n == 0 {
        Seq::empty()
    } else {
        match items[n - 1] {
            ImplItem::Const(item) => impl_consts(items, (n - 1) as nat).push(&item),
            _ => impl_consts(items, (n - 1) as nat),
        }
    }
}

/// The functions among the first `n` impl items, in order.
pub open spec fn impl_fns<'t>(items: Seq<ImplItem>, n: nat) -> Seq<&'t ImplItemFn>
    decreases n,
{
    if n == 0 {
        Seq::empty()
    } else {
        match items[n - 1] {
            ImplItem::Fn(item) => impl_fns(items, (n - 1) as nat).push(&item),
            _ => impl_fns(items, (n - 1) as nat),
        }
    }
}

/// The types among the first `n` impl items, in order.
pub open spec fn impl_types<'t>(items: Seq<ImplItem>, n: nat) -> Seq<&'t ImplItemType>
    decreases n,
{
    if n == 0 {
        Seq::empty()
    } else {
        match items[n - 1] {
            ImplItem::Type(item) => impl_types(items, (n - 1) as nat).push(&item),
            _ => impl_types(items, (n - 1) as nat),
        }
    }
}

/// The first among the first `n` provided names that is not declared.
pub open spec fn first_unknown(provided: Seq<Seq<char>>, declared: Seq<Seq<char>>, n: nat) -> Option<
    Seq<char>,
>
    decreases n,
{
    if n == 0 {
        None
    } else {
        match first_unknown(provided, declared, (n - 1) as nat) {
            Some(name) => Some(name),
            None => if declared.contains(provided[n - 1]) {
                None
            } else {
                Some(provided[n - 1])
            },
        }
    }
}

/// Those among the first `n` declared members whose name is not provided, in order.
pub open spec fn unprovided<T: Named>(declared: Seq<&T>, provided: Seq<Seq<char>>, n: nat) -> Seq<
    &T,
>
    decreases n,
{
    if n == 0 {
        Seq::empty()
    } else if provided.contains(declared[n - 1].name()) {
        unprovided(declared, provided, (n - 1) as nat)
    } else {
        unprovided(declared, provided, (n - 1) as nat).push(declared[n - 1])
    }
}

/// Indexes the members of a trait by namespace. Each namespace is a vector, so that the
/// members stay in declaration order, and so does what `minus` leaves of them. Every
/// member is kept: a name that is declared twice stands twice.
pub struct TraitItemMap<'t> {
    /// Associated constants in the trait.
    pub consts: Vec<&'t TraitItemConst>,
    /// Associated functions in the trait.
    pub fns: Vec<&'t TraitItemFn>,
    /// Associated types in the trait.
    pub types: Vec<&'t TraitItemType>,
}

/// Indexes the members of an impl block by namespace, each namespace in the order in
/// which the block has them, which is the order in which a surplus member is looked for.
/// Every member is kept: a name that is written twice stands twice.
pub struct ImplItemMap<'t> {
    /// Associated constants in the implementation.
    pub consts: Vec<&'t ImplItemConst>,
    /// Associated functions in the implementation.
    pub fns: Vec<&'t ImplItemFn>,
    /// Associated types in the implementation.
    pub types: Vec<&'t ImplItemType>,
}

/// The failure that a surplus member of an impl block is reported with.
pub open spec fn surplus(kind: MemberKind, name: Seq<char>) -> DiagnosticView {
    DiagnosticView { kind: unknown_member(kind), subject: name }
}

/// The first member that `provided` has and `declared` lacks: constants are looked at
/// first, then functions, then types, each in order.
pub open spec fn first_surplus(declared: TraitItemMap, provided: ImplItemMap) -> Option<
    DiagnosticView,
> {
    match first_unknown(names(provided.consts@), names(declared.consts@), provided.consts@.len()) {
        Some(name) => Some(surplus(MemberKind::Const, name)),
        None => match first_unknown(
            names(provided.fns@),
            names(declared.fns@),
            provided.fns@.len(),
        ) {
            Some(name) => Some(surplus(MemberKind::Fn, name)),
            None => match first_unknown(
                names(provided.types@),
                names(declared.types@),
                provided.types@.len(),
            ) {
                Some(name) => Some(surplus(MemberKind::Type, name)),
                None => None,
            },
        },
    }
}

/// Whether `name` is the name of one of `members`.
pub fn has_name<T: Named>(members: &Vec<&T>, name: &str) -> (r: bool)
    ensures
        r == names(members@).contains(name@),
{
    let mut i: usize = 0;
    while i < members.len()
        invariant
            i <= members.len(),
            forall|k: int| 0 <= k < i ==> names(members@)[k] != name@,
        decreases members.len() - i,
    {
        if str_eq(members[i].ident().as_str(), name) {
            proof {
                assert(names(members@)[i as int] == name@);
            }
            return true;
        }
        i += 1;
    }
    false
}

fn find_unknown<A: Named, B: Named>(provided: &Vec<&A>, declared: &Vec<&B>) -> (r: Option<String>)
    ensures
        match r {
            Some(name) => first_unknown(names(provided@), names(declared@), provided@.len())
                == Some(name@),
            None => first_unknown(names(provided@), names(declared@), provided@.len())
                is None,
        },
{
    let mut i: usize = 0;
    while i < provided.len()
        invariant
            i <= provided.len(),
            first_unknown(names(provided@), names(declared@), i as nat) is None,
        decreases provided.len() - i,
    {
        let name = provided[i].ident();
        if !has_name(declared, name.as_str()) {
            proof {
                lemma_unknown_stays(
                    names(provided@),
                    names(declared@),
                    (i + 1) as nat,
                    provided@.len(),
                );
            }
            return Some(name.clone());
        }
        i += 1;
    }
    None
}

proof fn lemma_unknown_stays(provided: Seq<Seq<char>>, declared: Seq<Seq<char>>, i: nat, n: nat)
    requires
        i <= n,
        first_unknown(provided, declared, i) is Some,
    ensures
        first_unknown(provided, declared, n) == first_unknown(provided, declared, i),
    decreases n,
{
    if i < n {
        lemma_unknown_stays(provided, declared, i, (n - 1) as nat);
    }
}

fn retain_unprovided<'t, A: Named, B: Named>(declared: &mut Vec<&'t B>, provided: &Vec<&A>)
    ensures
        final(declared)@ == unprovided(old(declared)@, names(provided@), old(declared)@.len()),
{
    let mut kept: Vec<&'t B> = Vec::new();
    let mut i: usize = 0;
    while i < declared.len()
        invariant
            i <= declared.len(),
            declared@ == old(declared)@,
            kept@ == unprovided(declared@, names(provided@), i as nat),
        decreases declared.len() - i,
    {
        let member: &'t B = declared[i];
        if !has_name(provided, member.ident().as_str()) {
            kept.push(member);
        }
        i += 1;
    }
    *declared = kept;
}

impl<'t> TraitItemMap<'t> {
    /// Constructs the index from the members of a trait.
    pub fn new(trait_items: &'t Vec<TraitItem>) -> (r: Self)
        ensures
            r.consts@ == trait_consts(trait_items@, trait_items@.len()),
            r.fns@ == trait_fns(trait_items@, trait_items@.len()),
            r.types@ == trait_types(trait_items@, trait_items@.len()),
    {
        let mut map = TraitItemMap { consts: Vec::new(), fns: Vec::new(), types: Vec::new() };
        let mut i: usize = 0;
        while i < trait_items.len()
            invariant
                i <= trait_items.len(),
                map.consts@ == trait_consts(trait_items@, i as nat),
                map.fns@ == trait_fns(trait_items@, i as nat),
                map.types@ == trait_types(trait_items@, i as nat),
            decreases trait_items.len() - i,
        {
            match &trait_items[i] {
                TraitItem::Const(item) => {
                    map.consts.push(item);
                },
                TraitItem::Fn(item) => {
                    map.fns.push(item);
                },
                TraitItem::Type(item) => {
                    map.types.push(item);
                },
                TraitItem::Other(_) => {},
            }
            i += 1;
        }
        map
    }

    /// Removes the members found in the impl, leaving only unimplemented members.
    ///
    /// Fails, and removes nothing, when the impl has a member that this index lacks.
    pub fn minus(&mut self, impl_items: &ImplItemMap) -> (r: Result<(), Diagnostic>)
        ensures
            match r {
                Ok(()) => {
                    &&& first_surplus(*old(self), *impl_items) is None
                    &&& final(self).consts@ == unprovided(
                        old(self).consts@,
                        names(impl_items.consts@),
                        old(self).consts@.len(),
                    )
                    &&& final(self).fns@ == unprovided(
                        old(self).fns@,
                        names(impl_items.fns@),
                        old(self).fns@.len(),
                    )
                    &&& final(self).types@ == unprovided(
                        old(self).types@,
                        names(impl_items.types@),
                        old(self).types@.len(),
                    )
                },
                Err(d) => {
                    &&& first_surplus(*old(self), *impl_items) == Some(d@)
                    &&& *final(self) == *old(self)
                },
            },
    {
        match find_unknown(&impl_items.consts, &self.consts) {
            Some(name) => {
                return Err(Diagnostic { kind: DiagnosticKind::UnknownConst, subject: name });
            },
            None => {},
        }
        match find_unknown(&impl_items.fns, &self.fns) {
            Some(name) => {
                return Err(Diagnostic { kind: DiagnosticKind::UnknownFn, subject: name });
            },
            None => {},
        }
        match find_unknown(&impl_items.types, &self.types) {
            Some(name) => {
                return Err(Diagnostic { kind: DiagnosticKind::UnknownType, subject: name });
            },
            None => {},
        }
        retain_unprovided(&mut self.consts, &impl_items.consts);
        retain_unprovided(&mut self.fns, &impl_items.fns);
        retain_unprovided(&mut self.types, &impl_items.types);
        Ok(())
    }
}

impl<'t> ImplItemMap<'t> {
    /// Constructs the index from an impl block.
    pub fn new(impl_block: &'t ItemImpl) -> (r: Self)
        ensures
            r.consts@ == impl_consts(impl_block.items@, impl_block.items@.len()),
            r.fns@ == impl_fns(impl_block.items@, impl_block.items@.len()),
            r.types@ == impl_types(impl_block.items@, impl_block.items@.len()),
    {
        let mut map = ImplItemMap { consts: Vec::new(), fns: Vec::new(), types: Vec::new() };
        let mut i: usize = 0;
        while i < impl_block.items.len()
            invariant
                i <= impl_block.items.len(),
                map.consts@ == impl_consts(impl_block.items@, i as nat),
                map.fns@ == impl_fns(impl_block.items@, i as nat),
                map.types@ == impl_types(impl_block.items@, i as nat),
            decreases impl_block.items.len() - i,
        {
            match &impl_block.items[i] {
                ImplItem::Const(item) => {
                    map.consts.push(item);
                },
                ImplItem::Fn(item) => {
                    map.fns.push(item);
                },
                ImplItem::Type(item) => {
                    map.types.push(item);
                },
                ImplItem::Other(_) => {},
            }
            i += 1;
        }
        map
    }
}

/// The members that the impl block has and the trait lacks, as `subtract_items` reports
/// the first of them.
pub open spec fn surplus_member(trait_items: Seq<TraitItem>, impl_items: Seq<ImplItem>) -> Option<
    DiagnosticView,
> {
    match first_unknown(
        names(impl_consts(impl_items, impl_items.len())),
        names(trait_consts(trait_items, trait_items.len())),
        impl_consts(impl_items, impl_items.len()).len(),
    ) {
        Some(name) => Some(surplus(MemberKind::Const, name)),
        None => match first_unknown(
            names(impl_fns(impl_items, impl_items.len())),
            names(trait_fns(trait_items, trait_items.len())),
            impl_fns(impl_items, impl_items.len()).len(),
        ) {
            Some(name) => Some(surplus(MemberKind::Fn, name)),
            None => match first_unknown(
                names(impl_types(impl_items, impl_items.len())),
                names(trait_types(trait_items, trait_items.len())),
                impl_types(impl_items, impl_items.len()).len(),
            ) {
                Some(name) => Some(surplus(MemberKind::Type, name)),
                None => None,
            },
        },
    }
}

/// Shorthand for `TraitItemMap::new(..)` and `minus(&ImplItemMap::new(..))`: the members of
/// the trait that the impl block leaves unimplemented.
pub fn subtract_items<'t>(trait_items: &'t Vec<TraitItem>, impl_block: &'t ItemImpl) -> (r: Result<
    TraitItemMap<'t>,
    Diagnostic,
>)
    ensures
        match r {
            Ok(items) => {
                &&& surplus_member(trait_items@, impl_block.items@) is None
                &&& items.consts@ == unprovided(
                    trait_consts(trait_items@, trait_items@.len()),
                    names(impl_consts(impl_block.items@, impl_block.items@.len())),
                    trait_consts(trait_items@, trait_items@.len()).len(),
                )
                &&& items.fns@ == unprovided(
                    trait_fns(trait_items@, trait_items@.len()),
                    names(impl_fns(impl_block.items@, impl_block.items@.len())),
                    trait_fns(trait_items@, trait_items@.len()).len(),
                )
                &&& items.types@ == unprovided(
                    trait_types(trait_items@, trait_items@.len()),
                    names(impl_types(impl_block.items@, impl_block.items@.len())),
                    trait_types(trait_items@, trait_items@.len()).len(),
                )
            },
            Err(d) => surplus_member(trait_items@, impl_block.items@) == Some(d@),
        },
{
    let mut items = TraitItemMap::new(trait_items);
    let provided = ImplItemMap::new(impl_block);
    match items.minus(&provided) {
        Ok(()) => Ok(items),
        Err(d) => Err(d),
    }
}

} // verus!
