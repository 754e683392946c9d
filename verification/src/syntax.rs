//! The syntax that completion reads and writes, as plain values.
//!
//! Every piece of source that the algorithms only pass on is kept as its text. What they
//! inspect (names, the shape of a type, the fields of a struct) is spelled out.

use crate::text::{
    clone_strings, concat, join, join_strings, lemma_concat_push, lemma_take_push,
    lemma_views_push, str_eq, views,
};
use crate::token::TokenTree;
use vstd::prelude::*;
use vstd::string::*;

verus! {

/// An attribute.
#[derive(Debug, PartialEq, Eq)]
pub struct Attribute {
    /// The attribute's path, when it is a single identifier.
    pub ident: Option<String>,
    /// The whole attribute as written, `#[...]` included.
    pub text: String,
    /// The tokens that a list attribute holds between its delimiters; `None` for any other
    /// attribute.
    pub arguments: Option<Vec<TokenTree>>,
}

/// One segment of a path.
#[derive(Clone, Debug, PartialEq, Eq)]
pub struct PathSegment {
    pub ident: String,
    /// The segment's arguments as written, such as `<T>`; empty when it has none.
    pub arguments: String,
}

/// A path such as `Self`, `std::fmt::Debug` or `::core::option::Option<T>`.
#[derive(Clone, Debug, PartialEq, Eq)]
pub struct Path {
    pub leading_colon: bool,
    pub segments: Vec<PathSegment>,
}

/// One generic argument in angle brackets.
#[derive(Debug, PartialEq, Eq)]
pub enum GenericArgument {
    /// A type argument.
    Type(Type),
    /// A lifetime, a constant or a binding, as written.
    Other(String),
}

/// The shape of a type, as far as completion looks into it.
#[derive(Debug, PartialEq, Eq)]
pub enum TypeKind {
    /// A path.
    Path {
        path: Path,
        /// The arguments that the last segment has in angle brackets, in order.
        arguments: Vec<GenericArgument>,
    },
    /// A reference to the given type.
    Reference(Box<Type>),
    /// A tuple with this many elements.
    Tuple(usize),
    /// Anything else.
    Other,
}

/// A type.
#[derive(Debug, PartialEq, Eq)]
pub struct Type {
    /// The type as written.
    pub text: String,
    pub kind: TypeKind,
}

/// A pattern that binds one identifier.
#[derive(Clone, Debug, PartialEq, Eq)]
pub struct PatIdent {
    pub by_ref: bool,
    pub mutable: bool,
    pub ident: String,
    /// The pattern after `@`, as written.
    pub subpattern: Option<String>,
}

/// The pattern of a parameter.
#[derive(Clone, Debug, PartialEq, Eq)]
pub enum Pat {
    Ident(PatIdent),
    /// Any other pattern, as written.
    Other(String),
}

/// A `self` parameter.
#[derive(Debug, PartialEq, Eq)]
pub struct Receiver {
    pub attrs: Vec<Attribute>,
    /// Whether it is taken by reference.
    pub reference: bool,
    pub mutable: bool,
    /// The parameter as written, without its attributes.
    pub text: String,
}

/// A parameter with a pattern and a type.
#[derive(Debug, PartialEq, Eq)]
pub struct PatType {
    pub attrs: Vec<Attribute>,
    pub pat: Pat,
    pub ty: Type,
}

/// A parameter of a function.
#[derive(Debug, PartialEq, Eq)]
pub enum FnArg {
    Receiver(Receiver),
    Typed(PatType),
}

/// The return type of a function.
#[derive(Debug, PartialEq, Eq)]
pub enum ReturnType {
    /// None written: the function returns `()`.
    Default,
    Type(Type),
}

/// What a generic parameter stands for.
#[derive(Clone, Copy, Debug, PartialEq, Eq, Structural, Hash)]
pub enum GenericParamKind {
    Lifetime,
    Type,
    Const,
}

/// A generic parameter.
#[derive(Clone, Debug, PartialEq, Eq)]
pub struct GenericParam {
    pub kind: GenericParamKind,
    /// The parameter's name alone: `T`, `'a` or `N`.
    pub name: String,
    /// The parameter as declared, bounds and default included.
    pub text: String,
}

/// Generic parameters and the predicates of a `where` clause.
#[derive(Clone, Debug, PartialEq, Eq)]
pub struct Generics {
    pub params: Vec<GenericParam>,
    /// Each predicate as written.
    pub where_predicates: Vec<String>,
}

/// The signature of a function.
#[derive(Debug, PartialEq, Eq)]
pub struct Signature {
    /// The qualifiers and the keyword: `fn`, `unsafe fn`, `const fn` and the like.
    pub prefix: String,
    pub ident: String,
    pub generics: Generics,
    pub inputs: Vec<FnArg>,
    pub output: ReturnType,
}

/// An associated constant declared in a trait.
#[derive(Debug, PartialEq, Eq)]
pub struct TraitItemConst {
    pub attrs: Vec<Attribute>,
    pub ident: String,
    pub generics: Generics,
    pub ty: Type,
}

/// An associated function declared in a trait.
#[derive(Debug, PartialEq, Eq)]
pub struct TraitItemFn {
    pub attrs: Vec<Attribute>,
    pub sig: Signature,
}

/// An associated type declared in a trait.
#[derive(Debug, PartialEq, Eq)]
pub struct TraitItemType {
    pub attrs: Vec<Attribute>,
    pub ident: String,
    pub generics: Generics,
}

/// A member declaration of a trait.
#[derive(Debug, PartialEq, Eq)]
pub enum TraitItem {
    Const(TraitItemConst),
    Fn(TraitItemFn),
    Type(TraitItemType),
    /// Anything that declares no member (a macro invocation), as written.
    Other(String),
}

/// An associated constant of an impl block.
#[derive(Clone, Debug, PartialEq, Eq)]
pub struct ImplItemConst {
    /// Each attribute as written.
    pub attrs: Vec<String>,
    pub ident: String,
    /// The generic parameters as written, angle brackets included; may be empty.
    pub generics: String,
    pub ty: String,
    pub expr: String,
}

/// An associated function of an impl block.
#[derive(Clone, Debug, PartialEq, Eq)]
pub struct ImplItemFn {
    /// Each attribute as written.
    pub attrs: Vec<String>,
    pub ident: String,
    /// The signature as written.
    pub sig: String,
    /// The statements of the body, in order.
    pub stmts: Vec<String>,
}

/// An associated type of an impl block.
#[derive(Clone, Debug, PartialEq, Eq)]
pub struct ImplItemType {
    /// Each attribute as written.
    pub attrs: Vec<String>,
    pub ident: String,
    /// The generic parameters as written, angle brackets included; may be empty.
    pub generics: String,
    pub ty: String,
}

/// A member of an impl block.
#[derive(Clone, Debug, PartialEq, Eq)]
pub enum ImplItem {
    Const(ImplItemConst),
    Fn(ImplItemFn),
    Type(ImplItemType),
    /// Anything that provides no member, as written.
    Other(String),
}

/// The trait that an impl block is for.
#[derive(Debug, PartialEq, Eq)]
pub struct TraitRef {
    /// Whether the impl is negative: `impl !Trait for T`.
    pub negated: bool,
    pub path: Path,
}

/// An impl block.
#[derive(Debug, PartialEq, Eq)]
pub struct ItemImpl {
    /// Each attribute as written.
    pub attrs: Vec<String>,
    pub unsafety: bool,
    /// Each generic parameter as declared.
    pub generics_params: Vec<String>,
    /// Each predicate of the `where` clause as written.
    pub where_predicates: Vec<String>,
    /// The implemented trait; `None` for an inherent impl.
    pub trait_: Option<TraitRef>,
    /// The implementing type as written.
    pub self_ty: String,
    pub items: Vec<ImplItem>,
}

/// A field of a struct or of an enum variant.
#[derive(Debug, PartialEq, Eq)]
pub struct Field {
    pub attrs: Vec<Attribute>,
    /// The field's name; `None` in a tuple struct or tuple variant.
    pub ident: Option<String>,
    /// The field's type as written.
    pub ty: String,
}

/// A variant of an enum.
#[derive(Debug, PartialEq, Eq)]
pub struct Variant {
    pub attrs: Vec<Attribute>,
    pub ident: String,
    pub fields: Vec<Field>,
}

/// The body of a type declaration.
#[derive(Debug, PartialEq, Eq)]
pub enum Data {
    Struct(Vec<Field>),
    Enum(Vec<Variant>),
    Union,
}

/// A struct, enum or union declaration.
#[derive(Debug, PartialEq, Eq)]
pub struct DeriveInput {
    pub attrs: Vec<Attribute>,
    pub ident: String,
    pub generics: Generics,
    pub data: Data,
}

/// The mathematical content of a [`Path`].
pub struct PathView {
    pub leading_colon: bool,
    pub segments: Seq<PathSegment>,
}

impl View for Path {
    type V = PathView;

    open spec fn view(&self) -> PathView {
        PathView { leading_colon: self.leading_colon, segments: self.segments@ }
    }
}

/// The mathematical content of an [`ImplItemConst`].
pub struct ImplItemConstView {
    pub attrs: Seq<Seq<char>>,
    pub ident: Seq<char>,
    pub generics: Seq<char>,
    pub ty: Seq<char>,
    pub expr: Seq<char>,
}

impl View for ImplItemConst {
    type V = ImplItemConstView;

    open spec fn view(&self) -> ImplItemConstView {
        ImplItemConstView {
            attrs: views(self.attrs@),
            ident: self.ident@,
            generics: self.generics@,
            ty: self.ty@,
            expr: self.expr@,
        }
    }
}

/// The mathematical content of an [`ImplItemFn`].
pub struct ImplItemFnView {
    pub attrs: Seq<Seq<char>>,
    pub ident: Seq<char>,
    pub sig: Seq<char>,
    pub stmts: Seq<Seq<char>>,
}

impl View for ImplItemFn {
    type V = ImplItemFnView;

    open spec fn view(&self) -> ImplItemFnView {
        ImplItemFnView {
            attrs: views(self.attrs@),
            ident: self.ident@,
            sig: self.sig@,
            stmts: views(self.stmts@),
        }
    }
}

/// The mathematical content of an [`ImplItemType`].
pub struct ImplItemTypeView {
    pub attrs: Seq<Seq<char>>,
    pub ident: Seq<char>,
    pub generics: Seq<char>,
    pub ty: Seq<char>,
}

impl View for ImplItemType {
    type V = ImplItemTypeView;

    open spec fn view(&self) -> ImplItemTypeView {
        ImplItemTypeView {
            attrs: views(self.attrs@),
            ident: self.ident@,
            generics: self.generics@,
            ty: self.ty@,
        }
    }
}

/// The mathematical content of an [`ImplItem`].
pub enum ImplItemView {
    Const(ImplItemConstView),
    Fn(ImplItemFnView),
    Type(ImplItemTypeView),
    Other(Seq<char>),
}

impl View for ImplItem {
    type V = ImplItemView;

    open spec fn view(&self) -> ImplItemView {
        match self {
            ImplItem::Const(item) => ImplItemView::Const(item@),
            ImplItem::Fn(item) => ImplItemView::Fn(item@),
            ImplItem::Type(item) => ImplItemView::Type(item@),
            ImplItem::Other(text) => ImplItemView::Other(text@),
        }
    }
}

/// The mathematical content of a [`TraitRef`].
pub struct TraitRefView {
    pub negated: bool,
    pub path: PathView,
}

impl View for TraitRef {
    type V = TraitRefView;

    open spec fn view(&self) -> TraitRefView {
        TraitRefView { negated: self.negated, path: self.path@ }
    }
}

/// The mathematical content of an [`ItemImpl`].
pub struct ItemImplView {
    pub attrs: Seq<Seq<char>>,
    pub unsafety: bool,
    pub generics_params: Seq<Seq<char>>,
    pub where_predicates: Seq<Seq<char>>,
    pub trait_: Option<TraitRefView>,
    pub self_ty: Seq<char>,
    pub items: Seq<ImplItemView>,
}

/// The mathematical contents of a sequence of impl items.
pub open spec fn item_views(items: Seq<ImplItem>) -> Seq<ImplItemView> {
    items.map_values(|item: ImplItem| item@)
}

impl View for ItemImpl {
    type V = ItemImplView;

    open spec fn view(&self) -> ItemImplView {
        ItemImplView {
            attrs: views(self.attrs@),
            unsafety: self.unsafety,
            generics_params: views(self.generics_params@),
            where_predicates: views(self.where_predicates@),
            trait_: match self.trait_ {
                Some(t) => Some(t@),
                None => None,
            },
            self_ty: self.self_ty@,
            items: item_views(self.items@),
        }
    }
}

/// The mathematical content of a result.
pub open spec fn result_view<T: View, E: View>(r: Result<T, E>) -> Result<T::V, E::V> {
    match r {
        Ok(value) => Ok(value@),
        Err(error) => Err(error@),
    }
}

/// An associated constant as written.
pub open spec fn impl_const_text(item: ImplItemConstView) -> Seq<char> {
    attrs_prefix(item.attrs) + "const "@ + item.ident + item.generics + ": "@ + item.ty + " = "@
        + item.expr + ";"@
}

/// An associated function as written.
pub open spec fn impl_fn_text(item: ImplItemFnView) -> Seq<char> {
    attrs_prefix(item.attrs) + item.sig + " { "@ + join(item.stmts, " "@) + " }"@
}

/// An associated type as written.
pub open spec fn impl_type_text(item: ImplItemTypeView) -> Seq<char> {
    attrs_prefix(item.attrs) + "type "@ + item.ident + item.generics + " = "@ + item.ty + ";"@
}

/// An impl item as written.
pub open spec fn impl_item_text(item: ImplItemView) -> Seq<char> {
    match item {
        ImplItemView::Const(c) => impl_const_text(c),
        ImplItemView::Fn(f) => impl_fn_text(f),
        ImplItemView::Type(t) => impl_type_text(t),
        ImplItemView::Other(text) => text,
    }
}

/// The trait of an impl block as it stands between `impl` and the implementing type.
pub open spec fn trait_ref_text(trait_: Option<TraitRefView>) -> Seq<char> {
    match trait_ {
        Some(t) => (if t.negated {
            "!"@
        } else {
            Seq::empty()
        }) + path_view_text(t.path) + " for "@,
        None => Seq::empty(),
    }
}

/// An impl block as written.
pub open spec fn item_impl_text(block: ItemImplView) -> Seq<char> {
    attrs_prefix(block.attrs) + (if block.unsafety {
        "unsafe "@
    } else {
        Seq::empty()
    }) + "impl"@ + params_text(block.generics_params) + " "@ + trait_ref_text(block.trait_)
        + block.self_ty + where_text(block.where_predicates) + " { "@ + join(
        block.items.map_values(|item: ImplItemView| impl_item_text(item)),
        " "@,
    ) + " }"@
}

/// Whether the attribute's path is the single identifier `name`.
pub open spec fn attr_is(attr: Attribute, name: Seq<char>) -> bool {
    attr.ident matches Some(ident) && ident@ == name
}

/// The texts of the `cfg` attributes among `attrs`, in order.
pub open spec fn cfg_texts(attrs: Seq<Attribute>) -> Seq<Seq<char>>
    decreases attrs.len(),
{
    if attrs.len() == 0 {
        Seq::empty()
    } else if attr_is(attrs.last(), "cfg"@) {
        cfg_texts(attrs.drop_last()).push(attrs.last().text@)
    } else {
        cfg_texts(attrs.drop_last())
    }
}

/// The texts of all of `attrs`, in order.
pub open spec fn attr_texts(attrs: Seq<Attribute>) -> Seq<Seq<char>> {
    attrs.map_values(|a: Attribute| a.text@)
}

/// Attribute texts as they stand in front of an item: each followed by a space.
pub open spec fn attrs_prefix(texts: Seq<Seq<char>>) -> Seq<char> {
    concat(texts.map_values(|t: Seq<char>| t + " "@))
}

/// A path segment as written.
pub open spec fn segment_text(segment: PathSegment) -> Seq<char> {
    segment.ident@ + segment.arguments@
}

/// The segments of a path joined by `::`.
pub open spec fn segments_text(segments: Seq<PathSegment>) -> Seq<char> {
    join(segments.map_values(|s: PathSegment| segment_text(s)), "::"@)
}

/// A path as written.
pub open spec fn path_view_text(path: PathView) -> Seq<char> {
    if path.leading_colon {
        "::"@ + segments_text(path.segments)
    } else {
        segments_text(path.segments)
    }
}

/// A path as written.
pub open spec fn path_text(path: Path) -> Seq<char> {
    path_view_text(path@)
}

/// Whether the path is the single identifier `name`: no leading colon, one segment,
/// no arguments.
pub open spec fn path_is_ident(path: Path, name: Seq<char>) -> bool {
    &&& !path.leading_colon
    &&& path.segments@.len() == 1
    &&& path.segments@[0].arguments@.len() == 0
    &&& path.segments@[0].ident@ == name
}

/// A pattern as written.
pub open spec fn pat_text(pat: Pat) -> Seq<char> {
    match pat {
        Pat::Ident(p) => (if p.by_ref {
            "ref "@
        } else {
            Seq::empty()
        }) + (if p.mutable {
            "mut "@
        } else {
            Seq::empty()
        }) + p.ident@ + (match p.subpattern {
            Some(sub) => " @ "@ + sub@,
            None => Seq::empty(),
        }),
        Pat::Other(text) => text@,
    }
}

/// A parameter as written, attributes included.
pub open spec fn arg_text(arg: FnArg) -> Seq<char> {
    match arg {
        FnArg::Receiver(r) => attrs_prefix(attr_texts(r.attrs@)) + r.text@,
        FnArg::Typed(t) => attrs_prefix(attr_texts(t.attrs@)) + pat_text(t.pat) + ": "@
            + t.ty.text@,
    }
}

/// The generic parameters as written, in angle brackets; empty when there are none.
pub open spec fn params_text(params: Seq<Seq<char>>) -> Seq<char> {
    if params.len() == 0 {
        Seq::empty()
    } else {
        "<"@ + join(params, ", "@) + ">"@
    }
}

/// The `where` clause with these predicates, led by a space; empty when there are none.
pub open spec fn where_text(predicates: Seq<Seq<char>>) -> Seq<char> {
    if predicates.len() == 0 {
        Seq::empty()
    } else {
        " where "@ + join(predicates, ", "@)
    }
}

/// The declarations of generic parameters, in order.
pub open spec fn param_texts(params: Seq<GenericParam>) -> Seq<Seq<char>> {
    params.map_values(|p: GenericParam| p.text@)
}

/// The names of generic parameters, in order.
pub open spec fn param_names(params: Seq<GenericParam>) -> Seq<Seq<char>> {
    params.map_values(|p: GenericParam| p.name@)
}

/// The return type as it follows the parameter list.
pub open spec fn output_text(output: ReturnType) -> Seq<char> {
    match output {
        ReturnType::Default => Seq::empty(),
        ReturnType::Type(ty) => " -> "@ + ty.text@,
    }
}

/// The parameters of a signature as written, in order.
pub open spec fn arg_texts(inputs: Seq<FnArg>) -> Seq<Seq<char>> {
    inputs.map_values(|a: FnArg| arg_text(a))
}

/// A signature written with the given texts for its parameters.
pub open spec fn signature_with(sig: Signature, args: Seq<Seq<char>>) -> Seq<char> {
    sig.prefix@ + " "@ + sig.ident@ + params_text(param_texts(sig.generics.params@)) + "("@
        + join(args, ", "@) + ")"@ + output_text(sig.output) + where_text(
        views(sig.generics.where_predicates@),
    )
}

/// A signature as written.
pub open spec fn signature_text(sig: Signature) -> Seq<char> {
    signature_with(sig, arg_texts(sig.inputs@))
}

/// A pattern as written, but a binding without its `mut`.
pub open spec fn plain_pat_text(pat: Pat) -> Seq<char> {
    match pat {
        Pat::Ident(p) => (if p.by_ref {
            "ref "@
        } else {
            Seq::empty()
        }) + p.ident@ + (match p.subpattern {
            Some(sub) => " @ "@ + sub@,
            None => Seq::empty(),
        }),
        Pat::Other(text) => text@,
    }
}

/// Whether a signature has a `self` parameter in first place.
pub open spec fn has_receiver(sig: Signature) -> bool {
    sig.inputs@.len() > 0 && sig.inputs@[0] is Receiver
}

/// Whether the type is `Self` or a reference, however deep, to `Self`.
pub open spec fn is_self_type(ty: Type) -> bool
    decreases ty,
{
    match ty.kind {
        TypeKind::Path { path, .. } => path_is_ident(path, "Self"@),
        TypeKind::Reference(elem) => is_self_type(*elem),
        _ => false,
    }
}

impl Attribute {
    /// Whether the attribute's path is the single identifier `name`.
    pub fn is_ident(&self, name: &str) -> (r: bool)
        ensures
            r == attr_is(*self, name@),
    {
        match &self.ident {
            Some(ident) => str_eq(ident.as_str(), name),
            None => false,
        }
    }
}

/// The texts of the `cfg` attributes among `attrs`, in order.
pub fn cfg_attrs(attrs: &Vec<Attribute>) -> (r: Vec<String>)
    ensures
        views(r@) == cfg_texts(attrs@),
{
    let mut out: Vec<String> = Vec::new();
    let mut i: usize = 0;
    while i < attrs.len()
        invariant
            i <= attrs.len(),
            views(out@) == cfg_texts(attrs@.take(i as int)),
        decreases attrs.len() - i,
    {
        proof {
            lemma_take_push(attrs@, i as int);
        }
        if attrs[i].is_ident("cfg") {
            let text = attrs[i].text.clone();
            proof {
                lemma_views_push(out@, text);
            }
            out.push(text);
        }
        i += 1;
    }
    proof {
        assert(attrs@.take(attrs.len() as int) =~= attrs@);
    }
    out
}

/// The texts of all of `attrs`, in order.
pub fn all_attrs(attrs: &Vec<Attribute>) -> (r: Vec<String>)
    ensures
        views(r@) == attr_texts(attrs@),
{
    let mut out: Vec<String> = Vec::new();
    let mut i: usize = 0;
    while i < attrs.len()
        invariant
            i <= attrs.len(),
            out@.len() == i,
            forall|k: int| 0 <= k < i ==> (#[trigger] out@[k])@ == attrs@[k].text@,
        decreases attrs.len() - i,
    {
        out.push(attrs[i].text.clone());
        i += 1;
    }
    proof {
        assert(views(out@) =~= attr_texts(attrs@));
    }
    out
}

/// Writes attribute texts as they stand in front of an item.
pub fn render_attrs(texts: &Vec<String>) -> (r: String)
    ensures
        r@ == attrs_prefix(views(texts@)),
{
    let mut out = String::new();
    let mut i: usize = 0;
    let ghost parts = views(texts@).map_values(|t: Seq<char>| t + " "@);
    while i < texts.len()
        invariant
            i <= texts.len(),
            parts == views(texts@).map_values(|t: Seq<char>| t + " "@),
            out@ == concat(parts.take(i as int)),
        decreases texts.len() - i,
    {
        out.append(texts[i].as_str());
        out.append(" ");
        proof {
            lemma_take_push(parts, i as int);
            lemma_concat_push(parts.take(i as int), parts[i as int]);
        }
        i += 1;
    }
    proof {
        assert(parts.take(texts.len() as int) =~= parts);
    }
    out
}

impl Path {
    /// Whether the path is the single identifier `name`.
    pub fn is_ident(&self, name: &str) -> (r: bool)
        ensures
            r == path_is_ident(*self, name@),
    {
        if self.leading_colon || self.segments.len() != 1 {
            return false;
        }
        self.segments[0].arguments.as_str().is_empty() && str_eq(
            self.segments[0].ident.as_str(),
            name,
        )
    }

    /// Writes the path out.
    pub fn to_text(&self) -> (r: String)
        ensures
            r@ == path_text(*self),
    {
        let mut parts: Vec<String> = Vec::new();
        let mut i: usize = 0;
        while i < self.segments.len()
            invariant
                i <= self.segments.len(),
                parts@.len() == i,
                forall|k: int|
                    0 <= k < i ==> (#[trigger] parts@[k])@ == segment_text(self.segments@[k]),
            decreases self.segments.len() - i,
        {
            let mut part = self.segments[i].ident.clone();
            part.append(self.segments[i].arguments.as_str());
            parts.push(part);
            i += 1;
        }
        proof {
            assert(views(parts@) =~= self.segments@.map_values(|s: PathSegment| segment_text(s)));
        }
        let joined = join_strings(&parts, "::");
        if self.leading_colon {
            let mut out = String::from_str("::");
            out.append(joined.as_str());
            out
        } else {
            joined
        }
    }
}

impl Pat {
    /// Writes the pattern out.
    pub fn to_text(&self) -> (r: String)
        ensures
            r@ == pat_text(*self),
    {
        match self {
            Pat::Ident(p) => {
                let mut out = String::new();
                if p.by_ref {
                    out.append("ref ");
                }
                if p.mutable {
                    out.append("mut ");
                }
                out.append(p.ident.as_str());
                match &p.subpattern {
                    Some(sub) => {
                        out.append(" @ ");
                        out.append(sub.as_str());
                    },
                    None => {},
                }
                proof {
                    assert(out@ =~= pat_text(*self));
                }
                out
            },
            Pat::Other(text) => text.clone(),
        }
    }
}

impl Pat {
    /// Writes the pattern out, a binding without its `mut`.
    pub fn to_plain_text(&self) -> (r: String)
        ensures
            r@ == plain_pat_text(*self),
    {
        match self {
            Pat::Ident(p) => {
                let mut out = String::new();
                if p.by_ref {
                    out.append("ref ");
                }
                out.append(p.ident.as_str());
                match &p.subpattern {
                    Some(sub) => {
                        out.append(" @ ");
                        out.append(sub.as_str());
                    },
                    None => {},
                }
                proof {
                    assert(out@ =~= plain_pat_text(*self));
                }
                out
            },
            Pat::Other(text) => text.clone(),
        }
    }
}

impl FnArg {
    /// Writes the parameter out, attributes included.
    pub fn to_text(&self) -> (r: String)
        ensures
            r@ == arg_text(*self),
    {
        match self {
            FnArg::Receiver(receiver) => {
                let attrs = all_attrs(&receiver.attrs);
                let mut out = render_attrs(&attrs);
                out.append(receiver.text.as_str());
                out
            },
            FnArg::Typed(typed) => {
                let attrs = all_attrs(&typed.attrs);
                let mut out = render_attrs(&attrs);
                let pat = typed.pat.to_text();
                out.append(pat.as_str());
                out.append(": ");
                out.append(typed.ty.text.as_str());
                out
            },
        }
    }
}

/// Writes generic parameters in angle brackets; nothing when there are none.
pub fn render_params(params: &Vec<String>) -> (r: String)
    ensures
        r@ == params_text(views(params@)),
{
    if params.len() == 0 {
        String::new()
    } else {
        let mut out = String::from_str("<");
        let joined = join_strings(params, ", ");
        out.append(joined.as_str());
        out.append(">");
        out
    }
}

/// Writes a `where` clause led by a space; nothing when there are no predicates.
pub fn render_where(predicates: &Vec<String>) -> (r: String)
    ensures
        r@ == where_text(views(predicates@)),
{
    if predicates.len() == 0 {
        String::new()
    } else {
        let mut out = String::from_str(" where ");
        let joined = join_strings(predicates, ", ");
        out.append(joined.as_str());
        out
    }
}

impl Generics {
    /// The declarations of the parameters, in order.
    pub fn param_texts(&self) -> (r: Vec<String>)
        ensures
            views(r@) == param_texts(self.params@),
    {
        let mut out: Vec<String> = Vec::new();
        let mut i: usize = 0;
        while i < self.params.len()
            invariant
                i <= self.params.len(),
                out@.len() == i,
                forall|k: int| 0 <= k < i ==> (#[trigger] out@[k])@ == self.params@[k].text@,
            decreases self.params.len() - i,
        {
            out.push(self.params[i].text.clone());
            i += 1;
        }
        proof {
            assert(views(out@) =~= param_texts(self.params@));
        }
        out
    }

    /// The names of the parameters, in order.
    pub fn param_names(&self) -> (r: Vec<String>)
        ensures
            views(r@) == param_names(self.params@),
    {
        let mut out: Vec<String> = Vec::new();
        let mut i: usize = 0;
        while i < self.params.len()
            invariant
                i <= self.params.len(),
                out@.len() == i,
                forall|k: int| 0 <= k < i ==> (#[trigger] out@[k])@ == self.params@[k].name@,
            decreases self.params.len() - i,
        {
            out.push(self.params[i].name.clone());
            i += 1;
        }
        proof {
            assert(views(out@) =~= param_names(self.params@));
        }
        out
    }
}

impl Signature {
    /// The `self` parameter, when the signature begins with one.
    pub fn receiver(&self) -> (r: Option<&Receiver>)
        ensures
            r is Some == has_receiver(*self),
            r matches Some(receiver) ==> self.inputs@[0] == FnArg::Receiver(*receiver),
    {
        if self.inputs.len() == 0 {
            return None;
        }
        match &self.inputs[0] {
            FnArg::Receiver(receiver) => Some(receiver),
            FnArg::Typed(_) => None,
        }
    }

    /// Writes the signature out.
    pub fn to_text(&self) -> (r: String)
        ensures
            r@ == signature_text(*self),
    {
        let mut args: Vec<String> = Vec::new();
        let mut i: usize = 0;
        while i < self.inputs.len()
            invariant
                i <= self.inputs.len(),
                args@.len() == i,
                forall|k: int| 0 <= k < i ==> (#[trigger] args@[k])@ == arg_text(self.inputs@[k]),
            decreases self.inputs.len() - i,
        {
            args.push(self.inputs[i].to_text());
            i += 1;
        }
        proof {
            assert(views(args@) =~= arg_texts(self.inputs@));
        }
        self.render_with(&args)
    }

    /// Writes the signature out with the given texts for its parameters.
    pub fn render_with(&self, args: &Vec<String>) -> (r: String)
        ensures
            r@ == signature_with(*self, views(args@)),
    {
        let mut out = self.prefix.clone();
        out.append(" ");
        out.append(self.ident.as_str());
        let params = self.generics.param_texts();
        let params = render_params(&params);
        out.append(params.as_str());
        out.append("(");
        let joined = join_strings(args, ", ");
        out.append(joined.as_str());
        out.append(")");
        match &self.output {
            ReturnType::Default => {},
            ReturnType::Type(ty) => {
                out.append(" -> ");
                out.append(ty.text.as_str());
            },
        }
        let clause = render_where(&self.generics.where_predicates);
        out.append(clause.as_str());
        proof {
            assert(out@ =~= signature_with(*self, views(args@)));
        }
        out
    }
}

/// Whether the type is `Self` or a reference, however deep, to `Self`.
pub fn is_self_ty(ty: &Type) -> (r: bool)
    ensures
        r == is_self_type(*ty),
    decreases ty,
{
    match &ty.kind {
        TypeKind::Path { path, .. } => path.is_ident("Self"),
        TypeKind::Reference(elem) => is_self_ty(elem),
        _ => false,
    }
}

impl PathSegment {
    /// A copy of the segment.
    pub fn duplicate(&self) -> (r: PathSegment)
        ensures
            r == *self,
    {
        PathSegment { ident: self.ident.clone(), arguments: self.arguments.clone() }
    }
}

impl Path {
    /// A copy of the path.
    pub fn duplicate(&self) -> (r: Path)
        ensures
            r@ == self@,
    {
        let mut segments: Vec<PathSegment> = Vec::new();
        let mut i: usize = 0;
        while i < self.segments.len()
            invariant
                i <= self.segments.len(),
                segments@ == self.segments@.take(i as int),
            decreases self.segments.len() - i,
        {
            segments.push(self.segments[i].duplicate());
            proof {
                lemma_take_push(self.segments@, i as int);
            }
            i += 1;
        }
        proof {
            assert(self.segments@.take(self.segments.len() as int) =~= self.segments@);
        }
        Path { leading_colon: self.leading_colon, segments }
    }
}

impl ImplItemConst {
    /// A copy of the item.
    pub fn duplicate(&self) -> (r: ImplItemConst)
        ensures
            r@ == self@,
    {
        ImplItemConst {
            attrs: clone_strings(&self.attrs),
            ident: self.ident.clone(),
            generics: self.generics.clone(),
            ty: self.ty.clone(),
            expr: self.expr.clone(),
        }
    }

    /// Writes the item out.
    pub fn to_text(&self) -> (r: String)
        ensures
            r@ == impl_const_text(self@),
    {
        let mut out = render_attrs(&self.attrs);
        out.append("const ");
        out.append(self.ident.as_str());
        out.append(self.generics.as_str());
        out.append(": ");
        out.append(self.ty.as_str());
        out.append(" = ");
        out.append(self.expr.as_str());
        out.append(";");
        out
    }
}

impl ImplItemFn {
    /// A copy of the item.
    pub fn duplicate(&self) -> (r: ImplItemFn)
        ensures
            r@ == self@,
    {
        ImplItemFn {
            attrs: clone_strings(&self.attrs),
            ident: self.ident.clone(),
            sig: self.sig.clone(),
            stmts: clone_strings(&self.stmts),
        }
    }

    /// Writes the item out.
    pub fn to_text(&self) -> (r: String)
        ensures
            r@ == impl_fn_text(self@),
    {
        let mut out = render_attrs(&self.attrs);
        out.append(self.sig.as_str());
        out.append(" { ");
        let body = join_strings(&self.stmts, " ");
        out.append(body.as_str());
        out.append(" }");
        out
    }
}

impl ImplItemType {
    /// A copy of the item.
    pub fn duplicate(&self) -> (r: ImplItemType)
        ensures
            r@ == self@,
    {
        ImplItemType {
            attrs: clone_strings(&self.attrs),
            ident: self.ident.clone(),
            generics: self.generics.clone(),
            ty: self.ty.clone(),
        }
    }

    /// Writes the item out.
    pub fn to_text(&self) -> (r: String)
        ensures
            r@ == impl_type_text(self@),
    {
        let mut out = render_attrs(&self.attrs);
        out.append("type ");
        out.append(self.ident.as_str());
        out.append(self.generics.as_str());
        out.append(" = ");
        out.append(self.ty.as_str());
        out.append(";");
        out
    }
}

impl ImplItem {
    /// A copy of the item.
    pub fn duplicate(&self) -> (r: ImplItem)
        ensures
            r@ == self@,
    {
        match self {
            ImplItem::Const(item) => ImplItem::Const(item.duplicate()),
            ImplItem::Fn(item) => ImplItem::Fn(item.duplicate()),
            ImplItem::Type(item) => ImplItem::Type(item.duplicate()),
            ImplItem::Other(text) => ImplItem::Other(text.clone()),
        }
    }

    /// Writes the item out.
    pub fn to_text(&self) -> (r: String)
        ensures
            r@ == impl_item_text(self@),
    {
        match self {
            ImplItem::Const(item) => item.to_text(),
            ImplItem::Fn(item) => item.to_text(),
            ImplItem::Type(item) => item.to_text(),
            ImplItem::Other(text) => text.clone(),
        }
    }
}

/// A copy of every item, in order.
pub fn duplicate_items(items: &Vec<ImplItem>) -> (r: Vec<ImplItem>)
    ensures
        item_views(r@) == item_views(items@),
{
    let mut out: Vec<ImplItem> = Vec::new();
    let mut i: usize = 0;
    while i < items.len()
        invariant
            i <= items.len(),
            out@.len() == i,
            forall|k: int| 0 <= k < i ==> (#[trigger] out@[k])@ == items@[k]@,
        decreases items.len() - i,
    {
        out.push(items[i].duplicate());
        i += 1;
    }
    proof {
        assert(item_views(out@) =~= item_views(items@));
    }
    out
}

impl ItemImpl {
    /// A copy of the block.
    pub fn duplicate(&self) -> (r: ItemImpl)
        ensures
            r@ == self@,
    {
        ItemImpl {
            attrs: clone_strings(&self.attrs),
            unsafety: self.unsafety,
            generics_params: clone_strings(&self.generics_params),
            where_predicates: clone_strings(&self.where_predicates),
            trait_: match &self.trait_ {
                Some(t) => Some(TraitRef { negated: t.negated, path: t.path.duplicate() }),
                None => None,
            },
            self_ty: self.self_ty.clone(),
            items: duplicate_items(&self.items),
        }
    }

    /// Writes the block out.
    pub fn to_text(&self) -> (r: String)
        ensures
            r@ == item_impl_text(self@),
    {
        let mut out = render_attrs(&self.attrs);
        if self.unsafety {
            out.append("unsafe ");
        }
        out.append("impl");
        let params = render_params(&self.generics_params);
        out.append(params.as_str());
        out.append(" ");
        match &self.trait_ {
            Some(t) => {
                if t.negated {
                    out.append("!");
                }
                let path = t.path.to_text();
                out.append(path.as_str());
                out.append(" for ");
            },
            None => {},
        }
        out.append(self.self_ty.as_str());
        let clause = render_where(&self.where_predicates);
        out.append(clause.as_str());
        out.append(" { ");
        let mut parts: Vec<String> = Vec::new();
        let mut i: usize = 0;
        while i < self.items.len()
            invariant
                i <= self.items.len(),
                parts@.len() == i,
                forall|k: int|
                    0 <= k < i ==> (#[trigger] parts@[k])@ == impl_item_text(self.items@[k]@),
            decreases self.items.len() - i,
        {
            parts.push(self.items[i].to_text());
            i += 1;
        }
        proof {
            assert(views(parts@) =~= self@.items.map_values(
                |item: ImplItemView| impl_item_text(item),
            ));
        }
        let body = join_strings(&parts, " ");
        out.append(body.as_str());
        out.append(" }");
        proof {
            assert(out@ =~= item_impl_text(self@));
        }
        out
    }
}

} // verus!
