use portrait::default_filler;
use portrait::delegate_filler;
use portrait::diagnostic::{Diagnostic, DiagnosticKind, DiagnosticView};
use portrait::impl_completer::{
    complete_impl, completer_impl_filler, completer_impl_filler2, GenerateImpl, ImplContext,
};
use portrait::impl_filler::Input;
use portrait::item_map::{has_name, subtract_items, ImplItemMap, TraitItemMap};
use portrait::log_filler;
use portrait::no_args::NoArgs;
use portrait::syntax::{
    FnArg, Generics, ImplItem, ImplItemConst, ImplItemConstView, ImplItemFn, ImplItemFnView,
    ImplItemType, ImplItemTypeView, ItemImpl, Path, PathSegment, Receiver, ReturnType, Signature,
    TraitItem, TraitItemConst, TraitItemFn, TraitItemType, TraitRef, Type, TypeKind,
};

fn path(names: &[&str]) -> Path {
    Path {
        leading_colon: false,
        segments: names
            .iter()
            .map(|name| PathSegment { ident: name.to_string(), arguments: String::new() })
            .collect(),
    }
}

fn named(text: &str) -> Type {
    Type { text: text.to_string(), kind: TypeKind::Path { path: path(&[text]), arguments: vec![] } }
}

fn no_generics() -> Generics {
    Generics { params: vec![], where_predicates: vec![] }
}

fn constant(name: &str) -> TraitItem {
    TraitItem::Const(TraitItemConst {
        attrs: vec![],
        ident: name.to_string(),
        generics: no_generics(),
        ty: named("i32"),
    })
}

fn function(name: &str) -> TraitItem {
    TraitItem::Fn(TraitItemFn {
        attrs: vec![],
        sig: Signature {
            prefix: "fn".to_string(),
            ident: name.to_string(),
            generics: no_generics(),
            inputs: vec![FnArg::Receiver(Receiver {
                attrs: vec![],
                reference: true,
                mutable: true,
                text: "&mut self".to_string(),
            })],
            output: ReturnType::Type(named("u32")),
        },
    })
}

fn alias(name: &str) -> TraitItem {
    TraitItem::Type(TraitItemType {
        attrs: vec![],
        ident: name.to_string(),
        generics: no_generics(),
    })
}

/// `const BAR: i32; fn qux(&mut self) -> u32; type Grault;`
fn interface() -> Vec<TraitItem> {
    vec![constant("BAR"), function("qux"), alias("Grault")]
}

fn provided_fn(name: &str) -> ImplItem {
    ImplItem::Fn(ImplItemFn {
        attrs: vec![],
        ident: name.to_string(),
        sig: format!("fn {name}(&mut self) -> u32"),
        stmts: vec!["7".to_string()],
    })
}

fn provided_const(name: &str) -> ImplItem {
    ImplItem::Const(ImplItemConst {
        attrs: vec![],
        ident: name.to_string(),
        generics: String::new(),
        ty: "i32".to_string(),
        expr: "1".to_string(),
    })
}

fn provided_type(name: &str) -> ImplItem {
    ImplItem::Type(ImplItemType {
        attrs: vec![],
        ident: name.to_string(),
        generics: String::new(),
        ty: "u8".to_string(),
    })
}

fn block(items: Vec<ImplItem>) -> ItemImpl {
    ItemImpl {
        attrs: vec![],
        unsafety: false,
        generics_params: vec![],
        where_predicates: vec![],
        trait_: Some(TraitRef { negated: false, path: path(&["Foo"]) }),
        self_ty: "Bar".to_string(),
        items,
    }
}

fn keys(block: &ItemImpl) -> Vec<(&'static str, String)> {
    block
        .items
        .iter()
        .map(|item| match item {
            ImplItem::Const(c) => ("const", c.ident.clone()),
            ImplItem::Fn(f) => ("fn", f.ident.clone()),
            ImplItem::Type(t) => ("type", t.ident.clone()),
            ImplItem::Other(text) => ("other", text.clone()),
        })
        .collect()
}

/// A generator that makes a plain member for whatever it is asked, and keeps the names of
/// what it was asked and of the members that it was shown.
struct Recorder {
    asked: Vec<String>,
    shown: Vec<String>,
}

impl Recorder {
    fn new() -> Recorder {
        Recorder { asked: vec![], shown: vec![] }
    }

    fn record(&mut self, ctx: &ImplContext, name: &str) {
        self.asked.push(name.to_string());
        self.shown = ctx
            .all_trait_items
            .iter()
            .map(|item| match item {
                TraitItem::Const(c) => format!("const {}", c.ident),
                TraitItem::Fn(f) => format!("fn {}", f.sig.ident),
                TraitItem::Type(t) => format!("type {}", t.ident),
                TraitItem::Other(text) => text.clone(),
            })
            .collect();
        assert_eq!(self.shown, ["const BAR", "fn qux", "type Grault"]);
    }
}

impl vstd::view::View for Recorder {
    type V = ();

    fn view(&self) {}
}

impl GenerateImpl for Recorder {
    fn on_const(
        _: (),
        _: ImplContext,
        _: TraitItemConst,
    ) -> ((), Result<ImplItemConstView, DiagnosticView>) {
        unreachable!()
    }

    fn on_fn(_: (), _: ImplContext, _: TraitItemFn) -> ((), Result<ImplItemFnView, DiagnosticView>) {
        unreachable!()
    }

    fn on_type(
        _: (),
        _: ImplContext,
        _: TraitItemType,
    ) -> ((), Result<ImplItemTypeView, DiagnosticView>) {
        unreachable!()
    }

    fn generate_const(
        &mut self,
        ctx: ImplContext,
        item: &TraitItemConst,
    ) -> Result<ImplItemConst, Diagnostic> {
        self.record(&ctx, &item.ident);
        Ok(ImplItemConst {
            attrs: vec![],
            ident: item.ident.clone(),
            generics: String::new(),
            ty: item.ty.text.clone(),
            expr: "0".to_string(),
        })
    }

    fn generate_fn(&mut self, ctx: ImplContext, item: &TraitItemFn) -> Result<ImplItemFn, Diagnostic> {
        self.record(&ctx, &item.sig.ident);
        Ok(ImplItemFn {
            attrs: vec![],
            ident: item.sig.ident.clone(),
            sig: item.sig.to_text(),
            stmts: vec!["0".to_string()],
        })
    }

    fn generate_type(
        &mut self,
        ctx: ImplContext,
        item: &TraitItemType,
    ) -> Result<ImplItemType, Diagnostic> {
        self.record(&ctx, &item.ident);
        Ok(ImplItemType {
            attrs: vec![],
            ident: item.ident.clone(),
            generics: String::new(),
            ty: "()".to_string(),
        })
    }
}

#[test]
fn generator_is_shown_all_members_in_order() {
    let completed = complete_impl(&interface(), &block(vec![]), Recorder::new()).unwrap();
    assert_eq!(
        keys(&completed),
        [
            ("const", "BAR".to_string()),
            ("fn", "qux".to_string()),
            ("type", "Grault".to_string())
        ]
    );
}

#[test]
fn completed_block_has_exactly_the_members_of_the_trait() {
    let written = block(vec![provided_fn("qux")]);
    let completed = complete_impl(&interface(), &written, Recorder::new()).unwrap();
    assert_eq!(
        keys(&completed),
        [
            ("fn", "qux".to_string()),
            ("const", "BAR".to_string()),
            ("type", "Grault".to_string())
        ]
    );
    assert_eq!(completed.items[0], provided_fn("qux"));
    assert_eq!(completed.self_ty, "Bar");
    assert_eq!(completed.trait_, written.trait_);
}

#[test]
fn complete_block_is_left_as_it_is() {
    let written = block(vec![
        provided_type("Grault"),
        ImplItem::Other("mac!();".to_string()),
        provided_const("BAR"),
        provided_fn("qux"),
    ]);
    let completed = complete_impl(&interface(), &written, Recorder::new()).unwrap();
    assert_eq!(completed, written);
}

#[test]
fn members_are_synthesized_in_declaration_order() {
    let items = vec![function("z"), constant("M"), function("a"), alias("T"), constant("A")];
    let completed =
        complete_impl(&items, &block(vec![provided_const("M")]), log_filler::Generator(log_filler::Arg {
            logger: "log::info".to_string(),
            args: vec![],
        }));
    let failure = completed.unwrap_err();
    assert_eq!(failure.kind, DiagnosticKind::LogType);
    assert_eq!(failure.subject, "T");

    let items = vec![function("z"), constant("M"), function("a"), alias("T")];
    let completed = complete_impl(
        &items,
        &block(vec![provided_const("M")]),
        delegate_filler::Generator(delegate_filler::Arg {
            ty: "Inner".to_string(),
            value: Some("self.0".to_string()),
        }),
    )
    .unwrap();
    assert_eq!(
        keys(&completed),
        [
            ("const", "M".to_string()),
            ("fn", "z".to_string()),
            ("fn", "a".to_string()),
            ("type", "T".to_string())
        ]
    );
}

#[test]
fn surplus_member_fails_before_any_synthesis() {
    let written = block(vec![provided_fn("qux"), provided_fn("quux")]);
    let failure = complete_impl(&interface(), &written, Recorder::new()).unwrap_err();
    assert_eq!(failure.kind, DiagnosticKind::UnknownFn);
    assert_eq!(failure.subject, "quux");
    assert_eq!(failure.message(), "no associated function called quux in trait");

    struct Untouched;
    impl vstd::view::View for Untouched {
        type V = ();

        fn view(&self) {}
    }
    impl GenerateImpl for Untouched {
        fn on_const(
            _: (),
            _: ImplContext,
            _: TraitItemConst,
        ) -> ((), Result<ImplItemConstView, DiagnosticView>) {
            unreachable!()
        }

        fn on_fn(
            _: (),
            _: ImplContext,
            _: TraitItemFn,
        ) -> ((), Result<ImplItemFnView, DiagnosticView>) {
            unreachable!()
        }

        fn on_type(
            _: (),
            _: ImplContext,
            _: TraitItemType,
        ) -> ((), Result<ImplItemTypeView, DiagnosticView>) {
            unreachable!()
        }

        fn generate_const(
            &mut self,
            _: ImplContext,
            _: &TraitItemConst,
        ) -> Result<ImplItemConst, Diagnostic> {
            panic!("no member is synthesized")
        }

        fn generate_fn(&mut self, _: ImplContext, _: &TraitItemFn) -> Result<ImplItemFn, Diagnostic> {
            panic!("no member is synthesized")
        }

        fn generate_type(
            &mut self,
            _: ImplContext,
            _: &TraitItemType,
        ) -> Result<ImplItemType, Diagnostic> {
            panic!("no member is synthesized")
        }
    }
    let failure = complete_impl(&interface(), &written, Untouched).unwrap_err();
    assert_eq!(failure.kind, DiagnosticKind::UnknownFn);
}

#[test]
fn surplus_is_looked_for_by_namespace() {
    let written = block(vec![provided_fn("BAR")]);
    let failure = complete_impl(&interface(), &written, Recorder::new()).unwrap_err();
    assert_eq!(failure.kind, DiagnosticKind::UnknownFn);
    assert_eq!(failure.subject, "BAR");

    let written = block(vec![provided_type("Other"), provided_fn("nope"), provided_const("NOPE")]);
    let failure = complete_impl(&interface(), &written, Recorder::new()).unwrap_err();
    assert_eq!(failure.kind, DiagnosticKind::UnknownConst);
    assert_eq!(failure.subject, "NOPE");
    assert_eq!(failure.message(), "no associated constant called NOPE in trait");

    let written = block(vec![provided_type("Other")]);
    let failure = complete_impl(&interface(), &written, Recorder::new()).unwrap_err();
    assert_eq!(failure.kind, DiagnosticKind::UnknownType);
    assert_eq!(failure.message(), "no associated type called Other in trait");
}

#[test]
fn completing_twice_gives_the_same_text() {
    let written = block(vec![provided_type("Grault")]);
    let first =
        complete_impl(&interface(), &written, default_filler::Generator(NoArgs)).unwrap().to_text();
    let second =
        complete_impl(&interface(), &written, default_filler::Generator(NoArgs)).unwrap().to_text();
    assert_eq!(first, second);
    assert_eq!(
        first,
        "impl Foo for Bar { type Grault = u8; const BAR: i32 = Default::default(); fn qux(&mut self) -> u32 { Default::default() } }"
    );
}

#[test]
fn completing_a_completed_block_changes_nothing() {
    let written = block(vec![provided_type("Grault")]);
    let once = complete_impl(&interface(), &written, default_filler::Generator(NoArgs)).unwrap();
    let twice = complete_impl(&interface(), &once, default_filler::Generator(NoArgs)).unwrap();
    assert_eq!(once, twice);
}

#[test]
fn generator_that_declines_a_kind_fails_the_completion() {
    let failure = complete_impl(&interface(), &block(vec![]), default_filler::Generator(NoArgs))
        .unwrap_err();
    assert_eq!(failure.kind, DiagnosticKind::DefaultType);
    assert_eq!(failure.subject, "Grault");
}

#[test]
fn index_holds_members_by_namespace() {
    let items = vec![function("z"), constant("M"), function("a"), alias("T")];
    let map = TraitItemMap::new(&items);
    assert_eq!(map.consts.len(), 1);
    assert_eq!(map.fns.iter().map(|f| f.sig.ident.as_str()).collect::<Vec<_>>(), ["z", "a"]);
    assert_eq!(map.types.len(), 1);
    assert!(has_name(&map.fns, "a"));
    assert!(!has_name(&map.fns, "M"));

    let written = block(vec![provided_fn("a"), ImplItem::Other("x".to_string())]);
    let provided = ImplItemMap::new(&written);
    assert_eq!(provided.fns.len(), 1);
    assert!(provided.consts.is_empty());
    assert!(provided.types.is_empty());
}

#[test]
fn subtraction_leaves_the_unimplemented_members() {
    let items = vec![function("z"), constant("M"), function("a"), alias("T")];
    let written = block(vec![provided_fn("z"), provided_type("T")]);
    let left = subtract_items(&items, &written).unwrap();
    assert_eq!(left.consts.iter().map(|c| c.ident.as_str()).collect::<Vec<_>>(), ["M"]);
    assert_eq!(left.fns.iter().map(|f| f.sig.ident.as_str()).collect::<Vec<_>>(), ["a"]);
    assert!(left.types.is_empty());
}

#[test]
fn failed_subtraction_removes_nothing() {
    let items = vec![function("z"), constant("M")];
    let written = block(vec![provided_fn("z"), provided_const("N")]);
    let mut map = TraitItemMap::new(&items);
    let failure = map.minus(&ImplItemMap::new(&written)).unwrap_err();
    assert_eq!(failure.kind, DiagnosticKind::UnknownConst);
    assert_eq!(failure.subject, "N");
    assert_eq!(map.fns.len(), 1);
    assert_eq!(map.consts.len(), 1);
    assert!(subtract_items(&items, &written).is_err());
}

#[test]
fn filler_writes_the_completed_block() {
    let input = Input {
        portrait: vec![constant("BAR"), function("qux")],
        args: NoArgs,
        item_impl: block(vec![]),
        debug_print: true,
    };
    let emitted = completer_impl_filler2(input, default_filler::Generator).unwrap();
    assert!(emitted.debug_print);
    assert_eq!(
        emitted.output,
        "impl Foo for Bar { const BAR: i32 = Default::default(); fn qux(&mut self) -> u32 { Default::default() } }"
    );
}

#[test]
fn filler_turns_a_failure_into_a_compile_error() {
    let input = Input {
        portrait: interface(),
        args: NoArgs,
        item_impl: block(vec![]),
        debug_print: true,
    };
    let emitted = completer_impl_filler(input, default_filler::Generator);
    assert!(!emitted.debug_print);
    assert_eq!(
        emitted.output,
        "::core::compile_error! { \"portrait::default cannot implement associated types automatically\" }"
    );
}
