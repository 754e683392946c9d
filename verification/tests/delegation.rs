use portrait::derive_completer::{
    complete_derive, completer_derive_filler, completer_derive_filler2, DeriveContext,
    GenerateDerive,
};
use portrait::derive_filler::Input;
use portrait::derive_delegate::{
    choose_aggregation, transform_arg, transform_arg_fields, transform_enum, transform_return,
    transform_struct, Aggregation, FnArgs, Generator,
};
use portrait::diagnostic::DiagnosticKind;
use portrait::no_args::NoArgs;
use portrait::syntax::{
    Attribute, Data, DeriveInput, Field, FnArg, GenericArgument, GenericParam, GenericParamKind,
    Generics, Pat, PatIdent, PatType, Path, PathSegment, Receiver, ReturnType, Signature,
    TraitItem, TraitItemConst, TraitItemFn, TraitItemType, Type, TypeKind, Variant,
};
use portrait::token::{Delimiter, TokenTree};
use portrait::util::{parse_args, parse_grouped_attr, Once, ParseArgs};

fn convert(stream: proc_macro2::TokenStream) -> Vec<TokenTree> {
    stream
        .into_iter()
        .map(|tree| match tree {
            proc_macro2::TokenTree::Group(group) => TokenTree::Group(
                match group.delimiter() {
                    proc_macro2::Delimiter::Parenthesis => Delimiter::Parenthesis,
                    proc_macro2::Delimiter::Brace => Delimiter::Brace,
                    proc_macro2::Delimiter::Bracket => Delimiter::Bracket,
                    proc_macro2::Delimiter::None => Delimiter::Invisible,
                },
                convert(group.stream()),
            ),
            proc_macro2::TokenTree::Ident(ident) => TokenTree::Ident(ident.to_string()),
            proc_macro2::TokenTree::Punct(punct) => {
                TokenTree::Punct(punct.as_char(), punct.spacing() == proc_macro2::Spacing::Joint)
            }
            proc_macro2::TokenTree::Literal(literal) => TokenTree::Literal(literal.to_string()),
        })
        .collect()
}

/// The tokens of a piece of source text.
fn lex(text: &str) -> Vec<TokenTree> {
    convert(text.parse::<proc_macro2::TokenStream>().unwrap())
}

fn path(names: &[&str]) -> Path {
    Path {
        leading_colon: false,
        segments: names
            .iter()
            .map(|name| PathSegment { ident: name.to_string(), arguments: String::new() })
            .collect(),
    }
}

fn named(text: &str) -> Type {
    Type { text: text.to_string(), kind: TypeKind::Path { path: path(&[text]), arguments: vec![] } }
}

fn reference(inner: Type) -> Type {
    Type { text: format!("&{}", inner.text), kind: TypeKind::Reference(Box::new(inner)) }
}

fn unit() -> Type {
    Type { text: "()".to_string(), kind: TypeKind::Tuple(0) }
}

fn receiver() -> FnArg {
    FnArg::Receiver(Receiver {
        attrs: vec![],
        reference: true,
        mutable: false,
        text: "&self".to_string(),
    })
}

fn binding(name: &str) -> Pat {
    Pat::Ident(PatIdent {
        by_ref: false,
        mutable: false,
        ident: name.to_string(),
        subpattern: None,
    })
}

fn typed(name: &str, ty: Type) -> FnArg {
    FnArg::Typed(PatType { attrs: vec![], pat: binding(name), ty })
}

fn no_generics() -> Generics {
    Generics { params: vec![], where_predicates: vec![] }
}

fn function(name: &str, inputs: Vec<FnArg>, output: ReturnType) -> TraitItemFn {
    TraitItemFn {
        attrs: vec![],
        sig: Signature {
            prefix: "fn".to_string(),
            ident: name.to_string(),
            generics: no_generics(),
            inputs,
            output,
        },
    }
}

fn field(name: Option<&str>, ty: &str) -> Field {
    Field { attrs: vec![], ident: name.map(|n| n.to_string()), ty: ty.to_string() }
}

fn cfg(condition: &str) -> Attribute {
    Attribute {
        ident: Some("cfg".to_string()),
        text: format!("#[cfg({condition})]"),
        arguments: Some(lex(condition)),
    }
}

/// `#[portrait(<arguments>)]`
fn portrait(arguments: &str) -> Attribute {
    Attribute {
        ident: Some("portrait".to_string()),
        text: format!("#[portrait({arguments})]"),
        arguments: Some(lex(arguments)),
    }
}

/// `#[portrait(derive_delegate(<arguments>))]`
fn configured(arguments: &str) -> Attribute {
    portrait(&format!("derive_delegate({arguments})"))
}

fn no_args() -> FnArgs {
    FnArgs { reduce: Once(None), reduce_base: Once(None), with_try: Once(None) }
}

fn fields_a_b() -> Vec<Field> {
    vec![field(Some("a"), "i32"), field(Some("b"), "String")]
}

fn structure(fields: Vec<Field>) -> DeriveInput {
    DeriveInput {
        attrs: vec![],
        ident: "Fields".to_string(),
        generics: no_generics(),
        data: Data::Struct(fields),
    }
}

fn strings(items: &[&str]) -> Vec<String> {
    items.iter().map(|s| s.to_string()).collect()
}

fn generate(item: &TraitItemFn, input: &DeriveInput) -> Result<portrait::syntax::ImplItemFn, portrait::diagnostic::Diagnostic> {
    let trait_path = path(&["Foo"]);
    let items: Vec<TraitItem> = vec![];
    let ctx = DeriveContext { trait_path: &trait_path, all_trait_items: &items, input };
    Generator(NoArgs).generate_fn(ctx, item)
}

#[test]
fn single_field_is_one_call_without_aggregation() {
    let item = function("weigh", vec![receiver()], ReturnType::Type(named("f64")));
    let input = structure(vec![field(Some("inner"), "Wrapped")]);
    let made = generate(&item, &input).unwrap();
    assert_eq!(
        made.stmts,
        strings(&["let Self { inner: __portrait_self_0 } = self;", "Foo::weigh(__portrait_self_0)"])
    );
    assert_eq!(made.ident, "weigh");
    assert_eq!(made.sig, "fn weigh(&self) -> f64");
}

#[test]
fn single_field_ignores_the_policy() {
    let item = function("weigh", vec![receiver()], ReturnType::Type(named("f64")));
    let fields = vec![field(None, "Wrapped")];
    for policy in [
        Aggregation::Unit,
        Aggregation::SelfReconstruct,
        Aggregation::Reduce { reducer: "f".to_string(), base: Some("0".to_string()) },
        Aggregation::Unresolved("f64".to_string()),
    ] {
        let stmts =
            transform_return(&item, &no_args(), &path(&["Foo"]), &policy, &fields, "Self", false)
                .unwrap();
        assert_eq!(stmts, strings(&["Foo::weigh(__portrait_self_0)"]));
    }
}

#[test]
fn unit_return_calls_every_field_in_order() {
    let item = function("print", vec![receiver()], ReturnType::Default);
    let fields = vec![field(Some("a"), "A"), field(Some("b"), "B"), field(Some("c"), "C")];
    let input = structure(fields);
    let made = generate(&item, &input).unwrap();
    assert_eq!(
        made.stmts,
        strings(&[
            "let Self { a: __portrait_self_0, b: __portrait_self_1, c: __portrait_self_2 } = self;",
            "Foo::print(__portrait_self_0);",
            "Foo::print(__portrait_self_1);",
            "Foo::print(__portrait_self_2);",
        ])
    );
}

#[test]
fn explicit_unit_return_is_unit_too() {
    let item = function("print", vec![receiver()], ReturnType::Type(unit()));
    let made = generate(&item, &structure(fields_a_b())).unwrap();
    assert_eq!(made.stmts.len(), 3);
    assert_eq!(made.stmts[1], "Foo::print(__portrait_self_0);");
    assert_eq!(made.stmts[2], "Foo::print(__portrait_self_1);");
}

#[test]
fn self_return_reconstructs_from_fields() {
    let item = function("clone", vec![receiver()], ReturnType::Type(named("Self")));
    let made = generate(&item, &structure(fields_a_b())).unwrap();
    assert_eq!(
        made.stmts,
        strings(&[
            "let Self { a: __portrait_self_0, b: __portrait_self_1 } = self;",
            "Self { a: Foo::clone(__portrait_self_0), b: Foo::clone(__portrait_self_1) }",
        ])
    );
    assert_eq!(made.sig, "fn clone(&self) -> Self");
}

#[test]
fn tuple_struct_fields_are_named_by_position() {
    let item = function("clone", vec![receiver()], ReturnType::Type(named("Self")));
    let input = structure(vec![field(None, "i32"), field(None, "String")]);
    let made = generate(&item, &input).unwrap();
    assert_eq!(
        made.stmts,
        strings(&[
            "let Self { 0: __portrait_self_0, 1: __portrait_self_1 } = self;",
            "Self { 0: Foo::clone(__portrait_self_0), 1: Foo::clone(__portrait_self_1) }",
        ])
    );
}

#[test]
fn reduce_folds_left_to_right_from_the_first_result() {
    let mut item = function(
        "eq",
        vec![receiver(), typed("other", reference(named("Self")))],
        ReturnType::Type(named("bool")),
    );
    item.attrs.push(configured("reduce = |x, y| x && y"));
    let made = generate(&item, &structure(fields_a_b())).unwrap();
    let first = "Foo::eq(__portrait_self_0, { let Self { a: __portrait_other, .. } = other; __portrait_other })";
    let second = "Foo::eq(__portrait_self_1, { let Self { b: __portrait_other, .. } = other; __portrait_other })";
    assert_eq!(
        made.stmts,
        vec![
            "let Self { a: __portrait_self_0, b: __portrait_self_1 } = self;".to_string(),
            format!("(| x , y | x && y)({first}, {second})"),
        ]
    );
    assert!(made.attrs.is_empty());
}

/// The statements for `fn zero() -> T` delegated to the given number of unnamed fields.
fn zeros(fields: usize, policy: &Aggregation) -> Result<Vec<String>, portrait::diagnostic::Diagnostic> {
    let item = function("zero", vec![], ReturnType::Type(named("T")));
    let fields: Vec<Field> = (0..fields).map(|_| field(None, "T")).collect();
    transform_return(&item, &no_args(), &path(&["Foo"]), policy, &fields, "Self", false)
}

#[test]
fn reduce_with_base_starts_from_the_base() {
    let policy = Aggregation::Reduce { reducer: "add".to_string(), base: Some("0".to_string()) };
    assert_eq!(
        zeros(3, &policy).unwrap(),
        strings(&["(add)((add)((add)(0, Foo::zero()), Foo::zero()), Foo::zero())"])
    );
}

#[test]
fn reduce_without_base_starts_from_the_first_call() {
    let policy = Aggregation::Reduce { reducer: "add".to_string(), base: None };
    assert_eq!(
        zeros(3, &policy).unwrap(),
        strings(&["(add)((add)(Foo::zero(), Foo::zero()), Foo::zero())"])
    );
    assert_eq!(zeros(2, &policy).unwrap(), strings(&["(add)(Foo::zero(), Foo::zero())"]));
}

#[test]
fn reduce_without_base_fails_without_fields() {
    let policy = Aggregation::Reduce { reducer: "add".to_string(), base: None };
    let failure = zeros(0, &policy).unwrap_err();
    assert_eq!(failure.kind, DiagnosticKind::ReduceWithoutFields);
    let based = Aggregation::Reduce { reducer: "add".to_string(), base: Some("0".to_string()) };
    assert_eq!(zeros(0, &based).unwrap(), strings(&["0"]));
    assert_eq!(zeros(0, &Aggregation::Unit).unwrap(), strings(&[]));
    assert_eq!(zeros(0, &Aggregation::SelfReconstruct).unwrap(), strings(&["Self {  }"]));
}

#[test]
fn unit_and_self_come_before_reduce() {
    let mut args = no_args();
    args.reduce.set("f".to_string(), "reduce").unwrap();
    assert_eq!(choose_aggregation(&args, None), Aggregation::Unit);
    assert_eq!(choose_aggregation(&args, Some(&unit())), Aggregation::Unit);
    assert_eq!(choose_aggregation(&args, Some(&named("Self"))), Aggregation::SelfReconstruct);
    assert_eq!(
        choose_aggregation(&args, Some(&named("bool"))),
        Aggregation::Reduce { reducer: "f".to_string(), base: None }
    );
    assert_eq!(
        choose_aggregation(&no_args(), Some(&named("bool"))),
        Aggregation::Unresolved("bool".to_string())
    );
    assert_eq!(
        choose_aggregation(&no_args(), Some(&reference(named("Self")))),
        Aggregation::Unresolved("&Self".to_string())
    );
}

#[test]
fn unknown_aggregation_names_the_return_type() {
    let item = function("count", vec![receiver()], ReturnType::Type(named("usize")));
    let failure = generate(&item, &structure(fields_a_b())).unwrap_err();
    assert_eq!(failure.kind, DiagnosticKind::UnknownAggregation);
    assert_eq!(failure.subject, "usize");
}

#[test]
fn enum_dispatches_by_variant() {
    let item = function("print", vec![receiver()], ReturnType::Default);
    let input = DeriveInput {
        attrs: vec![],
        ident: "Impls".to_string(),
        generics: no_generics(),
        data: Data::Enum(vec![
            Variant { attrs: vec![], ident: "A".to_string(), fields: vec![field(None, "i32")] },
            Variant { attrs: vec![], ident: "B".to_string(), fields: vec![field(None, "String")] },
        ]),
    };
    let made = generate(&item, &input).unwrap();
    assert_eq!(
        made.stmts,
        strings(&[
            "match self { Self::A { 0: __portrait_self_0, .. } => { Foo::print(__portrait_self_0) }, Self::B { 0: __portrait_self_0, .. } => { Foo::print(__portrait_self_0) }, }"
        ])
    );
}

#[test]
fn enum_variant_with_several_fields_aggregates_inside_its_arm() {
    let item = function("print", vec![receiver()], ReturnType::Default);
    let variants = vec![
        Variant {
            attrs: vec![cfg("unix")],
            ident: "Pair".to_string(),
            fields: vec![field(Some("x"), "X"), field(Some("y"), "Y")],
        },
        Variant { attrs: vec![], ident: "Nothing".to_string(), fields: vec![] },
    ];
    let stmts =
        transform_enum(&item, &path(&["Foo"]), &no_args(), &Aggregation::Unit, &variants).unwrap();
    assert_eq!(
        stmts,
        strings(&[
            "match self { #[cfg(unix)] Self::Pair { x: __portrait_self_0, y: __portrait_self_1, .. } => { Foo::print(__portrait_self_0); Foo::print(__portrait_self_1); }, Self::Nothing { .. } => {  }, }"
        ])
    );
}

#[test]
fn enum_without_receiver_fails() {
    let item = function("new", vec![typed("n", named("i32"))], ReturnType::Type(named("Self")));
    let input = DeriveInput {
        attrs: vec![],
        ident: "Impls".to_string(),
        generics: no_generics(),
        data: Data::Enum(vec![Variant {
            attrs: vec![],
            ident: "A".to_string(),
            fields: vec![field(None, "i32")],
        }]),
    };
    let failure = generate(&item, &input).unwrap_err();
    assert_eq!(failure.kind, DiagnosticKind::MissingReceiver);
    assert_eq!(failure.subject, "fn new(n: i32) -> Self");
}

#[test]
fn enum_with_self_parameter_fails() {
    let item = function(
        "eq",
        vec![receiver(), typed("other", reference(named("Self")))],
        ReturnType::Type(named("bool")),
    );
    let failure = transform_arg(&item.sig.inputs[1], &field(None, "i32"), 0, "Self::A", true)
        .unwrap_err();
    assert_eq!(failure.kind, DiagnosticKind::SelfParameter);
    assert_eq!(failure.subject, "other: &Self");
}

#[test]
fn other_parameters_pass_through_by_name() {
    let arg = typed("count", named("usize"));
    assert_eq!(transform_arg(&arg, &field(None, "i32"), 3, "Self", false).unwrap(), "count");
    assert_eq!(
        transform_arg(&receiver(), &field(None, "i32"), 12, "Self", false).unwrap(),
        "__portrait_self_12"
    );
}

#[test]
fn pattern_parameter_fails() {
    let arg = FnArg::Typed(PatType {
        attrs: vec![],
        pat: Pat::Other("(a, b)".to_string()),
        ty: named("Pair"),
    });
    let failure = transform_arg(&arg, &field(None, "i32"), 0, "Self", false).unwrap_err();
    assert_eq!(failure.kind, DiagnosticKind::PatternParameter);
    assert_eq!(failure.subject, "(a, b)");
}

#[test]
fn first_failing_parameter_of_first_field_is_reported() {
    let item = function(
        "mix",
        vec![
            receiver(),
            FnArg::Typed(PatType {
                attrs: vec![],
                pat: Pat::Other("[x]".to_string()),
                ty: named("A"),
            }),
            FnArg::Typed(PatType {
                attrs: vec![],
                pat: Pat::Other("[y]".to_string()),
                ty: named("B"),
            }),
        ],
        ReturnType::Default,
    );
    let failure =
        transform_arg_fields(&item, &no_args(), &path(&["Foo"]), &fields_a_b(), "Self", false)
            .unwrap_err();
    assert_eq!(failure.subject, "[x]");
}

#[test]
fn function_without_receiver_is_not_destructured() {
    let item = function("new", vec![typed("n", named("i32"))], ReturnType::Type(named("Self")));
    let stmts = transform_struct(
        &item,
        &path(&["Foo"]),
        &no_args(),
        &Aggregation::SelfReconstruct,
        &fields_a_b(),
    )
    .unwrap();
    assert_eq!(stmts, strings(&["Self { a: Foo::new(n), b: Foo::new(n) }"]));
}

#[test]
fn try_propagates_and_wraps_with_ok() {
    let result = Type {
        text: "Result<(), Error>".to_string(),
        kind: TypeKind::Path {
            path: Path {
                leading_colon: false,
                segments: vec![PathSegment {
                    ident: "Result".to_string(),
                    arguments: "<(), Error>".to_string(),
                }],
            },
            arguments: vec![GenericArgument::Type(unit()), GenericArgument::Type(named("Error"))],
        },
    };
    let mut item = function("save", vec![receiver()], ReturnType::Type(result));
    item.attrs.push(configured("try"));
    let made = generate(&item, &structure(fields_a_b())).unwrap();
    assert_eq!(
        made.stmts,
        strings(&[
            "Ok({ let Self { a: __portrait_self_0, b: __portrait_self_1 } = self; Foo::save(__portrait_self_0)?; Foo::save(__portrait_self_1)?; })"
        ])
    );
}

#[test]
fn try_with_constructor_wraps_with_it() {
    let option = Type {
        text: "Option<Self>".to_string(),
        kind: TypeKind::Path {
            path: Path {
                leading_colon: false,
                segments: vec![PathSegment {
                    ident: "Option".to_string(),
                    arguments: "<Self>".to_string(),
                }],
            },
            arguments: vec![GenericArgument::Type(named("Self"))],
        },
    };
    let mut item = function("checked", vec![receiver()], ReturnType::Type(option));
    item.attrs.push(configured("try = Some"));
    let made = generate(&item, &structure(fields_a_b())).unwrap();
    assert_eq!(
        made.stmts,
        strings(&[
            "Some({ let Self { a: __portrait_self_0, b: __portrait_self_1 } = self; Self { a: Foo::checked(__portrait_self_0)?, b: Foo::checked(__portrait_self_1)? } })"
        ])
    );
}

#[test]
fn try_needs_a_wrapper_type() {
    let mut item = function("save", vec![receiver()], ReturnType::Type(named("bool")));
    item.attrs.push(configured("try"));
    let failure = generate(&item, &structure(fields_a_b())).unwrap_err();
    assert_eq!(failure.kind, DiagnosticKind::TryWithoutWrapper);
    assert_eq!(failure.subject, "bool");

    let mut item = function("save", vec![receiver()], ReturnType::Type(reference(named("Self"))));
    item.attrs.push(configured("try"));
    assert_eq!(
        generate(&item, &structure(fields_a_b())).unwrap_err().kind,
        DiagnosticKind::TryWithoutWrapper
    );

    let lifetime_first = Type {
        text: "Cow<'a, str>".to_string(),
        kind: TypeKind::Path {
            path: path(&["Cow"]),
            arguments: vec![GenericArgument::Other("'a".to_string())],
        },
    };
    let mut item = function("save", vec![receiver()], ReturnType::Type(lifetime_first));
    item.attrs.push(configured("try"));
    assert_eq!(
        generate(&item, &structure(fields_a_b())).unwrap_err().kind,
        DiagnosticKind::TryWithoutWrapper
    );
}

#[test]
fn union_is_refused() {
    let item = function("print", vec![receiver()], ReturnType::Default);
    let input = DeriveInput {
        attrs: vec![],
        ident: "Bits".to_string(),
        generics: no_generics(),
        data: Data::Union,
    };
    let failure = generate(&item, &input).unwrap_err();
    assert_eq!(failure.kind, DiagnosticKind::DelegateUnion);
    assert_eq!(failure.subject, "Bits");
}

#[test]
fn constants_and_types_are_refused() {
    let trait_path = path(&["Foo"]);
    let items: Vec<TraitItem> = vec![];
    let input = structure(fields_a_b());
    let constant = TraitItemConst {
        attrs: vec![],
        ident: "BAR".to_string(),
        generics: no_generics(),
        ty: named("i32"),
    };
    let ctx = DeriveContext { trait_path: &trait_path, all_trait_items: &items, input: &input };
    let failure = Generator(NoArgs).generate_const(ctx, &constant).unwrap_err();
    assert_eq!(failure.kind, DiagnosticKind::DelegateConst);
    assert_eq!(failure.subject, "BAR");

    let alias =
        TraitItemType { attrs: vec![], ident: "Grault".to_string(), generics: no_generics() };
    let ctx = DeriveContext { trait_path: &trait_path, all_trait_items: &items, input: &input };
    let failure = Generator(NoArgs).generate_type(ctx, &alias).unwrap_err();
    assert_eq!(failure.kind, DiagnosticKind::DelegateType);
    assert_eq!(failure.subject, "Grault");
}

#[test]
fn cfg_attributes_are_carried_over() {
    let mut item = function("clone", vec![receiver()], ReturnType::Type(named("Self")));
    item.attrs.push(cfg("feature = \"x\""));
    item.attrs.push(Attribute {
        ident: Some("doc".to_string()),
        text: "#[doc = \"text\"]".to_string(),
        arguments: None,
    });
    let mut fields = fields_a_b();
    fields[1].attrs.push(cfg("unix"));
    let made = generate(&item, &structure(fields)).unwrap();
    assert_eq!(made.attrs, strings(&["#[cfg(feature = \"x\")]"]));
    assert_eq!(
        made.stmts,
        strings(&[
            "let Self { a: __portrait_self_0, #[cfg(unix)] b: __portrait_self_1 } = self;",
            "Self { a: Foo::clone(__portrait_self_0), #[cfg(unix)] b: Foo::clone(__portrait_self_1) }",
        ])
    );
    assert_eq!(
        made.to_text(),
        "#[cfg(feature = \"x\")] fn clone(&self) -> Self { let Self { a: __portrait_self_0, #[cfg(unix)] b: __portrait_self_1 } = self; Self { a: Foo::clone(__portrait_self_0), #[cfg(unix)] b: Foo::clone(__portrait_self_1) } }"
    );
}

#[test]
fn arguments_are_read_from_every_portrait_attribute() {
    let attrs = vec![
        cfg("unix"),
        configured("reduce = max"),
        portrait("log, other = 1 + 2, derive_delegate(reduce_base = 0, try = Some,), empty(),"),
    ];
    let args = parse_grouped_attr::<FnArgs>(&attrs, "derive_delegate").unwrap();
    assert_eq!(args.reduce, Once(Some("max".to_string())));
    assert_eq!(args.reduce_base, Once(Some("0".to_string())));
    assert_eq!(args.with_try, Once(Some(Some("Some".to_string()))));
}

#[test]
fn expression_of_an_argument_is_the_longest_that_can_be_read() {
    let mut args = FnArgs::empty();
    parse_args(&lex("reduce = |a, b| f::<A, B>(a, b), reduce_base = (0, 1).0, try"), &mut args)
        .unwrap();
    assert_eq!(args.reduce, Once(Some("| a , b | f ::< A , B > ( a , b )".to_string())));
    assert_eq!(args.reduce_base, Once(Some("( 0 , 1 ) . 0".to_string())));
    assert_eq!(args.with_try, Once(Some(None)));

    let mut args = FnArgs::empty();
    let stream = lex("reduce = a + b c");
    let failure = parse_args(&stream, &mut args).unwrap_err();
    assert_eq!(failure.kind, DiagnosticKind::ExpectedComma);
    assert_eq!(failure.subject, "c");
    assert_eq!(failure.message(), "expected `,`, found `c`");
    assert_eq!(FnArgs::empty().parse_once(&stream, 0).unwrap(), 5);
}

#[test]
fn argument_set_twice_is_refused() {
    let attrs = vec![configured("reduce = max, reduce = min")];
    let failure = parse_grouped_attr::<FnArgs>(&attrs, "derive_delegate").unwrap_err();
    assert_eq!(failure.kind, DiagnosticKind::ArgumentSetTwice);
    assert_eq!(failure.subject, "reduce");

    let attrs = vec![configured("try"), configured("try")];
    let failure = parse_grouped_attr::<FnArgs>(&attrs, "derive_delegate").unwrap_err();
    assert_eq!(failure.kind, DiagnosticKind::ArgumentSetTwice);
    assert_eq!(failure.subject, "try");
}

#[test]
fn unknown_and_malformed_arguments_are_refused() {
    let refused = |arguments: &str| {
        parse_grouped_attr::<FnArgs>(&vec![portrait(arguments)], "derive_delegate").unwrap_err()
    };
    let failure = refused("derive_delegate(enum_either)");
    assert_eq!(failure.kind, DiagnosticKind::UnknownArgument);
    assert_eq!(failure.subject, "enum_either");
    assert_eq!(refused("derive_delegate(1)").kind, DiagnosticKind::UnknownArgument);
    assert_eq!(refused("derive_delegate(reduce)").kind, DiagnosticKind::MalformedArgument);
    assert_eq!(refused("derive_delegate(reduce = )").kind, DiagnosticKind::MalformedArgument);
    assert_eq!(refused("derive_delegate(reduce_base(0))").kind, DiagnosticKind::MalformedArgument);
    assert_eq!(refused("derive_delegate(try = ;)").kind, DiagnosticKind::MalformedArgument);
    assert_eq!(refused("derive_delegate(try try)").kind, DiagnosticKind::ExpectedComma);

    let failure = refused("derive_delegate");
    assert_eq!(failure.kind, DiagnosticKind::ExpectedArguments);
    assert_eq!(failure.subject, "derive_delegate");
    assert_eq!(refused("derive_delegate = 1").kind, DiagnosticKind::ExpectedArguments);
    assert_eq!(refused("").kind, DiagnosticKind::ExpectedIdentifier);
    assert_eq!(refused("1").kind, DiagnosticKind::ExpectedIdentifier);
    let failure = refused("fn");
    assert_eq!(failure.kind, DiagnosticKind::ExpectedIdentifier);
    assert_eq!(failure.subject, "fn");
    assert_eq!(refused("other = ").kind, DiagnosticKind::MalformedArgument);
    assert_eq!(refused("a b").kind, DiagnosticKind::TrailingTokens);
    assert_eq!(refused("a, , b").kind, DiagnosticKind::ExpectedIdentifier);
    assert_eq!(refused("other(x), derive_delegate(try)").kind, DiagnosticKind::UnexpectedToken);

    let bare = Attribute {
        ident: Some("portrait".to_string()),
        text: "#[portrait]".to_string(),
        arguments: None,
    };
    let failure = parse_grouped_attr::<FnArgs>(&vec![bare], "derive_delegate").unwrap_err();
    assert_eq!(failure.kind, DiagnosticKind::ExpectedArguments);
    assert_eq!(failure.subject, "#[portrait]");
}

#[test]
fn other_attributes_and_groups_are_passed_over() {
    let attrs = vec![
        Attribute {
            ident: Some("other".to_string()),
            text: "#[other(derive_delegate(bogus))]".to_string(),
            arguments: Some(lex("derive_delegate(bogus)")),
        },
        portrait("log(), other = f(1, 2), flag"),
    ];
    let args = parse_grouped_attr::<FnArgs>(&attrs, "derive_delegate").unwrap();
    assert_eq!(args, no_args());
}

#[test]
fn every_field_type_is_bound_by_the_trait() {
    let trait_path = Path {
        leading_colon: true,
        segments: vec![
            PathSegment { ident: "traits".to_string(), arguments: String::new() },
            PathSegment { ident: "Foo".to_string(), arguments: String::new() },
        ],
    };
    let items: Vec<TraitItem> = vec![];
    let input = DeriveInput {
        attrs: vec![],
        ident: "Impls".to_string(),
        generics: no_generics(),
        data: Data::Enum(vec![
            Variant { attrs: vec![], ident: "A".to_string(), fields: vec![field(None, "T")] },
            Variant { attrs: vec![], ident: "N".to_string(), fields: vec![] },
            Variant {
                attrs: vec![],
                ident: "B".to_string(),
                fields: vec![field(Some("x"), "Vec<U>"), field(Some("y"), "i32")],
            },
        ]),
    };
    let mut params = strings(&["T", "U"]);
    let mut predicates = strings(&["T: Clone"]);
    let ctx = DeriveContext { trait_path: &trait_path, all_trait_items: &items, input: &input };
    Generator(NoArgs).extend_generics(ctx, &mut params, &mut predicates).unwrap();
    assert_eq!(params, strings(&["T", "U"]));
    assert_eq!(
        predicates,
        strings(&["T: Clone", "T: ::traits::Foo", "Vec<U>: ::traits::Foo", "i32: ::traits::Foo"])
    );
}

#[test]
fn derives_an_impl_block_for_a_generic_struct() {
    let trait_path = path(&["Foo"]);
    let items = vec![
        TraitItem::Fn(function("print", vec![receiver()], ReturnType::Default)),
        TraitItem::Other("mac!();".to_string()),
        TraitItem::Fn(function("clone", vec![receiver()], ReturnType::Type(named("Self")))),
    ];
    let input = DeriveInput {
        attrs: vec![cfg("unix"), Attribute {
            ident: Some("derive".to_string()),
            text: "#[derive(Debug)]".to_string(),
            arguments: Some(lex("Debug")),
        }],
        ident: "Pair".to_string(),
        generics: Generics {
            params: vec![
                GenericParam {
                    kind: GenericParamKind::Lifetime,
                    name: "'a".to_string(),
                    text: "'a".to_string(),
                },
                GenericParam {
                    kind: GenericParamKind::Type,
                    name: "T".to_string(),
                    text: "T: Clone".to_string(),
                },
            ],
            where_predicates: strings(&["T: 'a"]),
        },
        data: Data::Struct(vec![field(Some("left"), "&'a T"), field(Some("right"), "T")]),
    };
    let block = complete_derive(&trait_path, &items, &input, Generator(NoArgs)).unwrap();
    assert_eq!(block.attrs, strings(&["#[cfg(unix)]"]));
    assert_eq!(block.generics_params, strings(&["'a", "T: Clone"]));
    assert_eq!(block.where_predicates, strings(&["T: 'a", "&'a T: Foo", "T: Foo"]));
    assert_eq!(block.self_ty, "Pair<'a, T>");
    assert_eq!(block.items.len(), 2);
    assert_eq!(
        block.to_text(),
        "#[cfg(unix)] impl<'a, T: Clone> Foo for Pair<'a, T> where T: 'a, &'a T: Foo, T: Foo { fn print(&self) { let Self { left: __portrait_self_0, right: __portrait_self_1 } = self; Foo::print(__portrait_self_0); Foo::print(__portrait_self_1); } fn clone(&self) -> Self { let Self { left: __portrait_self_0, right: __portrait_self_1 } = self; Self { left: Foo::clone(__portrait_self_0), right: Foo::clone(__portrait_self_1) } } }"
    );
}

#[test]
fn derivation_stops_at_the_first_failure() {
    let trait_path = path(&["Foo"]);
    let items = vec![
        TraitItem::Fn(function("print", vec![receiver()], ReturnType::Default)),
        TraitItem::Type(TraitItemType {
            attrs: vec![],
            ident: "Grault".to_string(),
            generics: no_generics(),
        }),
        TraitItem::Const(TraitItemConst {
            attrs: vec![],
            ident: "BAR".to_string(),
            generics: no_generics(),
            ty: named("i32"),
        }),
    ];
    let failure =
        complete_derive(&trait_path, &items, &structure(fields_a_b()), Generator(NoArgs))
            .unwrap_err();
    assert_eq!(failure.kind, DiagnosticKind::DelegateType);
    assert_eq!(failure.subject, "Grault");
}

fn filler_input(items: Vec<TraitItem>, debug_print: bool) -> Input<NoArgs> {
    Input {
        trait_path: path(&["Foo"]),
        portrait: items,
        args: NoArgs,
        input: structure(fields_a_b()),
        debug_print,
    }
}

#[test]
fn deriving_filler_writes_the_impl_block() {
    let items = vec![TraitItem::Fn(function("print", vec![receiver()], ReturnType::Default))];
    let emitted = completer_derive_filler2(filler_input(items, true), Generator).unwrap();
    assert!(emitted.debug_print);
    assert_eq!(
        emitted.output,
        "impl Foo for Fields where i32: Foo, String: Foo { fn print(&self) { let Self { a: __portrait_self_0, b: __portrait_self_1 } = self; Foo::print(__portrait_self_0); Foo::print(__portrait_self_1); } }"
    );
    let items = vec![TraitItem::Fn(function("print", vec![receiver()], ReturnType::Default))];
    let again = completer_derive_filler(filler_input(items, false), Generator);
    assert!(!again.debug_print);
    assert_eq!(again.output, emitted.output);
}

#[test]
fn deriving_filler_reports_the_failure() {
    let items = vec![TraitItem::Fn(function("count", vec![receiver()], ReturnType::Type(named("usize"))))];
    let failure = completer_derive_filler2(filler_input(items, true), Generator).err().unwrap();
    assert_eq!(failure.kind, DiagnosticKind::UnknownAggregation);

    let items = vec![TraitItem::Const(TraitItemConst {
        attrs: vec![],
        ident: "BAR".to_string(),
        generics: no_generics(),
        ty: named("i32"),
    })];
    let emitted = completer_derive_filler(filler_input(items, true), Generator);
    assert!(!emitted.debug_print);
    assert_eq!(
        emitted.output,
        "::core::compile_error! { \"derive_delegate does not support const items\" }"
    );
}
