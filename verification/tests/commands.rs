use portrait::diagnostic::{compile_error_with, Diagnostic, DiagnosticKind};
use portrait::dummy_debug::DummyDebug;
use portrait::fill::{self, companion_of, Attr, Options};
use portrait::make::{run, run_with, ItemArgs, ItemTrait, Scope, Visibility};
use portrait::naming::{alias_for, companion_module, companion_of_snake, fresh_alias};
use portrait::syntax::{ItemImpl, Path, PathSegment, TraitRef};
use portrait::text::quote;
use portrait::token::{Delimiter, TokenTree};
use portrait::transport::Template;
use portrait::util::{parse_args, Once, ParseArgs};

fn convert(stream: proc_macro2::TokenStream) -> Vec<TokenTree> {
    stream
        .into_iter()
        .map(|tree| match tree {
            proc_macro2::TokenTree::Group(group) => TokenTree::Group(
                match group.delimiter() {
                    proc_macro2::Delimiter::Parenthesis => Delimiter::Parenthesis,
                    proc_macro2::Delimiter::Brace => Delimiter::Brace,
                    proc_macro2::Delimiter::Bracket => Delimiter::Bracket,
                    proc_macro2::Delimiter::None => Delimiter::Invisible,
                },
                convert(group.stream()),
            ),
            proc_macro2::TokenTree::Ident(ident) => TokenTree::Ident(ident.to_string()),
            proc_macro2::TokenTree::Punct(punct) => {
                TokenTree::Punct(punct.as_char(), punct.spacing() == proc_macro2::Spacing::Joint)
            }
            proc_macro2::TokenTree::Literal(literal) => TokenTree::Literal(literal.to_string()),
        })
        .collect()
}

/// The tokens of a piece of source text.
fn lex(text: &str) -> Vec<TokenTree> {
    convert(text.parse::<proc_macro2::TokenStream>().unwrap())
}

fn path(names: &[&str]) -> Path {
    Path {
        leading_colon: false,
        segments: names
            .iter()
            .map(|name| PathSegment { ident: name.to_string(), arguments: String::new() })
            .collect(),
    }
}

fn ident(text: &str) -> TokenTree {
    TokenTree::Ident(text.to_string())
}

fn punct(ch: char) -> TokenTree {
    TokenTree::Punct(ch, false)
}

fn visibility(scope: Scope, text: &str) -> Visibility {
    Visibility { scope, text: text.to_string() }
}

fn declaration(vis: Visibility) -> ItemTrait {
    ItemTrait {
        vis,
        ident: "MyTrait".to_string(),
        text: "trait MyTrait { fn foo(&self) -> num::NonZeroU8; }".to_string(),
        items: vec![vec![ident("fn"), ident("foo"), punct(';')]],
        paths: vec![
            path(&["num", "NonZeroU8"]),
            Path { leading_colon: true, segments: path(&["std", "fmt"]).segments },
            path(&["Self"]),
            path(&["num", "NonZeroU16"]),
        ],
    }
}

#[test]
fn capture_puts_template_and_module_beside_the_trait() {
    let item = declaration(visibility(Scope::Inherited, ""));
    let emitted = run_with(&item, &vec![], "portrait_items_7b").unwrap();
    assert!(!emitted.debug_print);
    let definition = Template::capture("portrait_items_7b", &item.items).definition();
    assert_eq!(
        emitted.output,
        format!(
            "trait MyTrait {{ fn foo(&self) -> num::NonZeroU8; }} {definition} #[allow(non_snake_case)]  use portrait_items_7b as MyTrait; #[allow(non_snake_case)]  mod my_trait_portrait {{ pub mod imports {{ }} }}"
        )
    );
}

#[test]
fn public_trait_exports_its_template() {
    let item = declaration(visibility(Scope::Public, "pub"));
    let entries = lex("import(core::num, std::{cell, string},), name = my_mod, __debug_print");
    let emitted = run_with(&item, &entries, "alias").unwrap();
    assert!(emitted.debug_print);
    let definition = Template::capture("alias", &item.items).definition();
    assert_eq!(
        emitted.output,
        format!(
            "trait MyTrait {{ fn foo(&self) -> num::NonZeroU8; }} #[doc(hidden)] #[macro_export] {definition} #[allow(non_snake_case)] pub use alias as MyTrait; #[allow(non_snake_case)] pub mod my_mod {{ pub mod imports {{ pub use core :: num; pub use std :: {{ cell , string }}; }} }}"
        )
    );
}

#[test]
fn automatic_imports_take_the_heads_of_paths_once() {
    let item = declaration(visibility(Scope::Inherited, ""));
    let entries = lex("import(a::b), auto_imports");
    let emitted = run_with(&item, &entries, "alias").unwrap();
    assert!(emitted.output.ends_with(
        " mod my_trait_portrait { pub mod imports { pub(in super::super) use a :: b; pub(in super::super) use super::super::num; pub(in super::super) use super::super::Self; } }"
    ));
    assert!(!emitted.debug_print);
}

#[test]
fn visibility_of_imports_follows_the_trait() {
    let import = |vis: Visibility| {
        let output = run_with(&declaration(vis), &lex("import(x)"), "alias").unwrap().output;
        let start = output.find("pub mod imports { ").unwrap() + "pub mod imports { ".len();
        let end = output.find(" use x;").unwrap();
        output[start..end].to_string()
    };
    assert_eq!(import(visibility(Scope::Inherited, "")), "pub(in super::super)");
    assert_eq!(import(visibility(Scope::Public, "pub")), "pub");
    let restricted = |in_token, name: &str, text: &str| {
        visibility(Scope::Restricted { in_token, path: path(&[name]) }, text)
    };
    assert_eq!(import(restricted(false, "self", "pub(self)")), "pub(in super::super)");
    assert_eq!(import(restricted(false, "super", "pub(super)")), "pub(in super::super::super)");
    assert_eq!(import(restricted(false, "crate", "pub(crate)")), "pub(crate)");
    assert_eq!(import(restricted(true, "other", "pub(in other)")), "pub(in other)");
}

#[test]
fn invalid_visibility_is_refused() {
    let vis = visibility(
        Scope::Restricted { in_token: false, path: path(&["elsewhere"]) },
        "pub(elsewhere)",
    );
    let failure = run_with(&declaration(vis), &vec![], "alias").err().unwrap();
    assert_eq!(failure.kind, DiagnosticKind::InvalidVisibility);
    assert_eq!(failure.subject, "pub(elsewhere)");
    assert_eq!(failure.message(), "invalid visibility scope");
}

#[test]
fn options_of_capture_are_set_once() {
    let mut args = ItemArgs::empty();
    parse_args(&lex("name = a, import(x), import(y, z::{self, w})"), &mut args).unwrap();
    assert_eq!(args.name, Once(Some("a".to_string())));
    assert_eq!(args.imports, ["x", "y", "z :: { self , w }"]);
    assert_eq!(args.auto_imports, Once(None));
    assert_eq!(args.debug_print, Once(None));

    let stream = lex("name = b");
    let failure = args.parse_once(&stream, 0).unwrap_err();
    assert_eq!(failure.kind, DiagnosticKind::ArgumentSetTwice);
    assert_eq!(failure.message(), "Argument cannot be set twice");

    let item = declaration(visibility(Scope::Inherited, ""));
    let kind = |attr: &str| run_with(&item, &lex(attr), "a").err().unwrap().kind;
    assert_eq!(kind("auto_imports, auto_imports"), DiagnosticKind::ArgumentSetTwice);
    assert_eq!(kind("__debug_print, __debug_print"), DiagnosticKind::ArgumentSetTwice);
    let failure = run_with(&item, &lex("verbose"), "a").err().unwrap();
    assert_eq!(failure.kind, DiagnosticKind::UnknownArgument);
    assert_eq!(failure.message(), "unknown argument `verbose`");
    assert_eq!(kind("= x"), DiagnosticKind::UnknownArgument);
    for malformed in ["name", "name = 1", "name = fn", "import = x", "import(1)", "import"] {
        assert_eq!(kind(malformed), DiagnosticKind::MalformedArgument);
    }
    assert_eq!(kind("import(a b)"), DiagnosticKind::ExpectedComma);
    assert_eq!(kind("auto_imports = true"), DiagnosticKind::ExpectedComma);
    assert_eq!(kind("name = a name = b"), DiagnosticKind::ExpectedComma);
    assert!(run_with(&item, &lex("name = a, auto_imports,"), "a").is_ok());
}

#[test]
fn capture_takes_a_fresh_alias() {
    let item = declaration(visibility(Scope::Inherited, ""));
    let emitted = run(&item, &vec![]).unwrap();
    let start = emitted.output.find("macro_rules! portrait_items_").unwrap() + "macro_rules! ".len();
    let alias: String =
        emitted.output[start..].chars().take_while(|c| !c.is_whitespace()).collect();
    let digits = alias.strip_prefix("portrait_items_").unwrap();
    assert!(!digits.is_empty() && digits.len() <= 32);
    assert!(digits.chars().all(|c| c.is_ascii_hexdigit() && !c.is_ascii_uppercase()));
    assert!(emitted.output.contains(&format!(" use {alias} as MyTrait;")));
    assert_eq!(emitted.output, run_with(&item, &vec![], &alias).unwrap().output);
}

#[test]
fn alias_is_the_number_in_hexadecimal() {
    assert_eq!(alias_for(0), "portrait_items_0");
    assert_eq!(alias_for(0xabc), "portrait_items_abc");
    assert_eq!(
        alias_for(u128::MAX),
        "portrait_items_ffffffffffffffffffffffffffffffff"
    );
    assert!(fresh_alias().starts_with("portrait_items_"));
}

#[test]
fn companion_module_is_the_name_in_snake_case() {
    assert_eq!(companion_of_snake("definition"), "definition_portrait");
    assert_eq!(companion_of_snake(""), "_portrait");
    assert_eq!(companion_module("Definition"), "definition_portrait");
    assert_eq!(companion_module("MyTrait"), "my_trait_portrait");
    assert_eq!(companion_module("XMLHttpRequest"), "xml_http_request_portrait");
    assert_eq!(companion_of(&path(&["Foo"])), "foo_portrait");
    assert_eq!(companion_of(&path(&["crate", "def", "MyTrait"])), "crate::def::my_trait_portrait");
    let generic = Path {
        leading_colon: true,
        segments: vec![
            PathSegment { ident: "a".to_string(), arguments: String::new() },
            PathSegment { ident: "FooBar".to_string(), arguments: "<T>".to_string() },
        ],
    };
    assert_eq!(companion_of(&generic), "::a::foo_bar_portrait");
}

fn impl_of(trait_: Option<TraitRef>) -> ItemImpl {
    ItemImpl {
        attrs: vec![],
        unsafety: false,
        generics_params: vec![],
        where_predicates: vec![],
        trait_,
        self_ty: "i32".to_string(),
        items: vec![],
    }
}

#[test]
fn fill_invokes_the_template_of_the_trait() {
    let item = impl_of(Some(TraitRef { negated: false, path: path(&["def", "Definition"]) }));
    let emitted =
        fill::run(&lex("portrait::default"), &item, "impl def::Definition for i32 {}").unwrap();
    assert!(!emitted.debug_print);
    assert_eq!(
        emitted.output,
        "const _: () = { use def::definition_portrait::imports::*; def::Definition! { @TARGET {portrait :: default} @ARGS {} @IMPL {impl def::Definition for i32 {}} @DEBUG_PRINT_FILLER_OUTPUT {false} } };"
    );
}

#[test]
fn fill_passes_options_and_arguments_on() {
    let item = impl_of(Some(TraitRef { negated: false, path: path(&["Foo"]) }));
    let attr = lex(
        "@MOD_PATH(first) @DEBUG_PRINT_FILLER_OUTPUT @__DEBUG_PRINT @MOD_PATH(elsewhere::foo_mod) portrait::delegate(Inner; self.0)",
    );
    let emitted = fill::run(&attr, &item, "impl Foo for i32 {}").unwrap();
    assert!(emitted.debug_print);
    assert_eq!(
        emitted.output,
        "const _: () = { use elsewhere :: foo_mod::imports::*; Foo! { @TARGET {portrait :: delegate} @ARGS {Inner ; self . 0} @IMPL {impl Foo for i32 {}} @DEBUG_PRINT_FILLER_OUTPUT {true} } };"
    );
}

#[test]
fn fill_refuses_inherent_and_negative_impls() {
    let failure = fill::run(&lex("g"), &impl_of(None), "impl i32 {}").err().unwrap();
    assert_eq!(failure.kind, DiagnosticKind::InherentImpl);
    assert_eq!(failure.message(), "#[fill] can only be used on trait impl blocks");

    let negative = impl_of(Some(TraitRef { negated: true, path: path(&["Send"]) }));
    let failure = fill::run(&lex("g"), &negative, "impl !Send for i32 {}").err().unwrap();
    assert_eq!(failure.kind, DiagnosticKind::NegativeImpl);
    assert_eq!(failure.subject, "Send");
    assert_eq!(failure.message(), "#[fill] cannot be used on negated trait impl");
}

#[test]
fn arguments_of_fill_are_options_and_a_generator() {
    let read = Attr::parse(&lex("portrait::log(log::info, 1)")).unwrap();
    assert_eq!(
        read.options,
        Options { debug_print: false, debug_print_filler_output: false, mod_path: None }
    );
    assert_eq!(read.attr_path, "portrait :: log");
    assert_eq!(read.args, Some("log :: info , 1".to_string()));
    let read = Attr::parse(&lex("@MOD_PATH(a::b) g()")).unwrap();
    assert_eq!(read.options.mod_path, Some("a :: b".to_string()));
    assert_eq!(read.args, Some(String::new()));
    assert_eq!(Attr::parse(&lex("g")).unwrap().args, None);

    let refused = |attr: &str| Attr::parse(&lex(attr)).unwrap_err();
    let failure = refused("@VERBOSE g");
    assert_eq!(failure.kind, DiagnosticKind::UnknownArgument);
    assert_eq!(failure.subject, "VERBOSE");
    assert_eq!(refused("@ g").kind, DiagnosticKind::UnknownArgument);
    assert_eq!(refused("@(x) g").kind, DiagnosticKind::UnknownArgument);
    assert_eq!(refused("@MOD_PATH g").kind, DiagnosticKind::MalformedArgument);
    let failure = refused("@MOD_PATH(a b) g");
    assert_eq!(failure.kind, DiagnosticKind::ExpectedPath);
    assert_eq!(failure.subject, "a b");
    assert_eq!(refused("@MOD_PATH() g").kind, DiagnosticKind::ExpectedPath);
    assert_eq!(refused("").kind, DiagnosticKind::ExpectedPath);
    assert_eq!(refused("@__DEBUG_PRINT").kind, DiagnosticKind::ExpectedPath);
    assert_eq!(refused("@__DEBUG_PRINT(x) g").kind, DiagnosticKind::ExpectedPath);
    assert_eq!(refused("g[x]").kind, DiagnosticKind::ExpectedArguments);
    assert_eq!(refused("g h").kind, DiagnosticKind::ExpectedArguments);
    assert_eq!(refused("g(x) y").kind, DiagnosticKind::UnexpectedToken);
    assert_eq!(refused("g(x) y").message(), "unexpected token");
}

#[test]
fn derive_keeps_the_item_and_invokes_the_template() {
    let item = lex("#[portrait(x)] struct Unit;");
    let emitted =
        portrait::derive::run(&lex("Foo with portrait::derive_delegate"), &item).unwrap();
    assert!(!emitted.debug_print);
    assert_eq!(
        emitted.output,
        "# [ cfg ( all () ) ] struct Unit ; const _: () = { use foo_portrait::imports::*; Foo! { @TARGET {portrait :: derive_delegate} @TRAIT_PATH {Foo} @ARGS {} @INPUT {# [ portrait ( x ) ] struct Unit ;} @DEBUG_PRINT_FILLER_OUTPUT {false} } };"
    );
}

#[test]
fn arguments_of_derive_name_the_trait_and_the_generator() {
    let read =
        portrait::derive::Attr::parse(&lex("@__DEBUG_PRINT ::a::b::FooBar<c::D> with g(1)"))
            .unwrap();
    assert!(read.options.debug_print);
    assert_eq!(read.trait_path, ":: a :: b :: FooBar < c :: D >");
    assert_eq!(read.companion, ":: a :: b ::foo_bar_portrait");
    assert_eq!(read.attr_path, "g");
    assert_eq!(read.args, Some("1".to_string()));
    assert_eq!(
        portrait::derive::Attr::parse(&lex("::Foo with g")).unwrap().companion,
        "::foo_portrait"
    );

    let refused = |attr: &str| portrait::derive::Attr::parse(&lex(attr)).unwrap_err();
    let failure = refused("Foo portrait::derive_delegate");
    assert_eq!(failure.kind, DiagnosticKind::ExpectedKeyword);
    assert_eq!(failure.message(), "expected `with`");
    assert_eq!(refused("with g").kind, DiagnosticKind::ExpectedKeyword);
    assert_eq!(refused("Foo with").kind, DiagnosticKind::ExpectedPath);
    assert_eq!(refused("1 with g").kind, DiagnosticKind::ExpectedPath);
    assert_eq!(refused("@NOPE Foo with g").kind, DiagnosticKind::UnknownArgument);

    let item = lex("struct Unit;");
    let failure = portrait::derive::run(&lex("@NOPE Foo with g"), &item).err().unwrap();
    assert_eq!(failure.kind, DiagnosticKind::UnknownArgument);
    let failure = portrait::derive::run(&lex("Foo with g"), &lex("fn f() {}")).err().unwrap();
    assert_eq!(failure.kind, DiagnosticKind::ExpectedInput);
    let emitted =
        portrait::derive::run(&lex("@MOD_PATH(m) @DEBUG_PRINT_FILLER_OUTPUT Foo with g"), &item)
            .unwrap();
    assert_eq!(
        emitted.output,
        "struct Unit ; const _: () = { use m::imports::*; Foo! { @TARGET {g} @TRAIT_PATH {Foo} @ARGS {} @INPUT {struct Unit ;} @DEBUG_PRINT_FILLER_OUTPUT {true} } };"
    );
}

#[test]
fn failure_becomes_a_compile_error() {
    let failure = Diagnostic::new(DiagnosticKind::ExpectedKeyword, "ARGS");
    assert_eq!(failure.message(), "expected `ARGS`");
    assert_eq!(failure.into_compile_error(), "::core::compile_error! { \"expected `ARGS`\" }");
    let quoted = Diagnostic::new(DiagnosticKind::UnknownArgument, "a\"b");
    assert_eq!(
        quoted.into_compile_error(),
        "::core::compile_error! { \"unknown argument `a\\\"b`\" }"
    );
    let escaped = Diagnostic::new(DiagnosticKind::MalformedArgument, "a\\b");
    assert_eq!(
        escaped.into_compile_error(),
        "::core::compile_error! { \"malformed argument `a\\\\b`\" }"
    );
    assert_eq!(compile_error_with("\"x\""), "::core::compile_error! { \"x\" }");
    assert_eq!(quote(""), "\"\"");
    assert_eq!(quote("say \"hi\" \\ bye"), "\"say \\\"hi\\\" \\\\ bye\"");
}

#[test]
fn every_failure_has_its_message() {
    let message = |kind| Diagnostic::new(kind, "S").message();
    assert_eq!(
        message(DiagnosticKind::DelegateConst),
        "derive_delegate does not support const items"
    );
    assert_eq!(message(DiagnosticKind::DelegateType), "derive_delegate does not support type items");
    assert_eq!(message(DiagnosticKind::DelegateUnion), "derive_delegate does not support unions");
    assert_eq!(
        message(DiagnosticKind::MissingReceiver),
        "Cannot derive enum delegates for associated functions without receivers"
    );
    assert_eq!(
        message(DiagnosticKind::SelfParameter),
        "Non-receiver Self parameters are only supported for structs"
    );
    assert_eq!(
        message(DiagnosticKind::PatternParameter),
        "Cannot derive delegate for traits with non-identifier-pattern parameters"
    );
    assert_eq!(
        message(DiagnosticKind::ReduceWithoutFields),
        "derive_delegate(reduce) is not applicable for empty structs"
    );
    assert!(message(DiagnosticKind::UnknownAggregation)
        .starts_with("Cannot determine how to aggregate the return value."));
    assert!(message(DiagnosticKind::TryWithoutWrapper).starts_with("`with_try` must be used"));
    assert_eq!(message(DiagnosticKind::MalformedArgument), "malformed argument `S`");
    assert_eq!(
        message(DiagnosticKind::LogConst),
        "portrait::log cannot implement associated constants automatically"
    );
    assert_eq!(
        message(DiagnosticKind::LogType),
        "portrait::log cannot implement associated types automatically"
    );
    assert_eq!(
        message(DiagnosticKind::DelegateWithoutValue),
        "Delegate value must be passed to implement traits with references"
    );
    assert_eq!(message(DiagnosticKind::UnexpectedArgument), "No argument expected");
    assert_eq!(message(DiagnosticKind::ExpectedBraces), "expected curly braces after `S`");
    assert_eq!(
        message(DiagnosticKind::ExpectedMember),
        "braces should only contain one trait item"
    );
    assert_eq!(message(DiagnosticKind::ExpectedBool), "expected boolean literal");
    assert_eq!(message(DiagnosticKind::TrailingTokens), "trailing tokens in macro input");
}

#[test]
fn once_keeps_the_last_value_and_reports_the_second() {
    let mut once: Once<u8> = Once::default();
    assert_eq!(once, Once(None));
    assert!(once.set(1, "key").is_ok());
    let failure = once.set(2, "key").unwrap_err();
    assert_eq!(failure.kind, DiagnosticKind::ArgumentSetTwice);
    assert_eq!(failure.subject, "key");
    assert_eq!(once, Once(Some(2)));
    assert_eq!(once.try_get(), Some(2));
    assert_eq!(Once(Some(3)).get_or(|| 4), 3);
    assert_eq!(Once(None).get_or(|| 4), 4);
    assert_eq!(Once::<u8>(None).try_get(), None);
}

#[test]
fn stand_in_shows_its_text() {
    assert_eq!(DummyDebug { text: "(cfg disabled)" }.fmt(), "(cfg disabled)");
}

#[test]
fn commands_turn_failures_into_compile_errors() {
    let item = declaration(visibility(Scope::Inherited, ""));
    let made = portrait::commands::make(&item, &lex("name = my_mod"));
    assert!(made.output.starts_with("trait MyTrait { fn foo(&self) -> num::NonZeroU8; } macro_rules! portrait_items_"));
    assert!(made.output.ends_with(" mod my_mod { pub mod imports { } }"));
    let refused = portrait::commands::make(&item, &lex("__debug_print, name"));
    assert!(!refused.debug_print);
    assert_eq!(refused.output, "::core::compile_error! { \"malformed argument `name`\" }");

    let block = impl_of(Some(TraitRef { negated: false, path: path(&["Foo"]) }));
    let filled = portrait::commands::fill(&lex("@__DEBUG_PRINT g"), &block, "impl Foo for i32 {}");
    assert!(filled.debug_print);
    assert_eq!(
        filled.output,
        fill::run(&lex("@__DEBUG_PRINT g"), &block, "impl Foo for i32 {}").unwrap().output
    );
    let refused = portrait::commands::fill(&lex("@__DEBUG_PRINT g"), &impl_of(None), "impl i32 {}");
    assert!(!refused.debug_print);
    assert_eq!(
        refused.output,
        "::core::compile_error! { \"#[fill] can only be used on trait impl blocks\" }"
    );

    let derived = portrait::commands::derive(&lex("Foo with g"), &lex("struct Unit;"));
    assert_eq!(
        derived.output,
        portrait::derive::run(&lex("Foo with g"), &lex("struct Unit;")).unwrap().output
    );
    let refused = portrait::commands::derive(&lex("Foo g"), &lex("struct Unit;"));
    assert_eq!(refused.output, "::core::compile_error! { \"expected `with`\" }");
}
