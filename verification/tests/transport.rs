use portrait::cursor::{
    last_accepted, peek_any_word, peek_group, peek_punct, peek_word, render_found,
};
use portrait::delegate_filler;
use portrait::derive_filler;
use portrait::diagnostic::DiagnosticKind;
use portrait::impl_filler::RawInput;
use portrait::log_filler;
use portrait::no_args::NoArgs;
use portrait::recognize::{recognizes, Syntax};
use portrait::token::{flatten, locate, render_tokens, strip_attr, Delimiter, TokenTree};
use portrait::transport::{
    check_end, read_switch, split_members, take_section, Parse, Template,
};

fn convert(stream: proc_macro2::TokenStream) -> Vec<TokenTree> {
    stream
        .into_iter()
        .map(|tree| match tree {
            proc_macro2::TokenTree::Group(group) => TokenTree::Group(
                match group.delimiter() {
                    proc_macro2::Delimiter::Parenthesis => Delimiter::Parenthesis,
                    proc_macro2::Delimiter::Brace => Delimiter::Brace,
                    proc_macro2::Delimiter::Bracket => Delimiter::Bracket,
                    proc_macro2::Delimiter::None => Delimiter::Invisible,
                },
                convert(group.stream()),
            ),
            proc_macro2::TokenTree::Ident(ident) => TokenTree::Ident(ident.to_string()),
            proc_macro2::TokenTree::Punct(punct) => {
                TokenTree::Punct(punct.as_char(), punct.spacing() == proc_macro2::Spacing::Joint)
            }
            proc_macro2::TokenTree::Literal(literal) => TokenTree::Literal(literal.to_string()),
        })
        .collect()
}

/// The tokens of a piece of source text.
fn lex(text: &str) -> Vec<TokenTree> {
    convert(text.parse::<proc_macro2::TokenStream>().unwrap())
}

fn ident(text: &str) -> TokenTree {
    TokenTree::Ident(text.to_string())
}

fn punct(ch: char) -> TokenTree {
    TokenTree::Punct(ch, false)
}

fn joint(ch: char) -> TokenTree {
    TokenTree::Punct(ch, true)
}

fn literal(text: &str) -> TokenTree {
    TokenTree::Literal(text.to_string())
}

fn group(delimiter: Delimiter, stream: Vec<TokenTree>) -> TokenTree {
    TokenTree::Group(delimiter, stream)
}

fn braces(stream: Vec<TokenTree>) -> TokenTree {
    group(Delimiter::Brace, stream)
}

fn parens(stream: Vec<TokenTree>) -> TokenTree {
    group(Delimiter::Parenthesis, stream)
}

/// `const BAR: i32;`
fn member_bar() -> Vec<TokenTree> {
    vec![ident("const"), ident("BAR"), punct(':'), ident("i32"), punct(';')]
}

/// `fn qux(&mut self) -> u32;`
fn member_qux() -> Vec<TokenTree> {
    vec![
        ident("fn"),
        ident("qux"),
        parens(vec![punct('&'), ident("mut"), ident("self")]),
        joint('-'),
        punct('>'),
        ident("u32"),
        punct(';'),
    ]
}

/// `type Grault<U>;`
fn member_grault() -> Vec<TokenTree> {
    vec![ident("type"), ident("Grault"), punct('<'), ident("U"), joint('>'), punct(';')]
}

fn members() -> Vec<Vec<TokenTree>> {
    vec![member_bar(), member_qux(), member_grault()]
}

fn target() -> Vec<TokenTree> {
    vec![ident("portrait"), joint(':'), punct(':'), ident("default")]
}

fn impl_block() -> Vec<TokenTree> {
    vec![ident("impl"), ident("Foo"), ident("for"), ident("i32"), braces(vec![])]
}

fn forwarded(invocation: &[TokenTree]) -> Vec<TokenTree> {
    match invocation.last() {
        Some(TokenTree::Group(Delimiter::Brace, inner)) => {
            inner.iter().map(|t| t.duplicate()).collect()
        }
        _ => panic!("the invocation ends with the input of the generator in braces"),
    }
}

#[test]
fn template_delivers_the_captured_members_unchanged() {
    let template = Template::capture("portrait_items_1f", &members());
    let args = lex("Inner<T>; self.0");
    let invocation = template.invoke(&target(), &args, &impl_block(), true);
    assert_eq!(invocation[..4], target()[..]);
    assert_eq!(invocation[4], punct('!'));
    assert_eq!(invocation.len(), 6);
    let received =
        RawInput::<delegate_filler::Arg>::parse(&forwarded(&invocation)).unwrap();
    assert_eq!(received.portrait, members());
    assert_eq!(received.portrait.len(), 3);
    assert_eq!(received.portrait[0], member_bar());
    assert_eq!(received.portrait[1], member_qux());
    assert_eq!(received.portrait[2], member_grault());
    assert_eq!(
        received.args,
        delegate_filler::Arg {
            ty: "Inner < T >".to_string(),
            value: Some("self . 0".to_string())
        }
    );
    assert_eq!(received.item_impl, impl_block());
    assert!(received.debug_print);
    assert_eq!(members(), [lex("const BAR: i32;"), lex("fn qux(&mut self) -> u32;"), lex("type Grault<U>;")]);
}

#[test]
fn template_delivers_to_a_deriving_generator() {
    let template = Template::capture("portrait_items_1f", &members());
    let trait_path = vec![ident("Foo")];
    let input = vec![ident("struct"), ident("Unit"), punct(';')];
    let invocation = template.invoke_derive(&target(), &trait_path, &vec![], &input, false);
    let received =
        derive_filler::RawInput::<NoArgs>::parse(&forwarded(&invocation)).unwrap();
    assert_eq!(received.portrait, members());
    assert_eq!(received.trait_path, trait_path);
    assert_eq!(received.args, NoArgs);
    assert_eq!(received.input, input);
    assert!(!received.debug_print);
}

#[test]
fn template_without_members_delivers_none() {
    let template = Template::capture("t", &vec![]);
    let invocation = template.invoke(&target(), &vec![], &impl_block(), false);
    let received = RawInput::<NoArgs>::parse(&forwarded(&invocation)).unwrap();
    assert!(received.portrait.is_empty());
    assert!(!received.debug_print);
}

#[test]
fn definition_holds_the_members_in_both_rules() {
    let template = Template::capture("portrait_items_2a", &vec![member_bar(), member_grault()]);
    let captured = "{ const BAR : i32 ; } { type Grault < U >; } ";
    let expected = format!(
        "macro_rules! portrait_items_2a {{ (@TARGET {{$target_macro:path}} @ARGS {{$($args:tt)*}} @IMPL {{$($impl:tt)*}} @DEBUG_PRINT_FILLER_OUTPUT {{$debug_print:literal}}) => {{ $target_macro! {{ TRAIT_PORTRAIT {{ {captured}}} ARGS {{ $($args)* }} IMPL {{ $($impl)* }} DEBUG_PRINT_FILLER_OUTPUT {{ $debug_print }} }} }}; (@TARGET {{$target_macro:path}} @TRAIT_PATH {{$trait_path:path}} @ARGS {{$($args:tt)*}} @INPUT {{$($input:tt)*}} @DEBUG_PRINT_FILLER_OUTPUT {{$debug_print:literal}}) => {{ $target_macro! {{ TRAIT_PORTRAIT {{ {captured}}} TRAIT_PATH {{ $trait_path }} ARGS {{ $($args)* }} INPUT {{ $($input)* }} DEBUG_PRINT_FILLER_OUTPUT {{ $debug_print }} }} }}; }}"
    );
    assert_eq!(template.definition(), expected);
}

#[test]
fn tokens_are_written_with_their_spacing() {
    assert_eq!(render_tokens(&member_qux()), "fn qux ( & mut self ) -> u32 ;");
    assert_eq!(render_tokens(&target()), "portrait :: default");
    assert_eq!(render_tokens(&vec![]), "");
    let nested = vec![
        punct('#'),
        group(Delimiter::Bracket, vec![ident("doc"), punct('='), literal("\"x\"")]),
        group(Delimiter::Invisible, vec![ident("a"), punct('+'), ident("b")]),
        braces(vec![]),
    ];
    assert_eq!(render_tokens(&nested), "# [ doc = \"x\" ] a + b {}");
}

#[test]
fn invisible_groups_are_seen_through() {
    let stream = vec![
        ident("a"),
        group(
            Delimiter::Invisible,
            vec![ident("b"), group(Delimiter::Invisible, vec![ident("c")]), parens(vec![
                group(Delimiter::Invisible, vec![ident("kept")]),
            ])],
        ),
        group(Delimiter::Invisible, vec![]),
        ident("d"),
    ];
    assert_eq!(
        flatten(&stream),
        vec![
            ident("a"),
            ident("b"),
            ident("c"),
            parens(vec![group(Delimiter::Invisible, vec![ident("kept")])]),
            ident("d"),
        ]
    );
}

#[test]
fn input_in_invisible_groups_is_accepted() {
    let input = vec![
        ident("TRAIT_PORTRAIT"),
        braces(vec![group(Delimiter::Invisible, vec![braces(member_bar())])]),
        group(Delimiter::Invisible, vec![ident("ARGS"), braces(vec![])]),
        ident("IMPL"),
        braces(impl_block()),
        ident("DEBUG_PRINT_FILLER_OUTPUT"),
        braces(vec![group(Delimiter::Invisible, vec![ident("false")])]),
    ];
    let received = RawInput::<NoArgs>::parse(&input).unwrap();
    assert_eq!(received.portrait, vec![member_bar()]);
    assert!(!received.debug_print);
}

fn well_formed() -> Vec<TokenTree> {
    vec![
        ident("TRAIT_PORTRAIT"),
        braces(vec![braces(member_bar())]),
        ident("ARGS"),
        braces(vec![]),
        ident("IMPL"),
        braces(impl_block()),
        ident("DEBUG_PRINT_FILLER_OUTPUT"),
        braces(vec![ident("true")]),
    ]
}

#[test]
fn missing_keyword_is_reported() {
    assert!(RawInput::<NoArgs>::parse(&well_formed()).is_ok());
    let failure = RawInput::<NoArgs>::parse(&vec![]).err().unwrap();
    assert_eq!(failure.kind, DiagnosticKind::ExpectedKeyword);
    assert_eq!(failure.subject, "TRAIT_PORTRAIT");

    let mut input = well_formed();
    input[2] = ident("ARGUMENTS");
    let failure = RawInput::<NoArgs>::parse(&input).err().unwrap();
    assert_eq!(failure.kind, DiagnosticKind::ExpectedKeyword);
    assert_eq!(failure.subject, "ARGS");

    let mut input = well_formed();
    input.truncate(6);
    let failure = RawInput::<NoArgs>::parse(&input).err().unwrap();
    assert_eq!(failure.kind, DiagnosticKind::ExpectedKeyword);
    assert_eq!(failure.subject, "DEBUG_PRINT_FILLER_OUTPUT");

    let failure = derive_filler::RawInput::<NoArgs>::parse(&well_formed()).err().unwrap();
    assert_eq!(failure.kind, DiagnosticKind::ExpectedKeyword);
    assert_eq!(failure.subject, "TRAIT_PATH");
}

#[test]
fn missing_braces_are_reported() {
    let mut input = well_formed();
    input[5] = parens(impl_block());
    let failure = RawInput::<NoArgs>::parse(&input).err().unwrap();
    assert_eq!(failure.kind, DiagnosticKind::ExpectedBraces);
    assert_eq!(failure.subject, "IMPL");

    let failure = take_section(&vec![ident("ARGS")], 0, "ARGS").unwrap_err();
    assert_eq!(failure.kind, DiagnosticKind::ExpectedBraces);
    assert_eq!(take_section(&well_formed(), 2, "ARGS").unwrap(), &vec![]);
}

#[test]
fn member_outside_braces_is_reported() {
    let mut input = well_formed();
    input[1] = braces(vec![braces(member_bar()), ident("stray")]);
    let failure = RawInput::<NoArgs>::parse(&input).err().unwrap();
    assert_eq!(failure.kind, DiagnosticKind::ExpectedMember);

    let failure = split_members(&vec![parens(member_bar())]).unwrap_err();
    assert_eq!(failure.kind, DiagnosticKind::ExpectedMember);
    assert_eq!(failure.subject, "TRAIT_PORTRAIT");
    assert_eq!(
        split_members(&vec![braces(member_bar()), braces(member_qux())]).unwrap(),
        vec![member_bar(), member_qux()]
    );
    for bad in ["", "const BAR: i32; fn f();", "struct S;", "fn f("] {
        let tokens = match bad.parse::<proc_macro2::TokenStream>() {
            Ok(stream) => convert(stream),
            Err(_) => vec![ident("fn"), ident("f"), punct('(')],
        };
        let failure = split_members(&vec![braces(member_bar()), braces(tokens)]).unwrap_err();
        assert_eq!(failure.kind, DiagnosticKind::ExpectedMember);
    }
    let failure = split_members(&vec![braces(lex("struct S;"))]).unwrap_err();
    assert_eq!(failure.subject, "struct S ;");
    assert_eq!(failure.message(), "braces should only contain one trait item");
}

#[test]
fn debug_switch_must_be_a_boolean() {
    assert_eq!(read_switch(&vec![ident("true")]).unwrap(), true);
    assert_eq!(read_switch(&vec![ident("false")]).unwrap(), false);
    for bad in [vec![], vec![ident("yes")], vec![literal("1")], vec![ident("true"), ident("true")]]
    {
        let failure = read_switch(&bad).unwrap_err();
        assert_eq!(failure.kind, DiagnosticKind::ExpectedBool);
    }
    let mut input = well_formed();
    input[7] = braces(vec![]);
    assert_eq!(RawInput::<NoArgs>::parse(&input).err().unwrap().kind, DiagnosticKind::ExpectedBool);
}

#[test]
fn trailing_tokens_are_reported() {
    let mut input = well_formed();
    input.push(punct(';'));
    let failure = RawInput::<NoArgs>::parse(&input).err().unwrap();
    assert_eq!(failure.kind, DiagnosticKind::TrailingTokens);
    assert_eq!(failure.subject, "");
    assert!(check_end(&well_formed(), 4).is_ok());
    assert!(check_end(&well_formed(), 3).is_err());
}

#[test]
fn strip_replaces_named_attributes_at_any_depth() {
    let always = group(
        Delimiter::Bracket,
        vec![ident("cfg"), parens(vec![ident("all"), parens(vec![])])],
    );
    let item = vec![
        punct('#'),
        group(Delimiter::Bracket, vec![ident("portrait"), parens(vec![ident("x")])]),
        punct('#'),
        group(Delimiter::Bracket, vec![ident("derive"), parens(vec![ident("Clone")])]),
        ident("struct"),
        ident("S"),
        braces(vec![
            punct('#'),
            group(Delimiter::Bracket, vec![ident("portrait")]),
            ident("a"),
            punct(':'),
            group(Delimiter::Bracket, vec![ident("portrait")]),
            punct(','),
            punct('#'),
            punct('!'),
            group(Delimiter::Bracket, vec![ident("portrait"), punct('='), literal("1")]),
            punct('#'),
            group(
                Delimiter::Bracket,
                vec![ident("portrait"), joint(':'), punct(':'), ident("make")],
            ),
        ]),
    ];
    let stripped = strip_attr("portrait", &item);
    assert_eq!(
        stripped,
        vec![
            punct('#'),
            always.duplicate(),
            punct('#'),
            group(Delimiter::Bracket, vec![ident("derive"), parens(vec![ident("Clone")])]),
            ident("struct"),
            ident("S"),
            braces(vec![
                punct('#'),
                always.duplicate(),
                ident("a"),
                punct(':'),
                group(Delimiter::Bracket, vec![ident("portrait")]),
                punct(','),
                punct('#'),
                punct('!'),
                always.duplicate(),
                punct('#'),
                group(
                    Delimiter::Bracket,
                    vec![ident("portrait"), joint(':'), punct(':'), ident("make")],
                ),
            ]),
        ]
    );
    assert_eq!(render_tokens(&strip_attr("portrait", &item[..2].iter().map(|t| t.duplicate()).collect())), "# [ cfg ( all () ) ]");
    assert_eq!(strip_attr("other", &item), item);
}

#[test]
fn no_arguments_means_no_tokens() {
    assert_eq!(NoArgs::parse(&vec![]).unwrap(), NoArgs);
    assert_eq!(NoArgs::parse(&vec![group(Delimiter::Invisible, vec![])]).unwrap(), NoArgs);
    let failure = NoArgs::parse(&vec![ident("x"), punct(',')]).unwrap_err();
    assert_eq!(failure.kind, DiagnosticKind::UnexpectedArgument);
    assert_eq!(failure.subject, "x ,");

    let mut input = well_formed();
    input[3] = braces(lex("x"));
    let failure = RawInput::<NoArgs>::parse(&input).err().unwrap();
    assert_eq!(failure.kind, DiagnosticKind::UnexpectedArgument);
}

#[test]
fn impl_block_and_input_are_checked() {
    let mut input = well_formed();
    input[5] = braces(lex("struct NotAnImpl;"));
    let failure = RawInput::<NoArgs>::parse(&input).err().unwrap();
    assert_eq!(failure.kind, DiagnosticKind::ExpectedImpl);
    assert_eq!(failure.message(), "expected impl block");

    let derive = |trait_path: &str, input: &str| {
        derive_filler::RawInput::<NoArgs>::parse(&vec![
            ident("TRAIT_PORTRAIT"),
            braces(vec![]),
            ident("TRAIT_PATH"),
            braces(lex(trait_path)),
            ident("ARGS"),
            braces(vec![]),
            ident("INPUT"),
            braces(lex(input)),
            ident("DEBUG_PRINT_FILLER_OUTPUT"),
            braces(vec![ident("false")]),
        ])
    };
    assert!(derive("a::Foo<T>", "enum E { A, B(u8) }").is_ok());
    let failure = derive("a::", "struct S;").err().unwrap();
    assert_eq!(failure.kind, DiagnosticKind::ExpectedPath);
    assert_eq!(failure.subject, "a ::");
    let failure = derive("Foo", "impl Foo for S {}").err().unwrap();
    assert_eq!(failure.kind, DiagnosticKind::ExpectedInput);
    assert_eq!(failure.message(), "expected struct, enum or union");
}

#[test]
fn delegate_arguments_are_a_type_and_a_value() {
    let parsed = delegate_filler::Arg::parse(&lex("DefaultUser<U>; self.inner")).unwrap();
    assert_eq!(parsed.ty, "DefaultUser < U >");
    assert_eq!(parsed.value, Some("self . inner".to_string()));
    let parsed = delegate_filler::Arg::parse(&lex("[u8; 4]")).unwrap();
    assert_eq!(parsed.ty, "[ u8 ; 4 ]");
    assert_eq!(parsed.value, None);

    let kind = |text: &str| delegate_filler::Arg::parse(&lex(text)).unwrap_err().kind;
    assert_eq!(kind(""), DiagnosticKind::ExpectedType);
    assert_eq!(kind("; x"), DiagnosticKind::ExpectedType);
    assert_eq!(kind("T;"), DiagnosticKind::MalformedArgument);
    assert_eq!(kind("T, x"), DiagnosticKind::TrailingTokens);
    assert_eq!(kind("T; x; y"), DiagnosticKind::TrailingTokens);
}

#[test]
fn log_arguments_are_a_path_and_expressions() {
    let parsed = log_filler::Arg::parse(&lex("log::info")).unwrap();
    assert_eq!(parsed.logger, "log :: info");
    assert!(parsed.args.is_empty());

    let parsed = log_filler::Arg::parse(&lex("println, target: f(1, 2), 3,")).unwrap_err();
    assert_eq!(parsed.kind, DiagnosticKind::ExpectedComma);

    let parsed = log_filler::Arg::parse(&lex("println, f(1, 2), |a, b| a,")).unwrap();
    assert_eq!(parsed.logger, "println");
    assert_eq!(parsed.args, ["f ( 1 , 2 )", "| a , b | a"]);

    let parsed = log_filler::Arg::parse(&lex("log,")).unwrap();
    assert!(parsed.args.is_empty());

    let kind = |text: &str| log_filler::Arg::parse(&lex(text)).unwrap_err().kind;
    assert_eq!(kind(""), DiagnosticKind::ExpectedPath);
    assert_eq!(kind("log -> u8"), DiagnosticKind::TrailingTokens);
    assert_eq!(kind("log x"), DiagnosticKind::TrailingTokens);
    assert_eq!(kind("log, ;"), DiagnosticKind::MalformedArgument);
    assert_eq!(kind("log, a b"), DiagnosticKind::ExpectedComma);
}

#[test]
fn token_is_located_by_its_text() {
    let stream = lex("trait Foo { fn bar(&self, baz: u8); const N: u8; } baz");
    assert_eq!(locate(&stream, "trait"), Some(vec![0]));
    assert_eq!(locate(&stream, "Foo"), Some(vec![1]));
    assert_eq!(locate(&stream, "bar"), Some(vec![2, 1]));
    assert_eq!(locate(&stream, "baz"), Some(vec![2, 2, 3]));
    assert_eq!(locate(&stream, "u8"), Some(vec![2, 2, 5]));
    assert_eq!(locate(&stream, "N"), Some(vec![2, 5]));
    assert_eq!(locate(&stream, "( & self , baz : u8 )"), Some(vec![2, 2]));
    assert_eq!(locate(&stream, "qux"), None);
    assert_eq!(locate(&stream, ""), None);
    assert_eq!(locate(&lex(""), "trait"), None);
}

#[test]
fn syntax_is_recognized() {
    assert!(recognizes(Syntax::UseTree, "std::{cell, string as s}"));
    assert!(!recognizes(Syntax::UseTree, "std::{cell"));
    assert!(recognizes(Syntax::Ident, "with"));
    assert!(!recognizes(Syntax::Ident, "self"));
    assert!(recognizes(Syntax::TraitItem, "type Grault<U>;"));
    assert!(!recognizes(Syntax::TraitItem, "type Grault<U>; type Other;"));
    assert!(recognizes(Syntax::ItemImpl, "impl<T> Foo for Vec<T> where T: Foo { fn f() {} }"));
    assert!(!recognizes(Syntax::ItemImpl, "trait Foo {}"));
    assert!(recognizes(Syntax::DeriveInput, "#[derive(Clone)] union U { a: u8 }"));
    assert!(!recognizes(Syntax::DeriveInput, "fn f() {}"));
    assert!(recognizes(Syntax::Type, "&'a mut [T; 4]"));
    assert!(!recognizes(Syntax::Type, "1 + 1"));
    assert!(recognizes(Syntax::Expr, "1 + 1"));
    assert!(!recognizes(Syntax::Expr, "1 +"));
    assert!(recognizes(Syntax::Path, "a::b::<C, D>"));
    assert!(!recognizes(Syntax::Path, "a::b::<C, D>(x)"));
    assert!(!recognizes(Syntax::Path, ""));
}

#[test]
fn tokens_are_looked_at_in_place() {
    let stream = lex("a = (x) with");
    assert!(peek_word(&stream, 0, "a"));
    assert!(!peek_word(&stream, 0, "b"));
    assert!(!peek_word(&stream, 1, "a"));
    assert!(!peek_word(&stream, 9, "a"));
    assert!(peek_punct(&stream, 1, '='));
    assert!(!peek_punct(&stream, 1, ','));
    assert!(!peek_punct(&stream, 4, '='));
    assert_eq!(peek_any_word(&stream, 3), Some(&"with".to_string()));
    assert_eq!(peek_any_word(&stream, 2), None);
    assert_eq!(peek_any_word(&stream, 4), None);
    assert_eq!(peek_group(&stream, 2, Delimiter::Parenthesis), Some(&lex("x")));
    assert_eq!(peek_group(&stream, 2, Delimiter::Brace), None);
    assert_eq!(peek_group(&stream, 3, Delimiter::Parenthesis), None);
    assert_eq!(render_found(&stream, 2), "( x )");
    assert_eq!(render_found(&stream, 3), "with");
    assert_eq!(render_found(&stream, 4), "");
}

#[test]
fn last_verdict_that_holds_is_found() {
    assert_eq!(last_accepted(&vec![]), None);
    assert_eq!(last_accepted(&vec![false, false]), None);
    assert_eq!(last_accepted(&vec![true]), Some(0));
    assert_eq!(last_accepted(&vec![true, false, true, false]), Some(2));
    assert_eq!(last_accepted(&vec![false, true, true]), Some(2));
}
