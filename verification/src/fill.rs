//! Filling an impl block: the template of the implemented trait is invoked with the
//! generator, its arguments and the block.

use crate::cursor::{
    any_word_at, find_longest, found_text, group_at, longest, peek_any_word, peek_group,
    peek_punct, punct_at, render_found, render_span, span_text,
};
use crate::diagnostic::{Diagnostic, DiagnosticKind, DiagnosticView, failure};
use crate::naming::{companion_module, companion_name};
use crate::recognize::{accepts, recognizes, Syntax};
use crate::syntax::{ItemImpl, Path, path_text, path_view_text, PathSegment, PathView};
use crate::text::{lemma_take_push, str_eq};
use crate::token::{Delimiter, flat, flatten, render_tokens, source_text, Token, tokens, TokenTree};
use crate::transport::{Emitted, EmittedView};
use vstd::prelude::*;
use vstd::string::*;

verus! {

/// The options in front of a generator.
#[derive(Clone, Debug, PartialEq, Eq)]
pub struct Options {
    /// `@__DEBUG_PRINT`: show the output of this command.
    pub debug_print: bool,
    /// `@DEBUG_PRINT_FILLER_OUTPUT`: show the output of the generator.
    pub debug_print_filler_output: bool,
    /// `@MOD_PATH(path)`: where the accompanying module of the trait is found.
    pub mod_path: Option<String>,
}

/// The mathematical content of [`Options`].
pub struct OptionsView {
    pub debug_print: bool,
    pub debug_print_filler_output: bool,
    pub mod_path: Option<Seq<char>>,
}

impl View for Options {
    type V = OptionsView;

    open spec fn view(&self) -> OptionsView {
        OptionsView {
            debug_print: self.debug_print,
            debug_print_filler_output: self.debug_print_filler_output,
            mod_path: match self.mod_path {
                Some(path) => Some(path@),
                None => None,
            },
        }
    }
}

/// No option given.
pub open spec fn no_options() -> OptionsView {
    OptionsView { debug_print: false, debug_print_filler_output: false, mod_path: None }
}

/// The options that are read from `at` on, and where the generator begins. Every option
/// begins with `@`; of two paths to the module the later stands.
pub open spec fn read_options(state: OptionsView, stream: Seq<Token>, at: int) -> Result<
    (OptionsView, int),
    DiagnosticView,
>
    decreases stream.len() - at,
{
    if !punct_at(stream, at, '@') {
        Ok((state, at))
    } else {
        match any_word_at(stream, at + 1) {
            None => Err(failure(DiagnosticKind::UnknownArgument, found_text(stream, at + 1))),
            Some(keyword) => if keyword == "__DEBUG_PRINT"@ {
                read_options(OptionsView { debug_print: true, ..state }, stream, at + 2)
            } else if keyword == "DEBUG_PRINT_FILLER_OUTPUT"@ {
                read_options(
                    OptionsView { debug_print_filler_output: true, ..state },
                    stream,
                    at + 2,
                )
            } else if keyword == "MOD_PATH"@ {
                match group_at(stream, at + 2, Delimiter::Parenthesis) {
                    None => Err(failure(DiagnosticKind::MalformedArgument, keyword)),
                    Some(inner) => if accepts(Syntax::Path, source_text(flat(inner))) {
                        read_options(
                            OptionsView { mod_path: Some(source_text(flat(inner))), ..state },
                            stream,
                            at + 3,
                        )
                    } else {
                        Err(failure(DiagnosticKind::ExpectedPath, source_text(flat(inner))))
                    },
                }
            } else {
                Err(failure(DiagnosticKind::UnknownArgument, keyword))
            },
        }
    }
}

/// The generator that stands at `at`: its path, the arguments in parentheses behind it if
/// there are any, and nothing more.
pub open spec fn read_generator(stream: Seq<Token>, at: int) -> Result<
    (Seq<char>, Option<Seq<char>>),
    DiagnosticView,
> {
    match longest(Syntax::Path, stream, at) {
        None => Err(failure(DiagnosticKind::ExpectedPath, found_text(stream, at))),
        Some(end) => if end >= stream.len() {
            Ok((span_text(stream, at, end), None))
        } else {
            match group_at(stream, end, Delimiter::Parenthesis) {
                None => Err(
                    failure(DiagnosticKind::ExpectedArguments, span_text(stream, at, end)),
                ),
                Some(inner) => if end + 1 < stream.len() {
                    Err(failure(DiagnosticKind::UnexpectedToken, Seq::empty()))
                } else {
                    Ok((span_text(stream, at, end), Some(source_text(inner))))
                },
            }
        },
    }
}

/// The arguments of the command: options, the generator, and the arguments of the
/// generator.
#[derive(Clone, Debug, PartialEq, Eq)]
pub struct Attr {
    pub options: Options,
    /// The path of the generator, as written.
    pub attr_path: String,
    /// The arguments of the generator, as written; `None` where no parentheses follow.
    pub args: Option<String>,
}

/// The mathematical content of an [`Attr`].
pub struct AttrView {
    pub options: OptionsView,
    pub attr_path: Seq<char>,
    pub args: Option<Seq<char>>,
}

impl View for Attr {
    type V = AttrView;

    open spec fn view(&self) -> AttrView {
        AttrView {
            options: self.options@,
            attr_path: self.attr_path@,
            args: match self.args {
                Some(args) => Some(args@),
                None => None,
            },
        }
    }
}

/// What `Attr::parse` returns.
pub open spec fn parsed_attr(input: Seq<Token>) -> Result<AttrView, DiagnosticView> {
    match read_options(no_options(), flat(input), 0) {
        Err(d) => Err(d),
        Ok((options, at)) => match read_generator(flat(input), at) {
            Err(d) => Err(d),
            Ok((attr_path, args)) => Ok(AttrView { options, attr_path, args }),
        },
    }
}

/// Reads the options that begin at `at` of a flat stream.
pub(crate) fn parse_options(stream: &Vec<TokenTree>, at: usize) -> (r: Result<(Options, usize), Diagnostic>)
    requires
        at <= stream.len(),
    ensures
        match r {
            Ok((options, next)) => read_options(no_options(), tokens(stream@), at as int) == Ok::<
                (OptionsView, int),
                DiagnosticView,
            >((options@, next as int)) && next <= stream.len(),
            Err(d) => read_options(no_options(), tokens(stream@), at as int) == Err::<
                (OptionsView, int),
                DiagnosticView,
            >(d@),
        },
{
    let mut state = Options {
        debug_print: false,
        debug_print_filler_output: false,
        mod_path: None,
    };
    let mut i: usize = at;
    while peek_punct(stream, i, '@')
        invariant
            i <= stream.len(),
            read_options(no_options(), tokens(stream@), at as int) == read_options(
                state@,
                tokens(stream@),
                i as int,
            ),
        decreases stream.len() - i,
    {
        let keyword = match peek_any_word(stream, i + 1) {
            Some(keyword) => keyword.as_str(),
            None => {
                return Err(
                    Diagnostic {
                        kind: DiagnosticKind::UnknownArgument,
                        subject: render_found(stream, i + 1),
                    },
                );
            },
        };
        if str_eq(keyword, "__DEBUG_PRINT") {
            state.debug_print = true;
            i = i + 2;
        } else if str_eq(keyword, "DEBUG_PRINT_FILLER_OUTPUT") {
            state.debug_print_filler_output = true;
            i = i + 2;
        } else if str_eq(keyword, "MOD_PATH") {
            let inner = match peek_group(stream, i + 2, Delimiter::Parenthesis) {
                Some(inner) => inner,
                None => {
                    return Err(Diagnostic::new(DiagnosticKind::MalformedArgument, keyword));
                },
            };
            let seen = flatten(inner);
            let path = render_tokens(&seen);
            if !recognizes(Syntax::Path, path.as_str()) {
                return Err(Diagnostic { kind: DiagnosticKind::ExpectedPath, subject: path });
            }
            state.mod_path = Some(path);
            i = i + 3;
        } else {
            return Err(Diagnostic::new(DiagnosticKind::UnknownArgument, keyword));
        }
    }
    Ok((state, i))
}

/// Reads the generator that stands at `at` of a flat stream.
pub(crate) fn parse_generator(stream: &Vec<TokenTree>, at: usize) -> (r: Result<
    (String, Option<String>),
    Diagnostic,
>)
    requires
        at <= stream.len(),
    ensures
        match r {
            Ok((path, args)) => read_generator(tokens(stream@), at as int) == Ok::<
                (Seq<char>, Option<Seq<char>>),
                DiagnosticView,
            >(
                (
                    path@,
                    match args {
                        Some(a) => Some(a@),
                        None => None,
                    },
                ),
            ),
            Err(d) => read_generator(tokens(stream@), at as int) == Err::<
                (Seq<char>, Option<Seq<char>>),
                DiagnosticView,
            >(d@),
        },
{
    let end = match find_longest(Syntax::Path, stream, at) {
        Some(end) => end,
        None => {
            return Err(
                Diagnostic {
                    kind: DiagnosticKind::ExpectedPath,
                    subject: render_found(stream, at),
                },
            );
        },
    };
    let path = render_span(stream, at, end);
    if end >= stream.len() {
        return Ok((path, None));
    }
    let inner = match peek_group(stream, end, Delimiter::Parenthesis) {
        Some(inner) => inner,
        None => {
            return Err(Diagnostic { kind: DiagnosticKind::ExpectedArguments, subject: path });
        },
    };
    if end + 1 < stream.len() {
        let d = Diagnostic::new(DiagnosticKind::UnexpectedToken, "");
        proof {
            reveal_strlit("");
            assert(d@.subject =~= Seq::<char>::empty());
        }
        return Err(d);
    }
    Ok((path, Some(render_tokens(inner))))
}

impl Attr {
    /// Reads the arguments of the command. Invisible groups are seen through.
    pub fn parse(input: &Vec<TokenTree>) -> (r: Result<Attr, Diagnostic>)
        ensures
            crate::syntax::result_view(r) == parsed_attr(tokens(input@)),
    {
        let seen = flatten(input);
        let (options, at) = match parse_options(&seen, 0) {
            Ok(found) => found,
            Err(d) => {
                return Err(d);
            },
        };
        match parse_generator(&seen, at) {
            Ok((attr_path, args)) => Ok(Attr { options, attr_path, args }),
            Err(d) => Err(d),
        }
    }
}

/// The path of the module that accompanies the trait at `path`: the module stands beside
/// the trait, under the trait's name in snake case with `_portrait` behind it, and takes
/// no arguments.
pub open spec fn companion_text(path: PathView) -> Seq<char> {
    if path.segments.len() == 0 {
        path_view_text(path)
    } else {
        path_view_text(PathView { segments: path.segments.drop_last(), ..path }) + (
        if path.segments.len() > 1 {
            "::"@
        } else {
            Seq::empty()
        }) + companion_name(path.segments.last().ident@)
    }
}

/// Writes the path of the module that accompanies the trait at `path`.
pub fn companion_of(path: &Path) -> (r: String)
    ensures
        r@ == companion_text(path@),
{
    let n = path.segments.len();
    if n == 0 {
        return path.to_text();
    }
    let mut front: Vec<PathSegment> = Vec::new();
    let mut i: usize = 0;
    while i < n - 1
        invariant
            n == path.segments.len(),
            n > 0,
            i <= n - 1,
            front@ == path.segments@.take(i as int),
        decreases n - 1 - i,
    {
        front.push(path.segments[i].duplicate());
        proof {
            lemma_take_push(path.segments@, i as int);
        }
        i += 1;
    }
    proof {
        assert(path.segments@.take(n - 1) =~= path.segments@.drop_last());
    }
    let parent = Path { leading_colon: path.leading_colon, segments: front };
    let mut out = parent.to_text();
    if n > 1 {
        out.append("::");
    }
    let name = companion_module(path.segments[n - 1].ident.as_str());
    out.append(name.as_str());
    out
}

/// The word `true` or `false`.
pub open spec fn switch_text(on: bool) -> Seq<char> {
    if on {
        "true"@
    } else {
        "false"@
    }
}

/// The arguments of a generator as written; nothing where there are none.
pub open spec fn args_text(args: Option<Seq<char>>) -> Seq<char> {
    match args {
        Some(text) => text,
        None => Seq::empty(),
    }
}

/// The text of the module path of a command: the given one, or `companion`.
pub open spec fn module_text(options: OptionsView, companion: Seq<char>) -> Seq<char> {
    match options.mod_path {
        Some(path) => path,
        None => companion,
    }
}

/// What the command puts in place of the impl block: with the re-exports of the trait's
/// companion in scope, the template of the trait is invoked with the generator, its
/// arguments, the block as written and the debug switch.
pub open spec fn fill_text(attr: AttrView, target: PathView, item: Seq<char>) -> Seq<char> {
    "const _: () = { use "@ + module_text(attr.options, companion_text(target))
        + "::imports::*; "@ + path_view_text(target) + "! { @TARGET {"@ + attr.attr_path
        + "} @ARGS {"@ + args_text(attr.args) + "} @IMPL {"@ + item
        + "} @DEBUG_PRINT_FILLER_OUTPUT {"@ + switch_text(attr.options.debug_print_filler_output)
        + "} } };"@
}

/// What `run` returns.
pub open spec fn filled(attr: Seq<Token>, item: ItemImpl, text: Seq<char>) -> Result<
    EmittedView,
    DiagnosticView,
> {
    match parsed_attr(attr) {
        Err(d) => Err(d),
        Ok(read) => match item.trait_ {
            None => Err(failure(DiagnosticKind::InherentImpl, item.self_ty@)),
            Some(target) => if target.negated {
                Err(failure(DiagnosticKind::NegativeImpl, path_text(target.path)))
            } else {
                Ok(
                    EmittedView {
                        output: fill_text(read, target.path@, text),
                        debug_print: read.options.debug_print,
                    },
                )
            },
        },
    }
}

/// Writes the debug switch.
pub fn switch_word(on: bool) -> (r: &'static str)
    ensures
        r@ == switch_text(on),
{
    if on {
        "true"
    } else {
        "false"
    }
}

/// Turns an impl block with the command on it into the invocation of the trait's
/// template. `attr` holds the arguments of the command, `text` is the block as written.
/// The trait is read from `item`, and `text` is handed on unread: the caller has the block
/// in both forms, and nothing here holds the one against the other.
///
/// Fails when the arguments are refused, when the block implements no trait, and when it
/// is a negative impl.
pub fn run(attr: &Vec<TokenTree>, item: &ItemImpl, text: &str) -> (r: Result<Emitted, Diagnostic>)
    ensures
        crate::syntax::result_view(r) == filled(tokens(attr@), *item, text@),
{
    let read = match Attr::parse(attr) {
        Ok(read) => read,
        Err(d) => {
            return Err(d);
        },
    };
    let target = match &item.trait_ {
        None => {
            return Err(
                Diagnostic { kind: DiagnosticKind::InherentImpl, subject: item.self_ty.clone() },
            );
        },
        Some(target) => target,
    };
    if target.negated {
        return Err(
            Diagnostic { kind: DiagnosticKind::NegativeImpl, subject: target.path.to_text() },
        );
    }
    let mut out = String::from_str("const _: () = { use ");
    let module = match &read.options.mod_path {
        Some(path) => path.clone(),
        None => companion_of(&target.path),
    };
    out.append(module.as_str());
    out.append("::imports::*; ");
    let path = target.path.to_text();
    out.append(path.as_str());
    out.append("! { @TARGET {");
    out.append(read.attr_path.as_str());
    out.append("} @ARGS {");
    match &read.args {
        Some(args) => {
            out.append(args.as_str());
        },
        None => {},
    }
    out.append("} @IMPL {");
    out.append(text);
    out.append("} @DEBUG_PRINT_FILLER_OUTPUT {");
    out.append(switch_word(read.options.debug_print_filler_output));
    out.append("} } };");
    proof {
        assert(out@ =~= fill_text(read@, target.path@, text@));
    }
    Ok(Emitted { output: out, debug_print: read.options.debug_print })
}

} // verus!
