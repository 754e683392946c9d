//! Deriving an impl block: the template of the trait is invoked with the generator, its
//! arguments and the declaration of the type.

use crate::cursor::{last_accepted, last_true, 
    find_longest, found_text, longest, peek_punct, peek_word, punct_at, render_found, render_span,
    span_text, word_at,
};
use crate::diagnostic::{Diagnostic, DiagnosticKind, DiagnosticView, failure};
use crate::fill::{
    args_text, module_text, no_options, Options, OptionsView, parse_generator, parse_options,
    read_generator, read_options, switch_text, switch_word,
};
use crate::naming::{companion_module, companion_name};
use crate::recognize::{accepts, recognizes, Syntax};
use crate::token::{
    flat, flatten, render_tokens, source_text, strip_attr, stripped, Token, tokens, TokenTree,
};
use crate::transport::{Emitted, EmittedView};
use vstd::prelude::*;
use vstd::string::*;

verus! {

/// Whether the last segment of the path that spans from `from` up to `to` begins at `at`:
/// a word stands there, at the start of the path or behind `::`, and what follows it up to
/// `to` is a path of its own.
pub open spec fn begins_segment(stream: Seq<Token>, from: int, to: int, at: int) -> bool {
    &&& 0 <= from <= at < to <= stream.len()
    &&& stream[at] is Ident
    &&& (at == from || (at >= from + 2 && punct_at(stream, at - 2, ':') && punct_at(
        stream,
        at - 1,
        ':',
    )))
    &&& accepts(Syntax::Path, span_text(stream, at, to))
}

/// Where the last segment of the path that spans from `from` up to `to` begins.
pub open spec fn last_segment(stream: Seq<Token>, from: int, to: int) -> Option<int> {
    match last_true(
        Seq::new((to - from) as nat, |k: int| begins_segment(stream, from, to, from + k)),
        to - from,
    ) {
        Some(k) => Some(from + k),
        None => None,
    }
}

/// The path of the module that accompanies the trait whose path spans from `from` up to
/// `to`: the module stands beside the trait, under the trait's name in snake case with
/// `_portrait` behind it.
pub open spec fn companion_span(stream: Seq<Token>, from: int, to: int) -> Seq<char> {
    match last_segment(stream, from, to) {
        Some(at) => span_text(stream, from, at) + companion_name(stream[at]->Ident_0),
        None => span_text(stream, from, to),
    }
}

fn segment_begins(stream: &Vec<TokenTree>, from: usize, to: usize, at: usize) -> (r: bool)
    requires
        from <= at < to <= stream.len(),
    ensures
        r == begins_segment(tokens(stream@), from as int, to as int, at as int),
{
    proof {
        assert(tokens(stream@)[at as int] == stream@[at as int]@);
    }
    let named = match &stream[at] {
        TokenTree::Ident(_) => true,
        _ => false,
    };
    if !named {
        return false;
    }
    if !(at == from || (at >= from + 2 && peek_punct(stream, at - 2, ':') && peek_punct(
        stream,
        at - 1,
        ':',
    ))) {
        return false;
    }
    let rest = render_span(stream, at, to);
    recognizes(Syntax::Path, rest.as_str())
}

/// Writes the path of the module that accompanies the trait whose path spans from `from`
/// up to `to`.
pub(crate) fn companion_of_span(stream: &Vec<TokenTree>, from: usize, to: usize) -> (r: String)
    requires
        from <= to <= stream.len(),
    ensures
        r@ == companion_span(tokens(stream@), from as int, to as int),
{
    let mut found: Vec<bool> = Vec::new();
    let mut at: usize = from;
    while at < to
        invariant
            from <= at <= to <= stream.len(),
            found@.len() == at - from,
            forall|k: int|
                0 <= k < found@.len() ==> #[trigger] found@[k] == begins_segment(
                    tokens(stream@),
                    from as int,
                    to as int,
                    from + k,
                ),
        decreases to - at,
    {
        found.push(segment_begins(stream, from, to, at));
        at += 1;
    }
    proof {
        assert(found@ =~= Seq::new(
            (to - from) as nat,
            |k: int| begins_segment(tokens(stream@), from as int, to as int, from + k),
        ));
    }
    match last_accepted(&found) {
        None => render_span(stream, from, to),
        Some(k) => {
            let here = from + k;
            proof {
                assert(tokens(stream@)[here as int] == stream@[here as int]@);
            }
            let mut out = render_span(stream, from, here);
            match &stream[here] {
                TokenTree::Ident(name) => {
                    let module = companion_module(name.as_str());
                    out.append(module.as_str());
                },
                _ => {},
            }
            out
        },
    }
}

/// The arguments of the command: options, the trait, the word `with`, the generator, and
/// the arguments of the generator.
#[derive(Clone, Debug, PartialEq, Eq)]
pub struct Attr {
    pub options: Options,
    /// The path of the trait to implement, as written.
    pub trait_path: String,
    /// The path of the module that accompanies the trait.
    pub companion: String,
    /// The path of the generator, as written.
    pub attr_path: String,
    /// The arguments of the generator, as written; `None` where no parentheses follow.
    pub args: Option<String>,
}

/// The mathematical content of an [`Attr`].
pub struct AttrView {
    pub options: OptionsView,
    pub trait_path: Seq<char>,
    pub companion: Seq<char>,
    pub attr_path: Seq<char>,
    pub args: Option<Seq<char>>,
}

impl View for Attr {
    type V = AttrView;

    open spec fn view(&self) -> AttrView {
        AttrView {
            options: self.options@,
            trait_path: self.trait_path@,
            companion: self.companion@,
            attr_path: self.attr_path@,
            args: match self.args {
                Some(args) => Some(args@),
                None => None,
            },
        }
    }
}

/// What `Attr::parse` returns.
pub open spec fn parsed_attr(input: Seq<Token>) -> Result<AttrView, DiagnosticView> {
    let stream = flat(input);
    match read_options(no_options(), stream, 0) {
        Err(d) => Err(d),
        Ok((options, at)) => match longest(Syntax::Path, stream, at) {
            None => Err(failure(DiagnosticKind::ExpectedPath, found_text(stream, at))),
            Some(end) => if !word_at(stream, end, "with"@) {
                Err(failure(DiagnosticKind::ExpectedKeyword, "with"@))
            } else {
                match read_generator(stream, end + 1) {
                    Err(d) => Err(d),
                    Ok((attr_path, args)) => Ok(
                        AttrView {
                            options,
                            trait_path: span_text(stream, at, end),
                            companion: companion_span(stream, at, end),
                            attr_path,
                            args,
                        },
                    ),
                }
            },
        },
    }
}

impl Attr {
    /// Reads the arguments of the command. Invisible groups are seen through.
    pub fn parse(input: &Vec<TokenTree>) -> (r: Result<Attr, Diagnostic>)
        ensures
            crate::syntax::result_view(r) == parsed_attr(tokens(input@)),
    {
        let seen = flatten(input);
        let (options, at) = match parse_options(&seen, 0) {
            Ok(found) => found,
            Err(d) => {
                return Err(d);
            },
        };
        let end = match find_longest(Syntax::Path, &seen, at) {
            Some(end) => end,
            None => {
                return Err(
                    Diagnostic {
                        kind: DiagnosticKind::ExpectedPath,
                        subject: render_found(&seen, at),
                    },
                );
            },
        };
        if !peek_word(&seen, end, "with") {
            return Err(Diagnostic::new(DiagnosticKind::ExpectedKeyword, "with"));
        }
        match parse_generator(&seen, end + 1) {
            Ok((attr_path, args)) => Ok(
                Attr {
                    options,
                    trait_path: render_span(&seen, at, end),
                    companion: companion_of_span(&seen, at, end),
                    attr_path,
                    args,
                },
            ),
            Err(d) => Err(d),
        }
    }
}

/// What the command puts in place of the type declaration: the declaration without the
/// `portrait` attributes on it, and, with the re-exports of the trait's companion in
/// scope, the invocation of the trait's template with the generator, the trait's path,
/// the generator's arguments, the declaration as written and the debug switch.
pub open spec fn derive_text(attr: AttrView, item: Seq<Token>) -> Seq<char> {
    source_text(stripped("portrait"@, item)) + " const _: () = { use "@ + module_text(
        attr.options,
        attr.companion,
    ) + "::imports::*; "@ + attr.trait_path + "! { @TARGET {"@ + attr.attr_path
        + "} @TRAIT_PATH {"@ + attr.trait_path + "} @ARGS {"@ + args_text(attr.args)
        + "} @INPUT {"@ + source_text(item) + "} @DEBUG_PRINT_FILLER_OUTPUT {"@ + switch_text(
        attr.options.debug_print_filler_output,
    ) + "} } };"@
}

/// What `run` returns.
pub open spec fn derived(attr: Seq<Token>, item: Seq<Token>) -> Result<
    EmittedView,
    DiagnosticView,
> {
    match parsed_attr(attr) {
        Err(d) => Err(d),
        Ok(read) => if !accepts(Syntax::DeriveInput, source_text(item)) {
            Err(failure(DiagnosticKind::ExpectedInput, Seq::empty()))
        } else {
            Ok(
                EmittedView {
                    output: derive_text(read, item),
                    debug_print: read.options.debug_print,
                },
            )
        },
    }
}

/// Turns a type declaration with the command on it into the declaration itself and the
/// invocation of the trait's template. `attr` holds the arguments of the command.
///
/// Fails when the arguments are refused, and when the item is no declaration of a struct,
/// an enum or a union.
pub fn run(attr: &Vec<TokenTree>, item: &Vec<TokenTree>) -> (r: Result<Emitted, Diagnostic>)
    ensures
        crate::syntax::result_view(r) == derived(tokens(attr@), tokens(item@)),
{
    let read = match Attr::parse(attr) {
        Ok(read) => read,
        Err(d) => {
            return Err(d);
        },
    };
    let written = render_tokens(item);
    if !recognizes(Syntax::DeriveInput, written.as_str()) {
        let d = Diagnostic::new(DiagnosticKind::ExpectedInput, "");
        proof {
            reveal_strlit("");
            assert(d@.subject =~= Seq::<char>::empty());
        }
        return Err(d);
    }
    let item_stripped = strip_attr("portrait", item);
    let mut out = render_tokens(&item_stripped);
    out.append(" const _: () = { use ");
    match &read.options.mod_path {
        Some(path) => {
            out.append(path.as_str());
        },
        None => {
            out.append(read.companion.as_str());
        },
    }
    out.append("::imports::*; ");
    out.append(read.trait_path.as_str());
    out.append("! { @TARGET {");
    out.append(read.attr_path.as_str());
    out.append("} @TRAIT_PATH {");
    out.append(read.trait_path.as_str());
    out.append("} @ARGS {");
    match &read.args {
        Some(args) => {
            out.append(args.as_str());
        },
        None => {},
    }
    out.append("} @INPUT {");
    out.append(written.as_str());
    out.append("} @DEBUG_PRINT_FILLER_OUTPUT {");
    out.append(switch_word(read.options.debug_print_filler_output));
    out.append("} } };");
    proof {
        assert(out@ =~= derive_text(read@, tokens(item@)));
    }
    Ok(Emitted { output: out, debug_print: read.options.debug_print })
}

} // verus!
