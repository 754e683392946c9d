//! The capture of a trait: beside the trait itself stand a template that holds its members
//! and a module that re-exports what the members name.

use crate::cursor::{found_text, render_found, 
    any_word_at, group_at, listed, peek_any_word, peek_group, peek_punct, punct_at, read_list,
    render_span, span_text,
};
use crate::diagnostic::{Diagnostic, DiagnosticKind, DiagnosticView, failure};
use crate::naming::{alias_name, companion_module, companion_name, fresh_alias};
use crate::recognize::{is_identifier, recognizes, Syntax};
use crate::syntax::{Path, path_is_ident};
use crate::text::{concat, lemma_concat_push, lemma_take_push, lemma_views_push, str_eq, views};
use crate::token::{Delimiter, flat, flatten, Token, tokens, TokenTree};
use crate::transport::{Emitted, EmittedView, streams, Template, template_text};
use crate::util::{Once, parse_args, ParseArgs, parsed_args};
use vstd::prelude::*;
use vstd::string::*;

verus! {

/// The scope in which an item is visible.
#[derive(Clone, Debug, PartialEq, Eq)]
pub enum Scope {
    /// `pub`
    Public,
    /// No visibility written.
    Inherited,
    /// `pub(path)`, or `pub(in path)` where `in_token` holds.
    Restricted { in_token: bool, path: Path },
}

/// The visibility of an item.
#[derive(Clone, Debug, PartialEq, Eq)]
pub struct Visibility {
    pub scope: Scope,
    /// The visibility as written; empty where none is written.
    pub text: String,
}

/// The declaration of a trait.
pub struct ItemTrait {
    pub vis: Visibility,
    pub ident: String,
    /// The whole declaration as written.
    pub text: String,
    /// The declaration of every member, in order.
    pub items: Vec<Vec<TokenTree>>,
    /// Every path that occurs in the members, in the order of their occurrence.
    pub paths: Vec<Path>,
}

/// The options of a capture.
#[derive(Debug, PartialEq, Eq)]
pub struct ItemArgs {
    /// `__debug_print`: show the output.
    pub debug_print: Once<bool>,
    /// `name = ident`: the name of the accompanying module.
    pub name: Once<String>,
    /// `import(paths)`: what the accompanying module re-exports.
    pub imports: Vec<String>,
    /// `auto_imports`: re-export also what the paths in the members begin with.
    pub auto_imports: Once<bool>,
}

/// The mathematical content of [`ItemArgs`].
pub struct ItemArgsView {
    pub debug_print: Option<bool>,
    pub name: Option<Seq<char>>,
    pub imports: Seq<Seq<char>>,
    pub auto_imports: Option<bool>,
}

impl View for ItemArgs {
    type V = ItemArgsView;

    open spec fn view(&self) -> ItemArgsView {
        ItemArgsView {
            debug_print: self.debug_print.0,
            name: match self.name.0 {
                Some(n) => Some(n@),
                None => None,
            },
            imports: views(self.imports@),
            auto_imports: self.auto_imports.0,
        }
    }
}

/// The identifier that `name = ident` at `at` holds.
pub open spec fn assigned_name(stream: Seq<Token>, at: int) -> Option<Seq<char>> {
    if !punct_at(stream, at + 1, '=') {
        None
    } else {
        match any_word_at(stream, at + 2) {
            Some(word) => if is_identifier(word) {
                Some(word)
            } else {
                None
            },
            None => None,
        }
    }
}

impl ParseArgs for ItemArgs {
    open spec fn initial() -> ItemArgsView {
        ItemArgsView { debug_print: None, name: None, imports: Seq::empty(), auto_imports: None }
    }

    open spec fn parsed(state: ItemArgsView, stream: Seq<Token>, at: int) -> Result<
        (ItemArgsView, int),
        DiagnosticView,
    > {
        match any_word_at(stream, at) {
            None => Err(failure(DiagnosticKind::UnknownArgument, found_text(stream, at))),
            Some(key) => if key == "__debug_print"@ {
                if state.debug_print is Some {
                    Err(failure(DiagnosticKind::ArgumentSetTwice, key))
                } else {
                    Ok((ItemArgsView { debug_print: Some(true), ..state }, at + 1))
                }
            } else if key == "name"@ {
                match assigned_name(stream, at) {
                    None => Err(failure(DiagnosticKind::MalformedArgument, key)),
                    Some(name) => if state.name is Some {
                        Err(failure(DiagnosticKind::ArgumentSetTwice, key))
                    } else {
                        Ok((ItemArgsView { name: Some(name), ..state }, at + 3))
                    },
                }
            } else if key == "import"@ {
                match group_at(stream, at + 1, Delimiter::Parenthesis) {
                    None => Err(failure(DiagnosticKind::MalformedArgument, key)),
                    Some(inner) => match listed(Syntax::UseTree, flat(inner), 0, state.imports) {
                        Err(d) => Err(d),
                        Ok(imports) => Ok((ItemArgsView { imports, ..state }, at + 2)),
                    },
                }
            } else if key == "auto_imports"@ {
                if state.auto_imports is Some {
                    Err(failure(DiagnosticKind::ArgumentSetTwice, key))
                } else {
                    Ok((ItemArgsView { auto_imports: Some(true), ..state }, at + 1))
                }
            } else {
                Err(failure(DiagnosticKind::UnknownArgument, key))
            },
        }
    }

    fn empty() -> (r: ItemArgs) {
        let r = ItemArgs {
            debug_print: Once(None),
            name: Once(None),
            imports: Vec::new(),
            auto_imports: Once(None),
        };
        proof {
            assert(views(r.imports@) =~= Seq::<Seq<char>>::empty());
        }
        r
    }

    fn parse_once(&mut self, stream: &Vec<TokenTree>, at: usize) -> (r: Result<usize, Diagnostic>) {
        let key = match peek_any_word(stream, at) {
            Some(key) => key.as_str(),
            None => {
                return Err(
                    Diagnostic {
                        kind: DiagnosticKind::UnknownArgument,
                        subject: render_found(stream, at),
                    },
                );
            },
        };
        if str_eq(key, "__debug_print") {
            match self.debug_print.set(true, key) {
                Ok(()) => Ok(at + 1),
                Err(d) => Err(d),
            }
        } else if str_eq(key, "name") {
            if !peek_punct(stream, at + 1, '=') {
                return Err(Diagnostic::new(DiagnosticKind::MalformedArgument, key));
            }
            let name = match peek_any_word(stream, at + 2) {
                Some(name) => name,
                None => {
                    return Err(Diagnostic::new(DiagnosticKind::MalformedArgument, key));
                },
            };
            if !recognizes(Syntax::Ident, name.as_str()) {
                return Err(Diagnostic::new(DiagnosticKind::MalformedArgument, key));
            }
            match self.name.set(name.clone(), key) {
                Ok(()) => Ok(at + 3),
                Err(d) => Err(d),
            }
        } else if str_eq(key, "import") {
            let inner = match peek_group(stream, at + 1, Delimiter::Parenthesis) {
                Some(inner) => inner,
                None => {
                    return Err(Diagnostic::new(DiagnosticKind::MalformedArgument, key));
                },
            };
            let seen = flatten(inner);
            match read_list(Syntax::UseTree, &seen, 0, &mut self.imports) {
                Ok(()) => Ok(at + 2),
                Err(d) => Err(d),
            }
        } else if str_eq(key, "auto_imports") {
            match self.auto_imports.set(true, key) {
                Ok(()) => Ok(at + 1),
                Err(d) => Err(d),
            }
        } else {
            Err(Diagnostic::new(DiagnosticKind::UnknownArgument, key))
        }
    }
}

/// What the first `n` paths begin with: the first segment of every path without a leading
/// colon, each name once, in the order of first occurrence.
pub open spec fn path_heads(paths: Seq<Path>, n: nat) -> Seq<Seq<char>>
    decreases n,
{
    if n == 0 {
        Seq::empty()
    } else {
        let before = path_heads(paths, (n - 1) as nat);
        let path = paths[n - 1];
        if path.leading_colon || path.segments@.len() == 0 || before.contains(
            path.segments@[0].ident@,
        ) {
            before
        } else {
            before.push(path.segments@[0].ident@)
        }
    }
}

/// What the accompanying module re-exports: the listed imports, and with `auto_imports`
/// also every name that a path in the members begins with, looked up beside the trait.
pub open spec fn all_imports(args: ItemArgsView, paths: Seq<Path>) -> Seq<Seq<char>> {
    if args.auto_imports == Some(true) {
        args.imports + path_heads(paths, paths.len()).map_values(
            |head: Seq<char>| "super::super::"@ + head,
        )
    } else {
        args.imports
    }
}

/// The visibility of the re-exports, which stand two modules below the trait.
pub open spec fn import_visibility(vis: Visibility) -> Result<Seq<char>, DiagnosticView> {
    match vis.scope {
        Scope::Inherited => Ok("pub(in super::super)"@),
        Scope::Public => Ok(vis.text@),
        Scope::Restricted { in_token, path } => if in_token {
            Ok(vis.text@)
        } else if path_is_ident(path, "self"@) {
            Ok("pub(in super::super)"@)
        } else if path_is_ident(path, "super"@) {
            Ok("pub(in super::super::super)"@)
        } else if path_is_ident(path, "crate"@) {
            Ok(vis.text@)
        } else {
            Err(failure(DiagnosticKind::InvalidVisibility, vis.text@))
        },
    }
}

/// The attributes that export the template of a public trait.
pub open spec fn export_text(vis: Visibility) -> Seq<char> {
    if vis.scope is Public {
        "#[doc(hidden)] #[macro_export] "@
    } else {
        Seq::empty()
    }
}

/// The re-exports as they stand in the accompanying module.
pub open spec fn imports_text(visibility: Seq<char>, imports: Seq<Seq<char>>) -> Seq<char> {
    concat(imports.map_values(|import: Seq<char>| visibility + " use "@ + import + "; "@))
}

/// The name of the accompanying module: the given one, or the trait's name in snake case
/// with `_portrait` behind it.
pub open spec fn module_name(args: ItemArgsView, ident: Seq<char>) -> Seq<char> {
    match args.name {
        Some(name) => name,
        None => companion_name(ident),
    }
}

/// What the capture of a trait puts in its place: the trait, the template under the name
/// `alias`, the template again under the name of the trait, and the accompanying module.
pub open spec fn capture_text(
    item: ItemTrait,
    args: ItemArgsView,
    alias: Seq<char>,
    visibility: Seq<char>,
) -> Seq<char> {
    item.text@ + " "@ + export_text(item.vis) + template_text(alias, streams(item.items@))
        + " #[allow(non_snake_case)] "@ + item.vis.text@ + " use "@ + alias + " as "@ + item.ident@
        + "; #[allow(non_snake_case)] "@ + item.vis.text@ + " mod "@ + module_name(
        args,
        item.ident@,
    ) + " { pub mod imports { "@ + imports_text(visibility, all_imports(args, item.paths@))
        + "} }"@
}

/// What `run_with` returns.
pub open spec fn captured(item: ItemTrait, attr: Seq<Token>, alias: Seq<char>) -> Result<
    EmittedView,
    DiagnosticView,
> {
    match parsed_args::<ItemArgs>(ItemArgs::initial(), flat(attr), 0) {
        Err(d) => Err(d),
        Ok(args) => match import_visibility(item.vis) {
            Err(d) => Err(d),
            Ok(visibility) => Ok(
                EmittedView {
                    output: capture_text(item, args, alias, visibility),
                    debug_print: args.debug_print == Some(true),
                },
            ),
        },
    }
}

fn has_string(list: &Vec<String>, text: &str) -> (r: bool)
    ensures
        r == views(list@).contains(text@),
{
    let mut i: usize = 0;
    while i < list.len()
        invariant
            i <= list.len(),
            forall|k: int| 0 <= k < i ==> views(list@)[k] != text@,
        decreases list.len() - i,
    {
        if str_eq(list[i].as_str(), text) {
            proof {
                assert(views(list@)[i as int] == text@);
            }
            return true;
        }
        i += 1;
    }
    false
}

fn collect_heads(paths: &Vec<Path>) -> (r: Vec<String>)
    ensures
        views(r@) == path_heads(paths@, paths@.len()),
{
    let mut heads: Vec<String> = Vec::new();
    let mut i: usize = 0;
    proof {
        assert(views(heads@) =~= Seq::<Seq<char>>::empty());
    }
    while i < paths.len()
        invariant
            i <= paths.len(),
            views(heads@) == path_heads(paths@, i as nat),
        decreases paths.len() - i,
    {
        let path = &paths[i];
        if !path.leading_colon && path.segments.len() > 0 {
            let head = &path.segments[0].ident;
            if !has_string(&heads, head.as_str()) {
                let copy = head.clone();
                proof {
                    lemma_views_push(heads@, copy);
                }
                heads.push(copy);
            }
        }
        i += 1;
    }
    heads
}

fn import_vis(vis: &Visibility) -> (r: Result<String, Diagnostic>)
    ensures
        crate::syntax::result_view(r) == import_visibility(*vis),
{
    match &vis.scope {
        Scope::Inherited => Ok(String::from_str("pub(in super::super)")),
        Scope::Public => Ok(vis.text.clone()),
        Scope::Restricted { in_token, path } => {
            if *in_token {
                Ok(vis.text.clone())
            } else if path.is_ident("self") {
                Ok(String::from_str("pub(in super::super)"))
            } else if path.is_ident("super") {
                Ok(String::from_str("pub(in super::super::super)"))
            } else if path.is_ident("crate") {
                Ok(vis.text.clone())
            } else {
                Err(
                    Diagnostic {
                        kind: DiagnosticKind::InvalidVisibility,
                        subject: vis.text.clone(),
                    },
                )
            }
        },
    }
}

fn gather_imports(listed: Vec<String>, automatic: bool, paths: &Vec<Path>) -> (r: Vec<String>)
    ensures
        views(r@) == if automatic {
            views(listed@) + path_heads(paths@, paths@.len()).map_values(
                |head: Seq<char>| "super::super::"@ + head,
            )
        } else {
            views(listed@)
        },
{
    let mut imports = listed;
    if automatic {
        let heads = collect_heads(paths);
        let ghost start = views(imports@);
        let ghost added = views(heads@).map_values(|head: Seq<char>| "super::super::"@ + head);
        let mut i: usize = 0;
        proof {
            assert(start + added.take(0) =~= start);
        }
        while i < heads.len()
            invariant
                i <= heads.len(),
                added == views(heads@).map_values(|head: Seq<char>| "super::super::"@ + head),
                views(imports@) == start + added.take(i as int),
            decreases heads.len() - i,
        {
            let mut import = String::from_str("super::super::");
            import.append(heads[i].as_str());
            proof {
                lemma_views_push(imports@, import);
                lemma_take_push(added, i as int);
                assert(start + added.take(i as int + 1) =~= (start + added.take(i as int)).push(
                    added[i as int],
                ));
            }
            imports.push(import);
            i += 1;
        }
        proof {
            assert(added.take(heads.len() as int) =~= added);
        }
    }
    imports
}

fn render_imports(visibility: &str, imports: &Vec<String>) -> (r: String)
    ensures
        r@ == imports_text(visibility@, views(imports@)),
{
    let ghost parts = views(imports@).map_values(
        |import: Seq<char>| visibility@ + " use "@ + import + "; "@,
    );
    let mut out = String::new();
    let mut i: usize = 0;
    while i < imports.len()
        invariant
            i <= imports.len(),
            parts == views(imports@).map_values(
                |import: Seq<char>| visibility@ + " use "@ + import + "; "@,
            ),
            out@ == concat(parts.take(i as int)),
        decreases imports.len() - i,
    {
        out.append(visibility);
        out.append(" use ");
        out.append(imports[i].as_str());
        out.append("; ");
        proof {
            lemma_take_push(parts, i as int);
            lemma_concat_push(parts.take(i as int), parts[i as int]);
            assert(out@ =~= concat(parts.take(i as int)) + parts[i as int]);
        }
        i += 1;
    }
    proof {
        assert(parts.take(imports.len() as int) =~= parts);
    }
    out
}

/// What a switch is where it was not given.
fn off() -> (r: bool)
    ensures
        !r,
{
    false
}

/// Captures a trait in a template called `alias`.
///
/// Fails when an option is refused, or when the visibility of the trait names a scope
/// from which nothing can be re-exported.
pub fn run_with(item: &ItemTrait, attr: &Vec<TokenTree>, alias: &str) -> (r: Result<
    Emitted,
    Diagnostic,
>)
    ensures
        crate::syntax::result_view(r) == captured(*item, tokens(attr@), alias@),
{
    let mut args = ItemArgs::empty();
    match parse_args(attr, &mut args) {
        Ok(()) => {},
        Err(d) => {
            return Err(d);
        },
    }
    let ghost read = args@;
    let ItemArgs { debug_print, name, imports, auto_imports } = args;
    let mod_name = match name.try_get() {
        Some(name) => name,
        None => companion_module(item.ident.as_str()),
    };
    let automatic = auto_imports.get_or(off);
    let imports = gather_imports(imports, automatic, &item.paths);
    let visibility = match import_vis(&item.vis) {
        Ok(visibility) => visibility,
        Err(d) => {
            return Err(d);
        },
    };
    let template = Template::capture(alias, &item.items);
    let mut out = item.text.clone();
    out.append(" ");
    match &item.vis.scope {
        Scope::Public => {
            out.append("#[doc(hidden)] #[macro_export] ");
        },
        _ => {},
    }
    let definition = template.definition();
    out.append(definition.as_str());
    out.append(" #[allow(non_snake_case)] ");
    out.append(item.vis.text.as_str());
    out.append(" use ");
    out.append(alias);
    out.append(" as ");
    out.append(item.ident.as_str());
    out.append("; #[allow(non_snake_case)] ");
    out.append(item.vis.text.as_str());
    out.append(" mod ");
    out.append(mod_name.as_str());
    out.append(" { pub mod imports { ");
    let listed = render_imports(visibility.as_str(), &imports);
    out.append(listed.as_str());
    out.append("} }");
    proof {
        assert(out@ =~= capture_text(*item, read, alias@, visibility@));
    }
    let shown = debug_print.get_or(off);
    Ok(Emitted { output: out, debug_print: shown })
}

/// Captures a trait in a template with a name of its own, made from a random number.
pub fn run(item: &ItemTrait, attr: &Vec<TokenTree>) -> (r: Result<Emitted, Diagnostic>)
    ensures
        exists|nonce: u128|
            crate::syntax::result_view(r) == captured(*item, tokens(attr@), alias_name(nonce)),
{
    let alias = fresh_alias();
    run_with(item, attr, alias.as_str())
}

} // verus!
