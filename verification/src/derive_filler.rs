//! The input of a generator that derives impl blocks, and the call of the generator.

use crate::diagnostic::{Diagnostic, DiagnosticKind, DiagnosticView};
use crate::recognize::{accepts, recognizes, Syntax};
use crate::syntax::{DeriveInput, Path, TraitItem};
use crate::token::{flat, flatten, render_tokens, source_text, Token, tokens, TokenTree};
use crate::transport::{
    all_visible, captured_members, check_end, debug_switch, Emitted, forwarded_derive,
    lemma_flat_visible, lemma_members_round_trip, lemma_switch_round_trip, Parse, read_switch,
    section, split_members, streams, take_section, trailing,
};
use vstd::prelude::*;
use vstd::string::*;

verus! {

/// What a template hands to a generator, taken apart into its sections.
pub struct RawInput<ArgsT> {
    /// The declaration of every member of the trait, as captured.
    pub portrait: Vec<Vec<TokenTree>>,
    /// The path by which the trait is named.
    pub trait_path: Vec<TokenTree>,
    /// The arguments of the generator.
    pub args: ArgsT,
    /// The declaration of the type to derive for.
    pub input: Vec<TokenTree>,
    /// Whether the output is to be shown.
    pub debug_print: bool,
}

/// The mathematical content of a [`RawInput`].
pub struct RawInputView<A> {
    pub portrait: Seq<Seq<Token>>,
    pub trait_path: Seq<Token>,
    pub args: A,
    pub input: Seq<Token>,
    pub debug_print: bool,
}

impl<ArgsT: Parse> View for RawInput<ArgsT> {
    type V = RawInputView<ArgsT::V>;

    open spec fn view(&self) -> RawInputView<ArgsT::V> {
        RawInputView {
            portrait: streams(self.portrait@),
            trait_path: tokens(self.trait_path@),
            args: self.args@,
            input: tokens(self.input@),
            debug_print: self.debug_print,
        }
    }
}

/// The sections of a generator's input, or the first thing that is wrong with it. The
/// sections stand in this order, each in braces behind its keyword: `TRAIT_PORTRAIT`,
/// `TRAIT_PATH`, `ARGS`, `INPUT`, `DEBUG_PRINT_FILLER_OUTPUT`. Each captured member has to
/// be one member declaration of a trait, the trait path a path, the arguments what the
/// generator takes, and the input the declaration of a struct, an enum or a union.
pub open spec fn parsed_input<ArgsT: Parse>(stream: Seq<Token>) -> Result<
    RawInputView<ArgsT::V>,
    DiagnosticView,
> {
    let seen = flat(stream);
    match section(seen, 0, "TRAIT_PORTRAIT"@) {
        Err(d) => Err(d),
        Ok(captured) => match captured_members(captured) {
            Err(d) => Err(d),
            Ok(portrait) => match path_section(seen) {
                Err(d) => Err(d),
                Ok(trait_path) => match section(seen, 4, "ARGS"@) {
                    Err(d) => Err(d),
                    Ok(given) => match ArgsT::parsed(given) {
                        Err(d) => Err(d),
                        Ok(args) => match input_section(seen) {
                            Err(d) => Err(d),
                            Ok(input) => match section(seen, 8, "DEBUG_PRINT_FILLER_OUTPUT"@) {
                                Err(d) => Err(d),
                                Ok(switch) => match debug_switch(switch) {
                                    Err(d) => Err(d),
                                    Ok(debug_print) => match trailing(seen, 5) {
                                        Some(d) => Err(d),
                                        None => Ok(
                                            RawInputView {
                                                portrait,
                                                trait_path,
                                                args,
                                                input,
                                                debug_print,
                                            },
                                        ),
                                    },
                                },
                            },
                        },
                    },
                },
            },
        },
    }
}

/// The path in the `TRAIT_PATH` section.
pub open spec fn path_section(seen: Seq<Token>) -> Result<Seq<Token>, DiagnosticView> {
    match section(seen, 2, "TRAIT_PATH"@) {
        Err(d) => Err(d),
        Ok(trait_path) => if accepts(Syntax::Path, source_text(trait_path)) {
            Ok(trait_path)
        } else {
            Err(
                DiagnosticView {
                    kind: DiagnosticKind::ExpectedPath,
                    subject: source_text(trait_path),
                },
            )
        },
    }
}

/// The type declaration in the `INPUT` section.
pub open spec fn input_section(seen: Seq<Token>) -> Result<Seq<Token>, DiagnosticView> {
    match section(seen, 6, "INPUT"@) {
        Err(d) => Err(d),
        Ok(input) => if accepts(Syntax::DeriveInput, source_text(input)) {
            Ok(input)
        } else {
            Err(DiagnosticView { kind: DiagnosticKind::ExpectedInput, subject: Seq::empty() })
        },
    }
}

impl<ArgsT: Parse> RawInput<ArgsT> {
    /// Takes the input of a generator apart.
    pub fn parse(input: &Vec<TokenTree>) -> (r: Result<RawInput<ArgsT>, Diagnostic>)
        ensures
            match r {
                Ok(parsed) => parsed_input::<ArgsT>(tokens(input@)) == Ok::<
                    RawInputView<ArgsT::V>,
                    DiagnosticView,
                >(parsed@),
                Err(d) => parsed_input::<ArgsT>(tokens(input@)) == Err::<
                    RawInputView<ArgsT::V>,
                    DiagnosticView,
                >(d@),
            },
    {
        let seen = flatten(input);
        let captured = match take_section(&seen, 0, "TRAIT_PORTRAIT") {
            Ok(captured) => captured,
            Err(d) => {
                return Err(d);
            },
        };
        let portrait = match split_members(captured) {
            Ok(portrait) => portrait,
            Err(d) => {
                return Err(d);
            },
        };
        let trait_path = match take_section(&seen, 2, "TRAIT_PATH") {
            Ok(trait_path) => trait_path,
            Err(d) => {
                return Err(d);
            },
        };
        let path_written = render_tokens(trait_path);
        if !recognizes(Syntax::Path, path_written.as_str()) {
            return Err(Diagnostic { kind: DiagnosticKind::ExpectedPath, subject: path_written });
        }
        let given = match take_section(&seen, 4, "ARGS") {
            Ok(given) => given,
            Err(d) => {
                return Err(d);
            },
        };
        let args = match ArgsT::parse(given) {
            Ok(args) => args,
            Err(d) => {
                return Err(d);
            },
        };
        let item = match take_section(&seen, 6, "INPUT") {
            Ok(item) => item,
            Err(d) => {
                return Err(d);
            },
        };
        let written = render_tokens(item);
        if !recognizes(Syntax::DeriveInput, written.as_str()) {
            let d = Diagnostic::new(DiagnosticKind::ExpectedInput, "");
            proof {
                reveal_strlit("");
                assert(d@.subject =~= Seq::<char>::empty());
            }
            return Err(d);
        }
        let switch = match take_section(&seen, 8, "DEBUG_PRINT_FILLER_OUTPUT") {
            Ok(switch) => switch,
            Err(d) => {
                return Err(d);
            },
        };
        let debug_print = match read_switch(switch) {
            Ok(debug_print) => debug_print,
            Err(d) => {
                return Err(d);
            },
        };
        match check_end(&seen, 5) {
            Ok(()) => {},
            Err(d) => {
                return Err(d);
            },
        }
        Ok(
            RawInput {
                portrait,
                trait_path: crate::token::duplicate_tokens(trait_path),
                args,
                input: crate::token::duplicate_tokens(item),
                debug_print,
            },
        )
    }
}

/// A generator receives from a template exactly the members that were captured, in their
/// order and unchanged, and with them what the caller passed.
///
/// This holds where every captured member is one member declaration of a trait, the trait
/// path is a path, the arguments are what the generator takes, and the input is the
/// declaration of a struct, an enum or a union.
pub proof fn template_delivers_members<ArgsT: Parse>(
    members: Seq<Seq<Token>>,
    trait_path: Seq<Token>,
    given: Seq<Token>,
    input: Seq<Token>,
    debug_print: bool,
)
    requires
        forall|i: int|
            0 <= i < members.len() ==> accepts(Syntax::TraitItem, source_text(#[trigger] members[i])),
        accepts(Syntax::Path, source_text(trait_path)),
        ArgsT::parsed(given) is Ok,
        accepts(Syntax::DeriveInput, source_text(input)),
    ensures
        parsed_input::<ArgsT>(forwarded_derive(members, trait_path, given, input, debug_print))
            == Ok::<RawInputView<ArgsT::V>, DiagnosticView>(
            RawInputView {
                portrait: members,
                trait_path,
                args: ArgsT::parsed(given)->Ok_0,
                input,
                debug_print,
            },
        ),
{
    let stream = forwarded_derive(members, trait_path, given, input, debug_print);
    assert(all_visible(stream));
    lemma_flat_visible(stream, stream.len());
    assert(stream.take(stream.len() as int) =~= stream);
    lemma_members_round_trip(members);
    lemma_switch_round_trip(debug_print);
}

/// The input of a generator with every section read.
pub struct Input<ArgsT> {
    /// The path by which the trait is named.
    pub trait_path: Path,
    /// The members of the trait, in declaration order.
    pub portrait: Vec<TraitItem>,
    /// The arguments of the generator.
    pub args: ArgsT,
    /// The declaration of the type to derive for.
    pub input: DeriveInput,
    /// Whether the output is to be shown.
    pub debug_print: bool,
}

/// Determines how to derive an impl block.
pub trait FillDerive: Sized {
    /// The arguments passed to the filler.
    type Args;

    /// What `fill` returns.
    spec fn filled(
        self,
        trait_path: &Path,
        portrait: &Vec<TraitItem>,
        args: Self::Args,
        input: &DeriveInput,
    ) -> Result<Seq<char>, DiagnosticView>;

    /// Derives the impl block given the members of the trait and the declared type.
    fn fill(
        self,
        trait_path: &Path,
        portrait: &Vec<TraitItem>,
        args: Self::Args,
        input: &DeriveInput,
    ) -> (r: Result<String, Diagnostic>)
        ensures
            crate::syntax::result_view(r) == self.filled(trait_path, portrait, args, input),
    ;
}

/// Passes the sections of the input to the filler, and returns what the filler made
/// together with the debug switch of the input.
pub fn derive_filler<FillerT: FillDerive>(input: Input<FillerT::Args>, filler: FillerT) -> (r:
    Result<Emitted, Diagnostic>)
    ensures
        match r {
            Ok(filled) => filler.filled(
                &input.trait_path,
                &input.portrait,
                input.args,
                &input.input,
            ) == Ok::<Seq<char>, DiagnosticView>(filled.output@) && filled.debug_print
                == input.debug_print,
            Err(d) => filler.filled(&input.trait_path, &input.portrait, input.args, &input.input)
                == Err::<Seq<char>, DiagnosticView>(d@),
        },
{
    let Input { trait_path, portrait, args, input, debug_print } = input;
    match filler.fill(&trait_path, &portrait, args, &input) {
        Ok(output) => Ok(Emitted { output, debug_print }),
        Err(d) => Err(d),
    }
}

} // verus!
