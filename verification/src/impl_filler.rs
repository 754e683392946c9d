//! The input of a generator that completes impl blocks, and the call of the generator.

use crate::diagnostic::{Diagnostic, DiagnosticKind, DiagnosticView};
use crate::recognize::{accepts, recognizes, Syntax};
use crate::syntax::{ItemImpl, TraitItem};
use crate::token::{flat, flatten, render_tokens, source_text, Token, tokens, TokenTree};
use crate::transport::{
    all_visible, captured_members, check_end, debug_switch, Emitted, forwarded_impl,
    lemma_flat_visible, lemma_members_round_trip, lemma_switch_round_trip, Parse, read_switch,
    section, split_members, streams, take_section, trailing,
};
use vstd::prelude::*;
use vstd::string::*;

verus! {

/// What a template hands to a generator, taken apart into its sections.
pub struct RawInput<ArgsT> {
    /// The declaration of every member of the trait, as captured.
    pub portrait: Vec<Vec<TokenTree>>,
    /// The arguments of the generator.
    pub args: ArgsT,
    /// The impl block to complete.
    pub item_impl: Vec<TokenTree>,
    /// Whether the output is to be shown.
    pub debug_print: bool,
}

/// The mathematical content of a [`RawInput`].
pub struct RawInputView<A> {
    pub portrait: Seq<Seq<Token>>,
    pub args: A,
    pub item_impl: Seq<Token>,
    pub debug_print: bool,
}

impl<ArgsT: Parse> View for RawInput<ArgsT> {
    type V = RawInputView<ArgsT::V>;

    open spec fn view(&self) -> RawInputView<ArgsT::V> {
        RawInputView {
            portrait: streams(self.portrait@),
            args: self.args@,
            item_impl: tokens(self.item_impl@),
            debug_print: self.debug_print,
        }
    }
}

/// The sections of a generator's input, or the first thing that is wrong with it. The
/// sections stand in this order, each in braces behind its keyword: `TRAIT_PORTRAIT`,
/// `ARGS`, `IMPL`, `DEBUG_PRINT_FILLER_OUTPUT`. Each captured member has to be one member
/// declaration of a trait, the arguments what the generator takes, and the impl block an
/// impl block.
pub open spec fn parsed_input<ArgsT: Parse>(stream: Seq<Token>) -> Result<
    RawInputView<ArgsT::V>,
    DiagnosticView,
> {
    let seen = flat(stream);
    match section(seen, 0, "TRAIT_PORTRAIT"@) {
        Err(d) => Err(d),
        Ok(captured) => match captured_members(captured) {
            Err(d) => Err(d),
            Ok(portrait) => match section(seen, 2, "ARGS"@) {
                Err(d) => Err(d),
                Ok(given) => match ArgsT::parsed(given) {
                    Err(d) => Err(d),
                    Ok(args) => match impl_section(seen) {
                        Err(d) => Err(d),
                        Ok(item_impl) => match section(seen, 6, "DEBUG_PRINT_FILLER_OUTPUT"@) {
                            Err(d) => Err(d),
                            Ok(switch) => match debug_switch(switch) {
                                Err(d) => Err(d),
                                Ok(debug_print) => match trailing(seen, 4) {
                                    Some(d) => Err(d),
                                    None => Ok(
                                        RawInputView { portrait, args, item_impl, debug_print },
                                    ),
                                },
                            },
                        },
                    },
                },
            },
        },
    }
}

/// The impl block in the `IMPL` section.
pub open spec fn impl_section(seen: Seq<Token>) -> Result<Seq<Token>, DiagnosticView> {
    match section(seen, 4, "IMPL"@) {
        Err(d) => Err(d),
        Ok(item_impl) => if accepts(Syntax::ItemImpl, source_text(item_impl)) {
            Ok(item_impl)
        } else {
            Err(DiagnosticView { kind: DiagnosticKind::ExpectedImpl, subject: Seq::empty() })
        },
    }
}

impl<ArgsT: Parse> RawInput<ArgsT> {
    /// Takes the input of a generator apart.
    pub fn parse(input: &Vec<TokenTree>) -> (r: Result<RawInput<ArgsT>, Diagnostic>)
        ensures
            match r {
                Ok(parsed) => parsed_input::<ArgsT>(tokens(input@)) == Ok::<
                    RawInputView<ArgsT::V>,
                    DiagnosticView,
                >(parsed@),
                Err(d) => parsed_input::<ArgsT>(tokens(input@)) == Err::<
                    RawInputView<ArgsT::V>,
                    DiagnosticView,
                >(d@),
            },
    {
        let seen = flatten(input);
        let captured = match take_section(&seen, 0, "TRAIT_PORTRAIT") {
            Ok(captured) => captured,
            Err(d) => {
                return Err(d);
            },
        };
        let portrait = match split_members(captured) {
            Ok(portrait) => portrait,
            Err(d) => {
                return Err(d);
            },
        };
        let given = match take_section(&seen, 2, "ARGS") {
            Ok(given) => given,
            Err(d) => {
                return Err(d);
            },
        };
        let args = match ArgsT::parse(given) {
            Ok(args) => args,
            Err(d) => {
                return Err(d);
            },
        };
        let item_impl = match take_section(&seen, 4, "IMPL") {
            Ok(item_impl) => item_impl,
            Err(d) => {
                return Err(d);
            },
        };
        let written = render_tokens(item_impl);
        if !recognizes(Syntax::ItemImpl, written.as_str()) {
            let d = Diagnostic::new(DiagnosticKind::ExpectedImpl, "");
            proof {
                reveal_strlit("");
                assert(d@.subject =~= Seq::<char>::empty());
            }
            return Err(d);
        }
        let switch = match take_section(&seen, 6, "DEBUG_PRINT_FILLER_OUTPUT") {
            Ok(switch) => switch,
            Err(d) => {
                return Err(d);
            },
        };
        let debug_print = match read_switch(switch) {
            Ok(debug_print) => debug_print,
            Err(d) => {
                return Err(d);
            },
        };
        match check_end(&seen, 4) {
            Ok(()) => {},
            Err(d) => {
                return Err(d);
            },
        }
        Ok(
            RawInput {
                portrait,
                args,
                item_impl: crate::token::duplicate_tokens(item_impl),
                debug_print,
            },
        )
    }
}

/// A generator receives from a template exactly the members that were captured, in their
/// order and unchanged, and with them what the caller passed.
///
/// This holds where every captured member is one member declaration of a trait, the
/// arguments are what the generator takes, and the impl block is an impl block.
pub proof fn template_delivers_members<ArgsT: Parse>(
    members: Seq<Seq<Token>>,
    given: Seq<Token>,
    item_impl: Seq<Token>,
    debug_print: bool,
)
    requires
        forall|i: int|
            0 <= i < members.len() ==> accepts(Syntax::TraitItem, source_text(#[trigger] members[i])),
        ArgsT::parsed(given) is Ok,
        accepts(Syntax::ItemImpl, source_text(item_impl)),
    ensures
        parsed_input::<ArgsT>(forwarded_impl(members, given, item_impl, debug_print)) == Ok::<
            RawInputView<ArgsT::V>,
            DiagnosticView,
        >(
            RawInputView {
                portrait: members,
                args: ArgsT::parsed(given)->Ok_0,
                item_impl,
                debug_print,
            },
        ),
{
    let stream = forwarded_impl(members, given, item_impl, debug_print);
    assert(all_visible(stream));
    lemma_flat_visible(stream, stream.len());
    assert(stream.take(stream.len() as int) =~= stream);
    lemma_members_round_trip(members);
    lemma_switch_round_trip(debug_print);
}

/// The input of a generator with every section read.
pub struct Input<ArgsT> {
    /// The members of the trait, in declaration order.
    pub portrait: Vec<TraitItem>,
    /// The arguments of the generator.
    pub args: ArgsT,
    /// The impl block to complete.
    pub item_impl: ItemImpl,
    /// Whether the output is to be shown.
    pub debug_print: bool,
}

/// Determines how to fill an impl block.
pub trait FillImpl: Sized {
    /// The arguments passed to the filler.
    type Args;

    /// What `fill` returns.
    spec fn filled(self, portrait: &Vec<TraitItem>, args: Self::Args, item_impl: &ItemImpl) -> Result<
        Seq<char>,
        DiagnosticView,
    >;

    /// Completes the impl block given the members of the trait.
    fn fill(self, portrait: &Vec<TraitItem>, args: Self::Args, item_impl: &ItemImpl) -> (r: Result<
        String,
        Diagnostic,
    >)
        ensures
            crate::syntax::result_view(r) == self.filled(portrait, args, item_impl),
    ;
}

/// Passes the sections of the input to the filler, and returns what the filler made
/// together with the debug switch of the input.
pub fn impl_filler<FillerT: FillImpl>(input: Input<FillerT::Args>, filler: FillerT) -> (r: Result<
    Emitted,
    Diagnostic,
>)
    ensures
        match r {
            Ok(filled) => filler.filled(&input.portrait, input.args, &input.item_impl)
                == Ok::<Seq<char>, DiagnosticView>(filled.output@) && filled.debug_print
                == input.debug_print,
            Err(d) => filler.filled(&input.portrait, input.args, &input.item_impl)
                == Err::<Seq<char>, DiagnosticView>(d@),
        },
{
    let Input { portrait, args, item_impl, debug_print } = input;
    match filler.fill(&portrait, args, &item_impl) {
        Ok(output) => Ok(Emitted { output, debug_print }),
        Err(d) => Err(d),
    }
}

} // verus!
