//! Failures reported by the completion engine, the generators and the transport protocol.

use crate::text::{quote, quoted};
use vstd::prelude::*;
use vstd::string::*;

verus! {

/// The three namespaces of trait members.
#[derive(Clone, Copy, Debug, PartialEq, Eq, Structural, Hash)]
pub enum MemberKind {
    /// An associated constant.
    Const,
    /// An associated function.
    Fn,
    /// An associated type.
    Type,
}

/// What went wrong.
#[derive(Clone, Copy, Debug, PartialEq, Eq, Structural, Hash)]
pub enum DiagnosticKind {
    /// The impl block provides an associated constant that the trait does not declare.
    UnknownConst,
    /// The impl block provides an associated function that the trait does not declare.
    UnknownFn,
    /// The impl block provides an associated type that the trait does not declare.
    UnknownType,
    /// Field delegation cannot synthesize associated constants.
    DelegateConst,
    /// Field delegation cannot synthesize associated types.
    DelegateType,
    /// Field delegation cannot be derived for unions.
    DelegateUnion,
    /// Fallible propagation was requested for a return type that is not of the form `R<T, ...>`.
    TryWithoutWrapper,
    /// An enum delegates a function that has no receiver.
    MissingReceiver,
    /// An enum delegates a function with a `Self`-typed parameter other than the receiver.
    SelfParameter,
    /// A parameter that has to be passed on is not bound by a plain identifier.
    PatternParameter,
    /// A reduction without a base value was requested for a type without fields.
    ReduceWithoutFields,
    /// No aggregation applies to the return type.
    UnknownAggregation,
    /// The same argument was given twice.
    ArgumentSetTwice,
    /// An argument that this configuration does not know was given.
    UnknownArgument,
    /// An argument was given in a form that it does not take.
    MalformedArgument,
    /// The default-value generator cannot synthesize associated types.
    DefaultType,
    /// The logging generator cannot synthesize associated constants.
    LogConst,
    /// The logging generator cannot synthesize associated types.
    LogType,
    /// Forwarding a receiver needs a delegate value, and none was configured.
    DelegateWithoutValue,
    /// Arguments were given to a generator that takes none.
    UnexpectedArgument,
    /// The visibility of the trait names a scope that cannot be re-exported from.
    InvalidVisibility,
    /// The block to fill is not an impl of a trait.
    InherentImpl,
    /// The block to fill is a negative impl.
    NegativeImpl,
    /// A section keyword of the generator input is missing or misplaced.
    ExpectedKeyword,
    /// A section of the generator input is not enclosed in braces.
    ExpectedBraces,
    /// A captured member is not enclosed in braces of its own.
    ExpectedMember,
    /// The debug switch of the generator input is neither `true` nor `false`.
    ExpectedBool,
    /// Tokens follow the last section of the generator input.
    TrailingTokens,
    /// A comma was expected between two arguments.
    ExpectedComma,
    /// An identifier was expected.
    ExpectedIdentifier,
    /// An attribute or a group was expected to take arguments in parentheses.
    ExpectedArguments,
    /// Tokens were left over inside a group that was passed over.
    UnexpectedToken,
    /// A path was expected.
    ExpectedPath,
    /// A type was expected.
    ExpectedType,
    /// The impl block of the generator input is no impl block.
    ExpectedImpl,
    /// The type declaration of the generator input is no declaration of a struct, an
    /// enum or a union.
    ExpectedInput,
}

/// A failure, with the source text that it is about.
#[derive(Clone, Debug, PartialEq, Eq)]
pub struct Diagnostic {
    /// What went wrong.
    pub kind: DiagnosticKind,
    /// The offending source: a member's name, or the text of a construct. It is empty
    /// where the failure is about the input as a whole. Where it is one token of the
    /// input, [`crate::token::locate`] finds the place of the failure from it.
    pub subject: String,
}

/// The mathematical content of a [`Diagnostic`].
pub struct DiagnosticView {
    pub kind: DiagnosticKind,
    pub subject: Seq<char>,
}

impl View for Diagnostic {
    type V = DiagnosticView;

    open spec fn view(&self) -> DiagnosticView {
        DiagnosticView { kind: self.kind, subject: self.subject@ }
    }
}

/// The failure of kind `kind` about `subject`.
pub open spec fn failure(kind: DiagnosticKind, subject: Seq<char>) -> DiagnosticView {
    DiagnosticView { kind, subject }
}

/// The failure that an impl block's surplus member of `kind` is reported with.
pub open spec fn unknown_member(kind: MemberKind) -> DiagnosticKind {
    match kind {
        MemberKind::Const => DiagnosticKind::UnknownConst,
        MemberKind::Fn => DiagnosticKind::UnknownFn,
        MemberKind::Type => DiagnosticKind::UnknownType,
    }
}

/// How the message of a failure begins.
pub open spec fn message_head(kind: DiagnosticKind) -> Seq<char> {
    match kind {
        DiagnosticKind::UnknownConst => "no associated constant called "@,
        DiagnosticKind::UnknownFn => "no associated function called "@,
        DiagnosticKind::UnknownType => "no associated type called "@,
        DiagnosticKind::DelegateConst => "derive_delegate does not support const items"@,
        DiagnosticKind::DelegateType => "derive_delegate does not support type items"@,
        DiagnosticKind::DelegateUnion => "derive_delegate does not support unions"@,
        DiagnosticKind::TryWithoutWrapper => "`with_try` must be used with a type in the form `R<T, ...>` where `R` is a Try type e.g. `Result`/`Option`."@,
        DiagnosticKind::MissingReceiver => "Cannot derive enum delegates for associated functions without receivers"@,
        DiagnosticKind::SelfParameter => "Non-receiver Self parameters are only supported for structs"@,
        DiagnosticKind::PatternParameter => "Cannot derive delegate for traits with non-identifier-pattern parameters"@,
        DiagnosticKind::ReduceWithoutFields => "derive_delegate(reduce) is not applicable for empty structs"@,
        DiagnosticKind::UnknownAggregation => "Cannot determine how to aggregate the return value. Supported return types are `()`, `Self` or arbitrary types with the `#[portrait(derive_delegate(reduce = _))]` attribute, or `Option<>`/`Result<>` wrapping them with `#[portrait(derive_delegate(with_try))]`."@,
        DiagnosticKind::ArgumentSetTwice => "Argument cannot be set twice"@,
        DiagnosticKind::UnknownArgument => "unknown argument `"@,
        DiagnosticKind::MalformedArgument => "malformed argument `"@,
        DiagnosticKind::DefaultType => "portrait::default cannot implement associated types automatically"@,
        DiagnosticKind::LogConst => "portrait::log cannot implement associated constants automatically"@,
        DiagnosticKind::LogType => "portrait::log cannot implement associated types automatically"@,
        DiagnosticKind::DelegateWithoutValue => "Delegate value must be passed to implement traits with references"@,
        DiagnosticKind::UnexpectedArgument => "No argument expected"@,
        DiagnosticKind::InvalidVisibility => "invalid visibility scope"@,
        DiagnosticKind::InherentImpl => "#[fill] can only be used on trait impl blocks"@,
        DiagnosticKind::NegativeImpl => "#[fill] cannot be used on negated trait impl"@,
        DiagnosticKind::ExpectedKeyword => "expected `"@,
        DiagnosticKind::ExpectedBraces => "expected curly braces after `"@,
        DiagnosticKind::ExpectedMember => "braces should only contain one trait item"@,
        DiagnosticKind::ExpectedBool => "expected boolean literal"@,
        DiagnosticKind::TrailingTokens => "trailing tokens in macro input"@,
        DiagnosticKind::ExpectedComma => "expected `,`, found `"@,
        DiagnosticKind::ExpectedIdentifier => "expected identifier"@,
        DiagnosticKind::ExpectedArguments => "expected attribute arguments in parentheses"@,
        DiagnosticKind::UnexpectedToken => "unexpected token"@,
        DiagnosticKind::ExpectedPath => "expected path"@,
        DiagnosticKind::ExpectedType => "expected type"@,
        DiagnosticKind::ExpectedImpl => "expected impl block"@,
        DiagnosticKind::ExpectedInput => "expected struct, enum or union"@,
    }
}

/// How the message of a failure ends.
pub open spec fn message_tail(kind: DiagnosticKind) -> Seq<char> {
    match kind {
        DiagnosticKind::UnknownConst => " in trait"@,
        DiagnosticKind::UnknownFn => " in trait"@,
        DiagnosticKind::UnknownType => " in trait"@,
        DiagnosticKind::DelegateConst => ""@,
        DiagnosticKind::DelegateType => ""@,
        DiagnosticKind::DelegateUnion => ""@,
        DiagnosticKind::TryWithoutWrapper => ""@,
        DiagnosticKind::MissingReceiver => ""@,
        DiagnosticKind::SelfParameter => ""@,
        DiagnosticKind::PatternParameter => ""@,
        DiagnosticKind::ReduceWithoutFields => ""@,
        DiagnosticKind::UnknownAggregation => ""@,
        DiagnosticKind::ArgumentSetTwice => ""@,
        DiagnosticKind::UnknownArgument => "`"@,
        DiagnosticKind::MalformedArgument => "`"@,
        DiagnosticKind::DefaultType => ""@,
        DiagnosticKind::LogConst => ""@,
        DiagnosticKind::LogType => ""@,
        DiagnosticKind::DelegateWithoutValue => ""@,
        DiagnosticKind::UnexpectedArgument => ""@,
        DiagnosticKind::InvalidVisibility => ""@,
        DiagnosticKind::InherentImpl => ""@,
        DiagnosticKind::NegativeImpl => ""@,
        DiagnosticKind::ExpectedKeyword => "`"@,
        DiagnosticKind::ExpectedBraces => "`"@,
        DiagnosticKind::ExpectedMember => ""@,
        DiagnosticKind::ExpectedBool => ""@,
        DiagnosticKind::TrailingTokens => ""@,
        DiagnosticKind::ExpectedComma => "`"@,
        DiagnosticKind::ExpectedIdentifier => ""@,
        DiagnosticKind::ExpectedArguments => ""@,
        DiagnosticKind::UnexpectedToken => ""@,
        DiagnosticKind::ExpectedPath => ""@,
        DiagnosticKind::ExpectedType => ""@,
        DiagnosticKind::ExpectedImpl => ""@,
        DiagnosticKind::ExpectedInput => ""@,
    }
}

/// Whether the message of a failure names its subject between its beginning and its end.
pub open spec fn names_subject(kind: DiagnosticKind) -> bool {
    match kind {
        DiagnosticKind::UnknownConst => true,
        DiagnosticKind::UnknownFn => true,
        DiagnosticKind::UnknownType => true,
        DiagnosticKind::DelegateConst => false,
        DiagnosticKind::DelegateType => false,
        DiagnosticKind::DelegateUnion => false,
        DiagnosticKind::TryWithoutWrapper => false,
        DiagnosticKind::MissingReceiver => false,
        DiagnosticKind::SelfParameter => false,
        DiagnosticKind::PatternParameter => false,
        DiagnosticKind::ReduceWithoutFields => false,
        DiagnosticKind::UnknownAggregation => false,
        DiagnosticKind::ArgumentSetTwice => false,
        DiagnosticKind::UnknownArgument => true,
        DiagnosticKind::MalformedArgument => true,
        DiagnosticKind::DefaultType => false,
        DiagnosticKind::LogConst => false,
        DiagnosticKind::LogType => false,
        DiagnosticKind::DelegateWithoutValue => false,
        DiagnosticKind::UnexpectedArgument => false,
        DiagnosticKind::InvalidVisibility => false,
        DiagnosticKind::InherentImpl => false,
        DiagnosticKind::NegativeImpl => false,
        DiagnosticKind::ExpectedKeyword => true,
        DiagnosticKind::ExpectedBraces => true,
        DiagnosticKind::ExpectedMember => false,
        DiagnosticKind::ExpectedBool => false,
        DiagnosticKind::TrailingTokens => false,
        DiagnosticKind::ExpectedComma => true,
        DiagnosticKind::ExpectedIdentifier => false,
        DiagnosticKind::ExpectedArguments => false,
        DiagnosticKind::UnexpectedToken => false,
        DiagnosticKind::ExpectedPath => false,
        DiagnosticKind::ExpectedType => false,
        DiagnosticKind::ExpectedImpl => false,
        DiagnosticKind::ExpectedInput => false,
    }
}

/// The message of a failure.
pub open spec fn message_text(d: DiagnosticView) -> Seq<char> {
    if names_subject(d.kind) {
        message_head(d.kind) + d.subject + message_tail(d.kind)
    } else {
        message_head(d.kind) + message_tail(d.kind)
    }
}

/// The invocation of `compile_error` with the given string literal.
pub open spec fn compile_error_text(literal: Seq<char>) -> Seq<char> {
    "::core::compile_error! { "@ + literal + " }"@
}

/// Writes the invocation of `compile_error` with the given string literal.
pub fn compile_error_with(literal: &str) -> (r: String)
    ensures
        r@ == compile_error_text(literal@),
{
    let mut out = String::from_str("::core::compile_error! { ");
    out.append(literal);
    out.append(" }");
    out
}

fn head(kind: DiagnosticKind) -> (r: &'static str)
    ensures
        r@ == message_head(kind),
{
    match kind {
        DiagnosticKind::UnknownConst => "no associated constant called ",
        DiagnosticKind::UnknownFn => "no associated function called ",
        DiagnosticKind::UnknownType => "no associated type called ",
        DiagnosticKind::DelegateConst => "derive_delegate does not support const items",
        DiagnosticKind::DelegateType => "derive_delegate does not support type items",
        DiagnosticKind::DelegateUnion => "derive_delegate does not support unions",
        DiagnosticKind::TryWithoutWrapper => "`with_try` must be used with a type in the form `R<T, ...>` where `R` is a Try type e.g. `Result`/`Option`.",
        DiagnosticKind::MissingReceiver => "Cannot derive enum delegates for associated functions without receivers",
        DiagnosticKind::SelfParameter => "Non-receiver Self parameters are only supported for structs",
        DiagnosticKind::PatternParameter => "Cannot derive delegate for traits with non-identifier-pattern parameters",
        DiagnosticKind::ReduceWithoutFields => "derive_delegate(reduce) is not applicable for empty structs",
        DiagnosticKind::UnknownAggregation => "Cannot determine how to aggregate the return value. Supported return types are `()`, `Self` or arbitrary types with the `#[portrait(derive_delegate(reduce = _))]` attribute, or `Option<>`/`Result<>` wrapping them with `#[portrait(derive_delegate(with_try))]`.",
        DiagnosticKind::ArgumentSetTwice => "Argument cannot be set twice",
        DiagnosticKind::UnknownArgument => "unknown argument `",
        DiagnosticKind::MalformedArgument => "malformed argument `",
        DiagnosticKind::DefaultType => "portrait::default cannot implement associated types automatically",
        DiagnosticKind::LogConst => "portrait::log cannot implement associated constants automatically",
        DiagnosticKind::LogType => "portrait::log cannot implement associated types automatically",
        DiagnosticKind::DelegateWithoutValue => "Delegate value must be passed to implement traits with references",
        DiagnosticKind::UnexpectedArgument => "No argument expected",
        DiagnosticKind::InvalidVisibility => "invalid visibility scope",
        DiagnosticKind::InherentImpl => "#[fill] can only be used on trait impl blocks",
        DiagnosticKind::NegativeImpl => "#[fill] cannot be used on negated trait impl",
        DiagnosticKind::ExpectedKeyword => "expected `",
        DiagnosticKind::ExpectedBraces => "expected curly braces after `",
        DiagnosticKind::ExpectedMember => "braces should only contain one trait item",
        DiagnosticKind::ExpectedBool => "expected boolean literal",
        DiagnosticKind::TrailingTokens => "trailing tokens in macro input",
        DiagnosticKind::ExpectedComma => "expected `,`, found `",
        DiagnosticKind::ExpectedIdentifier => "expected identifier",
        DiagnosticKind::ExpectedArguments => "expected attribute arguments in parentheses",
        DiagnosticKind::UnexpectedToken => "unexpected token",
        DiagnosticKind::ExpectedPath => "expected path",
        DiagnosticKind::ExpectedType => "expected type",
        DiagnosticKind::ExpectedImpl => "expected impl block",
        DiagnosticKind::ExpectedInput => "expected struct, enum or union",
    }
}

fn tail(kind: DiagnosticKind) -> (r: &'static str)
    ensures
        r@ == message_tail(kind),
{
    match kind {
        DiagnosticKind::UnknownConst => " in trait",
        DiagnosticKind::UnknownFn => " in trait",
        DiagnosticKind::UnknownType => " in trait",
        DiagnosticKind::DelegateConst => "",
        DiagnosticKind::DelegateType => "",
        DiagnosticKind::DelegateUnion => "",
        DiagnosticKind::TryWithoutWrapper => "",
        DiagnosticKind::MissingReceiver => "",
        DiagnosticKind::SelfParameter => "",
        DiagnosticKind::PatternParameter => "",
        DiagnosticKind::ReduceWithoutFields => "",
        DiagnosticKind::UnknownAggregation => "",
        DiagnosticKind::ArgumentSetTwice => "",
        DiagnosticKind::UnknownArgument => "`",
        DiagnosticKind::MalformedArgument => "`",
        DiagnosticKind::DefaultType => "",
        DiagnosticKind::LogConst => "",
        DiagnosticKind::LogType => "",
        DiagnosticKind::DelegateWithoutValue => "",
        DiagnosticKind::UnexpectedArgument => "",
        DiagnosticKind::InvalidVisibility => "",
        DiagnosticKind::InherentImpl => "",
        DiagnosticKind::NegativeImpl => "",
        DiagnosticKind::ExpectedKeyword => "`",
        DiagnosticKind::ExpectedBraces => "`",
        DiagnosticKind::ExpectedMember => "",
        DiagnosticKind::ExpectedBool => "",
        DiagnosticKind::TrailingTokens => "",
        DiagnosticKind::ExpectedComma => "`",
        DiagnosticKind::ExpectedIdentifier => "",
        DiagnosticKind::ExpectedArguments => "",
        DiagnosticKind::UnexpectedToken => "",
        DiagnosticKind::ExpectedPath => "",
        DiagnosticKind::ExpectedType => "",
        DiagnosticKind::ExpectedImpl => "",
        DiagnosticKind::ExpectedInput => "",
    }
}

fn names(kind: DiagnosticKind) -> (r: bool)
    ensures
        r == names_subject(kind),
{
    match kind {
        DiagnosticKind::UnknownConst => true,
        DiagnosticKind::UnknownFn => true,
        DiagnosticKind::UnknownType => true,
        DiagnosticKind::DelegateConst => false,
        DiagnosticKind::DelegateType => false,
        DiagnosticKind::DelegateUnion => false,
        DiagnosticKind::TryWithoutWrapper => false,
        DiagnosticKind::MissingReceiver => false,
        DiagnosticKind::SelfParameter => false,
        DiagnosticKind::PatternParameter => false,
        DiagnosticKind::ReduceWithoutFields => false,
        DiagnosticKind::UnknownAggregation => false,
        DiagnosticKind::ArgumentSetTwice => false,
        DiagnosticKind::UnknownArgument => true,
        DiagnosticKind::MalformedArgument => true,
        DiagnosticKind::DefaultType => false,
        DiagnosticKind::LogConst => false,
        DiagnosticKind::LogType => false,
        DiagnosticKind::DelegateWithoutValue => false,
        DiagnosticKind::UnexpectedArgument => false,
        DiagnosticKind::InvalidVisibility => false,
        DiagnosticKind::InherentImpl => false,
        DiagnosticKind::NegativeImpl => false,
        DiagnosticKind::ExpectedKeyword => true,
        DiagnosticKind::ExpectedBraces => true,
        DiagnosticKind::ExpectedMember => false,
        DiagnosticKind::ExpectedBool => false,
        DiagnosticKind::TrailingTokens => false,
        DiagnosticKind::ExpectedComma => true,
        DiagnosticKind::ExpectedIdentifier => false,
        DiagnosticKind::ExpectedArguments => false,
        DiagnosticKind::UnexpectedToken => false,
        DiagnosticKind::ExpectedPath => false,
        DiagnosticKind::ExpectedType => false,
        DiagnosticKind::ExpectedImpl => false,
        DiagnosticKind::ExpectedInput => false,
    }
}

impl Diagnostic {
    /// A failure of `kind` about `subject`.
    pub fn new(kind: DiagnosticKind, subject: &str) -> (r: Diagnostic)
        ensures
            r@ == (DiagnosticView { kind, subject: subject@ }),
    {
        Diagnostic { kind, subject: String::from_str(subject) }
    }

    /// The message that tells what went wrong.
    pub fn message(&self) -> (r: String)
        ensures
            r@ == message_text(self@),
    {
        let mut out = String::from_str(head(self.kind));
        if names(self.kind) {
            out.append(self.subject.as_str());
        }
        out.append(tail(self.kind));
        out
    }

    /// The failure as source text that stops the compilation with the message: an
    /// invocation of `compile_error` with the message as a string literal.
    pub fn into_compile_error(&self) -> (r: String)
        ensures
            r@ == compile_error_text(quoted(message_text(self@))),
    {
        let message = self.message();
        let literal = quote(message.as_str());
        compile_error_with(literal.as_str())
    }
}

} // verus!
