//! Completion of trait implementations.
//!
//! A trait is captured once: its member declarations are written, word for word, into a
//! template that stands beside it ([`make`], [`transport`]). Wherever the trait is
//! implemented, the template is invoked with a generator, and hands the generator the
//! members together with the impl block to complete ([`fill`], [`impl_filler`]) or the
//! type to derive for ([`derive`], [`derive_filler`]). The completion engine asks the
//! generator for every member that is missing ([`impl_completer`], [`derive_completer`],
//! [`item_map`]); what it guarantees about the members of the result is proved in
//! [`membership`]. Generators are [`derive_delegate`], which delegates to the fields of a
//! struct or an enum, and [`default_filler`], [`delegate_filler`] and [`log_filler`].
//!
//! Syntax is held as plain values: token trees ([`token`], [`cursor`]) where it is only
//! read from left to right or passed on, and the model of [`syntax`] where its parts are
//! looked into. Which tokens are an expression, a path or a type is asked of `syn`
//! ([`recognize`]).

pub mod commands;
pub mod cursor;
pub mod default_filler;
pub mod delegate_filler;
pub mod derive;
pub mod derive_completer;
pub mod derive_delegate;
pub mod derive_filler;
pub mod diagnostic;
pub mod dummy_debug;
pub mod fill;
pub mod impl_completer;
pub mod impl_filler;
pub mod item_map;
pub mod log_filler;
pub mod make;
pub mod membership;
pub mod naming;
pub mod no_args;
pub mod recognize;
pub mod results;
pub mod syntax;
pub mod text;
pub mod token;
pub mod transport;
pub mod util;

pub use derive_completer::{
    complete_derive, completer_derive_filler, completer_derive_filler2, DeriveContext,
    GenerateDerive,
};
pub use derive_filler::{derive_filler, FillDerive};
pub use dummy_debug::DummyDebug;
pub use impl_completer::{
    complete_impl, completer_impl_filler, completer_impl_filler2, GenerateImpl, ImplContext,
};
pub use impl_filler::{impl_filler, FillImpl};
pub use item_map::{subtract_items, ImplItemMap, TraitItemMap};
pub use no_args::NoArgs;
