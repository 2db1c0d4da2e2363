//! The decision engine behind the `#[nullable]` and `#[not_required]` field
//! markers: it recognises fields of optional type, checks the markers against
//! the serde directives already on the field, and rewrites them into the serde
//! directives they stand for.
//!
//! A record or a tagged union comes in as a value of [`syntax::Item`], the way
//! a parser has read it. [`serde_option`] hands it back with every field
//! rewritten, or hands back one compile error for each marker that is out of
//! place.
//!
//! - [`syntax`]: paths, types, annotations, fields and declarations.
//! - [`shape`]: whether a type reads `Option<T>`.
//! - [`engine`]: the rules for the markers of one field.
//! - [`walker`]: the engine on every field of a declaration.
//! - [`failure`]: failures, and how many become one.
//! - [`laws`]: what holds of all this on every input.

pub mod engine;
pub mod failure;
pub mod laws;
pub mod shape;
pub mod syntax;
pub mod walker;

pub use crate::walker::serde_option;
