//! Type inference over parsed source fragments for code completion.
//!
//! The crate answers one question: what is the type of the expression,
//! binding or pattern-bound name at a given place in a source file?  It works
//! on syntax trees of single fragments and on facts that the host supplies
//! about the surrounding program (resolved names, file contents, statement
//! boundaries).  Everything here is a pure function of its arguments.
//!
//! * [`model`], [`tree`], [`text`]: paths, matches and types; syntax trees;
//!   source text as bytes.
//! * [`convert`], [`bindings`], [`items`], [`signature`], [`imports`]: the
//!   facts that one parsed fragment gives.
//! * [`host`]: the questions to the host and the table of its answers.
//! * [`resolve`], [`fields`], [`pattern`], [`infer`]: inference proper.
//! * [`laws`], [`protocol`]: what holds of all of it.

pub mod model;
pub mod text;
pub mod tree;
pub mod convert;
pub mod bindings;
pub mod items;
pub mod signature;
pub mod imports;
pub mod host;
pub mod resolve;
pub mod fields;
pub mod pattern;
pub mod infer;
pub mod laws;
pub mod protocol;
