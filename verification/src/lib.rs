//! Narration of a syntax tree.
//!
//! The crate walks the syntax tree of a program and says, in one sentence per
//! node, what each declaration, statement, expression and pattern is. The
//! tree is this crate's own ([`syntax`]). What the narration of a tree is, is
//! defined over its mathematical model ([`model`]) in [`narration`], and
//! which trees have one in [`support`]. The functions that produce it are in
//! [`pattern`], [`expression`] and [`walker`]; [`laws`] holds what is proved
//! of the narration as a whole.

pub mod syntax;
pub mod model;
pub mod text;
pub mod path;
pub mod narration;
pub mod support;
pub mod pattern;
pub mod expression;
pub mod walker;
pub mod args;
pub mod laws;
