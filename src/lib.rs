//! Rewrites and pretty-prints a syntax tree of the Roc language in its newer
//! surface syntax: pipes (`a |> f b`) become method calls (`a.f(b)`) or calls
//! of a function value (`a.(f)(b)`), identifiers may turn to snake case, and
//! constructs that have no form there are reported as errors.
//!
//! `rules` states how each node is written, over the buffer model of `buf`;
//! `migrate` writes it, proved to follow those rules; `rewrite` resolves the
//! grouping of operator chains; `lemmas` states what holds of that grouping.

pub mod ast;
pub mod buf;
pub mod casing;
pub mod dispatch;
pub mod lemmas;
pub mod migrate;
pub mod position;
pub mod repl;
pub mod rewrite;
pub mod rules;
pub mod text;
