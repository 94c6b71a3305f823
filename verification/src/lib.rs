//! Generation of `is_<variant>` predicate methods for enumerated types.
//!
//! Given a plain-data description of an annotated `enum` declaration, this
//! library resolves the per-variant configuration directives (`skip`,
//! `name = ".."`), derives predicate names, and synthesizes one boolean
//! predicate method per non-skipped variant, rendered as source text for an
//! `impl` block on the original type.

pub mod model;
pub mod resolve;
pub mod naming;
pub mod synth;
pub mod render;
pub mod semantics;
pub mod laws;
