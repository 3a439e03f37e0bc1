//! Custom literals: every literal that carries a suffix of the user's choosing
//! is rewritten into a call of a handler macro found at
//! `crate::custom_literal::<kind>::<suffix>!`.
//!
//! The rewriting works on a plain model of a token stream ([`token`]): the
//! literals are classified and decomposed by `litrs` ([`literal`]), and the
//! walk over the stream, the routing by suffix and the synthesis of calls and
//! diagnostics ([`rewrite`]) are verified against the spec functions that
//! state them. [`laws`] states and proves the general properties of the pass.
pub mod token;
pub mod literal;
pub mod rewrite;
pub mod laws;

pub use literal::LitKind;
pub use rewrite::{culit, CompileError, Rewriter, RewriteError, Route};
pub use token::{Delimiter, Lit, Location, Spacing, Token};
