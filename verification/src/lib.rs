//! Binds positions in source text to the semantic facts that hold there.
//!
//! Given the ancestors of a syntax node, or a byte offset, and the facts that an
//! analysis database holds for the enclosing body, the functions of this crate
//! pick the lexical scope that applies, merge the answers of the four
//! namespaces into one outcome, walk method candidates along a dereference
//! chain, and classify macro invocations by the fragment they expand into.
pub mod range;
pub mod scopes;
pub mod defs;
pub mod syntax;
pub mod tree;
pub mod context;
pub mod locator;
pub mod locator_proofs;
pub mod expansion;
pub mod candidates;
pub mod analyzer;
