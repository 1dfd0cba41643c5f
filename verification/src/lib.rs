//! Attach documentation to declarations by rewriting token streams.
//!
//! The library takes the tokens of an attribute-style macro invocation —
//! a documentation text given as literals, possibly with embedded
//! file-inclusion calls, followed by the tokens of the annotated item —
//! and renders the item again with the text attached as a `doc` attribute.
//! Nested fields and variants that carry their own inline documentation
//! attribute get the same treatment, recursively.

pub mod attr;
pub mod err;
pub mod expand;
pub mod files;
pub mod item;
pub mod text;
pub mod toks;

pub use crate::expand::check_if_is_inner;
pub use crate::expand::doc_comment;
pub use crate::expand::doctest;
