//! Turns JSON documents that describe markup into markup text.
//!
//! A decoded document is first built into a tree of [`MarkupNode`]s by
//! [`parse_value`], then written out by [`assemble_html`]. Both stages are
//! pure and are proved against the models in [`builder`] and [`serialize`].
use vstd::prelude::*;

pub mod json;
pub mod markup;
pub mod serialize;
pub mod builder;
pub mod document;

pub use json::JsonValue;
pub use markup::MarkupNode;
pub use builder::parse_value;
pub use serialize::assemble_html;
pub use document::render_document;

verus! {

} // verus!
