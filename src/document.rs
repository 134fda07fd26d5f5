use vstd::prelude::*;
use crate::builder::{build, parse_value};
use crate::json::JsonValue;
use crate::serialize::{assemble_html, html};

verus! {

/// The tag under which a document's root object is built.
pub open spec fn root_tag() -> Seq<char> {
    seq!['h', 't', 'm', 'l']
}

/// The text written for a document whose decoded root is `root`: the markup
/// of the root built under the tag `html`, followed by one newline.
pub open spec fn document_text(root: JsonValue) -> Seq<char> {
    html(build(root_tag(), root)) + seq!['\n']
}

/// Turns a decoded document into the markup text that is written out for it.
pub fn render_document(root: &JsonValue) -> (r: String)
    ensures
        r@ == document_text(*root),
{
    proof {
        reveal_strlit("html");
        reveal_strlit("\n");
    }
    let tag = String::from_str("html");
    assert(tag@ =~= root_tag());
    let tree = parse_value(tag, root);
    let mut r = assemble_html(&tree);
    r.append("\n");
    r
}

} // verus!
