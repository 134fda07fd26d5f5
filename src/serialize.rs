use vstd::prelude::*;
use crate::markup::{Markup, MarkupNode, node_view, nodes_view};

verus! {

/// Joins the parts with a single space between neighbours.
pub open spec fn join_spaced(parts: Seq<Seq<char>>) -> Seq<char>
    decreases parts.len(),
{
    if parts.len() == 0 {
        Seq::empty()
    } else if parts.len() == 1 {
        parts[0]
    } else {
        join_spaced(parts.drop_last()) + seq![' '] + parts.last()
    }
}

/// The markup texts of the members of one kind, in their order: those that
/// are attributes when `attributes` holds, the others otherwise.
pub open spec fn member_texts(members: Seq<Markup>, attributes: bool) -> Seq<Seq<char>>
    decreases members,
{
    if members.len() == 0 {
        Seq::empty()
    } else {
        let rest = member_texts(members.drop_last(), attributes);
        if (members.last() is Attribute) == attributes {
            rest.push(html(members.last()))
        } else {
            rest
        }
    }
}

/// The markup text of a node.
///
/// An element is written as `<name attrs>children</name>`, with exactly one
/// space after the name even where it has no attributes.
pub open spec fn html(m: Markup) -> Seq<char>
    decreases m,
{
    match m {
        Markup::Text(s) => s,
        Markup::Attribute(k, Some(v)) => k + seq!['=', '"'] + v + seq!['"'],
        Markup::Attribute(k, None) => k + seq!['='],
        Markup::Element(name, members) => seq!['<'] + name + seq![' ']
            + join_spaced(member_texts(members, true)) + seq!['>']
            + join_spaced(member_texts(members, false)) + seq!['<', '/'] + name + seq!['>'],
    }
}

/// Writes a markup tree as text.
pub fn assemble_html(node: &MarkupNode) -> (r: String)
    ensures
        r@ == html(node@),
    decreases node,
{
    match node {
        MarkupNode::Text(s) => s.clone(),
        MarkupNode::Attribute(key, val) => {
            let mut r = key.clone();
            proof {
                reveal_strlit("=");
                reveal_strlit("\"");
            }
            r.append("=");
            match val {
                Some(s) => {
                    r.append("\"");
                    r.append(s.as_str());
                    r.append("\"");
                },
                None => {},
            }
            r
        },
        MarkupNode::Element(name, members) => {
            let mut attrs = String::new();
            let mut children = String::new();
            let mut no_attrs = true;
            let mut no_children = true;
            let mut i: usize = 0;
            proof {
                assert(members@.take(0) =~= Seq::<MarkupNode>::empty());
            }
            while i < members.len()
                invariant
                    *node == MarkupNode::Element(*name, *members),
                    i <= members.len(),
                    attrs@ == join_spaced(member_texts(nodes_view(members@.take(i as int)), true)),
                    children@ == join_spaced(member_texts(nodes_view(members@.take(i as int)), false)),
                    no_attrs == (member_texts(nodes_view(members@.take(i as int)), true).len() == 0),
                    no_children == (member_texts(nodes_view(members@.take(i as int)), false).len() == 0),
                decreases members.len() - i,
            {
                let ghost before = nodes_view(members@.take(i as int));
                let m = &members[i];
                proof {
                    assert(decreases_to!(*node => node->Element_1[i as int]));
                }
                let text = assemble_html(m);
                proof {
                    let after = before.push(node_view(*m));
                    assert(members@.take(i + 1).drop_last() =~= members@.take(i as int));
                    assert(nodes_view(members@.take(i + 1)) == after);
                    assert(after.drop_last() =~= before);
                    let ta = member_texts(before, true);
                    let tc = member_texts(before, false);
                    assert(ta.push(text@).drop_last() =~= ta);
                    assert(tc.push(text@).drop_last() =~= tc);
                }
                let is_attr = match m {
                    MarkupNode::Attribute(_, _) => true,
                    _ => false,
                };
                proof {
                    reveal_strlit(" ");
                    assert(is_attr == (node_view(*m) is Attribute));
                }
                if is_attr {
                    if !no_attrs {
                        attrs.append(" ");
                    }
                    attrs.append(text.as_str());
                    no_attrs = false;
                } else {
                    if !no_children {
                        children.append(" ");
                    }
                    children.append(text.as_str());
                    no_children = false;
                }
                i = i + 1;
            }
            proof {
                assert(members@.take(members@.len() as int) =~= members@);
                reveal_strlit(" ");
                reveal_strlit("<");
                reveal_strlit(">");
                reveal_strlit("</");
            }
            let mut r = String::new();
            r.append("<");
            r.append(name.as_str());
            r.append(" ");
            r.append(attrs.as_str());
            r.append(">");
            r.append(children.as_str());
            r.append("</");
            r.append(name.as_str());
            r.append(">");
            r
        },
    }
}

/// Serializing is a function of the tree alone: two results of
/// `assemble_html` on the same tree are the same text.
pub proof fn serialize_is_pure(node: MarkupNode, first: String, second: String)
    requires
        first@ == html(node@),
        second@ == html(node@),
    ensures
        first@ == second@,
{
}

} // verus!
