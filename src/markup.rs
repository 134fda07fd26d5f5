use vstd::prelude::*;

verus! {

/// A node of a markup tree.
///
/// An `Element` holds its attributes and its content in one list, in the
/// order in which they were built; the serializer separates them.
#[derive(Debug, PartialEq)]
pub enum MarkupNode {
    Element(String, Vec<MarkupNode>),
    Text(String),
    Attribute(String, Option<String>),
}

/// The mathematical form of a [`MarkupNode`]: strings as character sequences.
pub enum Markup {
    Element(Seq<char>, Seq<Markup>),
    Text(Seq<char>),
    Attribute(Seq<char>, Option<Seq<char>>),
}

/// The models of a sequence of nodes, one for one.
pub open spec fn nodes_view(ns: Seq<MarkupNode>) -> Seq<Markup>
    decreases ns,
{
    if ns.len() == 0 {
        Seq::empty()
    } else {
        nodes_view(ns.drop_last()).push(node_view(ns.last()))
    }
}

/// The model of one node.
pub open spec fn node_view(n: MarkupNode) -> Markup
    decreases n,
{
    match n {
        MarkupNode::Element(name, members) => Markup::Element(name@, nodes_view(members@)),
        MarkupNode::Text(s) => Markup::Text(s@),
        MarkupNode::Attribute(k, v) => Markup::Attribute(
            k@,
            match v {
                Some(s) => Some(s@),
                None => None,
            },
        ),
    }
}

impl View for MarkupNode {
    type V = Markup;

    open spec fn view(&self) -> Markup {
        node_view(*self)
    }
}

} // verus!
