use vstd::prelude::*;
use crate::json::JsonValue;
use crate::markup::{Markup, MarkupNode, nodes_view};

verus! {

/// The reserved key whose string value becomes text content.
pub open spec fn content_key() -> Seq<char> {
    seq!['c', 'o', 'n', 't', 'e', 'n', 't']
}

/// The text that stands for a value that is neither a string nor an object.
pub open spec fn placeholder_text() -> Seq<char> {
    seq!['h', 'i']
}

/// The nodes built from an object's entries, one for each, in their order.
pub open spec fn build_members(entries: Seq<(String, JsonValue)>) -> Seq<Markup>
    decreases entries,
{
    if entries.len() == 0 {
        Seq::empty()
    } else {
        build_members(entries.drop_last()).push(build(entries.last().0@, entries.last().1))
    }
}

/// The node that a value found under `name` stands for.
pub open spec fn build(name: Seq<char>, v: JsonValue) -> Markup
    decreases v,
{
    match v {
        JsonValue::Str(s) => if name == content_key() {
            Markup::Text(s@)
        } else {
            Markup::Attribute(name, Some(s@))
        },
        JsonValue::Object(entries) => Markup::Element(name, build_members(entries@)),
        _ => Markup::Text(placeholder_text()),
    }
}

/// Interprets a JSON value found under the key `key` as a markup node: a
/// string is text under the key `content` and an attribute under any other,
/// an object is an element with one member per entry, and anything else is
/// the placeholder text `hi`.
pub fn parse_value(key: String, json_value: &JsonValue) -> (r: MarkupNode)
    ensures
        r@ == build(key@, *json_value),
    decreases json_value,
{
    match json_value {
        JsonValue::Str(s) => {
            proof {
                reveal_strlit("content");
            }
            let content = String::from_str("content");
            assert(content@ =~= content_key());
            if key == content {
                MarkupNode::Text(s.clone())
            } else {
                MarkupNode::Attribute(key, Some(s.clone()))
            }
        },
        JsonValue::Object(entries) => {
            let mut members: Vec<MarkupNode> = Vec::new();
            let mut i: usize = 0;
            while i < entries.len()
                invariant
                    *json_value == JsonValue::Object(*entries),
                    i <= entries.len(),
                    members@.len() == i,
                    nodes_view(members@) == build_members(entries@.take(i as int)),
                decreases entries.len() - i,
            {
                proof {
                    assert(decreases_to!(*json_value => json_value->Object_0[i as int].1));
                }
                let member = parse_value(entries[i].0.clone(), &entries[i].1);
                let ghost before = members@;
                members.push(member);
                proof {
                    assert(members@.drop_last() =~= before);
                    assert(entries@.take(i + 1).drop_last() =~= entries@.take(i as int));
                }
                i = i + 1;
            }
            proof {
                assert(entries@.take(entries@.len() as int) =~= entries@);
            }
            MarkupNode::Element(key, members)
        },
        _ => {
            proof {
                reveal_strlit("hi");
            }
            let text = String::from_str("hi");
            assert(text@ =~= placeholder_text());
            MarkupNode::Text(text)
        },
    }
}

/// `build_members` gives one node per entry, and the node at each position
/// is built from the entry at that position.
pub proof fn lemma_build_members(entries: Seq<(String, JsonValue)>)
    ensures
        build_members(entries).len() == entries.len(),
        forall|i: int|
            0 <= i < entries.len() ==> #[trigger] build_members(entries)[i] == build(
                entries[i].0@,
                entries[i].1,
            ),
    decreases entries.len(),
{
    if entries.len() > 0 {
        lemma_build_members(entries.drop_last());
    }
}

/// An object found under `name` becomes an element named `name` with exactly
/// one member per entry, in the object's own order, the member at each
/// position built from the entry at that position.
pub proof fn object_builds_element(name: Seq<char>, entries: Vec<(String, JsonValue)>)
    ensures
        build(name, JsonValue::Object(entries)) matches Markup::Element(tag, members) && tag == name
            && members.len() == entries@.len() && forall|i: int|
            0 <= i < entries@.len() ==> #[trigger] members[i] == build(
                entries@[i].0@,
                entries@[i].1,
            ),
{
    lemma_build_members(entries@);
}

/// A string found under any key other than `content` becomes an attribute
/// with that key and that string as its value.
pub proof fn string_builds_attribute(key: Seq<char>, s: String)
    requires
        key != content_key(),
    ensures
        build(key, JsonValue::Str(s)) == Markup::Attribute(key, Some(s@)),
{
}

/// A string found under the key `content` becomes that text.
pub proof fn content_string_builds_text(s: String)
    ensures
        build(content_key(), JsonValue::Str(s)) == Markup::Text(s@),
{
}

/// A value that is neither a string nor an object becomes the placeholder
/// text `hi`, whatever key it is found under.
pub proof fn other_value_builds_placeholder(key: Seq<char>, v: JsonValue)
    requires
        !(v is Str),
        !(v is Object),
    ensures
        build(key, v) == Markup::Text(placeholder_text()),
{
}

} // verus!
