use jhtml::{assemble_html, MarkupNode};

fn s(text: &str) -> String {
    String::from(text)
}

#[test]
fn empty_element_keeps_space_before_bracket() {
    let node = MarkupNode::Element(s("a"), vec![]);
    assert_eq!(assemble_html(&node), "<a ></a>");
}

#[test]
fn attributes_with_and_without_value() {
    let node = MarkupNode::Element(
        s("a"),
        vec![
            MarkupNode::Attribute(s("x"), Some(s("1"))),
            MarkupNode::Attribute(s("y"), None),
        ],
    );
    assert_eq!(assemble_html(&node), "<a x=\"1\" y=></a>");
}

#[test]
fn text_is_verbatim() {
    let node = MarkupNode::Text(s("a < b & \"c\""));
    assert_eq!(assemble_html(&node), "a < b & \"c\"");
}

#[test]
fn attribute_with_value_alone() {
    let node = MarkupNode::Attribute(s("id"), Some(s("x1")));
    assert_eq!(assemble_html(&node), "id=\"x1\"");
}

#[test]
fn attribute_without_value_alone() {
    let node = MarkupNode::Attribute(s("hidden"), None);
    assert_eq!(assemble_html(&node), "hidden=");
}

#[test]
fn attributes_are_moved_before_children_in_order() {
    let node = MarkupNode::Element(
        s("div"),
        vec![
            MarkupNode::Text(s("one")),
            MarkupNode::Attribute(s("a"), Some(s("1"))),
            MarkupNode::Element(s("b"), vec![]),
            MarkupNode::Attribute(s("c"), None),
            MarkupNode::Text(s("two")),
        ],
    );
    assert_eq!(assemble_html(&node), "<div a=\"1\" c=>one <b ></b> two</div>");
}

#[test]
fn empty_children_still_get_separators() {
    let node = MarkupNode::Element(
        s("p"),
        vec![MarkupNode::Text(s("")), MarkupNode::Text(s("x")), MarkupNode::Text(s(""))],
    );
    assert_eq!(assemble_html(&node), "<p > x </p>");
}

#[test]
fn duplicate_attributes_are_all_written() {
    let node = MarkupNode::Element(
        s("i"),
        vec![
            MarkupNode::Attribute(s("k"), Some(s("1"))),
            MarkupNode::Attribute(s("k"), Some(s("2"))),
        ],
    );
    assert_eq!(assemble_html(&node), "<i k=\"1\" k=\"2\"></i>");
}

#[test]
fn serializing_twice_gives_same_text() {
    let node = MarkupNode::Element(
        s("html"),
        vec![
            MarkupNode::Attribute(s("lang"), Some(s("en"))),
            MarkupNode::Element(s("body"), vec![MarkupNode::Text(s("hi"))]),
        ],
    );
    let first = assemble_html(&node);
    let second = assemble_html(&node);
    assert_eq!(first, second);
    assert_eq!(first, "<html lang=\"en\"><body >hi</body></html>");
}
