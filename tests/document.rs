use jhtml::{assemble_html, parse_value, render_document, JsonValue};

fn s(text: &str) -> String {
    String::from(text)
}

fn content(text: &str) -> JsonValue {
    JsonValue::Object(vec![(s("content"), JsonValue::Str(s(text)))])
}

#[test]
fn head_and_body_document() {
    let root = JsonValue::Object(vec![(s("head"), content("hi")), (s("body"), content("there"))]);
    let tree = parse_value(s("html"), &root);
    assert_eq!(assemble_html(&tree), "<html ><head >hi</head> <body >there</body></html>");
    assert_eq!(render_document(&root), "<html ><head >hi</head> <body >there</body></html>\n");
}

#[test]
fn attribute_and_text_document() {
    let root = JsonValue::Object(vec![
        (s("id"), JsonValue::Str(s("x1"))),
        (s("content"), JsonValue::Str(s("hello"))),
    ]);
    let tree = parse_value(s("html"), &root);
    assert_eq!(assemble_html(&tree), "<html id=\"x1\">hello</html>");
    assert_eq!(render_document(&root), "<html id=\"x1\">hello</html>\n");
}

#[test]
fn empty_document() {
    assert_eq!(render_document(&JsonValue::Object(vec![])), "<html ></html>\n");
}

#[test]
fn non_object_root_is_placeholder() {
    assert_eq!(render_document(&JsonValue::Number(s("7"))), "hi\n");
}
