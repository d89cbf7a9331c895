use oxibridge::entities::{
    link_entity_kind, node_to_entities, to_string_with_entities, MessageEntity,
    MessageEntityKind, StringWithEntities,
};
use oxibridge::markup::{parse, MdNode};

fn units(text: &str) -> Vec<u16> {
    text.encode_utf16().collect()
}

#[test]
fn parses_bold_italic_correctly() {
    let string = "hello, _**world**_!";

    assert_eq!(
        to_string_with_entities(string),
        StringWithEntities(
            "hello, world!".encode_utf16().collect(),
            vec![MessageEntity::italic(7, 5), MessageEntity::bold(7, 5)]
        )
    );
}

#[test]
fn leaves_newlines_as_is() {
    let string = "hello\nworld";

    assert_eq!(to_string_with_entities(string), StringWithEntities::plain(string));
}

#[test]
fn parses_code_correctly() {
    let string = r#"```rs
println!("hello, world!");
```"#;

    assert_eq!(
        to_string_with_entities(string),
        StringWithEntities(
            r#"println!("hello, world!");"#.encode_utf16().collect(),
            vec![MessageEntity::pre(Some("rs".to_owned()), 0, 26)]
        )
    );
}

#[test]
fn parses_unordered_lists_correctly() {
    let string = r#"- hello
- there"#;

    assert_eq!(
        to_string_with_entities(string),
        StringWithEntities(
            "\u{2022} hello\n\u{2022} there\n".encode_utf16().collect(),
            vec![]
        ),
    );
}

#[test]
fn parses_ordered_lists_correctly() {
    let string = r#"1. hello
2. there"#;

    assert_eq!(
        to_string_with_entities(string),
        StringWithEntities("1. hello\n2. there\n".encode_utf16().collect(), vec![]),
    );
}

#[test]
fn parses_links_correctly() {
    let string = r#"[hello there](https://itsvic.dev)"#;

    assert_eq!(
        to_string_with_entities(string),
        StringWithEntities(
            "hello there".encode_utf16().collect(),
            vec![MessageEntity::text_link(
                reqwest::Url::parse("https://itsvic.dev").unwrap().to_string(),
                0,
                11
            )]
        ),
    );
}

#[test]
fn empty_input_gives_empty_text() {
    assert_eq!(to_string_with_entities(""), StringWithEntities(vec![], vec![]));
}

#[test]
fn conversion_is_repeatable() {
    let string = "# title\n\n- _a_ **b** `c`\n- ||d||\n\n> quote [x](https://example.org)";
    assert_eq!(to_string_with_entities(string), to_string_with_entities(string));
}

#[test]
fn short_lists_render_with_prefixes() {
    assert_eq!(
        to_string_with_entities("- a\n- b"),
        StringWithEntities(units("\u{2022} a\n\u{2022} b\n"), vec![])
    );
    assert_eq!(
        to_string_with_entities("1. a\n2. b"),
        StringWithEntities(units("1. a\n2. b\n"), vec![])
    );
}

#[test]
fn ordered_list_counts_from_its_start() {
    assert_eq!(
        to_string_with_entities("7. a\n8. b\n9. c"),
        StringWithEntities(units("7. a\n8. b\n9. c\n"), vec![])
    );
    let list = MdNode::List {
        ordered: true,
        start: Some(4294967295),
        children: vec![MdNode::Text("x".to_owned()), MdNode::Text("y".to_owned())],
    };
    assert_eq!(
        node_to_entities(&list),
        StringWithEntities(units("4294967295. x\n4294967296. y\n"), vec![])
    );
}

#[test]
fn nested_spans_share_offset_and_length() {
    let out = to_string_with_entities("_**world**_");
    assert_eq!(out.0, units("world"));
    assert_eq!(out.1.len(), 2);
    assert_eq!(out.1[0].offset, out.1[1].offset);
    assert_eq!(out.1[0].length, out.1[1].length);
    assert_eq!(out.1[0].length, 5);
    let kinds: Vec<&MessageEntityKind> = out.1.iter().map(|e| &e.kind).collect();
    assert!(kinds.contains(&&MessageEntityKind::Bold));
    assert!(kinds.contains(&&MessageEntityKind::Italic));
}

#[test]
fn span_after_surrogate_pair_is_offset_by_two_units() {
    let out = to_string_with_entities("\u{1F600}**b**");
    assert_eq!(out.0, units("\u{1F600}b"));
    assert_eq!(out.0.len(), 3);
    assert_eq!(out.1, vec![MessageEntity::bold(2, 1)]);
}

#[test]
fn code_span_is_measured_in_code_units() {
    let out = to_string_with_entities("`\u{e9}\u{1F600}`");
    assert_eq!(out.0, units("\u{e9}\u{1F600}"));
    assert_eq!(out.1, vec![MessageEntity::code(0, 3)]);
}

#[test]
fn fenced_code_yields_one_pre_span() {
    let out = to_string_with_entities("```x\n**not bold** _nor italic_\n```");
    assert_eq!(out.0, units("**not bold** _nor italic_"));
    assert_eq!(out.1, vec![MessageEntity::pre(Some("x".to_owned()), 0, 25)]);
}

#[test]
fn spoiler_becomes_a_spoiler_span() {
    assert_eq!(
        to_string_with_entities("a ||secret|| b"),
        StringWithEntities(units("a secret b"), vec![MessageEntity::spoiler(2, 6)])
    );
}

#[test]
fn heading_is_bold_with_its_marks() {
    assert_eq!(
        to_string_with_entities("## hi _x_"),
        StringWithEntities(
            units("## hi x"),
            vec![MessageEntity::bold(0, 7), MessageEntity::italic(6, 1)]
        )
    );
}

#[test]
fn blockquote_wraps_its_children_in_one_span() {
    assert_eq!(
        to_string_with_entities("> a **b**"),
        StringWithEntities(
            units("a b"),
            vec![MessageEntity::blockquote(0, 3), MessageEntity::bold(2, 1)]
        )
    );
}

#[test]
fn line_break_renders_as_newline() {
    let tree = MdNode::Group(vec![
        MdNode::Text("a".to_owned()),
        MdNode::Break,
        MdNode::Text("b".to_owned()),
    ]);
    assert_eq!(node_to_entities(&tree), StringWithEntities(units("a\nb"), vec![]));
}

#[test]
fn unknown_node_renders_a_placeholder() {
    let tree = MdNode::Unknown("Thing".to_owned());
    assert_eq!(node_to_entities(&tree), StringWithEntities(units("unknown node Thing"), vec![]));
    let out = to_string_with_entities("![alt](https://example.org/a.png)");
    assert!(String::from_utf16_lossy(&out.0).starts_with("unknown node Image"));
    assert!(out.1.is_empty());
}

#[test]
fn overlapping_spans_of_one_kind_stay_apart() {
    let tree = MdNode::Strong(vec![MdNode::Strong(vec![MdNode::Text("x".to_owned())])]);
    assert_eq!(
        node_to_entities(&tree),
        StringWithEntities(units("x"), vec![MessageEntity::bold(0, 1), MessageEntity::bold(0, 1)])
    );
}

#[test]
fn parser_tree_is_copied_node_by_node() {
    let tree = parse("a **b**");
    match tree {
        MdNode::Group(children) => {
            assert_eq!(children.len(), 1);
            match &children[0] {
                MdNode::Paragraph(inner) => {
                    assert_eq!(inner.len(), 2);
                    assert!(matches!(&inner[0], MdNode::Text(t) if t == "a "));
                    assert!(matches!(&inner[1], MdNode::Strong(_)));
                }
                other => panic!("unexpected node {other:?}"),
            }
        }
        other => panic!("unexpected node {other:?}"),
    }
}

#[test]
fn join_moves_the_spans_of_the_second_text() {
    let mut a = StringWithEntities(units("ab"), vec![MessageEntity::bold(0, 2)]);
    let b = StringWithEntities(units("cd"), vec![MessageEntity::italic(1, 1)]);
    a.join(&b);
    assert_eq!(
        a,
        StringWithEntities(
            units("abcd"),
            vec![MessageEntity::bold(0, 2), MessageEntity::italic(3, 1)]
        )
    );
}

#[test]
fn link_address_is_parsed_and_normalised() {
    assert_eq!(
        to_string_with_entities("[a](HTTPS://Example.ORG)"),
        StringWithEntities(
            units("a"),
            vec![MessageEntity::text_link("https://example.org/".to_owned(), 0, 1)]
        )
    );
}

#[test]
fn link_without_a_valid_address_keeps_its_text_only() {
    assert_eq!(to_string_with_entities("[a](b)"), StringWithEntities(units("a"), vec![]));
    assert_eq!(
        to_string_with_entities("x [**a**](not a url) y"),
        StringWithEntities(units("x [a](not a url) y"), vec![MessageEntity::bold(3, 1)])
    );
    let tree = MdNode::Link {
        url: "/relative".to_owned(),
        children: vec![MdNode::Strong(vec![MdNode::Text("a".to_owned())])],
    };
    assert_eq!(
        node_to_entities(&tree),
        StringWithEntities(units("a"), vec![MessageEntity::bold(0, 1)])
    );
}

#[test]
fn link_kind_goes_by_the_address_and_what_it_parsed_to() {
    assert_eq!(
        link_entity_kind("x-oxibridge:spoiler", None),
        Some(MessageEntityKind::Spoiler)
    );
    assert_eq!(
        link_entity_kind("x-oxibridge:spoiler", Some("x-oxibridge:spoiler".to_owned())),
        Some(MessageEntityKind::Spoiler)
    );
    assert_eq!(
        link_entity_kind("http://a.b", Some("http://a.b/".to_owned())),
        Some(MessageEntityKind::TextLink { url: "http://a.b/".to_owned() })
    );
    assert_eq!(link_entity_kind("b", None), None);
}

#[test]
fn paragraphs_add_no_line_break() {
    assert_eq!(to_string_with_entities("a\n\nb"), StringWithEntities(units("ab"), vec![]));
    let tree = MdNode::Group(vec![
        MdNode::Paragraph(vec![MdNode::Text("a".to_owned())]),
        MdNode::Paragraph(vec![MdNode::Emphasis(vec![MdNode::Text("b".to_owned())])]),
    ]);
    assert_eq!(
        node_to_entities(&tree),
        StringWithEntities(units("ab"), vec![MessageEntity::italic(1, 1)])
    );
}
