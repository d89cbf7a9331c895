use oxibridge::entities::{MessageEntity, MessageEntityKind, StringWithEntities};
use oxibridge::unparse::{unparse_entities, unparse_entities_impl, unparse_units};

fn string_with_entities(text: &str, entities: Vec<MessageEntity>) -> StringWithEntities {
    StringWithEntities(text.encode_utf16().collect(), entities)
}

#[test]
fn unparses_bold_text() {
    let string = string_with_entities("hello, world!", vec![MessageEntity::bold(7, 5)]);

    assert_eq!(unparse_entities_impl(string), "hello, **world**!".to_owned());
}

#[test]
fn unparses_italic_text() {
    let string = string_with_entities("hello, world!", vec![MessageEntity::italic(7, 5)]);

    assert_eq!(unparse_entities_impl(string), "hello, _world_!".to_owned());
}

#[test]
fn unparses_every_kind_with_markup() {
    let cases: Vec<(MessageEntity, &str)> = vec![
        (MessageEntity::strikethrough(0, 1), "~~a~~b"),
        (MessageEntity::underline(0, 1), "__a__b"),
        (MessageEntity::code(0, 1), "``a``b"),
        (MessageEntity::pre(None, 0, 1), "```a```b"),
        (MessageEntity::pre(Some("rs".to_owned()), 0, 1), "```a```b"),
        (MessageEntity::blockquote(0, 1), "> ab"),
        (MessageEntity::spoiler(0, 1), "||a||b"),
        (MessageEntity::text_link("https://example.org".to_owned(), 0, 1), "ab"),
        (MessageEntity::new(MessageEntityKind::Other, 0, 1), "ab"),
    ];
    for (entity, expected) in cases {
        assert_eq!(unparse_entities("ab", vec![entity]), expected);
    }
}

#[test]
fn unparses_nested_spans_in_the_order_of_the_spans() {
    let out = unparse_entities(
        "hello, world!",
        vec![MessageEntity::italic(7, 5), MessageEntity::bold(7, 5)],
    );
    assert_eq!(out, "hello, _**world_**!");
}

#[test]
fn unparses_adjacent_spans() {
    let out =
        unparse_entities("abcd", vec![MessageEntity::bold(0, 2), MessageEntity::italic(2, 2)]);
    assert_eq!(out, "**ab**_cd_");
}

#[test]
fn unparses_behind_a_surrogate_pair() {
    let out = unparse_entities("\u{1F600}b", vec![MessageEntity::bold(2, 1)]);
    assert_eq!(out, "\u{1F600}**b**");
}

#[test]
fn unparse_units_keeps_the_code_units() {
    let string = string_with_entities("ab", vec![MessageEntity::bold(1, 1)]);
    let expected: Vec<u16> = "a**b**".encode_utf16().collect();
    assert_eq!(unparse_units(&string), expected);
}

#[test]
fn unparse_without_spans_is_the_text() {
    assert_eq!(unparse_entities("plain \u{e9}", vec![]), "plain \u{e9}");
    assert_eq!(unparse_entities("", vec![]), "");
}

#[test]
fn well_formedness_is_checked() {
    assert!(string_with_entities("ab", vec![MessageEntity::bold(0, 2)]).is_well_formed());
    assert!(string_with_entities("ab", vec![MessageEntity::bold(2, 0)]).is_well_formed());
    assert!(!string_with_entities("ab", vec![MessageEntity::bold(1, 2)]).is_well_formed());
    assert!(!string_with_entities("ab", vec![MessageEntity::bold(3, 0)]).is_well_formed());
    assert!(!string_with_entities("ab", vec![MessageEntity::bold(1, usize::MAX)])
        .is_well_formed());
}

#[test]
fn text_is_decoded_with_replacement_characters() {
    let lone = StringWithEntities(vec![0x61, 0xD800, 0x62], vec![]);
    assert_eq!(lone.to_text(), "a\u{FFFD}b");
    let pair = StringWithEntities(vec![0xD83D, 0xDE00], vec![]);
    assert_eq!(pair.to_text(), "\u{1F600}");
}
