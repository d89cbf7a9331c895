use oxibridge::backends::{
    file_line, get_backend, groups_of, line_message, sends_to, takes_from, BackendGroup,
    BackendMessage,
};
use oxibridge::broadcast::Source;
use oxibridge::config::{BackendConfig, BackendKind, Group, GroupConfig, GroupMember};
use oxibridge::message::{Author, IdAllocator, Message};

fn group(readonly: bool, writeonly: bool) -> GroupConfig {
    GroupConfig { guild: None, channel: None, chat: None, readonly, writeonly }
}

#[test]
fn only_the_file_backend_is_made() {
    let file = BackendConfig { kind: BackendKind::File, token: "/tmp/log".to_owned() };
    let groups = vec![BackendGroup { name: "g".to_owned(), config: group(false, false) }];
    let backend = get_backend("f", &file, groups).expect("file backend");
    assert_eq!(backend.file_path, "/tmp/log");
    assert_eq!(backend.name, "f");
    assert_eq!(backend.group_configs.len(), 1);
    let discord = BackendConfig { kind: BackendKind::Discord, token: "t".to_owned() };
    assert!(get_backend("d", &discord, vec![]).is_none());
    let telegram = BackendConfig { kind: BackendKind::Telegram, token: "t".to_owned() };
    assert!(get_backend("t", &telegram, vec![]).is_none());
}

#[test]
fn readonly_and_writeonly_close_one_direction() {
    assert!(sends_to(&group(false, false)) && takes_from(&group(false, false)));
    assert!(!sends_to(&group(true, false)) && takes_from(&group(true, false)));
    assert!(sends_to(&group(false, true)) && !takes_from(&group(false, true)));
}

#[test]
fn groups_of_a_backend_are_collected_in_order() {
    let member = |backend: &str, readonly: bool| GroupMember {
        backend: backend.to_owned(),
        config: group(readonly, false),
    };
    let groups = vec![
        Group { name: "one".to_owned(), members: vec![member("tg", false), member("dc", true)] },
        Group { name: "two".to_owned(), members: vec![member("tg", false)] },
        Group { name: "three".to_owned(), members: vec![member("dc", false)] },
    ];
    let parts = groups_of(&groups, "dc");
    let seen: Vec<(String, bool)> =
        parts.iter().map(|p| (p.name.clone(), p.config.readonly)).collect();
    assert_eq!(seen, vec![("one".to_owned(), true), ("three".to_owned(), false)]);
    assert!(groups_of(&groups, "file").is_empty());
    assert_eq!(groups_of(&groups, "tg").len(), 2);
}

#[test]
fn file_backend_writes_one_line_for_a_message() {
    let mut ids = IdAllocator::new();
    let message = BackendMessage {
        group_name: "g".to_owned(),
        backend_name: "b".to_owned(),
        content: Message::new(
            &mut ids,
            Author {
                display_name: Some("Ann".to_owned()),
                username: "ann".to_owned(),
                avatar: None,
                source: Source::Discord,
            },
            "hello".to_owned(),
            vec![],
            None,
            None,
        ),
    };
    assert_eq!(file_line(&message), "(g, b) Ann (@dc/ann): hello\n");
}

#[test]
fn file_backend_reads_a_line_as_a_message() {
    let mut ids = IdAllocator::new();
    let first = line_message(&mut ids, "one".to_owned(), Source::Telegram);
    let second = line_message(&mut ids, "two".to_owned(), Source::Telegram);
    assert_eq!(first.id, 0);
    assert_eq!(second.id, 1);
    assert_eq!(first.content, "one");
    assert_eq!(first.author.username, "file_backend");
    assert_eq!(first.author.full_name(None), "file_backend");
    assert!(first.attachments.is_empty());
    assert_eq!(first.in_reply_to, None);
    assert!(first.reply_author.is_none());
}
