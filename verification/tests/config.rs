use oxibridge::config::{
    find_group_by_channel, find_group_by_chat, BackendKind, CacheConfig, CacheKind, Config,
    GlobalSection, Group, GroupConfig, GroupMember,
};

fn group(channel: Option<u64>, chat: Option<i64>) -> GroupConfig {
    GroupConfig { guild: None, channel, chat, readonly: false, writeonly: false }
}

#[test]
fn kinds_are_read_from_their_names() {
    assert_eq!(BackendKind::parse("discord"), Some(BackendKind::Discord));
    assert_eq!(BackendKind::parse("telegram"), Some(BackendKind::Telegram));
    assert_eq!(BackendKind::parse("file"), Some(BackendKind::File));
    assert_eq!(BackendKind::parse("File"), None);
    assert_eq!(BackendKind::parse(""), None);
    for kind in [BackendKind::Discord, BackendKind::Telegram, BackendKind::File] {
        assert_eq!(BackendKind::parse(kind.as_str()), Some(kind));
    }
    assert_eq!(CacheKind::parse("memory"), Some(CacheKind::Memory));
    assert_eq!(CacheKind::parse("disk"), None);
}

#[test]
fn defaults_are_empty() {
    assert_eq!(CacheKind::default(), CacheKind::Memory);
    assert_eq!(CacheConfig::default().kind, CacheKind::Memory);
    let global = GlobalSection::default();
    assert!(global.r2.is_none());
    let config = Config::default();
    assert!(config.backends.is_empty());
    assert!(config.groups.is_empty());
}

#[test]
fn groups_are_found_by_chat_and_channel() {
    let groups = vec![group(Some(1), Some(-10)), group(Some(2), None), group(Some(1), Some(-10))];
    assert_eq!(find_group_by_chat(&groups, -10), Some(0));
    assert_eq!(find_group_by_chat(&groups, 5), None);
    assert_eq!(find_group_by_channel(&groups, 2), Some(1));
    assert_eq!(find_group_by_channel(&groups, 1), Some(0));
    assert_eq!(find_group_by_channel(&groups, 3), None);
    assert_eq!(find_group_by_channel(&vec![], 3), None);
}

#[test]
fn members_are_found_by_backend_name() {
    let g = Group {
        name: "g".to_owned(),
        members: vec![
            GroupMember { backend: "tg".to_owned(), config: group(None, Some(7)) },
            GroupMember { backend: "dc".to_owned(), config: group(Some(9), None) },
        ],
    };
    assert_eq!(g.member("dc"), Some(group(Some(9), None)));
    assert_eq!(g.member("tg"), Some(group(None, Some(7))));
    assert_eq!(g.member("file"), None);
}
