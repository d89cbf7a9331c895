use oxibridge::broadcast::{MessageEvent, RelayError, Source};
use oxibridge::cache::CorrelationCache;
use oxibridge::config::GroupConfig;
use oxibridge::entities::MessageEntity;
use oxibridge::message::{
    Attachment, Author, IdAllocator, Message, PartialAuthor, StagedFile,
};
use oxibridge::telegram::{
    compose_content, edited_text, entities_fit, forwarded_header, incoming_content, media_kind,
    plan_delivery, record_sent, serialize_die_value, to_core_message, to_core_author,
    to_core_content, Dice, DiceEmoji, ForwardOrigin, Incoming, MediaKind, StickerSet,
    TelegramAction,
};

fn ann() -> Author {
    Author {
        display_name: Some("Ann".to_owned()),
        username: "ann".to_owned(),
        avatar: None,
        source: Source::Telegram,
    }
}

fn chat() -> GroupConfig {
    GroupConfig { guild: None, channel: None, chat: Some(-100), readonly: false, writeonly: false }
}

fn units(text: &str) -> Vec<u16> {
    text.encode_utf16().collect()
}

fn die(emoji: DiceEmoji, value: u8) -> String {
    serialize_die_value(Dice { emoji, value })
}

#[test]
fn dice_show_their_faces() {
    let faces = ["⚀", "⚁", "⚂", "⚃", "⚄", "⚅"];
    for (i, face) in faces.iter().enumerate() {
        assert_eq!(die(DiceEmoji::Dice, i as u8 + 1), *face);
    }
    assert_eq!(die(DiceEmoji::Dice, 0), "🎲");
    assert_eq!(die(DiceEmoji::Dice, 7), "🎲");
}

#[test]
fn darts_and_bowling_are_told_in_words() {
    assert_eq!(die(DiceEmoji::Darts, 1), "🎯❌ Miss!");
    assert_eq!(die(DiceEmoji::Darts, 2), "🎯🎯 Outer double!");
    assert_eq!(die(DiceEmoji::Darts, 3), "🎯🎯 Outer single!");
    assert_eq!(die(DiceEmoji::Darts, 4), "🎯🎯🎯 Triple ring!");
    assert_eq!(die(DiceEmoji::Darts, 5), "🎯🎯 Inner single!");
    assert_eq!(die(DiceEmoji::Darts, 6), "🎯🎯🎯 Bullseye!");
    assert_eq!(die(DiceEmoji::Darts, 9), "🎯");
    assert_eq!(die(DiceEmoji::Bowling, 1), "🎳❌ Gutter!");
    assert_eq!(die(DiceEmoji::Bowling, 2), "🎳🫡 1 pin down");
    assert_eq!(die(DiceEmoji::Bowling, 3), "🎳🫡 Split! 3 pins down");
    assert_eq!(die(DiceEmoji::Bowling, 4), "🎳🫡 4 pins down");
    assert_eq!(die(DiceEmoji::Bowling, 5), "🎳🫡 Spare! 5 pins down");
    assert_eq!(die(DiceEmoji::Bowling, 6), "🎳🎳 Strike!");
    assert_eq!(die(DiceEmoji::Bowling, 0), "🎳");
}

#[test]
fn ball_games_score_from_a_threshold() {
    assert_eq!(die(DiceEmoji::Basketball, 3), "🏀❌");
    assert_eq!(die(DiceEmoji::Basketball, 4), "🏀🔥");
    assert_eq!(die(DiceEmoji::Football, 2), "⚽️❌");
    assert_eq!(die(DiceEmoji::Football, 3), "⚽️🥅");
}

#[test]
fn slot_machine_shows_three_reels() {
    assert_eq!(die(DiceEmoji::SlotMachine, 1), "[⬛ ⬛ ⬛]");
    assert_eq!(die(DiceEmoji::SlotMachine, 2), "[🍇 ⬛ ⬛]");
    assert_eq!(die(DiceEmoji::SlotMachine, 7), "[🍋 🍇 ⬛]");
    assert_eq!(die(DiceEmoji::SlotMachine, 44), "[7️⃣ 🍋 🍋]");
    assert_eq!(die(DiceEmoji::SlotMachine, 64), "[7️⃣ 7️⃣ 7️⃣] 🎉🎉🎉 JACKPOT!!! 🎉🎉🎉");
}

#[test]
fn text_and_captions_are_written_as_markup() {
    let text = Incoming::Text {
        text: "hello, world!".to_owned(),
        entities: vec![MessageEntity::bold(7, 5)],
    };
    assert_eq!(incoming_content(text, &ann()), "hello, **world**!");
    let photo = Incoming::Media {
        caption: Some("look".to_owned()),
        entities: vec![MessageEntity::italic(0, 4)],
    };
    assert_eq!(incoming_content(photo, &ann()), "_look_");
    let bare = Incoming::Media { caption: None, entities: vec![] };
    assert_eq!(incoming_content(bare, &ann()), "");
}

#[test]
fn other_kinds_are_told_in_words() {
    let sticker = Incoming::Sticker {
        animated: false,
        emoji: Some("😀".to_owned()),
        set: Some(StickerSet { title: "Smiles".to_owned(), slug: "smiles".to_owned() }),
    };
    assert_eq!(
        incoming_content(sticker, &ann()),
        "_😀 sticker from [Smiles](<https://t.me/addstickers/smiles>)_"
    );
    let loose = Incoming::Sticker { animated: false, emoji: None, set: None };
    assert_eq!(incoming_content(loose, &ann()), "_? sticker from Unknown set_");
    let moving = Incoming::Sticker { animated: true, emoji: None, set: None };
    assert_eq!(incoming_content(moving, &ann()), "[Animated sticker]");
    assert_eq!(incoming_content(Incoming::OtherMedia, &ann()), "[Unknown media kind]");
    assert_eq!(
        incoming_content(Incoming::Dice(Dice { emoji: DiceEmoji::Dice, value: 3 }), &ann()),
        "_Ann (@tg/ann) rolled a die!_\n⚂"
    );
    assert_eq!(
        incoming_content(
            Incoming::NewChatMembers(vec!["A".to_owned(), "B C".to_owned(), "D".to_owned()]),
            &ann()
        ),
        "_A, B C, D joined the chat_"
    );
    assert_eq!(
        incoming_content(Incoming::NewChatMembers(vec!["A".to_owned()]), &ann()),
        "_A joined the chat_"
    );
    assert_eq!(incoming_content(Incoming::NewChatMembers(vec![]), &ann()), "_ joined the chat_");
    assert_eq!(
        incoming_content(Incoming::LeftChatMember("A".to_owned()), &ann()),
        "_A left the chat_"
    );
    assert_eq!(
        incoming_content(Incoming::Pinned(Some("note".to_owned())), &ann()),
        "_Ann (@tg/ann) pinned a message:_\nnote"
    );
    assert_eq!(
        incoming_content(Incoming::Pinned(None), &ann()),
        "_Ann (@tg/ann) pinned a message:_\n"
    );
    assert_eq!(incoming_content(Incoming::Empty, &ann()), "[Empty message]");
    assert_eq!(incoming_content(Incoming::Other, &ann()), "[Unknown message kind]");
}

#[test]
fn forward_header_names_the_origin() {
    assert_eq!(forwarded_header(&ForwardOrigin::NotForwarded), "");
    assert_eq!(
        forwarded_header(&ForwardOrigin::User("Bob B".to_owned())),
        "*Forwarded from Bob B*"
    );
    assert_eq!(
        forwarded_header(&ForwardOrigin::HiddenUser("Hidden".to_owned())),
        "*Forwarded from Hidden*"
    );
    assert_eq!(
        forwarded_header(&ForwardOrigin::Chat {
            title: Some("Chat".to_owned()),
            signature: Some("sig".to_owned())
        }),
        "*Forwarded from Chat (sig)*"
    );
    assert_eq!(
        forwarded_header(&ForwardOrigin::Chat { title: None, signature: None }),
        "*Forwarded from an unknown chat*"
    );
    assert_eq!(
        forwarded_header(&ForwardOrigin::Channel { title: None, signature: Some("s".to_owned()) }),
        "*Forwarded from an unknown channel (s)*"
    );
    assert_eq!(
        forwarded_header(&ForwardOrigin::Channel {
            title: Some("News".to_owned()),
            signature: None
        }),
        "*Forwarded from News*"
    );
}

#[test]
fn content_is_composed_and_trimmed() {
    assert_eq!(compose_content("", "hello"), "hello");
    assert_eq!(compose_content("*Forwarded from A*", "hello"), "*Forwarded from A*\nhello");
    assert_eq!(compose_content("*Forwarded from A*", ""), "*Forwarded from A*");
    assert_eq!(compose_content("", "  hello \n"), "hello");
    let text = Incoming::Text { text: "hi".to_owned(), entities: vec![] };
    assert_eq!(
        to_core_content(text, &ForwardOrigin::User("Bob".to_owned()), &ann()),
        "*Forwarded from Bob*\nhi"
    );
    assert_eq!(to_core_content(Incoming::Empty, &ForwardOrigin::NotForwarded, &ann()),
        "[Empty message]");
}

#[test]
fn authors_of_telegram_are_made_canonical() {
    let a = to_core_author("Ann A".to_owned(), Some("ann".to_owned()), 5, None);
    assert_eq!(a.display_name.as_deref(), Some("Ann A"));
    assert_eq!(a.username, "ann");
    assert_eq!(a.source, Source::Telegram);
    let b = to_core_author(
        "Bob".to_owned(),
        None,
        1234567,
        Some(StagedFile { path: "/tmp/p.jpg".to_owned() }),
    );
    assert_eq!(b.username, "id1234567");
    assert_eq!(b.avatar.map(|f| f.path), Some("/tmp/p.jpg".to_owned()));
}

#[test]
fn spans_are_checked_against_the_text() {
    assert!(entities_fit("ab", &vec![MessageEntity::bold(0, 2)]));
    assert!(!entities_fit("ab", &vec![MessageEntity::bold(0, 2), MessageEntity::bold(1, 2)]));
    assert!(entities_fit("\u{1F600}", &vec![MessageEntity::bold(0, 2)]));
    assert!(!entities_fit("\u{1F600}", &vec![MessageEntity::bold(0, 3)]));
    assert!(entities_fit("", &vec![]));
}

#[test]
fn files_are_shown_by_their_extension() {
    for e in ["png", "jpg", "jpeg", "webp"] {
        assert_eq!(media_kind(&Some(e.to_owned())), MediaKind::Photo);
    }
    for e in ["mp4", "mov", "mkv", "webm"] {
        assert_eq!(media_kind(&Some(e.to_owned())), MediaKind::Video);
    }
    for e in ["mp3", "wav", "ogg", "flac"] {
        assert_eq!(media_kind(&Some(e.to_owned())), MediaKind::Audio);
    }
    assert_eq!(media_kind(&Some("pdf".to_owned())), MediaKind::Document);
    assert_eq!(media_kind(&Some("PNG".to_owned())), MediaKind::Document);
    assert_eq!(media_kind(&None), MediaKind::Document);
}

fn message(ids: &mut IdAllocator, content: &str, attachments: Vec<Attachment>) -> Message {
    Message::new(
        ids,
        Author {
            display_name: Some("Dee".to_owned()),
            username: "dee".to_owned(),
            avatar: None,
            source: Source::Discord,
        },
        content.to_owned(),
        attachments,
        None,
        None,
    )
}

fn attachment(path: &str, filename: &str) -> Attachment {
    Attachment {
        file: StagedFile { path: path.to_owned() },
        filename: filename.to_owned(),
        spoilered: false,
    }
}

#[test]
fn new_message_is_sent_as_text() {
    let mut ids = IdAllocator::new();
    let mut cache = CorrelationCache::new();
    cache.record(
        40,
        900,
        PartialAuthor { display_name: None, username: "x".to_owned(), source: Source::Telegram },
        String::new(),
    );
    let mut m = message(&mut ids, "_hi_", vec![]);
    m.in_reply_to = Some(40);
    match plan_delivery(&cache, &chat(), &MessageEvent::Create(m)) {
        Ok(TelegramAction::SendMessage { text, reply_to }) => {
            assert_eq!(text.0, units("Dee (@dc/dee)\nhi"));
            assert_eq!(
                text.1,
                vec![MessageEntity::bold(0, 13), MessageEntity::italic(14, 2)]
            );
            assert_eq!(reply_to, Some(900));
        }
        other => panic!("unexpected plan {other:?}"),
    }
}

#[test]
fn message_with_files_is_sent_as_media_group() {
    let mut ids = IdAllocator::new();
    let cache = CorrelationCache::new();
    let mut m = message(
        &mut ids,
        "x",
        vec![
            attachment("/tmp/1", "a.png"),
            attachment("/tmp/2", "b.mp4"),
            attachment("/tmp/3", "c.flac"),
            attachment("/tmp/4", "d.tar.gz"),
            attachment("/tmp/5", "noext"),
        ],
    );
    match plan_delivery(&cache, &chat(), &MessageEvent::Create(m)) {
        Ok(TelegramAction::SendMediaGroup { media, caption, reply_to }) => {
            assert_eq!(reply_to, None);
            assert_eq!(caption.0, units("Dee (@dc/dee)\nx"));
            let kinds: Vec<MediaKind> = media.iter().map(|m| m.kind).collect();
            assert_eq!(
                kinds,
                vec![
                    MediaKind::Photo,
                    MediaKind::Video,
                    MediaKind::Audio,
                    MediaKind::Document,
                    MediaKind::Document
                ]
            );
            let captioned: Vec<bool> = media.iter().map(|m| m.captioned).collect();
            assert_eq!(captioned, vec![true, false, false, false, false]);
            let extensions: Vec<Option<&str>> =
                media.iter().map(|m| m.extension.as_deref()).collect();
            assert_eq!(extensions, vec![Some("png"), Some("mp4"), Some("flac"), Some("gz"), None]);
            assert!(media.iter().all(|m| !m.spoilered));
            assert_eq!(media[1].file, "/tmp/2");
            assert_eq!(media[1].filename, "b.mp4");
        }
        other => panic!("unexpected plan {other:?}"),
    }
}

#[test]
fn edit_and_delete_need_a_record() {
    let mut cache = CorrelationCache::new();
    match plan_delivery(&cache, &chat(), &MessageEvent::Update(3, "new".to_owned())) {
        Err(RelayError::CorrelationMiss(3)) => {}
        other => panic!("unexpected plan {other:?}"),
    }
    match plan_delivery(&cache, &chat(), &MessageEvent::Delete(3)) {
        Err(RelayError::CorrelationMiss(3)) => {}
        other => panic!("unexpected plan {other:?}"),
    }
    cache.record(
        3,
        33,
        PartialAuthor { display_name: None, username: "x".to_owned(), source: Source::Discord },
        "Dee (@dc/dee)".to_owned(),
    );
    match plan_delivery(&cache, &chat(), &MessageEvent::Update(3, "new".to_owned())) {
        Ok(TelegramAction::EditMessageText { handle, text }) => {
            assert_eq!(handle, 33);
            assert_eq!(text.0, units("Dee (@dc/dee)\nnew"));
            assert_eq!(text.1, vec![MessageEntity::bold(0, 13)]);
        }
        other => panic!("unexpected plan {other:?}"),
    }
    match plan_delivery(&cache, &chat(), &MessageEvent::Delete(3)) {
        Ok(TelegramAction::DeleteMessage { handle }) => assert_eq!(handle, 33),
        other => panic!("unexpected plan {other:?}"),
    }
}

#[test]
fn first_sent_message_is_recorded() {
    let mut ids = IdAllocator::new();
    let mut cache = CorrelationCache::new();
    let m = message(&mut ids, "x", vec![]);
    record_sent(&mut cache, &m, &vec![]);
    assert_eq!(cache.resolve_platform(m.id), None);
    record_sent(&mut cache, &m, &vec![71, 72]);
    assert_eq!(cache.resolve_platform(m.id), Some((71, "Dee (@dc/dee)".to_owned())));
    assert_eq!(cache.resolve_internal(71).map(|r| (r.0, r.1.username)), Some((0, "dee".to_owned())));
    assert!(cache.resolve_internal(72).is_none());
}

#[test]
fn edited_text_prefers_the_text() {
    assert_eq!(edited_text(Some("t".to_owned()), Some("c".to_owned())), "t");
    assert_eq!(edited_text(None, Some("c".to_owned())), "c");
    assert_eq!(edited_text(None, None), "");
}

#[test]
fn message_of_telegram_is_made_canonical() {
    let mut ids = IdAllocator::new();
    ids.next();
    let m = to_core_message(
        &mut ids,
        ann(),
        Incoming::Dice(Dice { emoji: DiceEmoji::Basketball, value: 5 }),
        &ForwardOrigin::HiddenUser("Hid".to_owned()),
        vec![attachment("/tmp/1", "")],
        Some(9),
        None,
    );
    assert_eq!(m.id, 1);
    assert_eq!(m.content, "*Forwarded from Hid*\n_Ann (@tg/ann) rolled a die!_\n🏀🔥");
    assert_eq!(m.author.username, "ann");
    assert_eq!(m.attachments.len(), 1);
    assert_eq!(m.in_reply_to, Some(9));
    assert!(m.reply_author.is_none());
    assert_eq!(ids.next(), 2);
}

#[test]
fn group_without_chat_is_passed_over() {
    let cache = CorrelationCache::new();
    let group =
        GroupConfig { guild: None, channel: Some(1), chat: None, readonly: false, writeonly: false };
    match plan_delivery(&cache, &group, &MessageEvent::Delete(3)) {
        Ok(TelegramAction::Skip) => {}
        other => panic!("unexpected plan {other:?}"),
    }
}

#[test]
fn reply_to_an_unknown_message_is_a_miss() {
    let mut ids = IdAllocator::new();
    let mut cache = CorrelationCache::new();
    let mut m = message(&mut ids, "x", vec![]);
    m.in_reply_to = Some(7);
    let event = MessageEvent::Create(m);
    match plan_delivery(&cache, &chat(), &event) {
        Err(RelayError::CorrelationMiss(7)) => {}
        other => panic!("unexpected plan {other:?}"),
    }
    cache.record(
        7,
        70,
        PartialAuthor { display_name: None, username: "x".to_owned(), source: Source::Telegram },
        String::new(),
    );
    match plan_delivery(&cache, &chat(), &event) {
        Ok(TelegramAction::SendMessage { reply_to, .. }) => assert_eq!(reply_to, Some(70)),
        other => panic!("unexpected plan {other:?}"),
    }
}
