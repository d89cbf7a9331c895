//! The Telegram side of the relay: what a message of Telegram says in the
//! canonical form, and what Telegram is asked to do for an event.

use vstd::prelude::*;
use crate::broadcast::{EventView, MessageEvent, RelayError};
use crate::cache::{CacheView, CorrelationCache};
use crate::config::GroupConfig;
use crate::entities::{
    converted, span_views, to_string_with_entities, MessageEntity, RichText, StringWithEntities,
};
use crate::message::{
    Attachment, AttachmentView, Author, AuthorView, IdAllocator, Message, MessageView,
    PartialAuthor,
};
use crate::text::{
    encode_utf16, occurs_in, opt_text, same_text, text_views, trim, trimmed, utf16,
};
use crate::unparse::{unparse_entities, unparsed};

verus! {

/// The game that a die message plays.
#[derive(Debug, Clone, Copy, PartialEq, Eq, Structural)]
pub enum DiceEmoji {
    Dice,
    Darts,
    Bowling,
    Basketball,
    Football,
    SlotMachine,
}

/// A die that was thrown.
#[derive(Debug, Clone, Copy, PartialEq, Eq, Structural)]
pub struct Dice {
    pub emoji: DiceEmoji,
    pub value: u8,
}

/// The face of a six-sided die.
pub open spec fn die_face(value: u8) -> Seq<char> {
    if value == 1 {
        "⚀"@
    } else if value == 2 {
        "⚁"@
    } else if value == 3 {
        "⚂"@
    } else if value == 4 {
        "⚃"@
    } else if value == 5 {
        "⚄"@
    } else if value == 6 {
        "⚅"@
    } else {
        "🎲"@
    }
}

/// Where a dart landed.
pub open spec fn darts_text(value: u8) -> Seq<char> {
    if value == 1 {
        "🎯❌ Miss!"@
    } else if value == 2 {
        "🎯🎯 Outer double!"@
    } else if value == 3 {
        "🎯🎯 Outer single!"@
    } else if value == 4 {
        "🎯🎯🎯 Triple ring!"@
    } else if value == 5 {
        "🎯🎯 Inner single!"@
    } else if value == 6 {
        "🎯🎯🎯 Bullseye!"@
    } else {
        "🎯"@
    }
}

/// How many pins a bowl took down.
pub open spec fn bowling_text(value: u8) -> Seq<char> {
    if value == 1 {
        "🎳❌ Gutter!"@
    } else if value == 2 {
        "🎳🫡 1 pin down"@
    } else if value == 3 {
        "🎳🫡 Split! 3 pins down"@
    } else if value == 4 {
        "🎳🫡 4 pins down"@
    } else if value == 5 {
        "🎳🫡 Spare! 5 pins down"@
    } else if value == 6 {
        "🎳🎳 Strike!"@
    } else {
        "🎳"@
    }
}

/// The symbol on one reel of the slot machine.
pub open spec fn slot_symbol(reel: u8) -> Seq<char> {
    if reel == 0 {
        "⬛"@
    } else if reel == 1 {
        "🍇"@
    } else if reel == 2 {
        "🍋"@
    } else if reel == 3 {
        "7️⃣"@
    } else {
        "🎰"@
    }
}

/// The three reels that a value of the slot machine stands for: the
/// digits of the value less one, in base four, lowest first.
pub open spec fn reels(value: u8) -> (u8, u8, u8) {
    (
        ((value - 1) % 4) as u8,
        (((value - 1) / 4) % 4) as u8,
        (((value - 1) / 16) % 4) as u8,
    )
}

/// What the slot machine shows.
pub open spec fn slot_text(value: u8) -> Seq<char> {
    let (a, b, c) = reels(value);
    let shown = "["@ + slot_symbol(a) + " "@ + slot_symbol(b) + " "@ + slot_symbol(c) + "]"@;
    if a == 3 && b == 3 && c == 3 {
        shown + " 🎉🎉🎉 JACKPOT!!! 🎉🎉🎉"@
    } else {
        shown
    }
}

/// A thrown die in words.
pub open spec fn die_text(die: Dice) -> Seq<char> {
    match die.emoji {
        DiceEmoji::Dice => die_face(die.value),
        DiceEmoji::Darts => darts_text(die.value),
        DiceEmoji::Bowling => bowling_text(die.value),
        DiceEmoji::Basketball => if die.value >= 4 {
            "🏀🔥"@
        } else {
            "🏀❌"@
        },
        DiceEmoji::Football => if die.value >= 3 {
            "⚽️🥅"@
        } else {
            "⚽️❌"@
        },
        DiceEmoji::SlotMachine => slot_text(die.value),
    }
}

fn slot(reel: u8) -> (out: &'static str)
    ensures
        out@ == slot_symbol(reel),
{
    if reel == 0 {
        "⬛"
    } else if reel == 1 {
        "🍇"
    } else if reel == 2 {
        "🍋"
    } else if reel == 3 {
        "7️⃣"
    } else {
        "🎰"
    }
}

/// Writes a thrown die in words. The slot machine counts from one.
pub fn serialize_die_value(die: Dice) -> (out: String)
    requires
        die.emoji is SlotMachine ==> die.value >= 1,
    ensures
        out@ == die_text(die),
{
    match die.emoji {
        DiceEmoji::Dice => {
            let face = if die.value == 1 {
                "⚀"
            } else if die.value == 2 {
                "⚁"
            } else if die.value == 3 {
                "⚂"
            } else if die.value == 4 {
                "⚃"
            } else if die.value == 5 {
                "⚄"
            } else if die.value == 6 {
                "⚅"
            } else {
                "🎲"
            };
            face.to_owned()
        },
        DiceEmoji::Darts => {
            let text = if die.value == 1 {
                "🎯❌ Miss!"
            } else if die.value == 2 {
                "🎯🎯 Outer double!"
            } else if die.value == 3 {
                "🎯🎯 Outer single!"
            } else if die.value == 4 {
                "🎯🎯🎯 Triple ring!"
            } else if die.value == 5 {
                "🎯🎯 Inner single!"
            } else if die.value == 6 {
                "🎯🎯🎯 Bullseye!"
            } else {
                "🎯"
            };
            text.to_owned()
        },
        DiceEmoji::Bowling => {
            let text = if die.value == 1 {
                "🎳❌ Gutter!"
            } else if die.value == 2 {
                "🎳🫡 1 pin down"
            } else if die.value == 3 {
                "🎳🫡 Split! 3 pins down"
            } else if die.value == 4 {
                "🎳🫡 4 pins down"
            } else if die.value == 5 {
                "🎳🫡 Spare! 5 pins down"
            } else if die.value == 6 {
                "🎳🎳 Strike!"
            } else {
                "🎳"
            };
            text.to_owned()
        },
        DiceEmoji::Basketball => {
            if die.value >= 4 {
                "🏀🔥".to_owned()
            } else {
                "🏀❌".to_owned()
            }
        },
        DiceEmoji::Football => {
            if die.value >= 3 {
                "⚽️🥅".to_owned()
            } else {
                "⚽️❌".to_owned()
            }
        },
        DiceEmoji::SlotMachine => {
            let turned: u8 = die.value - 1;
            let a: u8 = turned & 3;
            let b: u8 = (turned >> 2) & 3;
            let c: u8 = (turned >> 4) & 3;
            proof {
                assert(turned & 3 == turned % 4) by (bit_vector);
                assert((turned >> 2) & 3 == (turned / 4) % 4) by (bit_vector);
                assert((turned >> 4) & 3 == (turned / 16) % 4) by (bit_vector);
            }
            let mut value = "[".to_owned();
            value.append(slot(a));
            value.append(" ");
            value.append(slot(b));
            value.append(" ");
            value.append(slot(c));
            value.append("]");
            if a == 3 && b == 3 && c == 3 {
                value.append(" 🎉🎉🎉 JACKPOT!!! 🎉🎉🎉");
            }
            assert(value@ =~= slot_text(die.value));
            value
        },
    }
}

/// The set that a sticker belongs to.
#[derive(Debug)]
pub struct StickerSet {
    pub title: String,
    pub slug: String,
}

/// What a message of Telegram holds, as far as its text depends on it.
#[derive(Debug)]
pub enum Incoming {
    /// Text with its formatting.
    Text { text: String, entities: Vec<MessageEntity> },
    /// A photo, a video, an animation or a document, with its caption.
    Media { caption: Option<String>, entities: Vec<MessageEntity> },
    /// A sticker.
    Sticker { animated: bool, emoji: Option<String>, set: Option<StickerSet> },
    /// Media of a kind that is not relayed.
    OtherMedia,
    /// A thrown die.
    Dice(Dice),
    /// The full names of those who joined the chat.
    NewChatMembers(Vec<String>),
    /// The full name of who left the chat.
    LeftChatMember(String),
    /// The text of the message that was pinned, if it has one.
    Pinned(Option<String>),
    /// A message that holds nothing.
    Empty,
    /// A message of a kind that is not relayed.
    Other,
}

/// The names in a row, with a comma and a space between two of them.
pub open spec fn listed(names: Seq<Seq<char>>) -> Seq<char>
    decreases names.len(),
{
    if names.len() == 0 {
        Seq::empty()
    } else if names.len() == 1 {
        names[0]
    } else {
        listed(names.drop_last()) + ", "@ + names.last()
    }
}

/// The text of a caption that may be absent.
pub open spec fn caption_text(caption: Option<String>) -> Seq<char> {
    match caption {
        Some(c) => c@,
        None => Seq::empty(),
    }
}

/// The set of a sticker in words: its title as a link to the set, or a
/// remark that the set is not known.
pub open spec fn set_text(set: Option<StickerSet>) -> Seq<char> {
    match set {
        Some(set) => "["@ + set.title@ + "](<https://t.me/addstickers/"@ + set.slug@ + ">)"@,
        None => "Unknown set"@,
    }
}

/// The emoji of a sticker, or a question mark.
pub open spec fn emoji_text(emoji: Option<String>) -> Seq<char> {
    match emoji {
        Some(e) => e@,
        None => "?"@,
    }
}

impl Incoming {
    /// True where the spans of a text or of a caption lie within it.
    pub open spec fn wf(self) -> bool {
        match self {
            Incoming::Text { text, entities } => (RichText {
                text: utf16(text@),
                spans: span_views(entities@),
            }).wf(),
            Incoming::Media { caption, entities } => (RichText {
                text: utf16(caption_text(caption)),
                spans: span_views(entities@),
            }).wf(),
            Incoming::Dice(die) => die.emoji is SlotMachine ==> die.value >= 1,
            _ => true,
        }
    }

    /// The text that the message is relayed with, written by an author
    /// who is shown under `author_name`.
    pub open spec fn content(self, author_name: Seq<char>) -> Seq<char> {
        match self {
            Incoming::Text { text, entities } => unparsed(
                RichText { text: utf16(text@), spans: span_views(entities@) },
            ),
            Incoming::Media { caption, entities } => unparsed(
                RichText { text: utf16(caption_text(caption)), spans: span_views(entities@) },
            ),
            Incoming::Sticker { animated, emoji, set } => if animated {
                "[Animated sticker]"@
            } else {
                "_"@ + emoji_text(emoji) + " sticker from "@ + set_text(set) + "_"@
            },
            Incoming::OtherMedia => "[Unknown media kind]"@,
            Incoming::Dice(die) => "_"@ + author_name + " rolled a die!_\n"@ + die_text(die),
            Incoming::NewChatMembers(names) => "_"@ + listed(text_views(names@))
                + " joined the chat_"@,
            Incoming::LeftChatMember(name) => "_"@ + name@ + " left the chat_"@,
            Incoming::Pinned(text) => "_"@ + author_name + " pinned a message:_\n"@
                + caption_text(text),
            Incoming::Empty => "[Empty message]"@,
            Incoming::Other => "[Unknown message kind]"@,
        }
    }
}

/// Tells whether every span lies within the text.
pub fn entities_fit(text: &str, entities: &Vec<MessageEntity>) -> (out: bool)
    ensures
        out == (RichText { text: utf16(text@), spans: span_views(entities@) }).wf(),
{
    let units = encode_utf16(text);
    let total = units.len();
    let ghost rich = RichText { text: utf16(text@), spans: span_views(entities@) };
    let mut i: usize = 0;
    while i < entities.len()
        invariant
            0 <= i <= entities.len(),
            total == utf16(text@).len(),
            rich == (RichText { text: utf16(text@), spans: span_views(entities@) }),
            forall|k: int| 0 <= k < i ==> (#[trigger] rich.spans[k]).within(total as nat),
        decreases entities.len() - i,
    {
        let e = &entities[i];
        assert(rich.spans[i as int] == e@);
        if e.offset > total || e.length > total - e.offset {
            assert(!rich.spans[i as int].within(rich.text.len()));
            return false;
        }
        i += 1;
    }
    true
}

fn join_names(names: &Vec<String>) -> (out: String)
    ensures
        out@ == listed(text_views(names@)),
{
    let mut out = String::new();
    let mut i: usize = 0;
    let ghost views = text_views(names@);
    while i < names.len()
        invariant
            0 <= i <= names.len(),
            views == text_views(names@),
            out@ == listed(views.take(i as int)),
        decreases names.len() - i,
    {
        proof {
            assert(views.take(i + 1).drop_last() =~= views.take(i as int));
            assert(views.take(i + 1).last() == names@[i as int]@);
        }
        if i > 0 {
            out.append(", ");
        }
        out.append(names[i].as_str());
        proof {
            if i == 0 {
                assert(views.take(1).len() == 1);
                assert(out@ =~= views.take(1)[0]);
            }
        }
        i += 1;
    }
    assert(views.take(names@.len() as int) =~= views);
    out
}

/// Writes what a message of Telegram holds as the text it is relayed
/// with. `author` wrote the message.
pub fn incoming_content(kind: Incoming, author: &Author) -> (out: String)
    requires
        kind.wf(),
    ensures
        out@ == kind.content(author@.full_name(0)),
{
    match kind {
        Incoming::Text { text, entities } => unparse_entities(text.as_str(), entities),
        Incoming::Media { caption, entities } => {
            let caption = match caption {
                Some(c) => c,
                None => String::new(),
            };
            unparse_entities(caption.as_str(), entities)
        },
        Incoming::Sticker { animated, emoji, set } => {
            if animated {
                "[Animated sticker]".to_owned()
            } else {
                let set_name = match set {
                    Some(set) => {
                        let mut name = "[".to_owned();
                        name.append(set.title.as_str());
                        name.append("](<https://t.me/addstickers/");
                        name.append(set.slug.as_str());
                        name.append(">)");
                        name
                    },
                    None => "Unknown set".to_owned(),
                };
                let mut out = "_".to_owned();
                match emoji {
                    Some(e) => out.append(e.as_str()),
                    None => out.append("?"),
                }
                out.append(" sticker from ");
                out.append(set_name.as_str());
                out.append("_");
                out
            }
        },
        Incoming::OtherMedia => "[Unknown media kind]".to_owned(),
        Incoming::Dice(die) => {
            let mut out = "_".to_owned();
            out.append(author.full_name(Some(0)).as_str());
            out.append(" rolled a die!_\n");
            out.append(serialize_die_value(die).as_str());
            out
        },
        Incoming::NewChatMembers(names) => {
            let mut out = "_".to_owned();
            out.append(join_names(&names).as_str());
            out.append(" joined the chat_");
            out
        },
        Incoming::LeftChatMember(name) => {
            let mut out = "_".to_owned();
            out.append(name.as_str());
            out.append(" left the chat_");
            out
        },
        Incoming::Pinned(text) => {
            let mut out = "_".to_owned();
            out.append(author.full_name(Some(0)).as_str());
            out.append(" pinned a message:_\n");
            match text {
                Some(t) => out.append(t.as_str()),
                None => {},
            }
            out
        },
        Incoming::Empty => "[Empty message]".to_owned(),
        Incoming::Other => "[Unknown message kind]".to_owned(),
    }
}

/// Where a forwarded message came from.
#[derive(Debug)]
pub enum ForwardOrigin {
    /// The message was not forwarded.
    NotForwarded,
    /// From a user, by full name.
    User(String),
    /// From a user who hides the account, by the name that is shown.
    HiddenUser(String),
    /// From a chat, on behalf of which the message was written.
    Chat { title: Option<String>, signature: Option<String> },
    /// From a channel.
    Channel { title: Option<String>, signature: Option<String> },
}

/// A sender with the signature of the author, where there is one.
pub open spec fn signed(title: Seq<char>, signature: Option<String>) -> Seq<char> {
    match signature {
        Some(s) => "*Forwarded from "@ + title + " ("@ + s@ + ")*"@,
        None => "*Forwarded from "@ + title + "*"@,
    }
}

/// The title, or what stands for a title that is not known.
pub open spec fn title_or(title: Option<String>, unknown: Seq<char>) -> Seq<char> {
    match title {
        Some(t) => t@,
        None => unknown,
    }
}

impl ForwardOrigin {
    /// The line that says where a message was forwarded from; nothing for
    /// a message that was not forwarded.
    pub open spec fn header(self) -> Seq<char> {
        match self {
            ForwardOrigin::NotForwarded => Seq::empty(),
            ForwardOrigin::User(name) => "*Forwarded from "@ + name@ + "*"@,
            ForwardOrigin::HiddenUser(name) => "*Forwarded from "@ + name@ + "*"@,
            ForwardOrigin::Chat { title, signature } => signed(
                title_or(title, "an unknown chat"@),
                signature,
            ),
            ForwardOrigin::Channel { title, signature } => signed(
                title_or(title, "an unknown channel"@),
                signature,
            ),
        }
    }
}

fn signed_header(title: &str, signature: &Option<String>) -> (out: String)
    ensures
        out@ == signed(title@, *signature),
{
    let mut out = "*Forwarded from ".to_owned();
    out.append(title);
    match signature {
        Some(s) => {
            out.append(" (");
            out.append(s.as_str());
            out.append(")*");
        },
        None => {
            out.append("*");
        },
    }
    out
}

/// Writes the line that says where a message was forwarded from.
pub fn forwarded_header(origin: &ForwardOrigin) -> (out: String)
    ensures
        out@ == origin.header(),
{
    match origin {
        ForwardOrigin::NotForwarded => String::new(),
        ForwardOrigin::User(name) => {
            let mut out = "*Forwarded from ".to_owned();
            out.append(name.as_str());
            out.append("*");
            out
        },
        ForwardOrigin::HiddenUser(name) => {
            let mut out = "*Forwarded from ".to_owned();
            out.append(name.as_str());
            out.append("*");
            out
        },
        ForwardOrigin::Chat { title, signature } => {
            match title {
                Some(t) => signed_header(t.as_str(), signature),
                None => signed_header("an unknown chat", signature),
            }
        },
        ForwardOrigin::Channel { title, signature } => {
            match title {
                Some(t) => signed_header(t.as_str(), signature),
                None => signed_header("an unknown channel", signature),
            }
        },
    }
}

/// The header and the content on two lines, without white space around
/// them.
pub open spec fn composed(header: Seq<char>, content: Seq<char>) -> Seq<char> {
    trimmed(header + "\n"@ + content)
}

/// Puts the forward header in front of the content.
pub fn compose_content(header: &str, content: &str) -> (out: String)
    ensures
        out@ == composed(header@, content@),
{
    let mut joined = header.to_owned();
    joined.append("\n");
    joined.append(content);
    trim(joined.as_str())
}

/// The text that a message of Telegram is relayed with.
pub open spec fn relayed_text(kind: Incoming, origin: ForwardOrigin, author: AuthorView) -> Seq<
    char,
> {
    composed(origin.header(), kind.content(author.full_name(0)))
}

/// The username of a user of Telegram: the one the user chose, or `id`
/// and the number of the account.
pub open spec fn username_or_id(username: Option<String>, id: u64) -> Seq<char> {
    match username {
        Some(name) => name@,
        None => "id"@ + crate::text::decimal(id as nat),
    }
}

/// The canonical author of a user of Telegram.
pub fn to_core_author(
    full_name: String,
    username: Option<String>,
    id: u64,
    avatar: Option<crate::message::StagedFile>,
) -> (out: Author)
    ensures
        out@ == (AuthorView {
            display_name: Some(full_name@),
            username: username_or_id(username, id),
            avatar: crate::message::opt_file(avatar),
            source: crate::broadcast::Source::Telegram,
        }),
{
    let username = match username {
        Some(name) => name,
        None => {
            let mut name = "id".to_owned();
            crate::text::push_decimal(&mut name, id as u128);
            name
        },
    };
    Author {
        display_name: Some(full_name),
        username,
        avatar,
        source: crate::broadcast::Source::Telegram,
    }
}

/// Writes the text that a message of Telegram is relayed with: where it
/// was forwarded from, then what it holds.
pub fn to_core_content(kind: Incoming, origin: &ForwardOrigin, author: &Author) -> (out: String)
    requires
        kind.wf(),
    ensures
        out@ == relayed_text(kind, *origin, author@),
{
    let content = incoming_content(kind, author);
    let header = forwarded_header(origin);
    compose_content(header.as_str(), content.as_str())
}

/// Makes the canonical message of a message of Telegram: its text says
/// where the message was forwarded from and what it holds, and its
/// identity is the next of `ids`.
pub fn to_core_message(
    ids: &mut IdAllocator,
    author: Author,
    kind: Incoming,
    origin: &ForwardOrigin,
    attachments: Vec<Attachment>,
    in_reply_to: Option<u64>,
    reply_author: Option<PartialAuthor>,
) -> (out: Message)
    requires
        kind.wf(),
        old(ids).upcoming() < u64::MAX,
    ensures
        out.id == old(ids).upcoming(),
        final(ids).upcoming() == old(ids).upcoming() + 1,
        out.author == author,
        out.content@ == relayed_text(kind, *origin, author@),
        out.attachments == attachments,
        out.in_reply_to == in_reply_to,
        out.reply_author == reply_author,
{
    let content = to_core_content(kind, origin, &author);
    Message::new(ids, author, content, attachments, in_reply_to, reply_author)
}

/// How Telegram shows a file.
#[derive(Debug, Clone, Copy, PartialEq, Eq, Structural)]
pub enum MediaKind {
    Photo,
    Video,
    Audio,
    Document,
}

/// How a file with the given extension is shown: the known picture,
/// video and sound formats as such, everything else as a document.
pub open spec fn kind_of_extension(extension: Option<Seq<char>>) -> MediaKind {
    match extension {
        Some(e) => if e == "png"@ || e == "jpg"@ || e == "jpeg"@ || e == "webp"@ {
            MediaKind::Photo
        } else if e == "mp4"@ || e == "mov"@ || e == "mkv"@ || e == "webm"@ {
            MediaKind::Video
        } else if e == "mp3"@ || e == "wav"@ || e == "ogg"@ || e == "flac"@ {
            MediaKind::Audio
        } else {
            MediaKind::Document
        },
        None => MediaKind::Document,
    }
}

/// Tells how a file with the given extension is shown.
pub fn media_kind(extension: &Option<String>) -> (out: MediaKind)
    ensures
        out == kind_of_extension(opt_text(*extension)),
{
    match extension {
        Some(e) => {
            let e = e.as_str();
            if same_text(e, "png") || same_text(e, "jpg") || same_text(e, "jpeg") || same_text(
                e,
                "webp",
            ) {
                MediaKind::Photo
            } else if same_text(e, "mp4") || same_text(e, "mov") || same_text(e, "mkv")
                || same_text(e, "webm") {
                MediaKind::Video
            } else if same_text(e, "mp3") || same_text(e, "wav") || same_text(e, "ogg")
                || same_text(e, "flac") {
                MediaKind::Audio
            } else {
                MediaKind::Document
            }
        },
        None => MediaKind::Document,
    }
}

/// True where `extension` can be the extension of `filename`: it holds no
/// full stop and stands in the name behind one; and a name without a
/// full stop has none.
pub open spec fn extension_fits(filename: Seq<char>, extension: Option<Seq<char>>) -> bool {
    &&& extension matches Some(e) ==> !e.contains('.') && occurs_in(seq!['.'] + e, filename)
    &&& !filename.contains('.') ==> extension is None
}

/// Calls `std::path::Path::extension` on the name and hands the extension
/// back where it is valid Unicode. What counts as a separator depends on
/// the system, so the contract claims only what holds on each: the
/// extension is what stands behind the last full stop of the final
/// component, and there is none where no full stop is embedded.
#[verifier::external_body]
fn path_extension(filename: &str) -> (out: Option<String>)
    ensures
        extension_fits(filename@, opt_text(out)),
{
    std::path::Path::new(filename).extension().and_then(|e| e.to_str()).map(|e| e.to_owned())
}

/// One file of a media group.
#[derive(Debug)]
pub struct MediaItem {
    /// The extension that the name of the file was found to have: what
    /// stands behind the last full stop of its final component.
    pub extension: Option<String>,
    /// How the file is shown: as its extension says.
    pub kind: MediaKind,
    /// The path of the staged file.
    pub file: String,
    pub filename: String,
    /// True for the item that carries the text of the message.
    pub captioned: bool,
    /// True for a file that is hidden until the reader asks for it.
    pub spoilered: bool,
}

/// What Telegram is asked to do for an event.
#[derive(Debug)]
pub enum TelegramAction {
    /// Nothing: the group has no chat on Telegram.
    Skip,
    SendMessage { text: StringWithEntities, reply_to: Option<u64> },
    SendMediaGroup { media: Vec<MediaItem>, caption: StringWithEntities, reply_to: Option<u64> },
    EditMessageText { handle: u64, text: StringWithEntities },
    DeleteMessage { handle: u64 },
}

/// The markup of a message under the name of its author: the name in
/// bold on a line of its own, then the content.
pub open spec fn titled(name: Seq<char>, content: Seq<char>) -> Seq<char> {
    "**"@ + name + "**\n"@ + content
}

/// True where the media stand for the attachments, one for one and in
/// order, each is shown as its extension says, the first of them carries
/// the text, and a spoiler stays one.
pub open spec fn media_of(media: Seq<MediaItem>, attachments: Seq<AttachmentView>) -> bool {
    &&& media.len() == attachments.len()
    &&& forall|i: int|
        0 <= i < media.len() ==> {
            &&& (#[trigger] media[i]).file@ == attachments[i].file
            &&& extension_fits(attachments[i].filename, opt_text(media[i].extension))
            &&& media[i].kind == kind_of_extension(opt_text(media[i].extension))
            &&& media[i].filename@ == attachments[i].filename
            &&& media[i].captioned == (i == 0)
            &&& media[i].spoilered == attachments[i].spoilered
        }
}

/// True where the action is what Telegram has to do for the event, given
/// what the cache knows.
pub open spec fn answers(action: TelegramAction, cache: CacheView, event: EventView) -> bool {
    match event {
        EventView::Create(message) => {
            let text = converted(titled(message.author.full_name(0), message.content));
            let reply = cache.reply_handle(message.in_reply_to);
            if message.attachments.len() == 0 {
                &&& action matches TelegramAction::SendMessage { text: t, reply_to }
                &&& t@ == text
                &&& reply_to == reply
            } else {
                &&& action matches TelegramAction::SendMediaGroup { media, caption, reply_to }
                &&& caption@ == text
                &&& reply_to == reply
                &&& media_of(media@, message.attachments)
            }
        },
        EventView::Update(id, content) => {
            &&& cache.resolve_platform(id) matches Some((handle, header))
            &&& action matches TelegramAction::EditMessageText { handle: h, text }
            &&& h == handle
            &&& text@ == converted(titled(header, content))
        },
        EventView::Delete(id) => {
            &&& cache.resolve_platform(id) matches Some((handle, header))
            &&& action matches TelegramAction::DeleteMessage { handle: h }
            &&& h == handle
        },
    }
}

fn render_titled(name: &str, content: &str) -> (out: StringWithEntities)
    ensures
        out@ == converted(titled(name@, content@)),
        out@.wf(),
{
    let mut text = "**".to_owned();
    text.append(name);
    text.append("**\n");
    text.append(content);
    to_string_with_entities(text.as_str())
}

fn plan_media(attachments: &Vec<Attachment>) -> (out: Vec<MediaItem>)
    ensures
        media_of(out@, crate::message::attachment_views(attachments@)),
{
    let mut media: Vec<MediaItem> = Vec::new();
    let mut i: usize = 0;
    while i < attachments.len()
        invariant
            0 <= i <= attachments.len(),
            media@.len() == i,
            forall|k: int|
                0 <= k < i ==> {
                    &&& (#[trigger] media@[k]).file@ == attachments@[k]@.file
                    &&& extension_fits(
                        attachments@[k]@.filename,
                        opt_text(media@[k].extension),
                    )
                    &&& media@[k].kind == kind_of_extension(opt_text(media@[k].extension))
                    &&& media@[k].filename@ == attachments@[k]@.filename
                    &&& media@[k].captioned == (k == 0)
                    &&& media@[k].spoilered == attachments@[k]@.spoilered
                },
        decreases attachments.len() - i,
    {
        let attachment = &attachments[i];
        let extension = path_extension(attachment.filename.as_str());
        let kind = media_kind(&extension);
        media.push(
            MediaItem {
                extension,
                kind,
                file: attachment.file.path.clone(),
                filename: attachment.filename.clone(),
                captioned: i == 0,
                spoilered: attachment.spoilered,
            },
        );
        i += 1;
    }
    media
}

/// Decides what Telegram is asked to do for an event. Nothing is done for
/// a group without a chat. A message is sent as text, or as a media group
/// where it has attachments. A reply to, a change of or a deletion of a
/// message that the cache does not know is an error.
pub fn plan_delivery(cache: &CorrelationCache, group: &GroupConfig, event: &MessageEvent) -> (out:
    Result<TelegramAction, RelayError>)
    ensures
        group.chat is None ==> out matches Ok(TelegramAction::Skip),
        group.chat is Some ==> match cache@.missing(event@) {
            Some(id) => out matches Err(RelayError::CorrelationMiss(missed)) && missed == id,
            None => out matches Ok(action) && answers(action, cache@, event@),
        },
{
    if group.chat.is_none() {
        return Ok(TelegramAction::Skip);
    }
    match event {
        MessageEvent::Create(message) => {
            let reply_to = match cache.find_reply(message.in_reply_to) {
                Ok(reply_to) => reply_to,
                Err(miss) => return Err(miss),
            };
            let name = message.author.full_name(Some(0));
            let text = render_titled(name.as_str(), message.content.as_str());
            if message.attachments.len() == 0 {
                Ok(TelegramAction::SendMessage { text, reply_to })
            } else {
                let media = plan_media(&message.attachments);
                Ok(TelegramAction::SendMediaGroup { media, caption: text, reply_to })
            }
        },
        MessageEvent::Update(id, content) => {
            match cache.resolve_platform(*id) {
                Some((handle, header)) => {
                    let text = render_titled(header.as_str(), content.as_str());
                    Ok(TelegramAction::EditMessageText { handle, text })
                },
                None => Err(RelayError::CorrelationMiss(*id)),
            }
        },
        MessageEvent::Delete(id) => {
            match cache.resolve_platform(*id) {
                Some((handle, _)) => Ok(TelegramAction::DeleteMessage { handle }),
                None => Err(RelayError::CorrelationMiss(*id)),
            }
        },
    }
}

/// What was recorded for a message is what a later change or deletion of
/// it goes by: the message is no miss, a change edits the recorded
/// message of Telegram under the recorded header, and a deletion deletes
/// that message.
pub proof fn recorded_message_is_changed_and_deleted(
    cache: CacheView,
    id: u64,
    handle: u64,
    author: crate::message::PartialAuthorView,
    header: Seq<char>,
    content: Seq<char>,
    action: TelegramAction,
)
    ensures
        ({
            let after = cache.record(id, handle, author, header);
            &&& after.resolve_platform(id) == Some((handle, header))
            &&& after.missing(EventView::Update(id, content)) is None
            &&& after.missing(EventView::Delete(id)) is None
            &&& answers(action, after, EventView::Update(id, content)) ==> {
                &&& action matches TelegramAction::EditMessageText { handle: h, text }
                &&& h == handle
                &&& text@ == converted(titled(header, content))
            }
            &&& answers(action, after, EventView::Delete(id)) ==> {
                &&& action matches TelegramAction::DeleteMessage { handle: h }
                &&& h == handle
            }
        }),
{
}

/// The cache after Telegram has sent a message: the first of the
/// messages that came back stands for the relayed message, under the
/// name of its author; where none came back, nothing is recorded.
pub open spec fn after_sending(cache: CacheView, message: MessageView, sent: Seq<u64>) -> CacheView {
    if sent.len() > 0 {
        cache.record(message.id, sent[0], message.author.snapshot(), message.author.full_name(0))
    } else {
        cache
    }
}

/// Once Telegram has sent a message, the message is found under its
/// identity: the first message that came back stands for it.
pub proof fn sent_message_is_found(cache: CacheView, message: MessageView, sent: Seq<u64>)
    requires
        sent.len() > 0,
    ensures
        after_sending(cache, message, sent).resolve_platform(message.id) == Some(
            (sent[0], message.author.full_name(0)),
        ),
        after_sending(cache, message, sent).resolve_internal(sent[0]) == Some(
            (message.id, message.author.snapshot()),
        ),
{
}

/// Records what Telegram sent for a message.
pub fn record_sent(cache: &mut CorrelationCache, message: &Message, sent: &Vec<u64>)
    ensures
        final(cache)@ == after_sending(old(cache)@, message@, sent@),
{
    if sent.len() > 0 {
        cache.record(
            message.id,
            sent[0],
            PartialAuthor::of(&message.author),
            message.author.full_name(Some(0)),
        );
    }
}

/// The text of an edited message: its text, else its caption, else
/// nothing.
pub fn edited_text(text: Option<String>, caption: Option<String>) -> (out: String)
    ensures
        out@ == match text {
            Some(t) => t@,
            None => caption_text(caption),
        },
{
    match text {
        Some(t) => t,
        None => match caption {
            Some(c) => c,
            None => String::new(),
        },
    }
}

} // verus!
