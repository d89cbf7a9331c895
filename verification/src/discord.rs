//! The Discord side of the relay: what a message of Discord says in the
//! canonical form, and what Discord is asked to do for an event.

use vstd::prelude::*;
use crate::broadcast::{EventView, MessageEvent, RelayError, Source};
use crate::cache::{CacheView, CorrelationCache};
use crate::config::GroupConfig;
use crate::message::{
    Attachment, AttachmentView, Author, AuthorView, IdAllocator, Message, MessageView,
    PartialAuthor, PartialAuthorView, StagedFile,
};
use crate::pattern::{all_matches, capture_first_groups, find_all, first_groups};
use crate::text::{
    decimal, has_prefix, occurs_in, opt_text, parse_u64, parsed_u64, push_decimal, replace_all, replaced,
    starts_with, text_views,
};

verus! {

/// A link to an attachment whose signature ran out, and the link that
/// takes its place.
#[derive(Debug, Clone)]
pub struct RefreshedUrl {
    pub original: String,
    pub refreshed: String,
}

/// The canonical author of a user of Discord.
pub fn to_core_author(name: String, global_name: Option<String>) -> (out: Author)
    ensures
        out@ == (AuthorView {
            display_name: opt_text(global_name),
            username: name@,
            avatar: None,
            source: Source::Discord,
        }),
{
    Author { username: name, display_name: global_name, avatar: None, source: Source::Discord }
}

/// Tells whether a message is passed over because of who wrote it: the
/// messages of bots and of the system are not relayed.
pub fn passes_over(bot: bool, system: bool) -> (out: bool)
    ensures
        out == (bot || system),
{
    bot || system
}

/// Makes the canonical message of a message of Discord. `content` is the
/// text of the message with its mentions written by name and its links
/// refreshed; the identity is the next of `ids`.
pub fn to_core_message(
    ids: &mut IdAllocator,
    name: String,
    global_name: Option<String>,
    content: String,
    attachments: Vec<Attachment>,
    in_reply_to: Option<u64>,
    reply_author: Option<PartialAuthor>,
) -> (out: Message)
    requires
        old(ids).upcoming() < u64::MAX,
    ensures
        out.id == old(ids).upcoming(),
        final(ids).upcoming() == old(ids).upcoming() + 1,
        out.author@ == (AuthorView {
            display_name: opt_text(global_name),
            username: name@,
            avatar: None,
            source: Source::Discord,
        }),
        out.content == content,
        out.attachments == attachments,
        out.in_reply_to == in_reply_to,
        out.reply_author == reply_author,
{
    let author = to_core_author(name, global_name);
    Message::new(ids, author, content, attachments, in_reply_to, reply_author)
}

/// The beginning of the name of a file that is hidden until the reader
/// asks for it.
pub const SPOILER_MARK: &'static str = "SPOILER_";

/// The canonical attachment of a file of Discord that was staged: it is
/// a spoiler where its name says so.
pub fn to_core_attachment(file: StagedFile, filename: String) -> (out: Attachment)
    ensures
        out@ == (AttachmentView {
            file: file@,
            filename: filename@,
            spoilered: has_prefix(filename@, SPOILER_MARK@),
        }),
{
    let spoilered = starts_with(filename.as_str(), SPOILER_MARK);
    Attachment { file, spoilered, filename }
}

/// The pattern of a mention of a user.
pub const MENTION_PATTERN: &'static str = "<@([0-9]+)>";

/// The pattern of a link to an attachment on the content network.
pub const CDN_LINK_PATTERN: &'static str =
    "https://(?:cdn\\.discordapp\\.com|media\\.discordapp\\.net)/attachments/\\d+/\\d+/[a-zA-Z0-9.%_\\-]+(?:\\?[\\w\\d=&]+)?";

/// What the mentions of a text name, mention by mention.
pub open spec fn mentions(content: Seq<char>) -> Seq<Seq<char>> {
    match first_groups(MENTION_PATTERN@, content) {
        Some(groups) => groups,
        None => Seq::empty(),
    }
}

/// The first of the names that is no number of an account.
pub open spec fn first_invalid(names: Seq<Seq<char>>) -> Option<int>
    decreases names.len(),
{
    if names.len() == 0 {
        None
    } else {
        match first_invalid(names.drop_last()) {
            Some(i) => Some(i),
            None => if parsed_u64(names.last()) is None {
                Some(names.len() - 1)
            } else {
                None
            },
        }
    }
}

/// The numbers that the names stand for.
pub open spec fn account_numbers(names: Seq<Seq<char>>) -> Seq<u64> {
    Seq::new(names.len(), |i: int| parsed_u64(names[i]).unwrap())
}

/// Reads the numbers of the accounts that a list of mentions names.
pub fn account_ids(names: &Vec<String>) -> (out: Result<Vec<u64>, RelayError>)
    ensures
        match first_invalid(text_views(names@)) {
            Some(i) => out matches Err(RelayError::InvalidMention(name)) && 0 <= i < names@.len()
                && name@ == names@[i]@,
            None => out matches Ok(ids) && ids@ == account_numbers(text_views(names@)),
        },
{
    let mut ids: Vec<u64> = Vec::new();
    let mut i: usize = 0;
    let ghost views = text_views(names@);
    while i < names.len()
        invariant
            0 <= i <= names.len(),
            views == text_views(names@),
            first_invalid(views.take(i as int)) is None,
            ids@ == account_numbers(views.take(i as int)),
        decreases names.len() - i,
    {
        proof {
            assert(views.take(i + 1).drop_last() =~= views.take(i as int));
            assert(views.take(i + 1).last() == names@[i as int]@);
        }
        match parse_u64(names[i].as_str()) {
            Some(id) => {
                ids.push(id);
                assert(ids@ =~= account_numbers(views.take(i + 1)));
            },
            None => {
                proof {
                    lemma_first_invalid_extends(views, i + 1);
                }
                return Err(RelayError::InvalidMention(names[i].clone()));
            },
        }
        i += 1;
    }
    assert(views.take(names@.len() as int) =~= views);
    Ok(ids)
}

/// The first invalid name of a prefix is the first invalid name of the
/// whole list.
proof fn lemma_first_invalid_extends(names: Seq<Seq<char>>, k: int)
    requires
        0 <= k <= names.len(),
        first_invalid(names.take(k)) is Some,
    ensures
        first_invalid(names) == first_invalid(names.take(k)),
    decreases names.len() - k,
{
    if k < names.len() {
        assert(names.take(k + 1).drop_last() =~= names.take(k));
        lemma_first_invalid_extends(names, k + 1);
    } else {
        assert(names.take(k) =~= names);
    }
}

/// Finds the accounts that a text mentions, from left to right.
pub fn mentioned_ids(content: &str) -> (out: Result<Vec<u64>, RelayError>)
    ensures
        match first_invalid(mentions(content@)) {
            Some(i) => out matches Err(RelayError::InvalidMention(name)) && 0 <= i < mentions(
                content@,
            ).len() && name@ == mentions(content@)[i],
            None => out matches Ok(ids) && ids@ == account_numbers(mentions(content@)),
        },
{
    match capture_first_groups(MENTION_PATTERN, content) {
        Some(names) => account_ids(&names),
        None => Ok(Vec::new()),
    }
}

/// A mention of an account as Discord writes it.
pub open spec fn mention_of(id: u64) -> Seq<char> {
    "<@"@ + decimal(id as nat) + ">"@
}

/// A user of Discord under the name other platforms show.
pub open spec fn named_user(name: Seq<char>) -> Seq<char> {
    "@dc/"@ + name
}

/// An account that a text mentions, and the name of its user where the
/// user was found.
#[derive(Debug)]
pub struct Mention {
    pub id: u64,
    pub name: Option<String>,
}

/// The text with the mentions of the first `upto` accounts written by
/// name; a mention of a user who was not found stays as it is.
pub open spec fn with_names(content: Seq<char>, found: Seq<Mention>, upto: nat) -> Seq<char>
    decreases upto,
{
    if upto == 0 {
        content
    } else {
        let before = with_names(content, found, (upto - 1) as nat);
        match found[upto - 1].name {
            Some(name) => replaced(before, mention_of(found[upto - 1].id), named_user(name@)),
            None => before,
        }
    }
}

/// Writes the mentions of a text by name.
pub fn resolve_mentions(content: &str, found: &Vec<Mention>) -> (out: String)
    ensures
        out@ == with_names(content@, found@, found@.len()),
{
    let mut text = content.to_owned();
    let mut i: usize = 0;
    while i < found.len()
        invariant
            0 <= i <= found.len(),
            text@ == with_names(content@, found@, i as nat),
        decreases found.len() - i,
    {
        match &found[i].name {
            Some(name) => {
                let mut mention = "<@".to_owned();
                push_decimal(&mut mention, found[i].id as u128);
                mention.append(">");
                let mut shown = "@dc/".to_owned();
                shown.append(name.as_str());
                text = replace_all(text.as_str(), mention.as_str(), shown.as_str());
            },
            None => {},
        }
        i += 1;
    }
    text
}

/// The links to attachments on the content network that a text holds.
pub open spec fn cdn_links_of(content: Seq<char>) -> Seq<Seq<char>> {
    match all_matches(CDN_LINK_PATTERN@, content) {
        Some(links) => links,
        None => Seq::empty(),
    }
}

/// Finds the links to attachments on the content network in a text.
pub fn cdn_links(content: &str) -> (out: Vec<String>)
    ensures
        text_views(out@) == cdn_links_of(content@),
{
    match find_all(CDN_LINK_PATTERN, content) {
        Some(links) => links,
        None => {
            let links: Vec<String> = Vec::new();
            assert(text_views(links@) =~= Seq::<Seq<char>>::empty());
            links
        },
    }
}

/// The text with the first `upto` links replaced by what takes their
/// place.
pub open spec fn with_links(content: Seq<char>, fresh: Seq<RefreshedUrl>, upto: nat) -> Seq<char>
    decreases upto,
{
    if upto == 0 {
        content
    } else {
        replaced(
            with_links(content, fresh, (upto - 1) as nat),
            fresh[upto - 1].original@,
            fresh[upto - 1].refreshed@,
        )
    }
}

/// Replaces the links of a text whose signature ran out.
pub fn refresh_links(content: &str, fresh: &Vec<RefreshedUrl>) -> (out: String)
    ensures
        out@ == with_links(content@, fresh@, fresh@.len()),
{
    let mut text = content.to_owned();
    let mut i: usize = 0;
    while i < fresh.len()
        invariant
            0 <= i <= fresh.len(),
            text@ == with_links(content@, fresh@, i as nat),
        decreases fresh.len() - i,
    {
        text = replace_all(text.as_str(), fresh[i].original.as_str(), fresh[i].refreshed.as_str());
        i += 1;
    }
    text
}

/// The message of Discord that a relayed message replies to.
#[derive(Debug, Clone, Copy, PartialEq, Eq, Structural)]
pub struct ReplyTarget {
    /// The account that wrote it.
    pub author_id: u64,
    /// The guild it was written in; zero where it was written in none.
    pub guild_id: u64,
    pub message_id: u64,
}

/// How the author of the message replied to is named: a mention for a
/// user of Discord whose message was found, the full name in bold for a
/// user of another platform.
pub open spec fn mention_text(author: Option<PartialAuthorView>, target: Option<ReplyTarget>)
    -> Option<Seq<char>> {
    match author {
        Some(author) => match author.source {
            Source::Discord => match target {
                Some(target) => Some(mention_of(target.author_id)),
                None => None,
            },
            _ => Some("**"@ + author.restored().full_name(0) + "**"@),
        },
        None => None,
    }
}

/// The line that says which message a message replies to; nothing where
/// the message replied to was not found.
pub open spec fn reply_header_text(
    author: Option<PartialAuthorView>,
    target: Option<ReplyTarget>,
    channel: u64,
) -> Seq<char> {
    match target {
        Some(t) => "*In reply to "@ + (match mention_text(author, target) {
            Some(m) => m,
            None => "???"@,
        }) + " (https://discord.com/channels/"@ + decimal(t.guild_id as nat) + "/"@ + decimal(
            channel as nat,
        ) + "/"@ + decimal(t.message_id as nat) + ")*\n"@,
        None => Seq::empty(),
    }
}

/// Names the author of the message replied to.
pub fn reply_mention(author: &Option<PartialAuthor>, target: &Option<ReplyTarget>) -> (out: Option<
    String,
>)
    ensures
        opt_text(out) == mention_text(crate::message::opt_snapshot(*author), *target),
{
    match author {
        Some(author) => match author.source {
            Source::Discord => match target {
                Some(target) => {
                    let mut out = "<@".to_owned();
                    push_decimal(&mut out, target.author_id as u128);
                    out.append(">");
                    Some(out)
                },
                None => None,
            },
            Source::Telegram => {
                let full = author.duplicate().into_author();
                let mut out = "**".to_owned();
                out.append(full.full_name(Some(0)).as_str());
                out.append("**");
                Some(out)
            },
        },
        None => None,
    }
}

/// Writes the line that says which message a message replies to.
pub fn reply_header(author: &Option<PartialAuthor>, target: &Option<ReplyTarget>, channel: u64)
    -> (out: String)
    ensures
        out@ == reply_header_text(crate::message::opt_snapshot(*author), *target, channel),
{
    match target {
        Some(t) => {
            let mut out = "*In reply to ".to_owned();
            match reply_mention(author, target) {
                Some(m) => out.append(m.as_str()),
                None => out.append("???"),
            }
            out.append(" (https://discord.com/channels/");
            push_decimal(&mut out, t.guild_id as u128);
            out.append("/");
            push_decimal(&mut out, channel as u128);
            out.append("/");
            push_decimal(&mut out, t.message_id as u128);
            out.append(")*\n");
            out
        },
        None => String::new(),
    }
}

/// The name a file is sent under: its own, behind the spoiler mark where
/// the file is a spoiler. A file that is no spoiler and whose own name
/// begins with the mark is sent with an underscore before its name, so
/// that it is not taken for one.
pub open spec fn shown_name(base: Seq<char>, spoilered: bool) -> Seq<char> {
    if spoilered {
        SPOILER_MARK@ + base
    } else if has_prefix(base, SPOILER_MARK@) {
        "_"@ + base
    } else {
        base
    }
}

/// A file is sent under a name that begins with the spoiler mark exactly
/// where it is a spoiler.
pub proof fn name_is_marked_exactly_for_a_spoiler(base: Seq<char>, spoilered: bool)
    ensures
        has_prefix(shown_name(base, spoilered), SPOILER_MARK@) <==> spoilered,
{
    reveal_strlit("SPOILER_");
    reveal_strlit("_");
    let mark = SPOILER_MARK@;
    let name = shown_name(base, spoilered);
    if spoilered {
        assert(name.subrange(0, mark.len() as int) =~= mark);
    } else if has_prefix(base, mark) {
        assert(name[0] == '_');
        assert(mark[0] == 'S');
        if has_prefix(name, mark) {
            assert(name.subrange(0, mark.len() as int)[0] == mark[0]);
        }
    }
}

/// Writes the name a file is sent under.
pub fn upload_name(base: &str, spoilered: bool) -> (out: String)
    ensures
        out@ == shown_name(base@, spoilered),
{
    if spoilered {
        let mut out = SPOILER_MARK.to_owned();
        out.append(base);
        out
    } else if starts_with(base, SPOILER_MARK) {
        let mut out = "_".to_owned();
        out.append(base);
        out
    } else {
        base.to_owned()
    }
}

/// Calls `std::path::Path::file_name` on the path and hands the name back,
/// invalid Unicode replaced as `to_string_lossy` does; nothing comes back
/// as the empty string. What counts as a separator depends on the system,
/// so the contract claims only what holds on each: the name is the final
/// component of the path, and so a part of it.
#[verifier::external_body]
fn path_file_name(path: &str) -> (out: String)
    ensures
        occurs_in(out@, path@),
{
    std::path::Path::new(path).file_name().unwrap_or_default().to_string_lossy().into_owned()
}

/// A file to send with a message.
#[derive(Debug)]
pub struct Upload {
    /// The path of the staged file.
    pub file: String,
    /// The name that the staged file was found to have: the final
    /// component of its path.
    pub base: String,
    /// The name the file is sent under.
    pub filename: String,
}

/// What a webhook is asked to post.
#[derive(Debug)]
pub struct WebhookPost {
    pub content: String,
    pub username: String,
    /// The staged avatar of the author, where there is one.
    pub avatar: Option<String>,
    pub files: Vec<Upload>,
    /// The reply line that the content begins with.
    pub header: String,
}

/// True where the uploads stand for the attachments, one for one and in
/// order, and each is sent under the name of its file, marked exactly
/// where it is a spoiler.
pub open spec fn uploads_of(files: Seq<Upload>, attachments: Seq<AttachmentView>) -> bool {
    &&& files.len() == attachments.len()
    &&& forall|i: int|
        0 <= i < files.len() ==> {
            &&& (#[trigger] files[i]).file@ == attachments[i].file
            &&& occurs_in(files[i].base@, files[i].file@)
            &&& files[i].filename@ == shown_name(files[i].base@, attachments[i].spoilered)
            &&& has_prefix(files[i].filename@, SPOILER_MARK@) <==> attachments[i].spoilered
        }
}

fn plan_uploads(attachments: &Vec<Attachment>) -> (out: Vec<Upload>)
    ensures
        uploads_of(out@, crate::message::attachment_views(attachments@)),
{
    let mut files: Vec<Upload> = Vec::new();
    let mut i: usize = 0;
    while i < attachments.len()
        invariant
            0 <= i <= attachments.len(),
            files@.len() == i,
            forall|k: int|
                0 <= k < i ==> {
                    &&& (#[trigger] files@[k]).file@ == attachments@[k]@.file
                    &&& occurs_in(files@[k].base@, files@[k].file@)
                    &&& files@[k].filename@ == shown_name(
                        files@[k].base@,
                        attachments@[k]@.spoilered,
                    )
                    &&& has_prefix(files@[k].filename@, SPOILER_MARK@)
                        <==> attachments@[k]@.spoilered
                },
        decreases attachments.len() - i,
    {
        let attachment = &attachments[i];
        let base = path_file_name(attachment.file.path.as_str());
        let filename = upload_name(base.as_str(), attachment.spoilered);
        proof {
            name_is_marked_exactly_for_a_spoiler(base@, attachment.spoilered);
        }
        files.push(Upload { file: attachment.file.path.clone(), base, filename });
        i += 1;
    }
    files
}

/// Writes what the webhook posts for a message. `target` is the message
/// of Discord that the message replies to, where it was found.
pub fn webhook_post(message: &Message, target: &Option<ReplyTarget>, channel: u64) -> (out:
    WebhookPost)
    ensures
        out.header@ == reply_header_text(message@.reply_author, *target, channel),
        out.content@ == out.header@ + message@.content,
        out.username@ == message@.author.full_name(32),
        opt_text(out.avatar) == message@.author.avatar,
        uploads_of(out.files@, message@.attachments),
{
    let header = reply_header(&message.reply_author, target, channel);
    let mut content = header.clone();
    content.append(message.content.as_str());
    let avatar = match &message.author.avatar {
        Some(file) => Some(file.path.clone()),
        None => None,
    };
    WebhookPost {
        content,
        username: message.author.full_name(None),
        avatar,
        files: plan_uploads(&message.attachments),
        header,
    }
}

/// What Discord is asked to do for an event.
#[derive(Debug)]
pub enum DiscordAction {
    /// Nothing: the group has no channel on Discord.
    Skip,
    /// Post the message; it replies to this message of Discord, where
    /// there is one.
    Post { reply_to: Option<u64> },
    /// Give the message a new content.
    Edit { handle: u64, content: String },
    /// Delete the message.
    Delete { handle: u64 },
}

/// True where the action is what Discord has to do for the event, given
/// what the cache knows.
pub open spec fn answers(action: DiscordAction, cache: CacheView, event: EventView) -> bool {
    match event {
        EventView::Create(message) => {
            &&& action matches DiscordAction::Post { reply_to }
            &&& reply_to == cache.reply_handle(message.in_reply_to)
        },
        EventView::Update(id, text) => {
            &&& cache.resolve_platform(id) matches Some((handle, header))
            &&& action matches DiscordAction::Edit { handle: h, content }
            &&& h == handle
            &&& content@ == header + text
        },
        EventView::Delete(id) => {
            &&& cache.resolve_platform(id) matches Some((handle, header))
            &&& action matches DiscordAction::Delete { handle: h }
            &&& h == handle
        },
    }
}

/// Decides what Discord is asked to do for an event. Nothing is done for
/// a group without a channel. A reply to, a change of or a deletion of a
/// message that the cache does not know is an error.
pub fn plan_delivery(cache: &CorrelationCache, group: &GroupConfig, event: &MessageEvent) -> (out:
    Result<DiscordAction, RelayError>)
    ensures
        group.channel is None ==> out matches Ok(DiscordAction::Skip),
        group.channel is Some ==> match cache@.missing(event@) {
            Some(id) => out matches Err(RelayError::CorrelationMiss(missed)) && missed == id,
            None => out matches Ok(action) && answers(action, cache@, event@),
        },
{
    if group.channel.is_none() {
        return Ok(DiscordAction::Skip);
    }
    match event {
        MessageEvent::Create(message) => match cache.find_reply(message.in_reply_to) {
            Ok(reply_to) => Ok(DiscordAction::Post { reply_to }),
            Err(miss) => Err(miss),
        },
        MessageEvent::Update(id, text) => {
            match cache.resolve_platform(*id) {
                Some((handle, header)) => {
                    let mut content = header;
                    content.append(text.as_str());
                    Ok(DiscordAction::Edit { handle, content })
                },
                None => Err(RelayError::CorrelationMiss(*id)),
            }
        },
        MessageEvent::Delete(id) => {
            match cache.resolve_platform(*id) {
                Some((handle, _)) => Ok(DiscordAction::Delete { handle }),
                None => Err(RelayError::CorrelationMiss(*id)),
            }
        },
    }
}

/// The cache after the webhook has posted a message: the message that
/// came back stands for the relayed message, under the reply line it was
/// posted with; where none came back, nothing is recorded.
pub open spec fn after_posting(
    cache: CacheView,
    message: MessageView,
    sent: Option<u64>,
    header: Seq<char>,
) -> CacheView {
    match sent {
        Some(handle) => cache.record(message.id, handle, message.author.snapshot(), header),
        None => cache,
    }
}

/// Once the webhook has posted a message, the message is found under its
/// identity, with the reply line it was posted under.
pub proof fn posted_message_is_found(
    cache: CacheView,
    message: MessageView,
    handle: u64,
    header: Seq<char>,
)
    ensures
        after_posting(cache, message, Some(handle), header).resolve_platform(message.id) == Some(
            (handle, header),
        ),
        after_posting(cache, message, Some(handle), header).resolve_internal(handle) == Some(
            (message.id, message.author.snapshot()),
        ),
{
}

/// Records what the webhook posted for a message.
pub fn record_posted(
    cache: &mut CorrelationCache,
    message: &Message,
    sent: Option<u64>,
    header: String,
)
    ensures
        final(cache)@ == after_posting(old(cache)@, message@, sent, header@),
{
    match sent {
        Some(handle) => {
            cache.record(message.id, handle, PartialAuthor::of(&message.author), header);
        },
        None => {},
    }
}

} // verus!
