//! Backends that are driven by a configuration: which kinds exist, and
//! what the file backend reads and writes.

use vstd::prelude::*;
use crate::broadcast::Source;
use crate::config::{BackendConfig, BackendKind, Group, GroupBackendConfig, GroupConfig};
use crate::message::{Attachment, Author, AuthorView, IdAllocator, Message, MessageView};

verus! {

/// A message on its way from one backend to the others of its group.
#[derive(Debug)]
pub struct BackendMessage {
    pub group_name: String,
    pub backend_name: String,
    pub content: Message,
}

/// The part that a backend takes in one group.
#[derive(Debug)]
pub struct BackendGroup {
    pub name: String,
    pub config: GroupBackendConfig,
}

/// A backend that appends the messages of its groups to a file and reads
/// the lines of that file as messages.
#[derive(Debug)]
pub struct FileBackend {
    pub file_path: String,
    pub name: String,
    pub group_configs: Vec<BackendGroup>,
}

impl FileBackend {
    /// The file backend called `name`: its token is the path of its file.
    pub fn new(name: &str, config: &BackendConfig, group_configs: Vec<BackendGroup>) -> (out: Self)
        ensures
            out.file_path@ == config.token@,
            out.name@ == name@,
            out.group_configs == group_configs,
    {
        FileBackend { file_path: config.token.clone(), name: name.to_owned(), group_configs }
    }
}

/// Makes the backend that a configuration asks for. Only the file
/// backend is made here; for every other kind nothing comes back.
pub fn get_backend(name: &str, backend_config: &BackendConfig, group_configs: Vec<BackendGroup>)
    -> (out: Option<FileBackend>)
    ensures
        backend_config.kind is File <==> out is Some,
        out matches Some(backend) ==> backend.file_path@ == backend_config.token@ && backend.name@
            == name@ && backend.group_configs == group_configs,
{
    match backend_config.kind {
        BackendKind::File => Some(FileBackend::new(name, backend_config, group_configs)),
        _ => None,
    }
}

/// Tells whether the messages of a group are sent to a backend: they are
/// unless the group is read-only for it.
pub fn sends_to(config: &GroupBackendConfig) -> (out: bool)
    ensures
        out == !config.readonly,
{
    !config.readonly
}

/// Tells whether messages are taken from a backend into a group: they are
/// unless the group is write-only for it.
pub fn takes_from(config: &GroupBackendConfig) -> (out: bool)
    ensures
        out == !config.writeonly,
{
    !config.writeonly
}

/// The parts that a backend takes among the first `upto` groups, in the
/// order of the groups.
pub open spec fn parts_among(groups: Seq<Group>, backend: Seq<char>, upto: int) -> Seq<
    (Seq<char>, GroupConfig),
>
    decreases upto,
{
    if upto <= 0 {
        Seq::empty()
    } else {
        match groups[upto - 1].position_of(backend) {
            Some(i) => parts_among(groups, backend, upto - 1).push(
                (groups[upto - 1].name@, groups[upto - 1].members@[i].config),
            ),
            None => parts_among(groups, backend, upto - 1),
        }
    }
}

/// The views of a list of parts.
pub open spec fn part_views(parts: Seq<BackendGroup>) -> Seq<(Seq<char>, GroupConfig)> {
    Seq::new(parts.len(), |i: int| (parts[i].name@, parts[i].config))
}

/// Collects the groups that a backend takes part in, each with what the
/// backend needs to know of it.
pub fn groups_of(groups: &Vec<Group>, backend: &str) -> (out: Vec<BackendGroup>)
    ensures
        part_views(out@) == parts_among(groups@, backend@, groups@.len() as int),
{
    let mut out: Vec<BackendGroup> = Vec::new();
    let mut i: usize = 0;
    assert(part_views(out@) =~= parts_among(groups@, backend@, 0));
    while i < groups.len()
        invariant
            0 <= i <= groups.len(),
            part_views(out@) == parts_among(groups@, backend@, i as int),
        decreases groups.len() - i,
    {
        let ghost before = part_views(out@);
        match groups[i].member(backend) {
            Some(config) => {
                out.push(BackendGroup { name: groups[i].name.clone(), config });
                assert(part_views(out@) =~= before.push((groups@[i as int].name@, config)));
            },
            None => {},
        }
        i += 1;
    }
    out
}

/// The line that the file backend writes for a message.
pub open spec fn file_line_text(
    group_name: Seq<char>,
    backend_name: Seq<char>,
    message: MessageView,
) -> Seq<char> {
    "("@ + group_name + ", "@ + backend_name + ") "@ + message.author.full_name(32) + ": "@
        + message.content + "\n"@
}

/// Writes the line that the file backend appends for a message.
pub fn file_line(message: &BackendMessage) -> (out: String)
    ensures
        out@ == file_line_text(message.group_name@, message.backend_name@, message.content@),
{
    let mut out = "(".to_owned();
    out.append(message.group_name.as_str());
    out.append(", ");
    out.append(message.backend_name.as_str());
    out.append(") ");
    out.append(message.content.author.full_name(None).as_str());
    out.append(": ");
    out.append(message.content.content.as_str());
    out.append("\n");
    out
}

/// The name under which the lines of a file are relayed.
pub open spec fn file_author(source: Source) -> AuthorView {
    AuthorView { display_name: None, username: "file_backend"@, avatar: None, source }
}

/// The message that a line of the file stands for. `source` is the
/// platform whose tag the author carries.
pub fn line_message(ids: &mut IdAllocator, line: String, source: Source) -> (out: Message)
    requires
        old(ids).upcoming() < u64::MAX,
    ensures
        out@ == (MessageView {
            author: file_author(source),
            content: line@,
            attachments: Seq::empty(),
            id: old(ids).upcoming(),
            in_reply_to: None,
            reply_author: None,
        }),
        final(ids).upcoming() == old(ids).upcoming() + 1,
{
    let author = Author {
        display_name: None,
        username: "file_backend".to_owned(),
        avatar: None,
        source,
    };
    let attachments: Vec<Attachment> = Vec::new();
    let out = Message::new(ids, author, line, attachments, None, None);
    assert(out@.attachments =~= Seq::empty());
    out
}

} // verus!
