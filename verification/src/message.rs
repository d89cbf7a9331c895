//! The canonical message model that every platform adapter converts to
//! and from.

use vstd::prelude::*;
use vstd::utf8::encode_utf8;
use crate::broadcast::Source;
use crate::text::{clone_opt_string, opt_text};

verus! {

/// A file staged on local disk for the duration of a relay, named by its
/// path.
#[derive(Debug)]
pub struct StagedFile {
    pub path: String,
}

impl View for StagedFile {
    type V = Seq<char>;

    open spec fn view(&self) -> Seq<char> {
        self.path@
    }
}

/// The view of an optional staged file.
pub open spec fn opt_file(f: Option<StagedFile>) -> Option<Seq<char>> {
    match f {
        Some(f) => Some(f@),
        None => None,
    }
}

/// Who wrote a message.
#[derive(Debug)]
pub struct Author {
    pub display_name: Option<String>,
    pub username: String,
    pub avatar: Option<StagedFile>,
    pub source: Source,
}

/// An author as plain mathematical data.
pub struct AuthorView {
    pub display_name: Option<Seq<char>>,
    pub username: Seq<char>,
    pub avatar: Option<Seq<char>>,
    pub source: Source,
}

impl View for Author {
    type V = AuthorView;

    open spec fn view(&self) -> AuthorView {
        AuthorView {
            display_name: opt_text(self.display_name),
            username: self.username@,
            avatar: opt_file(self.avatar),
            source: self.source,
        }
    }
}

/// The length that `full_name` allows where the caller names none.
pub const DEFAULT_NAME_LENGTH: usize = 32;

impl AuthorView {
    /// The display name followed by the platform tag and the username.
    pub open spec fn tagged_name(self) -> Seq<char>
        recommends
            self.display_name is Some,
    {
        self.display_name->0 + " (@"@ + self.source.tag() + "/"@ + self.username + ")"@
    }

    /// The name an author is shown under: the tagged name where a display
    /// name exists and the tagged name fits in `limit` bytes of UTF-8 (a
    /// limit of zero admits any length), the display name alone where it
    /// does not fit, the username where no display name exists.
    pub open spec fn full_name(self, limit: nat) -> Seq<char> {
        match self.display_name {
            Some(display_name) => if limit != 0 && encode_utf8(self.tagged_name()).len() > limit {
                display_name
            } else {
                self.tagged_name()
            },
            None => self.username,
        }
    }
}

/// The limit that an optional length stands for.
pub open spec fn name_limit(length: Option<usize>) -> nat {
    match length {
        Some(n) => n as nat,
        None => DEFAULT_NAME_LENGTH as nat,
    }
}

impl Author {
    /// The name this author is shown under, within `length` bytes where
    /// that is possible; without a `length` the limit is 32, and a length
    /// of zero lifts the limit.
    pub fn full_name(&self, length: Option<usize>) -> (out: String)
        ensures
            out@ == self@.full_name(name_limit(length)),
    {
        let length = match length {
            Some(n) => n,
            None => DEFAULT_NAME_LENGTH,
        };
        match &self.display_name {
            Some(display_name) => {
                let mut full_name = display_name.clone();
                full_name.append(" (@");
                full_name.append(self.source.tag_str());
                full_name.append("/");
                full_name.append(self.username.as_str());
                full_name.append(")");
                assert(full_name@ =~= self@.tagged_name());
                if length != 0 && full_name.as_str().as_bytes().len() > length {
                    display_name.clone()
                } else {
                    full_name
                }
            },
            None => self.username.clone(),
        }
    }
}

/// An author without the avatar: what is kept of the author of an earlier
/// message.
#[derive(Debug, Clone)]
pub struct PartialAuthor {
    pub display_name: Option<String>,
    pub username: String,
    pub source: Source,
}

/// A partial author as plain mathematical data.
pub struct PartialAuthorView {
    pub display_name: Option<Seq<char>>,
    pub username: Seq<char>,
    pub source: Source,
}

impl View for PartialAuthor {
    type V = PartialAuthorView;

    open spec fn view(&self) -> PartialAuthorView {
        PartialAuthorView {
            display_name: opt_text(self.display_name),
            username: self.username@,
            source: self.source,
        }
    }
}

impl AuthorView {
    /// This author without the avatar.
    pub open spec fn snapshot(self) -> PartialAuthorView {
        PartialAuthorView {
            display_name: self.display_name,
            username: self.username,
            source: self.source,
        }
    }
}

impl PartialAuthorView {
    /// The author that this snapshot was taken of, the avatar left out.
    pub open spec fn restored(self) -> AuthorView {
        AuthorView {
            display_name: self.display_name,
            username: self.username,
            avatar: None,
            source: self.source,
        }
    }
}

impl PartialAuthor {
    /// A copy of this snapshot.
    pub fn duplicate(&self) -> (out: PartialAuthor)
        ensures
            out@ == self@,
            out == *self,
    {
        PartialAuthor {
            display_name: clone_opt_string(&self.display_name),
            username: self.username.clone(),
            source: self.source,
        }
    }

    /// The snapshot of an author.
    pub fn of(author: &Author) -> (out: PartialAuthor)
        ensures
            out@ == author@.snapshot(),
    {
        PartialAuthor {
            display_name: clone_opt_string(&author.display_name),
            username: author.username.clone(),
            source: author.source,
        }
    }

    /// The author this snapshot was taken of, without an avatar.
    pub fn into_author(self) -> (out: Author)
        ensures
            out@ == self@.restored(),
    {
        Author {
            display_name: self.display_name,
            username: self.username,
            avatar: None,
            source: self.source,
        }
    }
}

impl From<&Author> for PartialAuthor {
    fn from(value: &Author) -> (out: Self) {
        PartialAuthor {
            display_name: clone_opt_string(&value.display_name),
            username: value.username.clone(),
            source: value.source,
        }
    }
}

impl vstd::std_specs::convert::FromSpecImpl<&Author> for PartialAuthor {
    open spec fn obeys_from_spec() -> bool {
        true
    }

    open spec fn from_spec(value: &Author) -> Self {
        PartialAuthor {
            display_name: value.display_name,
            username: value.username,
            source: value.source,
        }
    }
}

impl From<PartialAuthor> for Author {
    fn from(value: PartialAuthor) -> (out: Self) {
        Author {
            display_name: value.display_name,
            username: value.username,
            avatar: None,
            source: value.source,
        }
    }
}

impl vstd::std_specs::convert::FromSpecImpl<PartialAuthor> for Author {
    open spec fn obeys_from_spec() -> bool {
        true
    }

    open spec fn from_spec(value: PartialAuthor) -> Self {
        Author {
            display_name: value.display_name,
            username: value.username,
            avatar: None,
            source: value.source,
        }
    }
}

/// A file that comes with a message.
#[derive(Debug)]
pub struct Attachment {
    pub file: StagedFile,
    pub filename: String,
    pub spoilered: bool,
}

/// An attachment as plain mathematical data.
pub struct AttachmentView {
    pub file: Seq<char>,
    pub filename: Seq<char>,
    pub spoilered: bool,
}

impl View for Attachment {
    type V = AttachmentView;

    open spec fn view(&self) -> AttachmentView {
        AttachmentView { file: self.file@, filename: self.filename@, spoilered: self.spoilered }
    }
}

/// The views of a list of attachments.
pub open spec fn attachment_views(items: Seq<Attachment>) -> Seq<AttachmentView> {
    Seq::new(items.len(), |i: int| items[i]@)
}

/// The view of an optional snapshot.
pub open spec fn opt_snapshot(a: Option<PartialAuthor>) -> Option<PartialAuthorView> {
    match a {
        Some(a) => Some(a@),
        None => None,
    }
}

/// A message in the form that every platform is converted to and from.
#[derive(Debug)]
pub struct Message {
    pub author: Author,
    pub content: String,
    pub attachments: Vec<Attachment>,
    pub id: u64,
    pub in_reply_to: Option<u64>,
    pub reply_author: Option<PartialAuthor>,
}

/// A message as plain mathematical data.
pub struct MessageView {
    pub author: AuthorView,
    pub content: Seq<char>,
    pub attachments: Seq<AttachmentView>,
    pub id: u64,
    pub in_reply_to: Option<u64>,
    pub reply_author: Option<PartialAuthorView>,
}

impl View for Message {
    type V = MessageView;

    open spec fn view(&self) -> MessageView {
        MessageView {
            author: self.author@,
            content: self.content@,
            attachments: attachment_views(self.attachments@),
            id: self.id,
            in_reply_to: self.in_reply_to,
            reply_author: opt_snapshot(self.reply_author),
        }
    }
}

/// Hands out the identities of messages: each one is used once, and each
/// is greater than those before it.
#[derive(Debug)]
pub struct IdAllocator {
    next: u64,
}

impl IdAllocator {
    /// The identity that comes next.
    pub closed spec fn upcoming(&self) -> u64 {
        self.next
    }

    /// An allocator that starts at zero.
    pub fn new() -> (out: Self)
        ensures
            out.upcoming() == 0,
    {
        IdAllocator { next: 0 }
    }

    /// True while an identity is left to hand out.
    pub fn has_next(&self) -> (out: bool)
        ensures
            out == (self.upcoming() < u64::MAX),
    {
        self.next < u64::MAX
    }

    /// Hands out the next identity.
    pub fn next(&mut self) -> (out: u64)
        requires
            old(self).upcoming() < u64::MAX,
        ensures
            out == old(self).upcoming(),
            final(self).upcoming() == out + 1,
    {
        let id = self.next;
        self.next = self.next + 1;
        id
    }
}

impl Message {
    /// A message under the next identity of `ids`.
    pub fn new(
        ids: &mut IdAllocator,
        author: Author,
        content: String,
        attachments: Vec<Attachment>,
        in_reply_to: Option<u64>,
        reply_author: Option<PartialAuthor>,
    ) -> (out: Self)
        requires
            old(ids).upcoming() < u64::MAX,
        ensures
            out.id == old(ids).upcoming(),
            final(ids).upcoming() == old(ids).upcoming() + 1,
            out.author == author,
            out.content == content,
            out.attachments == attachments,
            out.in_reply_to == in_reply_to,
            out.reply_author == reply_author,
    {
        let id = ids.next();
        Message { id, author, content, attachments, in_reply_to, reply_author }
    }
}

} // verus!
