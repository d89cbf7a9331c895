//! The record that one platform keeps of which of its messages stands for
//! which relayed message.

use std::collections::HashMap;
use vstd::prelude::*;
use crate::broadcast::{EventView, MessageEvent, RelayError};
use crate::message::{Message, PartialAuthor, PartialAuthorView};

verus! {

/// What is known of a message of the platform: the identity of the
/// relayed message it stands for, and who wrote that.
struct Origin {
    id: u64,
    author: PartialAuthor,
}

/// What is known of a relayed message: the message of the platform that
/// stands for it, and the header it was sent under.
struct Relayed {
    handle: u64,
    header: String,
}

/// The two directions of a cache as plain mathematical data.
pub struct CacheView {
    /// From a message of the platform to the relayed message.
    pub forward: Map<u64, (u64, PartialAuthorView)>,
    /// From a relayed message to the message of the platform.
    pub reverse: Map<u64, (u64, Seq<char>)>,
}

impl CacheView {
    /// The cache that holds nothing.
    pub open spec fn empty() -> CacheView {
        CacheView { forward: Map::empty(), reverse: Map::empty() }
    }

    /// The cache after one more record. An earlier record under the same
    /// identity, or under the same handle, gives way to the new one.
    pub open spec fn record(self, id: u64, handle: u64, author: PartialAuthorView, header: Seq<char>)
        -> CacheView {
        CacheView {
            forward: self.forward.insert(handle, (id, author)),
            reverse: self.reverse.insert(id, (handle, header)),
        }
    }

    /// The message of the platform that stands for a relayed message, and
    /// its header.
    pub open spec fn resolve_platform(self, id: u64) -> Option<(u64, Seq<char>)> {
        if self.reverse.contains_key(id) {
            Some(self.reverse[id])
        } else {
            None
        }
    }

    /// The relayed message that a message of the platform stands for, and
    /// its author.
    pub open spec fn resolve_internal(self, handle: u64) -> Option<(u64, PartialAuthorView)> {
        if self.forward.contains_key(handle) {
            Some(self.forward[handle])
        } else {
            None
        }
    }

    /// The message of the platform that a reply points at, where the
    /// message replied to is known to the platform.
    pub open spec fn reply_handle(self, in_reply_to: Option<u64>) -> Option<u64> {
        match in_reply_to {
            Some(id) => match self.resolve_platform(id) {
                Some((handle, _)) => Some(handle),
                None => None,
            },
            None => None,
        }
    }

    /// The identity that an event refers to and the platform has no
    /// record of: the message that a new message replies to, or the
    /// message that the event changes or deletes. A new message that
    /// replies to nothing misses nothing.
    pub open spec fn missing(self, event: EventView) -> Option<u64> {
        let target = match event {
            EventView::Create(message) => message.in_reply_to,
            EventView::Update(id, _) => Some(id),
            EventView::Delete(id) => Some(id),
        };
        match target {
            Some(id) => if self.resolve_platform(id) is None {
                Some(id)
            } else {
                None
            },
            None => None,
        }
    }

    /// What is known of the message that an incoming message replies to:
    /// its identity and its author, where the platform has a record of it.
    pub open spec fn reply_context(self, reply_to: Option<u64>) -> Option<(u64, PartialAuthorView)> {
        match reply_to {
            Some(handle) => self.resolve_internal(handle),
            None => None,
        }
    }

    /// True where each direction leads to a key of the other: what was
    /// recorded was recorded in both.
    pub open spec fn closed_under_lookup(self) -> bool {
        &&& forall|handle: u64| #[trigger]
            self.forward.contains_key(handle) ==> self.reverse.contains_key(
                self.forward[handle].0,
            )
        &&& forall|id: u64| #[trigger]
            self.reverse.contains_key(id) ==> self.forward.contains_key(self.reverse[id].0)
    }
}

/// The correlation cache of one platform.
pub struct CorrelationCache {
    forward: HashMap<u64, Origin>,
    reverse: HashMap<u64, Relayed>,
}

impl View for CorrelationCache {
    type V = CacheView;

    closed spec fn view(&self) -> CacheView {
        CacheView {
            forward: Map::new(
                |handle: u64| self.forward@.contains_key(handle),
                |handle: u64| (self.forward@[handle].id, self.forward@[handle].author@),
            ),
            reverse: Map::new(
                |id: u64| self.reverse@.contains_key(id),
                |id: u64| (self.reverse@[id].handle, self.reverse@[id].header@),
            ),
        }
    }
}

impl CorrelationCache {
    /// A cache that holds nothing.
    pub fn new() -> (out: Self)
        ensures
            out@ == CacheView::empty(),
            out@.closed_under_lookup(),
    {
        let out = CorrelationCache { forward: HashMap::new(), reverse: HashMap::new() };
        assert(out@.forward =~= Map::empty());
        assert(out@.reverse =~= Map::empty());
        out
    }

    /// Records that the message `platform_handle` of the platform stands
    /// for the relayed message `internal_id`, in both directions.
    pub fn record(
        &mut self,
        internal_id: u64,
        platform_handle: u64,
        author: PartialAuthor,
        header: String,
    )
        ensures
            final(self)@ == old(self)@.record(internal_id, platform_handle, author@, header@),
            old(self)@.closed_under_lookup() ==> final(self)@.closed_under_lookup(),
    {
        broadcast use vstd::std_specs::hash::group_hash_axioms;

        self.forward.insert(platform_handle, Origin { id: internal_id, author });
        self.reverse.insert(internal_id, Relayed { handle: platform_handle, header });
        proof {
            let want = old(self)@.record(internal_id, platform_handle, author@, header@);
            assert(self@.forward =~= want.forward);
            assert(self@.reverse =~= want.reverse);
        }
    }

    /// Finds the message of the platform that stands for a relayed
    /// message, and the header it was sent under.
    pub fn resolve_platform(&self, internal_id: u64) -> (out: Option<(u64, String)>)
        ensures
            match out {
                Some((handle, header)) => self@.resolve_platform(internal_id) == Some(
                    (handle, header@),
                ),
                None => self@.resolve_platform(internal_id) is None,
            },
    {
        broadcast use vstd::std_specs::hash::group_hash_axioms;

        match self.reverse.get(&internal_id) {
            Some(relayed) => Some((relayed.handle, relayed.header.clone())),
            None => None,
        }
    }

    /// Finds the message of the platform that a reply points at. A reply
    /// to a message that the platform has no record of is an error.
    pub fn find_reply(&self, in_reply_to: Option<u64>) -> (out: Result<Option<u64>, RelayError>)
        ensures
            match in_reply_to {
                Some(id) => match self@.resolve_platform(id) {
                    Some((handle, _)) => out matches Ok(Some(found)) && found == handle,
                    None => out matches Err(RelayError::CorrelationMiss(missed)) && missed == id,
                },
                None => out matches Ok(None),
            },
            out matches Ok(found) ==> found == self@.reply_handle(in_reply_to),
    {
        match in_reply_to {
            Some(id) => match self.resolve_platform(id) {
                Some((handle, _)) => Ok(Some(handle)),
                None => Err(RelayError::CorrelationMiss(id)),
            },
            None => Ok(None),
        }
    }

    /// Finds the relayed message that a message of the platform stands
    /// for, and its author.
    pub fn resolve_internal(&self, platform_handle: u64) -> (out: Option<(u64, PartialAuthor)>)
        ensures
            match out {
                Some((id, author)) => self@.resolve_internal(platform_handle) == Some(
                    (id, author@),
                ),
                None => self@.resolve_internal(platform_handle) is None,
            },
    {
        broadcast use vstd::std_specs::hash::group_hash_axioms;

        match self.forward.get(&platform_handle) {
            Some(origin) => Some((origin.id, origin.author.duplicate())),
            None => None,
        }
    }
}

impl CorrelationCache {
    /// Finds the relayed message that an incoming message replies to, and
    /// its author.
    pub fn find_reply_context(&self, reply_to: Option<u64>) -> (out: (
        Option<u64>,
        Option<PartialAuthor>,
    ))
        ensures
            match self@.reply_context(reply_to) {
                Some((id, author)) => {
                    &&& out.0 == Some(id)
                    &&& out.1 matches Some(a)
                    &&& a@ == author
                },
                None => out.0 is None && out.1 is None,
            },
    {
        match reply_to {
            Some(handle) => match self.resolve_internal(handle) {
                Some((id, author)) => (Some(id), Some(author)),
                None => (None, None),
            },
            None => (None, None),
        }
    }

    /// Records a message that came in from the platform under the
    /// identity it is relayed with. It was sent under no header.
    pub fn record_incoming(&mut self, message: &Message, handle: u64)
        ensures
            final(self)@ == old(self)@.record(
                message.id,
                handle,
                message@.author.snapshot(),
                Seq::empty(),
            ),
    {
        self.record(message.id, handle, PartialAuthor::of(&message.author), String::new());
    }

    /// The event that an edit of a message of the platform stands for; an
    /// error where the platform has no record of the message.
    pub fn update_event(&self, handle: u64, text: String) -> (out: Result<MessageEvent, RelayError>)
        ensures
            match self@.resolve_internal(handle) {
                Some((id, _)) => out matches Ok(event) && event@ == EventView::Update(id, text@),
                None => out matches Err(RelayError::CorrelationMiss(missed)) && missed == handle,
            },
    {
        match self.resolve_internal(handle) {
            Some((id, _)) => Ok(MessageEvent::Update(id, text)),
            None => Err(RelayError::CorrelationMiss(handle)),
        }
    }

    /// The event that the deletion of a message of the platform stands
    /// for; an error where the platform has no record of the message.
    pub fn delete_event(&self, handle: u64) -> (out: Result<MessageEvent, RelayError>)
        ensures
            match self@.resolve_internal(handle) {
                Some((id, _)) => out matches Ok(event) && event@ == EventView::Delete(id),
                None => out matches Err(RelayError::CorrelationMiss(missed)) && missed == handle,
            },
    {
        match self.resolve_internal(handle) {
            Some((id, _)) => Ok(MessageEvent::Delete(id)),
            None => Err(RelayError::CorrelationMiss(handle)),
        }
    }
}

/// What was recorded under an identity is what a lookup of that identity
/// finds.
pub proof fn record_then_resolve_platform(
    cache: CacheView,
    id: u64,
    handle: u64,
    author: PartialAuthorView,
    header: Seq<char>,
)
    ensures
        cache.record(id, handle, author, header).resolve_platform(id) == Some((handle, header)),
        cache.record(id, handle, author, header).resolve_internal(handle) == Some((id, author)),
{
}

/// A record leaves every other identity and every other handle as it was.
pub proof fn record_keeps_the_rest(
    cache: CacheView,
    id: u64,
    handle: u64,
    author: PartialAuthorView,
    header: Seq<char>,
    other_id: u64,
    other_handle: u64,
)
    requires
        other_id != id,
        other_handle != handle,
    ensures
        cache.record(id, handle, author, header).resolve_platform(other_id)
            == cache.resolve_platform(other_id),
        cache.record(id, handle, author, header).resolve_internal(other_handle)
            == cache.resolve_internal(other_handle),
{
}

/// One record: a message of the platform that stands for a relayed
/// message.
pub struct Record {
    pub id: u64,
    pub handle: u64,
    pub author: PartialAuthorView,
    pub header: Seq<char>,
}

/// The cache that a run of records makes, the oldest record first.
pub open spec fn recorded(records: Seq<Record>) -> CacheView
    decreases records.len(),
{
    if records.len() == 0 {
        CacheView::empty()
    } else {
        let last = records.last();
        recorded(records.drop_last()).record(last.id, last.handle, last.author, last.header)
    }
}

/// An identity that was never recorded is not found, and neither is a
/// handle that was never recorded.
pub proof fn unrecorded_is_not_found(records: Seq<Record>, id: u64, handle: u64)
    ensures
        (forall|i: int| 0 <= i < records.len() ==> (#[trigger] records[i]).id != id) ==> recorded(
            records,
        ).resolve_platform(id) is None,
        (forall|i: int| 0 <= i < records.len() ==> (#[trigger] records[i]).handle != handle)
            ==> recorded(records).resolve_internal(handle) is None,
    decreases records.len(),
{
    if records.len() > 0 {
        let before = records.drop_last();
        unrecorded_is_not_found(before, id, handle);
        if forall|i: int| 0 <= i < records.len() ==> (#[trigger] records[i]).id != id {
            assert forall|i: int| 0 <= i < before.len() implies (#[trigger] before[i]).id != id by {
                assert(before[i] == records[i]);
            }
            assert(records[records.len() - 1].id != id);
        }
        if forall|i: int| 0 <= i < records.len() ==> (#[trigger] records[i]).handle != handle {
            assert forall|i: int| 0 <= i < before.len() implies (#[trigger] before[i]).handle
                != handle by {
                assert(before[i] == records[i]);
            }
            assert(records[records.len() - 1].handle != handle);
        }
    }
}

/// Whatever was recorded, each direction leads to a key of the other.
pub proof fn records_are_closed_under_lookup(records: Seq<Record>)
    ensures
        recorded(records).closed_under_lookup(),
    decreases records.len(),
{
    if records.len() > 0 {
        records_are_closed_under_lookup(records.drop_last());
    }
}

/// A record keeps the two directions closed under lookup.
pub proof fn record_keeps_closure(
    cache: CacheView,
    id: u64,
    handle: u64,
    author: PartialAuthorView,
    header: Seq<char>,
)
    requires
        cache.closed_under_lookup(),
    ensures
        cache.record(id, handle, author, header).closed_under_lookup(),
{
}

} // verus!
