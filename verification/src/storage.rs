//! The memory of which stored attachment is reachable under which link,
//! and until when.

use vstd::prelude::*;
use crate::text::same_text;

verus! {

/// How long a link to a stored attachment stays valid, in seconds: one
/// day.
pub const DAY: u64 = 86400;

/// How long before its end a link is no longer handed out, in seconds.
pub const MARGIN: u64 = 10;

/// A link to a stored attachment and the second at which it runs out.
#[derive(Debug)]
pub struct CacheItem {
    pub hash: String,
    pub url: String,
    pub expiry_time: u64,
}

/// The links that were made, at most one for each hash. They are kept in
/// a list that is searched by hash: vstd has no model of a hash map whose
/// keys are strings, so that nothing could be proved of one.
pub struct UrlCache {
    items: Vec<CacheItem>,
}

/// The position from `from` on at which the hash is kept.
pub open spec fn position_of(items: Seq<CacheItem>, hash: Seq<char>, from: int) -> Option<int>
    decreases items.len() - from,
{
    if from < 0 || from >= items.len() {
        None
    } else if items[from].hash@ == hash {
        Some(from)
    } else {
        position_of(items, hash, from + 1)
    }
}

/// True where the link is handed out at second `now`: it has at least
/// the margin left.
pub open spec fn usable(expiry_time: u64, now: u64) -> bool {
    expiry_time >= MARGIN && expiry_time - MARGIN >= now
}

/// The second at which a link made at second `now` runs out.
pub open spec fn expiry(now: u64) -> u64 {
    if now <= u64::MAX - DAY {
        (now + DAY) as u64
    } else {
        u64::MAX
    }
}

impl UrlCache {
    /// What the cache holds.
    pub closed spec fn items(&self) -> Seq<CacheItem> {
        self.items@
    }

    /// True where no hash is kept twice.
    pub open spec fn wf(&self) -> bool {
        forall|i: int, j: int|
            0 <= i < j < self.items().len() ==> (#[trigger] self.items()[i]).hash@
                != (#[trigger] self.items()[j]).hash@
    }

    /// The link that is kept for a hash, and the second at which it runs
    /// out.
    pub open spec fn entry(&self, hash: Seq<char>) -> Option<(Seq<char>, u64)> {
        match position_of(self.items(), hash, 0) {
            Some(i) => Some((self.items()[i].url@, self.items()[i].expiry_time)),
            None => None,
        }
    }

    /// The link that is handed out for a hash at second `now`, if one is
    /// kept and still usable.
    pub open spec fn hit(&self, hash: Seq<char>, now: u64) -> Option<Seq<char>> {
        match self.entry(hash) {
            Some((url, expiry_time)) => if usable(expiry_time, now) {
                Some(url)
            } else {
                None
            },
            None => None,
        }
    }

    /// A cache that holds nothing.
    pub fn new() -> (out: Self)
        ensures
            out.items().len() == 0,
            out.wf(),
    {
        UrlCache { items: Vec::new() }
    }

    fn find(&self, hash: &str) -> (out: Option<usize>)
        ensures
            out matches Some(i) ==> i < self.items().len() && self.items()[i as int].hash@ == hash@,
            out matches Some(i) ==> position_of(self.items(), hash@, 0) == Some(i as int),
            out is None ==> position_of(self.items(), hash@, 0) is None,
            out is None ==> forall|k: int|
                0 <= k < self.items().len() ==> (#[trigger] self.items()[k]).hash@ != hash@,
    {
        let mut i: usize = 0;
        while i < self.items.len()
            invariant
                0 <= i <= self.items.len(),
                position_of(self.items@, hash@, 0) == position_of(self.items@, hash@, i as int),
                forall|k: int| 0 <= k < i ==> (#[trigger] self.items@[k]).hash@ != hash@,
            decreases self.items.len() - i,
        {
            if same_text(self.items[i].hash.as_str(), hash) {
                return Some(i);
            }
            i += 1;
        }
        None
    }

    /// Looks a hash up at second `now`.
    pub fn lookup(&self, hash: &str, now: u64) -> (out: Option<String>)
        ensures
            crate::text::opt_text(out) == self.hit(hash@, now),
    {
        match self.find(hash) {
            Some(i) => {
                let item = &self.items[i];
                if item.expiry_time >= MARGIN && item.expiry_time - MARGIN >= now {
                    Some(item.url.clone())
                } else {
                    None
                }
            },
            None => None,
        }
    }

    /// Keeps the link that was made for a hash at second `now`, in place
    /// of the link kept for that hash before. It runs out a day later.
    /// What is kept for other hashes stays.
    pub fn store(&mut self, hash: String, url: String, now: u64)
        requires
            old(self).wf(),
        ensures
            final(self).wf(),
            final(self).entry(hash@) == Some((url@, expiry(now))),
            forall|other: Seq<char>|
                other != hash@ ==> #[trigger] final(self).entry(other) == old(self).entry(other),
    {
        let expiry_time = if now <= u64::MAX - DAY {
            now + DAY
        } else {
            u64::MAX
        };
        let ghost before = self.items@;
        match self.find(hash.as_str()) {
            Some(i) => {
                let kept = self.items[i].hash.clone();
                self.items[i] = CacheItem { hash: kept, url, expiry_time };
                proof {
                    assert forall|a: int, b: int| 0 <= a < b < self.items@.len() implies (
                    #[trigger] self.items@[a]).hash@ != (#[trigger] self.items@[b]).hash@ by {
                        assert(self.items@[a].hash@ == before[a].hash@);
                        assert(self.items@[b].hash@ == before[b].hash@);
                    }
                    lemma_position_found(self.items@, hash@, i as int);
                    assert forall|other: Seq<char>| other != hash@ implies #[trigger] self.entry(
                        other,
                    ) == old(self).entry(other) by {
                        lemma_position_same_hashes(before, self.items@, other, 0);
                        if position_of(before, other, 0) is Some {
                            let j = position_of(before, other, 0)->0;
                            lemma_position_holds(before, other, 0);
                            assert(j != i);
                            assert(self.items@[j] == before[j]);
                        }
                    }
                }
            },
            None => {
                self.items.push(CacheItem { hash, url, expiry_time });
                proof {
                    assert forall|a: int, b: int| 0 <= a < b < self.items@.len() implies (
                    #[trigger] self.items@[a]).hash@ != (#[trigger] self.items@[b]).hash@ by {
                        if b < before.len() {
                            assert(self.items@[a] == before[a]);
                            assert(self.items@[b] == before[b]);
                        } else {
                            assert(self.items@[a] == before[a]);
                        }
                    }
                    lemma_position_found(self.items@, hash@, before.len() as int);
                    assert forall|other: Seq<char>| other != hash@ implies #[trigger] self.entry(
                        other,
                    ) == old(self).entry(other) by {
                        lemma_position_push(before, self.items@[before.len() as int], other, 0);
                        assert(self.items@ =~= before.push(self.items@[before.len() as int]));
                        if position_of(before, other, 0) is Some {
                            let j = position_of(before, other, 0)->0;
                            lemma_position_holds(before, other, 0);
                            assert(self.items@[j] == before[j]);
                        }
                    }
                }
            },
        }
    }
}

/// A position that is found lies within the list and holds the hash.
proof fn lemma_position_holds(items: Seq<CacheItem>, hash: Seq<char>, from: int)
    requires
        0 <= from,
    ensures
        position_of(items, hash, from) matches Some(i) ==> from <= i < items.len() && items[i].hash@
            == hash,
    decreases items.len() - from,
{
    if from < items.len() && items[from].hash@ != hash {
        lemma_position_holds(items, hash, from + 1);
    }
}

/// Lists that hold the same hashes at the same places find a hash at the
/// same place.
proof fn lemma_position_same_hashes(a: Seq<CacheItem>, b: Seq<CacheItem>, hash: Seq<char>, from: int)
    requires
        a.len() == b.len(),
        forall|k: int| 0 <= k < a.len() ==> (#[trigger] a[k]).hash@ == b[k].hash@,
    ensures
        position_of(a, hash, from) == position_of(b, hash, from),
    decreases a.len() - from,
{
    if 0 <= from < a.len() {
        assert(a[from].hash@ == b[from].hash@);
        if a[from].hash@ != hash {
            lemma_position_same_hashes(a, b, hash, from + 1);
        }
    }
}

/// One more item at the end leaves the place of every other hash as it
/// was.
proof fn lemma_position_push(items: Seq<CacheItem>, item: CacheItem, hash: Seq<char>, from: int)
    requires
        item.hash@ != hash,
    ensures
        position_of(items.push(item), hash, from) == position_of(items, hash, from),
    decreases items.len() - from,
{
    let longer = items.push(item);
    if 0 <= from < items.len() {
        assert(longer[from] == items[from]);
        if items[from].hash@ != hash {
            lemma_position_push(items, item, hash, from + 1);
        }
    } else if from == items.len() {
        assert(longer[from] == item);
        assert(position_of(longer, hash, from + 1) is None);
    }
}

/// Where a hash is kept at `at` and nowhere before, that is its position.
proof fn lemma_position_found(items: Seq<CacheItem>, hash: Seq<char>, at: int)
    requires
        0 <= at < items.len(),
        items[at].hash@ == hash,
        forall|k: int| 0 <= k < at ==> (#[trigger] items[k]).hash@ != hash,
    ensures
        position_of(items, hash, 0) == Some(at),
{
    lemma_position_from(items, hash, at, 0);
}

proof fn lemma_position_from(items: Seq<CacheItem>, hash: Seq<char>, at: int, from: int)
    requires
        0 <= from <= at < items.len(),
        items[at].hash@ == hash,
        forall|k: int| 0 <= k < at ==> (#[trigger] items[k]).hash@ != hash,
    ensures
        position_of(items, hash, from) == Some(at),
    decreases at - from,
{
    if from < at {
        lemma_position_from(items, hash, at, from + 1);
    }
}

/// The name under which an attachment is stored: the SHA-256 digest of
/// its content in lower-case hexadecimal digits.
pub uninterp spec fn sha256_hex(content: Seq<u8>) -> Seq<char>;

/// Calls `sha256::digest` on the bytes. The contract names the result and
/// claims no more than that it is a function of the bytes.
#[verifier::external_body]
fn digest(content: &Vec<u8>) -> (out: String)
    ensures
        out@ == sha256_hex(content@),
{
    sha256::digest(content.as_slice())
}

/// What is done for an attachment whose link is asked for.
#[derive(Debug)]
pub enum StorageAction {
    /// Hand this link out.
    Reuse(String),
    /// Store the content under this name and make a link to it.
    Upload(String),
}

/// Decides what is done for an attachment with the given content at
/// second `now`: its link is handed out again where one is kept and
/// usable, and the content is stored under its digest otherwise.
pub fn plan_url(cache: &UrlCache, content: &Vec<u8>, now: u64) -> (out: StorageAction)
    ensures
        match cache.hit(sha256_hex(content@), now) {
            Some(url) => out matches StorageAction::Reuse(u) && u@ == url,
            None => out matches StorageAction::Upload(name) && name@ == sha256_hex(content@),
        },
{
    let hash = digest(content);
    match cache.lookup(hash.as_str(), now) {
        Some(url) => StorageAction::Reuse(url),
        None => StorageAction::Upload(hash),
    }
}

} // verus!
