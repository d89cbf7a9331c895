//! The configuration of a relay: its backends and the groups that pair
//! their channels.

use vstd::prelude::*;
use crate::text::same_text;

verus! {

/// Credentials of the object store that holds attachments.
#[derive(Debug)]
pub struct R2Config {
    pub bucket_name: String,
    pub account_id: String,
    pub access_key: String,
    pub secret_key: String,
}

/// Where links to stored attachments are remembered.
#[derive(Debug, Clone, Copy, PartialEq, Eq, Structural)]
pub enum CacheKind {
    Memory,
}

impl CacheKind {
    /// The kind that a configuration without one stands for.
    pub open spec fn spec_default() -> CacheKind {
        CacheKind::Memory
    }

    /// The kind that a name in a configuration file stands for.
    pub open spec fn named(name: Seq<char>) -> Option<CacheKind> {
        if name == "memory"@ {
            Some(CacheKind::Memory)
        } else {
            None
        }
    }

    /// Reads the name of a kind as a configuration file spells it.
    pub fn parse(name: &str) -> (out: Option<CacheKind>)
        ensures
            out == Self::named(name@),
    {
        if same_text(name, "memory") {
            Some(CacheKind::Memory)
        } else {
            None
        }
    }
}

impl Default for CacheKind {
    fn default() -> (out: Self)
        ensures
            out == CacheKind::spec_default(),
    {
        CacheKind::Memory
    }
}

/// Settings of the link cache.
#[derive(Debug)]
pub struct CacheConfig {
    pub kind: CacheKind,
}

impl Default for CacheConfig {
    fn default() -> (out: Self)
        ensures
            out.kind == CacheKind::spec_default(),
    {
        CacheConfig { kind: CacheKind::Memory }
    }
}

/// Settings that hold for every group.
#[derive(Debug)]
pub struct GlobalSection {
    pub r2: Option<R2Config>,
    pub cache: CacheConfig,
}

impl Default for GlobalSection {
    fn default() -> (out: Self)
        ensures
            out.r2 is None,
            out.cache.kind == CacheKind::spec_default(),
    {
        GlobalSection { r2: None, cache: CacheConfig { kind: CacheKind::Memory } }
    }
}

/// The platform that a backend talks to.
#[derive(Debug, Clone, Copy, PartialEq, Eq, Structural)]
pub enum BackendKind {
    Discord,
    Telegram,
    File,
}

impl BackendKind {
    /// The kind that a name in a configuration file stands for.
    pub open spec fn named(name: Seq<char>) -> Option<BackendKind> {
        if name == "discord"@ {
            Some(BackendKind::Discord)
        } else if name == "telegram"@ {
            Some(BackendKind::Telegram)
        } else if name == "file"@ {
            Some(BackendKind::File)
        } else {
            None
        }
    }

    /// The name of this kind as a configuration file spells it.
    pub open spec fn name(self) -> Seq<char> {
        match self {
            BackendKind::Discord => "discord"@,
            BackendKind::Telegram => "telegram"@,
            BackendKind::File => "file"@,
        }
    }

    /// Reads the name of a kind as a configuration file spells it.
    pub fn parse(name: &str) -> (out: Option<BackendKind>)
        ensures
            out == Self::named(name@),
    {
        if same_text(name, "discord") {
            Some(BackendKind::Discord)
        } else if same_text(name, "telegram") {
            Some(BackendKind::Telegram)
        } else if same_text(name, "file") {
            Some(BackendKind::File)
        } else {
            None
        }
    }

    /// The name of this kind as a configuration file spells it.
    pub fn as_str(self) -> (out: &'static str)
        ensures
            out@ == self.name(),
    {
        match self {
            BackendKind::Discord => "discord",
            BackendKind::Telegram => "telegram",
            BackendKind::File => "file",
        }
    }
}

/// Every kind is read back from its own name.
pub proof fn backend_kind_round_trip(kind: BackendKind)
    ensures
        BackendKind::named(kind.name()) == Some(kind),
{
    reveal_strlit("discord");
    reveal_strlit("telegram");
    reveal_strlit("file");
    assert("telegram"@[0] == 't');
    assert("file"@[0] == 'f');
    assert("discord"@[0] == 'd');
}

/// One backend: its platform and the token it signs in with (for a file
/// backend, the path of its file).
#[derive(Debug)]
pub struct BackendConfig {
    pub kind: BackendKind,
    pub token: String,
}

/// What one backend needs to know of one group.
#[derive(Debug, Clone, Copy, PartialEq, Eq, Structural)]
pub struct GroupConfig {
    /// On Discord: the guild.
    pub guild: Option<u64>,
    /// On Discord: the channel.
    pub channel: Option<u64>,
    /// On Telegram: the chat.
    pub chat: Option<i64>,
    /// If true, no message of the group is sent to this backend.
    pub readonly: bool,
    /// If true, no message is taken from this backend.
    pub writeonly: bool,
}

/// What one backend needs to know of one group.
pub type GroupBackendConfig = GroupConfig;

/// A backend under its name.
#[derive(Debug)]
pub struct NamedBackend {
    pub name: String,
    pub config: BackendConfig,
}

/// The part that one backend, called by its name, takes in a group.
#[derive(Debug)]
pub struct GroupMember {
    pub backend: String,
    pub config: GroupConfig,
}

/// A group under its name: the backends whose channels mirror each other.
#[derive(Debug)]
pub struct Group {
    pub name: String,
    pub members: Vec<GroupMember>,
}

/// A whole configuration. Backends and groups are kept in the order in
/// which they were read.
#[derive(Debug)]
pub struct Config {
    pub global: GlobalSection,
    pub backends: Vec<NamedBackend>,
    pub groups: Vec<Group>,
}

impl Default for Config {
    fn default() -> (out: Self)
        ensures
            out.global.r2 is None,
            out.backends@.len() == 0,
            out.groups@.len() == 0,
    {
        Config { global: GlobalSection::default(), backends: Vec::new(), groups: Vec::new() }
    }
}

impl Group {
    /// The first position at which `backend` takes part in this group.
    pub open spec fn position_of(self, backend: Seq<char>) -> Option<int> {
        first_member(self.members@, backend, 0)
    }

    /// What `backend` needs to know of this group, if it takes part in it.
    pub fn member(&self, backend: &str) -> (out: Option<GroupConfig>)
        ensures
            out == match self.position_of(backend@) {
                Some(i) => Some(self.members@[i].config),
                None => None,
            },
            self.position_of(backend@) matches Some(i) ==> 0 <= i < self.members@.len(),
    {
        let mut i: usize = 0;
        while i < self.members.len()
            invariant
                0 <= i <= self.members.len(),
                first_member(self.members@, backend@, 0) == first_member(
                    self.members@,
                    backend@,
                    i as int,
                ),
            decreases self.members.len() - i,
        {
            if same_text(self.members[i].backend.as_str(), backend) {
                return Some(self.members[i].config);
            }
            i += 1;
        }
        None
    }
}

/// The first position from `from` on at which `backend` is a member.
pub open spec fn first_member(members: Seq<GroupMember>, backend: Seq<char>, from: int) -> Option<
    int,
>
    decreases members.len() - from,
{
    if from < 0 || from >= members.len() {
        None
    } else if members[from].backend@ == backend {
        Some(from)
    } else {
        first_member(members, backend, from + 1)
    }
}

/// The first group from `from` on in which a backend serves the given
/// Telegram chat.
pub open spec fn first_group_with_chat(members: Seq<GroupConfig>, chat: i64, from: int) -> Option<
    int,
>
    decreases members.len() - from,
{
    if from < 0 || from >= members.len() {
        None
    } else if members[from].chat == Some(chat) {
        Some(from)
    } else {
        first_group_with_chat(members, chat, from + 1)
    }
}

/// The first group from `from` on in which a backend serves the given
/// Discord channel.
pub open spec fn first_group_with_channel(
    members: Seq<GroupConfig>,
    channel: u64,
    from: int,
) -> Option<int>
    decreases members.len() - from,
{
    if from < 0 || from >= members.len() {
        None
    } else if members[from].channel == Some(channel) {
        Some(from)
    } else {
        first_group_with_channel(members, channel, from + 1)
    }
}

/// Finds the group that a Telegram chat belongs to: the first whose chat
/// it is.
pub fn find_group_by_chat(groups: &Vec<GroupConfig>, chat: i64) -> (out: Option<usize>)
    ensures
        out matches Some(i) ==> i < groups@.len() && first_group_with_chat(groups@, chat, 0)
            == Some(i as int),
        out is None ==> first_group_with_chat(groups@, chat, 0) is None,
{
    let mut i: usize = 0;
    while i < groups.len()
        invariant
            0 <= i <= groups.len(),
            first_group_with_chat(groups@, chat, 0) == first_group_with_chat(
                groups@,
                chat,
                i as int,
            ),
        decreases groups.len() - i,
    {
        match groups[i].chat {
            Some(c) => {
                if c == chat {
                    return Some(i);
                }
            },
            None => {},
        }
        i += 1;
    }
    None
}

/// Finds the group that a Discord channel belongs to: the first whose
/// channel it is.
pub fn find_group_by_channel(groups: &Vec<GroupConfig>, channel: u64) -> (out: Option<usize>)
    ensures
        out matches Some(i) ==> i < groups@.len() && first_group_with_channel(groups@, channel, 0)
            == Some(i as int),
        out is None ==> first_group_with_channel(groups@, channel, 0) is None,
{
    let mut i: usize = 0;
    while i < groups.len()
        invariant
            0 <= i <= groups.len(),
            first_group_with_channel(groups@, channel, 0) == first_group_with_channel(
                groups@,
                channel,
                i as int,
            ),
        decreases groups.len() - i,
    {
        match groups[i].channel {
            Some(c) => {
                if c == channel {
                    return Some(i);
                }
            },
            None => {},
        }
        i += 1;
    }
    None
}

} // verus!
