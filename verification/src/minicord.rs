//! The part of the Discord API that the relay speaks: the types of the
//! gateway and of the HTTP interface, and the rules of a gateway session.

use vstd::prelude::*;
use crate::text::{decimal, decimal_string, parse_u64, parsed_u64};

verus! {

/// An identifier of Discord, kept as the decimal numeral it travels as.
#[derive(Debug, Clone)]
pub struct Snowflake(pub String);

impl View for Snowflake {
    type V = Seq<char>;

    open spec fn view(&self) -> Seq<char> {
        self.0@
    }
}

impl Snowflake {
    /// The identifier of a number.
    pub fn from_u64(value: u64) -> (out: Snowflake)
        ensures
            out@ == decimal(value as nat),
    {
        Snowflake(decimal_string(value as u128))
    }

    /// The number of an identifier; `None` where it is no numeral or does
    /// not fit.
    pub fn to_u64(&self) -> (out: Option<u64>)
        ensures
            out == parsed_u64(self@),
    {
        parse_u64(self.0.as_str())
    }
}

/// Why a gateway connection was closed.
#[derive(Debug, Clone, Copy, PartialEq, Eq, Structural)]
pub enum CloseEventCode {
    /// Something went wrong on the other side.
    UnknownError,
    /// An invalid opcode or payload was sent.
    UnknownOpcode,
    /// An invalid payload was sent.
    DecodeError,
    /// A payload was sent before identifying.
    NotAuthenticated,
    /// The token sent with the identify payload is incorrect.
    AuthenticationFailed,
    /// More than one identify payload was sent.
    AlreadyAuthenticated,
    /// The sequence sent when resuming was invalid.
    InvalidSequence,
    /// Payloads were sent too quickly.
    RateLimited,
    /// The session timed out.
    SessionTimedOut,
    /// An invalid shard was sent when identifying.
    InvalidShard,
    /// The session would have handled too many guilds.
    ShardingRequired,
    /// An invalid version of the gateway was asked for.
    InvalidAPIVersion,
    /// An invalid intent was sent.
    InvalidIntents,
    /// An intent was sent that the application may not use.
    DisallowedIntents,
}

impl CloseEventCode {
    /// The number that the gateway sends for this reason.
    pub open spec fn number(self) -> u16 {
        match self {
            CloseEventCode::UnknownError => 4000,
            CloseEventCode::UnknownOpcode => 4001,
            CloseEventCode::DecodeError => 4002,
            CloseEventCode::NotAuthenticated => 4003,
            CloseEventCode::AuthenticationFailed => 4004,
            CloseEventCode::AlreadyAuthenticated => 4005,
            CloseEventCode::InvalidSequence => 4007,
            CloseEventCode::RateLimited => 4008,
            CloseEventCode::SessionTimedOut => 4009,
            CloseEventCode::InvalidShard => 4010,
            CloseEventCode::ShardingRequired => 4011,
            CloseEventCode::InvalidAPIVersion => 4012,
            CloseEventCode::InvalidIntents => 4013,
            CloseEventCode::DisallowedIntents => 4014,
        }
    }

    /// True for the reasons after which a new connection cannot succeed.
    pub open spec fn is_final(self) -> bool {
        self is AuthenticationFailed || self is InvalidShard || self is ShardingRequired
            || self is InvalidAPIVersion || self is InvalidIntents || self is DisallowedIntents
    }

    /// Tells whether to connect again after the gateway closed with this
    /// code.
    #[must_use]
    pub fn reconnect(&self) -> (out: bool)
        ensures
            out == !self.is_final(),
    {
        match self {
            CloseEventCode::AuthenticationFailed => false,
            CloseEventCode::InvalidShard => false,
            CloseEventCode::ShardingRequired => false,
            CloseEventCode::InvalidAPIVersion => false,
            CloseEventCode::InvalidIntents => false,
            CloseEventCode::DisallowedIntents => false,
            _ => true,
        }
    }

    /// The number that the gateway sends for this reason.
    pub fn code(&self) -> (out: u16)
        ensures
            out == self.number(),
    {
        match self {
            CloseEventCode::UnknownError => 4000,
            CloseEventCode::UnknownOpcode => 4001,
            CloseEventCode::DecodeError => 4002,
            CloseEventCode::NotAuthenticated => 4003,
            CloseEventCode::AuthenticationFailed => 4004,
            CloseEventCode::AlreadyAuthenticated => 4005,
            CloseEventCode::InvalidSequence => 4007,
            CloseEventCode::RateLimited => 4008,
            CloseEventCode::SessionTimedOut => 4009,
            CloseEventCode::InvalidShard => 4010,
            CloseEventCode::ShardingRequired => 4011,
            CloseEventCode::InvalidAPIVersion => 4012,
            CloseEventCode::InvalidIntents => 4013,
            CloseEventCode::DisallowedIntents => 4014,
        }
    }

    /// The reason that a number stands for.
    pub fn from_code(code: u16) -> (out: Option<CloseEventCode>)
        ensures
            match out {
                Some(reason) => reason.number() == code,
                None => forall|reason: CloseEventCode| reason.number() != code,
            },
    {
        if code == 4000 {
            Some(CloseEventCode::UnknownError)
        } else if code == 4001 {
            Some(CloseEventCode::UnknownOpcode)
        } else if code == 4002 {
            Some(CloseEventCode::DecodeError)
        } else if code == 4003 {
            Some(CloseEventCode::NotAuthenticated)
        } else if code == 4004 {
            Some(CloseEventCode::AuthenticationFailed)
        } else if code == 4005 {
            Some(CloseEventCode::AlreadyAuthenticated)
        } else if code == 4007 {
            Some(CloseEventCode::InvalidSequence)
        } else if code == 4008 {
            Some(CloseEventCode::RateLimited)
        } else if code == 4009 {
            Some(CloseEventCode::SessionTimedOut)
        } else if code == 4010 {
            Some(CloseEventCode::InvalidShard)
        } else if code == 4011 {
            Some(CloseEventCode::ShardingRequired)
        } else if code == 4012 {
            Some(CloseEventCode::InvalidAPIVersion)
        } else if code == 4013 {
            Some(CloseEventCode::InvalidIntents)
        } else if code == 4014 {
            Some(CloseEventCode::DisallowedIntents)
        } else {
            None
        }
    }
}

/// The payload type of a gateway event.
#[derive(Debug, Clone, Copy, PartialEq, Eq, Structural)]
pub enum Opcode {
    /// (Receive) An event was dispatched.
    Dispatch,
    /// (Send/Receive) Keeps the connection alive.
    Heartbeat,
    /// (Send) Starts a new session during the initial handshake.
    Identify,
    /// (Send) Updates the client's presence.
    PresenceUpdate,
    /// (Send) Joins, leaves or moves between voice channels.
    VoiceStateUpdate,
    /// (Send) Resumes a session that was disconnected.
    Resume,
    /// (Receive) Asks to reconnect and resume at once.
    Reconnect,
    /// (Send) Asks for the offline members of a large guild.
    RequestGuildMembers,
    /// (Receive) The session has been invalidated.
    InvalidSession,
    /// (Receive) Sent right after connecting.
    Hello,
    /// (Receive) Acknowledges a heartbeat.
    HeartbeatAck,
    /// (Send) Asks for the soundboard sounds of a set of guilds.
    RequestSoundboardSounds,
}

impl Opcode {
    /// The number that travels for this opcode.
    pub open spec fn number(self) -> u8 {
        match self {
            Opcode::Dispatch => 0,
            Opcode::Heartbeat => 1,
            Opcode::Identify => 2,
            Opcode::PresenceUpdate => 3,
            Opcode::VoiceStateUpdate => 4,
            Opcode::Resume => 6,
            Opcode::Reconnect => 7,
            Opcode::RequestGuildMembers => 8,
            Opcode::InvalidSession => 9,
            Opcode::Hello => 10,
            Opcode::HeartbeatAck => 11,
            Opcode::RequestSoundboardSounds => 31,
        }
    }

    /// The number that travels for this opcode.
    pub fn code(&self) -> (out: u8)
        ensures
            out == self.number(),
    {
        match self {
            Opcode::Dispatch => 0,
            Opcode::Heartbeat => 1,
            Opcode::Identify => 2,
            Opcode::PresenceUpdate => 3,
            Opcode::VoiceStateUpdate => 4,
            Opcode::Resume => 6,
            Opcode::Reconnect => 7,
            Opcode::RequestGuildMembers => 8,
            Opcode::InvalidSession => 9,
            Opcode::Hello => 10,
            Opcode::HeartbeatAck => 11,
            Opcode::RequestSoundboardSounds => 31,
        }
    }

    /// The opcode that a number stands for.
    pub fn from_code(code: u8) -> (out: Option<Opcode>)
        ensures
            match out {
                Some(opcode) => opcode.number() == code,
                None => forall|opcode: Opcode| opcode.number() != code,
            },
    {
        if code == 0 {
            Some(Opcode::Dispatch)
        } else if code == 1 {
            Some(Opcode::Heartbeat)
        } else if code == 2 {
            Some(Opcode::Identify)
        } else if code == 3 {
            Some(Opcode::PresenceUpdate)
        } else if code == 4 {
            Some(Opcode::VoiceStateUpdate)
        } else if code == 6 {
            Some(Opcode::Resume)
        } else if code == 7 {
            Some(Opcode::Reconnect)
        } else if code == 8 {
            Some(Opcode::RequestGuildMembers)
        } else if code == 9 {
            Some(Opcode::InvalidSession)
        } else if code == 10 {
            Some(Opcode::Hello)
        } else if code == 11 {
            Some(Opcode::HeartbeatAck)
        } else if code == 31 {
            Some(Opcode::RequestSoundboardSounds)
        } else {
            None
        }
    }
}

/// Sent by the gateway right after connecting.
#[derive(Debug)]
pub struct Hello {
    /// How often to send heartbeats, in milliseconds.
    pub heartbeat_interval: u64,
}

/// Starts a session.
#[derive(Debug)]
pub struct Identify {
    pub token: String,
    pub properties: IdentifyProperties,
    pub intents: u64,
}

/// What a client says of itself when it identifies.
#[derive(Debug)]
pub struct IdentifyProperties {
    pub os: String,
    pub browser: String,
    pub device: String,
}

/// The intents that the relay asks for: the messages of guilds, and
/// their content.
pub const RELAY_INTENTS: u64 = 33280;

/// The payload with which the relay identifies.
pub fn identify_payload(token: &str) -> (out: Identify)
    ensures
        out.token@ == token@,
        out.properties.os@ == "linux"@,
        out.properties.browser@ == "minicord"@,
        out.properties.device@ == "minicord"@,
        out.intents == RELAY_INTENTS,
        out.intents == (1u64 << 9) | (1u64 << 15),
{
    assert(((1u64 << 9) | (1u64 << 15)) == 33280) by (bit_vector);
    Identify {
        token: token.to_owned(),
        properties: IdentifyProperties {
            os: "linux".to_owned(),
            browser: "minicord".to_owned(),
            device: "minicord".to_owned(),
        },
        intents: RELAY_INTENTS,
    }
}

/// A user of Discord.
#[derive(Debug, Clone)]
pub struct User {
    /// The user's id.
    pub id: Snowflake,
    /// The user's username, not unique across the platform.
    pub username: String,
    /// The user's Discord-tag.
    pub discriminator: String,
    /// The user's display name, if it is set.
    pub global_name: Option<String>,
    /// The user's avatar hash.
    pub avatar: Option<String>,
    /// Whether the user belongs to an application.
    pub bot: Option<bool>,
    /// Whether the user is an official system user.
    pub system: Option<bool>,
    /// The user's banner hash.
    pub banner: Option<String>,
    /// The user's banner color.
    pub accent_color: Option<u32>,
    /// The user's primary guild.
    pub primary_guild: Option<UserPrimaryGuild>,
}

impl User {
    /// True where the user writes for a program: a bot or the system.
    /// Messages of such users are not relayed.
    pub open spec fn is_automated(self) -> bool {
        self.bot == Some(true) || self.system == Some(true)
    }

    /// Tells whether the user writes for a program.
    pub fn automated(&self) -> (out: bool)
        ensures
            out == self.is_automated(),
    {
        let bot = match self.bot {
            Some(b) => b,
            None => false,
        };
        let system = match self.system {
            Some(b) => b,
            None => false,
        };
        bot || system
    }
}

/// The guild whose tag a user shows.
#[derive(Debug, Clone)]
pub struct UserPrimaryGuild {
    /// The id of the guild.
    pub identity_guild_id: Option<Snowflake>,
    /// Whether the user shows the guild's tag.
    pub identity_enabled: Option<bool>,
    /// The text of the tag.
    pub tag: Option<String>,
    /// The badge hash of the tag.
    pub badge: Option<String>,
}

/// The first event of a session.
#[derive(Debug, Clone)]
pub struct Ready {
    /// API version.
    pub v: u8,
    /// The user that the session belongs to.
    pub user: User,
    /// Used for resuming the session.
    pub session_id: String,
    /// Where to connect to resume.
    pub resume_gateway_url: String,
}

/// How a webhook came to be.
#[derive(Debug, Clone, Copy, PartialEq, Eq, Structural)]
pub enum WebhookKind {
    /// Posts messages to a channel with a generated token.
    Incoming,
    /// Posts the messages of a followed channel.
    ChannelFollower,
    /// Belongs to an application.
    Application,
}

impl WebhookKind {
    /// The number that travels for this kind.
    pub open spec fn number(self) -> u8 {
        match self {
            WebhookKind::Incoming => 1,
            WebhookKind::ChannelFollower => 2,
            WebhookKind::Application => 3,
        }
    }

    /// The number that travels for this kind.
    pub fn code(&self) -> (out: u8)
        ensures
            out == self.number(),
    {
        match self {
            WebhookKind::Incoming => 1,
            WebhookKind::ChannelFollower => 2,
            WebhookKind::Application => 3,
        }
    }

    /// The kind that a number stands for.
    pub fn from_code(code: u8) -> (out: Option<WebhookKind>)
        ensures
            match out {
                Some(kind) => kind.number() == code,
                None => forall|kind: WebhookKind| kind.number() != code,
            },
    {
        if code == 1 {
            Some(WebhookKind::Incoming)
        } else if code == 2 {
            Some(WebhookKind::ChannelFollower)
        } else if code == 3 {
            Some(WebhookKind::Application)
        } else {
            None
        }
    }
}

/// A webhook.
#[derive(Debug)]
pub struct Webhook {
    /// The id of the webhook.
    pub id: Snowflake,
    /// The type of the webhook.
    pub kind: WebhookKind,
    /// The guild this webhook is for, if any.
    pub guild_id: Option<Snowflake>,
    /// The channel this webhook is for, if any.
    pub channel_id: Option<Snowflake>,
    /// The user this webhook was created by.
    pub user: Option<User>,
    /// The default name of the webhook.
    pub name: Option<String>,
    /// The default avatar hash of the webhook.
    pub avatar: Option<String>,
    /// The secure token of the webhook.
    pub token: Option<String>,
    /// The application that created this webhook.
    pub application_id: Option<Snowflake>,
}

/// What the HTTP interface answers: the value asked for, or an error.
#[derive(Debug)]
pub enum APIResponse<T> {
    Success(T),
    Error {
        /// Error code.
        code: usize,
        /// The error in words.
        message: String,
    },
}

impl<T> APIResponse<T> {
    /// The value of a successful answer.
    pub fn success(self) -> (out: Option<T>)
        ensures
            out == match self {
                APIResponse::Success(value) => Some(value),
                APIResponse::Error { .. } => None::<T>,
            },
    {
        match self {
            APIResponse::Success(value) => Some(value),
            APIResponse::Error { .. } => None,
        }
    }
}

/// The events that the gateway dispatches and the relay reads.
#[derive(Debug, Clone, Copy, PartialEq, Eq, Structural)]
pub enum Event {
    Ready,
}

/// What the gateway session hands on to the rest of the program.
#[derive(Debug, Clone)]
pub enum GatewayMessage {
    Ready(Ready),
}

/// What a gateway session does with a text frame it has read.
#[derive(Debug, Clone, Copy, PartialEq, Eq, Structural)]
pub enum GatewayAction {
    /// Answer with the identify payload.
    SendIdentify,
    /// Decode the data as a ready event and hand it on.
    ForwardReady,
    /// Nothing.
    Ignore,
}

/// The rule of a session: a hello that carries data is answered by
/// identifying; a dispatched ready event that carries data is handed on;
/// every other frame is passed over.
pub open spec fn gateway_rule(opcode: Opcode, has_data: bool, event: Option<Event>) -> GatewayAction {
    if opcode is Hello && has_data {
        GatewayAction::SendIdentify
    } else if opcode is Dispatch && event is Some && has_data {
        GatewayAction::ForwardReady
    } else {
        GatewayAction::Ignore
    }
}

/// Decides what to do with a frame of the gateway.
pub fn gateway_step(opcode: Opcode, has_data: bool, event: Option<Event>) -> (out: GatewayAction)
    ensures
        out == gateway_rule(opcode, has_data, event),
{
    match opcode {
        Opcode::Hello => {
            if has_data {
                GatewayAction::SendIdentify
            } else {
                GatewayAction::Ignore
            }
        },
        Opcode::Dispatch => {
            match event {
                Some(Event::Ready) => {
                    if has_data {
                        GatewayAction::ForwardReady
                    } else {
                        GatewayAction::Ignore
                    }
                },
                None => GatewayAction::Ignore,
            }
        },
        _ => GatewayAction::Ignore,
    }
}

/// The address under which every endpoint of the HTTP interface lives.
pub open spec fn base_url() -> Seq<char> {
    "https://discord.com/api/v10"@
}

/// The address of an endpoint.
pub fn endpoint_url(endpoint: &str) -> (out: String)
    ensures
        out@ == base_url() + "/"@ + endpoint@,
{
    let mut out = "https://discord.com/api/v10".to_owned();
    out.append("/");
    out.append(endpoint);
    out
}

/// The value of the header that signs a request of a bot.
pub fn authorization(token: &str) -> (out: String)
    ensures
        out@ == "Bot "@ + token@,
{
    let mut out = "Bot ".to_owned();
    out.append(token);
    out
}

/// A close code is read back from its own number.
pub proof fn close_code_round_trip(reason: CloseEventCode, other: CloseEventCode)
    ensures
        reason.number() == other.number() ==> reason == other,
{
}

/// An opcode is read back from its own number.
pub proof fn opcode_round_trip(opcode: Opcode, other: Opcode)
    ensures
        opcode.number() == other.number() ==> opcode == other,
{
}

} // verus!
