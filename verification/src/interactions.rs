//! The interaction wire model: inbound interactions, outbound responses,
//! command definitions, and the endpoints they are exchanged on. Wire
//! codes for the enums are stated exactly; the transport encodes and
//! decodes these values outside the library.
use vstd::prelude::*;

verus! {

/// Kind of an inbound interaction; wire codes 1 and 2.
#[derive(Clone, Copy, PartialEq, Eq, Structural, Debug)]
pub enum InteractionType {
    Ping,
    ApplicationCommand,
}

impl InteractionType {
    /// The wire code of this kind.
    pub open spec fn spec_code(&self) -> u8 {
        match self {
            InteractionType::Ping => 1,
            InteractionType::ApplicationCommand => 2,
        }
    }

    pub fn code(&self) -> (c: u8)
        ensures
            c == self.spec_code(),
    {
        match self {
            InteractionType::Ping => 1,
            InteractionType::ApplicationCommand => 2,
        }
    }

    /// Decodes a wire code; exactly 1 and 2 are interaction kinds.
    pub fn from_code(c: u8) -> (r: Option<InteractionType>)
        ensures
            match r {
                Some(t) => t.spec_code() == c,
                None => c != 1 && c != 2,
            },
    {
        if c == 1 {
            Some(InteractionType::Ping)
        } else if c == 2 {
            Some(InteractionType::ApplicationCommand)
        } else {
            None
        }
    }
}

/// One named option of an invoked command, possibly carrying a scalar
/// value and nested sub-options.
pub struct DataOption {
    pub name: String,
    pub value: Option<String>,
    pub options: Option<Vec<DataOption>>,
}

/// The command payload of an interaction.
pub struct InteractionData {
    pub id: String,
    pub name: String,
    pub options: Option<Vec<DataOption>>,
}

/// The invoking user.
pub struct InteractionUser {
    pub id: String,
}

/// The invoking guild member.
pub struct InteractionGuildMember {
    pub user: InteractionUser,
}

/// One inbound interaction event, immutable once received.
pub struct Interaction {
    pub id: String,
    pub kind: InteractionType,
    pub data: InteractionData,
    pub guild_id: String,
    pub channel_id: String,
    pub member: InteractionGuildMember,
    pub token: String,
    pub version: usize,
}

/// Kind of an outbound response; wire codes 1 through 5.
#[derive(Clone, Copy, PartialEq, Eq, Structural, Debug)]
pub enum ResponseType {
    Pong,
    Acknowledge,
    ChannelMessage,
    ChannelMessageWithSource,
    ACKWithSource,
}

impl ResponseType {
    /// The wire code of this kind.
    pub open spec fn spec_code(&self) -> u8 {
        match self {
            ResponseType::Pong => 1,
            ResponseType::Acknowledge => 2,
            ResponseType::ChannelMessage => 3,
            ResponseType::ChannelMessageWithSource => 4,
            ResponseType::ACKWithSource => 5,
        }
    }

    pub fn code(&self) -> (c: u8)
        ensures
            c == self.spec_code(),
    {
        match self {
            ResponseType::Pong => 1,
            ResponseType::Acknowledge => 2,
            ResponseType::ChannelMessage => 3,
            ResponseType::ChannelMessageWithSource => 4,
            ResponseType::ACKWithSource => 5,
        }
    }
}

/// Which mentions an outbound message may ping.
pub struct AllowedMentions {
    pub parse: Vec<String>,
    pub roles: Vec<String>,
    pub users: Vec<String>,
    pub replied_user: bool,
}

impl AllowedMentions {
    /// Mentions of everyone allowed, nothing else.
    pub fn everyone() -> (r: AllowedMentions)
        ensures
            r.parse@.len() == 1 && r.parse@[0]@ == "everyone"@,
            r.roles@.len() == 0,
            r.users@.len() == 0,
            r.replied_user == false,
    {
        let mut parse: Vec<String> = Vec::new();
        parse.push(String::from_str("everyone"));
        AllowedMentions { parse, roles: Vec::new(), users: Vec::new(), replied_user: false }
    }

    /// Mentions of everyone allowed, and the replied-to user pinged.
    pub fn everyone_with_reply() -> (r: AllowedMentions)
        ensures
            r.parse@.len() == 1 && r.parse@[0]@ == "everyone"@,
            r.roles@.len() == 0,
            r.users@.len() == 0,
            r.replied_user == true,
    {
        let mut parse: Vec<String> = Vec::new();
        parse.push(String::from_str("everyone"));
        AllowedMentions { parse, roles: Vec::new(), users: Vec::new(), replied_user: true }
    }

    /// Only the replied-to user pinged.
    pub fn reply() -> (r: AllowedMentions)
        ensures
            r.parse@.len() == 0,
            r.roles@.len() == 0,
            r.users@.len() == 0,
            r.replied_user == true,
    {
        AllowedMentions { parse: Vec::new(), roles: Vec::new(), users: Vec::new(), replied_user: true }
    }

    /// No mentions at all.
    pub fn none() -> (r: AllowedMentions)
        ensures
            r.parse@.len() == 0,
            r.roles@.len() == 0,
            r.users@.len() == 0,
            r.replied_user == false,
    {
        AllowedMentions { parse: Vec::new(), roles: Vec::new(), users: Vec::new(), replied_user: false }
    }
}

/// The accent color every embed of this bot carries.
pub const EMBED_COLOR: u32 = 0x722f37;

/// One rendered report block of an outbound message.
pub struct Embed {
    pub title: String,
    pub description: String,
    pub color: u32,
    pub timestamp: Option<String>,
}

/// The payload of an outbound response.
pub struct ResponseData {
    pub tts: bool,
    pub content: String,
    pub allowed_mentions: AllowedMentions,
    pub embeds: Vec<Embed>,
}

/// One outbound result, consumed exactly once by the transport.
pub struct Response {
    pub kind: ResponseType,
    pub data: Option<ResponseData>,
}

impl Response {
    /// The reply to a Ping: a bare Pong.
    pub fn pong() -> (r: Response)
        ensures
            r.kind is Pong,
            r.data is None,
    {
        Response { kind: ResponseType::Pong, data: None }
    }

    /// A ChannelMessageWithSource response carrying one embed, no text
    /// content and no mentions: the shape every handler reply takes.
    pub fn embed_reply(embed: Embed) -> (r: Response)
        ensures
            r.kind is ChannelMessageWithSource,
            r.data matches Some(d) && d.tts == false && d.content@.len() == 0
                && d.allowed_mentions.parse@.len() == 0 && d.allowed_mentions.roles@.len() == 0
                && d.allowed_mentions.users@.len() == 0 && d.allowed_mentions.replied_user == false
                && d.embeds@.len() == 1 && d.embeds@[0] == embed,
    {
        Response {
            kind: ResponseType::ChannelMessageWithSource,
            data: Some(
                ResponseData {
                    tts: false,
                    content: String::new(),
                    allowed_mentions: AllowedMentions::none(),
                    embeds: {
                        let mut v: Vec<Embed> = Vec::new();
                        v.push(embed);
                        v
                    },
                },
            ),
        }
    }
}

/// One choice a typed command option offers.
pub struct OptionChoice {
    pub name: String,
    pub value: String,
}

/// One typed option of a registrable command definition.
pub struct CommandOption {
    pub kind: usize,
    pub name: String,
    pub description: String,
    pub default: Option<bool>,
    pub required: bool,
    pub choices: Option<Vec<OptionChoice>>,
    pub options: Option<Vec<CommandOption>>,
}

/// One registrable command definition, declared to the transport once
/// at startup.
pub struct Command {
    pub name: String,
    pub description: String,
    pub options: Vec<CommandOption>,
}

/// The endpoint a guild's commands are registered on.
pub fn build_guild_endpoint(app_id: &str, guild_id: &str) -> (r: String)
    ensures
        r@ == "https://discord.com/api/v8/applications/"@ + app_id@ + "/guilds/"@ + guild_id@
            + "/commands"@,
{
    let mut s = String::from_str("https://discord.com/api/v8/applications/");
    s.append(app_id);
    s.append("/guilds/");
    s.append(guild_id);
    s.append("/commands");
    s
}

/// The endpoint an interaction's response is posted back on.
pub fn build_response_endpoint(interaction_id: &str, interaction_token: &str) -> (r: String)
    ensures
        r@ == "https://discord.com/api/v8/interactions/"@ + interaction_id@ + "/"@
            + interaction_token@ + "/callback"@,
{
    let mut s = String::from_str("https://discord.com/api/v8/interactions/");
    s.append(interaction_id);
    s.append("/");
    s.append(interaction_token);
    s.append("/callback");
    s
}

} // verus!
