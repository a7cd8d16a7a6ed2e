//! Commands the client can emit, and their exact wire JSON. Every serializer
//! is proved to produce the text its spec function describes: the command tag
//! under `cmd`, arguments under `args`, and for subscription commands the
//! event tag merged into the same object under `evt`.

use vstd::prelude::*;
use vstd::string::*;

use crate::json::bool_json;
use crate::json::i32_dec;
use crate::json::json_quote;
use crate::json::spec_bool_json;
use crate::json::spec_int_dec;
use crate::json::spec_quoted;
use crate::json::spec_string_array;
use crate::json::spec_string_views;
use crate::json::spec_u64_dec;
use crate::json::string_array_json;
use crate::json::u64_dec;
use crate::models::shared::SetUserVoiceSettingsData;
use crate::models::shared::UserVoiceSettings;
use crate::models::shared::VoicePan;
use crate::DiscordRPCError;

verus! {

/// The arguments of an authorize command.
#[derive(Clone, Debug, PartialEq, Eq)]
pub struct AuthorizeArgs {
    /// array of OAuth2 scopes - scopes to authorize
    pub scopes: Vec<String>,
    /// string - OAuth2 application ID
    pub client_id: String,
    /// string - one-time use RPC token
    pub rpc_token: Option<String>,
    /// string - username to create a guest account with if the user does not have Discord
    pub username: Option<String>,
}

/// The wire JSON of authorize arguments; absent optional members are omitted.
pub open spec fn spec_authorize_args_json(a: AuthorizeArgs) -> Seq<char> {
    "{\"scopes\":"@ + spec_string_array(spec_string_views(a.scopes@)) + ",\"client_id\":"@
        + spec_quoted(a.client_id@) + (match a.rpc_token {
        Some(t) => ",\"rpc_token\":"@ + spec_quoted(t@),
        None => Seq::<char>::empty(),
    }) + (match a.username {
        Some(u) => ",\"username\":"@ + spec_quoted(u@),
        None => Seq::<char>::empty(),
    }) + "}"@
}

impl AuthorizeArgs {
    /// Writes these arguments as their wire JSON object.
    pub fn to_json(&self) -> (r: String)
        ensures
            r@ == spec_authorize_args_json(*self),
    {
        let mut out = String::from_str("{\"scopes\":");
        out.append(string_array_json(&self.scopes).as_str());
        out.append(",\"client_id\":");
        out.append(json_quote(self.client_id.as_str()).as_str());
        if let Some(t) = &self.rpc_token {
            out.append(",\"rpc_token\":");
            out.append(json_quote(t.as_str()).as_str());
        }
        if let Some(u) = &self.username {
            out.append(",\"username\":");
            out.append(json_quote(u.as_str()).as_str());
        }
        out.append("}");
        proof {
            assert(out@ =~= spec_authorize_args_json(*self));
        }
        out
    }
}

/// The arguments of an authenticate command.
#[derive(Clone, Debug, PartialEq, Eq)]
pub struct AuthenticateArgs {
    /// string - OAuth2 access token
    pub access_token: String,
}

/// The wire JSON of authenticate arguments.
pub open spec fn spec_authenticate_args_json(a: AuthenticateArgs) -> Seq<char> {
    "{\"access_token\":"@ + spec_quoted(a.access_token@) + "}"@
}

impl AuthenticateArgs {
    /// Writes these arguments as their wire JSON object.
    pub fn to_json(&self) -> (r: String)
        ensures
            r@ == spec_authenticate_args_json(*self),
    {
        let mut out = String::from_str("{\"access_token\":");
        out.append(json_quote(self.access_token.as_str()).as_str());
        out.append("}");
        proof {
            assert(out@ =~= spec_authenticate_args_json(*self));
        }
        out
    }
}

/// The arguments of a get-guild command.
#[derive(Clone, Debug, PartialEq, Eq)]
pub struct GetGuildArgs {
    /// string - id of the guild to get
    pub guild_id: String,
    /// integer - asynchronously get guild with time to wait before timing out
    pub timeout: Option<i32>,
}

/// The wire JSON of get-guild arguments.
pub open spec fn spec_get_guild_args_json(a: GetGuildArgs) -> Seq<char> {
    "{\"guild_id\":"@ + spec_quoted(a.guild_id@) + (match a.timeout {
        Some(t) => ",\"timeout\":"@ + spec_int_dec(t as int),
        None => Seq::<char>::empty(),
    }) + "}"@
}

impl GetGuildArgs {
    /// Writes these arguments as their wire JSON object.
    pub fn to_json(&self) -> (r: String)
        ensures
            r@ == spec_get_guild_args_json(*self),
    {
        let mut out = String::from_str("{\"guild_id\":");
        out.append(json_quote(self.guild_id.as_str()).as_str());
        if let Some(t) = &self.timeout {
            out.append(",\"timeout\":");
            out.append(i32_dec(*t).as_str());
        }
        out.append("}");
        proof {
            assert(out@ =~= spec_get_guild_args_json(*self));
        }
        out
    }
}

/// The arguments of a get-channel command.
#[derive(Clone, Debug, PartialEq, Eq)]
pub struct GetChannelArgs {
    /// string - id of the channel to get
    pub channel_id: String,
}

/// The wire JSON of get-channel arguments.
pub open spec fn spec_get_channel_args_json(a: GetChannelArgs) -> Seq<char> {
    "{\"channel_id\":"@ + spec_quoted(a.channel_id@) + "}"@
}

impl GetChannelArgs {
    /// Writes these arguments as their wire JSON object.
    pub fn to_json(&self) -> (r: String)
        ensures
            r@ == spec_get_channel_args_json(*self),
    {
        let mut out = String::from_str("{\"channel_id\":");
        out.append(json_quote(self.channel_id.as_str()).as_str());
        out.append("}");
        proof {
            assert(out@ =~= spec_get_channel_args_json(*self));
        }
        out
    }
}

/// The arguments of a get-channels command.
#[derive(Clone, Debug, PartialEq, Eq)]
pub struct GetChannelsArgs {
    /// string - id of the guild to get channels for
    pub guild_id: String,
}

/// The wire JSON of get-channels arguments.
pub open spec fn spec_get_channels_args_json(a: GetChannelsArgs) -> Seq<char> {
    "{\"guild_id\":"@ + spec_quoted(a.guild_id@) + "}"@
}

impl GetChannelsArgs {
    /// Writes these arguments as their wire JSON object.
    pub fn to_json(&self) -> (r: String)
        ensures
            r@ == spec_get_channels_args_json(*self),
    {
        let mut out = String::from_str("{\"guild_id\":");
        out.append(json_quote(self.guild_id.as_str()).as_str());
        out.append("}");
        proof {
            assert(out@ =~= spec_get_channels_args_json(*self));
        }
        out
    }
}

/// The arguments of a set-user-voice-settings command.
pub type SetUserVoiceSettingsArgs = UserVoiceSettings;

/// The arguments of a select-voice-channel command. `channel_id` is always
/// written, as `null` when absent, because it is the member the server acts
/// on; the remaining optional members are omitted when absent.
#[derive(Clone, Debug, PartialEq, Eq)]
pub struct SelectVoiceChannelArgs {
    /// string - channel id to join (or null to leave)
    pub channel_id: Option<String>,
    /// integer - asynchronously join channel with time to wait before timing out
    pub timeout: Option<i32>,
    /// boolean - forces a user to join a voice channel
    pub force: Option<bool>,
    /// boolean - after joining the voice channel, navigate to it in the client
    pub navigate: Option<bool>,
}

/// The wire JSON of select-voice-channel arguments.
pub open spec fn spec_select_voice_channel_args_json(a: SelectVoiceChannelArgs) -> Seq<char> {
    "{\"channel_id\":"@ + (match a.channel_id {
        Some(c) => spec_quoted(c@),
        None => "null"@,
    }) + (match a.timeout {
        Some(t) => ",\"timeout\":"@ + spec_int_dec(t as int),
        None => Seq::<char>::empty(),
    }) + (match a.force {
        Some(b) => ",\"force\":"@ + spec_bool_json(b),
        None => Seq::<char>::empty(),
    }) + (match a.navigate {
        Some(b) => ",\"navigate\":"@ + spec_bool_json(b),
        None => Seq::<char>::empty(),
    }) + "}"@
}

impl SelectVoiceChannelArgs {
    /// Writes these arguments as their wire JSON object.
    pub fn to_json(&self) -> (r: String)
        ensures
            r@ == spec_select_voice_channel_args_json(*self),
    {
        let mut out = String::from_str("{\"channel_id\":");
        match &self.channel_id {
            Some(c) => out.append(json_quote(c.as_str()).as_str()),
            None => out.append("null"),
        }
        if let Some(t) = &self.timeout {
            out.append(",\"timeout\":");
            out.append(i32_dec(*t).as_str());
        }
        if let Some(b) = &self.force {
            out.append(",\"force\":");
            out.append(bool_json(*b));
        }
        if let Some(b) = &self.navigate {
            out.append(",\"navigate\":");
            out.append(bool_json(*b));
        }
        out.append("}");
        proof {
            assert(out@ =~= spec_select_voice_channel_args_json(*self));
        }
        out
    }
}

/// The arguments of a select-text-channel command. `channel_id` is always
/// written, as `null` when absent.
#[derive(Clone, Debug, PartialEq, Eq)]
pub struct SelectTextChannelArgs {
    /// string - channel id to join (or null to leave)
    pub channel_id: Option<String>,
    /// integer - asynchronously join channel with time to wait before timing out
    pub timeout: Option<i32>,
}

/// The wire JSON of select-text-channel arguments.
pub open spec fn spec_select_text_channel_args_json(a: SelectTextChannelArgs) -> Seq<char> {
    "{\"channel_id\":"@ + (match a.channel_id {
        Some(c) => spec_quoted(c@),
        None => "null"@,
    }) + (match a.timeout {
        Some(t) => ",\"timeout\":"@ + spec_int_dec(t as int),
        None => Seq::<char>::empty(),
    }) + "}"@
}

impl SelectTextChannelArgs {
    /// Writes these arguments as their wire JSON object.
    pub fn to_json(&self) -> (r: String)
        ensures
            r@ == spec_select_text_channel_args_json(*self),
    {
        let mut out = String::from_str("{\"channel_id\":");
        match &self.channel_id {
            Some(c) => out.append(json_quote(c.as_str()).as_str()),
            None => out.append("null"),
        }
        if let Some(t) = &self.timeout {
            out.append(",\"timeout\":");
            out.append(i32_dec(*t).as_str());
        }
        out.append("}");
        proof {
            assert(out@ =~= spec_select_text_channel_args_json(*self));
        }
        out
    }
}

/// The arguments of a send-activity-join-invite command.
#[derive(Clone, Debug, PartialEq, Eq)]
pub struct SendActivityJoinInviteArgs {
    /// snowflake - the id of the requesting user
    pub user_id: String,
}

/// The wire JSON of send-activity-join-invite arguments.
pub open spec fn spec_send_activity_join_invite_args_json(a: SendActivityJoinInviteArgs) -> Seq<
    char,
> {
    "{\"user_id\":"@ + spec_quoted(a.user_id@) + "}"@
}

impl SendActivityJoinInviteArgs {
    /// Writes these arguments as their wire JSON object.
    pub fn to_json(&self) -> (r: String)
        ensures
            r@ == spec_send_activity_join_invite_args_json(*self),
    {
        let mut out = String::from_str("{\"user_id\":");
        out.append(json_quote(self.user_id.as_str()).as_str());
        out.append("}");
        proof {
            assert(out@ =~= spec_send_activity_join_invite_args_json(*self));
        }
        out
    }
}

/// The arguments of a close-activity-request command.
#[derive(Clone, Debug, PartialEq, Eq)]
pub struct CloseActivityRequestArgs {
    /// snowflake - the id of the requesting user
    pub user_id: String,
}

/// The wire JSON of close-activity-request arguments.
pub open spec fn spec_close_activity_request_args_json(a: CloseActivityRequestArgs) -> Seq<char> {
    "{\"user_id\":"@ + spec_quoted(a.user_id@) + "}"@
}

impl CloseActivityRequestArgs {
    /// Writes these arguments as their wire JSON object.
    pub fn to_json(&self) -> (r: String)
        ensures
            r@ == spec_close_activity_request_args_json(*self),
    {
        let mut out = String::from_str("{\"user_id\":");
        out.append(json_quote(self.user_id.as_str()).as_str());
        out.append("}");
        proof {
            assert(out@ =~= spec_close_activity_request_args_json(*self));
        }
        out
    }
}

/// The wire JSON of a pan object.
pub open spec fn spec_voice_pan_json(p: VoicePan) -> Seq<char> {
    "{\"left\":"@ + spec_u64_dec(p.left as nat) + ",\"right\":"@ + spec_u64_dec(p.right as nat)
        + "}"@
}

/// Writes a pan object as its wire JSON.
pub fn voice_pan_json(p: &VoicePan) -> (r: String)
    ensures
        r@ == spec_voice_pan_json(*p),
{
    let mut out = String::from_str("{\"left\":");
    out.append(u64_dec(p.left as u64).as_str());
    out.append(",\"right\":");
    out.append(u64_dec(p.right as u64).as_str());
    out.append("}");
    proof {
        assert(out@ =~= spec_voice_pan_json(*p));
    }
    out
}

/// The wire JSON of user voice settings; absent optional members are omitted.
pub open spec fn spec_user_voice_settings_json(s: SetUserVoiceSettingsData) -> Seq<char> {
    "{\"user_id\":"@ + spec_quoted(s.user_id@) + (match s.pan {
        Some(p) => ",\"pan\":"@ + spec_voice_pan_json(p),
        None => Seq::<char>::empty(),
    }) + (match s.volume {
        Some(v) => ",\"volume\":"@ + spec_int_dec(v as int),
        None => Seq::<char>::empty(),
    }) + (match s.mute {
        Some(m) => ",\"mute\":"@ + spec_bool_json(m),
        None => Seq::<char>::empty(),
    }) + "}"@
}

impl SetUserVoiceSettingsData {
    /// Writes these arguments as their wire JSON object.
    pub fn to_json(&self) -> (r: String)
        ensures
            r@ == spec_user_voice_settings_json(*self),
    {
        let mut out = String::from_str("{\"user_id\":");
        out.append(json_quote(self.user_id.as_str()).as_str());
        if let Some(p) = &self.pan {
            out.append(",\"pan\":");
            out.append(voice_pan_json(p).as_str());
        }
        if let Some(v) = &self.volume {
            out.append(",\"volume\":");
            out.append(i32_dec(*v).as_str());
        }
        if let Some(m) = &self.mute {
            out.append(",\"mute\":");
            out.append(bool_json(*m));
        }
        out.append("}");
        proof {
            assert(out@ =~= spec_user_voice_settings_json(*self));
        }
        out
    }
}

/// An event a client can subscribe to, with the arguments the subscription
/// carries.
#[derive(Clone, Debug, PartialEq, Eq)]
pub enum SubscribeableEvent {
    GuildStatus { guild_id: String },
    GuildCreate,
    ChannelCreate,
    VoiceChannelSelect,
    VoiceStateCreate { channel_id: String },
    VoiceStateUpdate { channel_id: String },
    VoiceStateDelete { channel_id: String },
    VoiceSettingsUpdate,
    VoiceConnectionStatus,
    SpeakingStart { channel_id: String },
    SpeakingStop { channel_id: String },
    MessageCreate { channel_id: String },
    MessageUpdate { channel_id: String },
    MessageDelete { channel_id: String },
    NotificationCreate,
    ActivityJoin,
    ActivitySpectate,
    ActivityJoinRequest,
}

/// The event tag a subscription carries in its `evt` field.
pub open spec fn spec_event_tag(e: SubscribeableEvent) -> Seq<char> {
    match e {
        SubscribeableEvent::GuildStatus { .. } => "GUILD_STATUS"@,
        SubscribeableEvent::GuildCreate => "GUILD_CREATE"@,
        SubscribeableEvent::ChannelCreate => "CHANNEL_CREATE"@,
        SubscribeableEvent::VoiceChannelSelect => "VOICE_CHANNEL_SELECT"@,
        SubscribeableEvent::VoiceStateCreate { .. } => "VOICE_STATE_CREATE"@,
        SubscribeableEvent::VoiceStateUpdate { .. } => "VOICE_STATE_UPDATE"@,
        SubscribeableEvent::VoiceStateDelete { .. } => "VOICE_STATE_DELETE"@,
        SubscribeableEvent::VoiceSettingsUpdate => "VOICE_SETTINGS_UPDATE"@,
        SubscribeableEvent::VoiceConnectionStatus => "VOICE_CONNECTION_STATUS"@,
        SubscribeableEvent::SpeakingStart { .. } => "SPEAKING_START"@,
        SubscribeableEvent::SpeakingStop { .. } => "SPEAKING_STOP"@,
        SubscribeableEvent::MessageCreate { .. } => "MESSAGE_CREATE"@,
        SubscribeableEvent::MessageUpdate { .. } => "MESSAGE_UPDATE"@,
        SubscribeableEvent::MessageDelete { .. } => "MESSAGE_DELETE"@,
        SubscribeableEvent::NotificationCreate => "NOTIFICATION_CREATE"@,
        SubscribeableEvent::ActivityJoin => "ACTIVITY_JOIN"@,
        SubscribeableEvent::ActivitySpectate => "ACTIVITY_SPECTATE"@,
        SubscribeableEvent::ActivityJoinRequest => "ACTIVITY_JOIN_REQUEST"@,
    }
}

/// The argument object a subscription carries, when its event takes one.
pub open spec fn spec_event_args(e: SubscribeableEvent) -> Option<Seq<char>> {
    match e {
        SubscribeableEvent::GuildStatus { guild_id } => Some(
            "{\"guild_id\":"@ + spec_quoted(guild_id@) + "}"@,
        ),
        SubscribeableEvent::VoiceStateCreate { channel_id } => Some(
            "{\"channel_id\":"@ + spec_quoted(channel_id@) + "}"@,
        ),
        SubscribeableEvent::VoiceStateUpdate { channel_id } => Some(
            "{\"channel_id\":"@ + spec_quoted(channel_id@) + "}"@,
        ),
        SubscribeableEvent::VoiceStateDelete { channel_id } => Some(
            "{\"channel_id\":"@ + spec_quoted(channel_id@) + "}"@,
        ),
        SubscribeableEvent::SpeakingStart { channel_id } => Some(
            "{\"channel_id\":"@ + spec_quoted(channel_id@) + "}"@,
        ),
        SubscribeableEvent::SpeakingStop { channel_id } => Some(
            "{\"channel_id\":"@ + spec_quoted(channel_id@) + "}"@,
        ),
        SubscribeableEvent::MessageCreate { channel_id } => Some(
            "{\"channel_id\":"@ + spec_quoted(channel_id@) + "}"@,
        ),
        SubscribeableEvent::MessageUpdate { channel_id } => Some(
            "{\"channel_id\":"@ + spec_quoted(channel_id@) + "}"@,
        ),
        SubscribeableEvent::MessageDelete { channel_id } => Some(
            "{\"channel_id\":"@ + spec_quoted(channel_id@) + "}"@,
        ),
        _ => None,
    }
}

impl SubscribeableEvent {
    /// The event tag for the `evt` field.
    pub fn tag_str(&self) -> (r: &'static str)
        ensures
            r@ == spec_event_tag(*self),
    {
        match self {
            SubscribeableEvent::GuildStatus { .. } => "GUILD_STATUS",
            SubscribeableEvent::GuildCreate => "GUILD_CREATE",
            SubscribeableEvent::ChannelCreate => "CHANNEL_CREATE",
            SubscribeableEvent::VoiceChannelSelect => "VOICE_CHANNEL_SELECT",
            SubscribeableEvent::VoiceStateCreate { .. } => "VOICE_STATE_CREATE",
            SubscribeableEvent::VoiceStateUpdate { .. } => "VOICE_STATE_UPDATE",
            SubscribeableEvent::VoiceStateDelete { .. } => "VOICE_STATE_DELETE",
            SubscribeableEvent::VoiceSettingsUpdate => "VOICE_SETTINGS_UPDATE",
            SubscribeableEvent::VoiceConnectionStatus => "VOICE_CONNECTION_STATUS",
            SubscribeableEvent::SpeakingStart { .. } => "SPEAKING_START",
            SubscribeableEvent::SpeakingStop { .. } => "SPEAKING_STOP",
            SubscribeableEvent::MessageCreate { .. } => "MESSAGE_CREATE",
            SubscribeableEvent::MessageUpdate { .. } => "MESSAGE_UPDATE",
            SubscribeableEvent::MessageDelete { .. } => "MESSAGE_DELETE",
            SubscribeableEvent::NotificationCreate => "NOTIFICATION_CREATE",
            SubscribeableEvent::ActivityJoin => "ACTIVITY_JOIN",
            SubscribeableEvent::ActivitySpectate => "ACTIVITY_SPECTATE",
            SubscribeableEvent::ActivityJoinRequest => "ACTIVITY_JOIN_REQUEST",
        }
    }

    /// The argument object for the `args` field, when this event takes one.
    pub fn args_json(&self) -> (r: Option<String>)
        ensures
            r matches Some(s) ==> spec_event_args(*self) == Some(s@),
            r is None ==> spec_event_args(*self) is None,
    {
        match self {
            SubscribeableEvent::GuildStatus { guild_id } => {
                let mut out = String::from_str("{\"guild_id\":");
                out.append(json_quote(guild_id.as_str()).as_str());
                out.append("}");
                proof {
                    assert(out@ =~= "{\"guild_id\":"@ + spec_quoted(guild_id@) + "}"@);
                }
                Some(out)
            },
            SubscribeableEvent::VoiceStateCreate { channel_id }
            | SubscribeableEvent::VoiceStateUpdate { channel_id }
            | SubscribeableEvent::VoiceStateDelete { channel_id }
            | SubscribeableEvent::SpeakingStart { channel_id }
            | SubscribeableEvent::SpeakingStop { channel_id }
            | SubscribeableEvent::MessageCreate { channel_id }
            | SubscribeableEvent::MessageUpdate { channel_id }
            | SubscribeableEvent::MessageDelete { channel_id } => {
                let mut out = String::from_str("{\"channel_id\":");
                out.append(json_quote(channel_id.as_str()).as_str());
                out.append("}");
                proof {
                    assert(out@ =~= "{\"channel_id\":"@ + spec_quoted(channel_id@) + "}"@);
                }
                Some(out)
            },
            _ => None,
        }
    }
}

/// A command the client can emit.
#[derive(Clone, Debug, PartialEq, Eq)]
pub enum SentCommand {
    /// An event frame sent in command position.
    Dispatch(SubscribeableEvent),
    Authorize(AuthorizeArgs),
    Authenticate(AuthenticateArgs),
    GetGuild(GetGuildArgs),
    GetGuilds,
    GetChannel(GetChannelArgs),
    GetChannels(GetChannelsArgs),
    Subscribe(SubscribeableEvent),
    Unsubscribe(SubscribeableEvent),
    SetUserVoiceSettings(SetUserVoiceSettingsData),
    SelectVoiceChannel(SelectVoiceChannelArgs),
    GetSelectedVoiceChannel,
    SelectTextChannel(SelectTextChannelArgs),
    GetVoiceSettings,
    /// The voice-settings object carries floating-point levels, which are
    /// outside this library's data model: the caller hands the serialized
    /// argument object as text and it is shipped unmodified.
    SetVoiceSettings(String),
    SetCertifiedDevices,
    SetActivity,
    SendActivityJoinInvite(SendActivityJoinInviteArgs),
    CloseActivityRequest(CloseActivityRequestArgs),
}

/// The wire JSON of a command that carries no arguments.
pub open spec fn spec_cmd_only_json(name: Seq<char>) -> Seq<char> {
    "{\"cmd\":\""@ + name + "\"}"@
}

/// The wire JSON of a command with an argument object.
pub open spec fn spec_cmd_args_json(name: Seq<char>, args: Seq<char>) -> Seq<char> {
    "{\"cmd\":\""@ + name + "\",\"args\":"@ + args + "}"@
}

/// The wire JSON of a subscription-family command: the command tag and the
/// event tag merged into the same object, with the event's arguments when it
/// takes any.
pub open spec fn spec_subscription_json(name: Seq<char>, e: SubscribeableEvent) -> Seq<char> {
    "{\"cmd\":\""@ + name + "\",\"evt\":\""@ + spec_event_tag(e) + "\""@ + (match spec_event_args(
        e,
    ) {
        Some(a) => ",\"args\":"@ + a,
        None => Seq::<char>::empty(),
    }) + "}"@
}

/// Writes a command without arguments.
fn cmd_only_json(name: &str) -> (r: String)
    ensures
        r@ == spec_cmd_only_json(name@),
{
    let mut out = String::from_str("{\"cmd\":\"");
    out.append(name);
    out.append("\"}");
    proof {
        assert(out@ =~= spec_cmd_only_json(name@));
    }
    out
}

/// Writes a command with an argument object.
fn cmd_args_json(name: &str, args: &str) -> (r: String)
    ensures
        r@ == spec_cmd_args_json(name@, args@),
{
    let mut out = String::from_str("{\"cmd\":\"");
    out.append(name);
    out.append("\",\"args\":");
    out.append(args);
    out.append("}");
    proof {
        assert(out@ =~= spec_cmd_args_json(name@, args@));
    }
    out
}

/// Writes a subscription-family command.
fn subscription_json(name: &str, e: &SubscribeableEvent) -> (r: String)
    ensures
        r@ == spec_subscription_json(name@, *e),
{
    let mut out = String::from_str("{\"cmd\":\"");
    out.append(name);
    out.append("\",\"evt\":\"");
    out.append(e.tag_str());
    out.append("\"");
    if let Some(args) = e.args_json() {
        out.append(",\"args\":");
        out.append(args.as_str());
    }
    out.append("}");
    proof {
        assert(out@ =~= spec_subscription_json(name@, *e));
    }
    out
}

/// The complete wire JSON of a command, before the nonce is attached.
pub open spec fn spec_command_json(c: SentCommand) -> Seq<char> {
    match c {
        SentCommand::Dispatch(e) => spec_subscription_json("DISPATCH"@, e),
        SentCommand::Authorize(a) => spec_cmd_args_json("AUTHORIZE"@, spec_authorize_args_json(a)),
        SentCommand::Authenticate(a) => spec_cmd_args_json(
            "AUTHENTICATE"@,
            spec_authenticate_args_json(a),
        ),
        SentCommand::GetGuild(a) => spec_cmd_args_json("GET_GUILD"@, spec_get_guild_args_json(a)),
        SentCommand::GetGuilds => spec_cmd_only_json("GET_GUILDS"@),
        SentCommand::GetChannel(a) => spec_cmd_args_json(
            "GET_CHANNEL"@,
            spec_get_channel_args_json(a),
        ),
        SentCommand::GetChannels(a) => spec_cmd_args_json(
            "GET_CHANNELS"@,
            spec_get_channels_args_json(a),
        ),
        SentCommand::Subscribe(e) => spec_subscription_json("SUBSCRIBE"@, e),
        SentCommand::Unsubscribe(e) => spec_subscription_json("UNSUBSCRIBE"@, e),
        SentCommand::SetUserVoiceSettings(a) => spec_cmd_args_json(
            "SET_USER_VOICE_SETTINGS"@,
            spec_user_voice_settings_json(a),
        ),
        SentCommand::SelectVoiceChannel(a) => spec_cmd_args_json(
            "SELECT_VOICE_CHANNEL"@,
            spec_select_voice_channel_args_json(a),
        ),
        SentCommand::GetSelectedVoiceChannel => spec_cmd_only_json("GET_SELECTED_VOICE_CHANNEL"@),
        SentCommand::SelectTextChannel(a) => spec_cmd_args_json(
            "SELECT_TEXT_CHANNEL"@,
            spec_select_text_channel_args_json(a),
        ),
        SentCommand::GetVoiceSettings => spec_cmd_only_json("GET_VOICE_SETTINGS"@),
        SentCommand::SetVoiceSettings(raw) => spec_cmd_args_json("SET_VOICE_SETTINGS"@, raw@),
        SentCommand::SetCertifiedDevices => spec_cmd_only_json("SET_CERTIFIED_DEVICES"@),
        SentCommand::SetActivity => spec_cmd_only_json("SET_ACTIVITY"@),
        SentCommand::SendActivityJoinInvite(a) => spec_cmd_args_json(
            "SEND_ACTIVITY_JOIN_INVITE"@,
            spec_send_activity_join_invite_args_json(a),
        ),
        SentCommand::CloseActivityRequest(a) => spec_cmd_args_json(
            "CLOSE_ACTIVITY_REQUEST"@,
            spec_close_activity_request_args_json(a),
        ),
    }
}

/// A command-without-arguments text has the outer shape of a JSON object.
proof fn lemma_cmd_only_shaped(name: Seq<char>)
    ensures
        crate::utils::spec_object_shaped(spec_cmd_only_json(name)),
        !crate::utils::spec_blank_object(spec_cmd_only_json(name)),
{
    reveal_strlit("{\"cmd\":\"");
    reveal_strlit("\"}");
    let t = spec_cmd_only_json(name);
    assert(t[0] == '{');
    assert(t.last() == '}');
    assert(t[1] == '"' && !crate::utils::spec_json_ws(t[1]));
}

/// A command-with-arguments text has the outer shape of a JSON object.
proof fn lemma_cmd_args_shaped(name: Seq<char>, args: Seq<char>)
    ensures
        crate::utils::spec_object_shaped(spec_cmd_args_json(name, args)),
        !crate::utils::spec_blank_object(spec_cmd_args_json(name, args)),
{
    reveal_strlit("{\"cmd\":\"");
    reveal_strlit("\",\"args\":");
    reveal_strlit("}");
    let t = spec_cmd_args_json(name, args);
    assert(t[0] == '{');
    assert(t.last() == '}');
    assert(t[1] == '"' && !crate::utils::spec_json_ws(t[1]));
}

/// A subscription-family text has the outer shape of a JSON object.
proof fn lemma_subscription_shaped(name: Seq<char>, e: SubscribeableEvent)
    ensures
        crate::utils::spec_object_shaped(spec_subscription_json(name, e)),
        !crate::utils::spec_blank_object(spec_subscription_json(name, e)),
{
    reveal_strlit("{\"cmd\":\"");
    reveal_strlit("\",\"evt\":\"");
    reveal_strlit("\"");
    reveal_strlit(",\"args\":");
    reveal_strlit("}");
    let t = spec_subscription_json(name, e);
    assert(t[0] == '{');
    assert(t.last() == '}');
    assert(t[1] == '"' && !crate::utils::spec_json_ws(t[1]));
}

/// Every serialized command is brace-delimited, so a nonce can always be
/// attached to it.
pub proof fn lemma_command_json_object_shaped(c: SentCommand)
    ensures
        crate::utils::spec_object_shaped(spec_command_json(c)),
        !crate::utils::spec_blank_object(spec_command_json(c)),
{
    match c {
        SentCommand::Dispatch(e) => lemma_subscription_shaped("DISPATCH"@, e),
        SentCommand::Authorize(a) => lemma_cmd_args_shaped(
            "AUTHORIZE"@,
            spec_authorize_args_json(a),
        ),
        SentCommand::Authenticate(a) => lemma_cmd_args_shaped(
            "AUTHENTICATE"@,
            spec_authenticate_args_json(a),
        ),
        SentCommand::GetGuild(a) => lemma_cmd_args_shaped(
            "GET_GUILD"@,
            spec_get_guild_args_json(a),
        ),
        SentCommand::GetGuilds => lemma_cmd_only_shaped("GET_GUILDS"@),
        SentCommand::GetChannel(a) => lemma_cmd_args_shaped(
            "GET_CHANNEL"@,
            spec_get_channel_args_json(a),
        ),
        SentCommand::GetChannels(a) => lemma_cmd_args_shaped(
            "GET_CHANNELS"@,
            spec_get_channels_args_json(a),
        ),
        SentCommand::Subscribe(e) => lemma_subscription_shaped("SUBSCRIBE"@, e),
        SentCommand::Unsubscribe(e) => lemma_subscription_shaped("UNSUBSCRIBE"@, e),
        SentCommand::SetUserVoiceSettings(a) => lemma_cmd_args_shaped(
            "SET_USER_VOICE_SETTINGS"@,
            spec_user_voice_settings_json(a),
        ),
        SentCommand::SelectVoiceChannel(a) => lemma_cmd_args_shaped(
            "SELECT_VOICE_CHANNEL"@,
            spec_select_voice_channel_args_json(a),
        ),
        SentCommand::GetSelectedVoiceChannel => lemma_cmd_only_shaped(
            "GET_SELECTED_VOICE_CHANNEL"@,
        ),
        SentCommand::SelectTextChannel(a) => lemma_cmd_args_shaped(
            "SELECT_TEXT_CHANNEL"@,
            spec_select_text_channel_args_json(a),
        ),
        SentCommand::GetVoiceSettings => lemma_cmd_only_shaped("GET_VOICE_SETTINGS"@),
        SentCommand::SetVoiceSettings(raw) => lemma_cmd_args_shaped("SET_VOICE_SETTINGS"@, raw@),
        SentCommand::SetCertifiedDevices => lemma_cmd_only_shaped("SET_CERTIFIED_DEVICES"@),
        SentCommand::SetActivity => lemma_cmd_only_shaped("SET_ACTIVITY"@),
        SentCommand::SendActivityJoinInvite(a) => lemma_cmd_args_shaped(
            "SEND_ACTIVITY_JOIN_INVITE"@,
            spec_send_activity_join_invite_args_json(a),
        ),
        SentCommand::CloseActivityRequest(a) => lemma_cmd_args_shaped(
            "CLOSE_ACTIVITY_REQUEST"@,
            spec_close_activity_request_args_json(a),
        ),
    }
}

impl SentCommand {
    /// Serializes this command to its wire JSON shape: the command tag under
    /// `cmd`, arguments under `args`, and for the subscription family the
    /// event tag merged into the same object under `evt`. Every command
    /// serializes; the `Result` carries the error type shared with the rest
    /// of the send path.
    pub fn to_json(&self) -> (r: Result<String, DiscordRPCError>)
        ensures
            r matches Ok(t) && t@ == spec_command_json(*self),
    {
        let out = match self {
            SentCommand::Dispatch(e) => subscription_json("DISPATCH", e),
            SentCommand::Authorize(a) => cmd_args_json("AUTHORIZE", a.to_json().as_str()),
            SentCommand::Authenticate(a) => cmd_args_json("AUTHENTICATE", a.to_json().as_str()),
            SentCommand::GetGuild(a) => cmd_args_json("GET_GUILD", a.to_json().as_str()),
            SentCommand::GetGuilds => cmd_only_json("GET_GUILDS"),
            SentCommand::GetChannel(a) => cmd_args_json("GET_CHANNEL", a.to_json().as_str()),
            SentCommand::GetChannels(a) => cmd_args_json("GET_CHANNELS", a.to_json().as_str()),
            SentCommand::Subscribe(e) => subscription_json("SUBSCRIBE", e),
            SentCommand::Unsubscribe(e) => subscription_json("UNSUBSCRIBE", e),
            SentCommand::SetUserVoiceSettings(a) => cmd_args_json(
                "SET_USER_VOICE_SETTINGS",
                a.to_json().as_str(),
            ),
            SentCommand::SelectVoiceChannel(a) => cmd_args_json(
                "SELECT_VOICE_CHANNEL",
                a.to_json().as_str(),
            ),
            SentCommand::GetSelectedVoiceChannel => cmd_only_json("GET_SELECTED_VOICE_CHANNEL"),
            SentCommand::SelectTextChannel(a) => cmd_args_json(
                "SELECT_TEXT_CHANNEL",
                a.to_json().as_str(),
            ),
            SentCommand::GetVoiceSettings => cmd_only_json("GET_VOICE_SETTINGS"),
            SentCommand::SetVoiceSettings(raw) => cmd_args_json("SET_VOICE_SETTINGS", raw.as_str()),
            SentCommand::SetCertifiedDevices => cmd_only_json("SET_CERTIFIED_DEVICES"),
            SentCommand::SetActivity => cmd_only_json("SET_ACTIVITY"),
            SentCommand::SendActivityJoinInvite(a) => cmd_args_json(
                "SEND_ACTIVITY_JOIN_INVITE",
                a.to_json().as_str(),
            ),
            SentCommand::CloseActivityRequest(a) => cmd_args_json(
                "CLOSE_ACTIVITY_REQUEST",
                a.to_json().as_str(),
            ),
        };
        Ok(out)
    }
}

} // verus!
