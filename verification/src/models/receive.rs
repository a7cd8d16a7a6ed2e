//! Values received from the RPC server. The receive loop classifies every
//! inbound payload structurally as an event or a command response and hands
//! the consumer the tag together with the payload's full text; the typed data
//! shapes below describe what the catalogue of payloads carries.

use vstd::prelude::*;

use crate::models::shared::Guild;
use crate::models::shared::Message;
use crate::models::shared::User;

verus! {

/// One classified inbound message: a server-initiated event, tagged by event
/// name, or the response to a previously emitted command, tagged by command
/// name. Either way the payload's complete JSON text rides along, so the
/// consumer can decode the data shape it cares about.
#[derive(Clone, Debug, PartialEq, Eq)]
pub enum ReceivedItem {
    /// A server-initiated event.
    Event {
        /// The event tag carried in the payload's `evt` field.
        evt: String,
        /// The payload's full JSON text.
        payload: String,
    },
    /// A response to a previously emitted command.
    Command {
        /// The command tag carried in the payload's `cmd` field.
        cmd: String,
        /// The payload's full JSON text.
        payload: String,
    },
}

/// The RPC server configuration carried in a ready payload.
#[derive(Clone, Debug, PartialEq, Eq)]
pub struct ReadyConfig {
    /// string - server's cdn
    pub cdn_host: String,
    /// string - server's api endpoint
    pub api_endpoint: String,
    /// string - server's environment
    pub environment: String,
}

/// The data of a ready payload: protocol version, server configuration, and
/// the connected user.
#[derive(Clone, Debug, PartialEq, Eq)]
pub struct ReadyData {
    /// integer - RPC version
    pub version: u32,
    /// rpc server configuration object - server configuration
    pub config: ReadyConfig,
    /// partial user object - the user to whom you are connected
    pub user: User,
}

/// The data of an error event.
#[derive(Clone, Debug, PartialEq, Eq)]
pub struct ErrorData {
    /// integer - RPC Error Code
    pub code: u32,
    /// string - Error description
    pub message: String,
}

/// The data of a guild status event.
#[derive(Clone, Debug, PartialEq, Eq)]
pub struct GuildStatusData {
    /// partial guild object - guild with requested id
    pub guild: Guild,
    /// integer - number of online users in guild (deprecated; always 0)
    pub online: i32,
}

/// The data of a guild create event.
#[derive(Clone, Debug, PartialEq, Eq)]
pub struct GuildCreateData {
    /// string - guild id
    pub id: String,
    /// string - name of the guild
    pub name: String,
}

/// The data of a channel create event.
#[derive(Clone, Debug, PartialEq, Eq)]
pub struct ChannelCreateData {
    /// string - channel id
    pub id: String,
    /// string - name of the channel
    pub name: String,
    /// integer - channel type (guild text: 0, guild voice: 2, dm: 1, group dm: 3)
    pub channel_type: u8,
}

/// The data of a voice channel select event.
#[derive(Clone, Debug, PartialEq, Eq)]
pub struct VoiceChannelSelectData {
    /// string - id of channel (null if none)
    pub channel_id: String,
    /// string - id of guild (null if none)
    pub guild_id: String,
}

/// A user's voice state flags.
#[derive(Clone, Copy, Debug, PartialEq, Eq, Structural)]
pub struct VoiceState {
    /// boolean - whether this user is deafened by the server
    pub deaf: bool,
    /// boolean - whether this user is muted by the server
    pub mute: bool,
    /// boolean - whether this user is locally deafened
    pub self_deaf: bool,
    /// boolean - whether this user is locally muted
    pub self_mute: bool,
    /// boolean - whether this user is streaming using "Go Live"
    pub self_stream: Option<bool>,
    /// boolean - whether this user's camera is enabled
    pub self_video: Option<bool>,
    /// boolean - whether this user's permission to speak is denied
    pub suppress: bool,
}

/// The states a voice connection can report.
#[derive(Clone, Copy, Debug, PartialEq, Eq, Structural)]
pub enum VoiceConnectionState {
    Disconnected,
    AwaitingEndpoint,
    Authenticating,
    Connecting,
    Connected,
    VoiceDisconnected,
    VoiceConnecting,
    VoiceConnected,
    NoRoute,
    IceChecking,
}

/// The data of a message create, update or delete event.
#[derive(Clone, Debug, PartialEq, Eq)]
pub struct MessageData {
    /// string - channel id
    pub channel_id: String,
    /// message object
    pub message: Message,
}

/// The data of a speaking start or stop event.
#[derive(Clone, Debug, PartialEq, Eq)]
pub struct SpeakingData {
    /// string - id of user who started/stopped speaking
    pub user_id: String,
}

/// The data of a notification create event.
#[derive(Clone, Debug, PartialEq, Eq)]
pub struct NotificationCreateData {
    /// string - id of channel where notification occurred
    pub channel_id: String,
    /// message object - message that generated this notification
    pub message: Message,
    /// string - icon url of the notification
    pub icon_url: String,
    /// string - title of the notification
    pub title: String,
    /// string - body of the notification
    pub body: String,
}

/// The data of an activity join event.
#[derive(Clone, Debug, PartialEq, Eq)]
pub struct ActivityJoinData {
    /// string - the join_secret for the given invite
    pub secret: String,
}

/// The data of an activity spectate event.
#[derive(Clone, Debug, PartialEq, Eq)]
pub struct ActivitySpectateData {
    /// string - the spectate_secret for the given invite
    pub secret: String,
}

/// The data of an activity join request event.
#[derive(Clone, Debug, PartialEq, Eq)]
pub struct ActivityJoinRequestData {
    /// partial user object - information about the user requesting to join
    pub user: User,
}

/// The application object in an authenticate response.
#[derive(Clone, Debug, PartialEq, Eq)]
pub struct OAuth2Application {
    /// string - application description
    pub description: String,
    /// string - hash of the icon
    pub icon: Option<String>,
    /// snowflake - application client id
    pub id: String,
    /// array of strings - array of rpc origin urls
    pub rpc_origins: Option<Vec<String>>,
    /// string - application name
    pub name: String,
}

/// The data of an authenticate response.
#[derive(Clone, Debug, PartialEq, Eq)]
pub struct AuthenticateData {
    /// partial user object - the authed user
    pub user: User,
    /// array of OAuth2 scopes - authorized scopes
    pub scopes: Vec<String>,
    /// date - expiration date of OAuth2 token
    pub expires: String,
    /// OAuth2 application object - application the user authorized
    pub application: OAuth2Application,
}

/// The data of a get-guild response.
#[derive(Clone, Debug, PartialEq, Eq)]
pub struct GetGuildData {
    /// string - guild id
    pub id: String,
    /// string - guild name
    pub name: String,
    /// string - guild icon url
    pub icon_url: String,
}

} // verus!
