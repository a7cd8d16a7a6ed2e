//! Objects that appear both in commands and in server payloads: users,
//! guilds, channels, messages and voice settings. Fields that only the
//! payload-shape catalogue reads are held as plain values; floating-point
//! voice levels are outside this library's data model and stay with the
//! catalogue.

use vstd::prelude::*;

verus! {

/// A user's public profile.
#[derive(Clone, Debug, PartialEq, Eq)]
pub struct User {
    /// snowflake - the user's id
    pub id: String,
    /// string - the user's username, not unique across the platform
    pub username: String,
    /// ?string - the user's avatar hash
    pub avatar: Option<String>,
    /// boolean - whether the user belongs to an OAuth2 application
    pub bot: Option<bool>,
    /// integer - the flags on a user's account
    pub flags: Option<u32>,
    /// integer - the type of Nitro subscription on a user's account
    pub premium_type: Option<u32>,
}

/// A partial guild.
#[derive(Clone, Debug, PartialEq, Eq)]
pub struct Guild {
    /// snowflake - guild id
    pub id: String,
    /// string - guild name (2-100 characters, excluding trailing and leading whitespace)
    pub name: String,
    /// ?string - icon hash
    pub icon: Option<String>,
    /// snowflake - id of owner
    pub owner_id: Option<String>,
}

/// The kind of a channel.
#[derive(Clone, Copy, Debug, PartialEq, Eq, Structural)]
pub enum ChannelType {
    /// a text channel within a server
    GuildText,
    /// a direct message between users
    DirectMessage,
    /// a voice channel within a server
    GuildVoice,
    /// a direct message between multiple users
    GroupDirectMessage,
    /// an organizational category that contains up to 50 channels
    GuildCategory,
    /// a channel that users can follow and crosspost into their own server
    GuildAnnouncement,
    /// a temporary sub-channel within an announcement channel
    AnnouncementThread,
    /// a temporary sub-channel within a text or forum channel
    PublicThread,
    /// a temporary sub-channel within a text channel, viewable by invitation
    PrivateThread,
    /// a voice channel for hosting events with an audience
    GuildStageVoice,
    /// the channel in a hub containing the listed servers
    GuildDirectory,
    /// a channel that can only contain threads
    GuildForum,
    /// a channel that can only contain threads, similar to forum channels
    GuildMedia,
}

/// The numeric value that names a channel type on the wire.
pub open spec fn spec_channel_type_value(t: ChannelType) -> u32 {
    match t {
        ChannelType::GuildText => 0,
        ChannelType::DirectMessage => 1,
        ChannelType::GuildVoice => 2,
        ChannelType::GroupDirectMessage => 3,
        ChannelType::GuildCategory => 4,
        ChannelType::GuildAnnouncement => 5,
        ChannelType::AnnouncementThread => 10,
        ChannelType::PublicThread => 11,
        ChannelType::PrivateThread => 12,
        ChannelType::GuildStageVoice => 13,
        ChannelType::GuildDirectory => 14,
        ChannelType::GuildForum => 15,
        ChannelType::GuildMedia => 16,
    }
}

impl ChannelType {
    /// The numeric wire value of this channel type.
    pub fn to_u32(&self) -> (v: u32)
        ensures
            v == spec_channel_type_value(*self),
    {
        match self {
            ChannelType::GuildText => 0,
            ChannelType::DirectMessage => 1,
            ChannelType::GuildVoice => 2,
            ChannelType::GroupDirectMessage => 3,
            ChannelType::GuildCategory => 4,
            ChannelType::GuildAnnouncement => 5,
            ChannelType::AnnouncementThread => 10,
            ChannelType::PublicThread => 11,
            ChannelType::PrivateThread => 12,
            ChannelType::GuildStageVoice => 13,
            ChannelType::GuildDirectory => 14,
            ChannelType::GuildForum => 15,
            ChannelType::GuildMedia => 16,
        }
    }

    /// The channel type a wire value names, if it names one: exactly the
    /// values 0 through 5 and 10 through 16 are in use.
    pub fn from_u32(v: u32) -> (r: Option<ChannelType>)
        ensures
            r matches Some(t) ==> spec_channel_type_value(t) == v,
            r is None ==> (v > 16 || (6 <= v && v <= 9)),
    {
        match v {
            0 => Some(ChannelType::GuildText),
            1 => Some(ChannelType::DirectMessage),
            2 => Some(ChannelType::GuildVoice),
            3 => Some(ChannelType::GroupDirectMessage),
            4 => Some(ChannelType::GuildCategory),
            5 => Some(ChannelType::GuildAnnouncement),
            10 => Some(ChannelType::AnnouncementThread),
            11 => Some(ChannelType::PublicThread),
            12 => Some(ChannelType::PrivateThread),
            13 => Some(ChannelType::GuildStageVoice),
            14 => Some(ChannelType::GuildDirectory),
            15 => Some(ChannelType::GuildForum),
            16 => Some(ChannelType::GuildMedia),
            _ => None,
        }
    }
}

/// A partial channel. The per-member voice states that a voice channel can
/// carry hold floating-point volumes and stay with the payload-shape
/// catalogue.
#[derive(Clone, Debug, PartialEq, Eq)]
pub struct Channel {
    /// snowflake - the id of this channel
    pub id: String,
    /// integer - the type of channel
    pub channel_type: ChannelType,
    /// snowflake - the id of the guild
    pub guild_id: Option<String>,
    /// integer - sorting position of the channel
    pub position: Option<u32>,
    /// ?string - the name of the channel (1-100 characters)
    pub name: Option<String>,
    /// ?string - the channel topic
    pub topic: Option<String>,
    /// boolean - whether the channel is nsfw
    pub nsfw: Option<bool>,
    /// ?snowflake - the id of the last message sent in this channel
    pub last_message_id: Option<String>,
    /// integer - the bitrate (in bits) of the voice channel
    pub bitrate: Option<u32>,
    /// integer - the user limit of the voice channel
    pub user_limit: Option<u32>,
    /// integer - seconds a user must wait before sending another message
    pub rate_limit_per_user: Option<u32>,
}

/// The kind of a message.
#[derive(Clone, Copy, Debug, PartialEq, Eq, Structural)]
pub enum MessageType {
    Default,
    RecipientAdd,
    RecipientRemove,
    Call,
    ChannelNameChange,
    ChannelIconChange,
    ChannelPinnedMessage,
    UserJoin,
    GuildBoost,
    GuildBoostTier1,
    GuildBoostTier2,
    GuildBoostTier3,
    ChannelFollowAdd,
    GuildDiscoveryDisqualified,
    GuildDiscoveryRequalified,
    GuildDiscoveryGracePeriodInitialWarning,
    GuildDiscoveryGracePeriodFinalWarning,
    ThreadCreated,
    Reply,
    ChatInputCommand,
    ThreadStarterMessage,
    GuildInviteReminder,
    ContextMenuCommand,
    AutoModerationAction,
    RoleSubscriptionPurchase,
    InteractionPremiumUpsell,
    StageStart,
    StageEnd,
    StageSpeaker,
    StageTopic,
    GuildApplicationPremiumSubscription,
    GuildIncidentAlertModeEnabled,
    GuildIncidentAlertModeDisabled,
    GuildIncidentReportRaid,
    GuildIncidentReportFalseAlarm,
    PurchaseNotification,
    PollResult,
}

/// A message in a channel.
#[derive(Clone, Debug, PartialEq, Eq)]
pub struct Message {
    /// snowflake - id of the message
    pub id: String,
    /// snowflake - id of the channel the message was sent in
    pub channel_id: String,
    /// user object - the author of this message
    pub author: User,
    /// string - contents of the message
    pub content: Option<String>,
    /// ISO8601 timestamp - when this message was sent
    pub timestamp: String,
    /// ?ISO8601 timestamp - when this message was edited (or null if never)
    pub edited_timestamp: Option<String>,
    /// boolean - whether this was a TTS message
    pub tts: bool,
    /// boolean - whether this message mentions everyone
    pub mention_everyone: bool,
    /// integer - type of message
    pub message_type: MessageType,
}

/// The left/right balance of a user's voice.
#[derive(Clone, Copy, Debug, PartialEq, Eq, Structural)]
pub struct VoicePan {
    /// integer
    pub left: u8,
    /// integer
    pub right: u8,
}

/// Per-user voice settings a client may set.
#[derive(Clone, Debug, PartialEq, Eq)]
pub struct UserVoiceSettings {
    /// string - user id
    pub user_id: String,
    /// pan object - set the pan of the user
    pub pan: Option<VoicePan>,
    /// integer - set the volume of user (defaults to 100, min 0, max 200)
    pub volume: Option<i32>,
    /// boolean - set the mute state of the user
    pub mute: Option<bool>,
}

/// An audio device the client can use.
#[derive(Clone, Debug, PartialEq, Eq)]
pub struct VoiceAvailableDevice {
    /// string
    pub id: String,
    /// string
    pub name: String,
}

/// The argument object of a set-user-voice-settings command.
#[derive(Clone, Debug, PartialEq, Eq)]
pub struct SetUserVoiceSettingsData {
    /// string - User ID
    pub user_id: String,
    /// pan object - Set the pan of the user
    pub pan: Option<VoicePan>,
    /// integer - Set the volume of the user (defaults to 100, min 0, max 200)
    pub volume: Option<i32>,
    /// boolean - Set the mute state of the user
    pub mute: Option<bool>,
}

} // verus!
