//! Plain data model: users, guilds, channels, messages, presence, settings.

use vstd::prelude::*;

verus! {

/// Preferred presence status for the user.
#[derive(Clone, Copy, Debug, PartialEq, Eq, Structural)]
pub enum PresenceStatus {
    Online,
    Idle,
    DoNotDisturb,
    Invisible,
}

/// Default used for settings fields that are enabled unless switched off.
pub fn default_true() -> (r: bool)
    ensures
        r == true,
{
    true
}

/// Presence used when none has been chosen yet.
pub fn default_presence() -> (r: PresenceStatus)
    ensures
        r == PresenceStatus::Online,
{
    PresenceStatus::Online
}

#[derive(Default, Clone, Debug, PartialEq)]
pub struct Guild {
    pub id: String,
    pub name: String,
}

#[derive(Default, Clone, Debug, PartialEq)]
pub struct Channel {
    pub id: String,
    pub name: String,
    pub guild_id: Option<String>,
}

/// A chat message; may still be pending (optimistic send).
#[derive(Clone, Debug, PartialEq, Default)]
pub struct Message {
    pub id: String,
    pub channel_id: String,
    pub author_id: String,
    pub author_username: Option<String>,
    pub content: String,
    pub timestamp: Option<String>,
    /// When true, the message is shown as still being sent.
    pub sending: bool,
}

/// View of an optional string.
pub open spec fn opt_str_view(o: &Option<String>) -> Option<Seq<char>> {
    match o {
        Some(s) => Some(s@),
        None => None,
    }
}

/// Mathematical value of a [`Message`].
#[verifier::ext_equal]
pub struct MessageV {
    pub id: Seq<char>,
    pub channel_id: Seq<char>,
    pub author_id: Seq<char>,
    pub author_username: Option<Seq<char>>,
    pub content: Seq<char>,
    pub timestamp: Option<Seq<char>>,
    pub sending: bool,
}

impl View for Message {
    type V = MessageV;

    open spec fn view(&self) -> MessageV {
        MessageV {
            id: self.id@,
            channel_id: self.channel_id@,
            author_id: self.author_id@,
            author_username: opt_str_view(&self.author_username),
            content: self.content@,
            timestamp: opt_str_view(&self.timestamp),
            sending: self.sending,
        }
    }
}

/// In-memory cache of everything the client has fetched.
#[derive(Default, Clone, Debug)]
pub struct State {
    pub token: Option<String>,
    pub guilds: Vec<Guild>,
    pub channels: std::collections::HashMap<String, Vec<Channel>>,
    pub messages: std::collections::HashMap<String, Vec<Message>>,
}

/// Current user as reported by the HTTP collaborator.
#[derive(Clone, Debug, PartialEq)]
pub struct DiscordUser {
    pub id: String,
    pub username: String,
    pub global_name: Option<String>,
    pub discriminator: Option<String>,
    pub avatar: Option<String>,
}

/// Relationship to another user (friend, blocked, incoming, outgoing).
#[derive(Clone, Debug)]
pub struct Relationship {
    pub kind: i32,
    pub user: DiscordUser,
}

/// A direct-message or group channel.
#[derive(Clone, Debug)]
pub struct DmChannel {
    pub id: String,
    pub kind: i32,
    pub recipients: Vec<DiscordUser>,
    pub last_message_id: Option<String>,
    pub name: Option<String>,
}

/// Message as returned by the HTTP collaborator.
#[derive(Clone, Debug)]
pub struct ApiMessage {
    pub id: String,
    pub channel_id: String,
    pub content: String,
    pub author: Option<DiscordUser>,
    pub timestamp: Option<String>,
}

/// Application settings persisted by the shell.
#[derive(Clone, Debug, PartialEq)]
pub struct AppSettings {
    /// Show the metrics overlay.
    pub show_metrics_overlay: bool,
    /// The welcome screen has been dismissed.
    pub welcome_seen: bool,
    /// Enable UI animations.
    pub animations_enabled: bool,
    /// Preferred presence.
    pub presence: PresenceStatus,
    /// When true, do not send typing events.
    pub ghost_typing: bool,
}

impl Default for AppSettings {
    fn default() -> (s: Self)
        ensures
            s.show_metrics_overlay == false,
            s.welcome_seen == false,
            s.animations_enabled == true,
            s.presence == PresenceStatus::Online,
            s.ghost_typing == false,
    {
        Self {
            show_metrics_overlay: false,
            welcome_seen: false,
            animations_enabled: true,
            presence: PresenceStatus::Online,
            ghost_typing: false,
        }
    }
}

} // verus!
