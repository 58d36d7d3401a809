//! Values exchanged with the Discord client and shown by the overlay.
use vstd::prelude::*;

use crate::user::{User, UserVoiceState};
use crate::util::chars::{chars_of, string_from_str};

verus! {

/// The text values of an optional text.
pub open spec fn opt_view(o: Option<String>) -> Option<Seq<char>> {
    match o {
        Some(s) => Some(s@),
        None => None,
    }
}

/// The text of an optional text, or the empty text.
pub open spec fn or_empty(o: Option<String>) -> Seq<char> {
    match o {
        Some(s) => s@,
        None => Seq::<char>::empty(),
    }
}

/// The text of an optional text, or a new empty text.
pub fn clone_or_empty(o: &Option<String>) -> (s: String)
    ensures
        s@ == or_empty(*o),
{
    match o {
        Some(x) => x.clone(),
        None => String::new(),
    }
}

/// Whether two optional texts are equal.
pub fn opt_string_eq(a: &Option<String>, b: &Option<String>) -> (r: bool)
    ensures
        r == (opt_view(*a) == opt_view(*b)),
{
    match (a, b) {
        (Some(x), Some(y)) => x.eq(y),
        (None, None) => true,
        _ => false,
    }
}

/// A copy of an optional text.
pub fn clone_opt_string(a: &Option<String>) -> (r: Option<String>)
    ensures
        r == *a,
{
    match a {
        Some(x) => Some(x.clone()),
        None => None,
    }
}

/// How prominently a notification action is drawn.
#[derive(Clone, Copy, Debug, PartialEq, Eq, Structural)]
pub enum NotificationKind {
    Primary,
    Secondary,
}

/// A button on a notification. `action` identifies the callback that the
/// embedding program runs when the button is pressed.
#[derive(Clone, Debug)]
pub struct NotificationAction {
    pub label: String,
    pub action: u64,
    pub kind: NotificationKind,
}

/// A notification shown in the overlay.
#[derive(Clone, Debug)]
pub struct Notification {
    pub title: String,
    pub body: String,
    pub icon: String,
    pub guild_id: Option<String>,
    pub channel_id: Option<String>,
    pub message_id: Option<String>,
    pub timestamp: Option<i64>,
    pub actions: Option<Vec<NotificationAction>>,
}

impl Notification {
    /// Equality of everything but the actions, which are callbacks.
    pub open spec fn same_content(&self, other: &Notification) -> bool {
        &&& self.title@ == other.title@
        &&& self.body@ == other.body@
        &&& self.icon@ == other.icon@
        &&& opt_view(self.guild_id) == opt_view(other.guild_id)
        &&& opt_view(self.channel_id) == opt_view(other.channel_id)
        &&& opt_view(self.message_id) == opt_view(other.message_id)
        &&& self.timestamp == other.timestamp
    }

    /// A notification with the given texts, stamped `now` (seconds since the
    /// Unix epoch, read by the caller).
    pub fn new(title: String, body: String, icon: String, now: i64) -> (n: Notification)
        ensures
            n.title == title,
            n.body == body,
            n.icon == icon,
            n.guild_id is None,
            n.channel_id is None,
            n.message_id is None,
            n.timestamp == Some(now),
            n.actions is None,
    {
        Notification {
            title,
            body,
            icon,
            guild_id: None,
            channel_id: None,
            message_id: None,
            timestamp: Some(now),
            actions: None,
        }
    }
}

impl PartialEq for Notification {
    fn eq(&self, other: &Self) -> (r: bool) {
        self.title == other.title && self.body == other.body && self.icon == other.icon
            && opt_string_eq(&self.guild_id, &other.guild_id) && opt_string_eq(
            &self.channel_id,
            &other.channel_id,
        ) && opt_string_eq(&self.message_id, &other.message_id) && match (
            self.timestamp,
            other.timestamp,
        ) {
            (Some(a), Some(b)) => a == b,
            (None, None) => true,
            _ => false,
        }
    }
}

impl vstd::std_specs::cmp::PartialEqSpecImpl for Notification {
    open spec fn obeys_eq_spec() -> bool {
        true
    }

    open spec fn eq_spec(&self, other: &Notification) -> bool {
        self.same_content(other)
    }
}

/// A soundboard sound that the user can play. (Its volume is not used by
/// the overlay and is not kept.)
#[derive(Debug)]
pub struct SoundboardSoundPayload {
    pub sound_id: String,
    pub name: String,
    pub emoji_id: Option<String>,
    pub emoji_name: Option<String>,
    pub guild_id: Option<String>,
    pub available: bool,
}

impl Clone for SoundboardSoundPayload {
    fn clone(&self) -> (r: SoundboardSoundPayload)
        ensures
            r == *self,
    {
        SoundboardSoundPayload {
            sound_id: self.sound_id.clone(),
            name: self.name.clone(),
            emoji_id: clone_opt_string(&self.emoji_id),
            emoji_name: clone_opt_string(&self.emoji_name),
            guild_id: clone_opt_string(&self.guild_id),
            available: self.available,
        }
    }
}

/// A message notification as the websocket bridge sends it.
#[derive(Clone, Debug)]
pub struct MessageNotification {
    pub title: String,
    pub body: String,
    pub icon: String,
    pub channel_id: String,
    pub timestamp: Option<String>,
}

/// The address of an icon: paths on Discord's site are made absolute.
pub open spec fn spec_icon_url(icon: Seq<char>) -> Seq<char> {
    if icon.len() > 0 && icon[0] == '/' {
        "https://discord.com"@ + icon
    } else {
        icon
    }
}

impl MessageNotification {
    /// The address from which the icon of the notification is fetched.
    pub fn icon_url(&self) -> (u: String)
        ensures
            u@ == spec_icon_url(self.icon@),
    {
        let cs = chars_of(self.icon.as_str());
        if cs.len() > 0 && cs[0] == '/' {
            let mut u = string_from_str("https://discord.com");
            u.append(self.icon.as_str());
            u
        } else {
            self.icon.clone()
        }
    }
}

/// The payload that carries a message notification.
#[derive(Clone, Debug)]
pub struct MessageNotificationPayload {
    pub message: MessageNotification,
}

/// A member's voice state as the websocket bridge sends it.
#[derive(Clone, Debug)]
pub struct VoiceState {
    pub user_id: String,
    pub username: Option<String>,
    pub avatar_url: Option<String>,
    pub channel_id: Option<String>,
    pub mute: Option<bool>,
    pub deaf: Option<bool>,
    pub speaking: Option<bool>,
    pub streaming: Option<bool>,
}

/// Deafened wins over muted, which wins over speaking.
pub open spec fn spec_bridge_voice_state(v: VoiceState) -> UserVoiceState {
    if v.deaf == Some(true) {
        UserVoiceState::Deafened
    } else if v.mute == Some(true) {
        UserVoiceState::Muted
    } else if v.speaking == Some(true) {
        UserVoiceState::Speaking
    } else {
        UserVoiceState::NotSpeaking
    }
}

/// The name shown for a member whose name is unknown.
pub open spec fn unknown_name() -> Seq<char> {
    "Unknown"@
}

impl VoiceState {
    pub fn voice_state(&self) -> (s: UserVoiceState)
        ensures
            s == spec_bridge_voice_state(*self),
    {
        if self.deaf == Some(true) {
            UserVoiceState::Deafened
        } else if self.mute == Some(true) {
            UserVoiceState::Muted
        } else if self.speaking == Some(true) {
            UserVoiceState::Speaking
        } else {
            UserVoiceState::NotSpeaking
        }
    }

    /// The member as the overlay shows it.
    pub fn to_user(&self) -> (u: User)
        ensures
            u.id@ == self.user_id@,
            u.name@ == match self.username {
                Some(n) => n@,
                None => unknown_name(),
            },
            u.avatar@ == match self.avatar_url {
                Some(a) => a@,
                None => Seq::<char>::empty(),
            },
            u.voice_state == spec_bridge_voice_state(*self),
            u.streaming == (self.streaming == Some(true)),
    {
        let name = match &self.username {
            Some(n) => n.clone(),
            None => string_from_str("Unknown"),
        };
        let avatar = match &self.avatar_url {
            Some(a) => a.clone(),
            None => String::new(),
        };
        User {
            name,
            id: self.user_id.clone(),
            avatar,
            voice_state: self.voice_state(),
            streaming: self.streaming == Some(true),
        }
    }
}

/// Everyone in a voice channel that was just joined.
#[derive(Clone, Debug)]
pub struct ChannelJoinPayload {
    pub states: Vec<VoiceState>,
}

/// A change of one member's voice state.
#[derive(Clone, Debug)]
pub struct UpdatePayload {
    pub state: VoiceState,
}

} // verus!
