//! Payloads of the Discord RPC events and command replies that the overlay reads.
use vstd::prelude::*;

use crate::user::{PremiumType, User, UserVoiceState};

verus! {

/// The signed-in user, as the READY event reports it.
#[derive(Clone, Debug)]
pub struct RpcUser {
    pub id: String,
    pub username: String,
    pub global_name: Option<String>,
    pub avatar: Option<String>,
}

/// The READY event.
#[derive(Clone, Debug)]
pub struct ReadyPayload {
    pub v: i32,
    pub user: Option<RpcUser>,
}

/// The VOICE_CHANNEL_SELECT event: the user joined or left a voice channel.
#[derive(Clone, Debug)]
pub struct VoiceChannelSelectPayload {
    pub channel_id: Option<String>,
    pub guild_id: Option<String>,
}

/// The reply to GET_SELECTED_VOICE_CHANNEL.
#[derive(Clone, Debug)]
pub struct SelectedVoiceChannelPayload {
    pub id: Option<String>,
    pub guild_id: Option<String>,
    pub voice_states: Vec<VoiceState>,
}

/// The user in a voice state event.
#[derive(Clone, Debug)]
pub struct VoiceStateUser {
    pub id: String,
    pub username: String,
    pub global_name: Option<String>,
    pub avatar: Option<String>,
}

/// Mute and deafen flags of a voice state event.
#[derive(Clone, Copy, Debug)]
pub struct VoiceStateState {
    pub mute: bool,
    pub deaf: bool,
    pub self_mute: bool,
    pub self_deaf: bool,
    pub suppress: bool,
}

/// A VOICE_STATE_CREATE / UPDATE / DELETE event. (Its volume is not used by
/// the overlay and is not kept.)
#[derive(Clone, Debug)]
pub struct VoiceState {
    pub nick: Option<String>,
    pub mute: bool,
    pub voice_state: VoiceStateState,
    pub user: VoiceStateUser,
}

/// Deafened (by the server or by oneself) wins over muted; a new state is
/// never "speaking".
pub open spec fn spec_rpc_voice_state(v: VoiceState) -> UserVoiceState {
    if v.voice_state.deaf || v.voice_state.self_deaf {
        UserVoiceState::Deafened
    } else if v.voice_state.mute || v.voice_state.self_mute {
        UserVoiceState::Muted
    } else {
        UserVoiceState::NotSpeaking
    }
}

/// The name shown for a member: the server nickname, else the global display
/// name, else the user name.
pub open spec fn spec_display_name(v: VoiceState) -> Seq<char> {
    match v.nick {
        Some(n) => n@,
        None => match v.user.global_name {
            Some(g) => g@,
            None => v.user.username@,
        },
    }
}

impl VoiceState {
    pub fn user_voice_state(&self) -> (s: UserVoiceState)
        ensures
            s == spec_rpc_voice_state(*self),
    {
        if self.voice_state.deaf || self.voice_state.self_deaf {
            UserVoiceState::Deafened
        } else if self.voice_state.mute || self.voice_state.self_mute {
            UserVoiceState::Muted
        } else {
            UserVoiceState::NotSpeaking
        }
    }

    pub fn display_name(&self) -> (n: String)
        ensures
            n@ == spec_display_name(*self),
    {
        match &self.nick {
            Some(n) => n.clone(),
            None => match &self.user.global_name {
                Some(g) => g.clone(),
                None => self.user.username.clone(),
            },
        }
    }

    /// The member as the overlay shows it.
    pub fn to_user(&self) -> (u: User)
        ensures
            u.id@ == self.user.id@,
            u.name@ == spec_display_name(*self),
            u.avatar@ == match self.user.avatar {
                Some(a) => a@,
                None => Seq::<char>::empty(),
            },
            u.voice_state == spec_rpc_voice_state(*self),
            !u.streaming,
    {
        let avatar = match &self.user.avatar {
            Some(a) => a.clone(),
            None => String::new(),
        };
        User {
            name: self.display_name(),
            id: self.user.id.clone(),
            avatar,
            voice_state: self.user_voice_state(),
            streaming: false,
        }
    }
}

/// One ping measurement of the voice connection.
#[derive(Clone, Copy, Debug, PartialEq, Eq, Structural)]
pub struct VoiceConnectionPing {
    pub time: i64,
    pub value: i64,
}

/// The VOICE_SETTINGS_UPDATE event for the signed-in user.
#[derive(Clone, Copy, Debug, PartialEq, Eq, Structural)]
pub struct VoiceSettingsUpdatePayload {
    pub deaf: bool,
    pub mute: bool,
}

/// The SPEAKING_START / SPEAKING_STOP events.
#[derive(Clone, Debug)]
pub struct SpeakingPayload {
    pub channel_id: String,
    pub user_id: String,
}

/// The reply to GET_GUILD.
#[derive(Clone, Debug)]
pub struct GetGuildPayload {
    pub id: String,
    pub name: String,
}

/// The reply to GET_CHANNEL.
#[derive(Clone, Debug)]
pub struct GetChannelPayload {
    pub id: String,
    pub name: String,
    pub guild_id: Option<String>,
}

/// The reply to GET_USER.
#[derive(Clone, Debug)]
pub struct GetUserPayload {
    pub premium_type: PremiumType,
}

/// Where the message of a notification lives.
#[derive(Clone, Debug)]
pub struct MessageNotificationInner {
    pub id: Option<String>,
    pub guild_id: Option<String>,
    pub channel_id: Option<String>,
}

/// The NOTIFICATION_CREATE event.
#[derive(Clone, Debug)]
pub struct NotificationCreatePayload {
    pub message: Option<MessageNotificationInner>,
    pub icon_url: Option<String>,
    pub title: String,
    pub body: String,
}

} // verus!
