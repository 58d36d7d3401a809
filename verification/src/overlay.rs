//! The overlay window's own decisions: keybind actions, keeping the window's
//! state in step with the shared one, the greeting, and the voice controls.
use vstd::prelude::*;
use crate::app_state::{AppState, find_user};
use crate::ipc::ui_message_handler::UiCommand;
use crate::keys::KeyEvent;
use crate::payloads::Notification;
use crate::updates::project_icon;
use crate::user::{User, UserVoiceState, users_view, spec_find};
use crate::util::chars::string_from_str;

verus! {

/// Acts on a global keybind: the toggle opens or closes the overlay; the
/// configurator key, while the overlay is open, closes it and asks (by
/// returning `true`) for the configurator window.
pub fn on_key_event(state: &mut AppState, event: KeyEvent) -> (open_configurator: bool)
    ensures
        match event {
            KeyEvent::ToggleOverlay => !open_configurator && *final(state) == (AppState {
                is_open: !old(state).is_open,
                ..*old(state)
            }),
            KeyEvent::OpenConfigurator => if old(state).is_open {
                open_configurator && *final(state) == (AppState { is_open: false, ..*old(state) })
            } else {
                !open_configurator && *final(state) == *old(state)
            },
        },
{
    match event {
        KeyEvent::ToggleOverlay => {
            state.is_open = !state.is_open;
            false
        },
        KeyEvent::OpenConfigurator => {
            if state.is_open {
                state.is_open = false;
                true
            } else {
                false
            }
        },
    }
}

/// The window's state after the shared state changed: the shared one, except
/// that whether the overlay is open is the window's own.
pub fn sync_from_shared(local: &mut AppState, shared: AppState)
    ensures
        *final(local) == (AppState { is_open: old(local).is_open, ..shared }),
{
    let is_open = local.is_open;
    *local = AppState { is_open, ..shared };
}

/// The text printed for `--version`: name, version and revision, each with a
/// stand-in when the build did not record it.
pub fn version_text(name: Option<&str>, version: Option<&str>, rev: Option<&str>) -> (r: String)
    ensures
        r@ == (match name {
            Some(n) => n@,
            None => "Unknown"@,
        }) + " version "@ + (match version {
            Some(v) => v@,
            None => "0.0.0"@,
        }) + " (rev "@ + (match rev {
            Some(h) => h@,
            None => "unknown"@,
        }) + ")"@,
{
    let mut r = string_from_str(
        match name {
            Some(n) => n,
            None => "Unknown",
        },
    );
    r.append(" version ");
    r.append(
        match version {
            Some(v) => v,
            None => "0.0.0",
        },
    );
    r.append(" (rev ");
    r.append(
        match rev {
            Some(h) => h,
            None => "unknown",
        },
    );
    r.append(")");
    r
}

/// The greeting shown at start-up, naming the version and revision, stamped
/// `now`.
pub fn welcome_notice(version: Option<&str>, rev: Option<&str>, now: i64) -> (n: Notification)
    ensures
        n.title@ == "Orbolay v"@ + (match version {
            Some(v) => v@,
            None => "0.0.0"@,
        }) + " (rev "@ + (match rev {
            Some(h) => h@,
            None => "unknown"@,
        }) + ")"@,
        n.body@ == "by SpikeHD"@,
        n.icon@ == project_icon(),
        n.guild_id is None,
        n.channel_id is None,
        n.message_id is None,
        n.timestamp == Some(now),
{
    let mut title = string_from_str("Orbolay v");
    title.append(
        match version {
            Some(v) => v,
            None => "0.0.0",
        },
    );
    title.append(" (rev ");
    title.append(
        match rev {
            Some(h) => h,
            None => "unknown",
        },
    );
    title.append(")");
    Notification::new(
        title,
        string_from_str("by SpikeHD"),
        string_from_str("https://avatars.githubusercontent.com/u/25207995?v=4"),
        now,
    )
}

/// The member whose voice controls are shown: the signed-in user, while the
/// overlay is open and the user is in the voice channel.
pub fn controls_user(state: &AppState) -> (r: Option<User>)
    ensures
        !state.is_open ==> r is None,
        state.is_open ==> match spec_find(users_view(state.voice_users@), state.user_id@) {
            Some(i) => r == Some(state.voice_users@[i]),
            None => r is None,
        },
{
    if !state.is_open {
        return None;
    }
    match find_user(&state.voice_users, state.user_id.as_str()) {
        Some(i) => Some(state.voice_users[i].clone()),
        None => None,
    }
}

/// The buttons of the voice controls.
#[derive(Clone, Copy, Debug, PartialEq, Eq, Structural)]
pub enum ControlKind {
    Mute,
    Deafen,
    Disconnect,
    StopStream,
}

/// One voice control button: which it is, whether it is drawn in red (its
/// "on" look), and what pressing it asks.
pub struct ControlButton {
    pub kind: ControlKind,
    pub is_red: bool,
    pub command: UiCommand,
}

/// The voice controls for `user`: mute (red while muted or deafened), deafen
/// (red while deafened), disconnect, and stop-stream while streaming.
pub fn voice_control_buttons(user: &User) -> (r: Vec<ControlButton>)
    ensures
        r@.len() == if user.streaming { 4int } else { 3int },
        r@[0].kind == ControlKind::Mute && r@[0].command == UiCommand::ToggleMute && r@[0].is_red
            == (user.voice_state == UserVoiceState::Muted || user.voice_state
            == UserVoiceState::Deafened),
        r@[1].kind == ControlKind::Deafen && r@[1].command == UiCommand::ToggleDeaf && r@[1].is_red
            == (user.voice_state == UserVoiceState::Deafened),
        r@[2].kind == ControlKind::Disconnect && r@[2].command == UiCommand::Disconnect
            && r@[2].is_red,
        user.streaming ==> r@[3].kind == ControlKind::StopStream && r@[3].command
            == UiCommand::StopStream && r@[3].is_red,
{
    let muted = user.voice_state == UserVoiceState::Muted || user.voice_state
        == UserVoiceState::Deafened;
    let deafened = user.voice_state == UserVoiceState::Deafened;
    let mut r: Vec<ControlButton> = Vec::new();
    r.push(ControlButton { kind: ControlKind::Mute, is_red: muted, command: UiCommand::ToggleMute });
    r.push(
        ControlButton { kind: ControlKind::Deafen, is_red: deafened, command: UiCommand::ToggleDeaf },
    );
    r.push(
        ControlButton {
            kind: ControlKind::Disconnect,
            is_red: true,
            command: UiCommand::Disconnect,
        },
    );
    if user.streaming {
        r.push(
            ControlButton {
                kind: ControlKind::StopStream,
                is_red: true,
                command: UiCommand::StopStream,
            },
        );
    }
    r
}

} // verus!
