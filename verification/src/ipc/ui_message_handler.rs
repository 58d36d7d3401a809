//! What the overlay does on the commands of its own user interface.
use vstd::prelude::*;

use crate::app_state::{AppState, find_user, keeps_settings};
use crate::ipc::request::{IpcRequest, RequestView};
use crate::payloads::{Notification, opt_view};
use crate::user::{UserVoiceState, users_view, spec_find, lemma_spec_find};

verus! {

/// A command from the overlay's buttons and menus.
#[derive(Clone, Debug)]
pub enum UiCommand {
    ToggleMute,
    ToggleDeaf,
    OpenChannel { channel_id: String, guild_id: String },
    AcceptCall { channel_id: String },
    Disconnect,
    StopStream,
    PlaySoundboardSound { sound_id: String, source_guild_id: Option<String> },
    /// `volume_bits` is the bit pattern of the `f64` volume in percent.
    SetUserVolume { user_id: String, volume_bits: u64 },
    Unknown,
}

/// Whether the signed-in user is shown in voice state `vs`.
pub open spec fn self_in_state(state: AppState, vs: UserVoiceState) -> bool {
    match spec_find(users_view(state.voice_users@), state.user_id@) {
        Some(i) => state.voice_users@[i].voice_state == vs,
        None => false,
    }
}

/// Whether a notification is not about text channel `c`.
pub open spec fn not_in_channel(c: Seq<char>) -> spec_fn(Notification) -> bool {
    |n: Notification| opt_view(n.channel_id) != Some(c)
}

/// Whether nothing but the notifications changed.
pub open spec fn only_messages(old: AppState, new: AppState) -> bool {
    &&& keeps_settings(old, new)
    &&& new.voice_users@ == old.voice_users@
    &&& new.current_channel@ == old.current_channel@
    &&& new.current_guild_id@ == old.current_guild_id@
    &&& new.user_id@ == old.user_id@
}

/// What handling a UI command does: the new state, whether the overlay must
/// be redrawn, and the request to send.
pub open spec fn spec_ui_effect(old: AppState, new: AppState, cmd: UiCommand, redraw: bool, request: Option<RequestView>) -> bool {
    &&& only_messages(old, new)
    &&& match cmd {
        UiCommand::ToggleMute => !redraw && new.messages@ == old.messages@ && request == Some(
            RequestView::SetMuted { mute: !self_in_state(old, UserVoiceState::Muted) },
        ),
        UiCommand::ToggleDeaf => !redraw && new.messages@ == old.messages@ && request == Some(
            RequestView::SetDeafened { deaf: !self_in_state(old, UserVoiceState::Deafened) },
        ),
        UiCommand::OpenChannel { channel_id, guild_id } => !redraw && new.messages@
            == old.messages@ && request == Some(
            RequestView::DeepLinkChannel { channel_id: channel_id@, guild_id: guild_id@ },
        ),
        UiCommand::AcceptCall { channel_id } => {
            &&& redraw
            &&& new.messages@ == old.messages@.filter(not_in_channel(channel_id@))
            &&& request == Some(RequestView::SelectVoiceChannel { channel_id: channel_id@ })
        },
        UiCommand::Disconnect => !redraw && new.messages@ == old.messages@ && request == Some(
            RequestView::Disconnect,
        ),
        UiCommand::StopStream => !redraw && new.messages@ == old.messages@ && request == Some(
            RequestView::StopStreaming,
        ),
        UiCommand::PlaySoundboardSound { sound_id, source_guild_id } => !redraw
            && new.messages@ == old.messages@ && request == Some(
            RequestView::PlaySoundboardSound {
                sound_id: sound_id@,
                source_guild_id: opt_view(source_guild_id),
            },
        ),
        UiCommand::SetUserVolume { user_id, volume_bits } => !redraw && new.messages@
            == old.messages@ && request == Some(
            RequestView::SetUserVolume { user_id: user_id@, volume_bits },
        ),
        UiCommand::Unknown => !redraw && new.messages@ == old.messages@ && request is None,
    }
}

fn self_is(state: &AppState, vs: UserVoiceState) -> (r: bool)
    ensures
        r == self_in_state(*state, vs),
{
    match find_user(&state.voice_users, state.user_id.as_str()) {
        Some(i) => {
            assert(users_view(state.voice_users@)[i as int].voice_state == state.voice_users@[i as int].voice_state);
            state.voice_users[i].voice_state == vs
        },
        None => false,
    }
}

fn drop_channel_messages(messages: &mut Vec<Notification>, channel_id: &String)
    ensures
        final(messages)@ == old(messages)@.filter(not_in_channel(channel_id@)),
{
    let ghost pred = not_in_channel(channel_id@);
    let ghost all = messages@;
    let mut old_messages: Vec<Notification> = Vec::new();
    std::mem::swap(&mut old_messages, messages);
    let mut kept: Vec<Notification> = Vec::new();
    for m in it: old_messages
        invariant
            pred == not_in_channel(channel_id@),
            it.seq() == all,
            kept@ == all.take(it.index() as int).filter(pred),
    {
        let ghost k = it.index() as int;
        proof {
            assert(all.take(k + 1) == all.take(k).push(m));
            all.take(k).lemma_filter_push(m, pred);
        }
        let same = match &m.channel_id {
            Some(c) => c.eq(channel_id),
            None => false,
        };
        if !same {
            assert(pred(m));
            kept.push(m);
        } else {
            assert(!pred(m));
        }
    }
    assert(all.take(all.len() as int) == all);
    *messages = kept;
}

/// Handles a command of the user interface. Returns whether the overlay must
/// be redrawn and the request to send. On `Disconnect` the state is left as
/// it is: `after_ui_request` forgets the channel once the request went out.
pub fn handle_ui_message(state: &mut AppState, cmd: UiCommand) -> (r: (bool, Option<IpcRequest>))
    ensures
        spec_ui_effect(*old(state), *final(state), cmd, r.0, match r.1 {
            Some(q) => Some(q@),
            None => None,
        }),
{
    match cmd {
        UiCommand::ToggleMute => {
            let muted = self_is(state, UserVoiceState::Muted);
            (false, Some(IpcRequest::SetMuted { mute: !muted }))
        },
        UiCommand::ToggleDeaf => {
            let deafened = self_is(state, UserVoiceState::Deafened);
            (false, Some(IpcRequest::SetDeafened { deaf: !deafened }))
        },
        UiCommand::OpenChannel { channel_id, guild_id } => {
            (false, Some(IpcRequest::DeepLinkChannel { channel_id, guild_id }))
        },
        UiCommand::AcceptCall { channel_id } => {
            drop_channel_messages(&mut state.messages, &channel_id);
            (true, Some(IpcRequest::SelectVoiceChannel { channel_id }))
        },
        UiCommand::Disconnect => (false, Some(IpcRequest::Disconnect)),
        UiCommand::StopStream => (false, Some(IpcRequest::StopStreaming)),
        UiCommand::PlaySoundboardSound { sound_id, source_guild_id } => {
            (false, Some(IpcRequest::PlaySoundboardSound { sound_id, source_guild_id }))
        },
        UiCommand::SetUserVolume { user_id, volume_bits } => {
            (false, Some(IpcRequest::SetUserVolume { user_id, volume_bits }))
        },
        UiCommand::Unknown => (false, None),
    }
}

/// What follows the attempt to send the request of `cmd`, where `sent` says
/// whether it went out: a disconnection that went out forgets the channel and
/// its members and asks for a redraw; anything else changes nothing.
pub fn after_ui_request(state: &mut AppState, cmd: &UiCommand, sent: bool) -> (redraw: bool)
    ensures
        (*cmd is Disconnect && sent) ==> redraw && final(state).current_channel@
            == Seq::<char>::empty() && final(state).voice_users@.len() == 0 && *final(state) == (
        AppState {
            current_channel: final(state).current_channel,
            voice_users: final(state).voice_users,
            ..*old(state)
        }),
        !(*cmd is Disconnect && sent) ==> !redraw && *final(state) == *old(state),
{
    match cmd {
        UiCommand::Disconnect => {
            if sent {
                state.current_channel = String::new();
                state.voice_users = Vec::new();
                true
            } else {
                false
            }
        },
        _ => false,
    }
}

/// Toggling mute asks to unmute exactly when the signed-in user's member
/// (the first with the user's id) is muted, and to mute otherwise, also when
/// the user is not in the list; toggling deafen likewise with deafened. The
/// states of the other members play no part.
pub proof fn lemma_toggles_follow_own_state(
    old: AppState,
    new: AppState,
    redraw: bool,
    request: Option<RequestView>,
    cmd: UiCommand,
)
    requires
        spec_ui_effect(old, new, cmd, redraw, request),
        cmd is ToggleMute || cmd is ToggleDeaf,
    ensures
        (forall|j: int| 0 <= j < old.voice_users@.len() ==> #[trigger] old.voice_users@[j].id@
            != old.user_id@) ==> (if cmd is ToggleMute {
            request == Some(RequestView::SetMuted { mute: true })
        } else {
            request == Some(RequestView::SetDeafened { deaf: true })
        }),
        forall|i: int|
            0 <= i < old.voice_users@.len() && #[trigger] old.voice_users@[i].id@ == old.user_id@
                && (forall|j: int| 0 <= j < i ==> old.voice_users@[j].id@ != old.user_id@)
                ==> (if cmd is ToggleMute {
                request == Some(
                    RequestView::SetMuted {
                        mute: old.voice_users@[i].voice_state != UserVoiceState::Muted,
                    },
                )
            } else {
                request == Some(
                    RequestView::SetDeafened {
                        deaf: old.voice_users@[i].voice_state != UserVoiceState::Deafened,
                    },
                )
            }),
{
    let uv = users_view(old.voice_users@);
    lemma_spec_find(uv, old.user_id@);
    assert forall|j: int| 0 <= j < uv.len() implies uv[j] == old.voice_users@[j]@ by {}
    assert forall|i: int|
        0 <= i < old.voice_users@.len() && #[trigger] old.voice_users@[i].id@ == old.user_id@
            && (forall|j: int| 0 <= j < i ==> old.voice_users@[j].id@ != old.user_id@)
            implies spec_find(uv, old.user_id@) == Some(i) by {
        assert(uv[i].id == old.user_id@);
        match spec_find(uv, old.user_id@) {
            Some(k) => {
                if i < k {
                    assert(uv[i].id != old.user_id@);
                }
                if k < i {
                    assert(uv[k] == old.voice_users@[k]@);
                    assert(old.voice_users@[k].id@ != old.user_id@);
                }
            },
            None => {
                assert(uv[i].id != old.user_id@);
            },
        }
    }
    if forall|j: int| 0 <= j < old.voice_users@.len() ==> #[trigger] old.voice_users@[j].id@
        != old.user_id@ {
        match spec_find(uv, old.user_id@) {
            Some(k) => {
                assert(uv[k] == old.voice_users@[k]@);
                assert(old.voice_users@[k].id@ != old.user_id@);
            },
            None => {},
        }
    }
}

} // verus!
