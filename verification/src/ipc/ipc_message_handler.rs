//! What the overlay does on the events that the Discord client dispatches.
use vstd::prelude::*;

use crate::app_state::{AppState, keeps_settings, spec_kept_messages};
use crate::ipc::payloads::{
    NotificationCreatePayload, ReadyPayload, SpeakingPayload, VoiceChannelSelectPayload,
    VoiceSettingsUpdatePayload, VoiceState,
};
use crate::ipc::request::{IpcRequest, RequestView, requests_view};
use crate::ipc::subscription::{
    subscribe_voice_channel, unsubscribe_voice_channel, spec_subscriptions,
    spec_unsubscriptions, voice_channel_events,
};
use crate::ipc::users::{
    remove_user, set_voice_state, upsert_user, spec_remove_user, spec_set_voice_state,
    spec_upsert_user, lemma_upsert_keeps_ids_unique, lemma_set_voice_state_keeps_ids_unique, lemma_remove_keeps_ids_unique,
};
use crate::payloads::{Notification, opt_view, or_empty, clone_opt_string};
use crate::user::{UserVoiceState, users_view, unique_ids, spec_find, lemma_spec_find};
use crate::util::text::{replace, spec_replace};

verus! {

/// An event dispatched by the Discord client, with its payload read.
pub enum IpcEvent {
    Ready(ReadyPayload),
    VoiceChannelSelect(VoiceChannelSelectPayload),
    VoiceStateCreate(VoiceState),
    VoiceStateUpdate(VoiceState),
    SpeakingStart(SpeakingPayload),
    SpeakingStop(SpeakingPayload),
    VoiceStateDelete(VoiceState),
    VoiceSettingsUpdate(VoiceSettingsUpdatePayload),
    /// Ping statistics; only logged.
    VoiceConnectionStatus,
    NotificationCreate(NotificationCreatePayload),
    /// Any other event.
    Unknown,
    /// A known event whose payload could not be read; the text says why.
    Unreadable(String),
}

/// The requests sent when the user moves from voice channel `old_channel`
/// to `new_channel` (empty when the user left): stop following the old
/// channel, then follow the new one and ask for its soundboard, its name and
/// its server's name.
pub open spec fn spec_channel_select_requests(old_channel: Seq<char>, new_channel: Seq<char>, guild: Seq<char>) -> Seq<RequestView> {
    let leave = if old_channel != new_channel && old_channel.len() > 0 {
        spec_unsubscriptions(voice_channel_events(), Some(old_channel))
    } else {
        Seq::empty()
    };
    let join = if new_channel.len() > 0 {
        spec_subscriptions(voice_channel_events(), Some(new_channel)) + seq![
            RequestView::GetSoundboardSounds,
            RequestView::GetChannel { channel_id: new_channel },
        ] + if guild.len() > 0 {
            seq![RequestView::GetGuild { guild_id: guild }]
        } else {
            Seq::empty()
        }
    } else {
        Seq::empty()
    };
    leave + join
}

/// The voice state reported by a settings update of the signed-in user.
pub open spec fn spec_settings_state(p: VoiceSettingsUpdatePayload) -> UserVoiceState {
    if p.deaf {
        UserVoiceState::Deafened
    } else if p.mute {
        UserVoiceState::Muted
    } else {
        UserVoiceState::NotSpeaking
    }
}

/// Whether `n` is the notification shown for a NOTIFICATION_CREATE event.
pub open spec fn notification_from(n: Notification, p: NotificationCreatePayload, now: i64) -> bool {
    &&& n.title@ == p.title@
    &&& n.body@ == p.body@
    &&& n.icon@ == spec_replace(or_empty(p.icon_url), ".webp"@, ".png"@)
    &&& opt_view(n.guild_id) == match p.message {
        Some(m) => opt_view(m.guild_id),
        None => None,
    }
    &&& opt_view(n.channel_id) == match p.message {
        Some(m) => opt_view(m.channel_id),
        None => None,
    }
    &&& opt_view(n.message_id) == match p.message {
        Some(m) => opt_view(m.id),
        None => None,
    }
    &&& n.timestamp == Some(now)
    &&& n.actions is None
}

/// Whether the member list, the channel and the notifications are unchanged.
pub open spec fn keeps_channel(old: AppState, new: AppState) -> bool {
    &&& new.voice_users@ == old.voice_users@
    &&& new.current_channel@ == old.current_channel@
    &&& new.current_guild_id@ == old.current_guild_id@
    &&& new.messages@ == old.messages@
    &&& new.user_id@ == old.user_id@
}

/// Whether only the member list changed, as `users` says.
pub open spec fn only_users(old: AppState, new: AppState, users: Seq<crate::user::UserView>) -> bool {
    &&& users_view(new.voice_users@) == users
    &&& new.current_channel@ == old.current_channel@
    &&& new.current_guild_id@ == old.current_guild_id@
    &&& new.messages@ == old.messages@
    &&& new.user_id@ == old.user_id@
}

/// What handling `event` does: the new state, whether the overlay must be
/// redrawn, and the requests to send.
pub open spec fn spec_ipc_effect(old: AppState, new: AppState, event: IpcEvent, changed: bool, requests: Seq<RequestView>, now: i64) -> bool {
    &&& keeps_settings(old, new)
    &&& match event {
        IpcEvent::Ready(p) => {
            &&& changed
            &&& requests == seq![RequestView::Authorize]
            &&& new.user_id@ == match p.user {
                Some(u) => u.id@,
                None => old.user_id@,
            }
            &&& new.voice_users@ == old.voice_users@
            &&& new.current_channel@ == old.current_channel@
            &&& new.current_guild_id@ == old.current_guild_id@
            &&& new.messages@ == old.messages@
        },
        IpcEvent::VoiceChannelSelect(p) => {
            let channel = or_empty(p.channel_id);
            let guild = or_empty(p.guild_id);
            &&& changed
            &&& requests == spec_channel_select_requests(old.current_channel@, channel, guild)
            &&& new.current_channel@ == channel
            &&& new.current_guild_id@ == guild
            &&& if channel.len() == 0 {
                new.voice_users@.len() == 0
            } else {
                new.voice_users@ == old.voice_users@
            }
            &&& new.messages@ == old.messages@
            &&& new.user_id@ == old.user_id@
        },
        IpcEvent::VoiceStateCreate(v) => changed && requests.len() == 0 && only_users(
            old,
            new,
            spec_upsert_user(users_view(old.voice_users@), v),
        ),
        IpcEvent::VoiceStateUpdate(v) => changed && requests.len() == 0 && only_users(
            old,
            new,
            spec_upsert_user(users_view(old.voice_users@), v),
        ),
        IpcEvent::SpeakingStart(p) => changed && requests.len() == 0 && only_users(
            old,
            new,
            spec_set_voice_state(users_view(old.voice_users@), p.user_id@, UserVoiceState::Speaking),
        ),
        IpcEvent::SpeakingStop(p) => changed && requests.len() == 0 && only_users(
            old,
            new,
            spec_set_voice_state(
                users_view(old.voice_users@),
                p.user_id@,
                UserVoiceState::NotSpeaking,
            ),
        ),
        IpcEvent::VoiceStateDelete(v) => changed && requests.len() == 0 && only_users(
            old,
            new,
            spec_remove_user(users_view(old.voice_users@), v.user.id@),
        ),
        IpcEvent::VoiceSettingsUpdate(p) => changed && requests.len() == 0 && only_users(
            old,
            new,
            spec_set_voice_state(
                users_view(old.voice_users@),
                old.user_id@,
                spec_settings_state(p),
            ),
        ),
        IpcEvent::NotificationCreate(p) => {
            &&& changed
            &&& requests.len() == 0
            &&& new.messages@.len() == spec_kept_messages(old.messages@).len() + 1
            &&& new.messages@.drop_last() == spec_kept_messages(old.messages@)
            &&& notification_from(new.messages@.last(), p, now)
            &&& new.voice_users@ == old.voice_users@
            &&& new.current_channel@ == old.current_channel@
            &&& new.current_guild_id@ == old.current_guild_id@
            &&& new.user_id@ == old.user_id@
        },
        IpcEvent::VoiceConnectionStatus => !changed && requests.len() == 0 && keeps_channel(
            old,
            new,
        ),
        IpcEvent::Unknown => !changed && requests.len() == 0 && keeps_channel(old, new),
        IpcEvent::Unreadable(_) => !changed && requests.len() == 0 && new == old,
    }
}

/// The notification shown for a NOTIFICATION_CREATE event, stamped `now`.
fn notification_for(p: NotificationCreatePayload, now: i64) -> (n: Notification)
    ensures
        notification_from(n, p, now),
{
    let icon_url = match &p.icon_url {
        Some(u) => u.clone(),
        None => String::new(),
    };
    proof {
        reveal_strlit(".webp");
    }
    let icon = replace(icon_url.as_str(), ".webp", ".png");
    let (guild_id, channel_id, message_id) = match &p.message {
        Some(m) => (clone_opt_string(&m.guild_id), clone_opt_string(&m.channel_id), clone_opt_string(&m.id)),
        None => (None, None, None),
    };
    Notification {
        guild_id,
        channel_id,
        message_id,
        title: p.title.clone(),
        body: p.body.clone(),
        timestamp: Some(now),
        icon,
        actions: None,
    }
}

fn channel_select(state: &mut AppState, p: VoiceChannelSelectPayload) -> (requests: Vec<IpcRequest>)
    ensures
        forall|t: i64| spec_ipc_effect(*old(state), *final(state), IpcEvent::VoiceChannelSelect(p), true, requests_view(requests@), t),
{
    let new_channel = match &p.channel_id {
        Some(c) => c.clone(),
        None => String::new(),
    };
    let guild = match &p.guild_id {
        Some(g) => g.clone(),
        None => String::new(),
    };
    let mut requests: Vec<IpcRequest> = Vec::new();
    if !(state.current_channel == new_channel) && state.current_channel.as_str().unicode_len() > 0 {
        requests = unsubscribe_voice_channel(state.current_channel.as_str());
    }
    let ghost leave = requests_view(requests@);
    state.current_channel = new_channel.clone();
    state.current_guild_id = guild.clone();
    if new_channel.as_str().unicode_len() > 0 {
        let mut join = subscribe_voice_channel(new_channel.as_str());
        join.push(IpcRequest::GetSoundboardSounds);
        join.push(IpcRequest::GetChannel { channel_id: new_channel.clone() });
        if guild.as_str().unicode_len() > 0 {
            join.push(IpcRequest::GetGuild { guild_id: guild.clone() });
        }
        let ghost jv = requests_view(join@);
        requests.append(&mut join);
        assert(requests_view(requests@) =~= leave + jv);
    } else {
        state.voice_users.clear();
        state.current_channel = String::new();
        assert(requests_view(requests@) =~= leave + Seq::<RequestView>::empty());
    }
    assert(state.current_channel@ == or_empty(p.channel_id));
    assert(state.current_guild_id@ == or_empty(p.guild_id));
    assert(requests_view(requests@) == spec_channel_select_requests(old(state).current_channel@, or_empty(p.channel_id), or_empty(p.guild_id)));
    assert(keeps_settings(*old(state), *state));
    requests
}

/// Updates the state for an event from the Discord client; `now` is the
/// current time in seconds since the Unix epoch, which stamps a notification.
/// Returns whether the overlay must be redrawn and the requests to send, in
/// order; an event whose payload could not be read is an error that changes
/// nothing.
pub fn handle_ipc_message(state: &mut AppState, event: IpcEvent, now: i64) -> (r: Result<
    (bool, Vec<IpcRequest>),
    String,
>)
    ensures
        match event {
            IpcEvent::Unreadable(e) => r == Err::<(bool, Vec<IpcRequest>), String>(e)
                && *final(state) == *old(state),
            _ => r matches Ok(p) && spec_ipc_effect(
                *old(state),
                *final(state),
                event,
                p.0,
                requests_view(p.1@),
                now,
            ),
        },
        unique_ids(users_view(old(state).voice_users@)) ==> unique_ids(users_view(final(state).voice_users@)),
{
    match event {
        IpcEvent::Unreadable(e) => Err(e),
        other => Ok(apply_event(state, other, now)),
    }
}

/// The work of `handle_ipc_message` on a readable event.
fn apply_event(state: &mut AppState, event: IpcEvent, now: i64) -> (r: (bool, Vec<IpcRequest>))
    ensures
        spec_ipc_effect(*old(state), *final(state), event, r.0, requests_view(r.1@), now),
        unique_ids(users_view(old(state).voice_users@)) ==> unique_ids(users_view(final(state).voice_users@)),
{
    let ghost old_users = users_view(state.voice_users@);
    match event {
        IpcEvent::Ready(p) => {
            match p.user {
                Some(u) => {
                    state.user_id = u.id;
                },
                None => {},
            }
            let mut requests: Vec<IpcRequest> = Vec::new();
            requests.push(IpcRequest::Authorize);
            assert(requests_view(requests@) =~= seq![RequestView::Authorize]);
            (true, requests)
        },
        IpcEvent::VoiceChannelSelect(p) => {
            let requests = channel_select(state, p);
            (true, requests)
        },
        IpcEvent::VoiceStateCreate(v) => {
            upsert_user(&mut state.voice_users, &v);
            proof { if unique_ids(old_users) { lemma_upsert_keeps_ids_unique(old_users, v); } }
            (true, Vec::new())
        },
        IpcEvent::VoiceStateUpdate(v) => {
            upsert_user(&mut state.voice_users, &v);
            proof { if unique_ids(old_users) { lemma_upsert_keeps_ids_unique(old_users, v); } }
            (true, Vec::new())
        },
        IpcEvent::SpeakingStart(p) => {
            set_voice_state(&mut state.voice_users, p.user_id.as_str(), UserVoiceState::Speaking);
            proof {
                if unique_ids(old_users) {
                    lemma_set_voice_state_keeps_ids_unique(old_users, p.user_id@, UserVoiceState::Speaking);
                }
            }
            (true, Vec::new())
        },
        IpcEvent::SpeakingStop(p) => {
            set_voice_state(&mut state.voice_users, p.user_id.as_str(), UserVoiceState::NotSpeaking);
            proof {
                if unique_ids(old_users) {
                    lemma_set_voice_state_keeps_ids_unique(old_users, p.user_id@, UserVoiceState::NotSpeaking);
                }
            }
            (true, Vec::new())
        },
        IpcEvent::VoiceStateDelete(v) => {
            remove_user(&mut state.voice_users, v.user.id.as_str());
            proof { if unique_ids(old_users) { lemma_remove_keeps_ids_unique(old_users, v.user.id@); } }
            (true, Vec::new())
        },
        IpcEvent::VoiceSettingsUpdate(p) => {
            let vs = if p.deaf {
                UserVoiceState::Deafened
            } else if p.mute {
                UserVoiceState::Muted
            } else {
                UserVoiceState::NotSpeaking
            };
            let me = state.user_id.clone();
            set_voice_state(&mut state.voice_users, me.as_str(), vs);
            proof {
                if unique_ids(old_users) {
                    lemma_set_voice_state_keeps_ids_unique(old_users, me@, vs);
                }
            }
            (true, Vec::new())
        },
        IpcEvent::VoiceConnectionStatus => (false, Vec::new()),
        IpcEvent::NotificationCreate(p) => {
            let n = notification_for(p, now);
            let ghost kept = spec_kept_messages(state.messages@);
            state.notify(n);
            assert(state.messages@.drop_last() == kept);
            (true, Vec::new())
        },
        IpcEvent::Unknown => (false, Vec::new()),
        IpcEvent::Unreadable(_) => (false, Vec::new()),
    }
}

/// After a voice settings update of the signed-in user (the first member
/// with the user's id), that member is deafened when the update says deaf,
/// whatever it says of mute; muted when it says mute but not deaf; and neither
/// otherwise. No other member changes, and none is added or removed.
pub proof fn lemma_settings_update_sets_own_state(
    old: AppState,
    new: AppState,
    p: VoiceSettingsUpdatePayload,
    changed: bool,
    requests: Seq<RequestView>,
    now: i64,
    i: int,
)
    requires
        spec_ipc_effect(old, new, IpcEvent::VoiceSettingsUpdate(p), changed, requests, now),
        0 <= i < old.voice_users@.len(),
        old.voice_users@[i].id@ == old.user_id@,
        forall|j: int| 0 <= j < i ==> old.voice_users@[j].id@ != old.user_id@,
    ensures
        new.voice_users@.len() == old.voice_users@.len(),
        p.deaf ==> new.voice_users@[i].voice_state == UserVoiceState::Deafened,
        !p.deaf && p.mute ==> new.voice_users@[i].voice_state == UserVoiceState::Muted,
        !p.deaf && !p.mute ==> new.voice_users@[i].voice_state == UserVoiceState::NotSpeaking,
        new.voice_users@[i].id@ == old.voice_users@[i].id@,
        forall|j: int|
            0 <= j < old.voice_users@.len() && j != i ==> #[trigger] users_view(new.voice_users@)[j]
                == users_view(old.voice_users@)[j],
{
    let uv = users_view(old.voice_users@);
    lemma_spec_find(uv, old.user_id@);
    assert(uv[i].id == old.user_id@);
    assert(forall|j: int| 0 <= j < i ==> uv[j].id != old.user_id@);
    match spec_find(uv, old.user_id@) {
        Some(k) => {
            assert(k == i) by {
                if k < i {
                    assert(uv[k].id != old.user_id@);
                }
                if k > i {
                }
            }
        },
        None => {
            assert(uv[i].id != old.user_id@);
        },
    }
    let nv = users_view(new.voice_users@);
    assert(nv.len() == new.voice_users@.len());
    assert(nv[i] == new.voice_users@[i]@);
}

} // verus!
