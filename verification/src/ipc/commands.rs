//! What the overlay does on the replies to its commands.
use vstd::prelude::*;

use crate::app_state::{AppState, keeps_settings};
use crate::ipc::ipc_message_handler::{IpcEvent, handle_ipc_message, spec_ipc_effect};
use crate::ipc::payloads::{GetChannelPayload, GetGuildPayload, GetUserPayload, SelectedVoiceChannelPayload, VoiceState};
use crate::ipc::request::{IpcRequest, RequestView, requests_view};
use crate::ipc::subscription::{subscribe_voice_channel, subscribe_voice_global, spec_subscriptions, voice_channel_events, global_events};
use crate::ipc::users::rpc_user_view;
use crate::payloads::{SoundboardSoundPayload, or_empty};
use crate::soundboard::{group_by_guild, groups_of, spec_guild_keys, in_guild, lemma_guild_keys_no_duplicates};
use crate::user::{User, UserVoiceState, users_view};

verus! {

/// A reply from the Discord client, with its payload read (`None` when the
/// payload could not be read).
pub enum IpcCommand {
    /// Authentication succeeded.
    Authenticate,
    GetSelectedVoiceChannel(Option<SelectedVoiceChannelPayload>),
    GetGuild(Option<GetGuildPayload>),
    GetChannel(Option<GetChannelPayload>),
    GetUser(Option<GetUserPayload>),
    GetSoundboardSounds(Option<Vec<SoundboardSoundPayload>>),
    /// An event.
    Dispatch(IpcEvent),
    /// Any other command.
    Unhandled,
}

/// The requests sent once authenticated: the global subscriptions, then the
/// selected voice channel, the soundboard and the signed-in user.
pub open spec fn spec_authenticated_requests(user_id: Seq<char>) -> Seq<RequestView> {
    spec_subscriptions(global_events(), None) + seq![
        RequestView::GetSelectedVoiceChannel,
        RequestView::GetSoundboardSounds,
        RequestView::GetUser { id: user_id },
    ]
}

/// The requests sent when the user turns out to be in voice channel
/// `channel` of server `guild`.
pub open spec fn spec_selected_channel_requests(channel: Seq<char>, guild: Seq<char>) -> Seq<RequestView> {
    spec_subscriptions(voice_channel_events(), Some(channel)) + seq![
        RequestView::GetChannel { channel_id: channel },
    ] + if guild.len() > 0 {
        seq![RequestView::GetGuild { guild_id: guild }]
    } else {
        Seq::empty()
    }
}

/// The servers whose names are asked for after a soundboard arrives: those of
/// its sounds, in order of first appearance, that are not Discord's own and
/// whose name is not known yet.
pub open spec fn spec_unknown_guilds(keys: Seq<Seq<char>>, names: Map<Seq<char>, String>) -> Seq<Seq<char>> {
    keys.filter(unknown_guild(names))
}

/// Whether `k` is a server, not Discord's own sounds, whose name is not in
/// `names`.
pub open spec fn unknown_guild(names: Map<Seq<char>, String>) -> spec_fn(Seq<char>) -> bool {
    |k: Seq<char>| k.len() > 0 && !names.contains_key(k)
}

/// Requests for the names of the given servers.
pub open spec fn spec_guild_requests(guilds: Seq<Seq<char>>) -> Seq<RequestView> {
    guilds.map_values(|g: Seq<char>| RequestView::GetGuild { guild_id: g })
}

/// Whether `new` only differs from `old` in the soundboard cache, which now
/// holds the sounds of each server of `sounds` in place of what it held for
/// that server.
pub open spec fn soundboard_cached(old: AppState, new: AppState, sounds: Seq<SoundboardSoundPayload>) -> bool {
    let keys = spec_guild_keys(sounds);
    &&& forall|k: Seq<char>| #[trigger] new.soundboard_cache@.contains_key(k) <==> (old.soundboard_cache@.contains_key(k) || keys.contains(k))
    &&& forall|k: Seq<char>| keys.contains(k) ==> #[trigger] new.soundboard_cache@[k]@ == sounds.filter(in_guild(k))
    &&& forall|k: Seq<char>| !keys.contains(k) && old.soundboard_cache@.contains_key(k) ==> #[trigger] new.soundboard_cache@[k] == old.soundboard_cache@[k]
    &&& new.config == old.config
    &&& new.premium_type == old.premium_type
    &&& new.transport_mode == old.transport_mode
    &&& new.is_open == old.is_open
    &&& new.is_censor == old.is_censor
    &&& new.guild_names@ == old.guild_names@
    &&& new.channel_names@ == old.channel_names@
}

/// Whether nothing the overlay shows changed.
pub open spec fn unchanged(old: AppState, new: AppState) -> bool {
    &&& keeps_settings(old, new)
    &&& new.voice_users@ == old.voice_users@
    &&& new.current_channel@ == old.current_channel@
    &&& new.current_guild_id@ == old.current_guild_id@
    &&& new.messages@ == old.messages@
    &&& new.user_id@ == old.user_id@
}

/// Whether the session (members, channel, server, notifications, signed-in
/// user), the settings, the transport and the overlay flags are unchanged.
pub open spec fn keeps_session(old: AppState, new: AppState) -> bool {
    &&& new.voice_users@ == old.voice_users@
    &&& new.current_channel@ == old.current_channel@
    &&& new.current_guild_id@ == old.current_guild_id@
    &&& new.messages@ == old.messages@
    &&& new.user_id@ == old.user_id@
    &&& new.config == old.config
    &&& new.transport_mode == old.transport_mode
    &&& new.is_open == old.is_open
    &&& new.is_censor == old.is_censor
}

/// What handling a reply does: the new state, whether the overlay must be
/// redrawn, and the requests to send.
pub open spec fn spec_command_effect(old: AppState, new: AppState, cmd: IpcCommand, changed: bool, requests: Seq<RequestView>, now: i64) -> bool {
    match cmd {
        IpcCommand::Authenticate => !changed && requests == spec_authenticated_requests(old.user_id@) && unchanged(old, new),
        IpcCommand::GetSelectedVoiceChannel(Some(d)) if d.id is Some => {
            let channel = d.id->0@;
            let guild = or_empty(d.guild_id);
            &&& changed
            &&& requests == spec_selected_channel_requests(channel, guild)
            &&& new.current_channel@ == channel
            &&& new.current_guild_id@ == guild
            &&& users_view(new.voice_users@) == d.voice_states@.map_values(|v: VoiceState| rpc_user_view(v))
            &&& keeps_settings(old, new)
            &&& new.messages@ == old.messages@
            &&& new.user_id@ == old.user_id@
        },
        IpcCommand::GetGuild(Some(p)) => {
            &&& changed
            &&& requests.len() == 0
            &&& new.guild_names@ == old.guild_names@.insert(p.id@, p.name)
            &&& new.channel_names@ == old.channel_names@
            &&& new.soundboard_cache@ == old.soundboard_cache@
            &&& new.premium_type == old.premium_type
            &&& keeps_session(old, new)
        },
        IpcCommand::GetChannel(Some(p)) => {
            &&& changed
            &&& requests.len() == 0
            &&& new.channel_names@ == old.channel_names@.insert(p.id@, p.name)
            &&& new.guild_names@ == old.guild_names@
            &&& new.soundboard_cache@ == old.soundboard_cache@
            &&& new.premium_type == old.premium_type
            &&& keeps_session(old, new)
        },
        IpcCommand::GetUser(Some(p)) => {
            &&& changed
            &&& requests.len() == 0
            &&& new.premium_type == p.premium_type
            &&& new.guild_names@ == old.guild_names@
            &&& new.channel_names@ == old.channel_names@
            &&& new.soundboard_cache@ == old.soundboard_cache@
            &&& keeps_session(old, new)
        },
        IpcCommand::GetSoundboardSounds(Some(sounds)) => {
            &&& changed
            &&& requests == spec_guild_requests(spec_unknown_guilds(spec_guild_keys(sounds@), old.guild_names@))
            &&& soundboard_cached(old, new, sounds@)
            &&& keeps_session(old, new)
        },
        IpcCommand::Dispatch(e) => spec_ipc_effect(old, new, e, changed, requests, now),
        _ => !changed && requests.len() == 0 && unchanged(old, new),
    }
}

fn selected_channel(state: &mut AppState, d: SelectedVoiceChannelPayload, channel: String) -> (requests: Vec<IpcRequest>)
    requires
        d.id == Some(channel),
    ensures
        forall|t: i64| spec_command_effect(*old(state), *final(state), IpcCommand::GetSelectedVoiceChannel(Some(d)), true, requests_view(requests@), t),
{
    let guild = match &d.guild_id {
        Some(g) => g.clone(),
        None => String::new(),
    };
    let mut users: Vec<User> = Vec::new();
    let mut i: usize = 0;
    while i < d.voice_states.len()
        invariant
            i <= d.voice_states.len(),
            users_view(users@) == d.voice_states@.take(i as int).map_values(|v: VoiceState| rpc_user_view(v)),
        decreases d.voice_states.len() - i,
    {
        let u = d.voice_states[i].to_user();
        assert(u@ == rpc_user_view(d.voice_states@[i as int]));
        let ghost before = users@;
        users.push(u);
        assert(users@ == before.push(u));
        assert(users_view(users@) =~= users_view(before).push(u@));
        assert(d.voice_states@.take(i + 1) == d.voice_states@.take(i as int).push(d.voice_states@[i as int]));
        assert(d.voice_states@.take(i + 1).map_values(|v: VoiceState| rpc_user_view(v)) =~= d.voice_states@.take(i as int).map_values(|v: VoiceState| rpc_user_view(v)).push(rpc_user_view(d.voice_states@[i as int])));
        i = i + 1;
    }
    assert(d.voice_states@.take(d.voice_states@.len() as int) == d.voice_states@);
    state.current_channel = channel.clone();
    state.current_guild_id = guild.clone();
    state.voice_users = users;
    let mut requests = subscribe_voice_channel(channel.as_str());
    requests.push(IpcRequest::GetChannel { channel_id: channel.clone() });
    if guild.as_str().unicode_len() > 0 {
        requests.push(IpcRequest::GetGuild { guild_id: guild.clone() });
    }
    assert(requests_view(requests@) =~= spec_selected_channel_requests(channel@, guild@));
    requests
}

fn cache_soundboard(state: &mut AppState, sounds: Vec<SoundboardSoundPayload>) -> (requests: Vec<IpcRequest>)
    ensures
        forall|t: i64| spec_command_effect(*old(state), *final(state), IpcCommand::GetSoundboardSounds(Some(sounds)), true, requests_view(requests@), t),
{
    let ghost all = sounds@;
    let groups = group_by_guild(sounds);
    let ghost keys = spec_guild_keys(all);
    let ghost names = state.guild_names@;
    let ghost pred = unknown_guild(names);
    let mut requests: Vec<IpcRequest> = Vec::new();
    let mut i: usize = 0;
    while i < groups.len()
        invariant
            i <= groups.len(),
            groups_of(groups@, all),
            keys == spec_guild_keys(all),
            names == state.guild_names@,
            pred == unknown_guild(names),
            requests_view(requests@) == spec_guild_requests(keys.take(i as int).filter(pred)),
        decreases groups.len() - i,
    {
        let key = &groups[i].0;
        assert(key@ == keys[i as int]);
        proof {
            assert(keys.take(i + 1) == keys.take(i as int).push(keys[i as int]));
            keys.take(i as int).lemma_filter_push(keys[i as int], pred);
        }
        if key.as_str().unicode_len() > 0 && !state.guild_names.contains_key(key.as_str()) {
            assert(pred(keys[i as int]));
            let ghost before = requests@;
            let q = IpcRequest::GetGuild { guild_id: key.clone() };
            requests.push(q);
            assert(requests_view(requests@) =~= requests_view(before).push(q@));
            assert(spec_guild_requests(keys.take(i + 1).filter(pred)) =~= spec_guild_requests(keys.take(i as int).filter(pred)).push(q@));
        } else {
            assert(!pred(keys[i as int]));
        }
        i = i + 1;
    }
    assert(keys.take(groups.len() as int) == keys);
    proof {
        lemma_guild_keys_no_duplicates(all);
    }
    let ghost old_cache = state.soundboard_cache@;
    let ghost s0 = *state;
    let ghost gs = groups@;
    let mut n: usize = 0;
    for entry in it: groups
        invariant
            it.seq() == gs,
            groups_of(gs, all),
            keys == spec_guild_keys(all),
            keys.no_duplicates(),
            forall|k: Seq<char>| #[trigger] state.soundboard_cache@.contains_key(k) <==> (old_cache.contains_key(k) || keys.take(it.index() as int).contains(k)),
            forall|k: Seq<char>| keys.take(it.index() as int).contains(k) ==> #[trigger] state.soundboard_cache@[k]@ == all.filter(in_guild(k)),
            forall|k: Seq<char>| !keys.take(it.index() as int).contains(k) && old_cache.contains_key(k) ==> #[trigger] state.soundboard_cache@[k] == old_cache[k],
            state.config == s0.config,
            state.premium_type == s0.premium_type,
            state.transport_mode == s0.transport_mode,
            state.is_open == s0.is_open,
            state.is_censor == s0.is_censor,
            state.guild_names@ == s0.guild_names@,
            state.channel_names@ == s0.channel_names@,
            keeps_session(s0, *state),
            s0 == *old(state),
            s0.guild_names@ == names,
            requests_view(requests@) == spec_guild_requests(keys.filter(pred)),
            pred == unknown_guild(names),
    {
        let ghost j = it.index() as int;
        let ghost t0 = keys.take(j);
        let ghost t1 = keys.take(j + 1);
        assert(entry == gs[j]);
        assert(t1 == t0.push(keys[j]));
        assert(t1[j] == keys[j]);
        assert(entry.0@ == keys[j]);
        state.soundboard_cache.insert(entry.0, entry.1);
        assert forall|k: Seq<char>| keys.take(j + 1).contains(k) implies #[trigger] state.soundboard_cache@[k]@ == all.filter(in_guild(k)) by {
            if k != keys[j] {
                assert(keys.take(j).contains(k));
            }
        }
        assert forall|k: Seq<char>| !keys.take(j + 1).contains(k) && old_cache.contains_key(k) implies #[trigger] state.soundboard_cache@[k] == old_cache[k] by {
            assert(k != keys[j]);
            assert(!keys.take(j).contains(k)) by {
                if keys.take(j).contains(k) {
                    let m = choose|m: int| 0 <= m < t0.len() && t0[m] == k;
                    assert(t1[m] == k);
                }
            }
        }
        assert forall|k: Seq<char>| #[trigger] state.soundboard_cache@.contains_key(k) <==> (old_cache.contains_key(k) || keys.take(j + 1).contains(k)) by {
            if keys.take(j + 1).contains(k) && k != keys[j] {
                let m = choose|m: int| 0 <= m < t1.len() && t1[m] == k;
                assert(t0[m] == k);
            }
            if keys.take(j).contains(k) {
                let m = choose|m: int| 0 <= m < t0.len() && t0[m] == k;
                assert(t1[m] == k);
            }
        }
    }
    assert(keys.take(gs.len() as int) == keys);
    requests
}

/// Updates the state for a reply from the Discord client; `now` (seconds
/// since the Unix epoch) stamps a notification that an event carries.
/// Returns whether the overlay must be redrawn and the requests to send, in
/// order; an event whose payload could not be read is an error that changes
/// nothing.
pub fn handle_command(state: &mut AppState, cmd: IpcCommand, now: i64) -> (r: Result<
    (bool, Vec<IpcRequest>),
    String,
>)
    ensures
        match cmd {
            IpcCommand::Dispatch(IpcEvent::Unreadable(e)) => r == Err::<
                (bool, Vec<IpcRequest>),
                String,
            >(e) && *final(state) == *old(state),
            _ => r matches Ok(p) && spec_command_effect(
                *old(state),
                *final(state),
                cmd,
                p.0,
                requests_view(p.1@),
                now,
            ),
        },
{
    match cmd {
        IpcCommand::Dispatch(e) => handle_ipc_message(state, e, now),
        other => Ok(handle_reply(state, other)),
    }
}

/// The work of `handle_command` on a reply that is not an event.
fn handle_reply(state: &mut AppState, cmd: IpcCommand) -> (r: (bool, Vec<IpcRequest>))
    requires
        !(cmd is Dispatch),
    ensures
        forall|t: i64| spec_command_effect(*old(state), *final(state), cmd, r.0, requests_view(r.1@), t),
{
    match cmd {
        IpcCommand::Authenticate => {
            let mut requests = subscribe_voice_global();
            requests.push(IpcRequest::GetSelectedVoiceChannel);
            requests.push(IpcRequest::GetSoundboardSounds);
            requests.push(IpcRequest::GetUser { id: state.user_id.clone() });
            assert(requests_view(requests@) =~= spec_authenticated_requests(state.user_id@));
            (false, requests)
        },
        IpcCommand::GetSelectedVoiceChannel(Some(d)) => {
            match &d.id {
                Some(c) => {
                    let channel = c.clone();
                    let requests = selected_channel(state, d, channel);
                    (true, requests)
                },
                None => (false, Vec::new()),
            }
        },
        IpcCommand::GetGuild(Some(p)) => {
            state.guild_names.insert(p.id, p.name);
            (true, Vec::new())
        },
        IpcCommand::GetChannel(Some(p)) => {
            state.channel_names.insert(p.id, p.name);
            (true, Vec::new())
        },
        IpcCommand::GetUser(Some(p)) => {
            state.premium_type = p.premium_type;
            (true, Vec::new())
        },
        IpcCommand::GetSoundboardSounds(Some(sounds)) => {
            let requests = cache_soundboard(state, sounds);
            (true, requests)
        },
        _ => (false, Vec::new()),
    }
}

/// The members listed for the selected voice channel are its voice states, in
/// order: each under its server nickname if it has one, else under its global
/// display name if it has one, else under its user name; deafened when the
/// server or the member deafened it, else muted when muted either way, else
/// silent.
pub proof fn lemma_selected_channel_members(
    old: AppState,
    new: AppState,
    d: SelectedVoiceChannelPayload,
    changed: bool,
    requests: Seq<RequestView>,
    now: i64,
    i: int,
)
    requires
        spec_command_effect(old, new, IpcCommand::GetSelectedVoiceChannel(Some(d)), changed, requests, now),
        d.id is Some,
        0 <= i < d.voice_states@.len(),
    ensures
        new.voice_users@.len() == d.voice_states@.len(),
        new.voice_users@[i].id@ == d.voice_states@[i].user.id@,
        d.voice_states@[i].nick matches Some(n) ==> new.voice_users@[i].name@ == n@,
        d.voice_states@[i].nick is None ==> (d.voice_states@[i].user.global_name matches Some(g)
            ==> new.voice_users@[i].name@ == g@),
        d.voice_states@[i].nick is None && d.voice_states@[i].user.global_name is None
            ==> new.voice_users@[i].name@ == d.voice_states@[i].user.username@,
        (d.voice_states@[i].voice_state.deaf || d.voice_states@[i].voice_state.self_deaf)
            ==> new.voice_users@[i].voice_state == UserVoiceState::Deafened,
        !(d.voice_states@[i].voice_state.deaf || d.voice_states@[i].voice_state.self_deaf)
            && (d.voice_states@[i].voice_state.mute || d.voice_states@[i].voice_state.self_mute)
            ==> new.voice_users@[i].voice_state == UserVoiceState::Muted,
        !(d.voice_states@[i].voice_state.deaf || d.voice_states@[i].voice_state.self_deaf
            || d.voice_states@[i].voice_state.mute || d.voice_states@[i].voice_state.self_mute)
            ==> new.voice_users@[i].voice_state == UserVoiceState::NotSpeaking,
{
    let nv = users_view(new.voice_users@);
    let mv = d.voice_states@.map_values(|v: VoiceState| rpc_user_view(v));
    assert(nv == mv);
    assert(nv.len() == new.voice_users@.len());
    assert(nv[i] == new.voice_users@[i]@);
    assert(mv[i] == rpc_user_view(d.voice_states@[i]));
}

} // verus!
