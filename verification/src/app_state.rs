//! What the overlay knows: settings, the signed-in user, the voice channel
//! and its members, pending notifications and name caches.
use vstd::prelude::*;

use crate::config::{Config, TransportMode};
use crate::payloads::{Notification, SoundboardSoundPayload};
use crate::user::{PremiumType, User, users_view, spec_find, lemma_spec_find};
use crate::util::chars::string_from_str;
use crate::util::string_map::StringMap;

verus! {

/// Most notifications kept at once.
pub const MAX_MESSAGES: usize = 4;

/// The overlay's state.
#[derive(Clone, Debug)]
pub struct AppState {
    pub config: Config,
    pub user_id: String,
    pub premium_type: PremiumType,
    pub transport_mode: TransportMode,
    pub current_channel: String,
    pub current_guild_id: String,
    pub is_open: bool,
    /// Hide member names (used by modded clients, not over IPC).
    pub is_censor: bool,
    pub voice_users: Vec<User>,
    pub messages: Vec<Notification>,
    pub soundboard_cache: StringMap<Vec<SoundboardSoundPayload>>,
    pub guild_names: StringMap<String>,
    pub channel_names: StringMap<String>,
}

/// The notifications after `n` arrives: the three newest of the earlier
/// ones, then `n`.
pub open spec fn spec_notify(messages: Seq<Notification>, n: Notification) -> Seq<Notification> {
    (if messages.len() > 3 {
        messages.skip(messages.len() - 3)
    } else {
        messages
    }).push(n)
}

/// The first member with id `id`.
pub fn find_user(users: &Vec<User>, id: &str) -> (r: Option<usize>)
    ensures
        r matches Some(i) ==> i < users@.len(),
        match r {
            Some(i) => spec_find(users_view(users@), id@) == Some(i as int),
            None => spec_find(users_view(users@), id@) is None,
        },
{
    let target = string_from_str(id);
    let ghost uv = users_view(users@);
    proof {
        lemma_spec_find(uv, id@);
    }
    let mut i: usize = 0;
    while i < users.len()
        invariant
            i <= users.len(),
            target@ == id@,
            uv == users_view(users@),
            forall|j: int| 0 <= j < i ==> uv[j].id != id@,
            match spec_find(uv, id@) {
                Some(k) => 0 <= k < uv.len() && uv[k].id == id@ && forall|j: int|
                    0 <= j < k ==> uv[j].id != id@,
                None => forall|j: int| 0 <= j < uv.len() ==> uv[j].id != id@,
            },
        decreases users.len() - i,
    {
        assert(uv[i as int] == users@[i as int]@);
        if users[i].id == target {
            return Some(i);
        }
        i = i + 1;
    }
    None
}

/// The earlier notifications that stay when a new one arrives: the three
/// newest.
pub open spec fn spec_kept_messages(messages: Seq<Notification>) -> Seq<Notification> {
    if messages.len() > 3 {
        messages.skip(messages.len() - 3)
    } else {
        messages
    }
}

/// Whether a notification is still shown at `now` (seconds since the epoch):
/// one without a timestamp always, a stamped one for `timeout_secs` seconds.
pub open spec fn spec_still_shown(n: Notification, now: i64, timeout_secs: i64) -> bool {
    match n.timestamp {
        Some(ts) => now - ts < timeout_secs,
        None => true,
    }
}

/// The notifications still shown at `now`, in order.
pub open spec fn spec_unexpired(messages: Seq<Notification>, now: i64, timeout_secs: i64) -> Seq<
    Notification,
>
    decreases messages.len(),
{
    if messages.len() == 0 {
        messages
    } else {
        let kept = spec_unexpired(messages.drop_last(), now, timeout_secs);
        if spec_still_shown(messages.last(), now, timeout_secs) {
            kept.push(messages.last())
        } else {
            kept
        }
    }
}

/// Every notification kept is still shown, none is added, and the order stays.
pub proof fn lemma_unexpired_kept(messages: Seq<Notification>, now: i64, timeout_secs: i64)
    ensures
        spec_unexpired(messages, now, timeout_secs).len() <= messages.len(),
        forall|i: int|
            0 <= i < spec_unexpired(messages, now, timeout_secs).len() ==> spec_still_shown(
                #[trigger] spec_unexpired(messages, now, timeout_secs)[i],
                now,
                timeout_secs,
            ) && messages.contains(spec_unexpired(messages, now, timeout_secs)[i]),
        forall|i: int|
            0 <= i < messages.len() && #[trigger] messages[i].timestamp is None
                ==> spec_unexpired(messages, now, timeout_secs).contains(messages[i]),
    decreases messages.len(),
{
    if messages.len() > 0 {
        let d = messages.drop_last();
        lemma_unexpired_kept(d, now, timeout_secs);
        let k = spec_unexpired(d, now, timeout_secs);
        assert forall|i: int| 0 <= i < k.len() implies messages.contains(#[trigger] k[i]) by {
            let j = choose|j: int| 0 <= j < d.len() && d[j] == k[i];
            assert(messages[j] == d[j]);
        }
        assert forall|i: int|
            0 <= i < messages.len() && #[trigger] messages[i].timestamp is None implies spec_unexpired(
            messages,
            now,
            timeout_secs,
        ).contains(messages[i]) by {
            if i < messages.len() - 1 {
                assert(d[i] == messages[i]);
                assert(k.contains(d[i]));
                let j = choose|j: int| 0 <= j < k.len() && k[j] == d[i];
                if spec_still_shown(messages.last(), now, timeout_secs) {
                    assert(k.push(messages.last())[j] == k[j]);
                }
            } else {
                assert(k.push(messages.last())[k.len() as int] == messages[i]);
            }
        }
    }
}

/// A new notification goes last, after the newest of the earlier ones, which
/// keep their order: the result is the tail of the earlier list followed by
/// the new one, at most four long, and as long as that allows.
pub proof fn lemma_notify_keeps_newest(messages: Seq<Notification>, n: Notification)
    ensures
        spec_notify(messages, n).len() == if messages.len() + 1 > 4 {
            4
        } else {
            messages.len() + 1
        },
        spec_notify(messages, n) == messages.push(n).skip(
            messages.len() + 1 - spec_notify(messages, n).len(),
        ),
{
    let all = messages.push(n);
    let r = spec_notify(messages, n);
    assert(r =~= all.skip(all.len() - r.len()));
}

/// At time `now`, a notification stamped `ts` stays exactly while fewer than
/// `timeout_secs` seconds have passed since `ts`; one without a stamp stays.
pub proof fn lemma_expiry_by_age(messages: Seq<Notification>, now: i64, timeout_secs: i64, i: int)
    requires
        0 <= i < messages.len(),
    ensures
        messages[i].timestamp is None ==> spec_unexpired(messages, now, timeout_secs).contains(
            messages[i],
        ),
        messages[i].timestamp matches Some(ts) && now - ts < timeout_secs ==> spec_unexpired(
            messages,
            now,
            timeout_secs,
        ).contains(messages[i]),
        (messages[i].timestamp matches Some(ts) && now - ts >= timeout_secs) ==> !spec_unexpired(
            messages,
            now,
            timeout_secs,
        ).contains(messages[i]),
    decreases messages.len(),
{
    let d = messages.drop_last();
    let k = spec_unexpired(d, now, timeout_secs);
    let r = spec_unexpired(messages, now, timeout_secs);
    lemma_unexpired_kept(messages, now, timeout_secs);
    if i < messages.len() - 1 {
        lemma_expiry_by_age(d, now, timeout_secs, i);
        assert(d[i] == messages[i]);
        if k.contains(messages[i]) {
            let j = choose|j: int| 0 <= j < k.len() && k[j] == messages[i];
            if spec_still_shown(messages.last(), now, timeout_secs) {
                assert(r[j] == k[j]);
            }
        }
    } else {
        if spec_still_shown(messages.last(), now, timeout_secs) {
            assert(r[k.len() as int] == messages[i]);
        }
    }
    if r.contains(messages[i]) {
        let j = choose|j: int| 0 <= j < r.len() && r[j] == messages[i];
        assert(spec_still_shown(r[j], now, timeout_secs));
    }
}

/// Whether `new` has the settings, account, overlay flags and name caches of
/// `old`.
pub open spec fn keeps_settings(old: AppState, new: AppState) -> bool {
    &&& new.config == old.config
    &&& new.premium_type == old.premium_type
    &&& new.transport_mode == old.transport_mode
    &&& new.is_open == old.is_open
    &&& new.is_censor == old.is_censor
    &&& new.soundboard_cache@ == old.soundboard_cache@
    &&& new.guild_names@ == old.guild_names@
    &&& new.channel_names@ == old.channel_names@
}

impl AppState {
    /// The state at start-up.
    pub fn new() -> (s: AppState)
        ensures
            s.config.is_default(),
            s.user_id@ == Seq::<char>::empty(),
            s.premium_type == PremiumType::NoPremium,
            s.transport_mode == TransportMode::Ipc,
            s.current_channel@ == Seq::<char>::empty(),
            s.current_guild_id@ == Seq::<char>::empty(),
            !s.is_open,
            !s.is_censor,
            s.voice_users@.len() == 0,
            s.messages@.len() == 0,
            s.soundboard_cache@ == Map::<Seq<char>, Vec<SoundboardSoundPayload>>::empty(),
            s.guild_names@.dom() == Set::<Seq<char>>::empty().insert("0"@),
            s.guild_names@["0"@]@ == "Default"@,
            s.channel_names@ == Map::<Seq<char>, String>::empty(),
    {
        let mut guild_names: StringMap<String> = StringMap::new();
        let default_name = string_from_str("Default");
        guild_names.insert(string_from_str("0"), default_name);
        assert(guild_names@.dom() =~= Set::<Seq<char>>::empty().insert("0"@));
        AppState {
            config: Config::default(),
            user_id: String::new(),
            premium_type: PremiumType::NoPremium,
            transport_mode: TransportMode::Ipc,
            current_channel: String::new(),
            current_guild_id: String::new(),
            is_open: false,
            is_censor: false,
            voice_users: Vec::new(),
            messages: Vec::new(),
            soundboard_cache: StringMap::new(),
            guild_names,
            channel_names: StringMap::new(),
        }
    }

    /// Shows a notification, dropping all but the three newest earlier ones.
    pub fn notify(&mut self, notification: Notification)
        ensures
            final(self).messages@ == spec_notify(old(self).messages@, notification),
            final(self).messages@.len() <= MAX_MESSAGES,
            final(self).voice_users@ == old(self).voice_users@,
            final(self).user_id == old(self).user_id,
            final(self).current_channel == old(self).current_channel,
            final(self).current_guild_id == old(self).current_guild_id,
            keeps_settings(*old(self), *final(self)),
    {
        let len = self.messages.len();
        if len > 3 {
            let kept = self.messages.split_off(len - 3);
            self.messages = kept;
        }
        self.messages.push(notification);
    }

    /// Drops the notifications whose time is up at `now`; says whether any went.
    pub fn expire_messages(&mut self, now: i64, timeout_secs: i64) -> (changed: bool)
        ensures
            final(self).messages@ == spec_unexpired(old(self).messages@, now, timeout_secs),
            changed == (final(self).messages@.len() != old(self).messages@.len()),
            final(self).voice_users == old(self).voice_users,
            final(self).user_id == old(self).user_id,
            final(self).current_channel == old(self).current_channel,
            final(self).current_guild_id == old(self).current_guild_id,
            keeps_settings(*old(self), *final(self)),
    {
        let ghost all = self.messages@;
        let before = self.messages.len();
        let mut i: usize = 0;
        let ghost mut k: int = 0;
        assert(all.take(0) == Seq::<Notification>::empty());
        assert(all.skip(0) == all);
        while i < self.messages.len()
            invariant
                0 <= k <= all.len(),
                i == spec_unexpired(all.take(k), now, timeout_secs).len(),
                self.messages@ == spec_unexpired(all.take(k), now, timeout_secs) + all.skip(k),
                self.voice_users == old(self).voice_users,
                self.user_id == old(self).user_id,
                self.current_channel == old(self).current_channel,
                self.current_guild_id == old(self).current_guild_id,
                keeps_settings(*old(self), *self),
                all == old(self).messages@,
            decreases self.messages.len() - i,
        {
            let ghost kept = spec_unexpired(all.take(k), now, timeout_secs);
            assert(self.messages@[i as int] == all[k]);
            assert(all.take(k + 1).drop_last() == all.take(k));
            assert(all.take(k + 1).last() == all[k]);
            let shown = match self.messages[i].timestamp {
                Some(ts) => (now as i128) - (ts as i128) < (timeout_secs as i128),
                None => true,
            };
            if shown {
                assert(kept.push(all[k]) + all.skip(k + 1) == kept + all.skip(k));
                i = i + 1;
            } else {
                self.messages.remove(i);
                assert(self.messages@ == kept + all.skip(k + 1));
            }
            proof {
                k = k + 1;
            }
        }
        assert(k == all.len()) by {
            if k < all.len() {
                assert(self.messages@.len() > i);
            }
        }
        assert(all.take(k) == all);
        assert(all.skip(k) == Seq::<Notification>::empty());
        assert(self.messages@ == spec_unexpired(all, now, timeout_secs));
        self.messages.len() != before
    }
}

impl Default for AppState {
    /// The state at start-up, as `AppState::new` makes it.
    fn default() -> (s: AppState)
        ensures
            s.config.is_default(),
            s.user_id@ == Seq::<char>::empty(),
            s.premium_type == PremiumType::NoPremium,
            s.transport_mode == TransportMode::Ipc,
            s.current_channel@ == Seq::<char>::empty(),
            s.current_guild_id@ == Seq::<char>::empty(),
            !s.is_open,
            !s.is_censor,
            s.voice_users@.len() == 0,
            s.messages@.len() == 0,
            s.soundboard_cache@ == Map::<Seq<char>, Vec<SoundboardSoundPayload>>::empty(),
            s.guild_names@.dom() == Set::<Seq<char>>::empty().insert("0"@),
            s.guild_names@["0"@]@ == "Default"@,
            s.channel_names@ == Map::<Seq<char>, String>::empty(),
    {
        AppState::new()
    }
}

} // verus!
