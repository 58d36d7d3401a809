//! Changes to the list of voice channel members.
use vstd::prelude::*;

use crate::app_state::find_user;
use crate::ipc::payloads::{VoiceState, spec_display_name, spec_rpc_voice_state};
use crate::user::{User, UserView, UserVoiceState, users_view, spec_find, unique_ids, lemma_spec_find};
use crate::util::chars::string_from_str;

verus! {

/// The member that a voice state event describes.
pub open spec fn rpc_user_view(v: VoiceState) -> UserView {
    UserView {
        name: spec_display_name(v),
        id: v.user.id@,
        avatar: match v.user.avatar {
            Some(a) => a@,
            None => Seq::<char>::empty(),
        },
        voice_state: spec_rpc_voice_state(v),
        streaming: false,
    }
}

/// The member list after the member with `id` (the first one, if several)
/// took voice state `vs`; unchanged when nobody has that id.
pub open spec fn spec_set_voice_state(users: Seq<UserView>, id: Seq<char>, vs: UserVoiceState) -> Seq<UserView> {
    match spec_find(users, id) {
        Some(i) => users.update(i, UserView { voice_state: vs, ..users[i] }),
        None => users,
    }
}

/// The member list after a voice state event for member `v`: the member is
/// replaced if present, added at the end otherwise.
pub open spec fn spec_upsert_user(users: Seq<UserView>, v: VoiceState) -> Seq<UserView> {
    match spec_find(users, v.user.id@) {
        Some(i) => users.update(i, rpc_user_view(v)),
        None => users.push(rpc_user_view(v)),
    }
}

/// Whether a member's id differs from `id`.
pub open spec fn id_differs(id: Seq<char>) -> spec_fn(UserView) -> bool {
    |u: UserView| u.id != id
}

/// The member list without the members with id `id`.
pub open spec fn spec_remove_user(users: Seq<UserView>, id: Seq<char>) -> Seq<UserView> {
    users.filter(id_differs(id))
}

pub fn set_voice_state(users: &mut Vec<User>, id: &str, vs: UserVoiceState)
    ensures
        users_view(final(users)@) == spec_set_voice_state(users_view(old(users)@), id@, vs),
{
    match find_user(users, id) {
        Some(i) => {
            let ghost before = users_view(users@);
            let mut u = users.remove(i);
            u.voice_state = vs;
            users.insert(i, u);
            assert(users_view(users@) =~= before.update(
                i as int,
                UserView { voice_state: vs, ..before[i as int] },
            ));
        },
        None => {},
    }
}

pub fn upsert_user(users: &mut Vec<User>, v: &VoiceState)
    ensures
        users_view(final(users)@) == spec_upsert_user(users_view(old(users)@), *v),
{
    let u = v.to_user();
    let ghost before = users_view(users@);
    match find_user(users, v.user.id.as_str()) {
        Some(i) => {
            users.set(i, u);
            assert(users_view(users@) =~= before.update(i as int, rpc_user_view(*v)));
        },
        None => {
            users.push(u);
            assert(users_view(users@) =~= before.push(rpc_user_view(*v)));
        },
    }
}

pub fn remove_user(users: &mut Vec<User>, id: &str)
    ensures
        users_view(final(users)@) == spec_remove_user(users_view(old(users)@), id@),
{
    let target = string_from_str(id);
    let ghost pred = id_differs(id@);
    let ghost all = users_view(users@);
    let mut old_users: Vec<User> = Vec::new();
    std::mem::swap(&mut old_users, users);
    assert(users_view(old_users@) == all);
    let mut kept: Vec<User> = Vec::new();
    for u in it: old_users
        invariant
            target@ == id@,
            pred == id_differs(id@),
            it.seq() == old_users@,
            all == users_view(old_users@),
            users_view(kept@) == all.take(it.index() as int).filter(pred),
    {
        let ghost k = it.index() as int;
        assert(0 <= k < old_users@.len());
        assert(u == old_users@[k]);
        assert(all[k] == u@);
        proof {
            assert(all.take(k + 1) == all.take(k).push(u@));
            all.take(k).lemma_filter_push(u@, pred);
        }
        assert(all.take(k + 1).filter(pred) == if pred(u@) {
            all.take(k).filter(pred).push(u@)
        } else {
            all.take(k).filter(pred)
        });
        if !(u.id == target) {
            assert(u@.id != id@);
            assert(pred(u@));
            kept.push(u);
            assert(users_view(kept@) =~= all.take(k).filter(pred).push(u@));
        } else {
            assert(u@.id == id@);
            assert(!pred(u@));
        }
        assert(users_view(kept@) == all.take(k + 1).filter(pred));
    }
    assert(all.take(old_users@.len() as int) == all);
    *users = kept;
}

/// Replacing or adding the member of a voice state event keeps member ids
/// distinct.
pub proof fn lemma_upsert_keeps_ids_unique(users: Seq<UserView>, v: VoiceState)
    requires
        unique_ids(users),
    ensures
        unique_ids(spec_upsert_user(users, v)),
{
    lemma_spec_find(users, v.user.id@);
    let up = spec_upsert_user(users, v);
    assert forall|i: int, j: int| 0 <= i < j < up.len() implies #[trigger] up[i].id != #[trigger] up[j].id by {
        if spec_find(users, v.user.id@) is None {
            if j == users.len() {
                assert(up[i] == users[i]);
            } else {
                assert(up[i] == users[i]);
                assert(up[j] == users[j]);
            }
        }
    }
}

/// Changing a member's voice state keeps member ids distinct.
pub proof fn lemma_set_voice_state_keeps_ids_unique(users: Seq<UserView>, id: Seq<char>, vs: UserVoiceState)
    requires
        unique_ids(users),
    ensures
        unique_ids(spec_set_voice_state(users, id, vs)),
{
    lemma_spec_find(users, id);
    let sv = spec_set_voice_state(users, id, vs);
    assert forall|i: int, j: int| 0 <= i < j < sv.len() implies #[trigger] sv[i].id != #[trigger] sv[j].id by {
        assert(sv[i].id == users[i].id);
        assert(sv[j].id == users[j].id);
    }
}

/// Removing members keeps member ids distinct.
pub proof fn lemma_remove_keeps_ids_unique(users: Seq<UserView>, id: Seq<char>)
    requires
        unique_ids(users),
    ensures
        unique_ids(spec_remove_user(users, id)),
{
    lemma_filter_keeps_unique(users, id);
}

proof fn lemma_filter_keeps_unique(users: Seq<UserView>, id: Seq<char>)
    requires
        unique_ids(users),
    ensures
        unique_ids(spec_remove_user(users, id)),
    decreases users.len(),
{
    let pred = id_differs(id);
    if users.len() > 0 {
        let init = users.drop_last();
        assert(unique_ids(init)) by {
            assert forall|i: int, j: int| 0 <= i < j < init.len() implies #[trigger] init[i].id
                != #[trigger] init[j].id by {
                assert(users[i].id != users[j].id);
            }
        }
        lemma_filter_keeps_unique(init, id);
        let f = init.filter(pred);
        assert(users == init.push(users.last()));
        init.lemma_filter_push(users.last(), pred);
        if pred(users.last()) {
            assert forall|k: int| 0 <= k < f.len() implies f[k].id != users.last().id by {
                init.lemma_filter_contains_rev(pred, f[k]);
                assert(init.contains(f[k]));
                let m = choose|m: int| 0 <= m < init.len() && init[m] == f[k];
                assert(users[m].id != users[users.len() - 1].id);
            }
            let g = f.push(users.last());
            assert(users == init.push(users.last()));
            init.lemma_filter_push(users.last(), pred);
            assert(users.filter(pred) == g);
            assert forall|i: int, j: int| 0 <= i < j < g.len() implies #[trigger] g[i].id != #[trigger] g[j].id by {
                if j == f.len() {
                    assert(g[i] == f[i]);
                } else {
                    assert(g[i] == f[i]);
                    assert(g[j] == f[j]);
                }
            }
        }
    }
}

} // verus!
