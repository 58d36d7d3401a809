//! Soundboard sounds grouped by the server they belong to.
use vstd::prelude::*;

use crate::payloads::{SoundboardSoundPayload, or_empty, clone_or_empty};

verus! {

/// The server a sound belongs to; the empty text for Discord's own sounds.
pub open spec fn sound_guild(s: SoundboardSoundPayload) -> Seq<char> {
    or_empty(s.guild_id)
}

/// Whether a sound belongs to server `g`.
pub open spec fn in_guild(g: Seq<char>) -> spec_fn(SoundboardSoundPayload) -> bool {
    |s: SoundboardSoundPayload| sound_guild(s) == g
}

/// The servers of the sounds, each once, in the order of first appearance.
pub open spec fn spec_guild_keys(sounds: Seq<SoundboardSoundPayload>) -> Seq<Seq<char>>
    decreases sounds.len(),
{
    if sounds.len() == 0 {
        Seq::empty()
    } else {
        let ks = spec_guild_keys(sounds.drop_last());
        if ks.contains(sound_guild(sounds.last())) {
            ks
        } else {
            ks.push(sound_guild(sounds.last()))
        }
    }
}

pub proof fn lemma_guild_keys_no_duplicates(sounds: Seq<SoundboardSoundPayload>)
    ensures
        spec_guild_keys(sounds).no_duplicates(),
    decreases sounds.len(),
{
    if sounds.len() > 0 {
        lemma_guild_keys_no_duplicates(sounds.drop_last());
    }
}

fn find_group(groups: &Vec<(String, Vec<SoundboardSoundPayload>)>, key: &String) -> (r: Option<usize>)
    ensures
        match r {
            Some(i) => i < groups@.len() && groups@[i as int].0@ == key@,
            None => forall|i: int| 0 <= i < groups@.len() ==> groups@[i].0@ != key@,
        },
{
    let mut i: usize = 0;
    while i < groups.len()
        invariant
            i <= groups.len(),
            forall|j: int| 0 <= j < i ==> groups@[j].0@ != key@,
        decreases groups.len() - i,
    {
        if groups[i].0 == *key {
            return Some(i);
        }
        i = i + 1;
    }
    None
}

/// Whether `groups` holds, for each server of `sounds` in order of first
/// appearance, that server and its sounds in their order.
pub open spec fn groups_of(groups: Seq<(String, Vec<SoundboardSoundPayload>)>, sounds: Seq<SoundboardSoundPayload>) -> bool {
    let keys = spec_guild_keys(sounds);
    &&& groups.len() == keys.len()
    &&& forall|i: int|
        0 <= i < groups.len() ==> #[trigger] groups[i].0@ == keys[i] && groups[i].1@
            == sounds.filter(in_guild(keys[i]))
}

/// Sorts sounds into one list per server.
pub fn group_by_guild(sounds: Vec<SoundboardSoundPayload>) -> (groups: Vec<(String, Vec<SoundboardSoundPayload>)>)
    ensures
        groups_of(groups@, sounds@),
{
    let ghost all = sounds@;
    let mut groups: Vec<(String, Vec<SoundboardSoundPayload>)> = Vec::new();
    for s in it: sounds
        invariant
            it.seq() == all,
            groups_of(groups@, all.take(it.index() as int)),
    {
        let ghost k = it.index() as int;
        let ghost prefix = all.take(k);
        let ghost next = all.take(k + 1);
        let ghost keys = spec_guild_keys(prefix);
        assert(next == prefix.push(s));
        assert(next.drop_last() == prefix);
        let key = clone_or_empty(&s.guild_id);
        assert(sound_guild(s) == key@);
        proof {
            assert forall|i: int| 0 <= i < keys.len() implies next.filter(in_guild(keys[i])) == if keys[i] == key@ {
                prefix.filter(in_guild(keys[i])).push(s)
            } else {
                prefix.filter(in_guild(keys[i]))
            } by {
                prefix.lemma_filter_push(s, in_guild(keys[i]));
            }
            lemma_guild_keys_no_duplicates(prefix);
        }
        match find_group(&groups, &key) {
            Some(i) => {
                let ghost before = groups@;
                assert(keys.contains(key@)) by {
                    assert(keys[i as int] == key@);
                }
                let mut entry = groups.remove(i);
                let ghost old_entry = entry;
                entry.1.push(s);
                groups.insert(i, entry);
                assert(groups@[i as int].1@ == old_entry.1@.push(s));
                assert(old_entry == before[i as int]);
                assert(groups@[i as int].1@ == next.filter(in_guild(keys[i as int])));
                assert(groups@[i as int].0 == old_entry.0);
                assert(groups@ =~= before.update(i as int, groups@[i as int]));
                assert(spec_guild_keys(next) == keys);
                assert forall|j: int| 0 <= j < groups@.len() implies #[trigger] groups@[j].0@ == keys[j]
                    && groups@[j].1@ == next.filter(in_guild(keys[j])) by {
                    if j != i {
                        assert(groups@[j] == before[j]);
                        assert(keys[j] != keys[i as int]);
                    }
                }
            },
            None => {
                let ghost before = groups@;
                assert(!keys.contains(key@)) by {
                    if keys.contains(key@) {
                        let j = choose|j: int| 0 <= j < keys.len() && keys[j] == key@;
                        assert(before[j].0@ == keys[j]);
                    }
                }
                let mut v: Vec<SoundboardSoundPayload> = Vec::new();
                v.push(s);
                groups.push((key, v));
                assert(spec_guild_keys(next) == keys.push(key@));
                proof {
                    prefix.lemma_filter_push(s, in_guild(key@));
                    assert forall|i: int| 0 <= i < prefix.len() implies !in_guild(key@)(
                        #[trigger] prefix[i],
                    ) by {
                        if in_guild(key@)(prefix[i]) {
                            lemma_key_of_each_sound(prefix, i);
                        }
                    }
                    lemma_filter_none(prefix, in_guild(key@));
                    assert(v@ == seq![s]);
                }
                assert forall|j: int| 0 <= j < groups@.len() implies #[trigger] groups@[j].0@ == keys.push(key@)[j]
                    && groups@[j].1@ == next.filter(in_guild(keys.push(key@)[j])) by {
                    if j < before.len() {
                        assert(groups@[j] == before[j]);
                    }
                }
            },
        }
    }
    assert(all.take(all.len() as int) == all);
    groups
}

proof fn lemma_key_of_each_sound(sounds: Seq<SoundboardSoundPayload>, i: int)
    requires
        0 <= i < sounds.len(),
    ensures
        spec_guild_keys(sounds).contains(sound_guild(sounds[i])),
    decreases sounds.len(),
{
    if i < sounds.len() - 1 {
        lemma_key_of_each_sound(sounds.drop_last(), i);
        assert(sounds.drop_last()[i] == sounds[i]);
        let ks = spec_guild_keys(sounds.drop_last());
        let j = choose|j: int| 0 <= j < ks.len() && ks[j] == sound_guild(sounds[i]);
        if !ks.contains(sound_guild(sounds.last())) {
            assert(ks.push(sound_guild(sounds.last()))[j] == ks[j]);
        }
    } else {
        let ks = spec_guild_keys(sounds.drop_last());
        if ks.contains(sound_guild(sounds.last())) {
        } else {
            assert(ks.push(sound_guild(sounds.last()))[ks.len() as int] == sound_guild(sounds.last()));
        }
    }
}

proof fn lemma_filter_none(s: Seq<SoundboardSoundPayload>, p: spec_fn(SoundboardSoundPayload) -> bool)
    requires
        forall|i: int| 0 <= i < s.len() ==> !p(#[trigger] s[i]),
    ensures
        s.filter(p) == Seq::<SoundboardSoundPayload>::empty(),
    decreases s.len(),
{
    reveal(Seq::filter);
    if s.len() > 0 {
        assert forall|i: int| 0 <= i < s.drop_last().len() implies !p(#[trigger] s.drop_last()[i]) by {
            assert(s.drop_last()[i] == s[i]);
        }
        lemma_filter_none(s.drop_last(), p);
        assert(!p(s[s.len() - 1]));
    }
}

} // verus!
