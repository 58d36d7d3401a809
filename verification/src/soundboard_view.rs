//! The soundboard panel: servers in display order, their labels, and which
//! sounds can be played.
use vstd::prelude::*;
use vstd::multiset::Multiset;
use crate::app_state::AppState;
use crate::ipc::ui_message_handler::UiCommand;
use crate::payloads::{SoundboardSoundPayload, clone_opt_string};
use crate::user::PremiumType;
use crate::util::chars::{chars_of, str_eq, string_from_str};
use crate::util::string_map::StringMap;
use crate::voice::{chars_less, lemma_text_less_total, lemma_text_less_transitive, text_less};

verus! {

broadcast use vstd::seq_lib::group_to_multiset_ensures;

/// The rank of server `g` on the panel: the current server first, then
/// Discord's own sounds (no server, or server "0"), then the others.
pub open spec fn spec_guild_order(g: Seq<char>, current: Seq<char>) -> int {
    if current.len() > 0 && g == current {
        0
    } else if g.len() == 0 || g == "0"@ {
        1
    } else {
        2
    }
}

/// The rank of a server on the panel.
pub fn guild_order(guild_id: &str, current: &str) -> (r: u8)
    ensures
        r == spec_guild_order(guild_id@, current@),
{
    proof {
        reveal_strlit("0");
    }
    if current.unicode_len() > 0 && str_eq(guild_id, current) {
        0
    } else if guild_id.unicode_len() == 0 || str_eq(guild_id, "0") {
        1
    } else {
        2
    }
}

/// Whether server `a` is listed before server `b`: by rank, and within a
/// rank by id, the greater id first.
pub open spec fn guild_before(a: Seq<char>, b: Seq<char>, current: Seq<char>) -> bool {
    spec_guild_order(a, current) < spec_guild_order(b, current) || (spec_guild_order(a, current)
        == spec_guild_order(b, current) && text_less(b, a))
}

/// `s` with `x` placed after the last server not listed after it.
pub open spec fn spec_insert_guild(s: Seq<Seq<char>>, x: Seq<char>, current: Seq<char>) -> Seq<
    Seq<char>,
>
    decreases s.len(),
{
    if s.len() == 0 {
        seq![x]
    } else if guild_before(x, s.last(), current) {
        spec_insert_guild(s.drop_last(), x, current).push(s.last())
    } else {
        s.push(x)
    }
}

/// The servers in panel order.
pub open spec fn spec_order_guilds(s: Seq<Seq<char>>, current: Seq<char>) -> Seq<Seq<char>>
    decreases s.len(),
{
    if s.len() == 0 {
        s
    } else {
        spec_insert_guild(spec_order_guilds(s.drop_last(), current), s.last(), current)
    }
}

/// Whether no server of `s` is listed before an earlier one.
pub open spec fn guilds_in_order(s: Seq<Seq<char>>, current: Seq<char>) -> bool {
    forall|i: int, j: int|
        0 <= i < j < s.len() ==> !guild_before(#[trigger] s[j], #[trigger] s[i], current)
}

proof fn lemma_guild_before_total(a: Seq<char>, b: Seq<char>, current: Seq<char>)
    ensures
        a != b ==> (guild_before(a, b, current) || guild_before(b, a, current)),
        !(guild_before(a, b, current) && guild_before(b, a, current)),
{
    lemma_text_less_total(a, b);
}

proof fn lemma_guild_before_transitive(a: Seq<char>, b: Seq<char>, c: Seq<char>, current: Seq<char>)
    requires
        guild_before(a, b, current),
        guild_before(b, c, current),
    ensures
        guild_before(a, c, current),
{
    if spec_guild_order(a, current) == spec_guild_order(b, current) && spec_guild_order(b, current)
        == spec_guild_order(c, current) {
        lemma_text_less_transitive(c, b, a);
    }
}

proof fn lemma_insert_guild(s: Seq<Seq<char>>, x: Seq<char>, current: Seq<char>)
    requires
        guilds_in_order(s, current),
    ensures
        spec_insert_guild(s, x, current).to_multiset() == s.to_multiset().insert(x),
        guilds_in_order(spec_insert_guild(s, x, current), current),
        spec_insert_guild(s, x, current).len() == s.len() + 1,
    decreases s.len(),
{
    if s.len() > 0 {
        let l = s.last();
        let d = s.drop_last();
        assert(s == d.push(l));
        if guild_before(x, l, current) {
            lemma_insert_guild(d, x, current);
            let r = spec_insert_guild(d, x, current);
            assert(r.push(l).to_multiset() =~= s.to_multiset().insert(x));
            assert forall|k: int| 0 <= k < r.len() implies !guild_before(l, #[trigger] r[k], current) by {
                assert(r.to_multiset().count(r[k]) > 0);
                if r[k] == x {
                    lemma_guild_before_total(x, l, current);
                } else {
                    assert(d.to_multiset().count(r[k]) > 0);
                    assert(d.contains(r[k]));
                    let m = choose|m: int| 0 <= m < d.len() && d[m] == r[k];
                    assert(s[m] == d[m]);
                    assert(s[s.len() - 1] == l);
                }
            }
            let q = r.push(l);
            assert forall|i: int, j: int| 0 <= i < j < q.len() implies !guild_before(
                #[trigger] q[j],
                #[trigger] q[i],
                current,
            ) by {
                if j == q.len() - 1 {
                    assert(q[i] == r[i]);
                } else {
                    assert(q[i] == r[i] && q[j] == r[j]);
                }
            }
        } else {
            let q = s.push(x);
            assert forall|i: int, j: int| 0 <= i < j < q.len() implies !guild_before(
                #[trigger] q[j],
                #[trigger] q[i],
                current,
            ) by {
                if j == q.len() - 1 {
                    if i < s.len() - 1 {
                        assert(!guild_before(s[s.len() - 1], s[i], current));
                        if guild_before(x, s[i], current) {
                            lemma_guild_before_total(s[s.len() - 1], s[i], current);
                            if s[s.len() - 1] != s[i] {
                                lemma_guild_before_transitive(x, s[i], s[s.len() - 1], current);
                            }
                        }
                    }
                } else {
                    assert(q[i] == s[i] && q[j] == s[j]);
                }
            }
        }
    } else {
        assert(seq![x] == Seq::<Seq<char>>::empty().push(x));
    }
}

/// Ordering the servers keeps each of them, and lists them in panel order.
pub proof fn lemma_order_guilds(s: Seq<Seq<char>>, current: Seq<char>)
    ensures
        spec_order_guilds(s, current).to_multiset() == s.to_multiset(),
        guilds_in_order(spec_order_guilds(s, current), current),
        spec_order_guilds(s, current).len() == s.len(),
    decreases s.len(),
{
    if s.len() > 0 {
        lemma_order_guilds(s.drop_last(), current);
        lemma_insert_guild(spec_order_guilds(s.drop_last(), current), s.last(), current);
        assert(s == s.drop_last().push(s.last()));
    } else {
        assert(s.to_multiset() =~= Multiset::empty());
    }
}

/// The texts of a list of strings.
pub open spec fn texts_of(v: Seq<String>) -> Seq<Seq<char>> {
    v.map_values(|s: String| s@)
}

/// Whether server `x` is listed before server `y`.
fn guild_before_exec(x: &str, y: &str, current: &str) -> (r: bool)
    ensures
        r == guild_before(x@, y@, current@),
{
    let ox = guild_order(x, current);
    let oy = guild_order(y, current);
    ox < oy || (ox == oy && chars_less(&chars_of(y), &chars_of(x)))
}

fn insert_guild(out: &mut Vec<String>, x: String, current: &str)
    ensures
        texts_of(final(out)@) == spec_insert_guild(texts_of(old(out)@), x@, current@),
{
    let ghost s = texts_of(out@);
    let mut p: usize = out.len();
    assert(s.take(p as int) == s);
    assert(s.skip(p as int) == Seq::<Seq<char>>::empty());
    while p > 0 && guild_before_exec(x.as_str(), out[p - 1].as_str(), current)
        invariant
            p <= out.len(),
            texts_of(out@) == s,
            spec_insert_guild(s, x@, current@) == spec_insert_guild(s.take(p as int), x@, current@)
                + s.skip(p as int),
        decreases p,
    {
        let ghost t = s.take(p as int);
        assert(t.drop_last() == s.take(p - 1));
        assert(t.last() == s[p - 1]);
        assert(s.skip(p - 1) == seq![s[p - 1]] + s.skip(p as int));
        p = p - 1;
    }
    if p > 0 {
        let ghost t = s.take(p as int);
        assert(t.last() == s[p - 1]);
        assert(t.drop_last().push(t.last()) == t);
    }
    let ghost before = out@;
    out.insert(p, x);
    assert(texts_of(out@) == texts_of(before).insert(p as int, x@));
    assert(texts_of(out@) == spec_insert_guild(s.take(p as int), x@, current@) + s.skip(p as int));
}

/// The servers `ids` in panel order for the current server `current`.
pub fn order_guilds(ids: &Vec<String>, current: &str) -> (r: Vec<String>)
    ensures
        texts_of(r@) == spec_order_guilds(texts_of(ids@), current@),
{
    let mut out: Vec<String> = Vec::new();
    let mut i: usize = 0;
    let ghost all = texts_of(ids@);
    assert(all.take(0) == Seq::<Seq<char>>::empty());
    while i < ids.len()
        invariant
            i <= ids.len(),
            all == texts_of(ids@),
            texts_of(out@) == spec_order_guilds(all.take(i as int), current@),
        decreases ids.len() - i,
    {
        let x = string_from_str(ids[i].as_str());
        let ghost t = all.take(i + 1);
        assert(t.drop_last() == all.take(i as int));
        assert(t.last() == all[i as int]);
        insert_guild(&mut out, x, current);
        i = i + 1;
    }
    assert(all.take(ids.len() as int) == all);
    out
}

/// Whether a sound can be played: one marked available, unless it belongs to
/// another server than the current one (and not to Discord's own server "0")
/// while the user has no Nitro.
pub open spec fn spec_playable(
    s: SoundboardSoundPayload,
    premium: PremiumType,
    current: Seq<char>,
) -> bool {
    s.available && !(s.guild_id matches Some(g) && !premium.spec_has_nitro() && g@ != "0"@ && g@
        != current)
}

/// Whether a sound can be played by this user in the current server.
pub fn playable(sound: &SoundboardSoundPayload, premium: PremiumType, current: &str) -> (r: bool)
    ensures
        r == spec_playable(*sound, premium, current@),
{
    proof {
        reveal_strlit("0");
    }
    if !sound.available {
        return false;
    }
    match &sound.guild_id {
        Some(g) => premium.has_nitro() || str_eq(g.as_str(), "0") || str_eq(g.as_str(), current),
        None => true,
    }
}

/// The sound as the panel shows it: its availability as `spec_playable` says.
pub open spec fn spec_shown_sound(
    s: SoundboardSoundPayload,
    premium: PremiumType,
    current: Seq<char>,
) -> SoundboardSoundPayload {
    SoundboardSoundPayload { available: spec_playable(s, premium, current), ..s }
}

/// The label over a server's sounds: "Default" for Discord's own sounds,
/// else the server's known name, else its id.
pub open spec fn spec_guild_label(g: Seq<char>, names: Map<Seq<char>, String>) -> Seq<char> {
    if g.len() == 0 {
        "Default"@
    } else if names.contains_key(g) {
        names[g]@
    } else {
        g
    }
}

/// The label over a server's sounds.
pub fn guild_label(guild_id: &str, names: &StringMap<String>) -> (r: String)
    ensures
        r@ == spec_guild_label(guild_id@, names@),
{
    if guild_id.unicode_len() == 0 {
        string_from_str("Default")
    } else {
        match names.get(guild_id) {
            Some(n) => string_from_str(n.as_str()),
            None => string_from_str(guild_id),
        }
    }
}

/// The text on a sound's button: its emoji, or "?" without one.
pub fn sound_text(sound: &SoundboardSoundPayload) -> (r: String)
    ensures
        r@ == match sound.emoji_name {
            Some(e) => e@,
            None => "?"@,
        },
{
    match &sound.emoji_name {
        Some(e) => string_from_str(e.as_str()),
        None => string_from_str("?"),
    }
}

/// What pressing a sound's button asks of the client: to play it, if it can
/// be played.
pub fn press_sound(sound: &SoundboardSoundPayload) -> (r: Option<UiCommand>)
    ensures
        sound.available ==> (r matches Some(UiCommand::PlaySoundboardSound { sound_id, source_guild_id })
            && sound_id == sound.sound_id && source_guild_id == sound.guild_id),
        !sound.available ==> r is None,
{
    if sound.available {
        Some(
            UiCommand::PlaySoundboardSound {
                sound_id: sound.sound_id.clone(),
                source_guild_id: clone_opt_string(&sound.guild_id),
            },
        )
    } else {
        None
    }
}

/// One server's block on the panel.
pub struct SoundboardSection {
    pub label: String,
    pub sounds: Vec<SoundboardSoundPayload>,
}

/// The servers whose sounds are cached, in the cache's order.
pub open spec fn cache_keys(cache: StringMap<Vec<SoundboardSoundPayload>>) -> Seq<Seq<char>> {
    cache.spec_entries().map_values(|e: (Seq<char>, Vec<SoundboardSoundPayload>)| e.0)
}

/// The sounds of server `g` as the panel shows them.
pub open spec fn spec_section_sounds(
    g: Seq<char>,
    cache: Map<Seq<char>, Vec<SoundboardSoundPayload>>,
    premium: PremiumType,
    current: Seq<char>,
) -> Seq<SoundboardSoundPayload> {
    if cache.contains_key(g) {
        cache[g]@.map_values(|s: SoundboardSoundPayload| spec_shown_sound(s, premium, current))
    } else {
        Seq::empty()
    }
}

/// Whether `sections` is the panel for `state`: one block per cached server,
/// in panel order, each with its label and its sounds as shown.
pub open spec fn sections_of(sections: Seq<SoundboardSection>, state: AppState) -> bool {
    let order = spec_order_guilds(cache_keys(state.soundboard_cache), state.current_guild_id@);
    &&& sections.len() == order.len()
    &&& forall|i: int|
        0 <= i < sections.len() ==> #[trigger] sections[i].label@ == spec_guild_label(
            order[i],
            state.guild_names@,
        ) && sections[i].sounds@ == spec_section_sounds(
            order[i],
            state.soundboard_cache@,
            state.premium_type,
            state.current_guild_id@,
        )
}

fn shown_sounds(sounds: &Vec<SoundboardSoundPayload>, premium: PremiumType, current: &str) -> (r: Vec<
    SoundboardSoundPayload,
>)
    ensures
        r@ == sounds@.map_values(|s: SoundboardSoundPayload| spec_shown_sound(s, premium, current@)),
{
    let mut out: Vec<SoundboardSoundPayload> = Vec::new();
    let mut i: usize = 0;
    while i < sounds.len()
        invariant
            i <= sounds.len(),
            out@ == sounds@.take(i as int).map_values(
                |s: SoundboardSoundPayload| spec_shown_sound(s, premium, current@),
            ),
        decreases sounds.len() - i,
    {
        let mut s = sounds[i].clone();
        s.available = playable(&sounds[i], premium, current);
        out.push(s);
        assert(sounds@.take(i + 1) == sounds@.take(i as int).push(sounds@[i as int]));
        i = i + 1;
    }
    assert(sounds@.take(sounds.len() as int) == sounds@);
    out
}

/// The soundboard panel of `state`.
pub fn soundboard_sections(state: &AppState) -> (r: Vec<SoundboardSection>)
    ensures
        sections_of(r@, *state),
{
    let cache = &state.soundboard_cache;
    let mut keys: Vec<String> = Vec::new();
    let mut i: usize = 0;
    let n = cache.len();
    while i < n
        invariant
            i <= n,
            n == cache.spec_entries().len(),
            texts_of(keys@) == cache_keys(*cache).take(i as int),
        decreases n - i,
    {
        let (k, _) = cache.entry(i);
        keys.push(string_from_str(k.as_str()));
        assert(cache_keys(*cache).take(i + 1) == cache_keys(*cache).take(i as int).push(k@));
        assert(texts_of(keys@) == texts_of(keys@.drop_last()).push(k@));
        i = i + 1;
    }
    assert(cache_keys(*cache).take(n as int) == cache_keys(*cache));
    let current = state.current_guild_id.as_str();
    let order = order_guilds(&keys, current);
    let ghost ord = spec_order_guilds(cache_keys(*cache), current@);
    let mut sections: Vec<SoundboardSection> = Vec::new();
    let mut j: usize = 0;
    while j < order.len()
        invariant
            j <= order.len(),
            texts_of(order@) == ord,
            ord == spec_order_guilds(cache_keys(state.soundboard_cache), state.current_guild_id@),
            current@ == state.current_guild_id@,
            cache == &state.soundboard_cache,
            sections@.len() == j,
            forall|k: int|
                0 <= k < j ==> #[trigger] sections@[k].label@ == spec_guild_label(
                    ord[k],
                    state.guild_names@,
                ) && sections@[k].sounds@ == spec_section_sounds(
                    ord[k],
                    state.soundboard_cache@,
                    state.premium_type,
                    state.current_guild_id@,
                ),
        decreases order.len() - j,
    {
        let g = order[j].as_str();
        assert(ord[j as int] == g@);
        let label = guild_label(g, &state.guild_names);
        let sounds = match cache.get(g) {
            Some(v) => shown_sounds(v, state.premium_type, current),
            None => Vec::new(),
        };
        let ghost prev = sections@;
        let sec = SoundboardSection { label, sounds };
        assert(sec.label@ == spec_guild_label(ord[j as int], state.guild_names@));
        assert(sec.sounds@ == spec_section_sounds(
            ord[j as int],
            state.soundboard_cache@,
            state.premium_type,
            state.current_guild_id@,
        ));
        sections.push(sec);
        assert(forall|k: int| 0 <= k < j ==> sections@[k] == prev[k]);
        j = j + 1;
    }
    assert(ord.len() == order@.len());
    sections
}

/// In panel order, only the current server itself may precede the current
/// server; only the current server or Discord's own sounds (no server, or
/// server "0") may precede Discord's own sounds; and among the other servers
/// the greater id comes first.
pub proof fn lemma_panel_order(ids: Seq<Seq<char>>, current: Seq<char>)
    ensures
        forall|i: int, j: int|
            #![trigger spec_order_guilds(ids, current)[i], spec_order_guilds(ids, current)[j]]
            0 <= i < j < spec_order_guilds(ids, current).len() ==> {
                let o = spec_order_guilds(ids, current);
                &&& (current.len() > 0 && o[j] == current) ==> o[i] == current
                &&& (o[j].len() == 0 || o[j] == "0"@) ==> ((current.len() > 0 && o[i] == current)
                    || o[i].len() == 0 || o[i] == "0"@)
                &&& (o[i] != current && o[i].len() > 0 && o[i] != "0"@ && o[j] != current
                    && o[j].len() > 0 && o[j] != "0"@) ==> !text_less(o[i], o[j])
            },
{
    lemma_order_guilds(ids, current);
}

/// A sound can be played exactly when it is marked available and, unless the
/// user has Nitro, it belongs to no server, to Discord's server "0" or to
/// the current server.
pub proof fn lemma_playable_rule(s: SoundboardSoundPayload, premium: PremiumType, current: Seq<char>)
    ensures
        spec_playable(s, premium, current) == (s.available && (premium != PremiumType::NoPremium
            || match s.guild_id {
            Some(g) => g@ == "0"@ || g@ == current,
            None => true,
        })),
{
}

} // verus!
