//! Which voice channel members the overlay lists, in which order, and how each
//! row is drawn.
use vstd::prelude::*;
use vstd::multiset::Multiset;
use crate::config::{DisplayVoiceMembers, TransportMode};
use crate::user::{User, UserView, UserVoiceState};
use crate::util::chars::{chars_of, str_eq, string_from_str};
use crate::util::text::{censor, spec_censor};

verus! {

broadcast use vstd::seq_lib::group_to_multiset_ensures;

/// The Unicode scalar value of `c`.
pub open spec fn code_point(c: char) -> int {
    c as int
}

/// Whether text `a` sorts strictly before text `b`: compared character by
/// character, a proper prefix first. On UTF-8 text this is the order of
/// `String`'s `Ord`.
pub open spec fn text_less(a: Seq<char>, b: Seq<char>) -> bool
    decreases a.len(),
{
    if b.len() == 0 {
        false
    } else if a.len() == 0 {
        true
    } else if a[0] != b[0] {
        code_point(a[0]) < code_point(b[0])
    } else {
        text_less(a.drop_first(), b.drop_first())
    }
}

/// No text sorts before itself.
pub proof fn lemma_text_less_irreflexive(a: Seq<char>)
    ensures
        !text_less(a, a),
    decreases a.len(),
{
    if a.len() > 0 {
        lemma_text_less_irreflexive(a.drop_first());
    }
}

/// Of two different texts, exactly one sorts before the other.
pub proof fn lemma_text_less_total(a: Seq<char>, b: Seq<char>)
    ensures
        a != b ==> (text_less(a, b) || text_less(b, a)),
        !(text_less(a, b) && text_less(b, a)),
    decreases a.len(),
{
    if a.len() > 0 && b.len() > 0 && a[0] == b[0] {
        lemma_text_less_total(a.drop_first(), b.drop_first());
        if a != b {
            assert(a =~= seq![a[0]] + a.drop_first());
            assert(b =~= seq![b[0]] + b.drop_first());
        }
    } else if a.len() == 0 && b.len() == 0 {
        assert(a =~= b);
    }
}

/// The order on texts is transitive.
pub proof fn lemma_text_less_transitive(a: Seq<char>, b: Seq<char>, c: Seq<char>)
    requires
        text_less(a, b),
        text_less(b, c),
    ensures
        text_less(a, c),
    decreases a.len(),
{
    if a.len() > 0 && a[0] == b[0] && b[0] == c[0] {
        lemma_text_less_transitive(a.drop_first(), b.drop_first(), c.drop_first());
    }
}

/// Whether text `a` sorts before `b`, character by character.
pub fn chars_less(a: &Vec<char>, b: &Vec<char>) -> (r: bool)
    ensures
        r == text_less(a@, b@),
{
    let mut i: usize = 0;
    assert(a@.skip(0) == a@ && b@.skip(0) == b@);
    while i < a.len() && i < b.len() && a[i] == b[i]
        invariant
            i <= a.len(),
            i <= b.len(),
            text_less(a@, b@) == text_less(a@.skip(i as int), b@.skip(i as int)),
        decreases a.len() - i,
    {
        assert(a@.skip(i as int).drop_first() == a@.skip(i + 1));
        assert(b@.skip(i as int).drop_first() == b@.skip(i + 1));
        i = i + 1;
    }
    if i == b.len() {
        false
    } else if i == a.len() {
        true
    } else {
        assert(a@.skip(i as int)[0] == a@[i as int]);
        assert(b@.skip(i as int)[0] == b@[i as int]);
        a[i] < b[i]
    }
}

/// `s` with `x` placed after the last member whose id does not sort after
/// `x`'s: one step of a stable sort by id.
pub open spec fn spec_insert_by_id(s: Seq<User>, x: User) -> Seq<User>
    decreases s.len(),
{
    if s.len() == 0 {
        seq![x]
    } else if text_less(x.id@, s.last().id@) {
        spec_insert_by_id(s.drop_last(), x).push(s.last())
    } else {
        s.push(x)
    }
}

/// The members sorted by id, members with equal ids kept in their order
/// (`sort_by` on the ids).
pub open spec fn spec_sort_by_id(s: Seq<User>) -> Seq<User>
    decreases s.len(),
{
    if s.len() == 0 {
        s
    } else {
        spec_insert_by_id(spec_sort_by_id(s.drop_last()), s.last())
    }
}

/// Whether no member of `s` has an id sorting before an earlier member's.
pub open spec fn sorted_by_id(s: Seq<User>) -> bool {
    forall|i: int, j: int| 0 <= i < j < s.len() ==> !text_less(#[trigger] s[j].id@, #[trigger] s[i].id@)
}

proof fn lemma_insert_by_id(s: Seq<User>, x: User)
    requires
        sorted_by_id(s),
    ensures
        spec_insert_by_id(s, x).to_multiset() == s.to_multiset().insert(x),
        sorted_by_id(spec_insert_by_id(s, x)),
        spec_insert_by_id(s, x).len() == s.len() + 1,
    decreases s.len(),
{
    if s.len() > 0 {
        let l = s.last();
        let d = s.drop_last();
        assert(s == d.push(l));
        if text_less(x.id@, l.id@) {
            assert(sorted_by_id(d));
            lemma_insert_by_id(d, x);
            let r = spec_insert_by_id(d, x);
            assert(r.push(l).to_multiset() =~= s.to_multiset().insert(x));
            assert forall|k: int| 0 <= k < r.len() implies !text_less(l.id@, #[trigger] r[k].id@) by {
                assert(r.to_multiset().count(r[k]) > 0);
                if r[k] == x {
                    lemma_text_less_total(x.id@, l.id@);
                } else {
                    assert(d.to_multiset().count(r[k]) > 0);
                    assert(d.contains(r[k]));
                    let m = choose|m: int| 0 <= m < d.len() && d[m] == r[k];
                    assert(s[m] == d[m]);
                    assert(s[s.len() - 1] == l);
                }
            }
            let q = r.push(l);
            assert forall|i: int, j: int| 0 <= i < j < q.len() implies !text_less(
                #[trigger] q[j].id@,
                #[trigger] q[i].id@,
            ) by {
                if j == q.len() - 1 {
                    assert(q[i] == r[i]);
                } else {
                    assert(q[i] == r[i] && q[j] == r[j]);
                }
            }
        } else {
            let q = s.push(x);
            assert forall|i: int, j: int| 0 <= i < j < q.len() implies !text_less(
                #[trigger] q[j].id@,
                #[trigger] q[i].id@,
            ) by {
                if j == q.len() - 1 {
                    if i < s.len() - 1 {
                        assert(!text_less(s[s.len() - 1].id@, s[i].id@));
                        if text_less(x.id@, s[i].id@) {
                            lemma_text_less_total(s[s.len() - 1].id@, s[i].id@);
                            if s[s.len() - 1].id@ == s[i].id@ {
                            } else {
                                lemma_text_less_transitive(x.id@, s[i].id@, s[s.len() - 1].id@);
                            }
                        }
                    }
                } else {
                    assert(q[i] == s[i] && q[j] == s[j]);
                }
            }
        }
    } else {
        assert(seq![x] == Seq::<User>::empty().push(x));
    }
}

/// Sorting by id keeps every member, and orders them by id.
pub proof fn lemma_sort_by_id(s: Seq<User>)
    ensures
        spec_sort_by_id(s).to_multiset() == s.to_multiset(),
        sorted_by_id(spec_sort_by_id(s)),
        spec_sort_by_id(s).len() == s.len(),
    decreases s.len(),
{
    if s.len() > 0 {
        lemma_sort_by_id(s.drop_last());
        lemma_insert_by_id(spec_sort_by_id(s.drop_last()), s.last());
        assert(s == s.drop_last().push(s.last()));
    } else {
        assert(s.to_multiset() =~= Multiset::empty());
    }
}

/// Inserts `x` into `out` as one step of the stable sort by id.
fn insert_by_id(out: &mut Vec<User>, x: User)
    ensures
        final(out)@ == spec_insert_by_id(old(out)@, x),
{
    let ghost s = out@;
    let xid = chars_of(x.id.as_str());
    let mut p: usize = out.len();
    assert(s.take(p as int) == s);
    assert(s.skip(p as int) == Seq::<User>::empty());
    while p > 0 && chars_less(&xid, &chars_of(out[p - 1].id.as_str()))
        invariant
            p <= out.len(),
            out@ == s,
            xid@ == x.id@,
            spec_insert_by_id(s, x) == spec_insert_by_id(s.take(p as int), x) + s.skip(p as int),
        decreases p,
    {
        let ghost t = s.take(p as int);
        assert(t.drop_last() == s.take(p - 1));
        assert(t.last() == s[p - 1]);
        assert(s.skip(p - 1) == seq![s[p - 1]] + s.skip(p as int));
        p = p - 1;
    }
    if p > 0 {
        let ghost t = s.take(p as int);
        assert(t.last() == s[p - 1]);
        assert(t.drop_last().push(t.last()) == t);
    }
    out.insert(p, x);
    assert(out@ == spec_insert_by_id(s.take(p as int), x) + s.skip(p as int));
}

/// The members sorted by id; members with equal ids keep their order.
pub fn sort_by_id(users: &Vec<User>) -> (r: Vec<User>)
    ensures
        r@ == spec_sort_by_id(users@),
{
    let mut out: Vec<User> = Vec::new();
    let mut i: usize = 0;
    assert(users@.take(0) == Seq::<User>::empty());
    while i < users.len()
        invariant
            i <= users.len(),
            out@ == spec_sort_by_id(users@.take(i as int)),
        decreases users.len() - i,
    {
        let x = users[i].clone();
        let ghost t = users@.take(i + 1);
        assert(t.drop_last() == users@.take(i as int));
        assert(t.last() == users@[i as int]);
        insert_by_id(&mut out, x);
        i = i + 1;
    }
    assert(users@.take(users.len() as int) == users@);
    out
}

/// Whether a member is listed: always, unless members are shown only while
/// speaking; then the speaking ones, or everyone while the overlay is open.
pub open spec fn spec_shows_member(mode: DisplayVoiceMembers, is_open: bool, u: User) -> bool {
    match mode {
        DisplayVoiceMembers::WhenSpeaking => u.voice_state == UserVoiceState::Speaking || is_open,
        _ => true,
    }
}

/// Whether a member's row is drawn at half opacity: a silent member, with
/// members shown semi-transparent while the overlay is closed.
pub open spec fn spec_dimmed(u: User, semitransparent: bool, is_open: bool) -> bool {
    u.voice_state != UserVoiceState::Speaking && semitransparent && !is_open
}

/// One listed member and how its row behaves.
pub struct VoiceRow {
    /// The member, with the name hidden in censor mode.
    pub user: User,
    /// Whether right-clicking opens the volume menu.
    pub can_context_menu: bool,
    /// Whether the row is drawn at half opacity.
    pub dimmed: bool,
}

/// A listed member as texts.
pub struct VoiceRowView {
    pub user: UserView,
    pub can_context_menu: bool,
    pub dimmed: bool,
}

impl View for VoiceRow {
    type V = VoiceRowView;

    open spec fn view(&self) -> VoiceRowView {
        VoiceRowView {
            user: self.user@,
            can_context_menu: self.can_context_menu,
            dimmed: self.dimmed,
        }
    }
}

/// The row of member `u`: `self_id` is the signed-in user, whose own row has
/// no volume menu, nor has any row over the websocket transport.
pub open spec fn spec_row(
    u: User,
    self_id: Seq<char>,
    transport: TransportMode,
    mode: DisplayVoiceMembers,
    is_open: bool,
    is_censor: bool,
) -> VoiceRowView {
    VoiceRowView {
        user: UserView { name: if is_censor { spec_censor(u.name@) } else { u.name@ }, ..u@ },
        can_context_menu: self_id != u.id@ && transport == TransportMode::Ipc,
        dimmed: spec_dimmed(u, mode == DisplayVoiceMembers::AlwaysSemiTransparent, is_open),
    }
}

/// The rows of the members of `sorted` that are listed, in order.
pub open spec fn spec_rows(
    sorted: Seq<User>,
    self_id: Seq<char>,
    transport: TransportMode,
    mode: DisplayVoiceMembers,
    is_open: bool,
    is_censor: bool,
) -> Seq<VoiceRowView>
    decreases sorted.len(),
{
    if sorted.len() == 0 {
        Seq::empty()
    } else {
        let rest = spec_rows(sorted.drop_last(), self_id, transport, mode, is_open, is_censor);
        if spec_shows_member(mode, is_open, sorted.last()) {
            rest.push(spec_row(sorted.last(), self_id, transport, mode, is_open, is_censor))
        } else {
            rest
        }
    }
}

/// The views of a list of rows.
pub open spec fn rows_view(rows: Seq<VoiceRow>) -> Seq<VoiceRowView> {
    rows.map_values(|r: VoiceRow| r@)
}

/// The rows of the voice section: the members sorted by id, those that are
/// listed under `mode`, each with its name censored if asked and with its
/// menu and opacity decided.
pub fn voice_rows(
    users: &Vec<User>,
    self_id: &str,
    transport: TransportMode,
    mode: DisplayVoiceMembers,
    is_open: bool,
    is_censor: bool,
) -> (rows: Vec<VoiceRow>)
    ensures
        rows_view(rows@) == spec_rows(
            spec_sort_by_id(users@),
            self_id@,
            transport,
            mode,
            is_open,
            is_censor,
        ),
{
    let sorted = sort_by_id(users);
    let mut rows: Vec<VoiceRow> = Vec::new();
    let mut i: usize = 0;
    assert(sorted@.take(0) == Seq::<User>::empty());
    while i < sorted.len()
        invariant
            i <= sorted.len(),
            rows_view(rows@) == spec_rows(
                sorted@.take(i as int),
                self_id@,
                transport,
                mode,
                is_open,
                is_censor,
            ),
        decreases sorted.len() - i,
    {
        let u = &sorted[i];
        let ghost t = sorted@.take(i + 1);
        assert(t.drop_last() == sorted@.take(i as int));
        assert(t.last() == sorted@[i as int]);
        let shows = match mode {
            DisplayVoiceMembers::WhenSpeaking => u.voice_state == UserVoiceState::Speaking
                || is_open,
            _ => true,
        };
        if shows {
            let mut shown = u.clone();
            if is_censor {
                shown.name = censor(u.name.as_str());
            }
            let own = str_eq(self_id, u.id.as_str());
            let row = VoiceRow {
                user: shown,
                can_context_menu: !own && transport == TransportMode::Ipc,
                dimmed: u.voice_state != UserVoiceState::Speaking && mode
                    == DisplayVoiceMembers::AlwaysSemiTransparent && !is_open,
            };
            rows.push(row);
            assert(rows_view(rows@) == rows_view(rows@.drop_last()).push(row@));
        }
        i = i + 1;
    }
    assert(sorted@.take(sorted.len() as int) == sorted@);
    rows
}

/// The avatar ring color of a member: green while speaking, red while muted
/// or deafened.
pub open spec fn spec_border(state: UserVoiceState) -> Option<(u8, u8, u8)> {
    match state {
        UserVoiceState::Speaking => Some((67u8, 147u8, 120u8)),
        UserVoiceState::Deafened | UserVoiceState::Muted => Some((218u8, 62u8, 68u8)),
        _ => None,
    }
}

/// The address of a member's avatar on Discord's CDN; empty for a member
/// without an avatar.
pub open spec fn spec_avatar_url(id: Seq<char>, avatar: Seq<char>) -> Seq<char> {
    if avatar.len() == 0 {
        Seq::empty()
    } else {
        "https://cdn.discordapp.com/avatars/"@ + id + "/"@ + avatar + ".png?size=80"@
    }
}

/// The avatar address and ring color of a member.
pub fn avatar_url_and_border(user: &User) -> (r: (String, Option<(u8, u8, u8)>))
    ensures
        r.0@ == spec_avatar_url(user.id@, user.avatar@),
        r.1 == spec_border(user.voice_state),
{
    let border = match user.voice_state {
        UserVoiceState::Speaking => Some((67u8, 147u8, 120u8)),
        UserVoiceState::Deafened | UserVoiceState::Muted => Some((218u8, 62u8, 68u8)),
        _ => None,
    };
    let url = if user.avatar.as_str().unicode_len() == 0 {
        String::new()
    } else {
        let mut u = string_from_str("https://cdn.discordapp.com/avatars/");
        u.append(user.id.as_str());
        u.append("/");
        u.append(user.avatar.as_str());
        u.append(".png?size=80");
        u
    };
    (url, border)
}

/// Unless members are shown only while speaking with the overlay closed,
/// every member gets a row, in the given order.
pub proof fn lemma_rows_list_everyone(
    sorted: Seq<User>,
    self_id: Seq<char>,
    transport: TransportMode,
    mode: DisplayVoiceMembers,
    is_open: bool,
    is_censor: bool,
)
    requires
        mode != DisplayVoiceMembers::WhenSpeaking || is_open,
    ensures
        spec_rows(sorted, self_id, transport, mode, is_open, is_censor).len() == sorted.len(),
        forall|i: int|
            0 <= i < sorted.len() ==> (#[trigger] spec_rows(
                sorted,
                self_id,
                transport,
                mode,
                is_open,
                is_censor,
            )[i]).user.id == sorted[i].id@,
    decreases sorted.len(),
{
    if sorted.len() > 0 {
        lemma_rows_list_everyone(sorted.drop_last(), self_id, transport, mode, is_open, is_censor);
    }
}

/// With members shown only while speaking and the overlay closed, every row
/// is a speaking member.
pub proof fn lemma_rows_only_speaking(
    sorted: Seq<User>,
    self_id: Seq<char>,
    transport: TransportMode,
    is_censor: bool,
)
    ensures
        forall|i: int|
            0 <= i < spec_rows(
                sorted,
                self_id,
                transport,
                DisplayVoiceMembers::WhenSpeaking,
                false,
                is_censor,
            ).len() ==> (#[trigger] spec_rows(
                sorted,
                self_id,
                transport,
                DisplayVoiceMembers::WhenSpeaking,
                false,
                is_censor,
            )[i]).user.voice_state == UserVoiceState::Speaking,
    decreases sorted.len(),
{
    if sorted.len() > 0 {
        lemma_rows_only_speaking(sorted.drop_last(), self_id, transport, is_censor);
    }
}

proof fn lemma_rows_come_from(
    sorted: Seq<User>,
    self_id: Seq<char>,
    transport: TransportMode,
    mode: DisplayVoiceMembers,
    is_open: bool,
    is_censor: bool,
)
    ensures
        spec_rows(sorted, self_id, transport, mode, is_open, is_censor).len() <= sorted.len(),
        forall|i: int|
            0 <= i < spec_rows(sorted, self_id, transport, mode, is_open, is_censor).len()
                ==> exists|k: int|
                0 <= k < sorted.len() && (#[trigger] spec_rows(
                    sorted,
                    self_id,
                    transport,
                    mode,
                    is_open,
                    is_censor,
                )[i]).user.id == sorted[k].id@,
    decreases sorted.len(),
{
    if sorted.len() > 0 {
        let d = sorted.drop_last();
        lemma_rows_come_from(d, self_id, transport, mode, is_open, is_censor);
        let r = spec_rows(d, self_id, transport, mode, is_open, is_censor);
        assert forall|i: int| 0 <= i < r.len() implies exists|k: int|
            0 <= k < sorted.len() && (#[trigger] r[i]).user.id == sorted[k].id@ by {
            let k = choose|k: int| 0 <= k < d.len() && r[i].user.id == d[k].id@;
            assert(sorted[k] == d[k]);
        }
        let full = spec_rows(sorted, self_id, transport, mode, is_open, is_censor);
        assert forall|i: int| 0 <= i < full.len() implies exists|k: int|
            0 <= k < sorted.len() && (#[trigger] full[i]).user.id == sorted[k].id@ by {
            if i < r.len() {
                assert(full[i] == r[i]);
            } else {
                assert(full[i].user.id == sorted[sorted.len() - 1].id@);
            }
        }
    }
}

/// The rows of members sorted by id are listed in id order, whatever the
/// display mode.
pub proof fn lemma_rows_in_id_order(
    sorted: Seq<User>,
    self_id: Seq<char>,
    transport: TransportMode,
    mode: DisplayVoiceMembers,
    is_open: bool,
    is_censor: bool,
)
    requires
        sorted_by_id(sorted),
    ensures
        forall|i: int, j: int|
            0 <= i < j < spec_rows(sorted, self_id, transport, mode, is_open, is_censor).len()
                ==> !text_less(
                #[trigger] spec_rows(sorted, self_id, transport, mode, is_open, is_censor)[j].user.id,
                #[trigger] spec_rows(sorted, self_id, transport, mode, is_open, is_censor)[i].user.id,
            ),
    decreases sorted.len(),
{
    if sorted.len() > 0 {
        let d = sorted.drop_last();
        assert(sorted_by_id(d)) by {
            assert forall|i: int, j: int| 0 <= i < j < d.len() implies !text_less(
                #[trigger] d[j].id@,
                #[trigger] d[i].id@,
            ) by {
                assert(d[i] == sorted[i] && d[j] == sorted[j]);
            }
        }
        lemma_rows_in_id_order(d, self_id, transport, mode, is_open, is_censor);
        lemma_rows_come_from(d, self_id, transport, mode, is_open, is_censor);
        let r = spec_rows(d, self_id, transport, mode, is_open, is_censor);
        let full = spec_rows(sorted, self_id, transport, mode, is_open, is_censor);
        let last = sorted[sorted.len() - 1];
        assert forall|i: int, j: int| 0 <= i < j < full.len() implies !text_less(
            #[trigger] full[j].user.id,
            #[trigger] full[i].user.id,
        ) by {
            if j < r.len() {
                assert(full[i] == r[i] && full[j] == r[j]);
            } else {
                assert(full[i] == r[i]);
                assert(full[j].user.id == last.id@);
                let k = choose|k: int| 0 <= k < d.len() && r[i].user.id == d[k].id@;
                assert(d[k] == sorted[k]);
                assert(!text_less(sorted[sorted.len() - 1].id@, sorted[k].id@));
            }
        }
    }
}

/// The voice section lists its members in id order.
pub proof fn lemma_voice_rows_in_id_order(
    users: Seq<User>,
    self_id: Seq<char>,
    transport: TransportMode,
    mode: DisplayVoiceMembers,
    is_open: bool,
    is_censor: bool,
)
    ensures
        forall|i: int, j: int|
            0 <= i < j < spec_rows(
                spec_sort_by_id(users),
                self_id,
                transport,
                mode,
                is_open,
                is_censor,
            ).len() ==> !text_less(
                #[trigger] spec_rows(spec_sort_by_id(users), self_id, transport, mode, is_open, is_censor)[j].user.id,
                #[trigger] spec_rows(spec_sort_by_id(users), self_id, transport, mode, is_open, is_censor)[i].user.id,
            ),
{
    lemma_sort_by_id(users);
    lemma_rows_in_id_order(spec_sort_by_id(users), self_id, transport, mode, is_open, is_censor);
}

/// A row is drawn at half opacity exactly when the overlay is closed,
/// members are shown semi-transparent, and its member is not speaking; so
/// while the overlay is open no row is dimmed, whatever the display mode.
pub proof fn lemma_rows_dimming(
    sorted: Seq<User>,
    self_id: Seq<char>,
    transport: TransportMode,
    mode: DisplayVoiceMembers,
    is_open: bool,
    is_censor: bool,
)
    ensures
        forall|i: int|
            0 <= i < spec_rows(sorted, self_id, transport, mode, is_open, is_censor).len()
                ==> (#[trigger] spec_rows(sorted, self_id, transport, mode, is_open, is_censor)[i]).dimmed
                == (!is_open && mode == DisplayVoiceMembers::AlwaysSemiTransparent && spec_rows(
                sorted,
                self_id,
                transport,
                mode,
                is_open,
                is_censor,
            )[i].user.voice_state != UserVoiceState::Speaking),
        is_open ==> forall|i: int|
            0 <= i < spec_rows(sorted, self_id, transport, mode, is_open, is_censor).len()
                ==> !(#[trigger] spec_rows(sorted, self_id, transport, mode, is_open, is_censor)[i]).dimmed,
    decreases sorted.len(),
{
    if sorted.len() > 0 {
        lemma_rows_dimming(sorted.drop_last(), self_id, transport, mode, is_open, is_censor);
    }
}

/// Every row stands for a member of the list with the same id and voice
/// state, its name censored exactly when asked.
pub proof fn lemma_rows_show_members(
    sorted: Seq<User>,
    self_id: Seq<char>,
    transport: TransportMode,
    mode: DisplayVoiceMembers,
    is_open: bool,
    is_censor: bool,
)
    ensures
        forall|i: int|
            0 <= i < spec_rows(sorted, self_id, transport, mode, is_open, is_censor).len()
                ==> exists|k: int|
                0 <= k < sorted.len() && (#[trigger] spec_rows(
                    sorted,
                    self_id,
                    transport,
                    mode,
                    is_open,
                    is_censor,
                )[i]).user.id == sorted[k].id@ && spec_rows(
                    sorted,
                    self_id,
                    transport,
                    mode,
                    is_open,
                    is_censor,
                )[i].user.voice_state == sorted[k].voice_state && (!is_censor ==> spec_rows(
                    sorted,
                    self_id,
                    transport,
                    mode,
                    is_open,
                    is_censor,
                )[i].user.name == sorted[k].name@),
    decreases sorted.len(),
{
    if sorted.len() > 0 {
        let d = sorted.drop_last();
        lemma_rows_show_members(d, self_id, transport, mode, is_open, is_censor);
        let r = spec_rows(d, self_id, transport, mode, is_open, is_censor);
        let full = spec_rows(sorted, self_id, transport, mode, is_open, is_censor);
        assert forall|i: int| 0 <= i < full.len() implies exists|k: int|
            0 <= k < sorted.len() && (#[trigger] full[i]).user.id == sorted[k].id@
                && full[i].user.voice_state == sorted[k].voice_state && (!is_censor
                ==> full[i].user.name == sorted[k].name@) by {
            if i < r.len() {
                assert(full[i] == r[i]);
                let k = choose|k: int|
                    0 <= k < d.len() && r[i].user.id == d[k].id@ && r[i].user.voice_state
                        == d[k].voice_state && (!is_censor ==> r[i].user.name == d[k].name@);
                assert(sorted[k] == d[k]);
            } else {
                let k = sorted.len() - 1;
                assert(full[i].user.id == sorted[k].id@);
            }
        }
    }
}

} // verus!
