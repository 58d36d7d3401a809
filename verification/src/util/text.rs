use vstd::prelude::*;
use vstd::utf8::*;
use vstd::string::*;

use crate::util::chars::{chars_of, string_of, push_char};

verus! {

/// The three dots appended to shortened text.
pub open spec fn ellipsis() -> Seq<char> {
    seq!['.', '.', '.']
}

/// `text` cut to its first `max` UTF-8 bytes followed by "...", when it is
/// longer than `max` bytes; `text` itself otherwise.
pub open spec fn spec_truncate(text: Seq<char>, max: nat) -> Seq<char> {
    let bytes = encode_utf8(text);
    if bytes.len() > max {
        decode_utf8(bytes.take(max as int)) + ellipsis()
    } else {
        text
    }
}

/// Whether `spec_truncate(text, max)` cuts `text` at the start of a character,
/// the only place where the cut is defined.
pub open spec fn truncate_cut_is_valid(text: Seq<char>, max: nat) -> bool {
    encode_utf8(text).len() > max ==> is_char_boundary(encode_utf8(text), max as int)
}

/// Shortens `text` to at most `max` bytes, marking a cut with "...".
pub fn truncate(text: &str, max: usize) -> (r: String)
    requires
        truncate_cut_is_valid(text@, max as nat),
    ensures
        r@ == spec_truncate(text@, max as nat),
{
    proof {
        reveal_strlit("...");
    }
    if text.as_bytes().len() > max {
        let (head, _tail) = text.split_at(max);
        proof {
            encode_utf8_decode_utf8(head@);
            assert(encode_utf8(text@).take(max as int) == encode_utf8(text@).subrange(0, max as int));
            assert(head@ == decode_utf8(encode_utf8(text@).take(max as int)));
        }
        let mut r = head.to_owned();
        r.append("...");
        assert("..."@ == ellipsis());
        assert(r@ == head@ + ellipsis());
        r
    } else {
        text.to_owned()
    }
}

/// `text` with every line feed replaced by a space.
pub open spec fn spec_strip(text: Seq<char>) -> Seq<char> {
    text.map_values(|c: char| if c == '\n' { ' ' } else { c })
}

/// Replaces line breaks, which would break the one-line layout, by spaces.
pub fn strip(text: &str) -> (r: String)
    ensures
        r@ == spec_strip(text@),
{
    let cs = chars_of(text);
    let mut out: Vec<char> = Vec::new();
    let mut i: usize = 0;
    while i < cs.len()
        invariant
            i <= cs.len(),
            cs@ == text@,
            out@ == spec_strip(text@.take(i as int)),
        decreases cs.len() - i,
    {
        let c = cs[i];
        out.push(if c == '\n' { ' ' } else { c });
        assert(text@.take(i + 1) == text@.take(i as int).push(c));
        i = i + 1;
    }
    assert(text@.take(cs.len() as int) == text@);
    string_of(&out)
}

/// The first character of `text` (or '?' for empty text) followed by "...".
pub open spec fn spec_censor(text: Seq<char>) -> Seq<char> {
    seq![if text.len() > 0 { text[0] } else { '?' }] + ellipsis()
}

/// Hides a name behind its first character.
pub fn censor(text: &str) -> (r: String)
    ensures
        r@ == spec_censor(text@),
{
    proof {
        reveal_strlit("...");
    }
    let mut r = String::new();
    let first = if text.unicode_len() > 0 { text.get_char(0) } else { '?' };
    push_char(&mut r, first);
    r.append("...");
    r
}

} // verus!

verus! {

/// `rep` before every character of `s` and once more at the end: what
/// `str::replace` gives for an empty pattern.
pub open spec fn spec_interleave(s: Seq<char>, rep: Seq<char>) -> Seq<char>
    decreases s.len(),
{
    if s.len() == 0 {
        rep
    } else {
        rep + seq![s[0]] + spec_interleave(s.drop_first(), rep)
    }
}

/// `s` with every occurrence of `pat` replaced by `rep`, scanning from the
/// left as `str::replace` does; an empty pattern matches before every
/// character and at the end.
pub open spec fn spec_replace(s: Seq<char>, pat: Seq<char>, rep: Seq<char>) -> Seq<char>
    decreases s.len(),
{
    if pat.len() == 0 {
        spec_interleave(s, rep)
    } else if s.len() == 0 {
        s
    } else if s.len() >= pat.len() && s.take(pat.len() as int) == pat {
        rep + spec_replace(s.skip(pat.len() as int), pat, rep)
    } else {
        seq![s[0]] + spec_replace(s.drop_first(), pat, rep)
    }
}

fn matches_at(s: &Vec<char>, i: usize, pat: &Vec<char>) -> (r: bool)
    requires
        i <= s.len(),
    ensures
        r == (s@.len() - i >= pat@.len() && s@.skip(i as int).take(pat@.len() as int) == pat@),
{
    if s.len() - i < pat.len() {
        return false;
    }
    let mut k: usize = 0;
    while k < pat.len()
        invariant
            k <= pat.len(),
            i + pat.len() <= s.len(),
            forall|j: int| 0 <= j < k ==> s@[i + j] == pat@[j],
        decreases pat.len() - k,
    {
        if s[i + k] != pat[k] {
            assert(s@.skip(i as int).take(pat@.len() as int)[k as int] != pat@[k as int]);
            return false;
        }
        k = k + 1;
    }
    assert(s@.skip(i as int).take(pat@.len() as int) =~= pat@);
    true
}

/// Appends `rep` to `out`.
fn push_all(out: &mut Vec<char>, rep: &Vec<char>)
    ensures
        final(out)@ == old(out)@ + rep@,
{
    let ghost before = out@;
    let mut k: usize = 0;
    while k < rep.len()
        invariant
            k <= rep.len(),
            out@ == before + rep@.take(k as int),
        decreases rep.len() - k,
    {
        out.push(rep[k]);
        assert(rep@.take(k + 1) == rep@.take(k as int).push(rep@[k as int]));
        k = k + 1;
    }
    assert(rep@.take(rep.len() as int) == rep@);
}

/// `rep` before every character of `cs` and at the end.
fn interleave(cs: &Vec<char>, rs: &Vec<char>) -> (r: Vec<char>)
    ensures
        r@ == spec_interleave(cs@, rs@),
{
    let mut out: Vec<char> = Vec::new();
    let mut i: usize = 0;
    assert(cs@.skip(0) == cs@);
    while i < cs.len()
        invariant
            i <= cs.len(),
            out@ + spec_interleave(cs@.skip(i as int), rs@) == spec_interleave(cs@, rs@),
        decreases cs.len() - i,
    {
        let ghost rest = cs@.skip(i as int);
        let ghost before = out@;
        push_all(&mut out, rs);
        out.push(cs[i]);
        assert(rest.drop_first() == cs@.skip(i + 1));
        assert(rest[0] == cs@[i as int]);
        assert(out@ + spec_interleave(cs@.skip(i + 1), rs@) == before + (rs@ + seq![rest[0]]
            + spec_interleave(rest.drop_first(), rs@)));
        i = i + 1;
    }
    assert(cs@.skip(i as int) == Seq::<char>::empty());
    push_all(&mut out, rs);
    out
}

/// `str::replace(s, pat, rep)`.
pub fn replace(s: &str, pat: &str, rep: &str) -> (r: String)
    ensures
        r@ == spec_replace(s@, pat@, rep@),
{
    let cs = chars_of(s);
    let ps = chars_of(pat);
    let rs = chars_of(rep);
    if ps.len() == 0 {
        return string_of(&interleave(&cs, &rs));
    }
    let mut out: Vec<char> = Vec::new();
    let mut i: usize = 0;
    assert(cs@.skip(0) == cs@);
    while i < cs.len()
        invariant
            i <= cs.len(),
            cs@ == s@,
            ps@ == pat@,
            rs@ == rep@,
            pat@.len() > 0,
            out@ + spec_replace(cs@.skip(i as int), ps@, rs@) == spec_replace(s@, pat@, rep@),
        decreases cs.len() - i,
    {
        let ghost rest = cs@.skip(i as int);
        if matches_at(&cs, i, &ps) {
            let mut k: usize = 0;
            let ghost before = out@;
            while k < rs.len()
                invariant
                    k <= rs.len(),
                    out@ == before + rs@.take(k as int),
                decreases rs.len() - k,
            {
                out.push(rs[k]);
                assert(rs@.take(k + 1) == rs@.take(k as int).push(rs@[k as int]));
                k = k + 1;
            }
            assert(rs@.take(rs.len() as int) == rs@);
            assert(rest.skip(ps@.len() as int) == cs@.skip(i + ps.len()));
            assert(out@ + spec_replace(cs@.skip(i + ps.len()), ps@, rs@) == before + (rs@
                + spec_replace(rest.skip(ps@.len() as int), ps@, rs@)));
            i = i + ps.len();
        } else {
            let ghost before = out@;
            out.push(cs[i]);
            assert(rest.drop_first() == cs@.skip(i + 1));
            assert(rest[0] == cs@[i as int]);
            assert(out@ + spec_replace(cs@.skip(i + 1), ps@, rs@) == before + (seq![rest[0]]
                + spec_replace(rest.drop_first(), ps@, rs@)));
            i = i + 1;
        }
    }
    assert(cs@.skip(i as int).len() == 0);
    assert(out@ + Seq::<char>::empty() == out@);
    string_of(&out)
}

} // verus!
