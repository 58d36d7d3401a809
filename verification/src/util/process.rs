//! Recognising another running copy of the overlay.
use vstd::prelude::*;
use crate::util::chars::{chars_of, spec_ascii_lowercase, to_ascii_lowercase};

verus! {

/// Whether `pat` occurs in `s` at position `k`.
pub open spec fn occurs_at(s: Seq<char>, pat: Seq<char>, k: int) -> bool {
    0 <= k && k + pat.len() <= s.len() && s.subrange(k, k + pat.len()) == pat
}

/// Whether `pat` occurs in `s` (`str::contains`).
pub open spec fn contains_text(s: Seq<char>, pat: Seq<char>) -> bool {
    exists|k: int| occurs_at(s, pat, k)
}

/// Whether `pat` occurs in `s`.
pub fn text_contains(s: &Vec<char>, pat: &Vec<char>) -> (r: bool)
    ensures
        r == contains_text(s@, pat@),
{
    if pat.len() > s.len() {
        return false;
    }
    let mut k: usize = 0;
    while k <= s.len() - pat.len()
        invariant
            pat.len() <= s.len(),
            k <= s.len() - pat.len() + 1,
            forall|m: int| 0 <= m < k ==> !occurs_at(s@, pat@, m),
        decreases s.len() - k,
    {
        let mut j: usize = 0;
        while j < pat.len() && s[k + j] == pat[j]
            invariant
                k + pat.len() <= s.len(),
                j <= pat.len(),
                forall|t: int| 0 <= t < j ==> s@[k + t] == pat@[t],
            decreases pat.len() - j,
        {
            j = j + 1;
        }
        if j == pat.len() {
            assert(s@.subrange(k as int, k + pat.len()) =~= pat@);
            assert(occurs_at(s@, pat@, k as int));
            return true;
        }
        assert(s@.subrange(k as int, k + pat.len())[j as int] != pat@[j as int]);
        k = k + 1;
    }
    assert forall|m: int| !occurs_at(s@, pat@, m) by {
        if 0 <= m < k {
        }
    }
    false
}

/// Whether a process is another copy of the overlay: its name, ignoring ASCII
/// case, holds "orbolay", and it is not this process.
pub open spec fn is_other_instance(name: Seq<char>, pid: u32, own_pid: u32) -> bool {
    contains_text(spec_ascii_lowercase(name), "orbolay"@) && pid != own_pid
}

/// Whether another copy of the overlay runs among `processes` (name and id
/// of each; a name that is not valid text is given as the empty text).
pub fn is_already_running(processes: &Vec<(String, u32)>, own_pid: u32) -> (r: bool)
    ensures
        r == exists|i: int|
            0 <= i < processes@.len() && #[trigger] is_other_instance(
                processes@[i].0@,
                processes@[i].1,
                own_pid,
            ),
{
    let pat = chars_of("orbolay");
    let mut i: usize = 0;
    while i < processes.len()
        invariant
            i <= processes.len(),
            pat@ == "orbolay"@,
            forall|m: int|
                0 <= m < i ==> !#[trigger] is_other_instance(
                    processes@[m].0@,
                    processes@[m].1,
                    own_pid,
                ),
        decreases processes.len() - i,
    {
        let (name, pid) = &processes[i];
        let lower = to_ascii_lowercase(name.as_str());
        if text_contains(&lower, &pat) && *pid != own_pid {
            assert(is_other_instance(processes@[i as int].0@, processes@[i as int].1, own_pid));
            return true;
        }
        i = i + 1;
    }
    false
}

} // verus!
