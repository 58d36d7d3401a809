//! Where the Discord client's IPC socket may be found on Unix systems.
use vstd::prelude::*;
use crate::util::chars::string_from_str;
use crate::util::number::{spec_decimal, u64_to_decimal};

verus! {

/// The value of an optional variable as a one-element or empty list.
pub open spec fn opt_seq(v: Option<Seq<char>>) -> Seq<Seq<char>> {
    match v {
        Some(s) => seq![s],
        None => Seq::empty(),
    }
}

/// The texts of optional strings.
pub open spec fn opt_text(v: Option<String>) -> Option<Seq<char>> {
    match v {
        Some(s) => Some(s@),
        None => None,
    }
}

/// The directories searched for the socket, in order, given the variables
/// `XDG_RUNTIME_DIR`, `TMPDIR`, `TMP` and `TEMP`: the runtime directory, the
/// Flatpak client's directory under it (or under /tmp), the temporary
/// directories, and /tmp.
pub open spec fn spec_socket_dirs(
    xdg: Option<Seq<char>>,
    tmpdir: Option<Seq<char>>,
    tmp: Option<Seq<char>>,
    temp: Option<Seq<char>>,
) -> Seq<Seq<char>> {
    let flatpak = (match xdg {
        Some(x) => x,
        None => "/tmp"@,
    }) + "/app/com.discordapp.Discord/"@;
    opt_seq(xdg) + seq![flatpak] + opt_seq(tmpdir) + opt_seq(tmp) + opt_seq(temp) + seq!["/tmp"@]
}

fn push_opt(out: &mut Vec<String>, v: &Option<String>)
    ensures
        final(out)@.map_values(|s: String| s@) == old(out)@.map_values(|s: String| s@) + opt_seq(
            opt_text(*v),
        ),
{
    let ghost before = out@;
    if let Some(s) = v {
        out.push(string_from_str(s.as_str()));
        assert(out@.map_values(|s: String| s@) == before.map_values(|s: String| s@).push(s@));
    }
    assert(out@.map_values(|s: String| s@) == before.map_values(|s: String| s@) + opt_seq(
        opt_text(*v),
    ));
}

/// The directories searched for the socket, in order.
pub fn socket_dirs(
    xdg: &Option<String>,
    tmpdir: &Option<String>,
    tmp: &Option<String>,
    temp: &Option<String>,
) -> (r: Vec<String>)
    ensures
        r@.map_values(|s: String| s@) == spec_socket_dirs(
            opt_text(*xdg),
            opt_text(*tmpdir),
            opt_text(*tmp),
            opt_text(*temp),
        ),
{
    let mut out: Vec<String> = Vec::new();
    assert(out@.map_values(|s: String| s@) == Seq::<Seq<char>>::empty());
    push_opt(&mut out, xdg);
    let mut flatpak = match xdg {
        Some(x) => string_from_str(x.as_str()),
        None => string_from_str("/tmp"),
    };
    flatpak.append("/app/com.discordapp.Discord/");
    let ghost before = out@;
    out.push(flatpak);
    assert(out@.map_values(|s: String| s@) == before.map_values(|s: String| s@).push(flatpak@));
    push_opt(&mut out, tmpdir);
    push_opt(&mut out, tmp);
    push_opt(&mut out, temp);
    let ghost before = out@;
    let t = string_from_str("/tmp");
    out.push(t);
    assert(out@.map_values(|s: String| s@) == before.map_values(|s: String| s@).push(t@));
    out
}

/// The path of the `n`th socket in `dir`.
pub open spec fn spec_socket_path(dir: Seq<char>, n: nat) -> Seq<char> {
    dir + "/discord-ipc-"@ + spec_decimal(n as int)
}

/// The path of the `n`th socket in `dir`.
pub fn socket_path(dir: &str, n: u64) -> (r: String)
    ensures
        r@ == spec_socket_path(dir@, n as nat),
{
    let mut r = string_from_str(dir);
    r.append("/discord-ipc-");
    r.append(u64_to_decimal(n).as_str());
    r
}

/// Every path tried, in order: sockets 0 to 9 in each directory.
pub fn socket_candidates(dirs: &Vec<String>) -> (r: Vec<String>)
    ensures
        r@.len() == 10 * dirs@.len(),
        forall|d: int, n: int|
            0 <= d < dirs@.len() && 0 <= n < 10 ==> #[trigger] r@[10 * d + n]@ == spec_socket_path(
                dirs@[d]@,
                n as nat,
            ),
{
    let mut out: Vec<String> = Vec::new();
    let mut d: usize = 0;
    while d < dirs.len()
        invariant
            d <= dirs.len(),
            out@.len() == 10 * d,
            forall|e: int, n: int|
                0 <= e < d && 0 <= n < 10 ==> #[trigger] out@[10 * e + n]@ == spec_socket_path(
                    dirs@[e]@,
                    n as nat,
                ),
        decreases dirs.len() - d,
    {
        let mut n: u64 = 0;
        while n < 10
            invariant
                d < dirs.len(),
                n <= 10,
                out@.len() == 10 * d + n,
                forall|e: int, m: int|
                    0 <= e < d && 0 <= m < 10 ==> #[trigger] out@[10 * e + m]@ == spec_socket_path(
                        dirs@[e]@,
                        m as nat,
                    ),
                forall|m: int|
                    0 <= m < n ==> #[trigger] out@[10 * d + m]@ == spec_socket_path(
                        dirs@[d as int]@,
                        m as nat,
                    ),
            decreases 10 - n,
        {
            let p = socket_path(dirs[d].as_str(), n);
            out.push(p);
            n = n + 1;
        }
        d = d + 1;
    }
    out
}

} // verus!
