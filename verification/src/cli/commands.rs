//! How the command-line tool reads its arguments.

use vstd::prelude::*;
use crate::text::{chars_of, push_char};
use crate::services::updater::index_of_char;
use crate::ai::history::str_eq;

verus! {

/// The process a DPI mode starts, as the tool reports it.
pub open spec fn mode_process(mode: Seq<char>) -> Seq<char> {
    if mode == "zapret"@ {
        "winws.exe"@
    } else if mode == "byedpi"@ {
        "ciadpi.exe"@
    } else if mode == "warp"@ {
        "warp-go"@
    } else if mode == "hybrid"@ {
        "zapret+byedpi"@
    } else if mode == "chained"@ {
        "warp→zapret"@
    } else {
        "unknown"@
    }
}

/// The process label of a mode.
pub fn engine_label(mode: &str) -> (r: &'static str)
    ensures
        r@ == mode_process(mode@),
{
    if str_eq(mode, "zapret") {
        "winws.exe"
    } else if str_eq(mode, "byedpi") {
        "ciadpi.exe"
    } else if str_eq(mode, "warp") {
        "warp-go"
    } else if str_eq(mode, "hybrid") {
        "zapret+byedpi"
    } else if str_eq(mode, "chained") {
        "warp→zapret"
    } else {
        "unknown"
    }
}

/// Unicode white space, as `char::is_whitespace` documents it (the
/// White_Space property).
pub open spec fn is_white(c: char) -> bool {
    let u = c as u32;
    (0x09 <= u <= 0x0d) || u == 0x20 || u == 0x85 || u == 0xa0 || u == 0x1680 || (0x2000 <= u
        <= 0x200a) || u == 0x2028 || u == 0x2029 || u == 0x202f || u == 0x205f || u == 0x3000
}

/// Whether a character is white space.
pub fn is_whitespace(c: char) -> (r: bool)
    ensures
        r == is_white(c),
{
    let u = c as u32;
    (0x09 <= u && u <= 0x0d) || u == 0x20 || u == 0x85 || u == 0xa0 || u == 0x1680 || (0x2000 <= u
        && u <= 0x200a) || u == 0x2028 || u == 0x2029 || u == 0x202f || u == 0x205f || u == 0x3000
}

/// The text without leading white space.
pub open spec fn trim_start(s: Seq<char>) -> Seq<char>
    decreases s.len(),
{
    if s.len() > 0 && is_white(s[0]) {
        trim_start(s.drop_first())
    } else {
        s
    }
}

/// The text without trailing white space.
pub open spec fn trim_end(s: Seq<char>) -> Seq<char>
    decreases s.len(),
{
    if s.len() > 0 && is_white(s.last()) {
        trim_end(s.drop_last())
    } else {
        s
    }
}

/// The text without white space at either end (`str::trim`).
pub open spec fn trimmed(s: Seq<char>) -> Seq<char> {
    trim_end(trim_start(s))
}

/// The part `lo..hi` of `cs`, without white space at either end.
fn trim_range(cs: &Vec<char>, lo: usize, hi: usize) -> (r: String)
    requires
        lo <= hi <= cs@.len(),
    ensures
        r@ == trimmed(cs@.subrange(lo as int, hi as int)),
{
    let mut a = lo;
    let ghost whole = cs@.subrange(lo as int, hi as int);
    assert(whole.skip(0) =~= whole);
    while a < hi && is_whitespace(cs[a])
        invariant
            lo <= a <= hi <= cs@.len(),
            whole == cs@.subrange(lo as int, hi as int),
            trim_start(whole) == trim_start(cs@.subrange(a as int, hi as int)),
        decreases hi - a,
    {
        assert(cs@.subrange(a as int, hi as int).drop_first() =~= cs@.subrange(a + 1, hi as int));
        a = a + 1;
    }
    let ghost front = cs@.subrange(a as int, hi as int);
    assert(trim_start(front) == front) by {
        if front.len() > 0 {
            assert(front[0] == cs@[a as int]);
        }
    }
    let mut b = hi;
    while b > a && is_whitespace(cs[b - 1])
        invariant
            a <= b <= hi <= cs@.len(),
            front == cs@.subrange(a as int, hi as int),
            trim_end(front) == trim_end(cs@.subrange(a as int, b as int)),
        decreases b - a,
    {
        assert(cs@.subrange(a as int, b as int).drop_last() =~= cs@.subrange(a as int, b - 1));
        b = b - 1;
    }
    let ghost core = cs@.subrange(a as int, b as int);
    assert(trim_end(core) == core) by {
        if core.len() > 0 {
            assert(core.last() == cs@[b - 1]);
        }
    }
    let mut r = String::new();
    let mut k = a;
    while k < b
        invariant
            a <= k <= b <= cs@.len(),
            r@ == cs@.subrange(a as int, k as int),
        decreases b - k,
    {
        push_char(&mut r, cs[k]);
        k = k + 1;
        assert(r@ =~= cs@.subrange(a as int, k as int));
    }
    r
}

/// The pieces of `s` between the separators `c`, in order (`str::split`).
pub open spec fn split_on(s: Seq<char>, c: char) -> Seq<Seq<char>>
    decreases s.len(),
{
    let i = index_of_char(s, c);
    if i < 0 {
        seq![s]
    } else {
        proof {
            crate::services::updater::lemma_index_of_char(s, c);
        }
        seq![s.take(i)] + split_on(s.skip(i + 1), c)
    }
}

/// The default probe targets.
pub open spec fn default_targets() -> Seq<Seq<char>> {
    seq!["google.com"@, "youtube.com"@, "telegram.org"@]
}

/// The targets of a probe: the comma-separated list given, each trimmed,
/// or the default targets.
pub fn parse_targets(arg: Option<&str>) -> (r: Vec<String>)
    ensures
        arg is None ==> r@.map_values(|s: String| s@) == default_targets(),
        arg matches Some(t) ==> r@.map_values(|s: String| s@) == split_on(t@, ',').map_values(
            |p: Seq<char>| trimmed(p),
        ),
{
    match arg {
        None => {
            let r = vec![String::from_str("google.com"), String::from_str("youtube.com"), String::from_str("telegram.org")];
            assert(r@.map_values(|s: String| s@) =~= default_targets());
            r
        },
        Some(t) => {
            let cs = chars_of(t);
            let len = cs.len();
            let mut out: Vec<String> = Vec::new();
            let mut start: usize = 0;
            let mut done = false;
            let ghost full = split_on(t@, ',').map_values(|p: Seq<char>| trimmed(p));
            assert(t@.skip(0) =~= t@);
            assert(out@.map_values(|s: String| s@) + full =~= full);
            while !done
                invariant
                    cs@ == t@,
                    len == cs@.len(),
                    start <= len,
                    full == split_on(t@, ',').map_values(|p: Seq<char>| trimmed(p)),
                    !done ==> full == out@.map_values(|s: String| s@) + split_on(t@.skip(start as int), ',').map_values(
                        |p: Seq<char>| trimmed(p),
                    ),
                    done ==> full == out@.map_values(|s: String| s@),
                decreases len - start + if done { 0int } else { 1int },
            {
                let ghost rest = t@.skip(start as int);
                proof {
                    crate::services::updater::lemma_index_of_char(rest, ',');
                }
                let mut j = start;
                while j < len && cs[j] != ','
                    invariant
                        start <= j <= len,
                        len == cs@.len(),
                        cs@ == t@,
                        forall|q: int| start <= q < j ==> #[trigger] cs@[q] != ',',
                    decreases len - j,
                {
                    j = j + 1;
                }
                let piece = trim_range(&cs, start, j);
                let ghost before = out@.map_values(|s: String| s@);
                proof {
                    let k = index_of_char(rest, ',');
                    if j < len {
                        assert(rest[j - start] == ',');
                        if k >= 0 && k < j - start {
                            assert(rest[k] == cs@[start + k]);
                        }
                        assert(k == j - start);
                        assert(rest.take(k) =~= cs@.subrange(start as int, j as int));
                        assert(rest.skip(k + 1) =~= t@.skip(j + 1));
                        assert(split_on(rest, ',') == seq![rest.take(k)] + split_on(rest.skip(k + 1), ','));
                    } else {
                        if k >= 0 {
                            assert(rest[k] == cs@[start + k]);
                        }
                        assert(rest =~= cs@.subrange(start as int, j as int));
                        assert(split_on(rest, ',') == seq![rest]);
                    }
                }
                out.push(piece);
                if j < len {
                    start = j + 1;
                    proof {
                        let a = split_on(rest, ',');
                        let b = split_on(t@.skip(start as int), ',');
                        assert(a.map_values(|p: Seq<char>| trimmed(p)) =~= seq![piece@] + b.map_values(|p: Seq<char>| trimmed(p)));
                        assert(out@.map_values(|s: String| s@) =~= before.push(piece@));
                        assert(full =~= out@.map_values(|s: String| s@) + b.map_values(|p: Seq<char>| trimmed(p)));
                    }
                } else {
                    done = true;
                    proof {
                        let a = split_on(rest, ',');
                        assert(a.map_values(|p: Seq<char>| trimmed(p)) =~= seq![piece@]);
                        assert(out@.map_values(|s: String| s@) =~= before.push(piece@));
                        assert(full =~= out@.map_values(|s: String| s@));
                    }
                }
            }
            out
        },
    }
}

/// The key and value of a `key=value` setting, each trimmed; `None` when
/// there is no `=` (`str::split_once`).
pub open spec fn setting_parts(kv: Seq<char>) -> Option<(Seq<char>, Seq<char>)> {
    let i = index_of_char(kv, '=');
    if i < 0 {
        None
    } else {
        Some((trimmed(kv.take(i)), trimmed(kv.skip(i + 1))))
    }
}

/// Splits a `key=value` setting at its first `=`, trimming both parts.
pub fn split_setting(kv: &str) -> (r: Option<(String, String)>)
    ensures
        r is None <==> setting_parts(kv@) is None,
        r matches Some(p) ==> setting_parts(kv@) == Some((p.0@, p.1@)),
{
    let cs = chars_of(kv);
    let len = cs.len();
    proof {
        crate::services::updater::lemma_index_of_char(kv@, '=');
    }
    let mut j: usize = 0;
    while j < len && cs[j] != '='
        invariant
            j <= len,
            len == cs@.len(),
            cs@ == kv@,
            forall|q: int| 0 <= q < j ==> #[trigger] cs@[q] != '=',
        decreases len - j,
    {
        j = j + 1;
    }
    if j == len {
        proof {
            let k = index_of_char(kv@, '=');
            if k >= 0 {
                assert(kv@[k] == cs@[k]);
            }
        }
        return None;
    }
    proof {
        let k = index_of_char(kv@, '=');
        if k >= 0 && k < j {
            assert(kv@[k] == cs@[k]);
        }
        assert(k == j);
        assert(kv@.take(k) =~= cs@.subrange(0, j as int));
        assert(kv@.skip(k + 1) =~= cs@.subrange(j + 1, len as int));
    }
    let key = trim_range(&cs, 0, j);
    let value = trim_range(&cs, j + 1, len);
    Some((key, value))
}

/// The network fingerprint the status command shows.
pub fn get_fingerprint() -> (r: String)
    ensures
        r@ == "a1b2c3d4e5f6..."@,
{
    String::from_str("a1b2c3d4e5f6...")
}

} // verus!
