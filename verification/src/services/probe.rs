//! Connectivity probing: the targets, the options, how a target is checked
//! and how the results are summarised. The checks themselves (HTTP, DNS,
//! TCP) are network I/O done by the caller.

use vstd::prelude::*;
use crate::text::append_u64;
use crate::text::dec_digits;

verus! {

/// A target to check.
#[derive(Debug)]
pub struct TargetEntry {
    /// Domain or IP.
    pub key: String,
    /// Kind of check: "http", "dns" or "tcp".
    pub check_type: String,
    /// Port of a TCP check.
    pub port: Option<u16>,
}

impl Clone for TargetEntry {
    fn clone(&self) -> (r: Self)
        ensures
            r.key == self.key,
            r.check_type == self.check_type,
            r.port == self.port,
    {
        TargetEntry { key: self.key.clone(), check_type: self.check_type.clone(), port: self.port }
    }
}

impl TargetEntry {
    /// An HTTP check of `domain`.
    pub fn http(domain: &str) -> (r: Self)
        ensures
            r.key@ == domain@,
            r.check_type@ == "http"@,
            r.port is None,
    {
        TargetEntry { key: String::from_str(domain), check_type: String::from_str("http"), port: None }
    }

    /// A DNS check of `domain`.
    pub fn dns(domain: &str) -> (r: Self)
        ensures
            r.key@ == domain@,
            r.check_type@ == "dns"@,
            r.port is None,
    {
        TargetEntry { key: String::from_str(domain), check_type: String::from_str("dns"), port: None }
    }

    /// A TCP check of `host` on `port`.
    pub fn tcp(host: &str, port: u16) -> (r: Self)
        ensures
            r.key@ == host@,
            r.check_type@ == "tcp"@,
            r.port == Some(port),
    {
        TargetEntry { key: String::from_str(host), check_type: String::from_str("tcp"), port: Some(port) }
    }
}

/// Probe options.
#[derive(Debug)]
pub struct ProbeOptions {
    /// Most checks run in parallel.
    pub max_parallel: usize,
    /// Timeout of one check.
    pub timeout_secs: u64,
    /// SOCKS5 proxy.
    pub socks5_host: Option<String>,
    pub socks5_port: Option<u16>,
    /// Wait for the engine process to settle (ms).
    pub stable_wait_ms: u64,
}

impl Default for ProbeOptions {
    /// Six parallel checks, five seconds each, no proxy, half a second to
    /// settle.
    fn default() -> (r: Self)
        ensures
            r.max_parallel == 6,
            r.timeout_secs == 5,
            r.socks5_host is None,
            r.socks5_port is None,
            r.stable_wait_ms == 500,
    {
        ProbeOptions {
            max_parallel: 6,
            timeout_secs: 5,
            socks5_host: None,
            socks5_port: None,
            stable_wait_ms: 500,
        }
    }
}

/// How a target is checked.
#[derive(Debug, Clone, Copy, PartialEq, Eq, Structural)]
pub enum CheckKind {
    /// A GET of `https://<key>/`.
    Http,
    /// A name lookup of the key.
    Dns,
    /// A TCP connection to `<key>:<port>`, port 443 when none is given.
    Tcp,
    /// Any other check type: the check fails with "unknown check type".
    Unknown,
}

pub open spec fn kind_of(check_type: Seq<char>) -> CheckKind {
    if check_type == "http"@ {
        CheckKind::Http
    } else if check_type == "dns"@ {
        CheckKind::Dns
    } else if check_type == "tcp"@ {
        CheckKind::Tcp
    } else {
        CheckKind::Unknown
    }
}

/// The kind of check a target asks for.
pub fn check_kind(target: &TargetEntry) -> (r: CheckKind)
    ensures
        r == kind_of(target.check_type@),
{
    let t = target.check_type.as_str();
    if crate::ai::history::str_eq(t, "http") {
        CheckKind::Http
    } else if crate::ai::history::str_eq(t, "dns") {
        CheckKind::Dns
    } else if crate::ai::history::str_eq(t, "tcp") {
        CheckKind::Tcp
    } else {
        CheckKind::Unknown
    }
}

/// The URL an HTTP check fetches: `https://<key>/`.
pub fn http_url(target: &TargetEntry) -> (r: String)
    ensures
        r@ == "https://"@ + target.key@ + "/"@,
{
    let mut s = String::from_str("https://");
    s.append(target.key.as_str());
    s.append("/");
    s
}

/// The address a TCP check connects to: `<key>:<port>`, port 443 when the
/// target has none.
pub fn tcp_address(target: &TargetEntry) -> (r: String)
    ensures
        r@ == target.key@ + ":"@ + dec_digits(
            match target.port {
                Some(p) => p as nat,
                None => 443,
            },
        ),
{
    let port: u16 = match target.port {
        Some(p) => p,
        None => 443,
    };
    let mut s = target.key.clone();
    s.append(":");
    append_u64(&mut s, port as u64);
    s
}

/// An HTTP check passes on a success or redirection status, and on 403
/// (the site answered).
pub open spec fn http_passes(status: u16) -> bool {
    (200 <= status < 400) || status == 403
}

/// Whether an HTTP status counts as reachable.
pub fn http_status_ok(status: u16) -> (r: bool)
    ensures
        r == http_passes(status),
{
    (200 <= status && status < 400) || status == 403
}

/// The keys of the failed checks, at most `limit`, in order.
pub open spec fn failed_keys(checks: Seq<(String, bool)>, limit: nat) -> Seq<Seq<char>>
    decreases checks.len(),
{
    if checks.len() == 0 || limit == 0 {
        Seq::empty()
    } else if !checks[0].1 {
        seq![checks[0].0@] + failed_keys(checks.drop_first(), (limit - 1) as nat)
    } else {
        failed_keys(checks.drop_first(), limit)
    }
}

/// Texts joined with `, `.
pub open spec fn joined(parts: Seq<Seq<char>>) -> Seq<char>
    decreases parts.len(),
{
    if parts.len() == 0 {
        Seq::empty()
    } else if parts.len() == 1 {
        parts[0]
    } else {
        joined(parts.drop_last()) + ", "@ + parts.last()
    }
}

/// The summary of a probe: "no targets", "all OK (p/t)", or
/// "OK p/t, failed: " and the first three failed keys.
pub open spec fn summary_text(passed: nat, total: nat, checks: Seq<(String, bool)>) -> Seq<char> {
    if total == 0 {
        "no targets"@
    } else if failed_keys(checks, 3).len() == 0 {
        "all OK ("@ + dec_digits(passed) + "/"@ + dec_digits(total) + ")"@
    } else {
        "OK "@ + dec_digits(passed) + "/"@ + dec_digits(total) + ", failed: "@ + joined(failed_keys(checks, 3))
    }
}

proof fn lemma_failed_keys_step(checks: Seq<(String, bool)>, i: int, limit: nat)
    requires
        0 <= i < checks.len(),
    ensures
        failed_keys(checks.skip(i), limit) == if limit == 0 {
            Seq::empty()
        } else if !checks[i].1 {
            seq![checks[i].0@] + failed_keys(checks.skip(i + 1), (limit - 1) as nat)
        } else {
            failed_keys(checks.skip(i + 1), limit)
        },
{
    assert(checks.skip(i).drop_first() =~= checks.skip(i + 1));
    assert(checks.skip(i)[0] == checks[i]);
}

proof fn lemma_failed_keys_len(checks: Seq<(String, bool)>, limit: nat)
    ensures
        failed_keys(checks, limit).len() <= limit,
    decreases checks.len(),
{
    if checks.len() > 0 && limit > 0 {
        if !checks[0].1 {
            lemma_failed_keys_len(checks.drop_first(), (limit - 1) as nat);
        } else {
            lemma_failed_keys_len(checks.drop_first(), limit);
        }
    }
}

/// The summary line of a probe with `passed` of `total` checks passing;
/// `checks` holds each check's key and whether it passed.
pub fn build_summary(passed: usize, total: usize, checks: &[(String, bool)]) -> (r: String)
    ensures
        r@ == summary_text(passed as nat, total as nat, checks@),
{
    if total == 0 {
        return String::from_str("no targets");
    }
    // collect the first three failed keys
    let mut failed: Vec<String> = Vec::new();
    let mut i: usize = 0;
    let ghost full = failed_keys(checks@, 3);
    proof {
        assert(checks@.skip(0) =~= checks@);
        lemma_failed_keys_len(checks@, 3);
    }
    while i < checks.len() && failed.len() < 3
        invariant
            i <= checks@.len(),
            failed@.len() <= 3,
            full == failed@.map_values(|s: String| s@) + failed_keys(checks@.skip(i as int), (3 - failed@.len()) as nat),
        decreases checks@.len() - i,
    {
        proof {
            lemma_failed_keys_step(checks@, i as int, (3 - failed@.len()) as nat);
        }
        let ghost before = failed@;
        if !checks[i].1 {
            failed.push(checks[i].0.clone());
            assert(failed@.map_values(|s: String| s@) =~= before.map_values(|s: String| s@) + seq![checks@[i as int].0@]);
        }
        i = i + 1;
    }
    proof {
        if i == checks@.len() {
            assert(checks@.skip(i as int) =~= Seq::<(String, bool)>::empty());
        }
        assert(full =~= failed@.map_values(|s: String| s@));
    }
    let mut s = String::new();
    if failed.len() == 0 {
        s.append("all OK (");
        append_u64(&mut s, passed as u64);
        s.append("/");
        append_u64(&mut s, total as u64);
        s.append(")");
    } else {
        s.append("OK ");
        append_u64(&mut s, passed as u64);
        s.append("/");
        append_u64(&mut s, total as u64);
        s.append(", failed: ");
        let mut k: usize = 0;
        let ghost head = s@;
        while k < failed.len()
            invariant
                k <= failed@.len(),
                failed@.len() > 0,
                k == 0 ==> s@ == head,
                k > 0 ==> s@ == head + joined(failed@.take(k as int).map_values(|x: String| x@)),
            decreases failed@.len() - k,
        {
            if k > 0 {
                s.append(", ");
            }
            s.append(failed[k].as_str());
            proof {
                let parts = failed@.take(k + 1).map_values(|x: String| x@);
                assert(parts.drop_last() =~= failed@.take(k as int).map_values(|x: String| x@));
                if k == 0 {
                    assert(joined(parts) == parts[0]);
                }
            }
            k = k + 1;
        }
        assert(failed@.take(failed@.len() as int) =~= failed@);
    }
    s
}

} // verus!
