//! Self-update decisions: which GitHub release is newer than the running
//! version. Fetching the release is network I/O done by the caller, which
//! hands over what came back.

use vstd::prelude::*;
use crate::text::chars_of;
use crate::text::push_char;
use crate::ai::history::str_eq;

verus! {

/// Update channel.
#[derive(Debug, Clone, Copy, PartialEq, Eq, Structural)]
pub enum UpdateChannel {
    Stable,
    Beta,
    Nightly,
}

pub open spec fn channel_name(c: UpdateChannel) -> Seq<char> {
    match c {
        UpdateChannel::Stable => "stable"@,
        UpdateChannel::Beta => "beta"@,
        UpdateChannel::Nightly => "nightly"@,
    }
}

impl UpdateChannel {
    pub fn as_str(&self) -> (r: &'static str)
        ensures
            r@ == channel_name(*self),
    {
        match self {
            UpdateChannel::Stable => "stable",
            UpdateChannel::Beta => "beta",
            UpdateChannel::Nightly => "nightly",
        }
    }
}

/// An available update.
#[derive(Debug)]
pub struct UpdateInfo {
    pub version: String,
    pub url: String,
    pub published_at: String,
    pub body: String,
    pub channel: UpdateChannel,
}

/// The fields of a GitHub release that an update check reads.
#[derive(Debug)]
pub struct GitHubRelease {
    pub tag_name: String,
    pub html_url: String,
    pub body: Option<String>,
    pub published_at: String,
    pub prerelease: bool,
}

/// What fetching the latest release gave.
#[derive(Debug)]
pub enum ReleaseFetch {
    /// The request failed (no network, ...), with the error text.
    Unreachable(String),
    /// The server answered with a status other than success: its code and
    /// its text (such as "500 Internal Server Error").
    HttpError { code: u16, text: String },
    /// The body is not a release, with the parser's message.
    Malformed(String),
    /// The latest release.
    Release(GitHubRelease),
}

/// The text without its leading `v`s.
pub open spec fn strip_v(s: Seq<char>) -> Seq<char>
    decreases s.len(),
{
    if s.len() > 0 && s[0] == 'v' {
        strip_v(s.drop_first())
    } else {
        s
    }
}

/// A string without its leading `v`s.
pub fn strip_leading_v(s: &str) -> (r: String)
    ensures
        r@ == strip_v(s@),
{
    let cs = chars_of(s);
    let mut i: usize = 0;
    assert(s@.skip(0) =~= s@);
    while i < cs.len() && cs[i] == 'v'
        invariant
            i <= cs@.len(),
            cs@ == s@,
            strip_v(s@) == strip_v(s@.skip(i as int)),
        decreases cs@.len() - i,
    {
        assert(s@.skip(i as int).drop_first() =~= s@.skip(i + 1));
        i = i + 1;
    }
    let mut r = String::new();
    let start = i;
    let ghost tail = s@.skip(start as int);
    assert(strip_v(tail) == tail) by {
        if tail.len() > 0 {
            assert(tail[0] == cs@[start as int]);
        }
    }
    while i < cs.len()
        invariant
            start <= i <= cs@.len(),
            cs@ == s@,
            r@ == s@.subrange(start as int, i as int),
        decreases cs@.len() - i,
    {
        push_char(&mut r, cs[i]);
        i = i + 1;
        assert(r@ =~= s@.subrange(start as int, i as int));
    }
    assert(r@ =~= tail);
    r
}

/// The index of the first `c` in `s`, or -1.
pub open spec fn index_of_char(s: Seq<char>, c: char) -> int
    decreases s.len(),
{
    if s.len() == 0 {
        -1
    } else if s[0] == c {
        0
    } else {
        let r = index_of_char(s.drop_first(), c);
        if r < 0 {
            -1
        } else {
            r + 1
        }
    }
}

/// Where the first `c` of a text stands: -1 when there is none, otherwise
/// an index holding `c` with no `c` before it.
pub proof fn lemma_index_of_char(s: Seq<char>, c: char)
    ensures
        -1 <= index_of_char(s, c) < s.len(),
        index_of_char(s, c) >= 0 ==> s[index_of_char(s, c)] == c,
        forall|j: int| 0 <= j < s.len() && (index_of_char(s, c) < 0 || j < index_of_char(s, c)) ==> #[trigger] s[j] != c,
    decreases s.len(),
{
    if s.len() > 0 && s[0] != c {
        lemma_index_of_char(s.drop_first(), c);
        assert forall|j: int| 0 <= j < s.len() && (index_of_char(s, c) < 0 || j < index_of_char(s, c)) implies #[trigger] s[j] != c by {
            if j > 0 {
                assert(s.drop_first()[j - 1] == s[j]);
            }
        }
    }
}

/// The position of the first `c` in `cs` from `from` on.
fn find_char(cs: &Vec<char>, from: usize, c: char) -> (r: Option<usize>)
    requires
        from <= cs@.len(),
    ensures
        r is None ==> index_of_char(cs@.skip(from as int), c) < 0,
        r matches Some(i) ==> from <= i < cs@.len() && i - from == index_of_char(cs@.skip(from as int), c),
{
    let mut i: usize = from;
    proof {
        lemma_index_of_char(cs@.skip(from as int), c);
    }
    while i < cs.len()
        invariant
            from <= i <= cs@.len(),
            forall|j: int| from <= j < i ==> #[trigger] cs@[j] != c,
        decreases cs@.len() - i,
    {
        if cs[i] == c {
            proof {
                let t = cs@.skip(from as int);
                lemma_index_of_char(t, c);
                let k = index_of_char(t, c);
                assert(t[i - from] == c);
                if k < 0 || k > i - from {
                    assert(t[i - from] != c);
                }
                if k >= 0 && k < i - from {
                    assert(t[k] == cs@[from + k]);
                }
            }
            return Some(i);
        }
        i = i + 1;
    }
    proof {
        let t = cs@.skip(from as int);
        lemma_index_of_char(t, c);
        let k = index_of_char(t, c);
        if k >= 0 {
            assert(t[k] == cs@[from + k]);
        }
    }
    None
}

fn text_of(cs: &Vec<char>, lo: usize, hi: usize) -> (r: String)
    requires
        lo <= hi <= cs@.len(),
    ensures
        r@ == cs@.subrange(lo as int, hi as int),
{
    let mut r = String::new();
    let mut i: usize = lo;
    while i < hi
        invariant
            lo <= i <= hi <= cs@.len(),
            r@ == cs@.subrange(lo as int, i as int),
        decreases hi - i,
    {
        push_char(&mut r, cs[i]);
        i = i + 1;
        assert(r@ =~= cs@.subrange(lo as int, i as int));
    }
    r
}

/// The owner part of `owner/name`: the text before the first `/`, or all
/// of it.
pub open spec fn repo_owner_of(repo: Seq<char>) -> Seq<char> {
    let i = index_of_char(repo, '/');
    if i < 0 {
        repo
    } else {
        repo.take(i)
    }
}

/// The name part of `owner/name`: the text between the first and the next
/// `/`, or "BSDPI_AI" when there is no `/`.
pub open spec fn repo_name_of(repo: Seq<char>) -> Seq<char> {
    let i = index_of_char(repo, '/');
    if i < 0 {
        "BSDPI_AI"@
    } else {
        let rest = repo.skip(i + 1);
        let j = index_of_char(rest, '/');
        if j < 0 {
            rest
        } else {
            rest.take(j)
        }
    }
}

/// The release API address of a repository.
pub open spec fn latest_release_url(owner: Seq<char>, name: Seq<char>) -> Seq<char> {
    "https://api.github.com/repos/"@ + owner + "/"@ + name + "/releases/latest"@
}

fn release_url_of(owner: &str, name: &str) -> (r: String)
    ensures
        r@ == latest_release_url(owner@, name@),
{
    let mut s = String::from_str("https://api.github.com/repos/");
    s.append(owner);
    s.append("/");
    s.append(name);
    s.append("/releases/latest");
    s
}

/// The error text of a failed check: the server's status, or the parser's
/// message.
pub open spec fn fetch_error_text(f: ReleaseFetch) -> Seq<char> {
    match f {
        ReleaseFetch::HttpError { text, .. } => "GitHub API: HTTP "@ + text@,
        ReleaseFetch::Malformed(m) => "Failed to parse release: "@ + m@,
        _ => Seq::empty(),
    }
}

/// The outcome of an update check, by what the fetch gave: no update when
/// unreachable, on 404, or when the release is the running version (leading
/// `v`s aside); an error for any other failure.
pub open spec fn check_fails(f: ReleaseFetch) -> bool {
    (f matches ReleaseFetch::HttpError { code, .. } && code != 404) || f is Malformed
}

pub open spec fn is_newer(f: ReleaseFetch, current: Seq<char>) -> bool {
    f matches ReleaseFetch::Release(rel) && strip_v(rel.tag_name@) != strip_v(current)
}

fn fetch_error(fetch: &ReleaseFetch) -> (r: String)
    requires
        check_fails(*fetch),
    ensures
        r@ == fetch_error_text(*fetch),
{
    match fetch {
        ReleaseFetch::HttpError { text, .. } => {
            let mut s = String::from_str("GitHub API: HTTP ");
            s.append(text.as_str());
            s
        },
        ReleaseFetch::Malformed(m) => {
            let mut s = String::from_str("Failed to parse release: ");
            s.append(m.as_str());
            s
        },
        _ => String::new(),
    }
}

/// The self-updater of a GitHub repository.
pub struct SelfUpdater {
    repo_owner: String,
    repo_name: String,
    current_version: String,
    channel: UpdateChannel,
}

impl SelfUpdater {
    pub closed spec fn spec_owner(&self) -> Seq<char> {
        self.repo_owner@
    }

    pub closed spec fn spec_name(&self) -> Seq<char> {
        self.repo_name@
    }

    pub closed spec fn spec_version(&self) -> Seq<char> {
        self.current_version@
    }

    pub closed spec fn spec_channel(&self) -> UpdateChannel {
        self.channel
    }

    /// An updater for repository `owner/name`, running `current_version`.
    pub fn new(repo: &str, current_version: &str, channel: UpdateChannel) -> (r: Self)
        ensures
            r.spec_owner() == repo_owner_of(repo@),
            r.spec_name() == repo_name_of(repo@),
            r.spec_version() == current_version@,
            r.spec_channel() == channel,
    {
        let cs = chars_of(repo);
        let len = cs.len();
        proof {
            lemma_index_of_char(repo@, '/');
            assert(cs@.skip(0) =~= cs@);
        }
        let (owner, name) = match find_char(&cs, 0, '/') {
            None => {
                let o = text_of(&cs, 0, cs.len());
                assert(cs@.subrange(0, cs@.len() as int) =~= repo@);
                (o, String::from_str("BSDPI_AI"))
            },
            Some(i) => {
                let o = text_of(&cs, 0, i);
                assert(cs@.subrange(0, i as int) =~= repo@.take(i as int));
                proof {
                    assert(cs@.skip(i + 1) =~= repo@.skip(i + 1));
                }
                let n = match find_char(&cs, i + 1, '/') {
                    None => {
                        let t = text_of(&cs, i + 1, cs.len());
                        assert(cs@.subrange(i + 1, cs@.len() as int) =~= repo@.skip(i + 1));
                        t
                    },
                    Some(j) => {
                        let t = text_of(&cs, i + 1, j);
                        assert(cs@.subrange(i + 1, j as int) =~= repo@.skip(i + 1).take(j - (i + 1)));
                        t
                    },
                };
                (o, n)
            },
        };
        SelfUpdater {
            repo_owner: owner,
            repo_name: name,
            current_version: String::from_str(current_version),
            channel,
        }
    }

    /// The running version.
    pub fn current_version(&self) -> (r: &str)
        ensures
            r@ == self.spec_version(),
    {
        self.current_version.as_str()
    }

    /// The update channel.
    pub fn channel(&self) -> (r: UpdateChannel)
        ensures
            r == self.spec_channel(),
    {
        self.channel
    }

    /// The repository as `owner/name`.
    pub fn repo(&self) -> (r: String)
        ensures
            r@ == self.spec_owner() + "/"@ + self.spec_name(),
    {
        let mut s = self.repo_owner.clone();
        s.append("/");
        s.append(self.repo_name.as_str());
        s
    }

    /// The address of the latest-release API of the repository.
    pub fn release_url(&self) -> (r: String)
        ensures
            r@ == latest_release_url(self.spec_owner(), self.spec_name()),
    {
        release_url_of(self.repo_owner.as_str(), self.repo_name.as_str())
    }

    /// The update, if any, that a fetch of the latest release shows.
    pub fn check_update_with(&self, fetch: ReleaseFetch) -> (r: Result<Option<UpdateInfo>, String>)
        ensures
            check_fails(fetch) <==> r is Err,
            r matches Err(m) ==> m@ == fetch_error_text(fetch),
            (r matches Ok(Some(_))) <==> is_newer(fetch, self.spec_version()),
            r matches Ok(Some(u)) ==> (fetch matches ReleaseFetch::Release(rel) && u.version == rel.tag_name
                && u.url == rel.html_url && u.published_at == rel.published_at && u.channel
                == self.spec_channel() && u.body@ == match rel.body {
                Some(b) => b@,
                None => Seq::<char>::empty(),
            }),
    {
        if check_fails_exec(&fetch) {
            return Err(fetch_error(&fetch));
        }
        match fetch {
            ReleaseFetch::Release(rel) => {
                let latest = strip_leading_v(rel.tag_name.as_str());
                let current = strip_leading_v(self.current_version.as_str());
                if str_eq(latest.as_str(), current.as_str()) {
                    return Ok(None);
                }
                let body = match rel.body {
                    Some(b) => b,
                    None => String::new(),
                };
                Ok(Some(UpdateInfo {
                    version: rel.tag_name,
                    url: rel.html_url,
                    published_at: rel.published_at,
                    body,
                    channel: self.channel,
                }))
            },
            _ => Ok(None),
        }
    }
}

fn check_fails_exec(fetch: &ReleaseFetch) -> (r: bool)
    ensures
        r == check_fails(*fetch),
{
    match fetch {
        ReleaseFetch::HttpError { code, .. } => *code != 404,
        ReleaseFetch::Malformed(_) => true,
        _ => false,
    }
}

} // verus!
