//! The decisions of the bandit selector over plain values: the failure
//! back-off (per strategy, the streak of failures and the time until which
//! it is blocked), the Pareto front of score and latency, and the best and
//! least-tried candidates. Sampling and scoring work on floating point and
//! stay with the caller, which hands over order-preserving integer keys.

use vstd::prelude::*;
use crate::ai::history::str_eq;

verus! {

/// The back-off after the `streak`-th failure in a row, in milliseconds.
pub open spec fn backoff_of(streak: u32) -> u64 {
    if streak == 1 {
        300
    } else if streak == 2 {
        700
    } else if streak == 3 {
        1500
    } else {
        3000
    }
}

/// The back-off after the `streak`-th failure in a row: 300, 700 and
/// 1500 ms, then 3000 ms.
pub fn backoff_ms(streak: u32) -> (r: u64)
    ensures
        r == backoff_of(streak),
{
    match streak {
        1 => 300,
        2 => 700,
        3 => 1500,
        _ => 3000,
    }
}

/// An association list: its keys as texts, mapped to their values.
pub open spec fn assoc_map<V>(s: Seq<(String, V)>) -> Map<Seq<char>, V>
    decreases s.len(),
{
    if s.len() == 0 {
        Map::empty()
    } else {
        assoc_map(s.drop_last()).insert(s.last().0@, s.last().1)
    }
}

/// No key occurs twice.
pub open spec fn assoc_unique<V>(s: Seq<(String, V)>) -> bool {
    forall|i: int, j: int| 0 <= i < s.len() && 0 <= j < s.len() && i != j ==> #[trigger] s[i].0@ != #[trigger] s[j].0@
}

proof fn lemma_assoc_map<V>(s: Seq<(String, V)>)
    requires
        assoc_unique(s),
    ensures
        forall|k: Seq<char>| #[trigger] assoc_map(s).dom().contains(k) <==> exists|i: int| 0 <= i < s.len() && s[i].0@ == k,
        forall|i: int| 0 <= i < s.len() ==> #[trigger] assoc_map(s)[s[i].0@] == s[i].1,
    decreases s.len(),
{
    if s.len() > 0 {
        let p = s.drop_last();
        assert(assoc_unique(p)) by {
            assert forall|i: int, j: int| 0 <= i < p.len() && 0 <= j < p.len() && i != j implies #[trigger] p[i].0@ != #[trigger] p[j].0@ by {
                assert(p[i] == s[i] && p[j] == s[j]);
            }
        }
        lemma_assoc_map(p);
        assert forall|k: Seq<char>| #[trigger] assoc_map(s).dom().contains(k) <==> exists|i: int| 0 <= i < s.len() && s[i].0@ == k by {
            if assoc_map(p).dom().contains(k) {
                let i = choose|i: int| 0 <= i < p.len() && p[i].0@ == k;
                assert(s[i] == p[i]);
            }
            if exists|i: int| 0 <= i < s.len() && s[i].0@ == k {
                let i = choose|i: int| 0 <= i < s.len() && s[i].0@ == k;
                if i < s.len() - 1 {
                    assert(p[i] == s[i]);
                }
            }
        }
        assert forall|i: int| 0 <= i < s.len() implies #[trigger] assoc_map(s)[s[i].0@] == s[i].1 by {
            if i < s.len() - 1 {
                assert(p[i] == s[i]);
                assert(s[i].0@ != s[s.len() - 1].0@);
                assert(assoc_map(p)[p[i].0@] == p[i].1);
            }
        }
    }
}

fn find_key<V>(s: &Vec<(String, V)>, key: &str) -> (r: Option<usize>)
    requires
        assoc_unique(s@),
    ensures
        r is None ==> !assoc_map(s@).dom().contains(key@),
        r matches Some(i) ==> i < s@.len() && s@[i as int].0@ == key@ && assoc_map(s@).dom().contains(key@)
            && assoc_map(s@)[key@] == s@[i as int].1,
{
    let mut i: usize = 0;
    while i < s.len()
        invariant
            i <= s@.len(),
            assoc_unique(s@),
            forall|j: int| 0 <= j < i ==> #[trigger] s@[j].0@ != key@,
        decreases s@.len() - i,
    {
        if str_eq(s[i].0.as_str(), key) {
            proof {
                lemma_assoc_map(s@);
                assert(assoc_map(s@)[s@[i as int].0@] == s@[i as int].1);
            }
            return Some(i);
        }
        i = i + 1;
    }
    proof {
        lemma_assoc_map(s@);
        if assoc_map(s@).dom().contains(key@) {
            let j = choose|j: int| 0 <= j < s@.len() && s@[j].0@ == key@;
            assert(s@[j].0@ != key@);
        }
    }
    None
}

proof fn lemma_assoc_update<V>(s: Seq<(String, V)>, i: int, v: V)
    requires
        assoc_unique(s),
        0 <= i < s.len(),
    ensures
        assoc_unique(s.update(i, (s[i].0, v))),
        assoc_map(s.update(i, (s[i].0, v))) == assoc_map(s).insert(s[i].0@, v),
{
    let t = s.update(i, (s[i].0, v));
    assert(assoc_unique(t)) by {
        assert forall|a: int, b: int| 0 <= a < t.len() && 0 <= b < t.len() && a != b implies #[trigger] t[a].0@ != #[trigger] t[b].0@ by {
            assert(t[a].0 == s[a].0 && t[b].0 == s[b].0);
        }
    }
    lemma_assoc_map(s);
    lemma_assoc_map(t);
    assert(assoc_map(t) =~= assoc_map(s).insert(s[i].0@, v)) by {
        assert forall|k: Seq<char>| #[trigger] assoc_map(t).dom().contains(k) <==> assoc_map(s).insert(s[i].0@, v).dom().contains(k) by {
            if assoc_map(t).dom().contains(k) {
                let j = choose|j: int| 0 <= j < t.len() && t[j].0@ == k;
                assert(t[j].0 == s[j].0);
            }
            if assoc_map(s).dom().contains(k) {
                let j = choose|j: int| 0 <= j < s.len() && s[j].0@ == k;
                assert(t[j].0 == s[j].0);
            }
            if k == s[i].0@ {
                assert(t[i].0@ == k);
            }
        }
        assert forall|k: Seq<char>| #[trigger] assoc_map(t).dom().contains(k) implies assoc_map(t)[k] == assoc_map(s).insert(s[i].0@, v)[k] by {
            let j = choose|j: int| 0 <= j < t.len() && t[j].0@ == k;
            assert(assoc_map(t)[t[j].0@] == t[j].1);
            if j != i {
                assert(t[j] == s[j]);
                assert(assoc_map(s)[s[j].0@] == s[j].1);
            }
        }
    }
}

proof fn lemma_assoc_push<V>(s: Seq<(String, V)>, k: String, v: V)
    requires
        assoc_unique(s),
        !assoc_map(s).dom().contains(k@),
    ensures
        assoc_unique(s.push((k, v))),
        assoc_map(s.push((k, v))) == assoc_map(s).insert(k@, v),
{
    lemma_assoc_map(s);
    let t = s.push((k, v));
    assert(t.drop_last() =~= s);
    assert forall|a: int, b: int| 0 <= a < t.len() && 0 <= b < t.len() && a != b implies #[trigger] t[a].0@ != #[trigger] t[b].0@ by {
        if a < s.len() && b < s.len() {
            assert(t[a] == s[a] && t[b] == s[b]);
        } else if a < s.len() {
            assert(t[a] == s[a]);
        } else {
            assert(t[b] == s[b]);
        }
    }
}

proof fn lemma_assoc_remove<V>(s: Seq<(String, V)>, i: int)
    requires
        assoc_unique(s),
        0 <= i < s.len(),
    ensures
        assoc_unique(s.remove(i)),
        assoc_map(s.remove(i)) == assoc_map(s).remove(s[i].0@),
{
    let t = s.remove(i);
    assert forall|a: int, b: int| 0 <= a < t.len() && 0 <= b < t.len() && a != b implies #[trigger] t[a].0@ != #[trigger] t[b].0@ by {
        let sa = if a < i { a } else { a + 1 };
        let sb = if b < i { b } else { b + 1 };
        assert(t[a] == s[sa] && t[b] == s[sb]);
    }
    lemma_assoc_map(s);
    lemma_assoc_map(t);
    assert(assoc_map(t) =~= assoc_map(s).remove(s[i].0@)) by {
        assert forall|k: Seq<char>| #[trigger] assoc_map(t).dom().contains(k) <==> assoc_map(s).remove(s[i].0@).dom().contains(k) by {
            if assoc_map(t).dom().contains(k) {
                let j = choose|j: int| 0 <= j < t.len() && t[j].0@ == k;
                let sj = if j < i { j } else { j + 1 };
                assert(t[j] == s[sj]);
            }
            if assoc_map(s).dom().contains(k) && k != s[i].0@ {
                let j = choose|j: int| 0 <= j < s.len() && s[j].0@ == k;
                let tj = if j < i { j } else { j - 1 };
                assert(t[tj] == s[j]);
            }
        }
        assert forall|k: Seq<char>| #[trigger] assoc_map(t).dom().contains(k) implies assoc_map(t)[k] == assoc_map(s).remove(s[i].0@)[k] by {
            let j = choose|j: int| 0 <= j < t.len() && t[j].0@ == k;
            let sj = if j < i { j } else { j + 1 };
            assert(t[j] == s[sj]);
            assert(assoc_map(t)[t[j].0@] == t[j].1);
            assert(assoc_map(s)[s[sj].0@] == s[sj].1);
        }
    }
}

/// The failure streaks and blocks of the strategies, keyed by genome id
/// text.
pub struct FailureBackoff {
    failure_streak: Vec<(String, u32)>,
    blocked_until: Vec<(String, i64)>,
}

impl FailureBackoff {
    /// The failures in a row of each strategy that failed last.
    pub closed spec fn streaks(&self) -> Map<Seq<char>, u32> {
        assoc_map(self.failure_streak@)
    }

    /// The time (ms since the Unix epoch) until which each blocked strategy
    /// is blocked.
    pub closed spec fn blocks(&self) -> Map<Seq<char>, i64> {
        assoc_map(self.blocked_until@)
    }

    pub closed spec fn wf(&self) -> bool {
        assoc_unique(self.failure_streak@) && assoc_unique(self.blocked_until@)
    }

    pub fn new() -> (r: Self)
        ensures
            r.wf(),
            r.streaks() == Map::<Seq<char>, u32>::empty(),
            r.blocks() == Map::<Seq<char>, i64>::empty(),
    {
        FailureBackoff { failure_streak: Vec::new(), blocked_until: Vec::new() }
    }

    /// The failures in a row of a strategy (0 when it did not fail last).
    pub fn streak(&self, genome_id: &str) -> (r: u32)
        requires
            self.wf(),
        ensures
            r == if self.streaks().dom().contains(genome_id@) {
                self.streaks()[genome_id@]
            } else {
                0
            },
    {
        match find_key(&self.failure_streak, genome_id) {
            Some(i) => self.failure_streak[i].1,
            None => 0,
        }
    }

    /// A success clears the strategy's streak and block.
    pub fn register_success(&mut self, genome_id: &str)
        requires
            old(self).wf(),
        ensures
            final(self).wf(),
            final(self).streaks() == old(self).streaks().remove(genome_id@),
            final(self).blocks() == old(self).blocks().remove(genome_id@),
    {
        match find_key(&self.failure_streak, genome_id) {
            Some(i) => {
                proof {
                    lemma_assoc_remove(self.failure_streak@, i as int);
                }
                self.failure_streak.remove(i);
            },
            None => {
                assert(assoc_map(self.failure_streak@).remove(genome_id@) =~= assoc_map(self.failure_streak@));
            },
        }
        match find_key(&self.blocked_until, genome_id) {
            Some(i) => {
                proof {
                    lemma_assoc_remove(self.blocked_until@, i as int);
                }
                self.blocked_until.remove(i);
            },
            None => {
                assert(assoc_map(self.blocked_until@).remove(genome_id@) =~= assoc_map(self.blocked_until@));
            },
        }
    }

    /// A failure lengthens the strategy's streak by one; the back-off for
    /// the new streak is returned.
    pub fn register_failure(&mut self, genome_id: &str) -> (r: u64)
        requires
            old(self).wf(),
            old(self).streaks().dom().contains(genome_id@) ==> old(self).streaks()[genome_id@] < u32::MAX,
        ensures
            final(self).wf(),
            final(self).streaks() == old(self).streaks().insert(
                genome_id@,
                if old(self).streaks().dom().contains(genome_id@) {
                    (old(self).streaks()[genome_id@] + 1) as u32
                } else {
                    1u32
                },
            ),
            final(self).blocks() == old(self).blocks(),
            r == backoff_of(final(self).streaks()[genome_id@]),
    {
        let streak: u32 = match find_key(&self.failure_streak, genome_id) {
            Some(i) => {
                let s = self.failure_streak[i].1 + 1;
                let ghost old_list = self.failure_streak@;
                proof {
                    lemma_assoc_update(old_list, i as int, s);
                }
                let key = self.failure_streak[i].0.clone();
                self.failure_streak.set(i, (key, s));
                assert(self.failure_streak@ == old_list.update(i as int, (old_list[i as int].0, s)));
                s
            },
            None => {
                let key = String::from_str(genome_id);
                proof {
                    lemma_assoc_push(self.failure_streak@, key, 1u32);
                }
                self.failure_streak.push((key, 1));
                1
            },
        };
        backoff_ms(streak)
    }

    /// Blocks the strategy until `until_ms`, unless it is blocked longer
    /// already.
    pub fn block_until(&mut self, genome_id: &str, until_ms: i64)
        requires
            old(self).wf(),
        ensures
            final(self).wf(),
            final(self).streaks() == old(self).streaks(),
            final(self).blocks() == old(self).blocks().insert(
                genome_id@,
                if old(self).blocks().dom().contains(genome_id@) && old(self).blocks()[genome_id@] >= until_ms {
                    old(self).blocks()[genome_id@]
                } else {
                    until_ms
                },
            ),
    {
        match find_key(&self.blocked_until, genome_id) {
            Some(i) => {
                let cur = self.blocked_until[i].1;
                let ghost old_list = self.blocked_until@;
                if until_ms > cur {
                    proof {
                        lemma_assoc_update(old_list, i as int, until_ms);
                    }
                    let key = self.blocked_until[i].0.clone();
                    self.blocked_until.set(i, (key, until_ms));
                    assert(self.blocked_until@ == old_list.update(i as int, (old_list[i as int].0, until_ms)));
                } else {
                    assert(assoc_map(old_list).insert(genome_id@, cur) =~= assoc_map(old_list));
                }
            },
            None => {
                let key = String::from_str(genome_id);
                proof {
                    lemma_assoc_push(self.blocked_until@, key, until_ms);
                }
                self.blocked_until.push((key, until_ms));
            },
        }
    }

    /// Whether the strategy is blocked at time `now_ms`.
    pub fn is_blocked(&self, genome_id: &str, now_ms: i64) -> (r: bool)
        requires
            self.wf(),
        ensures
            r == (self.blocks().dom().contains(genome_id@) && self.blocks()[genome_id@] > now_ms),
    {
        match find_key(&self.blocked_until, genome_id) {
            Some(i) => self.blocked_until[i].1 > now_ms,
            None => false,
        }
    }

    /// The positions of the strategies not blocked at time `now_ms`, in
    /// order.
    pub fn unblocked(&self, genome_ids: &[String], now_ms: i64) -> (r: Vec<usize>)
        requires
            self.wf(),
        ensures
            forall|i: int| 0 <= i < r@.len() ==> #[trigger] r@[i] < genome_ids@.len(),
            forall|i: int, j: int| 0 <= i < j < r@.len() ==> #[trigger] r@[i] < #[trigger] r@[j],
            forall|k: usize|
                k < genome_ids@.len() ==> (#[trigger] r@.contains(k) <==> !(self.blocks().dom().contains(
                    genome_ids@[k as int]@,
                ) && self.blocks()[genome_ids@[k as int]@] > now_ms)),
    {
        let mut out: Vec<usize> = Vec::new();
        let mut k: usize = 0;
        while k < genome_ids.len()
            invariant
                self.wf(),
                k <= genome_ids@.len(),
                forall|i: int| 0 <= i < out@.len() ==> #[trigger] out@[i] < k,
                forall|i: int, j: int| 0 <= i < j < out@.len() ==> #[trigger] out@[i] < #[trigger] out@[j],
                forall|q: usize|
                    q < k ==> (#[trigger] out@.contains(q) <==> !(self.blocks().dom().contains(genome_ids@[q as int]@)
                        && self.blocks()[genome_ids@[q as int]@] > now_ms)),
            decreases genome_ids@.len() - k,
        {
            let blocked = self.is_blocked(genome_ids[k].as_str(), now_ms);
            let ghost before = out@;
            if !blocked {
                out.push(k);
            }
            proof {
                assert forall|q: usize|
                    q < k + 1 implies (#[trigger] out@.contains(q) <==> !(self.blocks().dom().contains(genome_ids@[q as int]@)
                        && self.blocks()[genome_ids@[q as int]@] > now_ms)) by {
                    if q < k {
                        if out@.contains(q) {
                            let j = choose|j: int| 0 <= j < out@.len() && out@[j] == q;
                            if j < before.len() {
                                assert(before[j] == q);
                            }
                        }
                        if before.contains(q) {
                            let j = choose|j: int| 0 <= j < before.len() && before[j] == q;
                            assert(out@[j] == q);
                        }
                    } else {
                        if !blocked {
                            assert(out@[before.len() as int] == q);
                        } else {
                            if out@.contains(q) {
                                let j = choose|j: int| 0 <= j < out@.len() && out@[j] == q;
                                assert(before[j] < k);
                            }
                        }
                    }
                }
            }
            k = k + 1;
        }
        out
    }
}

/// Candidate `j` dominates candidate `i`: a score at least as high and a
/// latency at least as low, strictly better in one of them. Scores and
/// latencies are order-preserving keys of the measured values.
pub open spec fn dominates(c: Seq<(u64, u64)>, j: int, i: int) -> bool {
    c[j].0 >= c[i].0 && c[j].1 <= c[i].1 && (c[j].0 > c[i].0 || c[j].1 < c[i].1)
}

/// Candidate `i` is on the Pareto front: no other candidate dominates it.
pub open spec fn on_front(c: Seq<(u64, u64)>, i: int) -> bool {
    forall|j: int| 0 <= j < c.len() && j != i ==> !#[trigger] dominates(c, j, i)
}

/// A best candidate below position `n`: the highest score, and among the
/// highest scores the lowest latency.
pub open spec fn best_below(c: Seq<(u64, u64)>, n: int, k: int) -> bool {
    &&& 0 <= k < n
    &&& forall|j: int| 0 <= j < n ==> c[j].0 < c[k].0 || (c[j].0 == c[k].0 && c[j].1 >= c[k].1)
}

/// Some candidate below `n` is a best one.
proof fn lemma_best_exists(c: Seq<(u64, u64)>, n: int) -> (k: int)
    requires
        0 < n <= c.len(),
    ensures
        best_below(c, n, k),
    decreases n,
{
    if n == 1 {
        0
    } else {
        let k = lemma_best_exists(c, n - 1);
        let last = n - 1;
        if c[last].0 > c[k].0 || (c[last].0 == c[k].0 && c[last].1 < c[k].1) {
            last
        } else {
            k
        }
    }
}

/// The Pareto front of score (higher is better) and latency (lower is
/// better): a candidate is on it exactly when no other candidate has a score
/// at least as high and a latency at least as low with one of them strictly
/// better; so a candidate's equal twin never pushes it off. A best candidate
/// (highest score, then lowest latency) is always on it, and so the front of
/// a non-empty candidate list is never empty.
pub proof fn pareto_front_laws(c: Seq<(u64, u64)>, i: int)
    requires
        0 <= i < c.len(),
    ensures
        on_front(c, i) <==> forall|j: int|
            0 <= j < c.len() && j != i ==> !(c[j].0 >= c[i].0 && c[j].1 <= c[i].1 && (c[j].0 > c[i].0
                || c[j].1 < c[i].1)),
        best_below(c, c.len() as int, i) ==> on_front(c, i),
        (forall|j: int| 0 <= j < c.len() && j != i ==> c[j] == c[i]) ==> on_front(c, i),
        exists|k: int| 0 <= k < c.len() && #[trigger] on_front(c, k),
{
    if on_front(c, i) {
        assert forall|j: int| 0 <= j < c.len() && j != i implies !(c[j].0 >= c[i].0 && c[j].1 <= c[i].1 && (
        c[j].0 > c[i].0 || c[j].1 < c[i].1)) by {
            assert(!dominates(c, j, i));
        }
    } else {
        let j = choose|j: int| 0 <= j < c.len() && j != i && #[trigger] dominates(c, j, i);
        assert(c[j].0 >= c[i].0 && c[j].1 <= c[i].1 && (c[j].0 > c[i].0 || c[j].1 < c[i].1));
    }
    let k = lemma_best_exists(c, c.len() as int);
    assert forall|j: int| 0 <= j < c.len() && j != k implies !#[trigger] dominates(c, j, k) by {}
    assert(on_front(c, k));
}

/// The positions of the candidates on the Pareto front of score (higher is
/// better) and latency (lower is better), in order.
pub fn pareto_front(candidates: &[(u64, u64)]) -> (r: Vec<usize>)
    ensures
        forall|a: int, b: int| 0 <= a < b < r@.len() ==> #[trigger] r@[a] < #[trigger] r@[b],
        forall|k: int| 0 <= k < r@.len() ==> #[trigger] r@[k] < candidates@.len(),
        forall|i: usize| i < candidates@.len() ==> (#[trigger] r@.contains(i) <==> on_front(candidates@, i as int)),
        candidates@.len() > 0 ==> r@.len() > 0,
{
    let n = candidates.len();
    let mut front: Vec<usize> = Vec::new();
    let mut i: usize = 0;
    while i < n
        invariant
            n == candidates@.len(),
            i <= n,
            forall|a: int, b: int| 0 <= a < b < front@.len() ==> #[trigger] front@[a] < #[trigger] front@[b],
            forall|k: int| 0 <= k < front@.len() ==> #[trigger] front@[k] < i,
            forall|q: usize| q < i ==> (#[trigger] front@.contains(q) <==> on_front(candidates@, q as int)),
        decreases n - i,
    {
        let mut dominated = false;
        let mut j: usize = 0;
        while j < n
            invariant
                n == candidates@.len(),
                i < n,
                j <= n,
                dominated <==> exists|k: int| 0 <= k < j && k != i && #[trigger] dominates(candidates@, k, i as int),
            decreases n - j,
        {
            if j != i {
                let (sj, lj) = candidates[j];
                let (si, li) = candidates[i];
                if sj >= si && lj <= li && (sj > si || lj < li) {
                    dominated = true;
                    assert(dominates(candidates@, j as int, i as int));
                }
            }
            j = j + 1;
        }
        let ghost before = front@;
        if !dominated {
            front.push(i);
        }
        proof {
            assert forall|q: usize| q < i + 1 implies (#[trigger] front@.contains(q) <==> on_front(candidates@, q as int)) by {
                if q < i {
                    if front@.contains(q) {
                        let k = choose|k: int| 0 <= k < front@.len() && front@[k] == q;
                        if k < before.len() {
                            assert(before[k] == q);
                        }
                    }
                    if before.contains(q) {
                        let k = choose|k: int| 0 <= k < before.len() && before[k] == q;
                        assert(front@[k] == q);
                    }
                } else {
                    if !dominated {
                        assert(front@[before.len() as int] == q);
                    } else {
                        if front@.contains(q) {
                            let k = choose|k: int| 0 <= k < front@.len() && front@[k] == q;
                            assert(before[k] < i);
                        }
                        let k = choose|k: int| 0 <= k < n && k != i && #[trigger] dominates(candidates@, k, i as int);
                        assert(!on_front(candidates@, i as int));
                    }
                }
            }
        }
        i = i + 1;
    }
    proof {
        if n > 0 {
            pareto_front_laws(candidates@, 0);
            let k = choose|k: int| 0 <= k < candidates@.len() && #[trigger] on_front(candidates@, k);
            assert(front@.contains(k as usize));
        }
    }
    front
}

/// The position of the highest key, the last one among equals (as
/// `Iterator::max_by` picks); `None` for no keys.
pub fn last_max(keys: &[u64]) -> (r: Option<usize>)
    ensures
        r is None <==> keys@.len() == 0,
        r matches Some(b) ==> b < keys@.len() && (forall|j: int| 0 <= j < keys@.len() ==> keys@[j] <= keys@[b as int])
            && (forall|j: int| b < j < keys@.len() ==> keys@[j] < keys@[b as int]),
{
    if keys.len() == 0 {
        return None;
    }
    let mut best: usize = 0;
    let mut j: usize = 1;
    while j < keys.len()
        invariant
            1 <= j <= keys@.len(),
            best < j,
            forall|k: int| 0 <= k < j ==> keys@[k] <= keys@[best as int],
            forall|k: int| best < k < j ==> keys@[k] < keys@[best as int],
        decreases keys@.len() - j,
    {
        if keys[j] >= keys[best] {
            best = j;
        }
        j = j + 1;
    }
    Some(best)
}

/// The position of the lowest key, the first one among equals; `None` for
/// no keys.
pub fn first_min(keys: &[u64]) -> (r: Option<usize>)
    ensures
        r is None <==> keys@.len() == 0,
        r matches Some(b) ==> b < keys@.len() && (forall|j: int| 0 <= j < keys@.len() ==> keys@[b as int] <= keys@[j])
            && (forall|j: int| 0 <= j < b ==> keys@[b as int] < keys@[j]),
{
    if keys.len() == 0 {
        return None;
    }
    let mut best: usize = 0;
    let mut j: usize = 1;
    while j < keys.len()
        invariant
            1 <= j <= keys@.len(),
            best < j,
            forall|k: int| 0 <= k < j ==> keys@[best as int] <= keys@[k],
            forall|k: int| 0 <= k < best ==> keys@[best as int] < keys@[k],
        decreases keys@.len() - j,
    {
        if keys[j] < keys[best] {
            best = j;
        }
        j = j + 1;
    }
    Some(best)
}

/// The back-off never shrinks as a streak of failures grows.
pub proof fn backoff_grows(a: u32, b: u32)
    requires
        1 <= a <= b,
    ensures
        backoff_of(a) <= backoff_of(b),
        backoff_of(b) <= 3000,
{
}

} // verus!
