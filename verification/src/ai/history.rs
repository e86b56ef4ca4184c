//! AiHistoryStore: the append-only log of strategy trials.
//!
//! The store holds the records in memory, in the order they were appended,
//! and keeps at most a configured number of them: when an append exceeds
//! the limit, only the most recent half is kept. Reading and writing the
//! JSON-lines file that backs a store is the caller's business.

use vstd::prelude::*;
use crate::ai::error::AiError;
use crate::outside::now_millis;

verus! {

/// One trial of a strategy on a network.
#[derive(Debug)]
pub struct HistoryRecord {
    /// Id of the genome that was tried.
    pub genome_id: u128,
    /// Hash of the network.
    pub network_hash: String,
    /// Success score (0-100).
    pub score: i32,
    /// The latency in milliseconds, as the bit pattern of an IEEE 754
    /// double (`f64::to_bits`).
    pub latency_bits: u64,
    /// Time of the trial (ms since the Unix epoch).
    pub timestamp: i64,
    /// Free-form metadata (strategy, error, ...), each key at most once.
    pub metadata: Vec<(String, String)>,
}

/// Mathematical model of a record.
pub struct RecordView {
    pub genome_id: u128,
    pub network_hash: Seq<char>,
    pub score: i32,
    pub latency_bits: u64,
    pub timestamp: i64,
    pub metadata: Seq<(Seq<char>, Seq<char>)>,
}

impl View for HistoryRecord {
    type V = RecordView;

    open spec fn view(&self) -> RecordView {
        RecordView {
            genome_id: self.genome_id,
            network_hash: self.network_hash@,
            score: self.score,
            latency_bits: self.latency_bits,
            timestamp: self.timestamp,
            metadata: pairs_view(self.metadata@),
        }
    }
}

/// The texts of metadata pairs.
pub open spec fn pairs_view(s: Seq<(String, String)>) -> Seq<(Seq<char>, Seq<char>)> {
    Seq::new(s.len(), |i: int| (s[i].0@, s[i].1@))
}

/// No metadata key occurs twice.
pub open spec fn keys_unique(m: Seq<(Seq<char>, Seq<char>)>) -> bool {
    forall|i: int, j: int| 0 <= i < m.len() && 0 <= j < m.len() && i != j ==> #[trigger] m[i].0 != #[trigger] m[j].0
}

/// Metadata after setting `key` to `value`: an existing entry of the key
/// takes the new value in place; otherwise the entry is added at the end.
pub open spec fn meta_set(m: Seq<(Seq<char>, Seq<char>)>, key: Seq<char>, value: Seq<char>) -> Seq<(Seq<char>, Seq<char>)> {
    if exists|i: int| 0 <= i < m.len() && #[trigger] m[i].0 == key {
        let i = choose|i: int| 0 <= i < m.len() && #[trigger] m[i].0 == key;
        m.update(i, (key, value))
    } else {
        m.push((key, value))
    }
}

fn clone_pairs(v: &Vec<(String, String)>) -> (r: Vec<(String, String)>)
    ensures
        pairs_view(r@) == pairs_view(v@),
{
    let mut r: Vec<(String, String)> = Vec::new();
    let mut i: usize = 0;
    while i < v.len()
        invariant
            i <= v@.len(),
            r@.len() == i,
            pairs_view(r@) == pairs_view(v@.take(i as int)),
        decreases v@.len() - i,
    {
        let p = &v[i];
        let ghost old_r = r@;
        r.push((p.0.clone(), p.1.clone()));
        proof {
            assert forall|j: int| 0 <= j < i + 1 implies #[trigger] pairs_view(r@)[j] == pairs_view(v@.take(i + 1))[j] by {
                if j < i {
                    assert(pairs_view(old_r)[j] == pairs_view(v@.take(i as int))[j]);
                }
            }
        }
        i = i + 1;
        assert(pairs_view(r@) =~= pairs_view(v@.take(i as int)));
    }
    assert(v@.take(v@.len() as int) =~= v@);
    r
}

impl Clone for HistoryRecord {
    fn clone(&self) -> (r: Self)
        ensures
            r@ == self@,
    {
        HistoryRecord {
            genome_id: self.genome_id,
            network_hash: self.network_hash.clone(),
            score: self.score,
            latency_bits: self.latency_bits,
            timestamp: self.timestamp,
            metadata: clone_pairs(&self.metadata),
        }
    }
}

impl HistoryRecord {
    /// A record of a trial made now, without metadata.
    pub fn new(genome_id: u128, network_hash: &str, score: i32, latency_bits: u64) -> (r: Self)
        ensures
            r@.genome_id == genome_id,
            r@.network_hash == network_hash@,
            r@.score == score,
            r@.latency_bits == latency_bits,
            r@.metadata == Seq::<(Seq<char>, Seq<char>)>::empty(),
    {
        let r = HistoryRecord {
            genome_id,
            network_hash: String::from_str(network_hash),
            score,
            latency_bits,
            timestamp: now_millis(),
            metadata: Vec::new(),
        };
        assert(r@.metadata =~= Seq::<(Seq<char>, Seq<char>)>::empty());
        r
    }

    /// The record with metadata `key` set to `value`.
    pub fn with_metadata(self, key: &str, value: &str) -> (r: Self)
        requires
            keys_unique(self@.metadata),
        ensures
            r@ == (RecordView { metadata: meta_set(self@.metadata, key@, value@), ..self@ }),
            keys_unique(r@.metadata),
    {
        let mut me = self;
        let ghost m0 = me@.metadata;
        let mut i: usize = 0;
        while i < me.metadata.len()
            invariant
                i <= me.metadata@.len(),
                me@ == self@,
                m0 == me@.metadata,
                keys_unique(m0),
                forall|j: int| 0 <= j < i ==> #[trigger] m0[j].0 != key@,
            decreases me.metadata@.len() - i,
        {
            if str_eq(me.metadata[i].0.as_str(), key) {
                assert(m0[i as int].0 == key@);
                proof {
                    let c = choose|c: int| 0 <= c < m0.len() && #[trigger] m0[c].0 == key@;
                    if c != i as int {
                        assert(m0[c].0 != m0[i as int].0);
                    }
                }
                let pair = (String::from_str(key), String::from_str(value));
                me.metadata.set(i, pair);
                assert(me@.metadata =~= meta_set(m0, key@, value@));
                return me;
            }
            assert(m0[i as int].0 != key@);
            i = i + 1;
        }
        me.metadata.push((String::from_str(key), String::from_str(value)));
        assert(me@.metadata =~= meta_set(m0, key@, value@));
        me
    }
}

/// Whether two strings are equal.
pub fn str_eq(a: &str, b: &str) -> (r: bool)
    ensures
        r == (a@ == b@),
{
    let x = crate::text::chars_of(a);
    let y = crate::text::chars_of(b);
    if x.len() != y.len() {
        return false;
    }
    let mut i: usize = 0;
    while i < x.len()
        invariant
            i <= x@.len(),
            x@.len() == y@.len(),
            x@ == a@,
            y@ == b@,
            forall|j: int| 0 <= j < i ==> x@[j] == y@[j],
        decreases x@.len() - i,
    {
        if x[i] != y[i] {
            return false;
        }
        i = i + 1;
    }
    assert(x@ =~= y@);
    true
}

/// The default limit of an in-memory store.
pub const DEFAULT_MAX_RECORDS: usize = 100_000;

/// The records a store keeps after `r` is appended to `s` with limit
/// `max`: all of them, or, beyond the limit, the most recent `max / 2`.
pub open spec fn after_append(s: Seq<RecordView>, r: RecordView, max: nat) -> Seq<RecordView> {
    let t = s.push(r);
    if t.len() > max && t.len() > max / 2 {
        t.skip(t.len() - max / 2)
    } else {
        t
    }
}

/// The store of trial records.
pub struct AiHistoryStore {
    records: Vec<HistoryRecord>,
    max_records: usize,
}

impl AiHistoryStore {
    /// The records, oldest first.
    pub closed spec fn spec_records(&self) -> Seq<RecordView> {
        self.records@.map_values(|r: HistoryRecord| r@)
    }

    /// The most records the store keeps.
    pub closed spec fn spec_max(&self) -> nat {
        self.max_records as nat
    }

    /// An empty store without a backing file, keeping up to 100 000 records.
    pub fn in_memory() -> (r: Self)
        ensures
            r.spec_records() == Seq::<RecordView>::empty(),
            r.spec_max() == DEFAULT_MAX_RECORDS,
    {
        let r = AiHistoryStore { records: Vec::new(), max_records: DEFAULT_MAX_RECORDS };
        assert(r.spec_records() =~= Seq::<RecordView>::empty());
        r
    }

    /// A store holding `records` (as loaded from a file), keeping up to
    /// `max_records` records from the next append on.
    pub fn with_records(records: Vec<HistoryRecord>, max_records: usize) -> (r: Self)
        ensures
            r.spec_records() == records@.map_values(|x: HistoryRecord| x@),
            r.spec_max() == max_records,
    {
        AiHistoryStore { records, max_records }
    }

    /// Appends a record; beyond the limit only the most recent half of the
    /// limit is kept. In memory this never fails.
    pub fn append(&mut self, record: HistoryRecord) -> (r: Result<(), AiError>)
        ensures
            r is Ok,
            final(self).spec_records() == after_append(old(self).spec_records(), record@, old(self).spec_max()),
            final(self).spec_max() == old(self).spec_max(),
    {
        let ghost before = self.spec_records();
        self.records.push(record);
        assert(self.spec_records() =~= before.push(record@));
        if self.records.len() > self.max_records {
            self.rotate();
        }
        Ok(())
    }

    /// Keeps only the most recent `max_records / 2` records.
    fn rotate(&mut self)
        ensures
            final(self).spec_max() == old(self).spec_max(),
            old(self).spec_records().len() > old(self).spec_max() / 2 ==> final(self).spec_records()
                == old(self).spec_records().skip(old(self).spec_records().len() - old(self).spec_max() / 2),
            old(self).spec_records().len() <= old(self).spec_max() / 2 ==> final(self).spec_records()
                == old(self).spec_records(),
    {
        let keep = self.max_records / 2;
        let n = self.records.len();
        if n > keep {
            let ghost before = self.spec_records();
            let mut old_records: Vec<HistoryRecord> = Vec::new();
            std::mem::swap(&mut self.records, &mut old_records);
            let tail = old_records.split_off(n - keep);
            self.records = tail;
            assert(self.spec_records() =~= before.skip(n - keep));
        }
    }

    /// All records, oldest first.
    pub fn all(&self) -> (r: &[HistoryRecord])
        ensures
            r@.map_values(|x: HistoryRecord| x@) == self.spec_records(),
    {
        self.records.as_slice()
    }

    /// The records of network `network_hash`, in order.
    pub fn for_network(&self, network_hash: &str) -> (r: Vec<&HistoryRecord>)
        ensures
            r@.map_values(|x: &HistoryRecord| x@) == self.spec_records().filter(
                |x: RecordView| x.network_hash == network_hash@,
            ),
    {
        let mut out: Vec<&HistoryRecord> = Vec::new();
        let mut i: usize = 0;
        let ghost pred = |x: RecordView| x.network_hash == network_hash@;
        while i < self.records.len()
            invariant
                i <= self.records@.len(),
                pred == (|x: RecordView| x.network_hash == network_hash@),
                out@.map_values(|x: &HistoryRecord| x@) == self.spec_records().take(i as int).filter(pred),
            decreases self.records@.len() - i,
        {
            let rec = &self.records[i];
            proof {
                reveal(Seq::filter);
                assert(self.spec_records().take(i + 1).drop_last() =~= self.spec_records().take(i as int));
                assert(self.spec_records().take(i + 1).last() == rec@);
            }
            if str_eq(rec.network_hash.as_str(), network_hash) {
                out.push(rec);
            }
            i = i + 1;
            assert(out@.map_values(|x: &HistoryRecord| x@) =~= self.spec_records().take(i as int).filter(pred));
        }
        assert(self.spec_records().take(self.records@.len() as int) =~= self.spec_records());
        out
    }
    /// The records of genome `genome_id`, in order.
    pub fn for_genome(&self, genome_id: &u128) -> (r: Vec<&HistoryRecord>)
        ensures
            r@.map_values(|x: &HistoryRecord| x@) == self.spec_records().filter(
                |x: RecordView| x.genome_id == *genome_id,
            ),
    {
        let mut out: Vec<&HistoryRecord> = Vec::new();
        let mut i: usize = 0;
        let ghost pred = |x: RecordView| x.genome_id == *genome_id;
        while i < self.records.len()
            invariant
                i <= self.records@.len(),
                pred == (|x: RecordView| x.genome_id == *genome_id),
                out@.map_values(|x: &HistoryRecord| x@) == self.spec_records().take(i as int).filter(pred),
            decreases self.records@.len() - i,
        {
            let rec = &self.records[i];
            proof {
                reveal(Seq::filter);
                assert(self.spec_records().take(i + 1).drop_last() =~= self.spec_records().take(i as int));
                assert(self.spec_records().take(i + 1).last() == rec@);
            }
            if rec.genome_id == *genome_id {
                out.push(rec);
            }
            i = i + 1;
            assert(out@.map_values(|x: &HistoryRecord| x@) =~= self.spec_records().take(i as int).filter(pred));
        }
        assert(self.spec_records().take(self.records@.len() as int) =~= self.spec_records());
        out
    }

    /// The records of genome `genome_id` on network `network_hash`, in
    /// order.
    pub fn for_genome_on_network(&self, genome_id: &u128, network_hash: &str) -> (r: Vec<&HistoryRecord>)
        ensures
            r@.map_values(|x: &HistoryRecord| x@) == self.spec_records().filter(
                |x: RecordView| x.genome_id == *genome_id && x.network_hash == network_hash@,
            ),
    {
        let mut out: Vec<&HistoryRecord> = Vec::new();
        let mut i: usize = 0;
        let ghost pred = |x: RecordView| x.genome_id == *genome_id && x.network_hash == network_hash@;
        while i < self.records.len()
            invariant
                i <= self.records@.len(),
                pred == (|x: RecordView| x.genome_id == *genome_id && x.network_hash == network_hash@),
                out@.map_values(|x: &HistoryRecord| x@) == self.spec_records().take(i as int).filter(pred),
            decreases self.records@.len() - i,
        {
            let rec = &self.records[i];
            proof {
                reveal(Seq::filter);
                assert(self.spec_records().take(i + 1).drop_last() =~= self.spec_records().take(i as int));
                assert(self.spec_records().take(i + 1).last() == rec@);
            }
            if rec.genome_id == *genome_id && str_eq(rec.network_hash.as_str(), network_hash) {
                out.push(rec);
            }
            i = i + 1;
            assert(out@.map_values(|x: &HistoryRecord| x@) =~= self.spec_records().take(i as int).filter(pred));
        }
        assert(self.spec_records().take(self.records@.len() as int) =~= self.spec_records());
        out
    }

    /// The `(genome_id, score)` pairs of all records, in order.
    pub fn outcomes(&self) -> (r: Vec<(u128, i32)>)
        ensures
            r@ == self.spec_records().map_values(|x: RecordView| (x.genome_id, x.score)),
    {
        let mut out: Vec<(u128, i32)> = Vec::new();
        let mut i: usize = 0;
        while i < self.records.len()
            invariant
                i <= self.records@.len(),
                out@ == self.spec_records().take(i as int).map_values(|x: RecordView| (x.genome_id, x.score)),
            decreases self.records@.len() - i,
        {
            let rec = &self.records[i];
            out.push((rec.genome_id, rec.score));
            i = i + 1;
            assert(out@ =~= self.spec_records().take(i as int).map_values(|x: RecordView| (x.genome_id, x.score)));
        }
        assert(self.spec_records().take(self.records@.len() as int) =~= self.spec_records());
        out
    }

    /// The `(genome_id, score, latency)` triples of all records, in order
    /// (the latency as the bits of its double).
    pub fn outcomes_with_latency(&self) -> (r: Vec<(u128, i32, u64)>)
        ensures
            r@ == self.spec_records().map_values(|x: RecordView| (x.genome_id, x.score, x.latency_bits)),
    {
        let mut out: Vec<(u128, i32, u64)> = Vec::new();
        let mut i: usize = 0;
        while i < self.records.len()
            invariant
                i <= self.records@.len(),
                out@ == self.spec_records().take(i as int).map_values(
                    |x: RecordView| (x.genome_id, x.score, x.latency_bits),
                ),
            decreases self.records@.len() - i,
        {
            let rec = &self.records[i];
            out.push((rec.genome_id, rec.score, rec.latency_bits));
            i = i + 1;
            assert(out@ =~= self.spec_records().take(i as int).map_values(
                |x: RecordView| (x.genome_id, x.score, x.latency_bits),
            ));
        }
        assert(self.spec_records().take(self.records@.len() as int) =~= self.spec_records());
        out
    }

    /// The `(genome_id, score)` pairs of the records of network
    /// `network_hash`, in order.
    pub fn outcomes_for_network(&self, network_hash: &str) -> (r: Vec<(u128, i32)>)
        ensures
            r@ == self.spec_records().filter(|x: RecordView| x.network_hash == network_hash@).map_values(
                |x: RecordView| (x.genome_id, x.score),
            ),
    {
        let recs = self.for_network(network_hash);
        let mut out: Vec<(u128, i32)> = Vec::new();
        let mut i: usize = 0;
        let ghost f = self.spec_records().filter(|x: RecordView| x.network_hash == network_hash@);
        while i < recs.len()
            invariant
                i <= recs@.len(),
                recs@.map_values(|x: &HistoryRecord| x@) == f,
                out@ == f.take(i as int).map_values(|x: RecordView| (x.genome_id, x.score)),
            decreases recs@.len() - i,
        {
            let rec = recs[i];
            assert(f[i as int] == rec@);
            out.push((rec.genome_id, rec.score));
            i = i + 1;
            assert(out@ =~= f.take(i as int).map_values(|x: RecordView| (x.genome_id, x.score)));
        }
        assert(f.take(recs@.len() as int) =~= f);
        out
    }

    /// The number of records.
    pub fn len(&self) -> (r: usize)
        ensures
            r == self.spec_records().len(),
    {
        self.records.len()
    }

    /// Whether the store holds no record.
    pub fn is_empty(&self) -> (r: bool)
        ensures
            r == (self.spec_records().len() == 0),
    {
        self.records.len() == 0
    }

    /// Removes every record. In memory this never fails.
    pub fn clear(&mut self) -> (r: Result<(), AiError>)
        ensures
            r is Ok,
            final(self).spec_records() == Seq::<RecordView>::empty(),
            final(self).spec_max() == old(self).spec_max(),
    {
        self.records.clear();
        assert(self.spec_records() =~= Seq::<RecordView>::empty());
        Ok(())
    }
}

/// An append never leaves more records than the limit; the records kept
/// are the most recent ones, in order (a suffix of the old records followed
/// by the new one), and with a limit of at least 2 the new record is kept.
pub proof fn append_bounds_history(s: Seq<RecordView>, r: RecordView, max: nat)
    ensures
        after_append(s, r, max).len() <= max,
        exists|k: int| 0 <= k <= s.len() + 1 && #[trigger] s.push(r).skip(k) == after_append(s, r, max),
        max >= 2 ==> after_append(s, r, max).len() > 0 && after_append(s, r, max).last() == r,
{
    let t = s.push(r);
    if t.len() > max && t.len() > max / 2 {
        assert(t.skip(t.len() - max / 2) == after_append(s, r, max));
    } else {
        assert(t.skip(0) =~= t);
    }
}

} // verus!
