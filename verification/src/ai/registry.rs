//! AiStrategyRegistry: the store of strategy genomes.
//!
//! Genomes are found by id through an index from id to position;
//! inserting a genome with a known id replaces the stored one. The registry
//! records whether it changed since it was last saved; writing it to its
//! JSON file is the caller's business.

use vstd::prelude::*;
use std::collections::HashMap;
use crate::ai::genome::{GenomeView, StrategyGenome, StrategyOrigin};

verus! {

broadcast use vstd::std_specs::hash::group_hash_axioms;

/// The position of the last genome with id `id`, or -1.
pub open spec fn last_index_of(s: Seq<GenomeView>, id: u128) -> int
    decreases s.len(),
{
    if s.len() == 0 {
        -1
    } else if s.last().id == id {
        s.len() - 1
    } else {
        last_index_of(s.drop_last(), id)
    }
}

/// The genomes after an upsert of `g`: the last genome with its id is
/// replaced, or `g` is added at the end.
pub open spec fn upserted(s: Seq<GenomeView>, g: GenomeView) -> Seq<GenomeView> {
    let i = last_index_of(s, g.id);
    if i >= 0 {
        s.update(i, g)
    } else {
        s.push(g)
    }
}

/// The genomes after removing the last genome with id `id`: the last genome
/// of the list takes its place.
pub open spec fn removed(s: Seq<GenomeView>, id: u128) -> Seq<GenomeView> {
    let i = last_index_of(s, id);
    if i >= 0 {
        s.update(i, s.last()).drop_last()
    } else {
        s
    }
}

/// No id occurs twice.
pub open spec fn ids_unique(s: Seq<GenomeView>) -> bool {
    forall|i: int, j: int| 0 <= i < s.len() && 0 <= j < s.len() && i != j ==> #[trigger] s[i].id != #[trigger] s[j].id
}

pub proof fn lemma_last_index(s: Seq<GenomeView>, id: u128)
    ensures
        -1 <= last_index_of(s, id) < s.len(),
        last_index_of(s, id) >= 0 ==> s[last_index_of(s, id)].id == id,
        forall|j: int| last_index_of(s, id) < j < s.len() ==> #[trigger] s[j].id != id,
        (last_index_of(s, id) >= 0) == (exists|j: int| 0 <= j < s.len() && #[trigger] s[j].id == id),
    decreases s.len(),
{
    if s.len() > 0 {
        lemma_last_index(s.drop_last(), id);
        if s.last().id != id {
            assert forall|j: int| last_index_of(s, id) < j < s.len() implies #[trigger] s[j].id != id by {
                if j < s.len() - 1 {
                    assert(s.drop_last()[j] == s[j]);
                }
            }
            if exists|j: int| 0 <= j < s.len() && #[trigger] s[j].id == id {
                let j = choose|j: int| 0 <= j < s.len() && #[trigger] s[j].id == id;
                assert(s.drop_last()[j] == s[j]);
            }
        }
    }
}

/// Replacing a genome by one with the same id moves no id's last position.
proof fn lemma_last_index_same_id(s: Seq<GenomeView>, i: int, g: GenomeView, id: u128)
    requires
        0 <= i < s.len(),
        s[i].id == g.id,
    ensures
        last_index_of(s.update(i, g), id) == last_index_of(s, id),
    decreases s.len(),
{
    let t = s.update(i, g);
    if i < s.len() - 1 {
        assert(t.drop_last() =~= s.drop_last().update(i, g));
        lemma_last_index_same_id(s.drop_last(), i, g, id);
    } else {
        assert(t.drop_last() =~= s.drop_last());
    }
}

/// The registry of strategies.
pub struct AiStrategyRegistry {
    genomes: Vec<StrategyGenome>,
    generation_counter: u32,
    lookup_by_id: HashMap<u128, usize>,
    dirty: bool,
}

impl AiStrategyRegistry {
    /// The index maps each id present to the position of its last genome.
    pub closed spec fn well_formed(&self) -> bool {
        forall|id: u128|
            {
                &&& #[trigger] self.lookup_by_id@.contains_key(id) <==> last_index_of(self.spec_genomes(), id) >= 0
                &&& self.lookup_by_id@.contains_key(id) ==> self.lookup_by_id@[id] as int == last_index_of(
                    self.spec_genomes(),
                    id,
                )
            }
    }

    /// Rebuilds the index from the genomes.
    fn rebuild_lookups(&mut self)
        ensures
            final(self).well_formed(),
            final(self).spec_genomes() == old(self).spec_genomes(),
            final(self).spec_generation() == old(self).spec_generation(),
            final(self).spec_dirty() == old(self).spec_dirty(),
    {
        self.lookup_by_id.clear();
        let mut i: usize = 0;
        while i < self.genomes.len()
            invariant
                i <= self.genomes@.len(),
                self.spec_genomes() == old(self).spec_genomes(),
                self.spec_generation() == old(self).spec_generation(),
                self.spec_dirty() == old(self).spec_dirty(),
                forall|id: u128|
                    {
                        &&& #[trigger] self.lookup_by_id@.contains_key(id) <==> last_index_of(
                            self.spec_genomes().take(i as int),
                            id,
                        ) >= 0
                        &&& self.lookup_by_id@.contains_key(id) ==> self.lookup_by_id@[id] as int
                            == last_index_of(self.spec_genomes().take(i as int), id)
                    },
            decreases self.genomes@.len() - i,
        {
            let id = self.genomes[i].id;
            self.lookup_by_id.insert(id, i);
            proof {
                let t = self.spec_genomes().take(i + 1);
                assert(t.drop_last() =~= self.spec_genomes().take(i as int));
                assert(t.last() == self.genomes@[i as int]@);
            }
            i = i + 1;
        }
        assert(self.spec_genomes().take(i as int) =~= self.spec_genomes());
    }

    /// The genomes, in registry order.
    pub closed spec fn spec_genomes(&self) -> Seq<GenomeView> {
        self.genomes@.map_values(|g: StrategyGenome| g@)
    }

    pub closed spec fn spec_generation(&self) -> u32 {
        self.generation_counter
    }

    /// Whether the registry changed since it was created or last saved.
    pub closed spec fn spec_dirty(&self) -> bool {
        self.dirty
    }

    /// An empty registry without a backing file.
    pub fn in_memory() -> (r: Self)
        ensures
            r.well_formed(),
            r.spec_genomes() == Seq::<GenomeView>::empty(),
            r.spec_generation() == 0,
            !r.spec_dirty(),
    {
        let r = AiStrategyRegistry {
            genomes: Vec::new(),
            generation_counter: 0,
            lookup_by_id: HashMap::new(),
            dirty: false,
        };
        assert(r.spec_genomes() =~= Seq::<GenomeView>::empty());
        r
    }

    /// A registry holding stored data (as loaded from its file), unchanged.
    pub fn from_data(genomes: Vec<StrategyGenome>, generation_counter: u32) -> (r: Self)
        ensures
            r.well_formed(),
            r.spec_genomes() == genomes@.map_values(|g: StrategyGenome| g@),
            r.spec_generation() == generation_counter,
            !r.spec_dirty(),
    {
        let mut r = AiStrategyRegistry { genomes, generation_counter, lookup_by_id: HashMap::new(), dirty: false };
        r.rebuild_lookups();
        r
    }

    /// All genomes.
    pub fn all_genomes(&self) -> (r: &[StrategyGenome])
        ensures
            r@.map_values(|g: StrategyGenome| g@) == self.spec_genomes(),
    {
        self.genomes.as_slice()
    }

    /// The genomes the orchestrator may use, in order.
    pub fn active_genomes(&self) -> (r: Vec<&StrategyGenome>)
        ensures
            r@.map_values(|g: &StrategyGenome| g@) == self.spec_genomes().filter(
                |g: GenomeView| g.orchestrator_enabled,
            ),
    {
        let mut out: Vec<&StrategyGenome> = Vec::new();
        let mut i: usize = 0;
        let ghost pred = |g: GenomeView| g.orchestrator_enabled;
        while i < self.genomes.len()
            invariant
                i <= self.genomes@.len(),
                pred == (|g: GenomeView| g.orchestrator_enabled),
                out@.map_values(|g: &StrategyGenome| g@) == self.spec_genomes().take(i as int).filter(pred),
            decreases self.genomes@.len() - i,
        {
            let g = &self.genomes[i];
            proof {
                reveal(Seq::filter);
                assert(self.spec_genomes().take(i + 1).drop_last() =~= self.spec_genomes().take(i as int));
                assert(self.spec_genomes().take(i + 1).last() == g@);
            }
            if g.orchestrator_enabled {
                out.push(g);
            }
            i = i + 1;
            assert(out@.map_values(|g: &StrategyGenome| g@) =~= self.spec_genomes().take(i as int).filter(pred));
        }
        assert(self.spec_genomes().take(self.genomes@.len() as int) =~= self.spec_genomes());
        out
    }

    /// The genomes of origin `origin`, in order.
    pub fn get_by_origin(&self, origin: StrategyOrigin) -> (r: Vec<&StrategyGenome>)
        ensures
            r@.map_values(|g: &StrategyGenome| g@) == self.spec_genomes().filter(
                |g: GenomeView| g.origin == origin,
            ),
    {
        let mut out: Vec<&StrategyGenome> = Vec::new();
        let mut i: usize = 0;
        let ghost pred = |g: GenomeView| g.origin == origin;
        while i < self.genomes.len()
            invariant
                i <= self.genomes@.len(),
                pred == (|g: GenomeView| g.origin == origin),
                out@.map_values(|g: &StrategyGenome| g@) == self.spec_genomes().take(i as int).filter(pred),
            decreases self.genomes@.len() - i,
        {
            let g = &self.genomes[i];
            proof {
                reveal(Seq::filter);
                assert(self.spec_genomes().take(i + 1).drop_last() =~= self.spec_genomes().take(i as int));
                assert(self.spec_genomes().take(i + 1).last() == g@);
            }
            if g.origin == origin {
                out.push(g);
            }
            i = i + 1;
            assert(out@.map_values(|g: &StrategyGenome| g@) =~= self.spec_genomes().take(i as int).filter(pred));
        }
        assert(self.spec_genomes().take(self.genomes@.len() as int) =~= self.spec_genomes());
        out
    }

    fn find(&self, id: u128) -> (r: Option<usize>)
        requires
            self.well_formed(),
        ensures
            r is None ==> last_index_of(self.spec_genomes(), id) == -1,
            r matches Some(i) ==> i == last_index_of(self.spec_genomes(), id),
    {
        proof {
            lemma_last_index(self.spec_genomes(), id);
            assert(self.lookup_by_id@.contains_key(id) <==> last_index_of(self.spec_genomes(), id) >= 0);
        }
        match self.lookup_by_id.get(&id) {
            Some(i) => Some(*i),
            None => None,
        }
    }

    /// The genome with id `id` (the last one, should there be several).
    pub fn get_by_id(&self, id: &u128) -> (r: Option<&StrategyGenome>)
        requires
            self.well_formed(),
        ensures
            last_index_of(self.spec_genomes(), *id) == -1 ==> r is None,
            last_index_of(self.spec_genomes(), *id) >= 0 ==> (r matches Some(g) && g@
                == self.spec_genomes()[last_index_of(self.spec_genomes(), *id)]),
    {
        proof {
            lemma_last_index(self.spec_genomes(), *id);
        }
        match self.find(*id) {
            Some(i) => Some(&self.genomes[i]),
            None => None,
        }
    }

    /// The generation counter.
    pub fn generation_counter(&self) -> (r: u32)
        ensures
            r == self.spec_generation(),
    {
        self.generation_counter
    }

    /// Advances the generation counter and returns its new value.
    pub fn increment_generation(&mut self) -> (r: u32)
        requires
            old(self).well_formed(),
            old(self).spec_generation() < u32::MAX,
        ensures
            final(self).well_formed(),
            r == old(self).spec_generation() + 1,
            final(self).spec_generation() == r,
            final(self).spec_genomes() == old(self).spec_genomes(),
            final(self).spec_dirty(),
    {
        self.generation_counter = self.generation_counter + 1;
        self.dirty = true;
        self.generation_counter
    }

    /// Inserts a genome, or replaces the stored genome with its id.
    pub fn upsert(&mut self, genome: StrategyGenome)
        requires
            old(self).well_formed(),
        ensures
            final(self).well_formed(),
            final(self).spec_genomes() == upserted(old(self).spec_genomes(), genome@),
            final(self).spec_generation() == old(self).spec_generation(),
            final(self).spec_dirty(),
    {
        let ghost before = self.spec_genomes();
        proof {
            lemma_last_index(before, genome.id);
        }
        let ghost gv = genome@;
        let id = genome.id;
        match self.find(id) {
            Some(i) => {
                self.genomes.set(i, genome);
                assert(self.spec_genomes() =~= before.update(i as int, gv));
                proof {
                    assert forall|k: u128| last_index_of(self.spec_genomes(), k) == last_index_of(before, k) by {
                        lemma_last_index_same_id(before, i as int, gv, k);
                    }
                }
            },
            None => {
                self.genomes.push(genome);
                let n = self.genomes.len();
                self.lookup_by_id.insert(id, n - 1);
                assert(self.spec_genomes() =~= before.push(gv));
                assert(self.spec_genomes().drop_last() =~= before);
            },
        }
        self.dirty = true;
    }

    /// Removes the genome with id `id` (the last one, should there be
    /// several; the last genome of the registry takes its place). Returns
    /// whether one was removed.
    pub fn remove(&mut self, id: &u128) -> (r: bool)
        requires
            old(self).well_formed(),
        ensures
            final(self).well_formed(),
            r == (last_index_of(old(self).spec_genomes(), *id) >= 0),
            final(self).spec_genomes() == removed(old(self).spec_genomes(), *id),
            final(self).spec_generation() == old(self).spec_generation(),
            final(self).spec_dirty() == (old(self).spec_dirty() || r),
    {
        let ghost before = self.spec_genomes();
        proof {
            lemma_last_index(before, *id);
        }
        match self.find(*id) {
            Some(i) => {
                let _g = self.genomes.swap_remove(i);
                assert(self.spec_genomes() =~= before.update(i as int, before.last()).drop_last());
                self.dirty = true;
                self.rebuild_lookups();
                true
            },
            None => false,
        }
    }

    /// Adds each builtin genome whose id is not yet in the registry.
    pub fn load_builtins(&mut self, builtins: Vec<StrategyGenome>)
        requires
            old(self).well_formed(),
        ensures
            final(self).well_formed(),
            final(self).spec_genomes() == builtins_loaded(
                old(self).spec_genomes(),
                builtins@.map_values(|g: StrategyGenome| g@),
            ),
            final(self).spec_generation() == old(self).spec_generation(),
    {
        let ghost start = self.spec_genomes();
        let ghost bs = builtins@.map_values(|g: StrategyGenome| g@);
        let mut rest = builtins;
        let ghost orig = rest@;
        let mut k: usize = 0;
        let n = rest.len();
        while rest.len() > 0
            invariant
                n == bs.len() == orig.len(),
                bs == orig.map_values(|g: StrategyGenome| g@),
                k + rest@.len() == n,
                rest@ == orig.skip(k as int),
                self.well_formed(),
                self.spec_genomes() == builtins_loaded(start, bs.take(k as int)),
                self.spec_generation() == old(self).spec_generation(),
            decreases rest@.len(),
        {
            let g = rest.remove(0);
            assert(g == orig[k as int]);
            proof {
                assert(bs.take(k + 1).drop_last() =~= bs.take(k as int));
                assert(bs.take(k + 1).last() == g@);
                assert(rest@ =~= orig.skip(k + 1));
            }
            if self.find(g.id).is_none() {
                self.upsert(g);
            }
            k = k + 1;
        }
        assert(bs.take(n as int) =~= bs);
    }

    /// Whether the registry changed since it was created or last saved.
    pub fn is_dirty(&self) -> (r: bool)
        ensures
            r == self.spec_dirty(),
    {
        self.dirty
    }

    /// Records that the registry was saved.
    pub fn mark_saved(&mut self)
        requires
            old(self).well_formed(),
        ensures
            final(self).well_formed(),
            final(self).spec_genomes() == old(self).spec_genomes(),
            final(self).spec_generation() == old(self).spec_generation(),
            !final(self).spec_dirty(),
    {
        self.dirty = false;
    }
}

/// The genomes after loading builtins: each builtin, in order, is added when
/// no genome with its id is present yet.
pub open spec fn builtins_loaded(s: Seq<GenomeView>, bs: Seq<GenomeView>) -> Seq<GenomeView>
    decreases bs.len(),
{
    if bs.len() == 0 {
        s
    } else {
        let prev = builtins_loaded(s, bs.drop_last());
        if last_index_of(prev, bs.last().id) >= 0 {
            prev
        } else {
            prev.push(bs.last())
        }
    }
}

/// A lookup after an upsert finds the genome upserted; lookups of other ids
/// find what they found before; an upsert keeps ids unique, and grows the
/// registry exactly when the id was new.
pub proof fn upsert_then_get(s: Seq<GenomeView>, g: GenomeView, other: u128)
    requires
        other != g.id,
    ensures
        ({
            let t = upserted(s, g);
            &&& last_index_of(t, g.id) >= 0
            &&& t[last_index_of(t, g.id)] == g
            &&& (last_index_of(s, other) >= 0) == (last_index_of(t, other) >= 0)
            &&& last_index_of(s, other) >= 0 ==> t[last_index_of(t, other)] == s[last_index_of(s, other)]
            &&& t.len() == if last_index_of(s, g.id) >= 0 { s.len() } else { s.len() + 1 }
            &&& ids_unique(s) ==> ids_unique(t)
        }),
{
    let t = upserted(s, g);
    lemma_last_index(s, g.id);
    lemma_last_index(s, other);
    lemma_last_index(t, g.id);
    lemma_last_index(t, other);
    let i = last_index_of(s, g.id);
    if i >= 0 {
        assert(t[i].id == g.id);
        assert(last_index_of(t, g.id) == i) by {
            let k = last_index_of(t, g.id);
            if k > i {
                assert(t[k] == s[k]);
            } else if k < i {
                assert(t[i].id == g.id);
            }
        }
    } else {
        assert(t[s.len() as int] == g);
    }
    if last_index_of(s, other) >= 0 {
        let a = last_index_of(s, other);
        assert(t[a] == s[a]);
        assert(last_index_of(t, other) == a) by {
            let k = last_index_of(t, other);
            if k > a {
                if k < s.len() {
                    assert(t[k] == s[k] || k == i);
                }
            } else if k < a {
                assert(t[a].id == other);
            }
        }
    } else if last_index_of(t, other) >= 0 {
        let k = last_index_of(t, other);
        if k < s.len() && k != i {
            assert(t[k] == s[k]);
        }
    }
    if ids_unique(s) {
        assert forall|a: int, b: int| 0 <= a < t.len() && 0 <= b < t.len() && a != b implies #[trigger] t[a].id != #[trigger] t[b].id by {
            if i >= 0 {
                if a == i {
                    assert(t[b] == s[b]);
                    assert(s[i].id == g.id);
                } else if b == i {
                    assert(t[a] == s[a]);
                    assert(s[i].id == g.id);
                } else {
                    assert(t[a] == s[a] && t[b] == s[b]);
                }
            } else {
                if a == s.len() {
                    assert(t[b] == s[b]);
                } else if b == s.len() {
                    assert(t[a] == s[a]);
                } else {
                    assert(t[a] == s[a] && t[b] == s[b]);
                }
            }
        }
    }
}

/// With unique ids, a removed id is gone afterwards, the other genomes all
/// stay, and ids stay unique.
pub proof fn remove_then_get(s: Seq<GenomeView>, id: u128, other: u128)
    requires
        ids_unique(s),
        other != id,
    ensures
        ({
            let t = removed(s, id);
            &&& last_index_of(t, id) == -1
            &&& ids_unique(t)
            &&& (last_index_of(s, other) >= 0) == (last_index_of(t, other) >= 0)
            &&& last_index_of(s, other) >= 0 ==> t[last_index_of(t, other)] == s[last_index_of(s, other)]
            &&& t.len() == if last_index_of(s, id) >= 0 { s.len() - 1 } else { s.len() as int }
        }),
{
    let t = removed(s, id);
    let i = last_index_of(s, id);
    lemma_last_index(s, id);
    lemma_last_index(s, other);
    lemma_last_index(t, id);
    lemma_last_index(t, other);
    if i >= 0 {
        let n = s.len() - 1;
        // t[j] == s[j] for j != i, j < n; t[i] == s[n] when i < n
        assert forall|j: int| 0 <= j < t.len() implies #[trigger] t[j].id != id by {
            if j == i {
                if i < n {
                    assert(t[j] == s[n]);
                }
            } else {
                assert(t[j] == s[j]);
            }
        }
        assert forall|a: int, b: int| 0 <= a < t.len() && 0 <= b < t.len() && a != b implies #[trigger] t[a].id != #[trigger] t[b].id by {
            let sa = if a == i { n } else { a };
            let sb = if b == i { n } else { b };
            assert(t[a] == s[sa]);
            assert(t[b] == s[sb]);
        }
        if last_index_of(s, other) >= 0 {
            let a = last_index_of(s, other);
            let ta = if a == n { i } else { a };
            assert(t[ta] == s[a]);
            assert(last_index_of(t, other) == ta) by {
                let k = last_index_of(t, other);
                let sk = if k == i { n } else { k };
                assert(t[k] == s[sk]);
            }
        } else if last_index_of(t, other) >= 0 {
            let k = last_index_of(t, other);
            let sk = if k == i { n } else { k };
            assert(t[k] == s[sk]);
        }
    }
}

} // verus!
