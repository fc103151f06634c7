use vstd::prelude::*;

use crate::models::record_cache::RecordCache;

verus! {

/// No two entries carry the same content hash.
pub open spec fn distinct_keys(s: Seq<RecordCache>) -> bool {
    forall|i: int, j: int| 0 <= i < j < s.len() ==> s[i].key() != s[j].key()
}

/// The finite map (content hash -> creation time) that a sequence of
/// fingerprints denotes; later entries shadow earlier ones.
pub open spec fn as_map(s: Seq<RecordCache>) -> Map<Seq<char>, int>
    decreases s.len(),
{
    if s.len() == 0 {
        Map::empty()
    } else {
        as_map(s.drop_last()).insert(s.last().key(), s.last().create_time as int)
    }
}

/// A fingerprint still has to be pulled into an index holding `m`: its hash
/// is absent, or only a strictly staler copy is stored.
pub open spec fn needs_pull(m: Map<Seq<char>, int>, item: RecordCache) -> bool {
    !m.dom().contains(item.key()) || m[item.key()] < item.create_time
}

/// Last-write-wins insertion: replace only what is absent or strictly staler.
pub open spec fn lww_insert(m: Map<Seq<char>, int>, item: RecordCache) -> Map<Seq<char>, int> {
    if needs_pull(m, item) {
        m.insert(item.key(), item.create_time as int)
    } else {
        m
    }
}

/// Last-write-wins insertion of a whole batch, in sequence order.
pub open spec fn lww_merge(m: Map<Seq<char>, int>, s: Seq<RecordCache>) -> Map<Seq<char>, int>
    decreases s.len(),
{
    if s.len() == 0 {
        m
    } else {
        lww_insert(lww_merge(m, s.drop_last()), s.last())
    }
}

proof fn lemma_as_map_dom(s: Seq<RecordCache>, k: Seq<char>)
    ensures
        as_map(s).dom().contains(k) <==> exists|i: int| 0 <= i < s.len() && s[i].key() == k,
    decreases s.len(),
{
    if s.len() > 0 {
        lemma_as_map_dom(s.drop_last(), k);
        if as_map(s).dom().contains(k) {
            if s.last().key() == k {
                assert(s[s.len() - 1].key() == k);
            } else {
                let i = choose|i: int| 0 <= i < s.drop_last().len() && s.drop_last()[i].key() == k;
                assert(s[i].key() == k);
            }
        }
        if exists|i: int| 0 <= i < s.len() && s[i].key() == k {
            let i = choose|i: int| 0 <= i < s.len() && s[i].key() == k;
            if i < s.len() - 1 {
                assert(s.drop_last()[i].key() == k);
            }
        }
    }
}

proof fn lemma_as_map_index(s: Seq<RecordCache>, i: int)
    requires
        distinct_keys(s),
        0 <= i < s.len(),
    ensures
        as_map(s).dom().contains(s[i].key()),
        as_map(s)[s[i].key()] == s[i].create_time as int,
    decreases s.len(),
{
    lemma_as_map_dom(s, s[i].key());
    if i < s.len() - 1 {
        assert(s.drop_last()[i] == s[i]);
        lemma_as_map_index(s.drop_last(), i);
        assert(s.last().key() != s[i].key());
    }
}

proof fn lemma_as_map_len(s: Seq<RecordCache>)
    requires
        distinct_keys(s),
    ensures
        as_map(s).dom().finite(),
        as_map(s).len() == s.len(),
    decreases s.len(),
{
    if s.len() > 0 {
        lemma_as_map_len(s.drop_last());
        lemma_as_map_dom(s.drop_last(), s.last().key());
        assert(!as_map(s.drop_last()).dom().contains(s.last().key()));
    }
}

proof fn lemma_as_map_remove(s: Seq<RecordCache>, i: int)
    requires
        distinct_keys(s),
        0 <= i < s.len(),
    ensures
        distinct_keys(s.remove(i)),
        as_map(s.remove(i)) =~= as_map(s).remove(s[i].key()),
    decreases s.len(),
{
    let k = s[i].key();
    lemma_as_map_dom(s.drop_last(), k);
    if i == s.len() - 1 {
        assert(s.remove(i) =~= s.drop_last());
        assert(!as_map(s.drop_last()).dom().contains(k));
        assert(as_map(s.drop_last()).remove(k) =~= as_map(s.drop_last()));
        assert(as_map(s).remove(k) =~= as_map(s.drop_last()).insert(k,
            s.last().create_time as int).remove(k));
    } else {
        assert(s.remove(i).drop_last() =~= s.drop_last().remove(i));
        assert(s.remove(i).last() == s.last());
        lemma_as_map_remove(s.drop_last(), i);
        assert(s.drop_last()[i] == s[i]);
        assert(s.last().key() != k);
    }
}

/// Authoritative in-memory index of record fingerprints with last-write-wins
/// conflict resolution.  The view is the map from content hash to the stored
/// creation time; at most one entry per hash is ever resident.
#[derive(Debug)]
pub struct CacheHandler {
    data: Vec<RecordCache>,
}

impl View for CacheHandler {
    type V = Map<Seq<char>, int>;

    closed spec fn view(&self) -> Map<Seq<char>, int> {
        as_map(self.data@)
    }
}

impl CacheHandler {
    /// The internal fingerprint list indexes each content hash once.
    pub closed spec fn wf(self) -> bool {
        distinct_keys(self.data@)
    }

    /// Fresh, empty index.
    pub fn new() -> (r: Self)
        ensures
            r.wf(),
            r@ == Map::<Seq<char>, int>::empty(),
    {
        CacheHandler { data: Vec::new() }
    }

    fn index_of(&self, key: &String) -> (r: Option<usize>)
        ensures
            match r {
                Some(i) => 0 <= i < self.data@.len() && self.data@[i as int].key() == key@,
                None => forall|i: int| 0 <= i < self.data@.len() ==> self.data@[i].key() != key@,
            },
    {
        let mut idx: usize = 0;
        while idx < self.data.len()
            invariant
                idx <= self.data@.len(),
                forall|i: int| 0 <= i < idx ==> self.data@[i].key() != key@,
            decreases self.data@.len() - idx,
        {
            if self.data[idx].md5 == *key {
                return Some(idx);
            }
            idx += 1;
        }
        None
    }

    /// Membership test used to dedupe re-announcements: true iff the same
    /// hash is stored with a creation time at least as fresh as `k`'s.
    pub fn contains(&self, k: &RecordCache) -> (r: bool)
        requires
            self.wf(),
        ensures
            r == (self@.dom().contains(k.key()) && self@[k.key()] >= k.create_time),
    {
        proof {
            lemma_as_map_dom(self.data@, k.key());
        }
        match self.index_of(&k.md5) {
            None => false,
            Some(i) => {
                proof {
                    lemma_as_map_index(self.data@, i as int);
                }
                self.data[i].create_time >= k.create_time
            },
        }
    }

    /// Point lookup by content hash.
    pub fn get(&self, other_md5: &str) -> (r: Option<RecordCache>)
        requires
            self.wf(),
        ensures
            match r {
                None => !self@.dom().contains(other_md5@),
                Some(rc) => self@.dom().contains(other_md5@) && rc.key() == other_md5@
                    && rc.create_time as int == self@[other_md5@],
            },
    {
        proof {
            lemma_as_map_dom(self.data@, other_md5@);
        }
        let key = other_md5.to_owned();
        match self.index_of(&key) {
            None => None,
            Some(i) => {
                proof {
                    lemma_as_map_index(self.data@, i as int);
                }
                let found = &self.data[i];
                Some(RecordCache { md5: found.md5.clone(), create_time: found.create_time })
            },
        }
    }

    /// Insert or replace iff `data` is new or strictly fresher than the
    /// stored copy of the same hash; reports whether the index changed.
    pub fn add(&mut self, data: RecordCache) -> (r: bool)
        requires
            old(self).wf(),
        ensures
            final(self).wf(),
            final(self)@ == lww_insert(old(self)@, data),
            r == needs_pull(old(self)@, data),
    {
        proof {
            lemma_as_map_dom(self.data@, data.key());
        }
        match self.index_of(&data.md5) {
            None => {
                let ghost s0 = self.data@;
                self.data.push(data);
                proof {
                    assert(self.data@.drop_last() =~= s0);
                    assert(distinct_keys(self.data@));
                    assert(self@ =~= lww_insert(old(self)@, data));
                }
                true
            },
            Some(i) => {
                proof {
                    lemma_as_map_index(self.data@, i as int);
                }
                if self.data[i].create_time >= data.create_time {
                    proof {
                        assert(self@ =~= lww_insert(old(self)@, data));
                    }
                    false
                } else {
                    proof {
                        lemma_as_map_remove(self.data@, i as int);
                    }
                    self.data.remove(i);
                    let ghost s1 = self.data@;
                    self.data.push(data);
                    proof {
                        assert(self.data@.drop_last() =~= s1);
                        assert forall|a: int, b: int|
                            0 <= a < b < self.data@.len() implies self.data@[a].key()
                            != self.data@[b].key() by {
                            if b == self.data@.len() - 1 {
                                assert(!as_map(s1).dom().contains(data.key()));
                                lemma_as_map_dom(s1, data.key());
                            }
                        }
                        assert(self@ =~= as_map(s1).insert(data.key(), data.create_time as int));
                        assert(self@ =~= lww_insert(old(self)@, data));
                    }
                    true
                }
            },
        }
    }

    /// Remove the record with `k`'s hash if it is present; reports whether
    /// anything was removed.
    pub fn remove(&mut self, k: &RecordCache) -> (r: bool)
        requires
            old(self).wf(),
        ensures
            final(self).wf(),
            final(self)@ == old(self)@.remove(k.key()),
            r == old(self)@.dom().contains(k.key()),
    {
        proof {
            lemma_as_map_dom(self.data@, k.key());
        }
        match self.index_of(&k.md5) {
            None => {
                proof {
                    assert(self@.remove(k.key()) =~= self@);
                }
                false
            },
            Some(i) => {
                proof {
                    lemma_as_map_remove(self.data@, i as int);
                }
                self.data.remove(i);
                true
            },
        }
    }

    /// Empty the index.
    pub fn clear(&mut self)
        ensures
            final(self).wf(),
            final(self)@ == Map::<Seq<char>, int>::empty(),
    {
        self.data.clear();
    }

    /// Apply add-if-fresher for every element of an externally supplied
    /// batch, in batch order (used when accepting a peer's snapshot).
    pub fn merge_data(&mut self, data: &Vec<RecordCache>)
        requires
            old(self).wf(),
        ensures
            final(self).wf(),
            final(self)@ == lww_merge(old(self)@, data@),
    {
        let mut idx: usize = 0;
        while idx < data.len()
            invariant
                idx <= data@.len(),
                self.wf(),
                self@ == lww_merge(old(self)@, data@.take(idx as int)),
            decreases data@.len() - idx,
        {
            let item = data[idx].duplicate();
            self.add(item);
            proof {
                assert(data@.take(idx as int + 1).drop_last() =~= data@.take(idx as int));
                assert(data@.take(idx as int + 1).last() == data@[idx as int]);
            }
            idx += 1;
        }
        proof {
            assert(data@.take(data@.len() as int) =~= data@);
        }
    }

    /// The subset of `data` that is absent locally or strictly fresher than
    /// the local copy: exactly what this node still has to pull in.
    pub fn calculate_diff(&self, data: &Vec<RecordCache>) -> (r: Vec<RecordCache>)
        requires
            self.wf(),
        ensures
            r@ == data@.filter(|item: RecordCache| needs_pull(self@, item)),
    {
        let ghost pred = |item: RecordCache| needs_pull(self@, item);
        let mut diff: Vec<RecordCache> = Vec::new();
        let mut idx: usize = 0;
        proof {
            reveal(Seq::filter);
            assert(data@.take(0).filter(pred) =~= Seq::<RecordCache>::empty());
        }
        while idx < data.len()
            invariant
                idx <= data@.len(),
                self.wf(),
                diff@ == data@.take(idx as int).filter(pred),
                pred == (|item: RecordCache| needs_pull(self@, item)),
            decreases data@.len() - idx,
        {
            let item = &data[idx];
            if !self.contains(item) {
                diff.push(item.duplicate());
            }
            proof {
                reveal(Seq::filter);
                assert(data@.take(idx as int + 1).drop_last() =~= data@.take(idx as int));
                assert(data@.take(idx as int + 1).last() == data@[idx as int]);
            }
            idx += 1;
        }
        proof {
            assert(data@.take(data@.len() as int) =~= data@);
        }
        diff
    }

    /// Defensive copy of the whole index, used to answer snapshot requests
    /// without exposing the index itself.
    pub fn get_copy_data(&self) -> (r: Vec<RecordCache>)
        requires
            self.wf(),
        ensures
            distinct_keys(r@),
            as_map(r@) == self@,
            r@.len() == self@.len(),
    {
        proof {
            lemma_as_map_len(self.data@);
        }
        let mut out: Vec<RecordCache> = Vec::new();
        let mut idx: usize = 0;
        while idx < self.data.len()
            invariant
                idx <= self.data@.len(),
                out@ =~= self.data@.take(idx as int),
            decreases self.data@.len() - idx,
        {
            out.push(self.data[idx].duplicate());
            idx += 1;
        }
        proof {
            assert(out@ =~= self.data@);
        }
        out
    }
}

/// Adding the same fingerprint twice leaves the index exactly as a single
/// add leaves it.
pub proof fn lemma_add_idempotent(m: Map<Seq<char>, int>, f: RecordCache)
    ensures
        lww_insert(lww_insert(m, f), f) == lww_insert(m, f),
{
}

/// Last-write-wins monotonicity: once a fingerprint is stored, a strictly
/// staler arrival for the same hash changes nothing; in particular the
/// stored creation time remains the fresher one.
pub proof fn lemma_lww_monotonic(m: Map<Seq<char>, int>, f1: RecordCache, f2: RecordCache)
    requires
        f1.key() == f2.key(),
        f2.create_time < f1.create_time,
    ensures
        lww_insert(lww_insert(m, f1), f2) == lww_insert(m, f1),
        needs_pull(m, f1) ==> lww_insert(lww_insert(m, f1), f2)[f1.key()] == f1.create_time as int,
{
}

/// After a batch merge, nothing gets staler: every key already present is
/// still present at least as fresh, and every batch element's hash ends up
/// stored at least as fresh as that element.
pub proof fn lemma_merge_bounds(m: Map<Seq<char>, int>, s: Seq<RecordCache>)
    ensures
        forall|k: Seq<char>| #[trigger] m.dom().contains(k) ==> lww_merge(m, s).dom().contains(k)
            && lww_merge(m, s)[k] >= m[k],
        forall|i: int| 0 <= i < s.len() ==> lww_merge(m, s).dom().contains((#[trigger] s[i]).key())
            && lww_merge(m, s)[s[i].key()] >= s[i].create_time,
    decreases s.len(),
{
    if s.len() > 0 {
        lemma_merge_bounds(m, s.drop_last());
        assert forall|i: int| 0 <= i < s.len() implies lww_merge(m, s).dom().contains(
            (#[trigger] s[i]).key()) && lww_merge(m, s)[s[i].key()] >= s[i].create_time by {
            if i < s.len() - 1 {
                assert(s.drop_last()[i] == s[i]);
            }
        }
    }
}

proof fn lemma_merge_noop(m: Map<Seq<char>, int>, s: Seq<RecordCache>)
    requires
        forall|i: int| 0 <= i < s.len() ==> !needs_pull(m, #[trigger] s[i]),
    ensures
        lww_merge(m, s) == m,
    decreases s.len(),
{
    if s.len() > 0 {
        assert forall|i: int| 0 <= i < s.drop_last().len() implies !needs_pull(m,
            #[trigger] s.drop_last()[i]) by {
            assert(s.drop_last()[i] == s[i]);
        }
        lemma_merge_noop(m, s.drop_last());
        assert(s[s.len() - 1] == s.last());
    }
}

/// Merging the same batch twice is equivalent to merging it once.
pub proof fn lemma_merge_idempotent(m: Map<Seq<char>, int>, s: Seq<RecordCache>)
    ensures
        lww_merge(lww_merge(m, s), s) == lww_merge(m, s),
{
    lemma_merge_bounds(m, s);
    lemma_merge_noop(lww_merge(m, s), s);
}

proof fn lemma_filter_none(s: Seq<RecordCache>, p: spec_fn(RecordCache) -> bool)
    requires
        forall|i: int| 0 <= i < s.len() ==> !p(#[trigger] s[i]),
    ensures
        s.filter(p) == Seq::<RecordCache>::empty(),
    decreases s.len(),
{
    reveal(Seq::filter);
    if s.len() > 0 {
        assert forall|i: int| 0 <= i < s.drop_last().len() implies !p(
            #[trigger] s.drop_last()[i]) by {
            assert(s.drop_last()[i] == s[i]);
        }
        lemma_filter_none(s.drop_last(), p);
        assert(!p(s[s.len() - 1]));
    }
}

/// Diff completeness: the diff of a batch is exactly its elements that are
/// absent or strictly fresher than the local copy (the contract of
/// `calculate_diff`), and once that diff is merged, re-computing the diff of
/// the same batch yields nothing.
pub proof fn lemma_diff_complete(m: Map<Seq<char>, int>, s: Seq<RecordCache>)
    ensures
        s.filter(
            |it: RecordCache| needs_pull(lww_merge(m, s.filter(|x: RecordCache| needs_pull(m, x))), it),
        ) == Seq::<RecordCache>::empty(),
{
    let d = s.filter(|x: RecordCache| needs_pull(m, x));
    let m2 = lww_merge(m, d);
    lemma_merge_bounds(m, d);
    assert forall|i: int| 0 <= i < s.len() implies !needs_pull(m2, #[trigger] s[i]) by {
        if needs_pull(m, s[i]) {
            s.lemma_filter_contains(|x: RecordCache| needs_pull(m, x), i);
            let j = choose|j: int| 0 <= j < d.len() && d[j] == s[i];
            assert(m2.dom().contains(d[j].key()) && m2[d[j].key()] >= d[j].create_time);
        }
    }
    lemma_filter_none(s, |it: RecordCache| needs_pull(m2, it));
}

/// Register round-trip: after a node merges the diff it computed against a
/// peer's snapshot, its index covers every fingerprint of that snapshot with
/// a creation time at least as fresh.
pub proof fn lemma_register_round_trip(m: Map<Seq<char>, int>, snapshot: Seq<RecordCache>)
    ensures
        forall|i: int| 0 <= i < snapshot.len() ==> lww_merge(m,
            snapshot.filter(|x: RecordCache| needs_pull(m, x))).dom().contains(
            (#[trigger] snapshot[i]).key()) && lww_merge(m,
            snapshot.filter(|x: RecordCache| needs_pull(m, x)))[snapshot[i].key()]
            >= snapshot[i].create_time,
{
    let d = snapshot.filter(|x: RecordCache| needs_pull(m, x));
    let m2 = lww_merge(m, d);
    lemma_merge_bounds(m, d);
    assert forall|i: int| 0 <= i < snapshot.len() implies m2.dom().contains(
        (#[trigger] snapshot[i]).key()) && m2[snapshot[i].key()] >= snapshot[i].create_time by {
        if needs_pull(m, snapshot[i]) {
            snapshot.lemma_filter_contains(|x: RecordCache| needs_pull(m, x), i);
            let j = choose|j: int| 0 <= j < d.len() && d[j] == snapshot[i];
            assert(m2.dom().contains(d[j].key()) && m2[d[j].key()] >= d[j].create_time);
        }
    }
}

} // verus!
