use vstd::prelude::*;
use vstd::slice::slice_to_vec;
use crate::bytes_order::{bytes_lt, compare_bytes, lemma_bytes_lt_asymmetric, lemma_bytes_lt_transitive};

verus! {

/// A property entry as plain sequences: key, then value.
pub type PairSeq = Seq<(Seq<u8>, Seq<u8>)>;

/// The map that results from inserting the pairs in order, later pairs
/// replacing earlier ones with the same key.
pub open spec fn map_of(s: PairSeq) -> Map<Seq<u8>, Seq<u8>>
    decreases s.len(),
{
    if s.len() == 0 {
        Map::empty()
    } else {
        map_of(s.drop_last()).insert(s.last().0, s.last().1)
    }
}

/// The keys strictly increase in byte-lexicographic order.
pub open spec fn keys_sorted(s: PairSeq) -> bool {
    forall|i: int, j: int| 0 <= i < j < s.len() ==> bytes_lt(#[trigger] s[i].0, #[trigger] s[j].0)
}

/// No key occurs twice.
pub open spec fn keys_unique(s: PairSeq) -> bool {
    forall|i: int, j: int|
        0 <= i < s.len() && 0 <= j < s.len() && #[trigger] s[i].0 == #[trigger] s[j].0 ==> i == j
}

pub proof fn lemma_sorted_keys_unique(s: PairSeq)
    requires
        keys_sorted(s),
    ensures
        keys_unique(s),
{
    assert forall|i: int, j: int|
        0 <= i < s.len() && 0 <= j < s.len() && #[trigger] s[i].0 == #[trigger] s[j].0 implies i
        == j by {
        if i < j {
            lemma_bytes_lt_asymmetric(s[i].0, s[j].0);
        } else if j < i {
            lemma_bytes_lt_asymmetric(s[j].0, s[i].0);
        }
    }
}

/// Each pair of a sequence with unique keys is found in its map.
pub proof fn lemma_map_of_index(s: PairSeq, i: int)
    requires
        keys_unique(s),
        0 <= i < s.len(),
    ensures
        map_of(s).contains_key(s[i].0),
        map_of(s)[s[i].0] == s[i].1,
    decreases s.len(),
{
    if i < s.len() - 1 {
        let d = s.drop_last();
        assert(d[i] == s[i]);
        assert forall|x: int, y: int|
            0 <= x < d.len() && 0 <= y < d.len() && #[trigger] d[x].0 == #[trigger] d[y].0 implies x
            == y by {
            assert(d[x] == s[x] && d[y] == s[y]);
        }
        lemma_map_of_index(d, i);
        assert(s[i].0 != s[s.len() - 1].0);
    }
}

/// A key of the map is the key of some pair.
pub proof fn lemma_map_of_domain(s: PairSeq, k: Seq<u8>)
    requires
        map_of(s).contains_key(k),
    ensures
        exists|i: int| 0 <= i < s.len() && #[trigger] s[i].0 == k,
    decreases s.len(),
{
    if s.last().0 != k {
        let d = s.drop_last();
        lemma_map_of_domain(d, k);
        let i = choose|i: int| 0 <= i < d.len() && #[trigger] d[i].0 == k;
        assert(s[i] == d[i]);
    }
}

/// Inserting a pair with a new key anywhere in the sequence inserts it in the map.
pub proof fn lemma_map_of_insert_new(s: PairSeq, p: int, k: Seq<u8>, v: Seq<u8>)
    requires
        0 <= p <= s.len(),
        forall|i: int| 0 <= i < s.len() ==> #[trigger] s[i].0 != k,
    ensures
        map_of(s.insert(p, (k, v))) == map_of(s).insert(k, v),
    decreases s.len(),
{
    let t = s.insert(p, (k, v));
    if p == s.len() {
        assert(t.drop_last() =~= s);
    } else {
        let d = s.drop_last();
        assert(t.drop_last() =~= d.insert(p, (k, v)));
        assert forall|i: int| 0 <= i < d.len() implies #[trigger] d[i].0 != k by {
            assert(d[i] == s[i]);
        }
        lemma_map_of_insert_new(d, p, k, v);
        assert(t.last() == s.last());
        assert(s.last().0 != k);
        assert(map_of(t) =~= map_of(s).insert(k, v));
    }
}

/// Replacing the value of a pair whose key is unique replaces it in the map.
pub proof fn lemma_map_of_update(s: PairSeq, p: int, v: Seq<u8>)
    requires
        keys_unique(s),
        0 <= p < s.len(),
    ensures
        map_of(s.update(p, (s[p].0, v))) == map_of(s).insert(s[p].0, v),
    decreases s.len(),
{
    let k = s[p].0;
    let t = s.update(p, (k, v));
    let d = s.drop_last();
    if p == s.len() - 1 {
        assert(t.drop_last() =~= d);
        assert(map_of(t) =~= map_of(s).insert(k, v));
    } else {
        assert(t.drop_last() =~= d.update(p, (k, v)));
        assert forall|x: int, y: int|
            0 <= x < d.len() && 0 <= y < d.len() && #[trigger] d[x].0 == #[trigger] d[y].0 implies x
            == y by {
            assert(d[x] == s[x] && d[y] == s[y]);
        }
        assert(d[p] == s[p]);
        lemma_map_of_update(d, p, v);
        assert(s.last().0 != k);
        assert(map_of(t) =~= map_of(s).insert(k, v));
    }
}

/// A mapping from byte-string keys to byte-string values, held in ascending
/// byte-lexicographic order of keys, each key once. It owns its bytes.
pub struct PropertyMap {
    entries: Vec<(Vec<u8>, Vec<u8>)>,
}

impl PropertyMap {
    /// The entries as plain sequences, in key order.
    pub closed spec fn pairs(&self) -> PairSeq {
        self.entries@.map_values(|e: (Vec<u8>, Vec<u8>)| (e.0@, e.1@))
    }

    #[verifier::type_invariant]
    spec fn sorted(&self) -> bool {
        keys_sorted(self.pairs())
    }

    /// An empty map.
    pub fn new() -> (r: PropertyMap)
        ensures
            r@ == Map::<Seq<u8>, Seq<u8>>::empty(),
            r.pairs().len() == 0,
    {
        let r = PropertyMap { entries: Vec::new() };
        assert(r.pairs() =~= Seq::<(Seq<u8>, Seq<u8>)>::empty());
        r
    }

    /// The number of entries; the entries are in strictly ascending key order.
    pub fn len(&self) -> (r: usize)
        ensures
            r as int == self.pairs().len(),
            keys_sorted(self.pairs()),
    {
        proof {
            use_type_invariant(self);
        }
        self.entries.len()
    }

    /// The key and value of the `i`-th entry in key order.
    pub fn entry(&self, i: usize) -> (r: (&[u8], &[u8]))
        requires
            i < self.pairs().len(),
        ensures
            r.0@ == self.pairs()[i as int].0,
            r.1@ == self.pairs()[i as int].1,
            self@.contains_key(r.0@),
            self@[r.0@] == r.1@,
    {
        proof {
            use_type_invariant(self);
            lemma_sorted_keys_unique(self.pairs());
            lemma_map_of_index(self.pairs(), i as int);
        }
        let e = &self.entries[i];
        (e.0.as_slice(), e.1.as_slice())
    }

    /// The value stored under `key`, if any.
    pub fn get(&self, key: &[u8]) -> (r: Option<&[u8]>)
        ensures
            r.is_some() <==> self@.contains_key(key@),
            r.is_some() ==> r.unwrap()@ == self@[key@],
    {
        proof {
            use_type_invariant(self);
            lemma_sorted_keys_unique(self.pairs());
        }
        let ghost s = self.pairs();
        let mut i: usize = 0;
        while i < self.entries.len()
            invariant
                s == self.pairs(),
                keys_unique(s),
                0 <= i <= s.len(),
                forall|j: int| 0 <= j < i ==> #[trigger] s[j].0 != key@,
            decreases self.entries.len() - i,
        {
            let e = &self.entries[i];
            if compare_bytes(e.0.as_slice(), key) == 0 {
                proof {
                    lemma_map_of_index(s, i as int);
                }
                return Some(e.1.as_slice());
            }
            i = i + 1;
        }
        proof {
            if self@.contains_key(key@) {
                lemma_map_of_domain(s, key@);
            }
        }
        None
    }

    /// Hands each entry, in key order, to `sink`, which keeps a copy; entries
    /// of `sink` under other keys stay, those under equal keys are replaced.
    pub fn add_all_to(&self, sink: &mut PropertyMap)
        ensures
            final(sink)@ == old(sink)@.union_prefer_right(self@),
    {
        let ghost s = self.pairs();
        let ghost start = sink@;
        let mut i: usize = 0;
        while i < self.entries.len()
            invariant
                s == self.pairs(),
                0 <= i <= s.len(),
                sink@ == start.union_prefer_right(map_of(s.take(i as int))),
            decreases self.entries.len() - i,
        {
            let e = &self.entries[i];
            sink.insert(e.0.as_slice(), e.1.as_slice());
            proof {
                assert(s.take(i + 1).drop_last() =~= s.take(i as int));
                assert(sink@ =~= start.union_prefer_right(map_of(s.take(i + 1))));
            }
            i = i + 1;
        }
        assert(s.take(i as int) =~= s);
    }

    /// A fresh map, owning copies of all entries of this one.
    pub fn copied(&self) -> (r: PropertyMap)
        ensures
            r@ == self@,
    {
        let mut r = PropertyMap::new();
        self.add_all_to(&mut r);
        assert(r@ =~= self@);
        r
    }

    /// Whether the map has no entry.
    pub fn is_empty(&self) -> (r: bool)
        ensures
            r <==> self.pairs().len() == 0,
            r <==> self@ == Map::<Seq<u8>, Seq<u8>>::empty(),
    {
        proof {
            if self.pairs().len() > 0 {
                use_type_invariant(self);
                lemma_sorted_keys_unique(self.pairs());
                lemma_map_of_index(self.pairs(), 0);
            } else {
                assert(self.pairs() =~= Seq::<(Seq<u8>, Seq<u8>)>::empty());
            }
        }
        self.entries.len() == 0
    }

    /// Inserts a copy of `key` and `value`, replacing the value of an equal key.
    pub fn insert(&mut self, key: &[u8], value: &[u8])
        ensures
            final(self)@ == old(self)@.insert(key@, value@),
    {
        proof {
            use_type_invariant(&*self);
        }
        let mut entries: Vec<(Vec<u8>, Vec<u8>)> = Vec::new();
        std::mem::swap(&mut entries, &mut self.entries);
        let ghost s = entries@.map_values(|e: (Vec<u8>, Vec<u8>)| (e.0@, e.1@));
        let mut p: usize = 0;
        let mut found = false;
        while p < entries.len()
            invariant
                s == entries@.map_values(|e: (Vec<u8>, Vec<u8>)| (e.0@, e.1@)),
                keys_sorted(s),
                0 <= p <= entries.len(),
                forall|j: int| 0 <= j < p ==> bytes_lt(#[trigger] s[j].0, key@),
                found ==> p < entries.len() && s[p as int].0 == key@,
            ensures
                found ==> p < entries.len() && s[p as int].0 == key@,
                !found && p < entries.len() ==> bytes_lt(key@, s[p as int].0),
            decreases entries.len() - p,
        {
            let c = compare_bytes(entries[p].0.as_slice(), key);
            if c == 0 {
                found = true;
                break;
            } else if c == 1 {
                break;
            }
            p = p + 1;
        }
        let item = (slice_to_vec(key), slice_to_vec(value));
        proof {
            lemma_sorted_keys_unique(s);
        }
        if found {
            entries.set(p, item);
            proof {
                let t = entries@.map_values(|e: (Vec<u8>, Vec<u8>)| (e.0@, e.1@));
                assert(t =~= s.update(p as int, (s[p as int].0, value@)));
                lemma_map_of_update(s, p as int, value@);
                assert forall|i: int, j: int| 0 <= i < j < t.len() implies bytes_lt(
                    #[trigger] t[i].0,
                    #[trigger] t[j].0,
                ) by {
                    assert(t[i].0 == s[i].0 && t[j].0 == s[j].0);
                }
            }
        } else {
            entries.insert(p, item);
            proof {
                let t = entries@.map_values(|e: (Vec<u8>, Vec<u8>)| (e.0@, e.1@));
                assert(t =~= s.insert(p as int, (key@, value@)));
                assert forall|i: int| 0 <= i < s.len() implies #[trigger] s[i].0 != key@ by {
                    if i < p {
                        lemma_bytes_lt_asymmetric(s[i].0, key@);
                    } else {
                        if i > p {
                            lemma_bytes_lt_transitive(key@, s[p as int].0, s[i].0);
                        }
                        lemma_bytes_lt_asymmetric(key@, s[i].0);
                    }
                }
                lemma_map_of_insert_new(s, p as int, key@, value@);
                assert forall|i: int, j: int| 0 <= i < j < t.len() implies bytes_lt(
                    #[trigger] t[i].0,
                    #[trigger] t[j].0,
                ) by {
                    if j < p {
                    } else if j == p {
                    } else if i < p {
                        assert(t[j] == s[j - 1]);
                        if j - 1 > p {
                            lemma_bytes_lt_transitive(key@, s[p as int].0, s[j - 1].0);
                        }
                        lemma_bytes_lt_transitive(s[i].0, key@, s[j - 1].0);
                    } else if i == p {
                        if j - 1 > p {
                            lemma_bytes_lt_transitive(key@, s[p as int].0, s[j - 1].0);
                        }
                    } else {
                        assert(t[i] == s[i - 1] && t[j] == s[j - 1]);
                    }
                }
            }
        }
        self.entries = entries;
    }
}

impl View for PropertyMap {
    type V = Map<Seq<u8>, Seq<u8>>;

    open spec fn view(&self) -> Map<Seq<u8>, Seq<u8>> {
        map_of(self.pairs())
    }
}

} // verus!
