//! A finite map keyed by byte strings: the storage maps of the pallets.
use vstd::prelude::*;
use crate::bytes::bytes_eq;

verus! {

/// The key of entry `i`.
pub open spec fn entry_key<V>(s: Seq<(Vec<u8>, V)>, i: int) -> Seq<u8> {
    s[i].0@
}

/// No two entries share a key.
pub open spec fn entries_distinct<V>(s: Seq<(Vec<u8>, V)>) -> bool {
    forall|i: int, j: int|
        0 <= i < s.len() && 0 <= j < s.len() && i != j
            ==> #[trigger] entry_key(s, i) != #[trigger] entry_key(s, j)
}

/// Some entry has key `k`.
pub open spec fn entries_have<V>(s: Seq<(Vec<u8>, V)>, k: Seq<u8>) -> bool {
    exists|i: int| 0 <= i < s.len() && entry_key(s, i) == k
}

/// The map that a list of entries stands for.
pub open spec fn entries_map<V>(s: Seq<(Vec<u8>, V)>) -> Map<Seq<u8>, V> {
    Map::new(
        |k: Seq<u8>| entries_have(s, k),
        |k: Seq<u8>| s[choose|i: int| 0 <= i < s.len() && entry_key(s, i) == k].1,
    )
}

proof fn lemma_entry<V>(s: Seq<(Vec<u8>, V)>, i: int)
    requires
        entries_distinct(s),
        0 <= i < s.len(),
    ensures
        entries_map(s).dom().contains(entry_key(s, i)),
        entries_map(s)[entry_key(s, i)] == s[i].1,
{
    let k = entry_key(s, i);
    assert(entries_have(s, k));
    let j = choose|x: int| 0 <= x < s.len() && entry_key(s, x) == k;
    if j != i {
        assert(entry_key(s, i) != entry_key(s, j));
    }
}

proof fn lemma_update<V>(s: Seq<(Vec<u8>, V)>, i: int, e: (Vec<u8>, V))
    requires
        entries_distinct(s),
        0 <= i < s.len(),
        e.0@ == entry_key(s, i),
    ensures
        entries_distinct(s.update(i, e)),
        entries_map(s.update(i, e)) == entries_map(s).insert(e.0@, e.1),
{
    let t = s.update(i, e);
    assert forall|a: int, b: int| 0 <= a < t.len() && 0 <= b < t.len() && a != b
        implies #[trigger] entry_key(t, a) != #[trigger] entry_key(t, b) by {
        assert(entry_key(t, a) == entry_key(s, a));
        assert(entry_key(t, b) == entry_key(s, b));
    }
    let m = entries_map(s).insert(e.0@, e.1);
    assert forall|k: Seq<u8>| #[trigger] entries_map(t).dom().contains(k) == m.dom().contains(k) by {
        if entries_have(t, k) {
            let j = choose|x: int| 0 <= x < t.len() && entry_key(t, x) == k;
            assert(entry_key(s, j) == k);
        }
        if entries_have(s, k) {
            let j = choose|x: int| 0 <= x < s.len() && entry_key(s, x) == k;
            assert(entry_key(t, j) == k);
        }
        if k == e.0@ {
            assert(entry_key(t, i) == k);
        }
    }
    assert forall|k: Seq<u8>| #[trigger] entries_map(t).dom().contains(k)
        implies entries_map(t)[k] == m[k] by {
        let j = choose|x: int| 0 <= x < t.len() && entry_key(t, x) == k;
        lemma_entry(t, j);
        if j != i {
            assert(entry_key(s, j) == k);
            lemma_entry(s, j);
        }
    }
    assert(entries_map(t) =~= m);
}

proof fn lemma_push<V>(s: Seq<(Vec<u8>, V)>, e: (Vec<u8>, V))
    requires
        entries_distinct(s),
        !entries_have(s, e.0@),
    ensures
        entries_distinct(s.push(e)),
        entries_map(s.push(e)) == entries_map(s).insert(e.0@, e.1),
{
    let t = s.push(e);
    let n = s.len() as int;
    assert forall|a: int, b: int| 0 <= a < t.len() && 0 <= b < t.len() && a != b
        implies #[trigger] entry_key(t, a) != #[trigger] entry_key(t, b) by {
        if a < n && b < n {
            assert(entry_key(t, a) == entry_key(s, a));
            assert(entry_key(t, b) == entry_key(s, b));
        } else if a < n {
            assert(entry_key(t, a) == entry_key(s, a));
        } else {
            assert(entry_key(t, b) == entry_key(s, b));
        }
    }
    let m = entries_map(s).insert(e.0@, e.1);
    assert forall|k: Seq<u8>| #[trigger] entries_map(t).dom().contains(k) == m.dom().contains(k) by {
        if entries_have(t, k) {
            let j = choose|x: int| 0 <= x < t.len() && entry_key(t, x) == k;
            if j < n {
                assert(entry_key(s, j) == k);
            }
        }
        if entries_have(s, k) {
            let j = choose|x: int| 0 <= x < s.len() && entry_key(s, x) == k;
            assert(entry_key(t, j) == k);
        }
        if k == e.0@ {
            assert(entry_key(t, n) == k);
        }
    }
    assert forall|k: Seq<u8>| #[trigger] entries_map(t).dom().contains(k)
        implies entries_map(t)[k] == m[k] by {
        let j = choose|x: int| 0 <= x < t.len() && entry_key(t, x) == k;
        lemma_entry(t, j);
        if j < n {
            assert(entry_key(s, j) == k);
            lemma_entry(s, j);
        }
    }
    assert(entries_map(t) =~= m);
}

proof fn lemma_remove<V>(s: Seq<(Vec<u8>, V)>, i: int)
    requires
        entries_distinct(s),
        0 <= i < s.len(),
    ensures
        entries_distinct(s.remove(i)),
        entries_map(s.remove(i)) == entries_map(s).remove(entry_key(s, i)),
{
    let t = s.remove(i);
    let ki = entry_key(s, i);
    assert forall|a: int| 0 <= a < t.len() implies #[trigger] entry_key(t, a)
        == entry_key(s, if a < i { a } else { a + 1 }) by {
    }
    assert forall|a: int, b: int| 0 <= a < t.len() && 0 <= b < t.len() && a != b
        implies #[trigger] entry_key(t, a) != #[trigger] entry_key(t, b) by {
        let a1 = if a < i { a } else { a + 1 };
        let b1 = if b < i { b } else { b + 1 };
        assert(entry_key(s, a1) != entry_key(s, b1));
    }
    let m = entries_map(s).remove(ki);
    assert forall|k: Seq<u8>| #[trigger] entries_map(t).dom().contains(k) == m.dom().contains(k) by {
        if entries_have(t, k) {
            let j = choose|x: int| 0 <= x < t.len() && entry_key(t, x) == k;
            let j1 = if j < i { j } else { j + 1 };
            assert(entry_key(s, j1) == k);
            assert(entry_key(s, j1) != ki);
        }
        if entries_have(s, k) && k != ki {
            let j = choose|x: int| 0 <= x < s.len() && entry_key(s, x) == k;
            assert(j != i);
            let j0 = if j < i { j } else { j - 1 };
            assert(entry_key(t, j0) == k);
        }
    }
    assert forall|k: Seq<u8>| #[trigger] entries_map(t).dom().contains(k)
        implies entries_map(t)[k] == m[k] by {
        let j = choose|x: int| 0 <= x < t.len() && entry_key(t, x) == k;
        lemma_entry(t, j);
        let j1 = if j < i { j } else { j + 1 };
        assert(entry_key(s, j1) == k);
        lemma_entry(s, j1);
    }
    assert(entries_map(t) =~= m);
}

/// The position of the entry with key `k`, if there is one.
fn find_entry<V>(entries: &Vec<(Vec<u8>, V)>, k: &[u8]) -> (r: Option<usize>)
    ensures
        match r {
            Some(i) => i < entries@.len() && entry_key(entries@, i as int) == k@,
            None => !entries_have(entries@, k@),
        },
{
    let n = entries.len();
    let mut i: usize = 0;
    while i < n
        invariant
            n == entries@.len(),
            i <= n,
            forall|j: int| 0 <= j < i ==> entry_key(entries@, j) != k@,
        decreases n - i,
    {
        if bytes_eq(entries[i].0.as_slice(), k) {
            return Some(i);
        }
        i = i + 1;
    }
    None
}

/// A finite map from byte strings to values, kept as a list of entries with
/// pairwise distinct keys.
pub struct ByteMap<V> {
    entries: Vec<(Vec<u8>, V)>,
}

impl<V> ByteMap<V> {
    /// No key occurs twice.
    #[verifier::type_invariant]
    closed spec fn keys_distinct(&self) -> bool {
        entries_distinct(self.entries@)
    }

    /// The map that the entries stand for.
    pub closed spec fn view(&self) -> Map<Seq<u8>, V> {
        entries_map(self.entries@)
    }

    /// An empty map.
    pub fn new() -> (m: Self)
        ensures
            m@ == Map::<Seq<u8>, V>::empty(),
    {
        let m = ByteMap { entries: Vec::new() };
        assert(m@ =~= Map::<Seq<u8>, V>::empty());
        m
    }

    /// The position of `k` among the entries, if it is there.
    fn find(&self, k: &[u8]) -> (r: Option<usize>)
        ensures
            match r {
                Some(i) => i < self.entries@.len() && entry_key(self.entries@, i as int) == k@,
                None => !entries_have(self.entries@, k@),
            },
    {
        find_entry(&self.entries, k)
    }

    /// Whether `k` has a value.
    pub fn contains_key(&self, k: &[u8]) -> (r: bool)
        ensures
            r == self@.dom().contains(k@),
    {
        proof { use_type_invariant(self); }
        match self.find(k) {
            Some(i) => {
                proof { lemma_entry(self.entries@, i as int); }
                true
            }
            None => false,
        }
    }

    /// The value of `k`, if it has one.
    pub fn get(&self, k: &[u8]) -> (r: Option<&V>)
        ensures
            match r {
                Some(v) => self@.dom().contains(k@) && *v == self@[k@],
                None => !self@.dom().contains(k@),
            },
    {
        proof { use_type_invariant(self); }
        match self.find(k) {
            Some(i) => {
                proof { lemma_entry(self.entries@, i as int); }
                Some(&self.entries[i].1)
            }
            None => None,
        }
    }

    /// Sets the value of `k` to `v`, replacing any value it had.
    pub fn insert(&mut self, k: Vec<u8>, v: V)
        ensures
            final(self)@ == old(self)@.insert(k@, v),
    {
        proof { use_type_invariant(&*self); }
        let mut entries: Vec<(Vec<u8>, V)> = Vec::new();
        std::mem::swap(&mut entries, &mut self.entries);
        let ghost before = entries@;
        let ghost kv = k@;
        let n = entries.len();
        let pos = find_entry(&entries, k.as_slice());
        let found = pos.is_some();
        let i: usize = match pos { Some(j) => j, None => 0 };
        if found {
            let _ = entries.remove(i);
            entries.insert(i, (k, v));
            proof {
                assert(entries@ =~= before.update(i as int, entries@[i as int]));
                lemma_update(before, i as int, entries@[i as int]);
            }
        } else {
            entries.push((k, v));
            proof {
                assert(entries@ =~= before.push(entries@[n as int]));
                lemma_push(before, entries@[n as int]);
            }
        }
        self.entries = entries;
    }

    /// Removes the value of `k`, handing it back if there was one.
    pub fn remove(&mut self, k: &[u8]) -> (r: Option<V>)
        ensures
            final(self)@ == old(self)@.remove(k@),
            match r {
                Some(v) => old(self)@.dom().contains(k@) && v == old(self)@[k@],
                None => !old(self)@.dom().contains(k@),
            },
    {
        proof { use_type_invariant(&*self); }
        match self.find(k) {
            Some(i) => {
                let mut entries: Vec<(Vec<u8>, V)> = Vec::new();
                std::mem::swap(&mut entries, &mut self.entries);
                let ghost before = entries@;
                let (_, v) = entries.remove(i);
                proof {
                    lemma_remove(before, i as int);
                    lemma_entry(before, i as int);
                }
                self.entries = entries;
                Some(v)
            }
            None => {
                proof {
                    assert(old(self)@ =~= old(self)@.remove(k@));
                }
                None
            }
        }
    }
}

} // verus!

verus! {

/// The list stored under `k`, or the empty list where `k` has none: how a
/// storage map with a default value reads.
pub open spec fn seq_at<T>(m: Map<Seq<u8>, Vec<T>>, k: Seq<u8>) -> Seq<T> {
    if m.dom().contains(k) {
        m[k]@
    } else {
        Seq::empty()
    }
}

/// The list stored under `k` (an empty list where `k` has none), taken out of the map.
pub fn take_list<T>(m: &mut ByteMap<Vec<T>>, k: &[u8]) -> (r: Vec<T>)
    ensures
        r@ == seq_at(old(m)@, k@),
        final(m)@ == old(m)@.remove(k@),
{
    match m.remove(k) {
        Some(v) => v,
        None => Vec::new(),
    }
}

/// Appends `x` to the list stored under `k` (an empty list where `k` has none).
pub fn push_to_list<T>(m: &mut ByteMap<Vec<T>>, k: Vec<u8>, x: T)
    ensures
        final(m)@.dom() == old(m)@.dom().insert(k@),
        forall|j: Seq<u8>| j != k@ && #[trigger] old(m)@.dom().contains(j) ==> final(m)@[j] == old(m)@[j],
        final(m)@[k@]@ == seq_at(old(m)@, k@).push(x),
{
    let mut v = take_list(m, k.as_slice());
    v.push(x);
    let ghost kv = k@;
    m.insert(k, v);
}

} // verus!
