//! An insertion-ordered map from names to values.
use vstd::prelude::*;

verus! {

/// The position of the first entry with key `k`, searching from `i`; the length if none.
pub open spec fn key_index(ps: Seq<(Seq<char>, Seq<char>)>, k: Seq<char>, i: nat) -> nat
    decreases ps.len() - i,
{
    if i >= ps.len() {
        ps.len()
    } else if ps[i as int].0 == k {
        i
    } else {
        key_index(ps, k, i + 1)
    }
}

/// The value bound to `k`, if any.
pub open spec fn lookup(ps: Seq<(Seq<char>, Seq<char>)>, k: Seq<char>) -> Option<Seq<char>> {
    let j = key_index(ps, k, 0);
    if j < ps.len() {
        Some(ps[j as int].1)
    } else {
        None
    }
}

/// The entries after binding `k` to `v`: an existing binding is replaced in place, a new
/// one goes to the end.
pub open spec fn inserted(ps: Seq<(Seq<char>, Seq<char>)>, k: Seq<char>, v: Seq<char>) -> Seq<(Seq<char>, Seq<char>)> {
    let j = key_index(ps, k, 0);
    if j < ps.len() {
        ps.update(j as int, (k, v))
    } else {
        ps.push((k, v))
    }
}

pub proof fn lemma_key_index(ps: Seq<(Seq<char>, Seq<char>)>, k: Seq<char>, i: nat)
    requires
        i <= ps.len(),
    ensures
        i <= key_index(ps, k, i) <= ps.len(),
        key_index(ps, k, i) < ps.len() ==> ps[key_index(ps, k, i) as int].0 == k,
        forall|m: int| i <= m < key_index(ps, k, i) ==> ps[m].0 != k,
    decreases ps.len() - i,
{
    if i < ps.len() && ps[i as int].0 != k {
        lemma_key_index(ps, k, i + 1);
    }
}

/// The first position of `k` is the first `m` with that key, whatever `i <= m` the search
/// starts from, as long as no earlier position from `i` holds the key.
proof fn lemma_key_index_unique(ps: Seq<(Seq<char>, Seq<char>)>, k: Seq<char>, i: nat, m: nat)
    requires
        i <= m <= ps.len(),
        m < ps.len() ==> ps[m as int].0 == k,
        forall|x: int| i <= x < m ==> ps[x].0 != k,
    ensures
        key_index(ps, k, i) == m,
    decreases m - i,
{
    if i < m {
        lemma_key_index_unique(ps, k, i + 1, m);
    }
}

/// After binding `k` to `v`, looking `k` up gives `v`, and every other name keeps its value.
pub proof fn lookup_after_insert(ps: Seq<(Seq<char>, Seq<char>)>, k: Seq<char>, v: Seq<char>, other: Seq<char>)
    ensures
        lookup(inserted(ps, k, v), k) == Some(v),
        other != k ==> lookup(inserted(ps, k, v), other) == lookup(ps, other),
{
    lemma_key_index(ps, k, 0);
    lemma_key_index(ps, other, 0);
    let j = key_index(ps, k, 0);
    let qs = inserted(ps, k, v);
    lemma_key_index(qs, k, 0);
    lemma_key_index(qs, other, 0);
    if j < ps.len() {
        lemma_key_index_unique(qs, k, 0, j);
        if other != k {
            let o = key_index(ps, other, 0);
            assert forall|x: int| 0 <= x < o implies qs[x].0 != other by {
                if x != j {
                    assert(qs[x] == ps[x]);
                }
            }
            if o < ps.len() {
                assert(o != j);
                assert(qs[o as int] == ps[o as int]);
            }
            lemma_key_index_unique(qs, other, 0, o);
        }
    } else {
        lemma_key_index_unique(qs, k, 0, j);
        if other != k {
            let o = key_index(ps, other, 0);
            assert forall|x: int| 0 <= x < o implies qs[x].0 != other by {
                assert(qs[x] == ps[x]);
            }
            if o < ps.len() {
                assert(qs[o as int] == ps[o as int]);
                lemma_key_index_unique(qs, other, 0, o);
            } else {
                assert(qs[ps.len() as int].0 == k);
                lemma_key_index_unique(qs, other, 0, qs.len());
            }
        }
    }
}

/// A map from names to values that keeps the order of insertion.
#[derive(Debug)]
pub struct VarMap {
    pub entries: Vec<(String, String)>,
}

impl VarMap {
    /// The entries as character sequences.
    pub open spec fn pairs(&self) -> Seq<(Seq<char>, Seq<char>)> {
        self.entries@.map_values(|e: (String, String)| (e.0@, e.1@))
    }

    pub fn new() -> (r: Self)
        ensures
            r.pairs() == Seq::<(Seq<char>, Seq<char>)>::empty(),
    {
        let r = VarMap { entries: Vec::new() };
        assert(r.pairs() =~= Seq::<(Seq<char>, Seq<char>)>::empty());
        r
    }

    pub fn len(&self) -> (r: usize)
        ensures
            r == self.pairs().len(),
    {
        self.entries.len()
    }

    fn position(&self, key: &String) -> (r: usize)
        ensures
            r == key_index(self.pairs(), key@, 0),
    {
        let mut i: usize = 0;
        while i < self.entries.len()
            invariant
                i <= self.entries.len(),
                key_index(self.pairs(), key@, 0) == key_index(self.pairs(), key@, i as nat),
            decreases self.entries.len() - i,
        {
            if self.entries[i].0 == *key {
                return i;
            }
            i = i + 1;
        }
        i
    }

    /// The value bound to `key`.
    pub fn get(&self, key: &String) -> (r: Option<String>)
        ensures
            r.is_some() == lookup(self.pairs(), key@).is_some(),
            r.is_some() ==> r.unwrap()@ == lookup(self.pairs(), key@).unwrap(),
    {
        let j = self.position(key);
        if j < self.entries.len() {
            Some(self.entries[j].1.clone())
        } else {
            None
        }
    }

    /// Whether `key` is bound.
    pub fn contains_key(&self, key: &String) -> (r: bool)
        ensures
            r == lookup(self.pairs(), key@).is_some(),
    {
        self.position(key) < self.entries.len()
    }

    /// Binds `key` to `value`, replacing an earlier binding of `key` in place.
    pub fn insert(&mut self, key: String, value: String)
        ensures
            final(self).pairs() == inserted(old(self).pairs(), key@, value@),
    {
        let j = self.position(&key);
        let ghost ps = self.pairs();
        let ghost (k, v) = (key@, value@);
        if j < self.entries.len() {
            self.entries.set(j, (key, value));
            assert(self.pairs() =~= ps.update(j as int, (k, v)));
        } else {
            self.entries.push((key, value));
            assert(self.pairs() =~= ps.push((k, v)));
        }
    }
}

impl Clone for VarMap {
    fn clone(&self) -> (r: Self)
        ensures
            r.entries@ == self.entries@,
    {
        let mut entries: Vec<(String, String)> = Vec::new();
        let mut i: usize = 0;
        while i < self.entries.len()
            invariant
                i <= self.entries.len(),
                entries@ == self.entries@.subrange(0, i as int),
            decreases self.entries.len() - i,
        {
            let e = (self.entries[i].0.clone(), self.entries[i].1.clone());
            entries.push(e);
            assert(entries@ =~= self.entries@.subrange(0, i + 1));
            i = i + 1;
        }
        assert(entries@ =~= self.entries@);
        VarMap { entries }
    }
}

} // verus!
