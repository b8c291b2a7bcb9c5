use vstd::prelude::*;

use crate::text::str_eq;

verus! {

/// Rows stored under text keys, at most one row per key, kept in the order in
/// which their keys were first stored.
pub struct Table<V> {
    rows: Vec<(String, V)>,
}

pub open spec fn key_at<V>(rows: Seq<(String, V)>, k: Seq<char>, i: int) -> bool {
    0 <= i < rows.len() && rows[i].0@ == k
}

/// The place of `k` among `keys` (meaningful where it occurs).
pub open spec fn position(keys: Seq<Seq<char>>, k: Seq<char>) -> int {
    choose|i: int| 0 <= i < keys.len() && keys[i] == k
}

/// No key occurs twice.
pub open spec fn distinct_keys(keys: Seq<Seq<char>>) -> bool {
    forall|i: int, j: int| 0 <= i < j < keys.len() ==> keys[i] != keys[j]
}

impl<V: View> Table<V> {
    /// The keys, in storage order.
    pub closed spec fn keys(self) -> Seq<Seq<char>> {
        self.rows@.map_values(|r: (String, V)| r.0@)
    }

    /// The rows, in storage order.
    pub closed spec fn values(self) -> Seq<V::V> {
        self.rows@.map_values(|r: (String, V)| r.1@)
    }

    pub closed spec fn wf(self) -> bool {
        forall|i: int, j: int| 0 <= i < j < self.rows@.len() ==> self.rows@[i].0@ != self.rows@[j].0@
    }

    /// The rows by key.
    pub closed spec fn as_map(self) -> Map<Seq<char>, V::V> {
        Map::new(
            |k: Seq<char>| exists|i: int| key_at(self.rows@, k, i),
            |k: Seq<char>| self.rows@[choose|i: int| key_at(self.rows@, k, i)].1@,
        )
    }

    /// How the rows in storage order make up the rows by key.
    pub proof fn lemma_rows(self)
        requires
            self.wf(),
        ensures
            self.keys().len() == self.values().len(),
            distinct_keys(self.keys()),
            forall|i: int|
                0 <= i < self.keys().len() ==> #[trigger] self.as_map().contains_key(self.keys()[i])
                    && self.as_map()[self.keys()[i]] == self.values()[i],
            forall|k: Seq<char>| #[trigger]
                self.as_map().contains_key(k) <==> self.keys().contains(k),
            forall|k: Seq<char>|
                #[trigger] self.as_map().contains_key(k) ==> {
                    let p = position(self.keys(), k);
                    &&& 0 <= p < self.keys().len()
                    &&& self.keys()[p] == k
                    &&& self.values()[p] == self.as_map()[k]
                },
    {
        let keys = self.keys();
        assert forall|i: int| 0 <= i < keys.len() implies #[trigger] self.as_map().contains_key(keys[i])
            && self.as_map()[keys[i]] == self.values()[i] by {
            assert(key_at(self.rows@, keys[i], i));
            let c = choose|c: int| key_at(self.rows@, keys[i], c);
            assert(c == i) by {
                if c < i {
                    assert(self.rows@[c].0@ != self.rows@[i].0@);
                } else if c > i {
                    assert(self.rows@[i].0@ != self.rows@[c].0@);
                }
            }
        }
        assert forall|k: Seq<char>| #[trigger] self.as_map().contains_key(k) <==> keys.contains(k) by {
            if self.as_map().contains_key(k) {
                let c = choose|c: int| key_at(self.rows@, k, c);
                assert(keys[c] == k);
            }
            if keys.contains(k) {
                let c = choose|c: int| 0 <= c < keys.len() && keys[c] == k;
                assert(key_at(self.rows@, k, c));
            }
        }
        assert forall|k: Seq<char>| #[trigger] self.as_map().contains_key(k) implies {
            let p = position(keys, k);
            &&& 0 <= p < keys.len()
            &&& keys[p] == k
            &&& self.values()[p] == self.as_map()[k]
        } by {
            assert(keys.contains(k));
            let p = position(keys, k);
            assert(self.as_map().contains_key(keys[p]));
        }
    }

    /// The stored pairs of key and row, in storage order.
    pub closed spec fn pairs(self) -> Seq<(String, V)> {
        self.rows@
    }

    pub proof fn lemma_pairs(self)
        ensures
            self.pairs().len() == self.keys().len(),
            self.pairs().len() == self.values().len(),
            forall|i: int|
                0 <= i < self.pairs().len() ==> #[trigger] self.pairs()[i].0@ == self.keys()[i]
                    && self.pairs()[i].1@ == self.values()[i],
    {
    }

    /// The stored pairs of key and row.
    pub fn rows(&self) -> (r: &Vec<(String, V)>)
        ensures
            r@ == self.pairs(),
    {
        &self.rows
    }

    pub fn new() -> (t: Table<V>)
        ensures
            t.wf(),
            t.pairs() == Seq::<(String, V)>::empty(),
            t.as_map() == Map::<Seq<char>, V::V>::empty(),
            t.keys() == Seq::<Seq<char>>::empty(),
            t.values() == Seq::<V::V>::empty(),
    {
        let t = Table { rows: Vec::new() };
        assert(t.pairs() =~= Seq::<(String, V)>::empty());
        assert(t.as_map() =~= Map::<Seq<char>, V::V>::empty());
        assert(t.keys() =~= Seq::<Seq<char>>::empty());
        assert(t.values() =~= Seq::<V::V>::empty());
        t
    }

    pub fn len(&self) -> (n: usize)
        ensures
            n == self.values().len(),
            n == self.keys().len(),
    {
        self.rows.len()
    }

    pub fn key_of(&self, i: usize) -> (k: &str)
        requires
            i < self.keys().len(),
        ensures
            k@ == self.keys()[i as int],
    {
        self.rows[i].0.as_str()
    }

    pub fn value_of(&self, i: usize) -> (v: &V)
        requires
            i < self.values().len(),
        ensures
            v@ == self.values()[i as int],
    {
        &self.rows[i].1
    }

    /// The place of the row of `key`.
    pub fn find(&self, key: &str) -> (r: Option<usize>)
        requires
            self.wf(),
        ensures
            match r {
                Some(i) => i < self.keys().len() && self.keys()[i as int] == key@
                    && self.as_map().contains_key(key@),
                None => !self.as_map().contains_key(key@),
            },
    {
        proof {
            self.lemma_rows();
        }
        let mut i: usize = 0;
        while i < self.rows.len()
            invariant
                self.wf(),
                i <= self.rows@.len(),
                self.keys().len() == self.rows@.len(),
                forall|j: int| 0 <= j < i ==> self.keys()[j] != key@,
                forall|k: Seq<char>| #[trigger]
                    self.as_map().contains_key(k) <==> self.keys().contains(k),
            decreases self.rows@.len() - i,
        {
            if str_eq(self.rows[i].0.as_str(), key) {
                assert(self.keys()[i as int] == key@);
                assert(self.keys().contains(key@));
                return Some(i);
            }
            i = i + 1;
        }
        None
    }

    /// The row of `key`, if there is one.
    pub fn get(&self, key: &str) -> (r: Option<&V>)
        requires
            self.wf(),
        ensures
            match r {
                Some(v) => self.as_map().contains_key(key@) && v@ == self.as_map()[key@],
                None => !self.as_map().contains_key(key@),
            },
    {
        proof {
            self.lemma_rows();
        }
        match self.find(key) {
            Some(i) => Some(&self.rows[i].1),
            None => None,
        }
    }

    proof fn lemma_map_set(self, t: Self, i: int, v: V)
        requires
            self.wf(),
            0 <= i < self.rows@.len(),
            t.rows@ == self.rows@.update(i, (t.rows@[i].0, v)),
            t.rows@[i].0@ == self.rows@[i].0@,
        ensures
            t.wf(),
            t.as_map() == self.as_map().insert(self.rows@[i].0@, v@),
            t.keys() == self.keys(),
            t.values() == self.values().update(i, v@),
    {
        let k = self.rows@[i].0@;
        assert forall|a: int, b: int| 0 <= a < b < t.rows@.len() implies t.rows@[a].0@ != t.rows@[b].0@ by {
            assert(t.rows@[a].0@ == self.rows@[a].0@);
            assert(t.rows@[b].0@ == self.rows@[b].0@);
        }
        assert forall|k2: Seq<char>| #[trigger] t.as_map().contains_key(k2) == self.as_map().insert(k, v@).contains_key(k2) by {
            if exists|j: int| key_at(t.rows@, k2, j) {
                let j = choose|j: int| key_at(t.rows@, k2, j);
                if j != i {
                    assert(key_at(self.rows@, k2, j));
                }
            }
            if k2 != k && exists|j: int| key_at(self.rows@, k2, j) {
                let j = choose|j: int| key_at(self.rows@, k2, j);
                assert(key_at(t.rows@, k2, j));
            }
            if k2 == k {
                assert(key_at(t.rows@, k2, i));
            }
        }
        assert forall|k2: Seq<char>| #[trigger] t.as_map().contains_key(k2) implies t.as_map()[k2]
            == self.as_map().insert(k, v@)[k2] by {
            let j = choose|j: int| key_at(t.rows@, k2, j);
            if k2 == k {
                assert(j == i) by {
                    if j != i {
                        assert(t.rows@[j].0@ == t.rows@[i].0@);
                    }
                }
            } else {
                assert(key_at(self.rows@, k2, j));
                let j2 = choose|j2: int| key_at(self.rows@, k2, j2);
                assert(j2 == j) by {
                    if j2 != j {
                        assert(self.rows@[j2].0@ == self.rows@[j].0@);
                    }
                }
            }
        }
        assert(t.as_map() =~= self.as_map().insert(k, v@));
        assert(t.keys() =~= self.keys());
        assert(t.values() =~= self.values().update(i, v@));
    }

    proof fn lemma_map_push(self, t: Self, key: String, v: V)
        requires
            self.wf(),
            !self.as_map().contains_key(key@),
            t.rows@ == self.rows@.push((key, v)),
        ensures
            t.wf(),
            t.as_map() == self.as_map().insert(key@, v@),
            t.keys() == self.keys().push(key@),
            t.values() == self.values().push(v@),
    {
        let k = key@;
        let n = self.rows@.len() as int;
        assert forall|i: int| 0 <= i < n implies self.rows@[i].0@ != k by {
            if self.rows@[i].0@ == k {
                assert(key_at(self.rows@, k, i));
            }
        }
        assert forall|k2: Seq<char>| #[trigger] t.as_map().contains_key(k2) == self.as_map().insert(k, v@).contains_key(k2) by {
            if exists|j: int| key_at(self.rows@, k2, j) {
                let j = choose|j: int| key_at(self.rows@, k2, j);
                assert(key_at(t.rows@, k2, j));
            }
            if k2 == k {
                assert(key_at(t.rows@, k2, n));
            }
            if exists|j: int| key_at(t.rows@, k2, j) {
                let j = choose|j: int| key_at(t.rows@, k2, j);
                if j < n {
                    assert(key_at(self.rows@, k2, j));
                }
            }
        }
        assert forall|k2: Seq<char>| #[trigger] t.as_map().contains_key(k2) implies t.as_map()[k2]
            == self.as_map().insert(k, v@)[k2] by {
            let j = choose|j: int| key_at(t.rows@, k2, j);
            if k2 == k {
                assert(j == n);
            } else {
                assert(key_at(self.rows@, k2, j));
                let j2 = choose|j2: int| key_at(self.rows@, k2, j2);
                assert(j2 == j) by {
                    if j2 != j {
                        assert(self.rows@[j2].0@ == self.rows@[j].0@);
                    }
                }
            }
        }
        assert(t.as_map() =~= self.as_map().insert(k, v@));
        assert(t.keys() =~= self.keys().push(k));
        assert(t.values() =~= self.values().push(v@));
    }

    proof fn lemma_map_remove(self, t: Self, i: int)
        requires
            self.wf(),
            0 <= i < self.rows@.len(),
            t.rows@ == self.rows@.remove(i),
        ensures
            t.wf(),
            t.as_map() == self.as_map().remove(self.rows@[i].0@),
            t.keys() == self.keys().remove(i),
            t.values() == self.values().remove(i),
    {
        let k = self.rows@[i].0@;
        assert forall|a: int, b: int| 0 <= a < b < t.rows@.len() implies t.rows@[a].0@ != t.rows@[b].0@ by {
            let a2 = if a < i { a } else { a + 1 };
            let b2 = if b < i { b } else { b + 1 };
            assert(t.rows@[a] == self.rows@[a2]);
            assert(t.rows@[b] == self.rows@[b2]);
        }
        assert forall|k2: Seq<char>| #[trigger] t.as_map().contains_key(k2) == self.as_map().remove(k).contains_key(k2) by {
            if exists|j: int| key_at(t.rows@, k2, j) {
                let j = choose|j: int| key_at(t.rows@, k2, j);
                let j2 = if j < i { j } else { j + 1 };
                assert(t.rows@[j] == self.rows@[j2]);
                assert(key_at(self.rows@, k2, j2));
                assert(k2 != k);
            }
            if exists|j: int| key_at(self.rows@, k2, j) && k2 != k {
                let j = choose|j: int| key_at(self.rows@, k2, j) && k2 != k;
                assert(j != i);
                let j2 = if j < i { j } else { j - 1 };
                assert(t.rows@[j2] == self.rows@[j]);
                assert(key_at(t.rows@, k2, j2));
            }
        }
        assert forall|k2: Seq<char>| #[trigger] t.as_map().contains_key(k2) implies t.as_map()[k2]
            == self.as_map().remove(k)[k2] by {
            let j = choose|j: int| key_at(t.rows@, k2, j);
            let j2 = if j < i { j } else { j + 1 };
            assert(t.rows@[j] == self.rows@[j2]);
            assert(key_at(self.rows@, k2, j2));
            let j3 = choose|j3: int| key_at(self.rows@, k2, j3);
            assert(j3 == j2) by {
                if j3 != j2 {
                    assert(self.rows@[j3].0@ == self.rows@[j2].0@);
                }
            }
        }
        assert(t.as_map() =~= self.as_map().remove(k));
        assert(t.keys() =~= self.keys().remove(i));
        assert(t.values() =~= self.values().remove(i));
    }

    /// Replaces the row at `i`.
    pub fn set_value(&mut self, i: usize, v: V)
        requires
            old(self).wf(),
            i < old(self).keys().len(),
        ensures
            final(self).wf(),
            final(self).as_map() == old(self).as_map().insert(old(self).keys()[i as int], v@),
            final(self).keys() == old(self).keys(),
            final(self).values() == old(self).values().update(i as int, v@),
    {
        let ghost before = *self;
        let ghost vv = v;
        let (k, _old) = self.rows.remove(i);
        self.rows.insert(i, (k, v));
        assert(self.rows@ =~= before.rows@.update(i as int, (self.rows@[i as int].0, vv)));
        proof {
            before.lemma_map_set(*self, i as int, vv);
        }
    }

    /// Stores `v` under `key`: in the place of the row it replaces, or last.
    /// Tells whether a row was replaced.
    pub fn insert(&mut self, key: String, v: V) -> (replaced: bool)
        requires
            old(self).wf(),
        ensures
            final(self).wf(),
            replaced == old(self).as_map().contains_key(key@),
            final(self).as_map() == old(self).as_map().insert(key@, v@),
            replaced ==> final(self).keys() == old(self).keys() && final(self).values()
                == old(self).values().update(position(old(self).keys(), key@), v@),
            !replaced ==> final(self).keys() == old(self).keys().push(key@) && final(self).values()
                == old(self).values().push(v@) && final(self).pairs() == old(self).pairs().push((key, v)),
    {
        proof {
            self.lemma_rows();
        }
        match self.find(key.as_str()) {
            Some(i) => {
                proof {
                    let p = position(self.keys(), key@);
                    assert(p == i as int) by {
                        if p != i as int {
                            assert(self.keys()[p] == self.keys()[i as int]);
                        }
                    }
                }
                self.set_value(i, v);
                true
            },
            None => {
                let ghost before = *self;
                let ghost kk = key;
                let ghost vv = v;
                self.rows.push((key, v));
                proof {
                    before.lemma_map_push(*self, kk, vv);
                }
                false
            },
        }
    }

    /// Takes the row of `key` out, if there is one.
    pub fn remove(&mut self, key: &str) -> (r: Option<V>)
        requires
            old(self).wf(),
        ensures
            final(self).wf(),
            final(self).as_map() == old(self).as_map().remove(key@),
            match r {
                Some(v) => old(self).as_map().contains_key(key@) && v@ == old(self).as_map()[key@]
                    && v == old(self).pairs()[position(old(self).keys(), key@)].1
                    && final(self).pairs() == old(self).pairs().remove(position(old(self).keys(), key@))
                    && final(self).keys() == old(self).keys().remove(position(old(self).keys(), key@))
                    && final(self).values() == old(self).values().remove(
                    position(old(self).keys(), key@),
                ),
                None => !old(self).as_map().contains_key(key@) && final(self).keys() == old(self).keys()
                    && final(self).values() == old(self).values() && final(self).pairs() == old(self).pairs(),
            },
    {
        proof {
            self.lemma_rows();
        }
        match self.find(key) {
            Some(i) => {
                proof {
                    let p = position(self.keys(), key@);
                    assert(p == i as int) by {
                        if p != i as int {
                            assert(self.keys()[p] == self.keys()[i as int]);
                        }
                    }
                    assert(self.values()[i as int] == self.rows@[i as int].1@);
                }
                let ghost before = *self;
                let (_, v) = self.rows.remove(i);
                proof {
                    before.lemma_map_remove(*self, i as int);
                }
                Some(v)
            },
            None => {
                assert(self.as_map().remove(key@) =~= self.as_map());
                None
            },
        }
    }
}

impl<V: View> View for Table<V> {
    type V = Map<Seq<char>, V::V>;

    open spec fn view(&self) -> Map<Seq<char>, V::V> {
        self.as_map()
    }
}

} // verus!
