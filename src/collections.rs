use vstd::prelude::*;

use crate::ids::Id;

verus! {

/// Strictly ascending.
pub open spec fn increasing(s: Seq<u32>) -> bool {
    forall|i: int, j: int| 0 <= i < j < s.len() ==> s[i] < s[j]
}

proof fn lemma_insert_increasing(s: Seq<u32>, p: int, key: u32)
    requires
        increasing(s),
        0 <= p <= s.len(),
        forall|j: int| 0 <= j < p ==> s[j] < key,
        p < s.len() ==> s[p] > key,
    ensures
        increasing(s.insert(p, key)),
{
    let t = s.insert(p, key);
    assert forall|i: int, j: int| 0 <= i < j < t.len() implies t[i] < t[j] by {
        if j < p {
        } else if j == p {
        } else if i < p {
            assert(s[i] < key);
            if j - 1 > p {
                assert(s[p] < s[j - 1]);
            }
        } else if i == p {
            if j - 1 > p {
                assert(s[p] < s[j - 1]);
            }
        } else {
        }
    }
}

/// The value at a key that stands in a table's entries.
pub proof fn lemma_lookup_at<W>(s: Seq<(u32, W)>, n: int)
    requires
        increasing(keys_of(s)),
        0 <= n < s.len(),
    ensures
        lookup(s, s[n].0) == Some(s[n].1),
{
    let k = s[n].0;
    assert(s[n].0 == k);
    assert(has_key(s, k));
    let c = key_position(s, k);
    assert(keys_of(s)[c] == k && keys_of(s)[n] == k);
    if c < n {
        assert(keys_of(s)[c] < keys_of(s)[n]);
    } else if c > n {
        assert(keys_of(s)[n] < keys_of(s)[c]);
    }
}

pub proof fn lemma_push_to_set<A>(s: Seq<A>, e: A)
    ensures
        s.push(e).to_set() == s.to_set().insert(e),
{
    let t = s.push(e);
    assert forall|x: A| t.to_set().contains(x) == s.to_set().insert(e).contains(x) by {
        assert(t.to_set().contains(x) == t.contains(x));
        assert(s.to_set().contains(x) == s.contains(x));
        if s.contains(x) {
            let i = choose|i: int| 0 <= i < s.len() && s[i] == x;
            assert(t[i] == x);
        }
        if x == e {
            assert(t[s.len() as int] == x);
        }
        if t.contains(x) && x != e {
            let i = choose|i: int| 0 <= i < t.len() && t[i] == x;
            assert(s[i] == x);
        }
    }
    assert(t.to_set() =~= s.to_set().insert(e));
}

/// A set of indices of one kind, kept in ascending order.
#[derive(Debug, Clone)]
pub struct IdSet<K> {
    items: Vec<K>,
}

impl<K: Id> View for IdSet<K> {
    type V = Seq<u32>;

    closed spec fn view(&self) -> Seq<u32> {
        self.items@.map_values(|k: K| k.id())
    }
}

impl<K: Id> IdSet<K> {
    pub open spec fn wf(&self) -> bool {
        increasing(self@)
    }

    pub fn new() -> (r: Self)
        ensures
            r@ == Seq::<u32>::empty(),
            r.wf(),
    {
        let r = IdSet { items: Vec::new() };
        assert(r@ =~= Seq::<u32>::empty());
        r
    }

    pub fn len(&self) -> (r: usize)
        ensures
            r == self@.len(),
    {
        self.items.len()
    }

    /// The `i`-th smallest member.
    pub fn get(&self, i: usize) -> (r: K)
        requires
            i < self@.len(),
        ensures
            r.id() == self@[i as int],
    {
        self.items[i]
    }

    pub fn contains(&self, k: u32) -> (r: bool)
        ensures
            r == self@.contains(k),
    {
        let mut i: usize = 0;
        while i < self.items.len()
            invariant
                i <= self.items.len(),
                forall|j: int| 0 <= j < i ==> self@[j] != k,
            decreases self.items.len() - i,
        {
            if self.items[i].index() == k {
                assert(self@[i as int] == k);
                return true;
            }
            i = i + 1;
        }
        false
    }

    /// Adds `k`, keeping the members in ascending order.
    pub fn insert(&mut self, k: K)
        requires
            old(self).wf(),
        ensures
            final(self).wf(),
            final(self)@.to_set() == old(self)@.to_set().insert(k.id()),
    {
        let key = k.index();
        let mut p: usize = 0;
        while p < self.items.len() && self.items[p].index() < key
            invariant
                p <= self.items.len(),
                self.wf(),
                self@ == old(self)@,
                forall|j: int| 0 <= j < p ==> self@[j] < key,
            decreases self.items.len() - p,
        {
            p = p + 1;
        }
        if p < self.items.len() && self.items[p].index() == key {
            assert(self@[p as int] == key);
            assert(old(self)@.to_set().contains(key));
            assert(old(self)@.to_set().insert(k.id()) =~= old(self)@.to_set());
            return;
        }
        let ghost before = self@;
        proof {
            lemma_insert_increasing(before, p as int, key);
        }
        self.items.insert(p, k);
        assert(self@ =~= before.insert(p as int, key));
        assert forall|x: u32| self@.contains(x) <==> (before.contains(x) || x == key) by {
            if before.contains(x) {
                let i = choose|i: int| 0 <= i < before.len() && before[i] == x;
                if i < p {
                    assert(self@[i] == x);
                } else {
                    assert(self@[i + 1] == x);
                }
            }
            if x == key {
                assert(self@[p as int] == x);
            }
            if self@.contains(x) {
                let i = choose|i: int| 0 <= i < self@.len() && self@[i] == x;
                if i < p {
                    assert(before[i] == x);
                } else if i > p {
                    assert(before[i - 1] == x);
                }
            }
        }
        assert forall|x: u32| self@.to_set().contains(x) == before.to_set().insert(key).contains(x) by {
            assert(self@.to_set().contains(x) == self@.contains(x));
            assert(before.to_set().contains(x) == before.contains(x));
        }
        assert(self@.to_set() =~= before.to_set().insert(key));
    }
}

/// A table keyed by indices of one kind, kept in ascending key order.
#[derive(Debug, Clone)]
pub struct Table<K, V> {
    entries: Vec<(K, V)>,
}

/// The keys of a table's entries, in order.
pub open spec fn keys_of<W>(s: Seq<(u32, W)>) -> Seq<u32> {
    s.map_values(|e: (u32, W)| e.0)
}

/// The value that a table's entries give for `k`.
pub open spec fn lookup<W>(s: Seq<(u32, W)>, k: u32) -> Option<W> {
    if has_key(s, k) {
        Some(s[key_position(s, k)].1)
    } else {
        None
    }
}

pub open spec fn has_key<W>(s: Seq<(u32, W)>, k: u32) -> bool {
    exists|i: int| 0 <= i < s.len() && s[i].0 == k
}

/// Where key `k` stands among a table's entries.
pub open spec fn key_position<W>(s: Seq<(u32, W)>, k: u32) -> int {
    choose|i: int| 0 <= i < s.len() && s[i].0 == k
}

impl<K: Id, V: View> View for Table<K, V> {
    type V = Seq<(u32, V::V)>;

    closed spec fn view(&self) -> Seq<(u32, V::V)> {
        self.entries@.map_values(|e: (K, V)| (e.0.id(), e.1@))
    }
}

impl<K: Id, V: View> Table<K, V> {
    pub open spec fn wf(&self) -> bool {
        increasing(keys_of(self@))
    }

    pub fn new() -> (r: Self)
        ensures
            r@ == Seq::<(u32, V::V)>::empty(),
            r.wf(),
    {
        let r = Table { entries: Vec::new() };
        assert(r@ =~= Seq::<(u32, V::V)>::empty());
        r
    }

    pub fn len(&self) -> (r: usize)
        ensures
            r == self@.len(),
    {
        self.entries.len()
    }

    /// The `i`-th entry in key order.
    pub fn entry(&self, i: usize) -> (r: (&K, &V))
        requires
            i < self@.len(),
        ensures
            (r.0.id(), r.1@) == self@[i as int],
    {
        let e = &self.entries[i];
        (&e.0, &e.1)
    }

    pub fn get(&self, k: u32) -> (r: Option<&V>)
        requires
            self.wf(),
        ensures
            r matches Some(v) ==> lookup(self@, k) == Some(v@),
            r is None ==> lookup(self@, k) is None,
    {
        let mut i: usize = 0;
        while i < self.entries.len()
            invariant
                i <= self.entries.len(),
                self.wf(),
                forall|j: int| 0 <= j < i ==> self@[j].0 != k,
            decreases self.entries.len() - i,
        {
            if self.entries[i].0.index() == k {
                assert(self@[i as int].0 == k);
                assert(self@[i as int].1 == self.entries@[i as int].1@);
                proof {
                    lemma_lookup_at(self@, i as int);
                }
                return Some(&self.entries[i].1);
            }
            i = i + 1;
        }
        None
    }

    /// Sets the value of `k`, replacing any earlier one.
    pub fn insert(&mut self, k: K, v: V)
        requires
            old(self).wf(),
        ensures
            final(self).wf(),
            lookup(final(self)@, k.id()) == Some(v@),
            forall|j: u32| j != k.id() ==> lookup(final(self)@, j) == lookup(old(self)@, j),
            forall|i: int|
                0 <= i < final(self)@.len() ==> final(self)@[i] == (k.id(), v@) || old(
                    self,
                )@.contains(#[trigger] final(self)@[i]),
    {
        let key = k.index();
        let ghost before = self@;
        let mut p: usize = 0;
        while p < self.entries.len() && self.entries[p].0.index() < key
            invariant
                p <= self.entries.len(),
                self@ == before,
                increasing(keys_of(before)),
                forall|j: int| 0 <= j < p ==> self@[j].0 < key,
            decreases self.entries.len() - p,
        {
            p = p + 1;
        }
        let ghost vv = v@;
        if p < self.entries.len() && self.entries[p].0.index() == key {
            self.entries.set(p, (k, v));
            assert(self@ =~= before.update(p as int, (key, vv)));
            assert(keys_of(self@) =~= keys_of(before));
        } else {
            proof {
                lemma_insert_increasing(keys_of(before), p as int, key);
            }
            self.entries.insert(p, (k, v));
            assert(self@ =~= before.insert(p as int, (key, vv)));
            assert(keys_of(self@) =~= keys_of(before).insert(p as int, key));
        }
        assert forall|j: u32| j != key implies lookup(self@, j) == lookup(before, j) by {
            let s = self@;
            if has_key(before, j) {
                let i = key_position(before, j);
                let i2 = if i < p { i } else if s.len() == before.len() { i } else { i + 1 };
                assert(s[i2].0 == j);
                assert(s[i2].1 == before[i].1);
                lemma_lookup_at(s, i2);
                lemma_lookup_at(before, i);
            }
            if has_key(s, j) {
                let i = key_position(s, j);
                let i2 = if i < p { i } else if s.len() == before.len() { i } else { i - 1 };
                assert(before[i2].0 == j);
            }
        }
        assert forall|i: int| 0 <= i < self@.len() implies self@[i] == (key, vv) || before.contains(
            #[trigger] self@[i],
        ) by {
            if self@.len() == before.len() {
                if i != p {
                    assert(self@[i] == before[i]);
                }
            } else if i < p {
                assert(self@[i] == before[i]);
            } else if i > p {
                assert(self@[i] == before[i - 1]);
            }
        }
        proof {
            let s = self@;
            assert(s[p as int].0 == key);
            assert(s[p as int].1 == vv);
            lemma_lookup_at(s, p as int);
        }
    }
}

} // verus!
