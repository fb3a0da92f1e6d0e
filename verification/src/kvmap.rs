//! A small association map with integer keys, kept as a vector of pairs
//! with distinct keys. It backs the virtual device model: configurations,
//! interfaces, alternates, endpoints and strings are all keyed by small
//! integers, and iteration order is the insertion order.

use vstd::prelude::*;

verus! {

/// No key occurs twice.
pub open spec fn distinct_keys<V>(s: Seq<(u64, V)>) -> bool {
    forall|i: int, j: int| 0 <= i < j < s.len() ==> (#[trigger] s[i]).0 != (#[trigger] s[j]).0
}

/// The map described by a sequence of pairs; later pairs win, which does
/// not matter once keys are distinct.
pub open spec fn map_of<V>(s: Seq<(u64, V)>) -> Map<u64, V>
    decreases s.len(),
{
    if s.len() == 0 {
        Map::empty()
    } else {
        map_of(s.drop_last()).insert(s.last().0, s.last().1)
    }
}

pub proof fn lemma_map_of_contains<V>(s: Seq<(u64, V)>, k: u64)
    ensures
        map_of(s).contains_key(k) <==> exists|i: int| 0 <= i < s.len() && (#[trigger] s[i]).0 == k,
    decreases s.len(),
{
    if s.len() > 0 {
        lemma_map_of_contains(s.drop_last(), k);
        if map_of(s).contains_key(k) {
            if s.last().0 != k {
                let i = choose|i: int| 0 <= i < s.drop_last().len() && (#[trigger] s.drop_last()[i]).0 == k;
                assert(s[i].0 == k);
            } else {
                assert(s[s.len() - 1].0 == k);
            }
        } else {
            assert(forall|i: int| 0 <= i < s.len() - 1 ==> s.drop_last()[i] == s[i]);
        }
    }
}

pub proof fn lemma_map_of_get<V>(s: Seq<(u64, V)>, i: int)
    requires
        distinct_keys(s),
        0 <= i < s.len(),
    ensures
        map_of(s).contains_key(s[i].0),
        map_of(s)[s[i].0] == s[i].1,
    decreases s.len(),
{
    if i == s.len() - 1 {
    } else {
        assert(distinct_keys(s.drop_last()));
        lemma_map_of_get(s.drop_last(), i);
        assert(s.drop_last()[i] == s[i]);
        assert(s.last().0 != s[i].0);
    }
}

pub proof fn lemma_map_of_update<V>(s: Seq<(u64, V)>, i: int, v: V)
    requires
        distinct_keys(s),
        0 <= i < s.len(),
    ensures
        map_of(s.update(i, (s[i].0, v))) == map_of(s).insert(s[i].0, v),
    decreases s.len(),
{
    let t = s.update(i, (s[i].0, v));
    if i == s.len() - 1 {
        assert(t.drop_last() =~= s.drop_last());
        assert(map_of(t) =~= map_of(s).insert(s[i].0, v));
    } else {
        assert(distinct_keys(s.drop_last()));
        lemma_map_of_update(s.drop_last(), i, v);
        assert(t.drop_last() =~= s.drop_last().update(i, (s[i].0, v)));
        assert(s.last().0 != s[i].0);
        assert(map_of(t) == map_of(s.drop_last()).insert(s[i].0, v).insert(s.last().0, s.last().1));
        assert(map_of(t) =~= map_of(s).insert(s[i].0, v));
    }
}

pub proof fn lemma_map_of_remove<V>(s: Seq<(u64, V)>, i: int)
    requires
        distinct_keys(s),
        0 <= i < s.len(),
    ensures
        map_of(s.remove(i)) == map_of(s).remove(s[i].0),
    decreases s.len(),
{
    if i == s.len() - 1 {
        assert(s.remove(i) =~= s.drop_last());
        lemma_map_of_contains(s.drop_last(), s[i].0);
        assert(forall|j: int|
            0 <= j < s.drop_last().len() ==> (#[trigger] s.drop_last()[j]).0 != s[i].0);
        assert(!map_of(s.drop_last()).contains_key(s[i].0));
        assert(map_of(s.remove(i)) =~= map_of(s).remove(s[i].0));
    } else {
        assert(distinct_keys(s.drop_last()));
        lemma_map_of_remove(s.drop_last(), i);
        assert(s.remove(i).drop_last() =~= s.drop_last().remove(i));
        assert(s.remove(i).last() == s.last());
        assert(s.last().0 != s[i].0);
        assert(s.drop_last()[i] == s[i]);
        assert(map_of(s.remove(i)) == map_of(s.drop_last()).remove(s[i].0).insert(
            s.last().0,
            s.last().1,
        ));
        assert(map_of(s.remove(i)) =~= map_of(s).remove(s[i].0));
    }
}

/// An association map from `u64` keys to `V`, with insertion-order
/// iteration. Its mathematical view is the [`Map`] of its pairs.
#[verifier::ext_equal]
pub struct KvMap<V> {
    pairs: Vec<(u64, V)>,
}

impl<V> View for KvMap<V> {
    type V = Map<u64, V>;

    closed spec fn view(&self) -> Map<u64, V> {
        map_of(self.pairs@)
    }
}

impl<V> KvMap<V> {
    /// The keys held, in insertion order.
    pub closed spec fn keys(&self) -> Seq<u64> {
        Seq::new(self.pairs@.len(), |i: int| self.pairs@[i].0)
    }

    /// Keys are distinct; established by [`KvMap::new`] and preserved by
    /// every operation.
    pub closed spec fn inv(&self) -> bool {
        distinct_keys(self.pairs@)
    }

    /// The view contains exactly the listed keys, and none is repeated.
    pub proof fn lemma_keys(&self)
        requires
            self.inv(),
        ensures
            self.keys().no_duplicates(),
            forall|k: u64| #[trigger] self@.contains_key(k) <==> self.keys().contains(k),
    {
        assert forall|k: u64| #[trigger] self@.contains_key(k) <==> self.keys().contains(k) by {
            lemma_map_of_contains(self.pairs@, k);
            if self@.contains_key(k) {
                let i = choose|i: int|
                    0 <= i < self.pairs@.len() && (#[trigger] self.pairs@[i]).0 == k;
                assert(self.keys()[i] == k);
            }
            if self.keys().contains(k) {
                let i = choose|i: int|
                    0 <= i < self.keys().len() && (#[trigger] self.keys()[i]) == k;
                assert(self.pairs@[i].0 == k);
            }
        }
    }

    /// An empty map.
    pub fn new() -> (r: Self)
        ensures
            r.inv(),
            r@ == Map::<u64, V>::empty(),
            r.keys().len() == 0,
    {
        KvMap { pairs: Vec::new() }
    }

    /// How many keys are held.
    pub fn len(&self) -> (r: usize)
        ensures
            r == self.keys().len(),
    {
        self.pairs.len()
    }

    /// Whether `k` is present.
    pub fn contains_key(&self, k: u64) -> (r: bool)
        requires
            self.inv(),
        ensures
            r == self@.contains_key(k),
    {
        let n = self.pairs.len();
        let mut i: usize = 0;
        while i < n
            invariant
                self.inv(),
                i <= n,
                n == self.pairs@.len(),
                forall|j: int| 0 <= j < i ==> (#[trigger] self.pairs@[j]).0 != k,
            decreases n - i,
        {
            if self.pairs[i].0 == k {
                proof {
                    lemma_map_of_get(self.pairs@, i as int);
                }
                return true;
            }
            i = i + 1;
        }
        proof {
            lemma_map_of_contains(self.pairs@, k);
        }
        false
    }

    /// The value under `k`, if present.
    pub fn get(&self, k: u64) -> (r: Option<&V>)
        requires
            self.inv(),
        ensures
            match r {
                Some(v) => self@.contains_key(k) && *v == self@[k],
                None => !self@.contains_key(k),
            },
    {
        let n = self.pairs.len();
        let mut i: usize = 0;
        while i < n
            invariant
                self.inv(),
                i <= n,
                n == self.pairs@.len(),
                forall|j: int| 0 <= j < i ==> (#[trigger] self.pairs@[j]).0 != k,
            decreases n - i,
        {
            if self.pairs[i].0 == k {
                proof {
                    lemma_map_of_get(self.pairs@, i as int);
                }
                return Some(&self.pairs[i].1);
            }
            i = i + 1;
        }
        proof {
            lemma_map_of_contains(self.pairs@, k);
        }
        None
    }

    /// Bind `k` to `v`, replacing any earlier binding.
    pub fn set(&mut self, k: u64, v: V)
        requires
            old(self).inv(),
        ensures
            final(self).inv(),
            final(self)@ == old(self)@.insert(k, v),
            old(self)@.contains_key(k) ==> final(self).keys() == old(self).keys(),
            !old(self)@.contains_key(k) ==> final(self).keys() == old(self).keys().push(k),
    {
        let n = self.pairs.len();
        let mut i: usize = 0;
        while i < n
            invariant
                self.inv(),
                self.pairs@ == old(self).pairs@,
                i <= n,
                n == self.pairs@.len(),
                forall|j: int| 0 <= j < i ==> (#[trigger] self.pairs@[j]).0 != k,
            decreases n - i,
        {
            if self.pairs[i].0 == k {
                proof {
                    lemma_map_of_get(self.pairs@, i as int);
                    lemma_map_of_update(self.pairs@, i as int, v);
                }
                self.pairs.set(i, (k, v));
                proof {
                    assert(distinct_keys(self.pairs@));
                    assert(final(self).keys() =~= old(self).keys());
                }
                return ;
            }
            i = i + 1;
        }
        proof {
            lemma_map_of_contains(self.pairs@, k);
        }
        self.pairs.push((k, v));
        proof {
            assert(self.pairs@.drop_last() =~= old(self).pairs@);
            assert(distinct_keys(self.pairs@));
            assert(final(self).keys() =~= old(self).keys().push(k));
        }
    }

    /// Take the binding of `k` out of the map, if present.
    pub fn remove(&mut self, k: u64) -> (r: Option<V>)
        requires
            old(self).inv(),
        ensures
            final(self).inv(),
            final(self)@ == old(self)@.remove(k),
            match r {
                Some(v) => old(self)@.contains_key(k) && v == old(self)@[k],
                None => !old(self)@.contains_key(k) && *final(self) == *old(self),
            },
    {
        let n = self.pairs.len();
        let mut i: usize = 0;
        while i < n
            invariant
                self.inv(),
                self.pairs == old(self).pairs,
                i <= n,
                n == self.pairs@.len(),
                forall|j: int| 0 <= j < i ==> (#[trigger] self.pairs@[j]).0 != k,
            decreases n - i,
        {
            if self.pairs[i].0 == k {
                proof {
                    lemma_map_of_get(self.pairs@, i as int);
                    lemma_map_of_remove(self.pairs@, i as int);
                }
                let pair = self.pairs.remove(i);
                proof {
                    assert(distinct_keys(self.pairs@));
                }
                return Some(pair.1);
            }
            i = i + 1;
        }
        proof {
            lemma_map_of_contains(self.pairs@, k);
            assert(old(self)@.remove(k) =~= old(self)@);
            assert(*self == *old(self));
        }
        None
    }

    /// The key at position `i` of the insertion order.
    pub fn key_at(&self, i: usize) -> (r: u64)
        requires
            self.inv(),
            i < self.keys().len(),
        ensures
            r == self.keys()[i as int],
            self@.contains_key(r),
    {
        proof {
            lemma_map_of_get(self.pairs@, i as int);
        }
        self.pairs[i].0
    }

    /// The value at position `i` of the insertion order.
    pub fn val_at(&self, i: usize) -> (r: &V)
        requires
            self.inv(),
            i < self.keys().len(),
        ensures
            self@.contains_key(self.keys()[i as int]),
            *r == self@[self.keys()[i as int]],
    {
        proof {
            lemma_map_of_get(self.pairs@, i as int);
        }
        &self.pairs[i].1
    }
}

/// Installing under a key that is already bound is a no-op: the model
/// keeps the first-seen entry, and every later read sees that single
/// canonical entry.
pub open spec fn first_seen_insert<V>(m: Map<u64, V>, k: u64, v: V) -> Map<u64, V> {
    if m.contains_key(k) {
        m
    } else {
        m.insert(k, v)
    }
}

/// A second installation under the same key changes nothing, whatever
/// value it carries.
pub proof fn lemma_first_seen_idempotent<V>(m: Map<u64, V>, k: u64, v1: V, v2: V)
    ensures
        first_seen_insert(first_seen_insert(m, k, v1), k, v2) == first_seen_insert(m, k, v1),
{
    if !m.contains_key(k) {
        assert(first_seen_insert(m, k, v1).contains_key(k));
    }
}

} // verus!
