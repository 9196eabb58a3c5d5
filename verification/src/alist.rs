//! A verified association list keyed by strings.
//!
//! The derived indices of the library are small maps from id strings to
//! records or id lists.  This module provides the one map shape they all
//! share: a vector of key/value pairs with pairwise-distinct keys, viewed in
//! contracts as a `Map<Seq<char>, V>`.

use vstd::prelude::*;

verus! {

/// Whether the key views of a pair sequence are pairwise distinct.
pub open spec fn distinct_keys<V>(s: Seq<(String, V)>) -> bool {
    forall|i: int, j: int| 0 <= i < j < s.len() ==> s[i].0@ != s[j].0@
}

/// The map a pair sequence denotes: later pairs win, though with distinct
/// keys every pair is visible.
pub open spec fn pairs_to_map<V>(s: Seq<(String, V)>) -> Map<Seq<char>, V>
    decreases s.len(),
{
    if s.len() == 0 {
        Map::empty()
    } else {
        pairs_to_map(s.drop_last()).insert(s.last().0@, s.last().1)
    }
}

/// A key is in the map exactly when some pair carries it.
pub proof fn lemma_pairs_to_map_contains<V>(s: Seq<(String, V)>, k: Seq<char>)
    ensures
        pairs_to_map(s).contains_key(k) <==> exists|i: int| 0 <= i < s.len() && s[i].0@ == k,
    decreases s.len(),
{
    if s.len() > 0 {
        lemma_pairs_to_map_contains(s.drop_last(), k);
        if s.last().0@ == k {
            assert(s[s.len() - 1].0@ == k);
        } else if exists|i: int| 0 <= i < s.len() && s[i].0@ == k {
            let i = choose|i: int| 0 <= i < s.len() && s[i].0@ == k;
            assert(s.drop_last()[i] == s[i]);
        }
    }
}

/// With distinct keys, each pair's value is the map's value at its key.
pub proof fn lemma_pairs_to_map_index<V>(s: Seq<(String, V)>, i: int)
    requires
        distinct_keys(s),
        0 <= i < s.len(),
    ensures
        pairs_to_map(s).contains_key(s[i].0@),
        pairs_to_map(s)[s[i].0@] == s[i].1,
    decreases s.len(),
{
    lemma_pairs_to_map_contains(s, s[i].0@);
    if i < s.len() - 1 {
        assert(s.drop_last()[i] == s[i]);
        lemma_pairs_to_map_index(s.drop_last(), i);
        assert(s[i].0@ != s.last().0@);
    }
}

/// Updating the pair that carries a key updates the map at that key.
proof fn lemma_pairs_to_map_update<V>(s: Seq<(String, V)>, i: int, p: (String, V))
    requires
        distinct_keys(s),
        0 <= i < s.len(),
        p.0@ == s[i].0@,
    ensures
        distinct_keys(s.update(i, p)),
        pairs_to_map(s.update(i, p)) == pairs_to_map(s).insert(p.0@, p.1),
    decreases s.len(),
{
    let su = s.update(i, p);
    if i == s.len() - 1 {
        assert(su.drop_last() =~= s.drop_last());
        assert(su.last() == p);
        assert(pairs_to_map(su) =~= pairs_to_map(s).insert(p.0@, p.1));
    } else {
        assert(su.drop_last() =~= s.drop_last().update(i, p));
        assert(s.drop_last()[i] == s[i]);
        lemma_pairs_to_map_update(s.drop_last(), i, p);
        assert(su.last() == s.last());
        assert(s[i].0@ != s.last().0@);
        assert(pairs_to_map(su) =~= pairs_to_map(s).insert(p.0@, p.1));
    }
}

/// An association list: key/value pairs with pairwise-distinct keys, the one
/// map shape the derived indices share.
pub struct AList<V> {
    pairs: Vec<(String, V)>,
}

impl<V> AList<V> {
    /// The raw pair sequence, in insertion order.
    pub closed spec fn spec_pairs(self) -> Seq<(String, V)> {
        self.pairs@
    }

    /// Well-formed: no key occurs twice.
    pub open spec fn wf(self) -> bool {
        distinct_keys(self.spec_pairs())
    }

    /// The map this list denotes.
    pub open spec fn view(self) -> Map<Seq<char>, V> {
        pairs_to_map(self.spec_pairs())
    }

    /// The number of pairs, which with distinct keys is the number of keys.
    pub fn len(&self) -> (n: usize)
        ensures
            n == self.spec_pairs().len(),
    {
        self.pairs.len()
    }

    /// An empty list.
    pub fn new() -> (r: Self)
        ensures
            r.wf(),
            r.spec_pairs() == Seq::<(String, V)>::empty(),
            r@ == Map::<Seq<char>, V>::empty(),
    {
        AList { pairs: Vec::new() }
    }

    /// The pair at a position, for iterating the list in insertion order.
    pub fn pair_at(&self, i: usize) -> (r: &(String, V))
        requires
            self.wf(),
            i < self.spec_pairs().len(),
        ensures
            *r == self.spec_pairs()[i as int],
            self@.contains_key(r.0@),
            self@[r.0@] == r.1,
    {
        proof {
            lemma_pairs_to_map_index(self.spec_pairs(), i as int);
        }
        &self.pairs[i]
    }

    /// The value stored under a key, if the key is present.
    pub fn get(&self, k: &str) -> (r: Option<&V>)
        requires
            self.wf(),
        ensures
            match r {
                Some(v) => self@.contains_key(k@) && *v == self@[k@],
                None => !self@.contains_key(k@),
            },
    {
        let key: String = k.to_owned();
        let n = self.pairs.len();
        let mut i: usize = 0;
        while i < n
            invariant
                n == self.spec_pairs().len(),
                self.wf(),
                key@ == k@,
                i <= n,
                forall|j: int| 0 <= j < i ==> self.spec_pairs()[j].0@ != k@,
            decreases n - i,
        {
            if self.pairs[i].0 == key {
                proof {
                    lemma_pairs_to_map_index(self.spec_pairs(), i as int);
                }
                return Some(&self.pairs[i].1);
            }
            i = i + 1;
        }
        proof {
            lemma_pairs_to_map_contains(self.spec_pairs(), k@);
        }
        None
    }

    /// Whether a key is present.
    pub fn contains_key(&self, k: &str) -> (r: bool)
        requires
            self.wf(),
        ensures
            r == self@.contains_key(k@),
    {
        self.get(k).is_some()
    }

    /// Stores a value under a key, replacing any value the key already
    /// carries.  A fresh key is appended, so lists built from fresh keys keep
    /// insertion order.
    pub fn set(&mut self, k: String, v: V)
        requires
            old(self).wf(),
        ensures
            final(self).wf(),
            final(self)@ == old(self)@.insert(k@, v),
            !old(self)@.contains_key(k@) ==> final(self).spec_pairs() == old(
                self,
            ).spec_pairs().push((k, v)),
            final(self)@.contains_key(k@),
    {
        let ghost s0 = self.spec_pairs();
        let n = self.pairs.len();
        let mut i: usize = 0;
        while i < n
            invariant
                old(self).spec_pairs() == s0,
                self.spec_pairs() == s0,
                n == s0.len(),
                distinct_keys(s0),
                i <= n,
                forall|j: int| 0 <= j < i ==> s0[j].0@ != k@,
            decreases n - i,
        {
            if self.pairs[i].0 == k {
                proof {
                    lemma_pairs_to_map_contains(s0, k@);
                    lemma_pairs_to_map_update(s0, i as int, (k, v));
                    lemma_pairs_to_map_index(s0.update(i as int, (k, v)), i as int);
                }
                self.pairs.set(i, (k, v));
                return ;
            }
            i = i + 1;
        }
        proof {
            lemma_pairs_to_map_contains(s0, k@);
            assert(s0.push((k, v)).drop_last() =~= s0);
            assert forall|a: int, b: int| 0 <= a < b < s0.push((k, v)).len() implies s0.push(
                (k, v),
            )[a].0@ != s0.push((k, v))[b].0@ by {
                if b < s0.len() {
                    assert(s0[a].0@ != s0[b].0@);
                }
            }
            lemma_pairs_to_map_index(s0.push((k, v)), s0.len() as int);
        }
        self.pairs.push((k, v));
    }
}

} // verus!
