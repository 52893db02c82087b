//! The transition table shared by both machine variants: a mapping from a
//! pair of key values to an entry, viewed abstractly as a [`Map`].

use vstd::prelude::*;
use vstd::std_specs::cmp::PartialEqSpec;

verus! {

/// A value type is fit to key a table when its `==` operator agrees with
/// logical equality: the comparison is total, and two values are either
/// identical or distinct, never partially equal. Caller-defined state and
/// event types (plain enumerations, say) satisfy this.
pub open spec fn obeys_value_eq<T: PartialEq>() -> bool {
    &&& T::obeys_eq_spec()
    &&& forall|a: T, b: T| #[trigger] a.eq_spec(&b) <==> a == b
}

/// The entry an association list holds for the pair `(k1, k2)`: the first
/// entry whose key components match, if any.
spec fn lookup<K1, K2, V>(s: Seq<(K1, K2, V)>, k1: K1, k2: K2) -> Option<V>
    decreases s.len(),
{
    if s.len() == 0 {
        None
    } else if s[0].0 == k1 && s[0].1 == k2 {
        Some(s[0].2)
    } else {
        lookup(s.drop_first(), k1, k2)
    }
}

/// A table of entries keyed by a pair of values, with at most one visible
/// entry per pair. Both machine variants build on it: the event-driven
/// machine keys it by (state, event), the direct machine by (from, to).
///
/// Entries live in an association list where a later `insert` for a pair
/// shadows an earlier one, so the abstract view is a [`Map`] from pairs to
/// entries.
pub struct Table<K1, K2, V> {
    entries: Vec<(K1, K2, V)>,
}

impl<K1, K2, V> View for Table<K1, K2, V> {
    type V = Map<(K1, K2), V>;

    closed spec fn view(&self) -> Map<(K1, K2), V> {
        Map::new(
            |k: (K1, K2)| lookup(self.entries@, k.0, k.1).is_some(),
            |k: (K1, K2)| lookup(self.entries@, k.0, k.1).unwrap(),
        )
    }
}

impl<K1: Copy + PartialEq, K2: Copy + PartialEq, V> Table<K1, K2, V> {
    /// Creates an empty table: no pair is mapped.
    pub fn new() -> (t: Self)
        ensures
            t@ == Map::<(K1, K2), V>::empty(),
    {
        let t = Table { entries: Vec::new() };
        proof {
            assert(t@ =~= Map::<(K1, K2), V>::empty());
        }
        t
    }

    /// Maps the pair `(k1, k2)` to `v`. An entry already present for the
    /// same pair is shadowed: inserting twice for one pair overwrites.
    pub fn insert(&mut self, k1: K1, k2: K2, v: V)
        ensures
            final(self)@ == old(self)@.insert((k1, k2), v),
    {
        self.entries.insert(0, (k1, k2, v));
        proof {
            let s_old = old(self).entries@;
            let s_new = self.entries@;
            assert(s_new.drop_first() =~= s_old);
            assert(lookup(s_new, k1, k2) == Some(v));
            assert forall|k: (K1, K2)| k != (k1, k2) implies lookup(s_new, k.0, k.1) == lookup(
                s_old,
                k.0,
                k.1,
            ) by {
                assert(!(s_new[0].0 == k.0 && s_new[0].1 == k.1));
            };
            assert(self@ =~= old(self)@.insert((k1, k2), v));
        }
    }

    /// Looks up the pair `(k1, k2)` and returns a reference to its entry,
    /// or `None` when the table holds none for that pair.
    pub fn get(&self, k1: &K1, k2: &K2) -> (r: Option<&V>)
        requires
            obeys_value_eq::<K1>(),
            obeys_value_eq::<K2>(),
        ensures
            match r {
                Some(v) => self@.contains_key((*k1, *k2)) && *v == self@[(*k1, *k2)],
                None => !self@.contains_key((*k1, *k2)),
            },
    {
        let n: usize = self.entries.len();
        let mut i: usize = 0;
        proof {
            assert(self.entries@.skip(0) =~= self.entries@);
        }
        while i < n
            invariant
                i <= n,
                n == self.entries@.len(),
                obeys_value_eq::<K1>(),
                obeys_value_eq::<K2>(),
                lookup(self.entries@, *k1, *k2) == lookup(
                    self.entries@.skip(i as int),
                    *k1,
                    *k2,
                ),
            decreases n - i,
        {
            let e = &self.entries[i];
            if e.0 == *k1 && e.1 == *k2 {
                proof {
                    assert(self.entries@.skip(i as int)[0] == self.entries@[i as int]);
                }
                return Some(&e.2);
            }
            proof {
                assert(self.entries@.skip(i as int)[0] == self.entries@[i as int]);
                assert(self.entries@.skip(i as int).drop_first() =~= self.entries@.skip(
                    i as int + 1,
                ));
            }
            i = i + 1;
        }
        proof {
            assert(self.entries@.skip(n as int).len() == 0);
        }
        None
    }

    /// Reports whether the table holds an entry for the pair `(k1, k2)`.
    pub fn contains(&self, k1: &K1, k2: &K2) -> (r: bool)
        requires
            obeys_value_eq::<K1>(),
            obeys_value_eq::<K2>(),
        ensures
            r == self@.contains_key((*k1, *k2)),
    {
        self.get(k1, k2).is_some()
    }
}

} // verus!
