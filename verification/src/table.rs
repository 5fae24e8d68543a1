//! A model of the host ledger's keyed record storage.
//!
//! The host stores every record at a derived address and rejects an attempt
//! to create a record at an address that already holds one; that rejection
//! is the sole enforcement mechanism behind every "at most one record"
//! invariant of the registry.  `Table` models that storage: a collection of
//! records keyed by derived address, viewed as a map, whose `create` is the
//! host's atomic check-and-set (attempt the write; report the address as
//! occupied rather than overwrite).

use vstd::prelude::*;

use crate::Address;
use crate::errors::OpError;

verus! {

/// Keyed record storage with collision rejection, viewed as a map from
/// derived address to record value.
pub struct Table<R> {
    entries: Vec<(Address, R)>,
}

/// The map that a sequence of keyed entries holds, later entries shadowing
/// earlier ones (a well-formed table has no two entries with one key, so
/// nothing is ever shadowed).
pub open spec fn map_of<R: View>(s: Seq<(Address, R)>) -> Map<Address, R::V>
    decreases s.len(),
{
    if s.len() == 0 {
        Map::empty()
    } else {
        map_of(s.drop_last()).insert(s.last().0, s.last().1@)
    }
}

/// No two entries share a key.
pub open spec fn distinct_keys<R>(s: Seq<(Address, R)>) -> bool {
    forall|i: int, j: int|
        0 <= i < j < s.len() ==> (#[trigger] s[i]).0 != (#[trigger] s[j]).0
}

proof fn lemma_map_of_contains<R: View>(s: Seq<(Address, R)>, a: Address)
    ensures
        map_of(s).contains_key(a) <==> (exists|i: int|
            0 <= i < s.len() && (#[trigger] s[i]).0 == a),
    decreases s.len(),
{
    if s.len() > 0 {
        lemma_map_of_contains(s.drop_last(), a);
        if s.last().0 == a {
            assert(s[s.len() - 1].0 == a);
        } else if map_of(s).contains_key(a) {
            let i = choose|i: int| 0 <= i < s.drop_last().len() && (#[trigger] s.drop_last()[i]).0 == a;
            assert(s[i].0 == a);
        } else {
            assert forall|i: int| 0 <= i < s.len() implies (#[trigger] s[i]).0 != a by {
                if i < s.len() - 1 {
                    assert(s.drop_last()[i] == s[i]);
                }
            }
        }
    }
}

proof fn lemma_map_of_index<R: View>(s: Seq<(Address, R)>, i: int)
    requires
        distinct_keys(s),
        0 <= i < s.len(),
    ensures
        map_of(s).contains_key(s[i].0),
        map_of(s)[s[i].0] == s[i].1@,
    decreases s.len(),
{
    lemma_map_of_contains(s, s[i].0);
    if i < s.len() - 1 {
        assert(s[i].0 != s.last().0);
        assert(s.drop_last()[i] == s[i]);
        assert(distinct_keys(s.drop_last())) by {
            assert forall|p: int, q: int|
                0 <= p < q < s.drop_last().len() implies (#[trigger] s.drop_last()[p]).0
                != (#[trigger] s.drop_last()[q]).0 by {
                assert(s.drop_last()[p] == s[p]);
                assert(s.drop_last()[q] == s[q]);
            }
        }
        lemma_map_of_index(s.drop_last(), i);
    }
}

proof fn lemma_map_of_update<R: View>(s: Seq<(Address, R)>, i: int, v: R)
    requires
        distinct_keys(s),
        0 <= i < s.len(),
    ensures
        map_of(s.update(i, (s[i].0, v))) == map_of(s).insert(s[i].0, v@),
        distinct_keys(s.update(i, (s[i].0, v))),
    decreases s.len(),
{
    let a = s[i].0;
    let t = s.update(i, (a, v));
    assert forall|p: int, q: int|
        0 <= p < q < t.len() implies (#[trigger] t[p]).0 != (#[trigger] t[q]).0 by {
        assert(t[p].0 == s[p].0);
        assert(t[q].0 == s[q].0);
    }
    if i == s.len() - 1 {
        assert(t.drop_last() =~= s.drop_last());
        assert(t.last() == (a, v));
        assert(map_of(t) == map_of(s.drop_last()).insert(a, v@));
        assert(map_of(s) == map_of(s.drop_last()).insert(a, s[i].1@));
        assert(map_of(s.drop_last()).insert(a, s[i].1@).insert(a, v@) =~= map_of(
            s.drop_last(),
        ).insert(a, v@));
    } else {
        let b = s.last().0;
        assert(b != a);
        assert(distinct_keys(s.drop_last())) by {
            assert forall|p: int, q: int|
                0 <= p < q < s.drop_last().len() implies (#[trigger] s.drop_last()[p]).0
                != (#[trigger] s.drop_last()[q]).0 by {
                assert(s.drop_last()[p] == s[p]);
                assert(s.drop_last()[q] == s[q]);
            }
        }
        assert(s.drop_last()[i] == s[i]);
        lemma_map_of_update(s.drop_last(), i, v);
        assert(t.drop_last() =~= s.drop_last().update(i, (a, v)));
        assert(t.last() == s.last());
        assert(map_of(t) == map_of(s.drop_last()).insert(a, v@).insert(b, s.last().1@));
        assert(map_of(s.drop_last()).insert(a, v@).insert(b, s.last().1@) =~= map_of(
            s.drop_last(),
        ).insert(b, s.last().1@).insert(a, v@));
    }
}

impl<R: View> View for Table<R> {
    type V = Map<Address, R::V>;

    closed spec fn view(&self) -> Map<Address, R::V> {
        map_of(self.entries@)
    }
}

impl<R: View> Table<R> {
    /// The table holds no two records at one address.
    pub closed spec fn wf(self) -> bool {
        distinct_keys(self.entries@)
    }

    /// An empty store.
    pub fn new() -> (t: Table<R>)
        ensures
            t.wf(),
            t@ == Map::<Address, R::V>::empty(),
    {
        Table { entries: Vec::new() }
    }

    /// The index of the entry at an address, if one exists.
    fn index_of(&self, a: Address) -> (r: Option<usize>)
        ensures
            match r {
                Some(i) => i < self.entries@.len() && self.entries@[i as int].0 == a,
                None => forall|i: int|
                    0 <= i < self.entries@.len() ==> (#[trigger] self.entries@[i]).0 != a,
            },
    {
        let mut i: usize = 0;
        while i < self.entries.len()
            invariant
                i <= self.entries@.len(),
                forall|j: int| 0 <= j < i ==> (#[trigger] self.entries@[j]).0 != a,
            decreases self.entries@.len() - i,
        {
            if self.entries[i].0 == a {
                return Some(i);
            }
            i = i + 1;
        }
        None
    }

    /// Whether a record exists at an address.
    pub fn contains(&self, a: Address) -> (r: bool)
        ensures
            r == self@.contains_key(a),
    {
        proof {
            lemma_map_of_contains(self.entries@, a);
        }
        self.index_of(a).is_some()
    }

    /// The record at an address, if one exists.
    pub fn get(&self, a: Address) -> (r: Option<&R>)
        requires
            self.wf(),
        ensures
            match r {
                Some(v) => self@.contains_key(a) && v@ == self@[a],
                None => !self@.contains_key(a),
            },
    {
        proof {
            lemma_map_of_contains(self.entries@, a);
        }
        match self.index_of(a) {
            Some(i) => {
                proof {
                    lemma_map_of_index(self.entries@, i as int);
                }
                Some(&self.entries[i].1)
            },
            None => None,
        }
    }

    /// The host's atomic check-and-set: store a record at an address, or
    /// report the address occupied without touching what it holds.
    pub fn create(&mut self, a: Address, v: R) -> (r: Result<(), OpError>)
        requires
            old(self).wf(),
        ensures
            final(self).wf(),
            match r {
                Ok(()) => !old(self)@.contains_key(a) && final(self)@ == old(self)@.insert(a, v@),
                Err(e) => {
                    &&& e == OpError::AccountInUse
                    &&& old(self)@.contains_key(a)
                    &&& *final(self) == *old(self)
                },
            },
    {
        proof {
            lemma_map_of_contains(self.entries@, a);
        }
        match self.index_of(a) {
            Some(_) => Err(OpError::AccountInUse),
            None => {
                let ghost s = self.entries@;
                self.entries.push((a, v));
                proof {
                    assert(self.entries@.drop_last() =~= s);
                    assert forall|p: int, q: int|
                        0 <= p < q < self.entries@.len() implies (#[trigger] self.entries@[p]).0
                        != (#[trigger] self.entries@[q]).0 by {
                        if q < self.entries@.len() - 1 {
                            assert(self.entries@[p] == s[p]);
                            assert(self.entries@[q] == s[q]);
                        } else {
                            assert(self.entries@[p] == s[p]);
                            assert(self.entries@[q].0 == a);
                        }
                    }
                }
                Ok(())
            },
        }
    }

    /// Replace the record at an address that already holds one, or report it
    /// missing without touching anything.
    pub fn set(&mut self, a: Address, v: R) -> (r: Result<(), OpError>)
        requires
            old(self).wf(),
        ensures
            final(self).wf(),
            match r {
                Ok(()) => old(self)@.contains_key(a) && final(self)@ == old(self)@.insert(a, v@),
                Err(e) => {
                    &&& e == OpError::AccountMissing
                    &&& !old(self)@.contains_key(a)
                    &&& *final(self) == *old(self)
                },
            },
    {
        proof {
            lemma_map_of_contains(self.entries@, a);
        }
        match self.index_of(a) {
            Some(i) => {
                proof {
                    lemma_map_of_update(self.entries@, i as int, v);
                }
                self.entries[i] = (a, v);
                Ok(())
            },
            None => Err(OpError::AccountMissing),
        }
    }
}

} // verus!
