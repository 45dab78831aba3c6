//! The context map: caller-owned structured metadata attached to a typed
//! error, a mapping from string keys to [`ContextValue`]s.
//!
//! Entries are kept in first-insertion order, each key at most once;
//! inserting an existing key replaces its value. The mathematical reading of
//! a map is a `Map<Seq<char>, ValueModel>`.

use vstd::prelude::*;

use crate::value::map_of_pairs;
use crate::value::model_of;
use crate::value::model_of_pairs;
use crate::value::ContextValue;
use crate::value::ValueModel;

verus! {

/// A mapping from string keys to structured values, with each key present at
/// most once.
#[derive(Debug)]
pub struct ContextMap {
    entries: Vec<(String, ContextValue)>,
}

impl View for ContextMap {
    type V = Map<Seq<char>, ValueModel>;

    closed spec fn view(&self) -> Map<Seq<char>, ValueModel> {
        map_of_pairs(model_of_pairs(self.entries@))
    }
}

/// The modeled pairs carry exactly the keys and values of the entries,
/// position by position.
pub proof fn lemma_model_of_pairs_index(s: Seq<(String, ContextValue)>)
    ensures
        model_of_pairs(s).len() == s.len(),
        forall|i: int|
            0 <= i < s.len() ==> #[trigger] model_of_pairs(s)[i] == (s[i].0@, model_of(s[i].1)),
    decreases s.len(),
{
    if s.len() > 0 {
        lemma_model_of_pairs_index(s.drop_last());
    }
}

/// A key is in the `Map` reading of a pair sequence exactly when some pair
/// carries it.
pub proof fn lemma_map_of_pairs_contains(ps: Seq<(Seq<char>, ValueModel)>, k: Seq<char>)
    ensures
        map_of_pairs(ps).contains_key(k) <==> exists|i: int| 0 <= i < ps.len() && ps[i].0 == k,
    decreases ps.len(),
{
    if ps.len() > 0 {
        lemma_map_of_pairs_contains(ps.drop_last(), k);
        if ps.last().0 == k {
            assert(ps[ps.len() - 1].0 == k);
        } else if map_of_pairs(ps).contains_key(k) {
            let i = choose|i: int| 0 <= i < ps.drop_last().len() && ps.drop_last()[i].0 == k;
            assert(ps[i].0 == k);
        } else {
            assert(forall|i: int| 0 <= i < ps.len() - 1 ==> ps.drop_last()[i] == ps[i]);
        }
    }
}

/// With pairwise distinct keys, the `Map` reading sends each carried key to
/// the value its pair carries.
pub proof fn lemma_map_of_pairs_value(ps: Seq<(Seq<char>, ValueModel)>, i: int)
    requires
        0 <= i < ps.len(),
        forall|m: int, n: int| 0 <= m < n < ps.len() ==> ps[m].0 != ps[n].0,
    ensures
        map_of_pairs(ps).contains_key(ps[i].0),
        map_of_pairs(ps)[ps[i].0] == ps[i].1,
    decreases ps.len(),
{
    if i < ps.len() - 1 {
        assert(forall|m: int, n: int|
            0 <= m < n < ps.drop_last().len() ==> ps.drop_last()[m].0 != ps.drop_last()[n].0);
        lemma_map_of_pairs_value(ps.drop_last(), i);
        assert(ps[i].0 != ps[ps.len() - 1].0);
    }
}

/// With pairwise distinct keys, replacing the pair that carries a key reads
/// as a `Map` insertion at that key.
pub proof fn lemma_map_of_pairs_update(
    ps: Seq<(Seq<char>, ValueModel)>,
    i: int,
    v: ValueModel,
)
    requires
        0 <= i < ps.len(),
        forall|m: int, n: int| 0 <= m < n < ps.len() ==> ps[m].0 != ps[n].0,
    ensures
        map_of_pairs(ps.update(i, (ps[i].0, v))) == map_of_pairs(ps).insert(ps[i].0, v),
    decreases ps.len(),
{
    let qs = ps.update(i, (ps[i].0, v));
    if i == ps.len() - 1 {
        assert(qs.drop_last() =~= ps.drop_last());
        assert(map_of_pairs(qs) =~= map_of_pairs(ps).insert(ps[i].0, v));
    } else {
        assert(qs.drop_last() =~= ps.drop_last().update(i, (ps[i].0, v)));
        assert(forall|m: int, n: int|
            0 <= m < n < ps.drop_last().len() ==> ps.drop_last()[m].0 != ps.drop_last()[n].0);
        lemma_map_of_pairs_update(ps.drop_last(), i, v);
        assert(ps[i].0 != ps[ps.len() - 1].0);
        assert(map_of_pairs(qs) =~= map_of_pairs(ps).insert(ps[i].0, v));
    }
}

/// Appending a pair with a fresh key reads as a `Map` insertion at that key.
pub proof fn lemma_map_of_pairs_push(ps: Seq<(Seq<char>, ValueModel)>, k: Seq<char>, v: ValueModel)
    ensures
        map_of_pairs(ps.push((k, v))) == map_of_pairs(ps).insert(k, v),
{
    assert(ps.push((k, v)).drop_last() =~= ps);
}

/// With pairwise distinct keys, the `Map` reading has exactly one key per
/// pair.
pub proof fn lemma_map_of_pairs_len(ps: Seq<(Seq<char>, ValueModel)>)
    requires
        forall|m: int, n: int| 0 <= m < n < ps.len() ==> ps[m].0 != ps[n].0,
    ensures
        map_of_pairs(ps).dom().finite(),
        map_of_pairs(ps).len() == ps.len(),
    decreases ps.len(),
{
    if ps.len() > 0 {
        assert(forall|m: int, n: int|
            0 <= m < n < ps.drop_last().len() ==> ps.drop_last()[m].0 != ps.drop_last()[n].0);
        lemma_map_of_pairs_len(ps.drop_last());
        lemma_map_of_pairs_contains(ps.drop_last(), ps.last().0);
        assert(forall|i: int| 0 <= i < ps.len() - 1 ==> ps.drop_last()[i] == ps[i]);
        assert(!map_of_pairs(ps.drop_last()).contains_key(ps.last().0));
    }
}

impl ContextMap {
    /// Each key stands in at most one entry.
    pub closed spec fn wf(self) -> bool {
        forall|m: int, n: int|
            0 <= m < n < self.entries@.len() ==> self.entries@[m].0@ != self.entries@[n].0@
    }

    /// Creates an empty context map.
    pub fn new() -> (r: ContextMap)
        ensures
            r.wf(),
            r@ == Map::<Seq<char>, ValueModel>::empty(),
    {
        ContextMap { entries: Vec::new() }
    }

    /// Inserts a value under a key, replacing the value an existing entry
    /// with that key carries.
    #[verifier::loop_isolation(false)]
    pub fn insert(&mut self, key: String, value: ContextValue)
        requires
            old(self).wf(),
        ensures
            final(self).wf(),
            final(self)@ == old(self)@.insert(key@, value@),
    {
        proof {
            lemma_model_of_pairs_index(self.entries@);
        }
        let ghost ps = model_of_pairs(self.entries@);
        let ghost entries0 = self.entries@;
        assert(forall|m: int, n: int| 0 <= m < n < ps.len() ==> ps[m].0 != ps[n].0);
        let n = self.entries.len();
        let mut idx: usize = 0;
        while idx < n
            invariant
                0 <= idx <= n,
                self.entries@ == entries0,
                forall|j: int| 0 <= j < idx ==> self.entries@[j].0@ != key@,
            decreases n - idx,
        {
            if self.entries[idx].0 == key {
                proof {
                    assert(ps[idx as int].0 == key@);
                    lemma_map_of_pairs_update(ps, idx as int, value@);
                    lemma_model_of_pairs_index(entries0.update(idx as int, (key, value)));
                    assert(model_of_pairs(entries0.update(idx as int, (key, value)))
                        =~= ps.update(idx as int, (key@, value@)));
                }
                self.entries.set(idx, (key, value));
                return ;
            }
            idx += 1;
        }
        proof {
            lemma_map_of_pairs_push(ps, key@, value@);
            lemma_model_of_pairs_index(entries0.push((key, value)));
            assert(model_of_pairs(entries0.push((key, value))) =~= ps.push((key@, value@)));
        }
        self.entries.push((key, value));
    }

    /// Says whether an entry carries the given key.
    #[verifier::loop_isolation(false)]
    pub fn contains_key(&self, key: &str) -> (r: bool)
        ensures
            r == self@.contains_key(key@),
    {
        let owned: String = key.to_owned();
        proof {
            lemma_model_of_pairs_index(self.entries@);
            lemma_map_of_pairs_contains(model_of_pairs(self.entries@), key@);
        }
        let n = self.entries.len();
        let mut idx: usize = 0;
        while idx < n
            invariant
                0 <= idx <= n,
                forall|j: int| 0 <= j < idx ==> self.entries@[j].0@ != key@,
            decreases n - idx,
        {
            if self.entries[idx].0 == owned {
                assert(model_of_pairs(self.entries@)[idx as int].0 == key@);
                return true;
            }
            idx += 1;
        }
        assert(forall|i: int|
            0 <= i < n ==> #[trigger] model_of_pairs(self.entries@)[i].0 != key@);
        false
    }

    /// Returns the value carried under the given key, if any.
    #[verifier::loop_isolation(false)]
    pub fn get(&self, key: &str) -> (r: Option<&ContextValue>)
        requires
            self.wf(),
        ensures
            match r {
                Some(v) => self@.contains_key(key@) && self@[key@] == v@,
                None => !self@.contains_key(key@),
            },
    {
        let owned: String = key.to_owned();
        proof {
            lemma_model_of_pairs_index(self.entries@);
            lemma_map_of_pairs_contains(model_of_pairs(self.entries@), key@);
        }
        assert(forall|m: int, n: int|
            0 <= m < n < self.entries@.len()
                ==> model_of_pairs(self.entries@)[m].0 != model_of_pairs(self.entries@)[n].0);
        let n = self.entries.len();
        let mut idx: usize = 0;
        while idx < n
            invariant
                0 <= idx <= n,
                forall|j: int| 0 <= j < idx ==> self.entries@[j].0@ != key@,
            decreases n - idx,
        {
            if self.entries[idx].0 == owned {
                proof {
                    assert(model_of_pairs(self.entries@)[idx as int].0 == key@);
                    lemma_map_of_pairs_value(model_of_pairs(self.entries@), idx as int);
                }
                return Some(&self.entries[idx].1);
            }
            idx += 1;
        }
        assert(forall|i: int|
            0 <= i < n ==> #[trigger] model_of_pairs(self.entries@)[i].0 != key@);
        None
    }

    /// Says whether the map carries no entry.
    pub fn is_empty(&self) -> (r: bool)
        requires
            self.wf(),
        ensures
            r == (self@.len() == 0),
            r == (self@ == Map::<Seq<char>, ValueModel>::empty()),
    {
        proof {
            lemma_model_of_pairs_index(self.entries@);
            assert(forall|m: int, n: int|
                0 <= m < n < self.entries@.len()
                    ==> model_of_pairs(self.entries@)[m].0 != model_of_pairs(self.entries@)[n].0);
            lemma_map_of_pairs_len(model_of_pairs(self.entries@));
            if self@.len() == 0 {
                assert(self@ =~= Map::<Seq<char>, ValueModel>::empty());
            }
        }
        self.entries.len() == 0
    }

    /// Returns the entries, in first-insertion order, each key at most once.
    pub fn entries(&self) -> (r: &Vec<(String, ContextValue)>)
        ensures
            map_of_pairs(model_of_pairs(r@)) == self@,
            self.wf() ==> forall|m: int, n: int|
                0 <= m < n < r@.len() ==> r@[m].0@ != r@[n].0@,
    {
        &self.entries
    }

    /// Returns the number of entries.
    pub fn len(&self) -> (r: usize)
        requires
            self.wf(),
        ensures
            r == self@.len(),
    {
        proof {
            lemma_model_of_pairs_index(self.entries@);
            assert(forall|m: int, n: int|
                0 <= m < n < self.entries@.len()
                    ==> model_of_pairs(self.entries@)[m].0 != model_of_pairs(self.entries@)[n].0);
            lemma_map_of_pairs_len(model_of_pairs(self.entries@));
        }
        self.entries.len()
    }
}

} // verus!
