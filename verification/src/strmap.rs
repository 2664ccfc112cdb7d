//! Insert-or-replace maps from string identifiers to widget values.
//!
//! The state store keys checkboxes, combo boxes, radio groups and progress
//! bars by a string identifier. Each map is kept as a vector of entries with
//! pairwise-distinct keys and is viewed as a `Map<Seq<char>, V::V>`, so the
//! contracts can state directly that a write to one identifier creates or
//! replaces that identifier's entry and leaves every other entry unchanged.

use vstd::prelude::*;

verus! {

/// The map denoted by a sequence of entries: later entries win, though under
/// `StrMap::wf` each key occurs at most once.
pub open spec fn entry_map<V: View>(s: Seq<(String, V)>) -> Map<Seq<char>, V::V>
    decreases s.len(),
{
    if s.len() == 0 {
        Map::empty()
    } else {
        entry_map(s.drop_last()).insert(s.last().0@, s.last().1@)
    }
}

/// A key absent from every entry is absent from the denoted map.
proof fn lemma_entry_map_absent<V: View>(s: Seq<(String, V)>, k: Seq<char>)
    requires
        forall|i: int| 0 <= i < s.len() ==> s[i].0@ != k,
    ensures
        !entry_map(s).dom().contains(k),
    decreases s.len(),
{
    if s.len() > 0 {
        lemma_entry_map_absent(s.drop_last(), k);
    }
}

/// With pairwise-distinct keys, the entry holding a key gives its value in
/// the denoted map.
proof fn lemma_entry_map_found<V: View>(s: Seq<(String, V)>, i: int)
    requires
        forall|p: int, q: int| 0 <= p < q < s.len() ==> s[p].0@ != s[q].0@,
        0 <= i < s.len(),
    ensures
        entry_map(s).dom().contains(s[i].0@),
        entry_map(s)[s[i].0@] == s[i].1@,
    decreases s.len(),
{
    if i < s.len() - 1 {
        assert(s.drop_last()[i] == s[i]);
        lemma_entry_map_found(s.drop_last(), i);
        assert(s[i].0@ != s.last().0@);
    }
}

/// Replacing the entry that holds a key denotes the same map as a ghost-map
/// insert of the new value.
proof fn lemma_entry_map_update<V: View>(s: Seq<(String, V)>, i: int, e: (String, V))
    requires
        forall|p: int, q: int| 0 <= p < q < s.len() ==> s[p].0@ != s[q].0@,
        0 <= i < s.len(),
        e.0@ == s[i].0@,
    ensures
        entry_map(s.update(i, e)) == entry_map(s).insert(e.0@, e.1@),
    decreases s.len(),
{
    let su = s.update(i, e);
    if i == s.len() - 1 {
        assert(su.drop_last() =~= s.drop_last());
        assert(su.last() == e);
        assert(entry_map(su) =~= entry_map(s).insert(e.0@, e.1@));
    } else {
        assert(su.drop_last() =~= s.drop_last().update(i, e));
        assert(forall|j: int| 0 <= j < s.len() - 1 ==> s.drop_last()[j] == s[j]);
        lemma_entry_map_update(s.drop_last(), i, e);
        assert(su.last() == s.last());
        assert(s[i].0@ != s.last().0@);
        assert(entry_map(su) =~= entry_map(s).insert(e.0@, e.1@));
    }
}

/// An insert-or-replace map from string identifiers to values. Writes to one
/// identifier never affect another identifier's entry.
pub struct StrMap<V> {
    entries: Vec<(String, V)>,
}

impl<V: View> View for StrMap<V> {
    type V = Map<Seq<char>, V::V>;

    closed spec fn view(&self) -> Map<Seq<char>, V::V> {
        entry_map(self.entries@)
    }
}

impl<V: View> StrMap<V> {
    /// Keys are pairwise distinct, so each identifier names exactly one entry.
    pub closed spec fn wf(&self) -> bool {
        forall|p: int, q: int|
            0 <= p < q < self.entries@.len() ==> self.entries@[p].0@ != self.entries@[q].0@
    }

    /// The empty map.
    pub fn new() -> (r: Self)
        ensures
            r.wf(),
            r@ == Map::<Seq<char>, V::V>::empty(),
    {
        StrMap { entries: Vec::new() }
    }

    /// Creates or replaces the entry for `key`; every other entry is
    /// unchanged.
    pub fn set(&mut self, key: String, value: V)
        requires
            old(self).wf(),
        ensures
            final(self).wf(),
            final(self)@ == old(self)@.insert(key@, value@),
    {
        let n = self.entries.len();
        let mut i: usize = 0;
        while i < n
            invariant
                n == self.entries@.len(),
                i <= n,
                self.wf(),
                *self == *old(self),
                forall|j: int| 0 <= j < i ==> self.entries@[j].0@ != key@,
            decreases n - i,
        {
            if self.entries[i].0 == key {
                let ghost s = self.entries@;
                self.entries[i] = (key, value);
                proof {
                    lemma_entry_map_update(s, i as int, (key, value));
                    assert(final(self).wf()) by {
                        assert(forall|p: int, q: int|
                            0 <= p < q < s.len() && p != i && q != i ==> s[p].0@ != s[q].0@);
                    }
                }
                return ;
            }
            i += 1;
        }
        let ghost s = self.entries@;
        self.entries.push((key, value));
        proof {
            assert(self.entries@.drop_last() =~= s);
            assert(forall|j: int| 0 <= j < s.len() ==> s[j].0@ != key@);
        }
    }

    /// Looks the identifier up; returns the stored value exactly when the
    /// identifier is present.
    pub fn get(&self, key: &String) -> (r: Option<&V>)
        requires
            self.wf(),
        ensures
            match r {
                Some(v) => self@.dom().contains(key@) && v@ == self@[key@],
                None => !self@.dom().contains(key@),
            },
    {
        let n = self.entries.len();
        let mut i: usize = 0;
        while i < n
            invariant
                n == self.entries@.len(),
                i <= n,
                self.wf(),
                forall|j: int| 0 <= j < i ==> self.entries@[j].0@ != key@,
            decreases n - i,
        {
            if self.entries[i].0 == *key {
                proof {
                    lemma_entry_map_found(self.entries@, i as int);
                }
                return Some(&self.entries[i].1);
            }
            i += 1;
        }
        proof {
            lemma_entry_map_absent(self.entries@, key@);
        }
        None
    }
}

} // verus!
