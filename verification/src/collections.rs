//! String-keyed sets and maps used by the player profile: owned leaders and
//! skins, finished campaign episodes, per-leader experience and reward
//! receipts. Each is a vector whose keys never repeat.

use vstd::prelude::*;

verus! {

broadcast use Seq::lemma_push_to_set_commute;

/// Views of the strings in a sequence.
pub open spec fn views(s: Seq<String>) -> Seq<Seq<char>> {
    s.map_values(|x: String| x@)
}

/// A set of strings.
pub struct StrSet {
    items: Vec<String>,
}

impl View for StrSet {
    type V = Set<Seq<char>>;

    closed spec fn view(&self) -> Set<Seq<char>> {
        views(self.items@).to_set()
    }
}

impl StrSet {
    /// No string occurs twice.
    pub closed spec fn wf(&self) -> bool {
        views(self.items@).no_duplicates()
    }

    /// An empty set.
    pub fn new() -> (s: StrSet)
        ensures
            s.wf(),
            s@ == Set::<Seq<char>>::empty(),
    {
        let s = StrSet { items: Vec::new() };
        assert(views(s.items@).to_set() =~= Set::<Seq<char>>::empty());
        s
    }

    /// Number of strings in the set.
    pub fn len(&self) -> (n: usize)
        requires
            self.wf(),
        ensures
            n == self@.len(),
    {
        proof {
            views(self.items@).unique_seq_to_set();
        }
        self.items.len()
    }

    /// Whether the set holds no string.
    pub fn is_empty(&self) -> (b: bool)
        ensures
            b == (self@ == Set::<Seq<char>>::empty()),
    {
        if self.items.len() == 0 {
            assert(views(self.items@).to_set() =~= Set::<Seq<char>>::empty());
            true
        } else {
            assert(views(self.items@)[0] == self.items@[0]@);
            assert(views(self.items@).contains(self.items@[0]@));
            assert(views(self.items@).to_set().contains(self.items@[0]@));
            false
        }
    }

    /// Whether `s` is in the set.
    pub fn contains(&self, s: &String) -> (b: bool)
        ensures
            b == self@.contains(s@),
    {
        let mut i: usize = 0;
        while i < self.items.len()
            invariant
                i <= self.items@.len(),
                forall|j: int| 0 <= j < i ==> self.items@[j]@ != s@,
            decreases self.items@.len() - i,
        {
            if self.items[i] == *s {
                assert(views(self.items@)[i as int] == s@);
                return true;
            }
            i = i + 1;
        }
        assert(!views(self.items@).contains(s@));
        false
    }

    /// Adds `s`; returns whether it was new.
    pub fn insert(&mut self, s: String) -> (added: bool)
        requires
            old(self).wf(),
        ensures
            final(self).wf(),
            added == !old(self)@.contains(s@),
            final(self)@ == old(self)@.insert(s@),
    {
        if self.contains(&s) {
            assert(old(self)@.insert(s@) =~= old(self)@);
            return false;
        }
        let ghost before = views(self.items@);
        self.items.push(s);
        proof {
            assert(views(self.items@) =~= before.push(s@));
            assert(views(self.items@).to_set() =~= before.to_set().insert(s@));
        }
        true
    }

    /// Removes every string.
    pub fn clear(&mut self)
        ensures
            final(self).wf(),
            final(self)@ == Set::<Seq<char>>::empty(),
    {
        self.items = Vec::new();
        assert(views(self.items@).to_set() =~= Set::<Seq<char>>::empty());
    }

    /// Adds every string of `other`.
    pub fn extend(&mut self, other: StrSet)
        requires
            old(self).wf(),
        ensures
            final(self).wf(),
            final(self)@ == old(self)@.union(other@),
    {
        let StrSet { items: mut rest } = other;
        let ghost all = views(rest@);
        while rest.len() > 0
            invariant
                self.wf(),
                views(rest@).to_set().union(self@) == old(self)@.union(all.to_set()),
            decreases rest@.len(),
        {
            let ghost old_rest = rest@;
            let s = rest.pop().unwrap();
            let ghost before = self@;
            self.insert(s);
            proof {
                let v = views(rest@);
                assert(old_rest =~= rest@.push(s));
                assert(views(rest@.push(s)) =~= v.push(s@));
                assert(v.push(s@).to_set() =~= v.to_set().insert(s@));
                assert(v.to_set().union(self@) =~= v.push(s@).to_set().union(before));
            }
        }
        assert(views(rest@).to_set() =~= Set::<Seq<char>>::empty());
        assert(self@ =~= old(self)@.union(all.to_set()));
    }

    /// The strings of the set in the order they were inserted.
    pub closed spec fn listing(&self) -> Seq<Seq<char>> {
        views(self.items@)
    }

    /// The strings of the set, in insertion order.
    pub fn to_vec(&self) -> (v: Vec<String>)
        requires
            self.wf(),
        ensures
            views(v@) == self.listing(),
            views(v@).to_set() == self@,
            views(v@).no_duplicates(),
    {
        self.items.clone()
    }
}

/// The map that a list of distinct-keyed entries describes.
pub open spec fn entries_map<V>(s: Seq<(String, V)>) -> Map<Seq<char>, V>
    decreases s.len(),
{
    if s.len() == 0 {
        Map::empty()
    } else {
        entries_map(s.drop_last()).insert(s.last().0@, s.last().1)
    }
}

/// Keys of a list of entries.
pub open spec fn entry_keys<V>(s: Seq<(String, V)>) -> Seq<Seq<char>> {
    s.map_values(|e: (String, V)| e.0@)
}

proof fn lemma_entries_map_dom<V>(s: Seq<(String, V)>)
    ensures
        entries_map(s).dom() == entry_keys(s).to_set(),
    decreases s.len(),
{
    if s.len() > 0 {
        lemma_entries_map_dom(s.drop_last());
        assert(entry_keys(s) =~= entry_keys(s.drop_last()).push(s.last().0@));
        assert(entry_keys(s).to_set() =~= entry_keys(s.drop_last()).to_set().insert(s.last().0@));
    } else {
        assert(entry_keys(s).to_set() =~= Set::<Seq<char>>::empty());
    }
}

proof fn lemma_entries_map_at<V>(s: Seq<(String, V)>, j: int)
    requires
        0 <= j < s.len(),
        entry_keys(s).no_duplicates(),
    ensures
        entries_map(s).contains_key(s[j].0@),
        entries_map(s)[s[j].0@] == s[j].1,
    decreases s.len(),
{
    if j < s.len() - 1 {
        let t = s.drop_last();
        assert(entry_keys(t) =~= entry_keys(s).drop_last());
        lemma_entries_map_at(t, j);
        assert(entry_keys(s)[j] != entry_keys(s)[s.len() - 1]);
    }
}

proof fn lemma_entries_map_update<V>(s: Seq<(String, V)>, j: int, v: V)
    requires
        0 <= j < s.len(),
        entry_keys(s).no_duplicates(),
    ensures
        entries_map(s.update(j, (s[j].0, v))) == entries_map(s).insert(s[j].0@, v),
        entry_keys(s.update(j, (s[j].0, v))) == entry_keys(s),
    decreases s.len(),
{
    let u = s.update(j, (s[j].0, v));
    assert(entry_keys(u) =~= entry_keys(s));
    if j == s.len() - 1 {
        assert(u.drop_last() =~= s.drop_last());
        assert(entries_map(u) =~= entries_map(s).insert(s[j].0@, v));
    } else {
        let t = s.drop_last();
        assert(entry_keys(t) =~= entry_keys(s).drop_last());
        lemma_entries_map_update(t, j, v);
        assert(u.drop_last() =~= t.update(j, (t[j].0, v)));
        assert(entry_keys(s)[j] != entry_keys(s)[s.len() - 1]);
        assert(entries_map(u) =~= entries_map(s).insert(s[j].0@, v));
    }
}

proof fn lemma_entries_map_remove<V>(s: Seq<(String, V)>, j: int)
    requires
        0 <= j < s.len(),
        entry_keys(s).no_duplicates(),
    ensures
        entries_map(s.remove(j)) == entries_map(s).remove(s[j].0@),
        entry_keys(s.remove(j)) == entry_keys(s).remove(j),
    decreases s.len(),
{
    let t = s.drop_last();
    assert(entry_keys(t) =~= entry_keys(s).drop_last());
    assert(entry_keys(s.remove(j)) =~= entry_keys(s).remove(j));
    if j == s.len() - 1 {
        assert(s.remove(j) =~= t);
        lemma_entries_map_dom(t);
        assert forall|i: int| 0 <= i < t.len() implies entry_keys(t)[i] != s[j].0@ by {
            assert(entry_keys(s)[i] == entry_keys(t)[i]);
            assert(entry_keys(s)[j] == s[j].0@);
        }
        assert(!entry_keys(t).contains(s[j].0@));
        assert(!entries_map(t).contains_key(s[j].0@));
        assert(entries_map(s.remove(j)) =~= entries_map(s).remove(s[j].0@));
    } else {
        lemma_entries_map_remove(t, j);
        assert(s.remove(j).drop_last() =~= t.remove(j));
        assert(s.remove(j).last() == s.last());
        assert(entry_keys(s)[j] != entry_keys(s)[s.len() - 1]);
        assert(entries_map(s.remove(j)) =~= entries_map(s).remove(s[j].0@));
    }
}

/// A map from strings to values.
pub struct StrMap<V> {
    entries: Vec<(String, V)>,
}

impl<V> View for StrMap<V> {
    type V = Map<Seq<char>, V>;

    closed spec fn view(&self) -> Map<Seq<char>, V> {
        entries_map(self.entries@)
    }
}

impl<V> StrMap<V> {
    /// No key occurs twice.
    pub closed spec fn wf(&self) -> bool {
        entry_keys(self.entries@).no_duplicates()
    }

    /// An empty map.
    pub fn new() -> (m: StrMap<V>)
        ensures
            m.wf(),
            m@ == Map::<Seq<char>, V>::empty(),
    {
        let m = StrMap { entries: Vec::new() };
        assert(entry_keys(m.entries@) =~= Seq::<Seq<char>>::empty());
        m
    }

    /// Whether the map holds no entry.
    pub fn is_empty(&self) -> (b: bool)
        ensures
            b == (self@ == Map::<Seq<char>, V>::empty()),
    {
        proof {
            lemma_entries_map_dom(self.entries@);
        }
        if self.entries.len() == 0 {
            true
        } else {
            assert(entry_keys(self.entries@)[0] == self.entries@[0].0@);
            assert(entry_keys(self.entries@).contains(self.entries@[0].0@));
            assert(entry_keys(self.entries@).to_set().contains(self.entries@[0].0@));
            assert(self@.contains_key(self.entries@[0].0@));
            false
        }
    }

    /// Removes every entry.
    pub fn clear(&mut self)
        ensures
            final(self).wf(),
            final(self)@ == Map::<Seq<char>, V>::empty(),
    {
        self.entries = Vec::new();
        assert(entry_keys(self.entries@) =~= Seq::<Seq<char>>::empty());
    }

    fn index_of(&self, k: &String) -> (r: Option<usize>)
        ensures
            match r {
                Some(j) => j < self.entries@.len() && self.entries@[j as int].0@ == k@,
                None => !self@.contains_key(k@),
            },
    {
        proof {
            lemma_entries_map_dom(self.entries@);
        }
        let mut i: usize = 0;
        while i < self.entries.len()
            invariant
                i <= self.entries@.len(),
                forall|j: int| 0 <= j < i ==> self.entries@[j].0@ != k@,
            decreases self.entries@.len() - i,
        {
            if self.entries[i].0 == *k {
                return Some(i);
            }
            i = i + 1;
        }
        assert(!entry_keys(self.entries@).contains(k@));
        None
    }

    /// The value under `k`, if any.
    pub fn get(&self, k: &String) -> (r: Option<&V>)
        requires
            self.wf(),
        ensures
            match r {
                Some(v) => self@.contains_key(k@) && self@[k@] == *v,
                None => !self@.contains_key(k@),
            },
    {
        match self.index_of(k) {
            Some(j) => {
                proof {
                    lemma_entries_map_at(self.entries@, j as int);
                }
                Some(&self.entries[j].1)
            },
            None => None,
        }
    }

    /// Whether `k` has a value.
    pub fn contains_key(&self, k: &String) -> (b: bool)
        requires
            self.wf(),
        ensures
            b == self@.contains_key(k@),
    {
        match self.index_of(k) {
            Some(j) => {
                proof {
                    lemma_entries_map_at(self.entries@, j as int);
                }
                true
            },
            None => false,
        }
    }

    /// Removes the value under `k`, if any.
    pub fn remove(&mut self, k: &String)
        requires
            old(self).wf(),
        ensures
            final(self).wf(),
            final(self)@ == old(self)@.remove(k@),
    {
        proof {
            lemma_entries_map_dom(self.entries@);
        }
        match self.index_of(k) {
            Some(j) => {
                let ghost s = self.entries@;
                self.entries.remove(j);
                proof {
                    lemma_entries_map_remove(s, j as int);
                    assert(entry_keys(s).remove(j as int).no_duplicates()) by {
                        assert forall|a: int, b: int|
                            0 <= a < b < entry_keys(s).remove(j as int).len() implies entry_keys(s).remove(
                            j as int,
                        )[a] != entry_keys(s).remove(j as int)[b] by {
                            let a2 = if a < j { a } else { a + 1 };
                            let b2 = if b < j { b } else { b + 1 };
                            assert(entry_keys(s).remove(j as int)[a] == entry_keys(s)[a2]);
                            assert(entry_keys(s).remove(j as int)[b] == entry_keys(s)[b2]);
                        }
                    }
                }
            },
            None => {
                proof {
                    assert(!entry_keys(self.entries@).contains(k@));
                    assert(self@ =~= old(self)@.remove(k@));
                }
            },
        }
    }

    /// Sets the value under `k`.
    pub fn insert(&mut self, k: String, v: V)
        requires
            old(self).wf(),
        ensures
            final(self).wf(),
            final(self)@ == old(self)@.insert(k@, v),
    {
        proof {
            lemma_entries_map_dom(self.entries@);
        }
        match self.index_of(&k) {
            Some(j) => {
                let ghost s = self.entries@;
                let key = self.entries[j].0.clone();
                self.entries.set(j, (key, v));
                proof {
                    lemma_entries_map_update(s, j as int, v);
                    assert(self.entries@ =~= s.update(j as int, (s[j as int].0, v)));
                }
            },
            None => {
                let ghost s = self.entries@;
                proof {
                    assert(!entry_keys(s).contains(k@));
                }
                self.entries.push((k, v));
                proof {
                    assert(entry_keys(self.entries@) =~= entry_keys(s).push(k@));
                    assert(self.entries@.drop_last() =~= s);
                }
            },
        }
    }

    /// Sets the value under `k` unless `k` already has one; returns whether it
    /// was set.
    pub fn insert_if_absent(&mut self, k: String, v: V) -> (added: bool)
        requires
            old(self).wf(),
        ensures
            final(self).wf(),
            added == !old(self)@.contains_key(k@),
            final(self)@ == if added {
                old(self)@.insert(k@, v)
            } else {
                old(self)@
            },
    {
        if self.contains_key(&k) {
            false
        } else {
            self.insert(k, v);
            true
        }
    }

    /// Takes out all entries, leaving the map empty.
    pub fn take_entries(&mut self) -> (r: Vec<(String, V)>)
        requires
            old(self).wf(),
        ensures
            final(self).wf(),
            entries_map(r@) == old(self)@,
            entry_keys(r@).no_duplicates(),
            final(self)@ == Map::<Seq<char>, V>::empty(),
    {
        let mut r: Vec<(String, V)> = Vec::new();
        std::mem::swap(&mut r, &mut self.entries);
        assert(entry_keys(self.entries@) =~= Seq::<Seq<char>>::empty());
        r
    }

    /// Adds every entry of `other` whose key has no value here yet; values
    /// already present win.
    pub fn merge_missing_from(&mut self, other: StrMap<V>)
        requires
            old(self).wf(),
            other.wf(),
        ensures
            final(self).wf(),
            final(self)@ == other@.union_prefer_right(old(self)@),
    {
        let StrMap { entries: mut rest } = other;
        let ghost all = rest@;
        let ghost base = self@;
        proof {
            lemma_entries_map_dom(all);
            assert(entries_map(all).remove_keys(entry_keys(all).to_set()).union_prefer_right(base)
                =~= base);
        }
        while rest.len() > 0
            invariant
                self.wf(),
                entry_keys(all).no_duplicates(),
                rest@.len() <= all.len(),
                rest@ == all.take(rest@.len() as int),
                self@ == entries_map(all).remove_keys(entry_keys(rest@).to_set()).union_prefer_right(
                    base,
                ),
            decreases rest@.len(),
        {
            let ghost old_rest = rest@;
            let (k, v) = rest.pop().unwrap();
            let ghost j = rest@.len() as int;
            proof {
                assert(old_rest =~= rest@.push((k, v)));
                assert(all[j] == (k, v));
                lemma_entries_map_at(all, j);
                assert(rest@ =~= all.take(j));
                assert(entry_keys(old_rest) =~= entry_keys(rest@).push(k@));
                assert(entry_keys(old_rest).to_set() =~= entry_keys(rest@).to_set().insert(k@));
                assert forall|t: int| 0 <= t < j implies entry_keys(rest@)[t] != k@ by {
                    assert(entry_keys(all)[t] == entry_keys(rest@)[t]);
                    assert(entry_keys(all)[j] == k@);
                }
                assert(!entry_keys(rest@).to_set().contains(k@));
            }
            let ghost before = self@;
            self.insert_if_absent(k, v);
            proof {
                assert(self@ =~= entries_map(all).remove_keys(entry_keys(rest@).to_set()).union_prefer_right(
                    base,
                ));
            }
        }
        proof {
            assert(entry_keys(rest@).to_set() =~= Set::<Seq<char>>::empty());
            assert(entries_map(all).remove_keys(Set::<Seq<char>>::empty()) =~= entries_map(all));
        }
    }

    /// Keys of the map, in insertion order.
    pub fn keys(&self) -> (r: Vec<String>)
        requires
            self.wf(),
        ensures
            views(r@).to_set() == self@.dom(),
            views(r@).no_duplicates(),
    {
        proof {
            lemma_entries_map_dom(self.entries@);
        }
        let mut r: Vec<String> = Vec::new();
        let mut i: usize = 0;
        while i < self.entries.len()
            invariant
                i <= self.entries@.len(),
                views(r@) == entry_keys(self.entries@).take(i as int),
                entry_keys(self.entries@).no_duplicates(),
            decreases self.entries@.len() - i,
        {
            let k = self.entries[i].0.clone();
            r.push(k);
            assert(views(r@) =~= entry_keys(self.entries@).take(i as int).push(self.entries@[i as int].0@));
            assert(views(r@) =~= entry_keys(self.entries@).take(i + 1));
            i = i + 1;
        }
        assert(entry_keys(self.entries@).take(i as int) =~= entry_keys(self.entries@));
        r
    }
}

} // verus!
