use vstd::prelude::*;

verus! {

/// A table from names to values: a list of entries whose names are distinct.
pub struct NameMap<V> {
    entries: Vec<(String, V)>,
}

/// The entries of `s` whose name is `k` are at most one.
pub open spec fn distinct_names<V>(s: Seq<(String, V)>) -> bool {
    forall|i: int, j: int| 0 <= i < s.len() && 0 <= j < s.len() && #[trigger] s[i].0@ == #[trigger] s[j].0@ ==> i == j
}

/// The position of the entry named `k`.
pub open spec fn entry_index<V>(s: Seq<(String, V)>, k: Seq<char>) -> int {
    choose|i: int| 0 <= i < s.len() && #[trigger] s[i].0@ == k
}

/// The map that a list of entries with distinct names stands for.
pub open spec fn entries_map<V>(s: Seq<(String, V)>) -> Map<Seq<char>, V> {
    Map::new(
        |k: Seq<char>| exists|i: int| 0 <= i < s.len() && #[trigger] s[i].0@ == k,
        |k: Seq<char>| s[entry_index(s, k)].1,
    )
}

proof fn lemma_entry_at<V>(s: Seq<(String, V)>, i: int)
    requires
        distinct_names(s),
        0 <= i < s.len(),
    ensures
        entries_map(s).contains_key(s[i].0@),
        entries_map(s)[s[i].0@] == s[i].1,
{
    let k = s[i].0@;
    assert(exists|j: int| 0 <= j < s.len() && #[trigger] s[j].0@ == k);
    let j = entry_index(s, k);
    assert(s[j].0@ == s[i].0@);
}

impl<V> View for NameMap<V> {
    type V = Map<Seq<char>, V>;

    closed spec fn view(&self) -> Map<Seq<char>, V> {
        entries_map(self.entries@)
    }
}

impl<V> NameMap<V> {
    /// The names of the entries are distinct.
    pub closed spec fn wf(&self) -> bool {
        distinct_names(self.entries@)
    }

    /// An empty table.
    pub fn new() -> (r: Self)
        ensures
            r.wf(),
            r@ == Map::<Seq<char>, V>::empty(),
    {
        let r = NameMap { entries: Vec::new() };
        assert(r@ =~= Map::<Seq<char>, V>::empty());
        r
    }

    /// Where the entry named `k` is, if there is one.
    fn find(&self, k: &String) -> (r: Option<usize>)
        ensures
            match r {
                Some(i) => i < self.entries@.len() && self.entries@[i as int].0@ == k@,
                None => !self@.contains_key(k@),
            },
    {
        let mut i: usize = 0;
        while i < self.entries.len()
            invariant
                i <= self.entries@.len(),
                forall|j: int| 0 <= j < i ==> self.entries@[j].0@ != k@,
            decreases self.entries@.len() - i,
        {
            if self.entries[i].0.eq(k) {
                return Some(i);
            }
            i = i + 1;
        }
        None
    }

    /// The value of the name `k`, if it is in the table.
    pub fn get(&self, k: &String) -> (r: Option<&V>)
        requires
            self.wf(),
        ensures
            match r {
                Some(v) => self@.contains_key(k@) && *v == self@[k@],
                None => !self@.contains_key(k@),
            },
    {
        match self.find(k) {
            Some(i) => {
                proof {
                    lemma_entry_at(self.entries@, i as int);
                }
                Some(&self.entries[i].1)
            },
            None => None,
        }
    }

    /// Whether the name `k` is in the table.
    pub fn contains_key(&self, k: &String) -> (r: bool)
        requires
            self.wf(),
        ensures
            r == self@.contains_key(k@),
    {
        match self.find(k) {
            Some(i) => {
                proof {
                    lemma_entry_at(self.entries@, i as int);
                }
                true
            },
            None => false,
        }
    }

    /// Gives the name `k` the value `v`, in place of any value it had.
    pub fn insert(&mut self, k: String, v: V)
        requires
            old(self).wf(),
        ensures
            final(self).wf(),
            final(self)@ == old(self)@.insert(k@, v),
    {
        let ghost old_entries = self.entries@;
        let ghost key = k@;
        match self.find(&k) {
            Some(i) => {
                self.entries.set(i, (k, v));
                proof {
                    let s = self.entries@;
                    assert forall|a: int, b: int| 0 <= a < s.len() && 0 <= b < s.len() && #[trigger] s[a].0@ == #[trigger] s[b].0@ implies a == b by {
                        assert(old_entries[a].0@ == s[a].0@);
                        assert(old_entries[b].0@ == s[b].0@);
                    }
                    lemma_entry_at(s, i as int);
                    assert forall|kk: Seq<char>| kk != key implies (#[trigger] entries_map(s).contains_key(kk)
                        == entries_map(old_entries).contains_key(kk)) by {
                        if entries_map(s).contains_key(kk) {
                            let j = choose|j: int| 0 <= j < s.len() && #[trigger] s[j].0@ == kk;
                            assert(old_entries[j].0@ == kk);
                        }
                        if entries_map(old_entries).contains_key(kk) {
                            let j = choose|j: int| 0 <= j < old_entries.len() && #[trigger] old_entries[j].0@ == kk;
                            assert(s[j].0@ == kk);
                        }
                    }
                    assert forall|kk: Seq<char>| kk != key && entries_map(s).contains_key(kk) implies
                        #[trigger] entries_map(s)[kk] == entries_map(old_entries)[kk] by {
                        let j = choose|j: int| 0 <= j < s.len() && #[trigger] s[j].0@ == kk;
                        lemma_entry_at(s, j);
                        assert(old_entries[j].0@ == kk);
                        lemma_entry_at(old_entries, j);
                    }
                    assert(entries_map(s) =~= entries_map(old_entries).insert(key, v));
                }
            },
            None => {
                self.entries.push((k, v));
                proof {
                    let s = self.entries@;
                    assert forall|a: int, b: int| 0 <= a < s.len() && 0 <= b < s.len() && #[trigger] s[a].0@ == #[trigger] s[b].0@ implies a == b by {
                        if a < old_entries.len() && b < old_entries.len() {
                            assert(old_entries[a].0@ == s[a].0@);
                            assert(old_entries[b].0@ == s[b].0@);
                        } else if a < old_entries.len() {
                            assert(old_entries[a].0@ == s[a].0@);
                            assert(entries_map(old_entries).contains_key(old_entries[a].0@));
                        } else if b < old_entries.len() {
                            assert(old_entries[b].0@ == s[b].0@);
                            assert(entries_map(old_entries).contains_key(old_entries[b].0@));
                        }
                    }
                    lemma_entry_at(s, old_entries.len() as int);
                    assert forall|kk: Seq<char>| kk != key implies (#[trigger] entries_map(s).contains_key(kk)
                        == entries_map(old_entries).contains_key(kk)) by {
                        if entries_map(s).contains_key(kk) {
                            let j = choose|j: int| 0 <= j < s.len() && #[trigger] s[j].0@ == kk;
                            assert(old_entries[j].0@ == kk);
                        }
                        if entries_map(old_entries).contains_key(kk) {
                            let j = choose|j: int| 0 <= j < old_entries.len() && #[trigger] old_entries[j].0@ == kk;
                            assert(s[j].0@ == kk);
                        }
                    }
                    assert forall|kk: Seq<char>| kk != key && entries_map(s).contains_key(kk) implies
                        #[trigger] entries_map(s)[kk] == entries_map(old_entries)[kk] by {
                        let j = choose|j: int| 0 <= j < s.len() && #[trigger] s[j].0@ == kk;
                        lemma_entry_at(s, j);
                        assert(old_entries[j].0@ == kk);
                        lemma_entry_at(old_entries, j);
                    }
                    assert(entries_map(s) =~= entries_map(old_entries).insert(key, v));
                }
            },
        }
    }
}

impl<V: Clone> Clone for NameMap<V> {
    fn clone(&self) -> (r: Self)
        ensures
            self.wf() ==> r.wf(),
            r@.dom() == self@.dom(),
            self.wf() ==> forall|k: Seq<char>| #[trigger] r@.contains_key(k) ==> cloned::<V>(self@[k], r@[k]),
    {
        let mut entries: Vec<(String, V)> = Vec::new();
        let mut i: usize = 0;
        while i < self.entries.len()
            invariant
                i <= self.entries@.len(),
                entries@.len() == i,
                forall|j: int| 0 <= j < i ==> (#[trigger] entries@[j]).0 == self.entries@[j].0,
                forall|j: int| 0 <= j < i ==> cloned::<V>(self.entries@[j].1, #[trigger] entries@[j].1),
            decreases self.entries@.len() - i,
        {
            let name = self.entries[i].0.clone();
            let value = self.entries[i].1.clone();
            entries.push((name, value));
            i = i + 1;
        }
        let ghost s = self.entries@;
        let ghost t = entries@;
        proof {
            assert(distinct_names(s) ==> distinct_names(t)) by {
                if distinct_names(s) {
                    assert forall|a: int, b: int| 0 <= a < t.len() && 0 <= b < t.len() && #[trigger] t[a].0@ == #[trigger] t[b].0@ implies a == b by {
                        assert(s[a].0@ == s[b].0@);
                    }
                }
            }
            assert forall|k: Seq<char>| #[trigger] entries_map(t).contains_key(k) == entries_map(s).contains_key(k) by {
                if entries_map(t).contains_key(k) {
                    let j = choose|j: int| 0 <= j < t.len() && #[trigger] t[j].0@ == k;
                    assert(s[j].0@ == k);
                }
                if entries_map(s).contains_key(k) {
                    let j = choose|j: int| 0 <= j < s.len() && #[trigger] s[j].0@ == k;
                    assert(t[j].0@ == k);
                }
            }
            assert(entries_map(t).dom() =~= entries_map(s).dom());
            assert forall|k: Seq<char>| #[trigger] entries_map(t).contains_key(k) && distinct_names(s) implies cloned::<V>(entries_map(s)[k], entries_map(t)[k]) by {
                let j = choose|j: int| 0 <= j < t.len() && #[trigger] t[j].0@ == k;
                lemma_entry_at(t, j);
                assert(s[j].0@ == k);
                lemma_entry_at(s, j);
            }
        }
        NameMap { entries }
    }
}

} // verus!
