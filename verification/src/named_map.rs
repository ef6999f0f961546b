//! A map from names to values, kept as a list of entries with distinct
//! names. It backs the registries of sessions, clients and servers.

use vstd::prelude::*;

verus! {

/// The map that a list of named entries describes; a later entry of a name
/// wins over an earlier one.
pub open spec fn entries_map<V>(s: Seq<(String, V)>) -> Map<Seq<char>, V>
    decreases s.len(),
{
    if s.len() == 0 {
        Map::empty()
    } else {
        entries_map(s.drop_last()).insert(s.last().0@, s.last().1)
    }
}

/// Whether `new` is `old` with an entry for `k` added (or replaced), every
/// other entry kept.
pub open spec fn entry_opened<V>(old: Map<Seq<char>, V>, new: Map<Seq<char>, V>, k: Seq<char>) -> bool {
    &&& new.dom() == old.dom().insert(k)
    &&& forall|j: Seq<char>| j != k && #[trigger] old.contains_key(j) ==> new[j] == old[j]
}

/// No name occurs twice.
pub open spec fn distinct_names<V>(s: Seq<(String, V)>) -> bool {
    forall|i: int, j: int| 0 <= i < j < s.len() ==> s[i].0@ != s[j].0@
}

pub proof fn lemma_entries_map_dom<V>(s: Seq<(String, V)>)
    ensures
        forall|k: Seq<char>|
            #[trigger] entries_map(s).contains_key(k) <==> exists|i: int| 0 <= i < s.len() && s[i].0@
                == k,
        entries_map(s).dom().finite(),
    decreases s.len(),
{
    if s.len() > 0 {
        let p = s.drop_last();
        lemma_entries_map_dom(p);
        assert forall|k: Seq<char>| #[trigger]
            entries_map(s).contains_key(k) <==> exists|i: int| 0 <= i < s.len() && s[i].0@ == k by {
            if entries_map(s).contains_key(k) {
                if k == s.last().0@ {
                    assert(s[s.len() - 1].0@ == k);
                } else {
                    let i = choose|i: int| 0 <= i < p.len() && p[i].0@ == k;
                    assert(s[i].0@ == k);
                }
            }
            if exists|i: int| 0 <= i < s.len() && s[i].0@ == k {
                let i = choose|i: int| 0 <= i < s.len() && s[i].0@ == k;
                if i < s.len() - 1 {
                    assert(p[i].0@ == k);
                }
            }
        }
    }
}

pub proof fn lemma_entries_map_value<V>(s: Seq<(String, V)>, i: int)
    requires
        distinct_names(s),
        0 <= i < s.len(),
    ensures
        entries_map(s).contains_key(s[i].0@),
        entries_map(s)[s[i].0@] == s[i].1,
    decreases s.len(),
{
    let p = s.drop_last();
    if i < s.len() - 1 {
        assert(distinct_names(p)) by {
            assert forall|a: int, b: int| 0 <= a < b < p.len() implies p[a].0@ != p[b].0@ by {
                assert(s[a].0@ != s[b].0@);
            }
        }
        lemma_entries_map_value(p, i);
        assert(s[i].0@ != s.last().0@);
    }
}

pub proof fn lemma_entries_map_len<V>(s: Seq<(String, V)>)
    requires
        distinct_names(s),
    ensures
        entries_map(s).len() == s.len(),
    decreases s.len(),
{
    if s.len() > 0 {
        let p = s.drop_last();
        assert(distinct_names(p)) by {
            assert forall|a: int, b: int| 0 <= a < b < p.len() implies p[a].0@ != p[b].0@ by {
                assert(s[a].0@ != s[b].0@);
            }
        }
        lemma_entries_map_len(p);
        lemma_entries_map_dom(p);
        if entries_map(p).contains_key(s.last().0@) {
            let i = choose|i: int| 0 <= i < p.len() && p[i].0@ == s.last().0@;
            assert(s[i].0@ == s[s.len() - 1].0@);
        }
    }
}

/// Two lists with distinct names that hold the same names with the same
/// values describe the same map.
pub proof fn lemma_entries_map_ext<V>(s: Seq<(String, V)>, m: Map<Seq<char>, V>)
    requires
        distinct_names(s),
        forall|i: int| 0 <= i < s.len() ==> m.contains_key(#[trigger] s[i].0@) && m[s[i].0@] == s[i].1,
        forall|k: Seq<char>| #[trigger] m.contains_key(k) ==> exists|i: int| 0 <= i < s.len() && s[i].0@
            == k,
    ensures
        entries_map(s) == m,
{
    lemma_entries_map_dom(s);
    assert forall|k: Seq<char>| #[trigger] entries_map(s).contains_key(k) implies entries_map(s)[k]
        == m[k] by {
        let i = choose|i: int| 0 <= i < s.len() && s[i].0@ == k;
        lemma_entries_map_value(s, i);
    }
    assert(entries_map(s) =~= m);
}

/// A map from names to values.
#[derive(Debug, Clone)]
pub struct NamedMap<V> {
    entries: Vec<(String, V)>,
}

impl<V> View for NamedMap<V> {
    type V = Map<Seq<char>, V>;

    closed spec fn view(&self) -> Map<Seq<char>, V> {
        entries_map(self.entries@)
    }
}

impl<V> NamedMap<V> {
    /// The map's internal invariant.
    pub closed spec fn wf(&self) -> bool {
        distinct_names(self.entries@)
    }

    /// An empty map.
    pub fn new() -> (r: Self)
        ensures
            r.wf(),
            r@ == Map::<Seq<char>, V>::empty(),
    {
        let r = NamedMap { entries: Vec::new() };
        assert(r@ =~= Map::<Seq<char>, V>::empty());
        r
    }

    /// The number of names.
    pub fn len(&self) -> (r: usize)
        requires
            self.wf(),
        ensures
            r == self@.len(),
    {
        proof {
            lemma_entries_map_len(self.entries@);
        }
        self.entries.len()
    }

    fn find(&self, k: &str) -> (r: Option<usize>)
        requires
            self.wf(),
        ensures
            match r {
                Some(i) => i < self.entries@.len() && self.entries@[i as int].0@ == k@,
                None => forall|i: int| 0 <= i < self.entries@.len() ==> self.entries@[i].0@ != k@,
            },
    {
        let key = crate::text::string_from(k);
        let mut i: usize = 0;
        while i < self.entries.len()
            invariant
                key@ == k@,
                i <= self.entries@.len(),
                forall|j: int| 0 <= j < i ==> self.entries@[j].0@ != k@,
            decreases self.entries@.len() - i,
        {
            if self.entries[i].0 == key {
                return Some(i);
            }
            i += 1;
        }
        None
    }

    /// Whether the name is present.
    pub fn contains_key(&self, k: &str) -> (r: bool)
        requires
            self.wf(),
        ensures
            r == self@.contains_key(k@),
    {
        proof {
            lemma_entries_map_dom(self.entries@);
        }
        self.find(k).is_some()
    }

    /// The value of a name.
    pub fn get(&self, k: &str) -> (r: Option<&V>)
        requires
            self.wf(),
        ensures
            match r {
                Some(v) => self@.contains_key(k@) && *v == self@[k@],
                None => !self@.contains_key(k@),
            },
    {
        proof {
            lemma_entries_map_dom(self.entries@);
        }
        match self.find(k) {
            Some(i) => {
                proof {
                    lemma_entries_map_value(self.entries@, i as int);
                }
                Some(&self.entries[i].1)
            },
            None => None,
        }
    }

    /// Sets the value of a name, replacing any earlier value.
    pub fn insert(&mut self, k: String, v: V)
        requires
            old(self).wf(),
        ensures
            final(self).wf(),
            final(self)@ == old(self)@.insert(k@, v),
    {
        let ghost old_entries = self.entries@;
        let ghost m = old(self)@.insert(k@, v);
        proof {
            lemma_entries_map_dom(old_entries);
        }
        match self.find(k.as_str()) {
            Some(i) => {
                let ghost kv = k@;
                self.entries.set(i, (k, v));
                proof {
                    let s = self.entries@;
                    assert(s == old_entries.update(i as int, s[i as int]));
                    assert forall|a: int, b: int| 0 <= a < b < s.len() implies s[a].0@ != s[b].0@ by {
                        assert(old_entries[a].0@ != old_entries[b].0@);
                    }
                    assert forall|j: int| 0 <= j < s.len() implies m.contains_key(#[trigger] s[j].0@)
                        && m[s[j].0@] == s[j].1 by {
                        if j != i {
                            lemma_entries_map_value(old_entries, j);
                            assert(old_entries[j].0@ != kv);
                        }
                    }
                    assert forall|q: Seq<char>| #[trigger] m.contains_key(q) implies exists|j: int|
                        0 <= j < s.len() && s[j].0@ == q by {
                        if q != kv {
                            let j = choose|j: int| 0 <= j < old_entries.len() && old_entries[j].0@ == q;
                            assert(s[j].0@ == q);
                        } else {
                            assert(s[i as int].0@ == q);
                        }
                    }
                    lemma_entries_map_ext(s, m);
                }
            },
            None => {
                self.entries.push((k, v));
                proof {
                    let s = self.entries@;
                    assert(s.drop_last() =~= old_entries);
                    assert forall|a: int, b: int| 0 <= a < b < s.len() implies s[a].0@ != s[b].0@ by {
                        if b < s.len() - 1 {
                            assert(old_entries[a].0@ != old_entries[b].0@);
                        } else {
                            assert(old_entries[a].0@ != k@);
                        }
                    }
                }
            },
        }
    }

    /// Removes a name, giving back its entry if it was present.
    pub fn remove_entry(&mut self, k: &str) -> (r: Option<(String, V)>)
        requires
            old(self).wf(),
        ensures
            final(self).wf(),
            final(self)@ == old(self)@.remove(k@),
            match r {
                Some(e) => e.0@ == k@ && old(self)@.contains_key(k@) && e.1 == old(self)@[k@],
                None => !old(self)@.contains_key(k@),
            },
    {
        let ghost old_entries = self.entries@;
        let ghost m = old(self)@.remove(k@);
        proof {
            lemma_entries_map_dom(old_entries);
        }
        match self.find(k) {
            Some(i) => {
                proof {
                    lemma_entries_map_value(old_entries, i as int);
                }
                let e = self.entries.remove(i);
                proof {
                    let s = self.entries@;
                    assert(s =~= old_entries.remove(i as int));
                    assert forall|a: int, b: int| 0 <= a < b < s.len() implies s[a].0@ != s[b].0@ by {
                        let a2 = if a < i { a } else { a + 1 };
                        let b2 = if b < i { b } else { b + 1 };
                        assert(old_entries[a2].0@ != old_entries[b2].0@);
                    }
                    assert forall|j: int| 0 <= j < s.len() implies m.contains_key(#[trigger] s[j].0@)
                        && m[s[j].0@] == s[j].1 by {
                        let j2 = if j < i { j } else { j + 1 };
                        lemma_entries_map_value(old_entries, j2);
                        assert(old_entries[j2].0@ != old_entries[i as int].0@);
                    }
                    assert forall|q: Seq<char>| #[trigger] m.contains_key(q) implies exists|j: int|
                        0 <= j < s.len() && s[j].0@ == q by {
                        let j = choose|j: int| 0 <= j < old_entries.len() && old_entries[j].0@ == q;
                        if j < i {
                            assert(s[j].0@ == q);
                        } else {
                            assert(j != i);
                            assert(s[j - 1].0@ == q);
                        }
                    }
                    lemma_entries_map_ext(s, m);
                }
                Some(e)
            },
            None => {
                assert(self@ =~= m);
                None
            },
        }
    }

    /// Removes a name.
    pub fn remove(&mut self, k: &str)
        requires
            old(self).wf(),
        ensures
            final(self).wf(),
            final(self)@ == old(self)@.remove(k@),
    {
        let _ = self.remove_entry(k);
    }

    /// Takes every entry out, leaving the map empty. The entries have
    /// distinct names and describe the map as it was.
    pub fn drain(&mut self) -> (r: Vec<(String, V)>)
        requires
            old(self).wf(),
        ensures
            final(self).wf(),
            final(self)@ == Map::<Seq<char>, V>::empty(),
            distinct_names(r@),
            entries_map(r@) == old(self)@,
    {
        let mut r: Vec<(String, V)> = Vec::new();
        std::mem::swap(&mut r, &mut self.entries);
        assert(self@ =~= Map::<Seq<char>, V>::empty());
        r
    }

    /// The names present, each once.
    pub fn keys(&self) -> (r: Vec<String>)
        requires
            self.wf(),
        ensures
            r.len() == self@.len(),
            forall|i: int| 0 <= i < r.len() ==> self@.contains_key(#[trigger] r[i]@),
            forall|i: int, j: int| 0 <= i < j < r.len() ==> r[i]@ != r[j]@,
            forall|k: Seq<char>| #[trigger] self@.contains_key(k) ==> exists|i: int| 0 <= i < r.len() && r[i]@ == k,
    {
        proof {
            lemma_entries_map_len(self.entries@);
            lemma_entries_map_dom(self.entries@);
        }
        let mut r: Vec<String> = Vec::new();
        let mut i: usize = 0;
        while i < self.entries.len()
            invariant
                self.wf(),
                i <= self.entries@.len(),
                r.len() == i,
                forall|j: int| 0 <= j < i ==> #[trigger] r[j]@ == self.entries@[j].0@,
            decreases self.entries@.len() - i,
        {
            r.push(self.entries[i].0.clone());
            i += 1;
        }
        proof {
            assert forall|a: int| 0 <= a < r.len() implies self@.contains_key(#[trigger] r[a]@) by {
                assert(r[a]@ == self.entries@[a].0@);
            }
            assert forall|k: Seq<char>| #[trigger] self@.contains_key(k) implies exists|i: int| 0 <= i < r.len() && r[i]@ == k by {
                let i = choose|i: int| 0 <= i < self.entries@.len() && self.entries@[i].0@ == k;
                assert(r[i]@ == k);
            }
        }
        r
    }
}

} // verus!
