//! A finite map keyed by strings, kept as a vector of entries whose keys
//! never repeat. Its value is the mathematical map from each key's
//! characters to the value stored with it.

use vstd::prelude::*;
use crate::text::str_eq;
use vstd::std_specs::cmp::PartialEqSpecImpl;

verus! {

/// A finite map from strings to values. No key occurs twice.
#[derive(Debug)]
pub struct StrMap<V> {
    entries: Vec<(String, V)>,
}

impl<V> StrMap<V> {
    /// The keys of the entries, in storage order.
    pub closed spec fn keys(self) -> Seq<Seq<char>> {
        self.entries@.map_values(|e: (String, V)| e.0@)
    }

    #[verifier::type_invariant]
    closed spec fn keys_unique(self) -> bool {
        self.keys().no_duplicates()
    }

    /// Where the entry for `k` is stored (meaningful when `k` is a key).
    closed spec fn slot(self, k: Seq<char>) -> int {
        choose|i: int| 0 <= i < self.entries@.len() && self.entries@[i].0@ == k
    }

    /// The mathematical map of this string map.
    pub closed spec fn as_map(self) -> Map<Seq<char>, V> {
        Map::new(
            |k: Seq<char>| exists|i: int| 0 <= i < self.entries@.len() && self.entries@[i].0@ == k,
            |k: Seq<char>| self.entries@[self.slot(k)].1,
        )
    }

    /// The key of the `i`-th stored entry.
    pub closed spec fn key_at(self, i: int) -> Seq<char> {
        self.entries@[i].0@
    }

    /// The number of stored entries.
    pub closed spec fn count(self) -> nat {
        self.entries@.len()
    }

    proof fn lemma_entry(self, i: int)
        requires
            self.keys_unique(),
            0 <= i < self.entries@.len(),
        ensures
            self.as_map().contains_key(self.entries@[i].0@),
            self.as_map()[self.entries@[i].0@] == self.entries@[i].1,
            self.slot(self.entries@[i].0@) == i,
    {
        let k = self.entries@[i].0@;
        assert(self.entries@[i].0@ == k);
        let j = self.slot(k);
        assert(0 <= j < self.entries@.len() && self.entries@[j].0@ == k);
        assert(self.keys()[j] == k && self.keys()[i] == k);
    }

    proof fn lemma_domain(self)
        requires
            self.keys_unique(),
        ensures
            self.as_map().dom() == self.keys().to_set(),
            self.as_map().dom().finite(),
            self.as_map().len() == self.entries@.len(),
            self.count() == self.as_map().len(),
    {
        assert forall|k: Seq<char>| self.as_map().dom().contains(k) <==> self.keys().to_set().contains(k) by {
            if self.as_map().dom().contains(k) {
                let i = choose|i: int| 0 <= i < self.entries@.len() && self.entries@[i].0@ == k;
                assert(self.keys()[i] == k);
            }
            if self.keys().to_set().contains(k) {
                let i = choose|i: int| 0 <= i < self.keys().len() && self.keys()[i] == k;
                assert(self.entries@[i].0@ == k);
            }
        }
        assert(self.as_map().dom() =~= self.keys().to_set());
        self.keys().unique_seq_to_set();
        vstd::seq_lib::seq_to_set_is_finite(self.keys());
    }

    /// Finds where the entry for `k` is stored.
    fn find(&self, k: &str) -> (r: Option<usize>)
        ensures
            match r {
                Some(i) => i < self.entries@.len() && self.entries@[i as int].0@ == k@,
                None => forall|i: int| 0 <= i < self.entries@.len() ==> self.entries@[i].0@ != k@,
            },
    {
        let mut i: usize = 0;
        while i < self.entries.len()
            invariant
                i <= self.entries@.len(),
                forall|j: int| 0 <= j < i ==> self.entries@[j].0@ != k@,
            decreases self.entries@.len() - i,
        {
            if str_eq(self.entries[i].0.as_str(), k) {
                return Some(i);
            }
            i = i + 1;
        }
        None
    }

    /// Creates an empty map.
    pub fn new() -> (r: Self)
        ensures
            r@ == Map::<Seq<char>, V>::empty(),
    {
        let r = StrMap { entries: Vec::new() };
        assert(r.keys() =~= Seq::empty());
        assert(r@ =~= Map::<Seq<char>, V>::empty());
        r
    }

    /// The number of keys.
    pub fn len(&self) -> (r: usize)
        ensures
            r == self@.len(),
            self@.dom().finite(),
    {
        proof {
            use_type_invariant(self);
            self.lemma_domain();
        }
        self.entries.len()
    }

    /// Whether the map has no keys.
    pub fn is_empty(&self) -> (r: bool)
        ensures
            r == (self@ == Map::<Seq<char>, V>::empty()),
    {
        proof {
            use_type_invariant(self);
            self.lemma_domain();
            if self.entries@.len() > 0 {
                self.lemma_entry(0);
            } else {
                assert(self@ =~= Map::<Seq<char>, V>::empty());
            }
        }
        self.entries.len() == 0
    }

    /// Whether `k` is a key.
    pub fn contains_key(&self, k: &str) -> (r: bool)
        ensures
            r == self@.contains_key(k@),
    {
        match self.find(k) {
            Some(i) => true,
            None => false,
        }
    }

    /// The value stored for `k`, if any.
    pub fn get(&self, k: &str) -> (r: Option<&V>)
        ensures
            match r {
                Some(v) => self@.contains_key(k@) && *v == self@[k@],
                None => !self@.contains_key(k@),
            },
    {
        proof {
            use_type_invariant(self);
        }
        match self.find(k) {
            Some(i) => {
                proof {
                    self.lemma_entry(i as int);
                }
                Some(&self.entries[i].1)
            },
            None => None,
        }
    }

    /// Stores `v` for `k`, replacing any value stored for it before.
    pub fn insert(&mut self, k: String, v: V)
        ensures
            final(self)@ == old(self)@.insert(k@, v),
    {
        proof {
            use_type_invariant(&*self);
        }
        let ghost old_self = *self;
        let found = self.find(k.as_str());
        let mut e: Vec<(String, V)> = Vec::new();
        std::mem::swap(&mut e, &mut self.entries);
        let ghost ks = k@;
        match found {
            Some(i) => {
                e.remove(i);
                e.insert(i, (k, v));
            },
            None => {
                e.push((k, v));
            },
        }
        let ghost new_self = StrMap { entries: e };
        proof {
            let n = old_self.entries@.len();
            match found {
                Some(i) => {
                    assert forall|j: int| 0 <= j < n implies new_self.keys()[j] == old_self.keys()[j] by {
                        if j != i {
                            assert(new_self.entries@[j] == old_self.entries@[j]);
                        }
                    }
                    assert(new_self.keys() =~= old_self.keys());
                },
                None => {
                    assert forall|j: int| 0 <= j < n implies new_self.keys()[j] == old_self.keys()[j] by {
                        assert(new_self.entries@[j] == old_self.entries@[j]);
                    }
                    assert(new_self.keys() =~= old_self.keys().push(ks));
                    assert forall|j: int| 0 <= j < n implies old_self.keys()[j] != ks by {
                        assert(old_self.keys()[j] == old_self.entries@[j].0@);
                    }
                },
            }
            assert(new_self.keys_unique());
            assert forall|key: Seq<char>| #[trigger] new_self.as_map().contains_key(key)
                <==> old_self.as_map().insert(ks, v).contains_key(key) by {
                if key == ks {
                    match found {
                        Some(i) => { new_self.lemma_entry(i as int); },
                        None => { new_self.lemma_entry(n as int); },
                    }
                } else if old_self.as_map().contains_key(key) {
                    let j = choose|j: int| 0 <= j < old_self.entries@.len() && old_self.entries@[j].0@ == key;
                    new_self.lemma_entry(j);
                } else if new_self.as_map().contains_key(key) {
                    let j = choose|j: int| 0 <= j < new_self.entries@.len() && new_self.entries@[j].0@ == key;
                    if j < n {
                        old_self.lemma_entry(j);
                    }
                }
            }
            assert forall|key: Seq<char>| #[trigger] new_self.as_map().contains_key(key)
                implies new_self.as_map()[key] == old_self.as_map().insert(ks, v)[key] by {
                if key == ks {
                    match found {
                        Some(i) => { new_self.lemma_entry(i as int); },
                        None => { new_self.lemma_entry(n as int); },
                    }
                } else {
                    let j = choose|j: int| 0 <= j < new_self.entries@.len() && new_self.entries@[j].0@ == key;
                    new_self.lemma_entry(j);
                    old_self.lemma_entry(j);
                }
            }
            assert(new_self.as_map() =~= old_self.as_map().insert(ks, v));
        }
        self.entries = e;
    }

    /// Removes `k` and gives back the value stored for it, if any.
    pub fn take(&mut self, k: &str) -> (r: Option<V>)
        ensures
            final(self)@ == old(self)@.remove(k@),
            match r {
                Some(v) => old(self)@.contains_key(k@) && v == old(self)@[k@],
                None => !old(self)@.contains_key(k@),
            },
    {
        proof {
            use_type_invariant(&*self);
        }
        let ghost old_self = *self;
        let ghost ks = k@;
        match self.find(k) {
            None => {
                proof {
                    assert(old_self.as_map().remove(ks) =~= old_self.as_map());
                }
                None
            },
            Some(i) => {
                let mut e: Vec<(String, V)> = Vec::new();
                std::mem::swap(&mut e, &mut self.entries);
                let (_key, value) = e.remove(i);
                let ghost new_self = StrMap { entries: e };
                proof {
                    old_self.lemma_entry(i as int);
                    let n = old_self.entries@.len();
                    assert forall|j: int| 0 <= j < n - 1 implies new_self.keys()[j] == old_self.keys()[
                        if j < i { j } else { j + 1 }] by {
                        if j < i {
                            assert(new_self.entries@[j] == old_self.entries@[j]);
                        } else {
                            assert(new_self.entries@[j] == old_self.entries@[j + 1]);
                        }
                    }
                    assert forall|a: int, b: int|
                        0 <= a < new_self.keys().len() && 0 <= b < new_self.keys().len() && a != b
                        implies new_self.keys()[a] != new_self.keys()[b] by {
                        let a2 = if a < i { a } else { a + 1 };
                        let b2 = if b < i { b } else { b + 1 };
                        assert(new_self.keys()[a] == old_self.keys()[a2]);
                        assert(new_self.keys()[b] == old_self.keys()[b2]);
                    }
                    assert(new_self.keys_unique());
                    assert forall|key: Seq<char>| #[trigger] new_self.as_map().contains_key(key)
                        <==> old_self.as_map().remove(ks).contains_key(key) by {
                        if new_self.as_map().contains_key(key) {
                            let j = choose|j: int| 0 <= j < new_self.entries@.len() && new_self.entries@[j].0@ == key;
                            let j2 = if j < i { j } else { j + 1 };
                            assert(new_self.keys()[j] == old_self.keys()[j2]);
                            assert(old_self.keys()[j2] == old_self.entries@[j2].0@);
                            old_self.lemma_entry(j2);
                            assert(old_self.keys()[i as int] == ks);
                        }
                        if old_self.as_map().remove(ks).contains_key(key) {
                            let j = choose|j: int| 0 <= j < old_self.entries@.len() && old_self.entries@[j].0@ == key;
                            assert(j != i);
                            let j1 = if j < i { j } else { j - 1 };
                            assert(new_self.keys()[j1] == old_self.keys()[j]);
                            assert(new_self.entries@[j1].0@ == new_self.keys()[j1]);
                        }
                    }
                    assert forall|key: Seq<char>| #[trigger] new_self.as_map().contains_key(key)
                        implies new_self.as_map()[key] == old_self.as_map().remove(ks)[key] by {
                        let j = choose|j: int| 0 <= j < new_self.entries@.len() && new_self.entries@[j].0@ == key;
                        let j2 = if j < i { j } else { j + 1 };
                        new_self.lemma_entry(j);
                        assert(new_self.entries@[j] == old_self.entries@[j2]);
                        old_self.lemma_entry(j2);
                    }
                    assert(new_self.as_map() =~= old_self.as_map().remove(ks));
                }
                self.entries = e;
                Some(value)
            },
        }
    }

    /// Removes `k` and the value stored for it, if any.
    pub fn remove(&mut self, k: &str)
        ensures
            final(self)@ == old(self)@.remove(k@),
    {
        let _ = self.take(k);
    }

    /// The number of stored entries; entry `i` below it can be read with
    /// [`StrMap::entry`].
    pub fn entry_count(&self) -> (r: usize)
        ensures
            r == self.count(),
            r == self@.len(),
            self@.dom().finite(),
            forall|i: int, j: int| 0 <= i < self.count() && 0 <= j < self.count() && i != j
                ==> self.key_at(i) != self.key_at(j),
            forall|k: Seq<char>| #[trigger] self@.contains_key(k)
                <==> exists|i: int| 0 <= i < self.count() && self.key_at(i) == k,
    {
        proof {
            use_type_invariant(self);
            self.lemma_domain();
            assert forall|i: int, j: int| 0 <= i < self.count() && 0 <= j < self.count() && i != j
                implies self.key_at(i) != self.key_at(j) by {
                assert(self.keys()[i] == self.key_at(i));
                assert(self.keys()[j] == self.key_at(j));
            }
            assert forall|k: Seq<char>| #[trigger] self@.contains_key(k)
                <==> exists|i: int| 0 <= i < self.count() && self.key_at(i) == k by {
                if self@.contains_key(k) {
                    let i = choose|i: int| 0 <= i < self.entries@.len() && self.entries@[i].0@ == k;
                    assert(self.key_at(i) == k);
                }
            }
        }
        self.entries.len()
    }

    /// The `i`-th stored entry. Entries with different positions have
    /// different keys, and every key has an entry.
    pub fn entry(&self, i: usize) -> (r: (&String, &V))
        requires
            i < self.count(),
        ensures
            r.0@ == self.key_at(i as int),
            self@.contains_key(r.0@),
            self@[r.0@] == *r.1,
    {
        proof {
            use_type_invariant(self);
            self.lemma_entry(i as int);
        }
        let e = &self.entries[i];
        (&e.0, &e.1)
    }

}

impl<V> View for StrMap<V> {
    type V = Map<Seq<char>, V>;

    open spec fn view(&self) -> Map<Seq<char>, V> {
        self.as_map()
    }
}

impl<V> Default for StrMap<V> {
    fn default() -> (r: Self)
        ensures
            r@ == Map::<Seq<char>, V>::empty(),
    {
        StrMap::new()
    }
}

/// The characters of each value of a string-valued map.
pub open spec fn text_map(m: Map<Seq<char>, String>) -> Map<Seq<char>, Seq<char>> {
    m.map_values(|v: String| v@)
}

impl StrMap<String> {
    /// Whether the two maps have the same keys, each with the same text.
    pub fn same_entries(&self, other: &StrMap<String>) -> (r: bool)
        ensures
            r == (text_map(self@) == text_map(other@)),
    {
        proof {
            use_type_invariant(self);
            use_type_invariant(other);
            self.lemma_domain();
            other.lemma_domain();
        }
        if self.entries.len() != other.entries.len() {
            proof {
                assert(text_map(self@).dom() =~= self@.dom());
                assert(text_map(other@).dom() =~= other@.dom());
            }
            return false;
        }
        let mut i: usize = 0;
        while i < self.entries.len()
            invariant
                self.keys_unique(),
                other.keys_unique(),
                self.entries@.len() == other.entries@.len(),
                self@.len() == self.entries@.len(),
                other@.len() == other.entries@.len(),
                self@.dom().finite(),
                other@.dom().finite(),
                i <= self.entries@.len(),
                forall|j: int| 0 <= j < i ==> other@.contains_key(#[trigger] self.entries@[j].0@)
                    && other@[self.entries@[j].0@]@ == self.entries@[j].1@,
            decreases self.entries@.len() - i,
        {
            proof {
                self.lemma_entry(i as int);
            }
            let k = &self.entries[i].0;
            match other.get(k.as_str()) {
                None => {
                    proof {
                        assert(text_map(self@).dom().contains(k@));
                        assert(!text_map(other@).dom().contains(k@));
                    }
                    return false;
                },
                Some(v) => {
                    if !(*v == self.entries[i].1) {
                        proof {
                            assert(text_map(self@)[k@] == self.entries@[i as int].1@);
                            assert(text_map(other@)[k@] == v@);
                        }
                        return false;
                    }
                },
            }
            i = i + 1;
        }
        proof {
            assert forall|k: Seq<char>| #[trigger] self@.contains_key(k) implies other@.contains_key(k)
                && other@[k]@ == self@[k]@ by {
                let j = choose|j: int| 0 <= j < self.entries@.len() && self.entries@[j].0@ == k;
                self.lemma_entry(j);
            }
            vstd::set_lib::lemma_subset_equality(self@.dom(), other@.dom());
            assert(text_map(self@) =~= text_map(other@));
        }
        true
    }
}

/// The text of every value of every map in a table of string-valued maps.
pub open spec fn table_text(m: Map<Seq<char>, StrMap<String>>) -> Map<Seq<char>, Map<Seq<char>, Seq<char>>> {
    m.map_values(|t: StrMap<String>| text_map(t@))
}

impl StrMap<StrMap<String>> {
    /// Whether the two tables have the same keys, each with a map of the
    /// same entries.
    pub fn same_table(&self, other: &StrMap<StrMap<String>>) -> (r: bool)
        ensures
            r == (table_text(self@) == table_text(other@)),
    {
        proof {
            use_type_invariant(self);
            use_type_invariant(other);
            self.lemma_domain();
            other.lemma_domain();
        }
        if self.entries.len() != other.entries.len() {
            proof {
                assert(table_text(self@).dom() =~= self@.dom());
                assert(table_text(other@).dom() =~= other@.dom());
            }
            return false;
        }
        let mut i: usize = 0;
        while i < self.entries.len()
            invariant
                self.keys_unique(),
                other.keys_unique(),
                self.entries@.len() == other.entries@.len(),
                self@.len() == self.entries@.len(),
                other@.len() == other.entries@.len(),
                self@.dom().finite(),
                other@.dom().finite(),
                i <= self.entries@.len(),
                forall|j: int| 0 <= j < i ==> other@.contains_key(#[trigger] self.entries@[j].0@)
                    && text_map(other@[self.entries@[j].0@]@) == text_map(self.entries@[j].1@),
            decreases self.entries@.len() - i,
        {
            proof {
                self.lemma_entry(i as int);
            }
            let k = &self.entries[i].0;
            match other.get(k.as_str()) {
                None => {
                    proof {
                        assert(table_text(self@).dom().contains(k@));
                        assert(!table_text(other@).dom().contains(k@));
                    }
                    return false;
                },
                Some(t) => {
                    if !t.same_entries(&self.entries[i].1) {
                        proof {
                            assert(table_text(self@)[k@] == text_map(self.entries@[i as int].1@));
                            assert(table_text(other@)[k@] == text_map(t@));
                        }
                        return false;
                    }
                },
            }
            i = i + 1;
        }
        proof {
            assert forall|k: Seq<char>| #[trigger] self@.contains_key(k) implies other@.contains_key(k)
                && text_map(other@[k]@) == text_map(self@[k]@) by {
                let j = choose|j: int| 0 <= j < self.entries@.len() && self.entries@[j].0@ == k;
                self.lemma_entry(j);
            }
            vstd::set_lib::lemma_subset_equality(self@.dom(), other@.dom());
            assert(table_text(self@) =~= table_text(other@));
        }
        true
    }
}

impl PartialEq for StrMap<String> {
    fn eq(&self, other: &Self) -> (r: bool) {
        self.same_entries(other)
    }
}

impl PartialEqSpecImpl for StrMap<String> {
    open spec fn obeys_eq_spec() -> bool {
        true
    }

    open spec fn eq_spec(&self, other: &Self) -> bool {
        text_map(self@) == text_map(other@)
    }
}

impl Clone for StrMap<String> {
    fn clone(&self) -> (r: Self)
        ensures
            r@ == self@,
    {
        self.clone_map()
    }
}

impl StrMap<StrMap<String>> {
    /// An independent copy of this table of maps: the same keys, each with
    /// a copy of its map.
    pub fn clone_table(&self) -> (r: StrMap<StrMap<String>>)
        ensures
            r@.dom() == self@.dom(),
            forall|k: Seq<char>| #[trigger] r@.contains_key(k) ==> r@[k]@ == self@[k]@,
    {
        proof {
            use_type_invariant(self);
        }
        let mut e: Vec<(String, StrMap<String>)> = Vec::new();
        let mut i: usize = 0;
        while i < self.entries.len()
            invariant
                i <= self.entries@.len(),
                e@.len() == i,
                forall|j: int| 0 <= j < i ==> (#[trigger] e@[j]).0 == self.entries@[j].0
                    && e@[j].1@ == self.entries@[j].1@,
            decreases self.entries@.len() - i,
        {
            let k = self.entries[i].0.clone();
            let v = self.entries[i].1.clone_map();
            e.push((k, v));
            i = i + 1;
        }
        let ghost r0 = StrMap { entries: e };
        proof {
            assert forall|j: int| 0 <= j < e@.len() implies r0.keys()[j] == self.keys()[j] by {
                assert(e@[j].0 == self.entries@[j].0);
            }
            assert(r0.keys() =~= self.keys());
        }
        let r = StrMap { entries: e };
        proof {
            assert forall|k: Seq<char>| #[trigger] r@.contains_key(k) <==> self@.contains_key(k) by {
                if r@.contains_key(k) {
                    let j = choose|j: int| 0 <= j < r.entries@.len() && r.entries@[j].0@ == k;
                    assert(r.entries@[j].0 == self.entries@[j].0);
                    self.lemma_entry(j);
                }
                if self@.contains_key(k) {
                    let j = choose|j: int| 0 <= j < self.entries@.len() && self.entries@[j].0@ == k;
                    assert(r.entries@[j].0 == self.entries@[j].0);
                    r.lemma_entry(j);
                }
            }
            assert(r@.dom() =~= self@.dom());
            assert forall|k: Seq<char>| #[trigger] r@.contains_key(k) implies r@[k]@ == self@[k]@ by {
                let j = choose|j: int| 0 <= j < r.entries@.len() && r.entries@[j].0@ == k;
                assert(r.entries@[j].0 == self.entries@[j].0);
                r.lemma_entry(j);
                self.lemma_entry(j);
            }
        }
        r
    }
}

/// The keys stored at the first `i` positions of `m`.
pub open spec fn keys_before<V>(m: StrMap<V>, i: int) -> Set<Seq<char>> {
    Set::new(|k: Seq<char>| exists|j: int| 0 <= j < i && m.key_at(j) == k)
}

impl StrMap<String> {
    /// An independent copy of this map.
    pub fn clone_map(&self) -> (r: StrMap<String>)
        ensures
            r@ == self@,
    {
        proof {
            use_type_invariant(self);
        }
        let mut e: Vec<(String, String)> = Vec::new();
        let mut i: usize = 0;
        while i < self.entries.len()
            invariant
                i <= self.entries@.len(),
                e@ == self.entries@.subrange(0, i as int),
            decreases self.entries@.len() - i,
        {
            let k = self.entries[i].0.clone();
            let v = self.entries[i].1.clone();
            e.push((k, v));
            i = i + 1;
            assert(e@ =~= self.entries@.subrange(0, i as int));
        }
        assert(e@ =~= self.entries@);
        let r = StrMap { entries: e };
        assert(r.keys() == self.keys());
        r
    }

    /// Adds every entry of `other`, whose values win over those stored here.
    pub fn extend_from(&mut self, other: &StrMap<String>)
        ensures
            final(self)@ == old(self)@.union_prefer_right(other@),
    {
        let n = other.entry_count();
        let mut i: usize = 0;
        let ghost start = self@;
        while i < n
            invariant
                n == other.count(),
                i <= n,
                other@.dom().finite(),
                forall|a: int, b: int| 0 <= a < other.count() && 0 <= b < other.count() && a != b
                    ==> other.key_at(a) != other.key_at(b),
                forall|k: Seq<char>| #[trigger] other@.contains_key(k)
                    <==> exists|j: int| 0 <= j < other.count() && other.key_at(j) == k,
                self@ == start.union_prefer_right(other@.restrict(keys_before(*other, i as int))),
            decreases n - i,
        {
            let (k, v) = other.entry(i);
            let ghost before = self@;
            self.insert(k.clone(), v.clone());
            proof {
                let ks = other.key_at(i as int);
                assert(keys_before(*other, i + 1) =~= keys_before(*other, i as int).insert(ks));
                assert(self@ =~= start.union_prefer_right(other@.restrict(keys_before(*other, i + 1))));
            }
            i = i + 1;
        }
        proof {
            assert(keys_before(*other, n as int) =~= other@.dom());
            assert(other@.restrict(other@.dom()) =~= other@);
        }
    }
}

} // verus!
