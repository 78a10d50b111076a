//! A small map keyed by strings, kept as a list of distinct keys.
//!
//! It stands where the configuration and the hosts file keep string-keyed
//! tables; its abstract value is a `Map` from the key's characters.
use vstd::prelude::*;
use crate::text::str_eq;

verus! {

/// Whether entry `i` of `s` has key `k`.
pub open spec fn key_at<V>(s: Seq<(String, V)>, i: int, k: Seq<char>) -> bool {
    0 <= i < s.len() && s[i].0@ == k
}

/// No key occurs twice in `s`.
pub open spec fn keys_distinct<V>(s: Seq<(String, V)>) -> bool {
    forall|i: int, j: int| 0 <= i < s.len() && 0 <= j < s.len() && i != j ==> s[i].0@ != s[j].0@
}

/// The map that a list of entries with distinct keys stands for.
pub open spec fn map_of<V>(s: Seq<(String, V)>) -> Map<Seq<char>, V> {
    Map::new(
        |k: Seq<char>| exists|i: int| key_at(s, i, k),
        |k: Seq<char>| s[choose|i: int| key_at(s, i, k)].1,
    )
}

/// With distinct keys, entry `i` is what the map holds for its key.
pub proof fn lemma_map_of_at<V>(s: Seq<(String, V)>, i: int)
    requires
        keys_distinct(s),
        0 <= i < s.len(),
    ensures
        map_of(s).contains_key(s[i].0@),
        map_of(s)[s[i].0@] == s[i].1,
{
    let k = s[i].0@;
    assert(key_at(s, i, k));
    let j = choose|j: int| key_at(s, j, k);
    assert(j == i);
}

/// Replacing an entry by one with the same key updates that key.
pub proof fn lemma_update_view<V>(s: Seq<(String, V)>, i: int, e: (String, V))
    requires
        keys_distinct(s),
        0 <= i < s.len(),
        e.0@ == s[i].0@,
    ensures
        keys_distinct(s.update(i, e)),
        map_of(s.update(i, e)) == map_of(s).insert(e.0@, e.1),
{
    let t = s.update(i, e);
    assert forall|a: int| 0 <= a < s.len() implies #[trigger] t[a].0@ == s[a].0@ by {}
    let m = map_of(s).insert(e.0@, e.1);
    assert forall|x: Seq<char>| map_of(t).dom().contains(x) <==> m.dom().contains(x) by {
        if exists|j: int| key_at(t, j, x) {
            let j = choose|j: int| key_at(t, j, x);
            assert(key_at(s, j, x));
        }
        if exists|j: int| key_at(s, j, x) {
            let j = choose|j: int| key_at(s, j, x);
            assert(key_at(t, j, x));
        }
        if x == e.0@ {
            assert(key_at(t, i, x));
        }
    }
    assert forall|x: Seq<char>| map_of(t).dom().contains(x) implies map_of(t)[x] == m[x] by {
        let j = choose|j: int| key_at(t, j, x);
        lemma_map_of_at(t, j);
        if j != i {
            lemma_map_of_at(s, j);
        }
    }
    assert(map_of(t) =~= m);
}

/// Adding an entry with a new key inserts that key.
pub proof fn lemma_push_view<V>(s: Seq<(String, V)>, e: (String, V))
    requires
        keys_distinct(s),
        forall|j: int| 0 <= j < s.len() ==> !key_at(s, j, e.0@),
    ensures
        keys_distinct(s.push(e)),
        map_of(s.push(e)) == map_of(s).insert(e.0@, e.1),
{
    let t = s.push(e);
    assert forall|a: int, b: int| 0 <= a < t.len() && 0 <= b < t.len() && a != b
        implies t[a].0@ != t[b].0@ by {
        if a == s.len() {
            assert(!key_at(s, b, e.0@));
        } else if b == s.len() {
            assert(!key_at(s, a, e.0@));
        }
    }
    let m = map_of(s).insert(e.0@, e.1);
    assert forall|x: Seq<char>| map_of(t).dom().contains(x) <==> m.dom().contains(x) by {
        if exists|j: int| key_at(t, j, x) {
            let j = choose|j: int| key_at(t, j, x);
            if j < s.len() {
                assert(key_at(s, j, x));
            }
        }
        if exists|j: int| key_at(s, j, x) {
            let j = choose|j: int| key_at(s, j, x);
            assert(key_at(t, j, x));
        }
        if x == e.0@ {
            assert(key_at(t, s.len() as int, x));
        }
    }
    assert forall|x: Seq<char>| map_of(t).dom().contains(x) implies map_of(t)[x] == m[x] by {
        let j = choose|j: int| key_at(t, j, x);
        lemma_map_of_at(t, j);
        if j < s.len() {
            assert(key_at(s, j, x));
            lemma_map_of_at(s, j);
        }
    }
    assert(map_of(t) =~= m);
}

/// Removing entry `i` removes its key.
pub proof fn lemma_remove_view<V>(s: Seq<(String, V)>, i: int)
    requires
        keys_distinct(s),
        0 <= i < s.len(),
    ensures
        keys_distinct(s.remove(i)),
        map_of(s.remove(i)) == map_of(s).remove(s[i].0@),
{
    let t = s.remove(i);
    let k = s[i].0@;
    assert forall|a: int| 0 <= a < t.len() implies #[trigger] t[a] == s[if a < i { a } else { a + 1 }] by {}
    assert forall|a: int, b: int| 0 <= a < t.len() && 0 <= b < t.len() && a != b
        implies t[a].0@ != t[b].0@ by {
        let a2 = if a < i { a } else { a + 1 };
        let b2 = if b < i { b } else { b + 1 };
        assert(t[a] == s[a2]);
        assert(t[b] == s[b2]);
    }
    let m = map_of(s).remove(k);
    assert forall|x: Seq<char>| map_of(t).dom().contains(x) <==> m.dom().contains(x) by {
        if exists|j: int| key_at(t, j, x) {
            let j = choose|j: int| key_at(t, j, x);
            let j2 = if j < i { j } else { j + 1 };
            assert(t[j] == s[j2]);
            assert(key_at(s, j2, x));
            assert(j2 != i);
        }
        if x != k && exists|j: int| key_at(s, j, x) {
            let j = choose|j: int| key_at(s, j, x);
            let j3 = if j < i { j } else { j - 1 };
            assert(t[j3] == s[j]);
            assert(key_at(t, j3, x));
        }
    }
    assert forall|x: Seq<char>| map_of(t).dom().contains(x) implies map_of(t)[x] == m[x] by {
        let j = choose|j: int| key_at(t, j, x);
        let j2 = if j < i { j } else { j + 1 };
        assert(t[j] == s[j2]);
        lemma_map_of_at(t, j);
        lemma_map_of_at(s, j2);
    }
    assert(map_of(t) =~= m);
}

/// A string-keyed map.
#[derive(Debug)]
pub struct StrMap<V> {
    entries: Vec<(String, V)>,
}

impl<V> View for StrMap<V> {
    type V = Map<Seq<char>, V>;

    closed spec fn view(&self) -> Map<Seq<char>, V> {
        map_of(self.entries@)
    }
}

impl<V> StrMap<V> {
    #[verifier::type_invariant]
    closed spec fn inv(self) -> bool {
        keys_distinct(self.entries@)
    }

    /// An empty map.
    pub fn new() -> (m: Self)
        ensures
            m@ == Map::<Seq<char>, V>::empty(),
    {
        let m = StrMap { entries: Vec::new() };
        assert(m@ =~= Map::<Seq<char>, V>::empty());
        m
    }

    /// The number of keys.
    pub fn len(&self) -> (n: usize)
        ensures
            n as nat == self@.dom().len(),
            self@.dom().finite(),
    {
        proof {
            use_type_invariant(self);
            self.lemma_dom_len();
        }
        self.entries.len()
    }

    /// Whether the map holds no key.
    pub fn is_empty(&self) -> (b: bool)
        ensures
            b == (self@.dom() =~= Set::<Seq<char>>::empty()),
    {
        proof {
            use_type_invariant(self);
            if self.entries@.len() > 0 {
                lemma_map_of_at(self.entries@, 0);
            }
        }
        self.entries.len() == 0
    }

    proof fn lemma_dom_len(&self)
        requires
            keys_distinct(self.entries@),
        ensures
            self@.dom().finite(),
            self@.dom().len() == self.entries@.len(),
    {
        let s = self.entries@;
        let keys = s.map_values(|e: (String, V)| e.0@);
        assert forall|i: int, j: int| 0 <= i < keys.len() && 0 <= j < keys.len() && i != j
            implies keys[i] != keys[j] by {
        }
        assert(keys.no_duplicates());
        keys.unique_seq_to_set();
        assert(self@.dom() =~= keys.to_set()) by {
            assert forall|k: Seq<char>| self@.dom().contains(k) implies keys.to_set().contains(k) by {
                let i = choose|i: int| key_at(s, i, k);
                assert(keys[i] == k);
            }
            assert forall|k: Seq<char>| keys.to_set().contains(k) implies self@.dom().contains(k) by {
                let i = choose|i: int| 0 <= i < keys.len() && keys[i] == k;
                assert(key_at(s, i, k));
            }
        }
    }

    /// The position of `key` among the entries, if it is there.
    fn find(&self, key: &str) -> (r: Option<usize>)
        ensures
            match r {
                Some(i) => key_at(self.entries@, i as int, key@),
                None => forall|i: int| 0 <= i < self.entries@.len() ==> !key_at(self.entries@, i, key@),
            },
    {
        let mut i: usize = 0;
        while i < self.entries.len()
            invariant
                i <= self.entries@.len(),
                forall|j: int| 0 <= j < i ==> !key_at(self.entries@, j, key@),
            decreases self.entries.len() - i,
        {
            if str_eq(self.entries[i].0.as_str(), key) {
                return Some(i);
            }
            i = i + 1;
        }
        None
    }

    /// The value stored under `key`.
    pub fn get(&self, key: &str) -> (r: Option<&V>)
        ensures
            match r {
                Some(v) => self@.contains_key(key@) && *v == self@[key@],
                None => !self@.contains_key(key@),
            },
    {
        proof { use_type_invariant(self); }
        match self.find(key) {
            Some(i) => {
                proof { lemma_map_of_at(self.entries@, i as int); }
                Some(&self.entries[i].1)
            },
            None => None,
        }
    }

    /// Whether `key` is stored.
    pub fn contains_key(&self, key: &str) -> (b: bool)
        ensures
            b == self@.contains_key(key@),
    {
        self.get(key).is_some()
    }

    /// Stores `value` under `key`, replacing what was there.
    pub fn insert(&mut self, key: String, value: V)
        ensures
            final(self)@ == old(self)@.insert(key@, value),
    {
        proof { use_type_invariant(&*self); }
        let ghost old_map = self@;
        let found = self.find(key.as_str());
        let mut entries: Vec<(String, V)> = Vec::new();
        std::mem::swap(&mut entries, &mut self.entries);
        let ghost s = entries@;
        let ghost k = key@;
        match found {
            Some(i) => {
                entries.set(i, (key, value));
            },
            None => {
                entries.push((key, value));
            },
        }
        proof {
            match found {
                Some(i) => lemma_update_view(s, i as int, entries@[i as int]),
                None => lemma_push_view(s, entries@.last()),
            }
        }
        self.entries = entries;
    }

    /// Removes `key`, returning the value that was stored under it.
    pub fn remove(&mut self, key: &str) -> (r: Option<V>)
        ensures
            final(self)@ == old(self)@.remove(key@),
            match r {
                Some(v) => old(self)@.contains_key(key@) && v == old(self)@[key@],
                None => !old(self)@.contains_key(key@),
            },
    {
        proof { use_type_invariant(&*self); }
        let ghost old_map = self@;
        let found = self.find(key);
        match found {
            None => {
                proof {
                    assert(!old_map.contains_key(key@));
                    assert(old_map.remove(key@) =~= old_map);
                }
                None
            },
            Some(i) => {
                proof { lemma_map_of_at(self.entries@, i as int); }
                let mut entries: Vec<(String, V)> = Vec::new();
                std::mem::swap(&mut entries, &mut self.entries);
                let ghost s = entries@;
                let ghost k = key@;
                let (_, v) = entries.remove(i);
                proof { lemma_remove_view(s, i as int); }
                self.entries = entries;
                Some(v)
            },
        }
    }

    /// The keys in their stored order.
    pub closed spec fn keys_in_order(self) -> Seq<Seq<char>> {
        self.entries@.map_values(|e: (String, V)| e.0@)
    }

    /// The key and value of entry `i`, for walking the map in its stored
    /// order; entries `0 .. len()` hold each key exactly once, so entries
    /// at different indices have different keys.
    pub fn entry_at(&self, i: usize) -> (r: (&str, &V))
        requires
            i < self@.dom().len(),
        ensures
            self@.contains_key(r.0@),
            *r.1 == self@[r.0@],
            self.keys_in_order().len() == self@.dom().len(),
            self.keys_in_order().no_duplicates(),
            r.0@ == self.keys_in_order()[i as int],
            forall|j: int| 0 <= j < self.keys_in_order().len() && j != i ==> #[trigger] self.keys_in_order()[j] != r.0@,
    {
        proof {
            use_type_invariant(self);
            self.lemma_dom_len();
            lemma_map_of_at(self.entries@, i as int);
            let keys = self.keys_in_order();
            assert forall|a: int, b: int| 0 <= a < keys.len() && 0 <= b < keys.len() && a != b
                implies keys[a] != keys[b] by {
                assert(keys[a] == self.entries@[a].0@);
                assert(keys[b] == self.entries@[b].0@);
            }
        }
        (self.entries[i].0.as_str(), &self.entries[i].1)
    }
}

} // verus!
