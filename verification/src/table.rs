//! A map keyed by text, kept as a list of entries with distinct keys.

use vstd::prelude::*;

verus! {

/// Whether some entry of `s` has the key `k`.
pub open spec fn has_key<T>(s: Seq<(String, T)>, k: Seq<char>) -> bool {
    exists|i: int| 0 <= i < s.len() && (#[trigger] s[i]).0@ == k
}

/// No two entries of `s` share a key.
pub open spec fn keys_distinct<T>(s: Seq<(String, T)>) -> bool {
    forall|i: int, j: int|
        0 <= i < s.len() && 0 <= j < s.len() && i != j ==> (#[trigger] s[i]).0@ != (#[trigger] s[j]).0@
}

/// The map that the entries of `s` describe.
pub open spec fn entries_map<T>(s: Seq<(String, T)>) -> Map<Seq<char>, T> {
    Map::new(
        |k: Seq<char>| has_key(s, k),
        |k: Seq<char>| s[choose|i: int| 0 <= i < s.len() && (#[trigger] s[i]).0@ == k].1,
    )
}

proof fn lemma_value_at<T>(s: Seq<(String, T)>, i: int)
    requires
        keys_distinct(s),
        0 <= i < s.len(),
    ensures
        entries_map(s).dom().contains(s[i].0@),
        entries_map(s)[s[i].0@] == s[i].1,
{
    let k = s[i].0@;
    assert(has_key(s, k));
    let j = choose|j: int| 0 <= j < s.len() && (#[trigger] s[j]).0@ == k;
    assert(j == i);
}

proof fn lemma_push<T>(s: Seq<(String, T)>, key: String, value: T)
    requires
        keys_distinct(s),
        !has_key(s, key@),
    ensures
        keys_distinct(s.push((key, value))),
        entries_map(s.push((key, value))) == entries_map(s).insert(key@, value),
{
    let t = s.push((key, value));
    assert forall|i: int, j: int|
        0 <= i < t.len() && 0 <= j < t.len() && i != j implies (#[trigger] t[i]).0@
        != (#[trigger] t[j]).0@ by {
        if i < s.len() && j < s.len() {
            assert(t[i] == s[i] && t[j] == s[j]);
        } else if i < s.len() {
            assert(t[i] == s[i]);
        } else {
            assert(t[j] == s[j]);
        }
    }
    let m = entries_map(s).insert(key@, value);
    assert forall|k: Seq<char>| #[trigger] entries_map(t).dom().contains(k) <==> m.dom().contains(k) by {
        if has_key(t, k) {
            let i = choose|i: int| 0 <= i < t.len() && (#[trigger] t[i]).0@ == k;
            if i < s.len() {
                assert(t[i] == s[i]);
                assert(has_key(s, k));
            }
        }
        if has_key(s, k) {
            let i = choose|i: int| 0 <= i < s.len() && (#[trigger] s[i]).0@ == k;
            assert(t[i] == s[i]);
            assert(has_key(t, k));
        }
        if k == key@ {
            assert(t[s.len() as int].0@ == k);
        }
    }
    assert forall|k: Seq<char>| #[trigger] entries_map(t).dom().contains(k) implies entries_map(t)[k]
        == m[k] by {
        let i = choose|i: int| 0 <= i < t.len() && (#[trigger] t[i]).0@ == k;
        lemma_value_at(t, i);
        if i < s.len() {
            assert(t[i] == s[i]);
            lemma_value_at(s, i);
        }
    }
    assert(entries_map(t) =~= m);
}

proof fn lemma_remove<T>(s: Seq<(String, T)>, i: int)
    requires
        keys_distinct(s),
        0 <= i < s.len(),
    ensures
        keys_distinct(s.remove(i)),
        entries_map(s.remove(i)) == entries_map(s).remove(s[i].0@),
{
    let t = s.remove(i);
    let key = s[i].0@;
    assert forall|a: int| 0 <= a < t.len() implies #[trigger] t[a] == s[if a < i { a } else { a + 1 }] by {}
    assert forall|a: int, b: int|
        0 <= a < t.len() && 0 <= b < t.len() && a != b implies (#[trigger] t[a]).0@
        != (#[trigger] t[b]).0@ by {
        let a1 = if a < i { a } else { a + 1 };
        let b1 = if b < i { b } else { b + 1 };
        assert(t[a] == s[a1] && t[b] == s[b1]);
    }
    let m = entries_map(s).remove(key);
    assert forall|k: Seq<char>| #[trigger] entries_map(t).dom().contains(k) <==> m.dom().contains(k) by {
        if has_key(t, k) {
            let a = choose|a: int| 0 <= a < t.len() && (#[trigger] t[a]).0@ == k;
            let a1 = if a < i { a } else { a + 1 };
            assert(t[a] == s[a1]);
            assert(has_key(s, k));
            assert(a1 != i);
        }
        if has_key(s, k) && k != key {
            let a = choose|a: int| 0 <= a < s.len() && (#[trigger] s[a]).0@ == k;
            assert(a != i);
            let a0 = if a < i { a } else { a - 1 };
            assert(t[a0] == s[a]);
            assert(has_key(t, k));
        }
    }
    assert forall|k: Seq<char>| #[trigger] entries_map(t).dom().contains(k) implies entries_map(t)[k]
        == m[k] by {
        let a = choose|a: int| 0 <= a < t.len() && (#[trigger] t[a]).0@ == k;
        let a1 = if a < i { a } else { a + 1 };
        assert(t[a] == s[a1]);
        lemma_value_at(t, a);
        lemma_value_at(s, a1);
    }
    assert(entries_map(t) =~= m);
}

proof fn lemma_entries_map_len<T>(s: Seq<(String, T)>)
    requires
        keys_distinct(s),
    ensures
        entries_map(s).dom().finite(),
        entries_map(s).len() == s.len(),
    decreases s.len(),
{
    if s.len() == 0 {
        assert(entries_map(s).dom() =~= Set::<Seq<char>>::empty());
    } else {
        let init = s.drop_last();
        let last = s.last();
        assert(keys_distinct(init)) by {
            assert forall|i: int, j: int|
                0 <= i < init.len() && 0 <= j < init.len() && i != j implies (#[trigger] init[i]).0@
                != (#[trigger] init[j]).0@ by {
                assert(init[i] == s[i] && init[j] == s[j]);
            }
        }
        assert(!has_key(init, last.0@)) by {
            if has_key(init, last.0@) {
                let i = choose|i: int| 0 <= i < init.len() && (#[trigger] init[i]).0@ == last.0@;
                assert(init[i] == s[i]);
                assert(s[s.len() - 1] == last);
            }
        }
        lemma_entries_map_len(init);
        lemma_push(init, last.0, last.1);
        assert(init.push(last) =~= s);
        assert(entries_map(s).dom() =~= entries_map(init).dom().insert(last.0@));
    }
}

/// A map from text keys to values.
pub struct StringTable<T> {
    entries: Vec<(String, T)>,
}

impl<T> StringTable<T> {
    #[verifier::type_invariant]
    closed spec fn distinct_keys(&self) -> bool {
        keys_distinct(self.entries@)
    }

    /// The map the table holds.
    pub closed spec fn map(&self) -> Map<Seq<char>, T> {
        entries_map(self.entries@)
    }

    /// An empty table.
    pub fn new() -> (table: StringTable<T>)
        ensures
            table.map() == Map::<Seq<char>, T>::empty(),
    {
        let table = StringTable { entries: Vec::new() };
        assert(table.map() =~= Map::<Seq<char>, T>::empty());
        table
    }

    fn position(&self, key: &str) -> (pos: Option<usize>)
        ensures
            match pos {
                Some(i) => i < self.entries@.len() && self.entries@[i as int].0@ == key@,
                None => !self.map().dom().contains(key@),
            },
    {
        let wanted = key.to_owned();
        let mut i: usize = 0;
        while i < self.entries.len()
            invariant
                i <= self.entries@.len(),
                wanted@ == key@,
                forall|j: int| 0 <= j < i ==> (#[trigger] self.entries@[j]).0@ != key@,
            decreases self.entries@.len() - i,
        {
            if self.entries[i].0 == wanted {
                return Some(i);
            }
            i = i + 1;
        }
        None
    }

    /// The value under `key`, if any.
    pub fn get(&self, key: &str) -> (value: Option<&T>)
        ensures
            match value {
                Some(v) => self.map().dom().contains(key@) && *v == self.map()[key@],
                None => !self.map().dom().contains(key@),
            },
    {
        proof {
            use_type_invariant(self);
        }
        match self.position(key) {
            Some(i) => {
                proof {
                    lemma_value_at(self.entries@, i as int);
                }
                Some(&self.entries[i].1)
            },
            None => None,
        }
    }

    /// Whether the table holds a value under `key`.
    pub fn contains_key(&self, key: &str) -> (found: bool)
        ensures
            found == self.map().dom().contains(key@),
    {
        self.get(key).is_some()
    }

    /// Sets the value under `key`, returning the value it replaces, if any.
    pub fn insert(&mut self, key: String, value: T) -> (replaced: Option<T>)
        ensures
            final(self).map() == old(self).map().insert(key@, value),
            match replaced {
                Some(v) => old(self).map().dom().contains(key@) && v == old(self).map()[key@],
                None => !old(self).map().dom().contains(key@),
            },
    {
        proof {
            use_type_invariant(&*self);
        }
        let pos = self.position(key.as_str());
        let mut entries: Vec<(String, T)> = Vec::new();
        std::mem::swap(&mut entries, &mut self.entries);
        let replaced = match pos {
            Some(i) => {
                proof {
                    lemma_value_at(entries@, i as int);
                    lemma_remove(entries@, i as int);
                }
                let (_, old_value) = entries.remove(i);
                Some(old_value)
            },
            None => None,
        };
        proof {
            let s = entries@;
            assert(!has_key(s, key@)) by {
                if has_key(s, key@) {
                    let j = choose|j: int| 0 <= j < s.len() && (#[trigger] s[j]).0@ == key@;
                    lemma_value_at(s, j);
                }
            }
            lemma_push(s, key, value);
        }
        entries.push((key, value));
        self.entries = entries;
        proof {
            assert(self.map() =~= old(self).map().insert(key@, value));
        }
        replaced
    }

    /// Removes the value under `key`, returning it, if any.
    pub fn remove(&mut self, key: &str) -> (removed: Option<T>)
        ensures
            final(self).map() == old(self).map().remove(key@),
            match removed {
                Some(v) => old(self).map().dom().contains(key@) && v == old(self).map()[key@],
                None => !old(self).map().dom().contains(key@),
            },
    {
        proof {
            use_type_invariant(&*self);
        }
        match self.position(key) {
            Some(i) => {
                let mut entries: Vec<(String, T)> = Vec::new();
                std::mem::swap(&mut entries, &mut self.entries);
                proof {
                    lemma_value_at(entries@, i as int);
                    lemma_remove(entries@, i as int);
                }
                let (_, old_value) = entries.remove(i);
                self.entries = entries;
                Some(old_value)
            },
            None => {
                assert(self.map() =~= old(self).map().remove(key@));
                None
            },
        }
    }

    /// The keys of the table, each once.
    pub fn keys(&self) -> (keys: Vec<String>)
        ensures
            forall|i: int| 0 <= i < keys.len() ==> self.map().dom().contains(#[trigger] keys[i]@),
            forall|k: Seq<char>|
                self.map().dom().contains(k) ==> exists|i: int|
                    0 <= i < keys.len() && #[trigger] keys[i]@ == k,
            forall|i: int, j: int|
                0 <= i < keys.len() && 0 <= j < keys.len() && i != j ==> (#[trigger] keys[i])@
                    != (#[trigger] keys[j])@,
    {
        proof {
            use_type_invariant(self);
        }
        let mut keys: Vec<String> = Vec::new();
        let mut i: usize = 0;
        while i < self.entries.len()
            invariant
                i <= self.entries@.len(),
                keys.len() == i,
                keys_distinct(self.entries@),
                forall|j: int| 0 <= j < i ==> (#[trigger] keys[j])@ == self.entries@[j].0@,
            decreases self.entries@.len() - i,
        {
            keys.push(self.entries[i].0.clone());
            i = i + 1;
        }
        proof {
            assert forall|j: int| 0 <= j < keys.len() implies self.map().dom().contains(
                #[trigger] keys[j]@,
            ) by {
                lemma_value_at(self.entries@, j);
            }
            assert forall|k: Seq<char>| self.map().dom().contains(k) implies exists|j: int|
                0 <= j < keys.len() && #[trigger] keys[j]@ == k by {
                let j = choose|j: int|
                    0 <= j < self.entries@.len() && (#[trigger] self.entries@[j]).0@ == k;
                assert(keys[j]@ == k);
            }
            assert forall|a: int, b: int|
                0 <= a < keys.len() && 0 <= b < keys.len() && a != b implies (#[trigger] keys[a])@
                != (#[trigger] keys[b])@ by {
                assert(keys[a]@ == self.entries@[a].0@);
                assert(keys[b]@ == self.entries@[b].0@);
            }
        }
        keys
    }

    /// Every entry once: each key with its value, no key twice, and every key
    /// of the map present.
    pub fn entries(&self) -> (entries: Vec<(&String, &T)>)
        ensures
            entries.len() == self.map().len(),
            forall|i: int|
                0 <= i < entries.len() ==> self.map().dom().contains((#[trigger] entries[i]).0@)
                    && self.map()[entries[i].0@] == *entries[i].1,
            forall|k: Seq<char>|
                self.map().dom().contains(k) ==> exists|i: int|
                    0 <= i < entries.len() && (#[trigger] entries[i]).0@ == k,
            forall|i: int, j: int|
                0 <= i < entries.len() && 0 <= j < entries.len() && i != j ==> (
                #[trigger] entries[i]).0@ != (#[trigger] entries[j]).0@,
    {
        proof {
            use_type_invariant(self);
            lemma_entries_map_len(self.entries@);
        }
        let mut out: Vec<(&String, &T)> = Vec::new();
        let mut i: usize = 0;
        while i < self.entries.len()
            invariant
                i <= self.entries@.len(),
                out.len() == i,
                keys_distinct(self.entries@),
                forall|j: int|
                    0 <= j < i ==> (#[trigger] out[j]).0@ == self.entries@[j].0@ && *out[j].1
                        == self.entries@[j].1,
            decreases self.entries@.len() - i,
        {
            let e = &self.entries[i];
            out.push((&e.0, &e.1));
            i = i + 1;
        }
        proof {
            assert forall|j: int| 0 <= j < out.len() implies self.map().dom().contains(
                (#[trigger] out[j]).0@,
            ) && self.map()[out[j].0@] == *out[j].1 by {
                lemma_value_at(self.entries@, j);
            }
            assert forall|k: Seq<char>| self.map().dom().contains(k) implies exists|j: int|
                0 <= j < out.len() && (#[trigger] out[j]).0@ == k by {
                let j = choose|j: int|
                    0 <= j < self.entries@.len() && (#[trigger] self.entries@[j]).0@ == k;
                assert(out[j].0@ == k);
            }
            assert forall|a: int, b: int|
                0 <= a < out.len() && 0 <= b < out.len() && a != b implies (#[trigger] out[a]).0@
                != (#[trigger] out[b]).0@ by {
                assert(out[a].0@ == self.entries@[a].0@);
                assert(out[b].0@ == self.entries@[b].0@);
            }
        }
        out
    }

    /// The number of entries, which is the number of keys of the map.
    pub fn len(&self) -> (n: usize)
        ensures
            n == self.size(),
            n == self.map().len(),
            self.map().dom().finite(),
    {
        proof {
            use_type_invariant(self);
            lemma_entries_map_len(self.entries@);
        }
        self.entries.len()
    }

    /// The number of entries, in specifications.
    pub closed spec fn size(&self) -> nat {
        self.entries@.len()
    }

    /// The key and value of the entry at position `i`.
    pub fn entry_at(&self, i: usize) -> (entry: (&String, &T))
        requires
            i < self.size(),
        ensures
            self.map().dom().contains(entry.0@),
            self.map()[entry.0@] == *entry.1,
    {
        proof {
            use_type_invariant(self);
            lemma_value_at(self.entries@, i as int);
        }
        let e = &self.entries[i];
        (&e.0, &e.1)
    }
}

} // verus!
