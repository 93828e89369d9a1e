//! A table keyed by text, kept as a list in which no key stands twice.

use vstd::prelude::*;

verus! {

/// `key` stands at position `i` of `entries`.
spec fn at<V>(entries: Seq<(String, V)>, key: Seq<char>, i: int) -> bool {
    0 <= i < entries.len() && entries[i].0@ == key
}

/// `key` stands somewhere in `entries`.
spec fn holds<V>(entries: Seq<(String, V)>, key: Seq<char>) -> bool {
    exists|i: int| at(entries, key, i)
}

/// A position at which `key` stands.
spec fn place<V>(entries: Seq<(String, V)>, key: Seq<char>) -> int {
    choose|i: int| at(entries, key, i)
}

/// No key stands twice in `entries`.
spec fn distinct<V>(entries: Seq<(String, V)>) -> bool {
    forall|i: int, j: int|
        0 <= i < j < entries.len() ==> (#[trigger] entries[i]).0@ != (#[trigger] entries[j]).0@
}

/// The map that `entries` stand for.
spec fn model<V>(entries: Seq<(String, V)>) -> Map<Seq<char>, V> {
    Map::new(|key: Seq<char>| holds(entries, key), |key: Seq<char>| entries[place(entries, key)].1)
}

/// The entry at position `i` is the one that the map has for its key.
proof fn lemma_entry<V>(entries: Seq<(String, V)>, i: int)
    requires
        distinct(entries),
        0 <= i < entries.len(),
    ensures
        model(entries).contains_key(entries[i].0@),
        model(entries)[entries[i].0@] == entries[i].1,
        place(entries, entries[i].0@) == i,
{
    assert(at(entries, entries[i].0@, i));
}

/// A new value for the key at position `i` changes the map at that key only.
proof fn lemma_set<V>(entries: Seq<(String, V)>, i: int, key: String, value: V)
    requires
        distinct(entries),
        at(entries, key@, i),
    ensures
        distinct(entries.update(i, (key, value))),
        model(entries.update(i, (key, value))) == model(entries).insert(key@, value),
{
    let after = entries.update(i, (key, value));
    assert(distinct(after));
    assert forall|k: Seq<char>| holds(after, k) == holds(entries, k) by {
        if holds(after, k) {
            assert(at(entries, k, place(after, k)));
        }
        if holds(entries, k) {
            assert(at(after, k, place(entries, k)));
        }
    }
    assert forall|k: Seq<char>| #[trigger] model(after).contains_key(k) implies model(after)[k]
        == model(entries).insert(key@, value)[k] by {
        let p = place(after, k);
        lemma_entry(after, p);
        lemma_entry(entries, p);
    }
}

/// An entry with a new key adds that key to the map.
proof fn lemma_push<V>(entries: Seq<(String, V)>, key: String, value: V)
    requires
        distinct(entries),
        !holds(entries, key@),
    ensures
        distinct(entries.push((key, value))),
        model(entries.push((key, value))) == model(entries).insert(key@, value),
{
    let after = entries.push((key, value));
    let n = entries.len() as int;
    assert forall|a: int, b: int| 0 <= a < b < after.len() implies (#[trigger] after[a]).0@ != (
    #[trigger] after[b]).0@ by {
        if b == n {
            assert(!at(entries, key@, a));
        }
    }
    assert(at(after, key@, n));
    assert forall|k: Seq<char>| holds(after, k) == (holds(entries, k) || k == key@) by {
        if holds(after, k) && k != key@ {
            assert(at(entries, k, place(after, k)));
        }
        if holds(entries, k) {
            assert(at(after, k, place(entries, k)));
        }
    }
    assert forall|k: Seq<char>| #[trigger] model(after).contains_key(k) implies model(after)[k]
        == model(entries).insert(key@, value)[k] by {
        let p = place(after, k);
        lemma_entry(after, p);
        if p < n {
            lemma_entry(entries, p);
        }
    }
}

/// Without the entry at position `i` the map lacks the key of that entry.
proof fn lemma_remove<V>(entries: Seq<(String, V)>, i: int)
    requires
        distinct(entries),
        0 <= i < entries.len(),
    ensures
        distinct(entries.remove(i)),
        model(entries.remove(i)) == model(entries).remove(entries[i].0@),
{
    let after = entries.remove(i);
    let key = entries[i].0@;
    // Where the entry at position `a` of the shorter list stood before.
    let was = |a: int| if a < i { a } else { a + 1 };
    assert(distinct(after));
    assert forall|k: Seq<char>| holds(after, k) == (holds(entries, k) && k != key) by {
        if holds(after, k) {
            let p = place(after, k);
            lemma_entry(entries, was(p));
            lemma_entry(entries, i);
        }
        if holds(entries, k) && k != key {
            let p = place(entries, k);
            assert(at(after, k, if p < i { p } else { p - 1 }));
        }
    }
    assert forall|k: Seq<char>| #[trigger] model(after).contains_key(k) implies model(after)[k]
        == model(entries).remove(key)[k] by {
        let p = place(after, k);
        lemma_entry(after, p);
        lemma_entry(entries, was(p));
    }
}

/// A finite map from texts to values.
pub struct Table<V> {
    entries: Vec<(String, V)>,
}

impl<V> View for Table<V> {
    type V = Map<Seq<char>, V>;

    closed spec fn view(&self) -> Map<Seq<char>, V> {
        model(self.entries@)
    }
}

impl<V> Table<V> {
    #[verifier::type_invariant]
    spec fn wf(&self) -> bool {
        distinct(self.entries@)
    }

    /// The empty table.
    pub fn new() -> (table: Self)
        ensures
            table@ == Map::<Seq<char>, V>::empty(),
    {
        let table = Table { entries: Vec::new() };
        table
    }

    /// Where `key` stands, if it does.
    fn find(&self, key: &String) -> (found: Option<usize>)
        ensures
            match found {
                Some(i) => at(self.entries@, key@, i as int),
                None => !holds(self.entries@, key@),
            },
    {
        let mut i: usize = 0;
        while i < self.entries.len()
            invariant
                i <= self.entries.len(),
                forall|j: int| 0 <= j < i ==> !at(self.entries@, key@, j),
            decreases self.entries.len() - i,
        {
            if self.entries[i].0 == *key {
                return Some(i);
            }
            i += 1;
        }
        None
    }

    /// The value that the table has for `key`.
    pub fn get(&self, key: &str) -> (value: Option<&V>)
        ensures
            match value {
                Some(v) => self@.contains_key(key@) && self@[key@] == *v,
                None => !self@.contains_key(key@),
            },
    {
        let wanted = key.to_owned();
        match self.find(&wanted) {
            Some(i) => {
                proof {
                    use_type_invariant(self);
                    lemma_entry(self.entries@, i as int);
                }
                Some(&self.entries[i].1)
            },
            None => None,
        }
    }

    /// Gives `key` the value `value`, in place of the one it had.
    pub fn insert(&mut self, key: String, value: V)
        ensures
            final(self)@ == old(self)@.insert(key@, value),
    {
        proof {
            use_type_invariant(&*self);
        }
        let found = self.find(&key);
        // The list is taken out, changed and put back, so that the table is
        // never seen with a key that stands twice.
        let mut entries: Vec<(String, V)> = Vec::new();
        core::mem::swap(&mut self.entries, &mut entries);
        match found {
            Some(i) => {
                proof {
                    lemma_set(entries@, i as int, key, value);
                }
                entries.set(i, (key, value));
            },
            None => {
                proof {
                    lemma_push(entries@, key, value);
                }
                entries.push((key, value));
            },
        }
        self.entries = entries;
    }

    /// Takes `key` and its value out of the table.
    pub fn remove(&mut self, key: &str)
        ensures
            final(self)@ == old(self)@.remove(key@),
    {
        proof {
            use_type_invariant(&*self);
        }
        let wanted = key.to_owned();
        let found = self.find(&wanted);
        let mut entries: Vec<(String, V)> = Vec::new();
        core::mem::swap(&mut self.entries, &mut entries);
        match found {
            Some(i) => {
                proof {
                    lemma_remove(entries@, i as int);
                }
                entries.remove(i);
            },
            None => {},
        }
        self.entries = entries;
    }
}

} // verus!
