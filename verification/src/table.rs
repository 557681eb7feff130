//! A small table of values by key, each key at most once.
use vstd::prelude::*;

verus! {

/// What can be a key: two keys are the same where their views are.
pub trait TableKey: View + Sized {
    /// Whether the two are the same key.
    fn same_key(&self, other: &Self) -> (same: bool)
        ensures
            same == (self@ == other@),
    ;
}

/// Whether `key` is the view of one of `keys`.
pub open spec fn is_among<K: View>(keys: Seq<K>, key: K::V) -> bool {
    exists|i: int| 0 <= i < keys.len() && #[trigger] keys[i]@ == key
}

/// The views of `keys`.
pub open spec fn key_set<K: View>(keys: Seq<K>) -> Set<K::V> {
    Set::new(|key: K::V| is_among(keys, key))
}

/// Whether `key` is one of `keys`.
pub fn holds_key<K: TableKey>(keys: &Vec<K>, key: &K) -> (yes: bool)
    ensures
        yes == is_among(keys@, key@),
{
    for i in 0..keys.len()
        invariant
            forall|j: int| 0 <= j < i ==> #[trigger] keys[j]@ != key@,
    {
        if keys[i].same_key(key) {
            return true;
        }
    }
    false
}

/// The map of a list of entries.
pub open spec fn entry_map<K: View, V>(entries: Seq<(K, V)>) -> Map<K::V, V>
    decreases entries.len(),
{
    if entries.len() == 0 {
        Map::empty()
    } else {
        entry_map(entries.drop_last()).insert(entries.last().0@, entries.last().1)
    }
}

/// Whether no key occurs twice.
pub open spec fn distinct_keys<K: View, V>(entries: Seq<(K, V)>) -> bool {
    forall|i: int, j: int|
        0 <= i < j < entries.len() ==> (#[trigger] entries[i]).0@ != (#[trigger] entries[j]).0@
}

/// Which keys the map of a list of entries has, and what they stand for.
pub proof fn lemma_entry_map<K: View, V>(entries: Seq<(K, V)>)
    requires
        distinct_keys(entries),
    ensures
        forall|i: int|
            0 <= i < entries.len() ==> entry_map(entries).contains_key((#[trigger] entries[i]).0@)
                && entry_map(entries)[entries[i].0@] == entries[i].1,
        forall|key: K::V| #[trigger]
            entry_map(entries).contains_key(key) ==> exists|i: int|
                0 <= i < entries.len() && (#[trigger] entries[i]).0@ == key,
    decreases entries.len(),
{
    if entries.len() > 0 {
        let front = entries.drop_last();
        assert forall|i: int, j: int| 0 <= i < j < front.len() implies (#[trigger] front[i]).0@ != (
        #[trigger] front[j]).0@ by {
            assert(entries[i].0@ != entries[j].0@);
        }
        lemma_entry_map(front);
        assert forall|i: int| 0 <= i < entries.len() implies entry_map(entries).contains_key(
            (#[trigger] entries[i]).0@,
        ) && entry_map(entries)[entries[i].0@] == entries[i].1 by {
            if i < front.len() {
                assert(front[i] == entries[i]);
                assert(entries[i].0@ != entries[entries.len() - 1].0@);
            }
        }
        assert forall|key: K::V| #[trigger] entry_map(entries).contains_key(key) implies exists|
            i: int,
        |
            0 <= i < entries.len() && (#[trigger] entries[i]).0@ == key by {
            if key == entries.last().0@ {
                assert(entries[entries.len() - 1].0@ == key);
            } else {
                assert(entry_map(front).contains_key(key));
                let i = choose|i: int| 0 <= i < front.len() && (#[trigger] front[i]).0@ == key;
                assert(entries[i].0@ == key);
            }
        }
    }
}

/// A table of values by key.
pub struct Table<K, V> {
    pub entries: Vec<(K, V)>,
}

impl<K: View, V> View for Table<K, V> {
    type V = Map<K::V, V>;

    open spec fn view(&self) -> Map<K::V, V> {
        entry_map(self.entries@)
    }
}

impl<K: TableKey, V> Table<K, V> {
    /// Whether no key occurs twice.
    pub open spec fn well_formed(&self) -> bool {
        distinct_keys(self.entries@)
    }

    /// A table that holds nothing.
    pub fn new() -> (t: Self)
        ensures
            t.well_formed(),
            t@ == Map::<K::V, V>::empty(),
    {
        Table { entries: Vec::new() }
    }

    /// Whether the table holds nothing.
    pub fn is_empty(&self) -> (yes: bool)
        requires
            self.well_formed(),
        ensures
            yes == (self@ == Map::<K::V, V>::empty()),
    {
        proof {
            lemma_entry_map(self.entries@);
            if self.entries@.len() > 0 {
                assert(self@.contains_key(self.entries@[0].0@));
            }
        }
        self.entries.len() == 0
    }

    /// Where the entry of a key stands.
    fn find(&self, key: &K) -> (r: Option<usize>)
        requires
            self.well_formed(),
        ensures
            match r {
                Some(i) => i < self.entries@.len() && self.entries@[i as int].0@ == key@
                    && self@.contains_key(key@) && self@[key@] == self.entries@[i as int].1,
                None => !self@.contains_key(key@),
            },
    {
        proof {
            lemma_entry_map(self.entries@);
        }
        for i in 0..self.entries.len()
            invariant
                forall|j: int| 0 <= j < i ==> (#[trigger] self.entries@[j]).0@ != key@,
                forall|j: int|
                    0 <= j < self.entries@.len() ==> self@.contains_key(
                        (#[trigger] self.entries@[j]).0@,
                    ) && self@[self.entries@[j].0@] == self.entries@[j].1,
        {
            if self.entries[i].0.same_key(key) {
                return Some(i);
            }
        }
        None
    }

    /// What a key stands for.
    pub fn get(&self, key: &K) -> (r: Option<&V>)
        requires
            self.well_formed(),
        ensures
            match r {
                Some(value) => self@.contains_key(key@) && *value == self@[key@],
                None => !self@.contains_key(key@),
            },
    {
        match self.find(key) {
            Some(i) => Some(&self.entries[i].1),
            None => None,
        }
    }

    /// Takes a key out of the table.
    pub fn remove(&mut self, key: &K) -> (r: Option<V>)
        requires
            old(self).well_formed(),
        ensures
            final(self).well_formed(),
            final(self)@ == old(self)@.remove(key@),
            match r {
                Some(value) => old(self)@.contains_key(key@) && value == old(self)@[key@],
                None => !old(self)@.contains_key(key@),
            },
    {
        match self.find(key) {
            None => {
                assert(self@ =~= old(self)@.remove(key@));
                None
            },
            Some(i) => {
                let ghost before = self.entries@;
                let (_, value) = self.entries.remove(i);
                proof {
                    lemma_without(before, i as int);
                }
                Some(value)
            },
        }
    }

    /// Lets a key stand for a value, whatever it stood for before.
    pub fn insert(&mut self, key: K, value: V)
        requires
            old(self).well_formed(),
        ensures
            final(self).well_formed(),
            final(self)@ == old(self)@.insert(key@, value),
    {
        let _ = self.remove(&key);
        let ghost before = self.entries@;
        self.entries.push((key, value));
        proof {
            lemma_entry_map(before);
            assert forall|i: int, j: int| 0 <= i < j < self.entries@.len() implies (
            #[trigger] self.entries@[i]).0@ != (#[trigger] self.entries@[j]).0@ by {
                assert(before[i] == self.entries@[i]);
                if j < before.len() {
                    assert(before[j] == self.entries@[j]);
                }
            }
            assert(self.entries@.drop_last() =~= before);
            assert(self@ =~= old(self)@.insert(key@, value));
        }
    }

    /// Keeps the entries of the given keys alone.
    pub fn retain_keys(&mut self, keys: &Vec<K>)
        requires
            old(self).well_formed(),
        ensures
            final(self).well_formed(),
            final(self)@ == old(self)@.restrict(key_set(keys@)),
    {
        let mut i: usize = 0;
        proof {
            lemma_entry_map(self.entries@);
        }
        while i < self.entries.len()
            invariant
                self.well_formed(),
                i <= self.entries@.len(),
                forall|j: int| 0 <= j < i ==> is_among(keys@, (#[trigger] self.entries@[j]).0@),
                self@.restrict(key_set(keys@)) == old(self)@.restrict(key_set(keys@)),
            decreases self.entries@.len() - i,
        {
            if holds_key(keys, &self.entries[i].0) {
                i = i + 1;
            } else {
                let ghost before = self.entries@;
                let _ = self.entries.remove(i);
                proof {
                    lemma_without(before, i as int);
                    assert forall|j: int| 0 <= j < i implies is_among(
                        keys@,
                        (#[trigger] self.entries@[j]).0@,
                    ) by {
                        assert(before[j] == self.entries@[j]);
                    }
                    assert(self@.restrict(key_set(keys@)) =~= entry_map(before).restrict(
                        key_set(keys@),
                    ));
                }
            }
        }
        proof {
            lemma_entry_map(self.entries@);
            assert(self@ =~= self@.restrict(key_set(keys@)));
        }
    }
}

/// Taking one entry out takes its key out of the map.
proof fn lemma_without<K: View, V>(entries: Seq<(K, V)>, i: int)
    requires
        0 <= i < entries.len(),
        distinct_keys(entries),
    ensures
        distinct_keys(entries.remove(i)),
        entry_map(entries.remove(i)) == entry_map(entries).remove(entries[i].0@),
{
    let rest = entries.remove(i);
    assert forall|a: int, b: int| 0 <= a < b < rest.len() implies (#[trigger] rest[a]).0@ != (
    #[trigger] rest[b]).0@ by {
        let x = if a < i {
            a
        } else {
            a + 1
        };
        let y = if b < i {
            b
        } else {
            b + 1
        };
        assert(rest[a] == entries[x] && rest[b] == entries[y]);
        assert(entries[x].0@ != entries[y].0@);
    }
    lemma_entry_map(entries);
    lemma_entry_map(rest);
    let left = entry_map(rest);
    let right = entry_map(entries).remove(entries[i].0@);
    assert forall|key: K::V| #[trigger] left.contains_key(key) == right.contains_key(key) && (
    left.contains_key(key) ==> left[key] == right[key]) by {
        if left.contains_key(key) {
            let a = choose|a: int| 0 <= a < rest.len() && (#[trigger] rest[a]).0@ == key;
            let x = if a < i {
                a
            } else {
                a + 1
            };
            assert(rest[a] == entries[x]);
            assert(entries[x].0@ != entries[i].0@);
        }
        if right.contains_key(key) {
            let x = choose|x: int| 0 <= x < entries.len() && (#[trigger] entries[x]).0@ == key;
            assert(x != i);
            let a = if x < i {
                x
            } else {
                x - 1
            };
            assert(rest[a] == entries[x]);
        }
    }
    assert(left =~= right);
}

} // verus!
