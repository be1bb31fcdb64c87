use vstd::prelude::*;

verus! {

/// A value that can stand for an entry of a [`Table`].
pub trait Key: Sized {
    /// Whether the two keys are equal.
    fn same(&self, other: &Self) -> (r: bool)
        ensures
            r == (*self == *other),
    ;
}

impl Key for u32 {
    fn same(&self, other: &Self) -> (r: bool) {
        *self == *other
    }
}

impl Key for u64 {
    fn same(&self, other: &Self) -> (r: bool) {
        *self == *other
    }
}

impl Key for [u8; 32] {
    fn same(&self, other: &Self) -> (r: bool) {
        let mut i: usize = 0;
        while i < 32
            invariant
                i <= 32,
                forall|j: int| 0 <= j < i ==> self@[j] == other@[j],
            decreases 32 - i,
        {
            if self[i] != other[i] {
                return false;
            }
            i += 1;
        }
        assert(*self =~= *other);
        true
    }
}

/// A finite map, kept as a list of its entries in which no key occurs twice.
pub struct Table<K, V> {
    entries: Vec<(K, V)>,
}

impl<K, V> View for Table<K, V> {
    type V = Map<K, V>;

    closed spec fn view(&self) -> Map<K, V> {
        entries_map(self.entries@)
    }
}

/// The map that a list of entries stands for.
spec fn entries_map<K, V>(entries: Seq<(K, V)>) -> Map<K, V>
    decreases entries.len(),
{
    if entries.len() == 0 {
        Map::empty()
    } else {
        entries_map(entries.drop_last()).insert(entries.last().0, entries.last().1)
    }
}

spec fn distinct_keys<K, V>(entries: Seq<(K, V)>) -> bool {
    forall|i: int, j: int| 0 <= i < j < entries.len() ==> entries[i].0 != entries[j].0
}

/// The map of a list without repeated keys holds exactly the list's entries.
proof fn lemma_entries_map<K, V>(entries: Seq<(K, V)>)
    requires
        distinct_keys(entries),
    ensures
        forall|i: int| 0 <= i < entries.len() ==> #[trigger] entries_map(entries).contains_pair(
            entries[i].0,
            entries[i].1,
        ),
        forall|k: K| #[trigger]
            entries_map(entries).contains_key(k) ==> exists|i: int|
                0 <= i < entries.len() && entries[i].0 == k,
        entries_map(entries).dom().finite(),
    decreases entries.len(),
{
    if entries.len() > 0 {
        let init = entries.drop_last();
        lemma_entries_map(init);
        assert forall|i: int| 0 <= i < entries.len() implies #[trigger] entries_map(
            entries,
        ).contains_pair(entries[i].0, entries[i].1) by {
            if i < init.len() {
                assert(init[i] == entries[i]);
                assert(entries_map(init).contains_pair(init[i].0, init[i].1));
                assert(entries[i].0 != entries[entries.len() - 1].0);
            }
        }
        assert forall|k: K| #[trigger] entries_map(entries).contains_key(k) implies exists|i: int|
            0 <= i < entries.len() && entries[i].0 == k by {
            if k == entries.last().0 {
                assert(entries[entries.len() - 1].0 == k);
            } else {
                assert(entries_map(init).contains_key(k));
                let i = choose|i: int| 0 <= i < init.len() && init[i].0 == k;
                assert(entries[i].0 == k);
            }
        }
    }
}

/// Overwriting the value of one entry is an insertion under its key.
proof fn lemma_entries_map_update<K, V>(entries: Seq<(K, V)>, i: int, value: V)
    requires
        distinct_keys(entries),
        0 <= i < entries.len(),
    ensures
        distinct_keys(entries.update(i, (entries[i].0, value))),
        entries_map(entries.update(i, (entries[i].0, value))) == entries_map(entries).insert(
            entries[i].0,
            value,
        ),
{
    let updated = entries.update(i, (entries[i].0, value));
    lemma_entries_map(entries);
    lemma_entries_map(updated);
    let lhs = entries_map(updated);
    let rhs = entries_map(entries).insert(entries[i].0, value);
    assert forall|k: K|
        #![trigger lhs.dom().contains(k)]
        #![trigger rhs.dom().contains(k)]
        #![trigger lhs[k]]
        lhs.dom().contains(k) == rhs.dom().contains(k) && (lhs.dom().contains(k) ==> lhs[k]
            == rhs[k]) by {
        if lhs.contains_key(k) {
            let j = choose|j: int| 0 <= j < updated.len() && updated[j].0 == k;
            assert(lhs.contains_pair(updated[j].0, updated[j].1));
            assert(entries_map(entries).contains_pair(entries[j].0, entries[j].1));
        }
        if rhs.contains_key(k) && k != entries[i].0 {
            let j = choose|j: int| 0 <= j < entries.len() && entries[j].0 == k;
            assert(lhs.contains_pair(updated[j].0, updated[j].1));
        }
        if k == entries[i].0 {
            assert(lhs.contains_pair(updated[i].0, updated[i].1));
        }
    }
    assert(lhs =~= rhs);
}

/// Taking one entry out is a removal of its key.
proof fn lemma_entries_map_remove<K, V>(entries: Seq<(K, V)>, i: int)
    requires
        distinct_keys(entries),
        0 <= i < entries.len(),
    ensures
        distinct_keys(entries.remove(i)),
        entries_map(entries.remove(i)) == entries_map(entries).remove(entries[i].0),
{
    let rest = entries.remove(i);
    assert forall|a: int, b: int| 0 <= a < b < rest.len() implies rest[a].0 != rest[b].0 by {
        let a0 = if a < i { a } else { a + 1 };
        let b0 = if b < i { b } else { b + 1 };
        assert(entries[a0].0 != entries[b0].0);
    }
    lemma_entries_map(entries);
    lemma_entries_map(rest);
    let lhs = entries_map(rest);
    let rhs = entries_map(entries).remove(entries[i].0);
    assert forall|k: K|
        #![trigger lhs.dom().contains(k)]
        #![trigger rhs.dom().contains(k)]
        #![trigger lhs[k]]
        lhs.dom().contains(k) == rhs.dom().contains(k) && (lhs.dom().contains(k) ==> lhs[k]
            == rhs[k]) by {
        if lhs.contains_key(k) {
            let j = choose|j: int| 0 <= j < rest.len() && rest[j].0 == k;
            let j0 = if j < i { j } else { j + 1 };
            assert(lhs.contains_pair(rest[j].0, rest[j].1));
            assert(rest[j] == entries[j0]);
            assert(entries_map(entries).contains_pair(entries[j0].0, entries[j0].1));
        }
        if rhs.contains_key(k) {
            let j0 = choose|j: int| 0 <= j < entries.len() && entries[j].0 == k;
            let j = if j0 < i { j0 } else { j0 - 1 };
            assert(rest[j] == entries[j0]);
            assert(lhs.contains_pair(rest[j].0, rest[j].1));
        }
    }
    assert(lhs =~= rhs);
}

/// Where a key stands in a list of entries.
fn position<K: Key, V: Copy>(entries: &Vec<(K, V)>, key: &K) -> (r: Option<usize>)
    ensures
        r matches Some(i) ==> i < entries@.len() && entries@[i as int].0 == *key,
        r is None ==> forall|i: int| 0 <= i < entries@.len() ==> entries@[i].0 != *key,
{
    let mut i: usize = 0;
    while i < entries.len()
        invariant
            i <= entries@.len(),
            forall|j: int| 0 <= j < i ==> entries@[j].0 != *key,
        decreases entries@.len() - i,
    {
        if entries[i].0.same(key) {
            return Some(i);
        }
        i += 1;
    }
    None
}

impl<K, V> Table<K, V> {
    #[verifier::type_invariant]
    spec fn distinct(self) -> bool {
        distinct_keys(self.entries@)
    }
}

impl<K: Key, V: Copy> Table<K, V> {
    /// The empty table.
    pub fn new() -> (t: Self)
        ensures
            t@ == Map::<K, V>::empty(),
    {
        Table { entries: Vec::new() }
    }

    /// The value under a key, if there is one.
    pub fn get(&self, key: &K) -> (r: Option<V>)
        ensures
            r == (if self@.contains_key(*key) {
                Some(self@[*key])
            } else {
                None
            }),
    {
        proof {
            use_type_invariant(self);
            lemma_entries_map(self.entries@);
        }
        match position(&self.entries, key) {
            Some(i) => {
                assert(self@.contains_pair(self.entries@[i as int].0, self.entries@[i as int].1));
                Some(self.entries[i].1)
            },
            None => None,
        }
    }

    /// Whether there is a value under a key.
    pub fn has(&self, key: &K) -> (r: bool)
        ensures
            r == self@.contains_key(*key),
    {
        self.get(key).is_some()
    }

    /// Puts a value under a key, in place of the one that may be there.
    pub fn set(&mut self, key: K, value: V)
        ensures
            final(self)@ == old(self)@.insert(key, value),
    {
        proof {
            use_type_invariant(&*self);
            lemma_entries_map(self.entries@);
        }
        let mut entries: Vec<(K, V)> = Vec::new();
        std::mem::swap(&mut entries, &mut self.entries);
        let ghost before = entries@;
        match position(&entries, &key) {
            Some(i) => {
                entries[i] = (key, value);
                proof {
                    lemma_entries_map_update(before, i as int, value);
                }
            },
            None => {
                entries.push((key, value));
                assert(entries@.drop_last() =~= before);
            },
        }
        self.entries = entries;
    }

    /// Takes a key and its value out.
    pub fn remove(&mut self, key: &K)
        ensures
            final(self)@ == old(self)@.remove(*key),
    {
        proof {
            use_type_invariant(&*self);
            lemma_entries_map(self.entries@);
        }
        let mut entries: Vec<(K, V)> = Vec::new();
        std::mem::swap(&mut entries, &mut self.entries);
        let ghost before = entries@;
        match position(&entries, key) {
            Some(i) => {
                entries.remove(i);
                proof {
                    lemma_entries_map_remove(before, i as int);
                }
            },
            None => {
                assert(entries_map(before).remove(*key) =~= entries_map(before));
            },
        }
        self.entries = entries;
    }
}

} // verus!
