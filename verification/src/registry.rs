//! A table of values under text keys, each key at most once.
use vstd::prelude::*;

verus! {

/// The keys of a list of entries.
spec fn keys_of<V>(entries: Seq<(String, V)>) -> Seq<Seq<char>> {
    entries.map_values(|entry: (String, V)| entry.0@)
}

/// The table that a list of entries with distinct keys stands for.
spec fn table_of<V>(entries: Seq<(String, V)>) -> Map<Seq<char>, V> {
    Map::new(
        |key: Seq<char>| keys_of(entries).contains(key),
        |key: Seq<char>| entries[keys_of(entries).index_of(key)].1,
    )
}

proof fn table_at<V>(entries: Seq<(String, V)>, i: int)
    requires
        keys_of(entries).no_duplicates(),
        0 <= i < entries.len(),
    ensures
        table_of(entries).contains_key(entries[i].0@),
        table_of(entries)[entries[i].0@] == entries[i].1,
        keys_of(entries).index_of(entries[i].0@) == i,
{
    let keys = keys_of(entries);
    assert(keys[i] == entries[i].0@);
    assert(keys.contains(entries[i].0@));
    let j = keys.index_of(entries[i].0@);
    assert(keys[j] == keys[i]);
}

/// A table of values under text keys. Each key stands in it at most once; the view is a map.
pub struct Registry<V> {
    entries: Vec<(String, V)>,
}

impl<V> View for Registry<V> {
    type V = Map<Seq<char>, V>;

    closed spec fn view(&self) -> Map<Seq<char>, V> {
        table_of(self.entries@)
    }
}

impl<V> Registry<V> {
    #[verifier::type_invariant]
    spec fn distinct_keys(self) -> bool {
        keys_of(self.entries@).no_duplicates()
    }

    /// The empty table.
    pub fn new() -> (r: Registry<V>)
        ensures
            r@ == Map::<Seq<char>, V>::empty(),
    {
        let r = Registry { entries: Vec::new() };
        assert(r@ =~= Map::<Seq<char>, V>::empty());
        r
    }

    fn place(entries: &Vec<(String, V)>, key: &str) -> (r: Option<usize>)
        requires
            keys_of(entries@).no_duplicates(),
        ensures
            match r {
                Some(i) => i < entries@.len() && entries@[i as int].0@ == key@,
                None => !table_of(entries@).contains_key(key@),
            },
    {
        let name = key.to_owned();
        let mut i: usize = 0;
        while i < entries.len()
            invariant
                i <= entries@.len(),
                name@ == key@,
                forall|j: int| 0 <= j < i ==> #[trigger] entries@[j].0@ != key@,
            decreases entries@.len() - i,
        {
            if entries[i].0 == name {
                return Some(i);
            }
            i = i + 1;
        }
        proof {
            let keys = keys_of(entries@);
            if keys.contains(key@) {
                let j = keys.index_of(key@);
                assert(keys[j] == entries@[j].0@);
            }
        }
        None
    }

    /// The value under `key`.
    pub fn get(&self, key: &str) -> (r: Option<&V>)
        ensures
            match r {
                Some(v) => self@.contains_key(key@) && *v == self@[key@],
                None => !self@.contains_key(key@),
            },
    {
        proof {
            use_type_invariant(self);
        }
        match Self::place(&self.entries, key) {
            Some(i) => {
                proof {
                    table_at(self.entries@, i as int);
                }
                Some(&self.entries[i].1)
            },
            None => None,
        }
    }

    /// Whether there is a value under `key`.
    pub fn contains_key(&self, key: &str) -> (r: bool)
        ensures
            r == self@.contains_key(key@),
    {
        self.get(key).is_some()
    }

    /// Puts `value` under `key`, in place of the value that was there.
    pub fn insert(&mut self, key: String, value: V)
        ensures
            final(self)@ == old(self)@.insert(key@, value),
    {
        proof {
            use_type_invariant(&*self);
        }
        let mut entries: Vec<(String, V)> = Vec::new();
        std::mem::swap(&mut entries, &mut self.entries);
        let ghost before = entries@;
        match Self::place(&entries, key.as_str()) {
            Some(i) => {
                let ghost name = key@;
                entries.set(i, (key, value));
                proof {
                    assert(keys_of(entries@) =~= keys_of(before));
                    table_at(before, i as int);
                    table_at(entries@, i as int);
                    assert(table_of(entries@) =~= table_of(before).insert(name, value)) by {
                        assert forall|k: Seq<char>| #[trigger]
                            table_of(entries@).contains_key(k) && k != name implies table_of(
                            entries@,
                        )[k] == table_of(before)[k] by {
                            let j = keys_of(before).index_of(k);
                            assert(keys_of(before)[j] == k);
                            assert(j != i);
                        }
                    }
                }
            },
            None => {
                let ghost name = key@;
                entries.push((key, value));
                proof {
                    let keys = keys_of(entries@);
                    assert(keys =~= keys_of(before).push(name));
                    assert(keys.no_duplicates());
                    table_at(entries@, before.len() as int);
                    assert(table_of(entries@) =~= table_of(before).insert(name, value)) by {
                        assert forall|k: Seq<char>|
                            table_of(before).contains_key(k) implies #[trigger] table_of(
                            entries@,
                        ).contains_key(k) && table_of(entries@)[k] == table_of(before)[k] by {
                            let j = keys_of(before).index_of(k);
                            assert(keys_of(before)[j] == k);
                            assert(keys[j] == k);
                            table_at(before, j);
                            table_at(entries@, j);
                        }
                        assert forall|k: Seq<char>| #[trigger]
                            table_of(entries@).contains_key(k) && k != name implies table_of(
                            before,
                        ).contains_key(k) by {
                            let j = keys.index_of(k);
                            assert(keys[j] == k);
                            assert(keys_of(before)[j] == k);
                        }
                    }
                }
            },
        }
        self.entries = entries;
    }

    /// Takes the value under `key` out of the table, if there is one.
    pub fn remove(&mut self, key: &str)
        ensures
            final(self)@ == old(self)@.remove(key@),
    {
        proof {
            use_type_invariant(&*self);
        }
        let mut entries: Vec<(String, V)> = Vec::new();
        std::mem::swap(&mut entries, &mut self.entries);
        let ghost before = entries@;
        match Self::place(&entries, key) {
            Some(i) => {
                entries.remove(i);
                proof {
                    let keys = keys_of(entries@);
                    assert(keys =~= keys_of(before).remove(i as int));
                    assert forall|a: int, b: int| 0 <= a < b < keys.len() implies keys[a]
                        != keys[b] by {
                        let a0 = if a < i {
                            a
                        } else {
                            a + 1
                        };
                        let b0 = if b < i {
                            b
                        } else {
                            b + 1
                        };
                        assert(keys[a] == keys_of(before)[a0]);
                        assert(keys[b] == keys_of(before)[b0]);
                    }
                    table_at(before, i as int);
                    assert(table_of(entries@) =~= table_of(before).remove(key@)) by {
                        assert forall|k: Seq<char>| #[trigger]
                            table_of(entries@).contains_key(k) implies table_of(
                            before,
                        ).contains_key(k) && k != key@ && table_of(entries@)[k] == table_of(
                            before,
                        )[k] by {
                            let j = keys.index_of(k);
                            assert(keys[j] == k);
                            let j0 = if j < i {
                                j
                            } else {
                                j + 1
                            };
                            assert(keys_of(before)[j0] == k);
                            assert(keys_of(before)[i as int] == key@);
                            table_at(before, j0);
                            table_at(entries@, j);
                        }
                        assert forall|k: Seq<char>|
                            table_of(before).contains_key(k) && k != key@ implies #[trigger]
                        table_of(entries@).contains_key(k) by {
                            let j0 = keys_of(before).index_of(k);
                            assert(keys_of(before)[j0] == k);
                            assert(keys_of(before)[i as int] == key@);
                            let j = if j0 < i {
                                j0
                            } else {
                                j0 - 1
                            };
                            assert(keys[j] == k);
                        }
                    }
                }
            },
            None => {
                assert(table_of(before) =~= table_of(before).remove(key@));
            },
        }
        self.entries = entries;
    }

    /// Some value of the table; which one is left open.
    pub fn any(&self) -> (r: Option<&V>)
        ensures
            match r {
                Some(v) => exists|key: Seq<char>| #[trigger]
                    self@.contains_key(key) && self@[key] == *v,
                None => self@.dom() == Set::<Seq<char>>::empty(),
            },
    {
        proof {
            use_type_invariant(self);
        }
        if self.entries.len() > 0 {
            proof {
                table_at(self.entries@, 0);
                assert(self@.contains_key(self.entries@[0].0@));
            }
            Some(&self.entries[0].1)
        } else {
            assert(self@.dom() =~= Set::<Seq<char>>::empty());
            None
        }
    }

    /// The keys of the table, each once, in an order that is left open.
    pub fn keys(&self) -> (r: Vec<String>)
        ensures
            crate::text::texts(r@).no_duplicates(),
            crate::text::texts(r@).to_set() == self@.dom(),
    {
        proof {
            use_type_invariant(self);
        }
        let mut keys: Vec<String> = Vec::new();
        let mut i: usize = 0;
        while i < self.entries.len()
            invariant
                i <= self.entries@.len(),
                crate::text::texts(keys@) == keys_of(self.entries@).take(i as int),
            decreases self.entries@.len() - i,
        {
            let ghost earlier = crate::text::texts(keys@);
            keys.push(self.entries[i].0.clone());
            assert(crate::text::texts(keys@) =~= earlier.push(self.entries@[i as int].0@));
            i = i + 1;
            assert(crate::text::texts(keys@) =~= keys_of(self.entries@).take(i as int));
        }
        assert(keys_of(self.entries@).take(i as int) =~= keys_of(self.entries@));
        assert(crate::text::texts(keys@).to_set() =~= self@.dom());
        keys
    }
}

} // verus!
