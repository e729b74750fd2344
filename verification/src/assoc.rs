//! Association tables: a list of key-value pairs read as a map, in which a later pair
//! overrides an earlier one with the same key.

use vstd::prelude::*;

verus! {

/// The map that a list of pairs stands for.
pub open spec fn assoc_map<K, V>(entries: Seq<(K, V)>) -> Map<K, V>
    decreases entries.len(),
{
    if entries.len() == 0 {
        Map::empty()
    } else {
        assoc_map(entries.drop_last()).insert(entries.last().0, entries.last().1)
    }
}

/// Whether `j` is the place of the last pair with key `key`.
pub open spec fn last_place<K, V>(entries: Seq<(K, V)>, key: K, j: int) -> bool {
    &&& 0 <= j < entries.len()
    &&& entries[j].0 == key
    &&& forall|l: int| j < l < entries.len() ==> entries[l].0 != key
}

/// Whether no pair has key `key`.
pub open spec fn no_place<K, V>(entries: Seq<(K, V)>, key: K) -> bool {
    forall|i: int| 0 <= i < entries.len() ==> entries[i].0 != key
}

/// Appending a pair inserts it into the map.
pub proof fn lemma_assoc_push<K, V>(entries: Seq<(K, V)>, key: K, value: V)
    ensures
        assoc_map(entries.push((key, value))) == assoc_map(entries).insert(key, value),
{
    assert(entries.push((key, value)).drop_last() =~= entries);
}

/// A key that no pair has is not in the map.
pub proof fn lemma_assoc_absent<K, V>(entries: Seq<(K, V)>, key: K)
    requires
        no_place(entries, key),
    ensures
        !assoc_map(entries).contains_key(key),
    decreases entries.len(),
{
    if entries.len() > 0 {
        lemma_assoc_absent(entries.drop_last(), key);
    }
}

/// The map gives a key the value of the last pair that has it.
pub proof fn lemma_assoc_last<K, V>(entries: Seq<(K, V)>, key: K, j: int)
    requires
        last_place(entries, key, j),
    ensures
        assoc_map(entries).contains_key(key),
        assoc_map(entries)[key] == entries[j].1,
    decreases entries.len(),
{
    if j < entries.len() - 1 {
        lemma_assoc_last(entries.drop_last(), key, j);
    }
}

/// Replacing the value in the last pair of a key is an insertion into the map.
pub proof fn lemma_assoc_update<K, V>(entries: Seq<(K, V)>, key: K, j: int, value: V)
    requires
        last_place(entries, key, j),
    ensures
        assoc_map(entries.update(j, (key, value))) == assoc_map(entries).insert(key, value),
    decreases entries.len(),
{
    let updated = entries.update(j, (key, value));
    if j < entries.len() - 1 {
        lemma_assoc_update(entries.drop_last(), key, j, value);
        assert(updated.drop_last() =~= entries.drop_last().update(j, (key, value)));
    } else {
        assert(updated.drop_last() =~= entries.drop_last());
    }
}

/// Taking one pair out leaves every other key as it was.
pub proof fn lemma_assoc_remove_at<K, V>(entries: Seq<(K, V)>, j: int, other: K)
    requires
        0 <= j < entries.len(),
        entries[j].0 != other,
    ensures
        assoc_map(entries.remove(j)).contains_key(other) == assoc_map(entries).contains_key(other),
        assoc_map(entries.remove(j)).contains_key(other) ==> assoc_map(entries.remove(j))[other]
            == assoc_map(entries)[other],
    decreases entries.len(),
{
    if j < entries.len() - 1 {
        lemma_assoc_remove_at(entries.drop_last(), j, other);
        assert(entries.remove(j).drop_last() =~= entries.drop_last().remove(j));
    } else {
        assert(entries.remove(j) =~= entries.drop_last());
    }
}

/// Whether a pair with key `key` stands at place `from` or later.
pub open spec fn occurs_from<K, V>(entries: Seq<(K, V)>, key: K, from: int) -> bool {
    exists|l: int| from <= l < entries.len() && entries[l].0 == key
}

/// The map has exactly the keys that some pair has.
pub proof fn lemma_assoc_contains<K, V>(entries: Seq<(K, V)>, key: K)
    ensures
        assoc_map(entries).contains_key(key) <==> occurs_from(entries, key, 0),
    decreases entries.len(),
{
    if entries.len() > 0 {
        lemma_assoc_contains(entries.drop_last(), key);
        if entries.last().0 == key {
            assert(entries[entries.len() - 1].0 == key);
        } else if occurs_from(entries, key, 0) {
            let l = choose|l: int| 0 <= l < entries.len() && entries[l].0 == key;
            assert(entries.drop_last()[l].0 == key);
        } else if occurs_from(entries.drop_last(), key, 0) {
            let l = choose|l: int|
                0 <= l < entries.drop_last().len() && entries.drop_last()[l].0 == key;
            assert(entries[l].0 == key);
        }
    }
}

/// A key stands at place `n - 1` or later exactly when it stands at that place or at
/// a later one.
pub proof fn lemma_occurs_step<K, V>(entries: Seq<(K, V)>, key: K, n: int)
    requires
        0 < n <= entries.len(),
    ensures
        occurs_from(entries, key, n - 1) <==> (entries[n - 1].0 == key || occurs_from(
            entries,
            key,
            n,
        )),
{
    if occurs_from(entries, key, n) {
        let l = choose|l: int| n <= l < entries.len() && entries[l].0 == key;
        assert(n - 1 <= l < entries.len() && entries[l].0 == key);
    }
    if occurs_from(entries, key, n - 1) {
        let l = choose|l: int| n - 1 <= l < entries.len() && entries[l].0 == key;
        if l > n - 1 {
            assert(n <= l < entries.len() && entries[l].0 == key);
        }
    }
    if entries[n - 1].0 == key {
        assert(n - 1 <= n - 1 < entries.len() && entries[n - 1].0 == key);
    }
}

/// A key type of a table: its view tells keys apart.
pub trait TableKey: View + Sized {
    /// Whether the two keys stand for the same value.
    fn same(&self, other: &Self) -> (r: bool)
        ensures
            r == (self@ == other@),
    ;

    /// A copy of the key.
    fn duplicate(&self) -> (r: Self)
        ensures
            r@ == self@,
    ;
}

/// A value type of a table: its view is what the table holds of it.
pub trait TableValue: View + Sized {
    /// A copy of the value.
    fn duplicate(&self) -> (r: Self)
        ensures
            r@ == self@,
    ;
}

impl TableKey for String {
    fn same(&self, other: &Self) -> (r: bool) {
        *self == *other
    }

    fn duplicate(&self) -> (r: Self) {
        self.clone()
    }
}

impl TableValue for String {
    fn duplicate(&self) -> (r: Self) {
        self.clone()
    }
}

/// The pairs of a table, each key and each value taken by its view.
pub open spec fn keyed<K: View, V: View>(entries: Seq<(K, V)>) -> Seq<(K::V, V::V)> {
    Seq::new(entries.len(), |i: int| (entries[i].0@, entries[i].1@))
}

/// A map from keys to values, kept as a list of pairs.
#[derive(Debug)]
pub struct Table<K, V> {
    entries: Vec<(K, V)>,
}

impl<K: View, V: View> View for Table<K, V> {
    type V = Map<K::V, V::V>;

    closed spec fn view(&self) -> Map<K::V, V::V> {
        assoc_map(keyed(self.entries@))
    }
}

impl<K: TableKey, V: View> Table<K, V> {
    /// The empty table.
    pub fn new() -> (r: Self)
        ensures
            r@ == Map::<K::V, V::V>::empty(),
    {
        let table = Table { entries: Vec::new() };
        table
    }

    /// The place of the last pair with the given key.
    fn place(&self, key: &K) -> (r: Option<usize>)
        ensures
            match r {
                Some(j) => last_place(keyed(self.entries@), key@, j as int),
                None => no_place(keyed(self.entries@), key@),
            },
    {
        let mut i: usize = self.entries.len();
        while i > 0
            invariant
                i <= self.entries.len(),
                forall|l: int| i <= l < self.entries.len() ==> self.entries@[l].0@ != key@,
            decreases i,
        {
            i -= 1;
            if self.entries[i].0.same(key) {
                return Some(i);
            }
        }
        None
    }

    /// The value of a key, if the table has one.
    pub fn get(&self, key: &K) -> (r: Option<&V>)
        ensures
            match r {
                Some(value) => self@.contains_key(key@) && value@ == self@[key@],
                None => !self@.contains_key(key@),
            },
    {
        match self.place(key) {
            Some(j) => {
                proof {
                    lemma_assoc_last(keyed(self.entries@), key@, j as int);
                }
                Some(&self.entries[j].1)
            },
            None => {
                proof {
                    lemma_assoc_absent(keyed(self.entries@), key@);
                }
                None
            },
        }
    }

    /// Whether the table has a value for the key.
    pub fn contains_key(&self, key: &K) -> (r: bool)
        ensures
            r == self@.contains_key(key@),
    {
        self.get(key).is_some()
    }

    /// Gives the key the value, in place of any it had.
    pub fn set(&mut self, key: K, value: V)
        ensures
            final(self)@ == old(self)@.insert(key@, value@),
    {
        match self.place(&key) {
            Some(j) => {
                proof {
                    lemma_assoc_update(keyed(self.entries@), key@, j as int, value@);
                    assert(keyed(self.entries@.update(j as int, (key, value))) =~= keyed(
                        self.entries@,
                    ).update(j as int, (key@, value@)));
                }
                self.entries.set(j, (key, value));
            },
            None => {
                proof {
                    lemma_assoc_push(keyed(self.entries@), key@, value@);
                    assert(keyed(self.entries@.push((key, value))) =~= keyed(self.entries@).push(
                        (key@, value@),
                    ));
                }
                self.entries.push((key, value));
            },
        }
    }

    /// Takes the key out of the table, with its value.
    pub fn remove(&mut self, key: &K)
        ensures
            final(self)@ == old(self)@.remove(key@),
    {
        loop
            invariant
                forall|other: K::V|
                    other != key@ ==> (#[trigger] self@.contains_key(other) == old(
                        self,
                    )@.contains_key(other) && (self@.contains_key(other) ==> self@[other] == old(
                        self,
                    )@[other])),
            ensures
                !self@.contains_key(key@),
            decreases self.entries.len(),
        {
            match self.place(key) {
                Some(j) => {
                    proof {
                        let after = keyed(self.entries@).remove(j as int);
                        assert(keyed(self.entries@.remove(j as int)) =~= after);
                        assert forall|other: K::V| other != key@ implies (#[trigger] assoc_map(
                            after,
                        ).contains_key(other) == self@.contains_key(other) && (assoc_map(
                            after,
                        ).contains_key(other) ==> assoc_map(after)[other] == self@[other])) by {
                            lemma_assoc_remove_at(keyed(self.entries@), j as int, other);
                        }
                    }
                    self.entries.remove(j);
                },
                None => {
                    proof {
                        lemma_assoc_absent(keyed(self.entries@), key@);
                    }
                    break ;
                },
            }
        }
    }

    /// Takes over every pair of `other` whose key this table does not have yet.
    pub fn fill_from(&mut self, other: Table<K, V>)
        ensures
            final(self)@ == other@.union_prefer_right(old(self)@),
    {
        let mut rest = other.entries;
        let ghost all = keyed(rest@);
        while rest.len() > 0
            invariant
                keyed(rest@) == all.take(rest.len() as int),
                rest.len() <= all.len(),
                forall|key: K::V| #[trigger]
                    self@.contains_key(key) <==> old(self)@.contains_key(key) || occurs_from(
                        all,
                        key,
                        rest.len() as int,
                    ),
                forall|key: K::V| #[trigger]
                    self@.contains_key(key) ==> self@[key] == if old(self)@.contains_key(key) {
                        old(self)@[key]
                    } else {
                        assoc_map(all)[key]
                    },
            decreases rest.len(),
        {
            let ghost n = rest.len() as int;
            let ghost before = rest@;
            let pair = rest.pop().unwrap();
            let key = pair.0;
            let value = pair.1;
            proof {
                assert(keyed(rest@) =~= all.take(n - 1));
                assert(all[n - 1] == keyed(before)[n - 1]);
            }
            if !self.contains_key(&key) {
                proof {
                    assert(last_place(all, key@, n - 1)) by {
                        assert forall|l: int| n - 1 < l < all.len() implies all[l].0 != key@ by {
                            if all[l].0 == key@ {
                                assert(occurs_from(all, key@, n));
                            }
                        }
                    }
                    lemma_assoc_last(all, key@, n - 1);
                }
                self.set(key, value);
            }
            proof {
                assert forall|k: K::V| #[trigger]
                    self@.contains_key(k) <==> old(self)@.contains_key(k) || occurs_from(
                        all,
                        k,
                        n - 1,
                    ) by {
                    lemma_occurs_step(all, k, n);
                }
            }
        }
        proof {
            assert forall|k: K::V|
                self@.contains_key(k) <==> old(self)@.contains_key(k) || assoc_map(
                    all,
                ).contains_key(k) by {
                lemma_assoc_contains(all, k);
            }
        }
    }
}

impl<K: TableKey, V: TableValue> Table<K, V> {
    /// A copy of the table.
    pub fn duplicate(&self) -> (r: Self)
        ensures
            r@ == self@,
    {
        let mut entries: Vec<(K, V)> = Vec::new();
        let mut i: usize = 0;
        while i < self.entries.len()
            invariant
                i <= self.entries.len(),
                keyed(entries@) == keyed(self.entries@).take(i as int),
            decreases self.entries.len() - i,
        {
            let key = self.entries[i].0.duplicate();
            let value = self.entries[i].1.duplicate();
            proof {
                let whole = keyed(self.entries@);
                assert(whole.take(i + 1) =~= whole.take(i as int).push(whole[i as int]));
            }
            entries.push((key, value));
            i += 1;
        }
        assert(keyed(entries@) =~= keyed(self.entries@));
        Table { entries }
    }
}

} // verus!
