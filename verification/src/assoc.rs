//! Association lists: the small keyed tables of the commander's state.

use vstd::prelude::*;

use crate::path::{FilePath, PathKey};

verus! {

/// What a table can be keyed by: values that can be told apart and copied.
pub trait Key: Sized {
    type Image;

    /// What the key stands for.
    spec fn image(&self) -> Self::Image;

    /// Whether two keys stand for the same thing.
    fn same_key(&self, other: &Self) -> (r: bool)
        ensures
            r == (self.image() == other.image()),
    ;
}

impl Key for FilePath {
    type Image = PathKey;

    open spec fn image(&self) -> PathKey {
        self@.key()
    }

    fn same_key(&self, other: &Self) -> (r: bool) {
        self.same(other)
    }
}

impl Key for String {
    type Image = Seq<char>;

    open spec fn image(&self) -> Seq<char> {
        self@
    }

    fn same_key(&self, other: &Self) -> (r: bool) {
        *self == *other
    }
}

/// A table from keys to values. A key's value is that of its first row.
#[derive(Debug, Clone)]
pub struct Assoc<K, V> {
    pub rows: Vec<(K, V)>,
}

/// Index of the first row with this key, or the number of rows.
pub open spec fn row_of<K: Key, V>(rows: Seq<(K, V)>, key: K::Image) -> int
    decreases rows.len(),
{
    if rows.len() == 0 {
        0
    } else if rows[0].0.image() == key {
        0
    } else {
        1 + row_of(rows.drop_first(), key)
    }
}

/// Where the row of a key is.
pub proof fn lemma_row_of<K: Key, V>(rows: Seq<(K, V)>, key: K::Image)
    ensures
        0 <= row_of(rows, key) <= rows.len(),
        row_of(rows, key) < rows.len() ==> rows[row_of(rows, key)].0.image() == key,
        forall|i: int| 0 <= i < row_of(rows, key) ==> (#[trigger] rows[i]).0.image() != key,
    decreases rows.len(),
{
    if rows.len() > 0 && rows[0].0.image() != key {
        let rest = rows.drop_first();
        lemma_row_of(rest, key);
        assert forall|i: int| 0 <= i < row_of(rows, key) implies (
        #[trigger] rows[i]).0.image() != key by {
            if i > 0 {
                assert(rest[i - 1] == rows[i]);
            }
        }
    }
}

proof fn lemma_row_is<K: Key, V>(rows: Seq<(K, V)>, key: K::Image, at: int)
    requires
        0 <= at <= rows.len(),
        at < rows.len() ==> rows[at].0.image() == key,
        forall|i: int| 0 <= i < at ==> (#[trigger] rows[i]).0.image() != key,
    ensures
        row_of(rows, key) == at,
{
    lemma_row_of(rows, key);
    let found = row_of(rows, key);
    if found < at {
        assert(rows[found].0.image() != key);
    }
    if at < found {
        assert(rows[at].0.image() != key);
    }
}

impl<K: Key, V> View for Assoc<K, V> {
    type V = Map<K::Image, V>;

    open spec fn view(&self) -> Map<K::Image, V> {
        Map::new(
            |key: K::Image| row_of(self.rows@, key) < self.rows@.len(),
            |key: K::Image| self.rows@[row_of(self.rows@, key)].1,
        )
    }
}

impl<K: Key, V> Assoc<K, V> {
    /// A table without rows.
    pub fn new() -> (r: Self)
        ensures
            r@ == Map::<K::Image, V>::empty(),
            r.rows@.len() == 0,
    {
        let r = Assoc { rows: Vec::new() };
        assert(r@ =~= Map::<K::Image, V>::empty());
        r
    }

    /// Index of the first row with a key, or the number of rows.
    pub fn first_row(&self, key: &K) -> (at: usize)
        ensures
            at == row_of(self.rows@, key.image()),
            at <= self.rows@.len(),
    {
        let mut i: usize = 0;
        while i < self.rows.len()
            invariant
                i <= self.rows@.len(),
                forall|k: int| 0 <= k < i ==> (#[trigger] self.rows@[k]).0.image() != key.image(),
            decreases self.rows@.len() - i,
        {
            if self.rows[i].0.same_key(key) {
                proof {
                    lemma_row_is(self.rows@, key.image(), i as int);
                }
                return i;
            }
            i = i + 1;
        }
        proof {
            lemma_row_is(self.rows@, key.image(), i as int);
        }
        i
    }

    /// The value under a key.
    pub fn get(&self, key: &K) -> (r: Option<&V>)
        ensures
            r is Some <==> self@.dom().contains(key.image()),
            r matches Some(v) ==> *v == self@[key.image()],
    {
        let at: usize = self.first_row(key);
        if at < self.rows.len() {
            Some(&self.rows[at].1)
        } else {
            None
        }
    }

    /// Whether the table has a value under a key.
    pub fn contains(&self, key: &K) -> (r: bool)
        ensures
            r == self@.dom().contains(key.image()),
    {
        self.first_row(key) < self.rows.len()
    }

    /// Puts a value under a key, in place of the one that was there. A key that was there stays as
    /// it was written.
    pub fn insert(&mut self, key: K, value: V)
        ensures
            final(self)@ == old(self)@.insert(key.image(), value),
    {
        let at: usize = self.first_row(&key);
        let ghost before = self.rows@;
        let ghost image = key.image();
        if at < self.rows.len() {
            let (kept, _) = self.rows.remove(at);
            self.rows.insert(at, (kept, value));
            assert(self.rows@ =~= before.update(at as int, (before[at as int].0, value)));
        } else {
            self.rows.push((key, value));
        }
        proof {
            assert forall|k: K::Image| row_of(self.rows@, k) == (if k == image {
                at as int
            } else if row_of(before, k) < before.len() {
                row_of(before, k)
            } else {
                self.rows@.len() as int
            }) by {
                lemma_row_of(before, k);
                lemma_row_of(before, image);
                if k == image {
                    assert(at < before.len() ==> self.rows@[at as int].0 == before[at as int].0);
                    lemma_row_is(self.rows@, k, at as int);
                } else if row_of(before, k) < before.len() {
                    let found = row_of(before, k);
                    assert(found != at);
                    assert(self.rows@[found] == before[found]);
                    assert forall|i: int| 0 <= i < found implies (
                    #[trigger] self.rows@[i]).0.image() != k by {
                        if i != at {
                            assert(self.rows@[i] == before[i]);
                        }
                    }
                    lemma_row_is(self.rows@, k, found);
                } else {
                    lemma_row_is(self.rows@, k, self.rows@.len() as int);
                }
            }
            assert forall|k: K::Image| row_of(before, k) < before.len() && k != image implies row_of(
                before,
                k,
            ) != at by {
                lemma_row_of(before, k);
                lemma_row_of(before, image);
            }
            assert forall|k: K::Image| self@.dom().contains(k) == old(self)@.insert(
                image,
                value,
            ).dom().contains(k) by {
                lemma_row_of(before, k);
            }
            assert forall|k: K::Image| self@.dom().contains(k) implies self@[k] == old(self)@.insert(
                image,
                value,
            )[k] by {
                lemma_row_of(before, k);
                if k != image {
                    assert(self.rows@[row_of(before, k)] == before[row_of(before, k)]);
                }
            }
            assert(self@ =~= old(self)@.insert(image, value));
        }
    }

    /// Takes the value under a key out of the table.
    pub fn remove(&mut self, key: &K) -> (r: Option<V>)
        ensures
            final(self)@ == old(self)@.remove(key.image()),
            r is Some <==> old(self)@.dom().contains(key.image()),
            r matches Some(v) ==> v == old(self)@[key.image()],
    {
        let at: usize = self.first_row(key);
        let ghost start = self.rows@;
        let ghost image = key.image();
        if at == self.rows.len() {
            assert(!self@.dom().contains(image));
            assert(self@ =~= old(self)@.remove(image));
            return None;
        }
        let (_, value) = self.rows.remove(at);
        let mut i: usize = at;
        proof {
            lemma_row_of(start, image);
            assert forall|k: K::Image| k != image implies #[trigger] lookup(self.rows@, k) == lookup(
                start,
                k,
            ) by {
                lemma_removed_row(start, at as int, k);
            }
        }
        while i < self.rows.len()
            invariant
                at <= i <= self.rows@.len(),
                forall|k: int| 0 <= k < i ==> (#[trigger] self.rows@[k]).0.image() != key.image(),
                image == key.image(),
                forall|k: K::Image| k != image ==> #[trigger] lookup(self.rows@, k) == lookup(start, k),
            decreases self.rows@.len() - i,
        {
            if self.rows[i].0.same_key(key) {
                let ghost prior = self.rows@;
                self.rows.remove(i);
                proof {
                    assert forall|k: K::Image| k != image implies #[trigger] lookup(self.rows@, k)
                        == lookup(start, k) by {
                        lemma_removed_row(prior, i as int, k);
                    }
                }
            } else {
                i = i + 1;
            }
        }
        proof {
            lemma_row_is(self.rows@, image, self.rows@.len() as int);
            assert forall|k: K::Image| self@.dom().contains(k) == old(self)@.remove(
                image,
            ).dom().contains(k) by {
                lemma_row_of(self.rows@, k);
                lemma_row_of(start, k);
                if k != image {
                    assert(lookup(self.rows@, k) == lookup(start, k));
                }
            }
            assert forall|k: K::Image| self@.dom().contains(k) implies self@[k] == old(self)@.remove(
                image,
            )[k] by {
                assert(k != image);
                assert(lookup(self.rows@, k) == lookup(start, k));
            }
            assert(self@ =~= old(self)@.remove(image));
        }
        Some(value)
    }

    /// Keeps only the rows whose key is in another table.
    pub fn retain_keys<W>(&mut self, keep: &Assoc<K, W>)
        ensures
            final(self)@ == old(self)@.restrict(keep@.dom()),
    {
        let ghost start = self.rows@;
        let mut i: usize = 0;
        while i < self.rows.len()
            invariant
                i <= self.rows@.len(),
                forall|k: int|
                    0 <= k < i ==> keep@.dom().contains((#[trigger] self.rows@[k]).0.image()),
                forall|k: K::Image|
                    keep@.dom().contains(k) ==> #[trigger] lookup(self.rows@, k) == lookup(start, k),
            decreases self.rows@.len() - i,
        {
            if keep.contains(&self.rows[i].0) {
                i = i + 1;
            } else {
                let ghost prior = self.rows@;
                self.rows.remove(i);
                proof {
                    assert forall|k: K::Image| keep@.dom().contains(k) implies #[trigger] lookup(
                        self.rows@,
                        k,
                    ) == lookup(start, k) by {
                        lemma_removed_row(prior, i as int, k);
                    }
                }
            }
        }
        proof {
            assert forall|k: K::Image| self@.dom().contains(k) == old(self)@.restrict(
                keep@.dom(),
            ).dom().contains(k) by {
                lemma_row_of(self.rows@, k);
                lemma_row_of(start, k);
                if keep@.dom().contains(k) {
                    assert(lookup(self.rows@, k) == lookup(start, k));
                }
            }
            assert forall|k: K::Image| self@.dom().contains(k) implies self@[k] == old(
                self,
            )@.restrict(keep@.dom())[k] by {
                lemma_row_of(self.rows@, k);
                assert(lookup(self.rows@, k) == lookup(start, k));
            }
            assert(self@ =~= old(self)@.restrict(keep@.dom()));
        }
    }

    /// Removes every row.
    pub fn clear(&mut self)
        ensures
            final(self)@ == Map::<K::Image, V>::empty(),
            final(self).rows@.len() == 0,
    {
        self.rows.clear();
        assert(self@ =~= Map::<K::Image, V>::empty());
    }

    /// Whether the table has no rows.
    pub fn is_empty(&self) -> (r: bool)
        ensures
            r == (self@ == Map::<K::Image, V>::empty()),
    {
        let r = self.rows.len() == 0;
        proof {
            if r {
                assert(self@ =~= Map::<K::Image, V>::empty());
            } else {
                assert(row_of(self.rows@, self.rows@[0].0.image()) == 0);
                assert(self@.dom().contains(self.rows@[0].0.image()));
            }
        }
        r
    }
}

/// The value under a key, if there is one.
pub open spec fn lookup<K: Key, V>(rows: Seq<(K, V)>, key: K::Image) -> Option<V> {
    if row_of(rows, key) < rows.len() {
        Some(rows[row_of(rows, key)].1)
    } else {
        None
    }
}

/// A key is in the table exactly where some row carries it.
pub proof fn lemma_keys_are_rows<K: Key, V>(table: Assoc<K, V>, key: K::Image)
    ensures
        table@.dom().contains(key) <==> exists|i: int|
            0 <= i < table.rows@.len() && (#[trigger] table.rows@[i]).0.image() == key,
{
    lemma_row_of(table.rows@, key);
    if table@.dom().contains(key) {
        assert(table.rows@[row_of(table.rows@, key)].0.image() == key);
    }
}

proof fn lemma_removed_row<K: Key, V>(rows: Seq<(K, V)>, at: int, key: K::Image)
    requires
        0 <= at < rows.len(),
        rows[at].0.image() != key,
    ensures
        lookup(rows.remove(at), key) == lookup(rows, key),
{
    let less = rows.remove(at);
    lemma_row_of(rows, key);
    let found = row_of(rows, key);
    if found < rows.len() {
        let there = if found < at {
            found
        } else {
            found - 1
        };
        assert(found != at);
        assert forall|i: int| 0 <= i < there implies (#[trigger] less[i]).0.image() != key by {
            if i < at {
                assert(less[i] == rows[i]);
            } else {
                assert(less[i] == rows[i + 1]);
            }
        }
        lemma_row_is(less, key, there);
    } else {
        assert forall|i: int| 0 <= i < less.len() implies (#[trigger] less[i]).0.image() != key by {
            if i < at {
                assert(less[i] == rows[i]);
            } else {
                assert(less[i] == rows[i + 1]);
            }
        }
        lemma_row_is(less, key, less.len() as int);
    }
}

} // verus!
