//! A small keyed table: the building block of the item store.
//!
//! A table holds at most one row per key and is seen in contracts as a `Map`
//! from the key's view to the row's view.

use vstd::prelude::*;

verus! {

/// A type that can serve as the key of a [`Table`]: two keys are the same key
/// exactly when their views are equal.
pub trait Key: View + Sized {
    fn same(&self, other: &Self) -> (b: bool)
        ensures
            b == (self@ == other@),
    ;
}

impl Key for i32 {
    fn same(&self, other: &Self) -> (b: bool) {
        *self == *other
    }
}

impl Key for String {
    fn same(&self, other: &Self) -> (b: bool) {
        *self == *other
    }
}

/// Rows in insertion order, one per key.
pub struct Table<K, V> {
    rows: Vec<(K, V)>,
}

/// The position of the row that holds key `k`, where there is one.
spec fn row_of<K: Key, V: View>(rows: Seq<(K, V)>, k: K::V) -> int {
    choose|i: int| 0 <= i < rows.len() && (#[trigger] rows[i]).0@ == k
}

spec fn has_row<K: Key, V: View>(rows: Seq<(K, V)>, k: K::V) -> bool {
    exists|i: int| 0 <= i < rows.len() && (#[trigger] rows[i]).0@ == k
}

spec fn distinct_keys<K: Key, V: View>(rows: Seq<(K, V)>) -> bool {
    forall|i: int, j: int|
        0 <= i < j < rows.len() ==> (#[trigger] rows[i]).0@ != (#[trigger] rows[j]).0@
}

spec fn rows_map<K: Key, V: View>(rows: Seq<(K, V)>) -> Map<K::V, V::V> {
    Map::new(|k: K::V| has_row(rows, k), |k: K::V| rows[row_of(rows, k)].1@)
}

proof fn lemma_row_of<K: Key, V: View>(rows: Seq<(K, V)>, i: int)
    requires
        distinct_keys(rows),
        0 <= i < rows.len(),
    ensures
        has_row(rows, rows[i].0@),
        row_of(rows, rows[i].0@) == i,
        rows_map(rows).dom().contains(rows[i].0@),
        rows_map(rows)[rows[i].0@] == rows[i].1@,
{
    let k = rows[i].0@;
    assert(rows[i].0@ == k);
    let j = row_of(rows, k);
    assert(0 <= j < rows.len() && rows[j].0@ == k);
    if j < i {
        assert(rows[j].0@ != rows[i].0@);
    } else if i < j {
        assert(rows[i].0@ != rows[j].0@);
    }
}

proof fn lemma_push<K: Key, V: View>(rows: Seq<(K, V)>, k: K, v: V)
    requires
        distinct_keys(rows),
        !has_row(rows, k@),
    ensures
        distinct_keys(rows.push((k, v))),
        rows_map(rows.push((k, v))) == rows_map(rows).insert(k@, v@),
{
    let next = rows.push((k, v));
    assert forall|i: int, j: int| 0 <= i < j < next.len() implies (#[trigger] next[i]).0@ != (
    #[trigger] next[j]).0@ by {
        if j < rows.len() {
            assert(rows[i].0@ != rows[j].0@);
        } else {
            assert(next[i] == rows[i]);
            if rows[i].0@ == k@ {
                assert(has_row(rows, k@));
            }
        }
    }
    let m = rows_map(rows).insert(k@, v@);
    assert forall|x: K::V| rows_map(next).dom().contains(x) <==> m.dom().contains(x) by {
        if has_row(next, x) {
            let i = row_of(next, x);
            assert(next[i].0@ == x);
            if i < rows.len() {
                assert(rows[i].0@ == x);
            }
        }
        if has_row(rows, x) {
            let i = row_of(rows, x);
            assert(next[i].0@ == x);
        }
        if x == k@ {
            assert(next[rows.len() as int].0@ == x);
        }
    }
    assert forall|x: K::V| m.dom().contains(x) implies rows_map(next)[x] == m[x] by {
        if x == k@ {
            lemma_row_of(next, rows.len() as int);
        } else {
            let i = row_of(rows, x);
            assert(rows[i].0@ == x);
            assert(next[i] == rows[i]);
            lemma_row_of(next, i);
            lemma_row_of(rows, i);
        }
    }
    assert(rows_map(next) =~= m);
}

proof fn lemma_update<K: Key, V: View>(rows: Seq<(K, V)>, i: int, k: K, v: V)
    requires
        distinct_keys(rows),
        0 <= i < rows.len(),
        rows[i].0@ == k@,
    ensures
        distinct_keys(rows.update(i, (k, v))),
        rows_map(rows.update(i, (k, v))) == rows_map(rows).insert(k@, v@),
{
    let next = rows.update(i, (k, v));
    assert forall|a: int, b: int| 0 <= a < b < next.len() implies (#[trigger] next[a]).0@ != (
    #[trigger] next[b]).0@ by {
        assert(rows[a].0@ != rows[b].0@);
    }
    let m = rows_map(rows).insert(k@, v@);
    assert forall|x: K::V| rows_map(next).dom().contains(x) <==> m.dom().contains(x) by {
        if has_row(next, x) {
            let j = row_of(next, x);
            assert(next[j].0@ == x);
            assert(rows[j].0@ == x);
        }
        if has_row(rows, x) {
            let j = row_of(rows, x);
            assert(rows[j].0@ == x);
            assert(next[j].0@ == x);
        }
        if x == k@ {
            assert(next[i].0@ == x);
        }
    }
    assert forall|x: K::V| m.dom().contains(x) implies rows_map(next)[x] == m[x] by {
        if x == k@ {
            lemma_row_of(next, i);
        } else {
            let j = row_of(rows, x);
            assert(rows[j].0@ == x);
            assert(next[j] == rows[j]);
            lemma_row_of(next, j);
            lemma_row_of(rows, j);
        }
    }
    assert(rows_map(next) =~= m);
}

impl<K: Key, V: View> View for Table<K, V> {
    type V = Map<K::V, V::V>;

    closed spec fn view(&self) -> Map<K::V, V::V> {
        rows_map(self.rows@)
    }
}

impl<K: Key, V: View> Table<K, V> {
    /// No key occurs in two rows.
    pub closed spec fn wf(&self) -> bool {
        distinct_keys(self.rows@)
    }

    pub fn new() -> (t: Self)
        ensures
            t.wf(),
            t@ == Map::<K::V, V::V>::empty(),
    {
        let t = Table { rows: Vec::new() };
        assert(t@ =~= Map::<K::V, V::V>::empty());
        t
    }

    /// The number of rows, which is the number of keys.
    pub fn len(&self) -> (n: usize)
        requires
            self.wf(),
        ensures
            n == self@.dom().len(),
            self@.dom().finite(),
    {
        proof {
            lemma_dom_len(self.rows@);
        }
        self.rows.len()
    }

    fn find(&self, k: &K) -> (r: Option<usize>)
        requires
            self.wf(),
        ensures
            match r {
                Some(i) => i < self.rows@.len() && self.rows@[i as int].0@ == k@,
                None => !has_row(self.rows@, k@),
            },
    {
        let mut i: usize = 0;
        while i < self.rows.len()
            invariant
                i <= self.rows@.len(),
                forall|j: int| 0 <= j < i ==> (#[trigger] self.rows@[j]).0@ != k@,
            decreases self.rows@.len() - i,
        {
            if self.rows[i].0.same(k) {
                return Some(i);
            }
            i += 1;
        }
        None
    }

    /// Whether the table holds a row for `k`.
    pub fn contains(&self, k: &K) -> (b: bool)
        requires
            self.wf(),
        ensures
            b == self@.dom().contains(k@),
    {
        self.find(k).is_some()
    }

    /// The row for `k`, if the table holds one.
    pub fn get(&self, k: &K) -> (r: Option<&V>)
        requires
            self.wf(),
        ensures
            match r {
                Some(v) => self@.dom().contains(k@) && v@ == self@[k@],
                None => !self@.dom().contains(k@),
            },
    {
        match self.find(k) {
            Some(i) => {
                proof {
                    lemma_row_of(self.rows@, i as int);
                }
                Some(&self.rows[i].1)
            },
            None => None,
        }
    }

    /// Writes the row for `k`, replacing the one that was there.
    pub fn put(&mut self, k: K, v: V)
        requires
            old(self).wf(),
        ensures
            final(self).wf(),
            final(self)@ == old(self)@.insert(k@, v@),
    {
        match self.find(&k) {
            Some(i) => {
                proof {
                    lemma_update(self.rows@, i as int, k, v);
                }
                self.rows.set(i, (k, v));
            },
            None => {
                proof {
                    lemma_push(self.rows@, k, v);
                }
                self.rows.push((k, v));
            },
        }
    }

    /// Writes the row for `k` unless the table already holds one; says whether it wrote.
    pub fn put_new(&mut self, k: K, v: V) -> (written: bool)
        requires
            old(self).wf(),
        ensures
            final(self).wf(),
            written == !old(self)@.dom().contains(k@),
            final(self)@ == if written {
                old(self)@.insert(k@, v@)
            } else {
                old(self)@
            },
    {
        match self.find(&k) {
            Some(_) => false,
            None => {
                proof {
                    lemma_push(self.rows@, k, v);
                }
                self.rows.push((k, v));
                true
            },
        }
    }
}

proof fn lemma_dom_len<K: Key, V: View>(rows: Seq<(K, V)>)
    requires
        distinct_keys(rows),
    ensures
        rows_map(rows).dom().finite(),
        rows_map(rows).dom().len() == rows.len(),
    decreases rows.len(),
{
    if rows.len() == 0 {
        assert(rows_map(rows).dom() =~= Set::<K::V>::empty());
    } else {
        let shorter = rows.drop_last();
        let last = rows.last();
        assert(rows =~= shorter.push(last));
        assert(distinct_keys(shorter)) by {
            assert forall|i: int, j: int| 0 <= i < j < shorter.len() implies (
            #[trigger] shorter[i]).0@ != (#[trigger] shorter[j]).0@ by {
                assert(rows[i].0@ != rows[j].0@);
            }
        }
        assert(!has_row(shorter, last.0@)) by {
            if has_row(shorter, last.0@) {
                let i = row_of(shorter, last.0@);
                assert(shorter[i].0@ == last.0@);
                assert(rows[i].0@ != rows[rows.len() - 1].0@);
            }
        }
        lemma_push(shorter, last.0, last.1);
        lemma_dom_len(shorter);
        assert(rows_map(rows).dom() =~= rows_map(shorter).dom().insert(last.0@));
    }
}

} // verus!
