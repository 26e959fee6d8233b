use vstd::prelude::*;

use crate::registry::{
    keys_unique, lemma_registry_absent, lemma_registry_domain, lemma_registry_lookup,
    lemma_registry_remove, registry, upsert, Keyed,
};

verus! {

/// A keyed record whose key can be tested at run time.
pub trait Lookup: Keyed {
    /// Whether the record is stored under `k`.
    fn has_key(&self, k: &Self::Key) -> (b: bool)
        ensures
            b == (self.key() == *k),
    ;
}

/// A condition on stored records, stated in specs and decided at run time.
pub trait Selector<T> {
    /// Whether `item` meets the condition.
    spec fn selects(&self, item: T) -> bool;

    /// Decides the condition for `item`.
    fn test(&self, item: &T) -> (b: bool)
        ensures
            b == self.selects(*item),
    ;
}

/// The rows of `rows` that a selector picks, in order.
pub open spec fn picked<T, S: Selector<T>>(rows: Seq<T>, s: S) -> Seq<T> {
    rows.filter(|t: T| s.selects(t))
}

/// The records that a list of references points to.
pub open spec fn pointed<T>(refs: Seq<&T>) -> Seq<T> {
    refs.map_values(|r: &T| *r)
}

/// `r` is the first row of `rows` that `s` selects, or `None` when it selects none.
pub open spec fn first_picked<T, S: Selector<T>>(rows: Seq<T>, s: S, r: Option<&T>) -> bool {
    match r {
        Some(x) => exists|i: int|
            0 <= i < rows.len() && rows[i] == *x && s.selects(*x) && forall|j: int|
                0 <= j < i ==> !s.selects(#[trigger] rows[j]),
        None => forall|i: int| 0 <= i < rows.len() ==> !s.selects(#[trigger] rows[i]),
    }
}

/// The first row of `rows` that `s` selects, if any.
pub fn find_row<'a, T, S: Selector<T>>(rows: &'a Vec<T>, s: &S) -> (r: Option<&'a T>)
    ensures
        first_picked(rows@, *s, r),
{
    let n = rows.len();
    let mut i: usize = 0;
    while i < n
        invariant
            n == rows@.len(),
            i <= n,
            forall|j: int| 0 <= j < i ==> !s.selects(#[trigger] rows@[j]),
        decreases n - i,
    {
        if s.test(&rows[i]) {
            return Some(&rows[i]);
        }
        i = i + 1;
    }
    None
}

/// The rows of `rows` that `s` selects, in order.
pub fn select_rows<'a, T, S: Selector<T>>(rows: &'a Vec<T>, s: &S) -> (r: Vec<&'a T>)
    ensures
        pointed(r@) == picked(rows@, *s),
{
    let mut r: Vec<&'a T> = Vec::new();
    let n = rows.len();
    let mut i: usize = 0;
    assert(pointed(r@) =~= picked(rows@.take(0), *s)) by {
        reveal(Seq::filter);
    }
    while i < n
        invariant
            n == rows@.len(),
            i <= n,
            pointed(r@) == picked(rows@.take(i as int), *s),
        decreases n - i,
    {
        let ghost pre = rows@.take(i as int);
        let ghost post = rows@.take(i as int + 1);
        assert(post.drop_last() =~= pre);
        assert(post.last() == rows@[i as int]);
        let item = &rows[i];
        if s.test(item) {
            let ghost before = r@;
            r.push(item);
            assert(pointed(r@) =~= pointed(before).push(*item));
            assert(picked(post, *s) == picked(pre, *s).push(*item)) by {
                reveal(Seq::filter);
            }
        } else {
            assert(picked(post, *s) == picked(pre, *s)) by {
                reveal(Seq::filter);
            }
        }
        i = i + 1;
    }
    assert(rows@.take(n as int) =~= rows@);
    r
}

/// The rows a selector picks are exactly the rows it selects: each picked row
/// is a selected row, and each selected row is picked.
pub proof fn law_picked_exactly<T, S: Selector<T>>(rows: Seq<T>, s: S)
    ensures
        forall|i: int|
            0 <= i < picked(rows, s).len() ==> s.selects(#[trigger] picked(rows, s)[i])
                && rows.contains(picked(rows, s)[i]),
        forall|i: int| 0 <= i < rows.len() && s.selects(#[trigger] rows[i]) ==> picked(rows, s).contains(rows[i]),
        picked(rows, s).len() <= rows.len(),
{
    broadcast use vstd::seq_lib::group_filter_ensures;
    assert forall|i: int| 0 <= i < picked(rows, s).len() implies s.selects(
        #[trigger] picked(rows, s)[i],
    ) && rows.contains(picked(rows, s)[i]) by {
        rows.lemma_filter_pred(|t: T| s.selects(t), i);
        rows.lemma_filter_contains_rev(|t: T| s.selects(t), picked(rows, s)[i]);
    }
    assert forall|i: int| 0 <= i < rows.len() && s.selects(#[trigger] rows[i]) implies picked(rows, s).contains(rows[i]) by {
        rows.lemma_filter_contains(|t: T| s.selects(t), i);
    }
}

/// Records stored by key, at most one per key, kept in the order in which each
/// key was first stored.
pub struct Table<T: Keyed> {
    rows: Vec<T>,
}

impl<T: Keyed> Table<T> {
    #[verifier::type_invariant]
    spec fn keys_distinct(self) -> bool {
        keys_unique(self.rows@)
    }

    /// The stored records, in the order in which their keys were first stored.
    pub closed spec fn rows(&self) -> Seq<T> {
        self.rows@
    }

    /// The stored records by key.
    pub open spec fn contents(&self) -> Map<T::Key, T::V> {
        registry(self.rows())
    }

    /// Every row is what the table holds under its key, and every key held has a row.
    pub open spec fn consistent(&self) -> bool {
        &&& keys_unique(self.rows())
        &&& forall|i: int|
            0 <= i < self.rows().len() ==> #[trigger] self.contents().contains_key(
                self.rows()[i].key(),
            ) && self.contents()[self.rows()[i].key()] == self.rows()[i]@
        &&& forall|k: T::Key| #[trigger]
            self.contents().contains_key(k) ==> exists|i: int|
                0 <= i < self.rows().len() && #[trigger] self.rows()[i].key() == k
    }

    /// An empty table.
    pub fn new() -> (t: Self)
        ensures
            t.rows() == Seq::<T>::empty(),
            t.contents() == Map::<T::Key, T::V>::empty(),
            t.consistent(),
    {
        let t = Table { rows: Vec::new() };
        assert(t.contents() =~= Map::<T::Key, T::V>::empty());
        t
    }

    proof fn lemma_consistent(&self)
        requires
            keys_unique(self.rows()),
        ensures
            self.consistent(),
    {
        assert forall|i: int| 0 <= i < self.rows().len() implies #[trigger] self.contents().contains_key(
            self.rows()[i].key(),
        ) && self.contents()[self.rows()[i].key()] == self.rows()[i]@ by {
            lemma_registry_lookup(self.rows(), i);
        }
        assert forall|k: T::Key| #[trigger]
            self.contents().contains_key(k) implies exists|i: int|
                0 <= i < self.rows().len() && #[trigger] self.rows()[i].key() == k by {
            lemma_registry_domain(self.rows(), k);
        }
    }

    /// Stores `item` under its key, replacing the record stored there before,
    /// which keeps its place; a new key goes last.
    pub fn put(&mut self, item: T)
        ensures
            final(self).contents() == old(self).contents().insert(item.key(), item@),
            final(self).consistent(),
            (exists|i: int|
                0 <= i < old(self).rows().len() && old(self).rows()[i].key() == item.key()
                    && final(self).rows() == old(self).rows().update(i, item)) || ((forall|i: int|
                0 <= i < old(self).rows().len() ==> old(self).rows()[i].key() != item.key())
                && final(self).rows() == old(self).rows().push(item)),
    {
        proof {
            use_type_invariant(&*self);
        }
        let mut rows: Vec<T> = Vec::new();
        std::mem::swap(&mut rows, &mut self.rows);
        upsert(&mut rows, item);
        self.rows = rows;
        proof {
            self.lemma_consistent();
        }
    }

    /// The first row that `s` selects, if any.
    pub fn find<S: Selector<T>>(&self, s: &S) -> (r: Option<&T>)
        ensures
            self.consistent(),
            first_picked(self.rows(), *s, r),
    {
        proof {
            use_type_invariant(self);
            self.lemma_consistent();
        }
        find_row(&self.rows, s)
    }

    /// Whether `s` selects some row.
    pub fn any<S: Selector<T>>(&self, s: &S) -> (b: bool)
        ensures
            self.consistent(),
            b == exists|i: int| 0 <= i < self.rows().len() && s.selects(#[trigger] self.rows()[i]),
    {
        match self.find(s) {
            Some(_) => true,
            None => false,
        }
    }

    /// The rows that `s` selects, in order.
    pub fn select<'a, S: Selector<T>>(&'a self, s: &S) -> (r: Vec<&'a T>)
        ensures
            self.consistent(),
            pointed(r@) == picked(self.rows(), *s),
    {
        proof {
            use_type_invariant(self);
            self.lemma_consistent();
        }
        select_rows(&self.rows, s)
    }

    /// Whether the table holds no record.
    pub fn is_empty(&self) -> (b: bool)
        ensures
            self.consistent(),
            b == (self.rows().len() == 0),
            b == (self.contents() == Map::<T::Key, T::V>::empty()),
    {
        proof {
            use_type_invariant(self);
            self.lemma_consistent();
            if self.rows@.len() == 0 {
                assert(self.contents() =~= Map::<T::Key, T::V>::empty());
            } else {
                assert(self.contents().contains_key(self.rows@[0].key()));
            }
        }
        self.rows.len() == 0
    }
}

impl<T: Lookup> Table<T> {
    /// The record stored under `k`, if any.
    pub fn get(&self, k: &T::Key) -> (r: Option<&T>)
        ensures
            self.consistent(),
            match r {
                Some(x) => self.contents().contains_key(*k) && self.contents()[*k] == x@ && x.key()
                    == *k,
                None => !self.contents().contains_key(*k),
            },
    {
        proof {
            use_type_invariant(self);
            self.lemma_consistent();
        }
        let n = self.rows.len();
        let mut i: usize = 0;
        while i < n
            invariant
                n == self.rows@.len(),
                i <= n,
                keys_unique(self.rows@),
                self.consistent(),
                forall|j: int| 0 <= j < i ==> #[trigger] self.rows@[j].key() != *k,
            decreases n - i,
        {
            if self.rows[i].has_key(k) {
                proof {
                    lemma_registry_lookup(self.rows@, i as int);
                }
                return Some(&self.rows[i]);
            }
            i = i + 1;
        }
        proof {
            lemma_registry_absent(self.rows@, *k);
        }
        None
    }

    /// Whether a record is stored under `k`.
    pub fn contains_key(&self, k: &T::Key) -> (b: bool)
        ensures
            self.consistent(),
            b == self.contents().contains_key(*k),
    {
        match self.get(k) {
            Some(_) => true,
            None => false,
        }
    }

    /// Removes the record stored under `k`, if any.
    pub fn remove(&mut self, k: &T::Key)
        ensures
            final(self).contents() == old(self).contents().remove(*k),
            final(self).consistent(),
            (exists|i: int|
                0 <= i < old(self).rows().len() && old(self).rows()[i].key() == *k
                    && final(self).rows() == old(self).rows().remove(i)) || ((forall|i: int|
                0 <= i < old(self).rows().len() ==> old(self).rows()[i].key() != *k)
                && final(self).rows() == old(self).rows()),
    {
        proof {
            use_type_invariant(&*self);
        }
        let mut rows: Vec<T> = Vec::new();
        std::mem::swap(&mut rows, &mut self.rows);
        let ghost before = rows@;
        let n = rows.len();
        let mut i: usize = 0;
        while i < n
            invariant
                n == rows@.len(),
                rows@ == before,
                old(self).rows@ == before,
                i <= n,
                keys_unique(before),
                forall|j: int| 0 <= j < i ==> #[trigger] before[j].key() != *k,
            decreases n - i,
        {
            if rows[i].has_key(k) {
                proof {
                    lemma_registry_remove(before, i as int);
                }
                rows.remove(i);
                self.rows = rows;
                proof {
                    self.lemma_consistent();
                }
                return ;
            }
            i = i + 1;
        }
        proof {
            lemma_registry_absent(before, *k);
            assert(registry(before).remove(*k) =~= registry(before));
        }
        self.rows = rows;
        proof {
            self.lemma_consistent();
        }
    }
}

} // verus!
