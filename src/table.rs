use vstd::prelude::*;
use crate::types::StoreError;

verus! {

/// A row that is addressed by a string primary key.
pub trait Keyed: Sized {
    /// The row's primary key.
    spec fn key(&self) -> Seq<char>;

    fn key_ref(&self) -> (r: &String)
        ensures
            r@ == self.key(),
    ;
}

/// A table with at most one row per primary key.
///
/// Its meaning is a map from key to row; rows are kept in insertion order.
#[derive(Clone)]
pub struct Table<R> {
    rows: Vec<R>,
    index: Ghost<Map<Seq<char>, R>>,
}

impl<R: Keyed> Table<R> {
    /// The table's contents, by primary key.
    pub closed spec fn view(&self) -> Map<Seq<char>, R> {
        self.index@
    }

    /// The stored rows, in insertion order.
    pub closed spec fn rows(&self) -> Seq<R> {
        self.rows@
    }

    pub closed spec fn wf(&self) -> bool {
        &&& forall|i: int|
            0 <= i < self.rows@.len() ==> #[trigger] self.index@.contains_key(self.rows@[i].key())
                && self.index@[self.rows@[i].key()] == self.rows@[i]
        &&& forall|k: Seq<char>|
            #[trigger] self.index@.contains_key(k) ==> exists|i: int|
                0 <= i < self.rows@.len() && #[trigger] self.rows@[i].key() == k
        &&& forall|i: int, j: int|
            0 <= i < self.rows@.len() && 0 <= j < self.rows@.len() && i != j
                ==> #[trigger] self.rows@[i].key() != #[trigger] self.rows@[j].key()
    }

    /// Every stored row is in the map under its own key, and every key of the
    /// map is the key of a stored row.
    pub proof fn lemma_rows_match_view(&self)
        requires
            self.wf(),
        ensures
            forall|i: int|
                0 <= i < self.rows().len() ==> #[trigger] self@.contains_key(self.rows()[i].key())
                    && self@[self.rows()[i].key()] == self.rows()[i],
            forall|k: Seq<char>|
                #[trigger] self@.contains_key(k) ==> exists|i: int|
                    0 <= i < self.rows().len() && #[trigger] self.rows()[i].key() == k,
            forall|k: Seq<char>| #[trigger] self@.contains_key(k) ==> self@[k].key() == k,
    {
        assert forall|i: int| 0 <= i < self.rows().len() implies #[trigger] self@.contains_key(self.rows()[i].key())
            && self@[self.rows()[i].key()] == self.rows()[i] by {
            assert(self.index@.contains_key(self.rows@[i].key()));
        }
        assert forall|k: Seq<char>| #[trigger] self@.contains_key(k) implies exists|i: int|
            0 <= i < self.rows().len() && #[trigger] self.rows()[i].key() == k by {
            let i = choose|i: int| 0 <= i < self.rows@.len() && #[trigger] self.rows@[i].key() == k;
            assert(self.rows()[i].key() == k);
        }
    }

    pub fn new() -> (r: Self)
        ensures
            r.wf(),
            r@ == Map::<Seq<char>, R>::empty(),
    {
        Table { rows: Vec::new(), index: Ghost(Map::empty()) }
    }

    pub fn len(&self) -> (r: usize)
        ensures
            r == self.rows().len(),
    {
        self.rows.len()
    }

    /// The row stored at position `i`.
    pub fn row_at(&self, i: usize) -> (r: &R)
        requires
            i < self.rows().len(),
        ensures
            *r == self.rows()[i as int],
    {
        &self.rows[i]
    }

    fn find_index(&self, key: &String) -> (r: Option<usize>)
        requires
            self.wf(),
        ensures
            match r {
                Some(i) => i < self.rows@.len() && self.rows@[i as int].key() == key@,
                None => !self@.contains_key(key@),
            },
    {
        let mut i: usize = 0;
        while i < self.rows.len()
            invariant
                self.wf(),
                i <= self.rows@.len(),
                forall|j: int| 0 <= j < i ==> #[trigger] self.rows@[j].key() != key@,
            decreases self.rows@.len() - i,
        {
            if *self.rows[i].key_ref() == *key {
                return Some(i);
            }
            i += 1;
        }
        None
    }

    /// Whether a row with this primary key is stored.
    pub fn contains(&self, key: &String) -> (r: bool)
        requires
            self.wf(),
        ensures
            r == self@.contains_key(key@),
    {
        match self.find_index(key) {
            Some(_) => true,
            None => false,
        }
    }

    /// Point lookup by primary key.
    pub fn get_by_primary_key(&self, key: &String) -> (r: Option<&R>)
        requires
            self.wf(),
        ensures
            match r {
                Some(row) => self@.contains_key(key@) && *row == self@[key@],
                None => !self@.contains_key(key@),
            },
    {
        match self.find_index(key) {
            Some(i) => {
                assert(self@.contains_key(self.rows@[i as int].key()));
                Some(&self.rows[i])
            },
            None => None,
        }
    }

    /// Adds `row` under its key, or refuses with `DuplicateKey` and leaves the
    /// table unchanged when that key is taken.
    pub fn insert(&mut self, row: R) -> (r: Result<(), StoreError>)
        requires
            old(self).wf(),
        ensures
            final(self).wf(),
            match r {
                Ok(()) => !old(self)@.contains_key(row.key())
                    && final(self)@ == old(self)@.insert(row.key(), row),
                Err(e) => old(self)@.contains_key(row.key())
                    && e.is_duplicate_of(row.key())
                    && *final(self) == *old(self),
            },
    {
        match self.find_index(row.key_ref()) {
            Some(_) => Err(StoreError::DuplicateKey(row.key_ref().clone())),
            None => {
                let ghost k = row.key();
                let ghost old_rows = self.rows@;
                self.index = Ghost(self.index@.insert(k, row));
                self.rows.push(row);
                proof {
                    assert(self.rows@ == old_rows.push(row));
                    assert forall|i: int| 0 <= i < old_rows.len() implies old_rows[i].key() != k by {
                        assert(old(self).index@.contains_key(old_rows[i].key()));
                    }
                    assert forall|kk: Seq<char>| #[trigger] self.index@.contains_key(kk) implies
                        exists|j: int| 0 <= j < self.rows@.len() && #[trigger] self.rows@[j].key() == kk
                    by {
                        if kk != k {
                            let j = choose|j: int| 0 <= j < old_rows.len() && #[trigger] old_rows[j].key() == kk;
                            assert(self.rows@[j].key() == kk);
                        } else {
                            assert(self.rows@[old_rows.len() as int].key() == kk);
                        }
                    }
                }
                Ok(())
            }
        }
    }

    /// Replaces the stored row that has `row`'s key, or refuses with `NotFound`
    /// and leaves the table unchanged when there is none.
    pub fn update_by_primary_key(&mut self, row: R) -> (r: Result<(), StoreError>)
        requires
            old(self).wf(),
        ensures
            final(self).wf(),
            match r {
                Ok(()) => old(self)@.contains_key(row.key())
                    && final(self)@ == old(self)@.insert(row.key(), row),
                Err(e) => !old(self)@.contains_key(row.key())
                    && e.is_not_found_of(row.key())
                    && *final(self) == *old(self),
            },
    {
        match self.find_index(row.key_ref()) {
            None => Err(StoreError::NotFound(row.key_ref().clone())),
            Some(i) => {
                let ghost k = row.key();
                let ghost old_rows = self.rows@;
                self.index = Ghost(self.index@.insert(k, row));
                self.rows[i] = row;
                proof {
                    assert(self.rows@ == old_rows.update(i as int, row));
                    assert forall|kk: Seq<char>| #[trigger] self.index@.contains_key(kk) implies
                        exists|j: int| 0 <= j < self.rows@.len() && #[trigger] self.rows@[j].key() == kk
                    by {
                        if kk != k {
                            let j = choose|j: int| 0 <= j < old_rows.len() && #[trigger] old_rows[j].key() == kk;
                            assert(self.rows@[j].key() == kk);
                        } else {
                            assert(self.rows@[i as int].key() == kk);
                        }
                    }
                }
                Ok(())
            }
        }
    }
}

} // verus!
