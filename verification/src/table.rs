//! One logical table: records kept in strictly ascending key order, viewed
//! in specifications as a finite map from byte keys to byte values.

use vstd::prelude::*;

use crate::bytecmp::bytes_eq;
use crate::bytecmp::bytes_lt;
use crate::bytecmp::lemma_lex_lt_connected;
use crate::bytecmp::lemma_lex_lt_irrefl;
use crate::bytecmp::lemma_lex_lt_trans;
use crate::bytecmp::lex_lt;

verus! {

/// One stored key/value pair.
#[derive(Debug)]
pub struct Record {
    pub key: Vec<u8>,
    pub value: Vec<u8>,
}

/// A named or default table's records, in strictly ascending key order.
#[derive(Debug)]
pub struct Table {
    pub rows: Vec<Record>,
}

impl Table {
    /// The records as a sequence, for order-sensitive reasoning.
    pub open spec fn rows_view(self) -> Seq<Record> {
        self.rows@
    }

    /// The keys in storage order (ascending when well-formed).
    pub open spec fn keys(self) -> Seq<Seq<u8>> {
        Seq::new(self.rows@.len(), |i: int| self.rows@[i].key@)
    }

    /// Well-formed: keys strictly ascending, hence unique.
    pub open spec fn wf(self) -> bool {
        forall|i: int, j: int|
            #![trigger self.rows@[i], self.rows@[j]]
            0 <= i < j < self.rows@.len() ==> lex_lt(self.rows@[i].key@, self.rows@[j].key@)
    }

    /// Whether some record holds this key.
    pub open spec fn has_key(self, k: Seq<u8>) -> bool {
        exists|i: int| 0 <= i < self.rows@.len() && self.rows@[i].key@ == k
    }

    /// The index of the record holding this key.
    pub open spec fn idx_of(self, k: Seq<u8>) -> int {
        choose|i: int| 0 <= i < self.rows@.len() && self.rows@[i].key@ == k
    }

    /// The value stored under this key.
    pub open spec fn value_for(self, k: Seq<u8>) -> Seq<u8> {
        self.rows@[self.idx_of(k)].value@
    }

    /// In a well-formed table, a key appears in at most one record.
    pub proof fn lemma_key_at_most_once(self, i: int, j: int)
        requires
            self.wf(),
            0 <= i < self.rows@.len(),
            0 <= j < self.rows@.len(),
            self.rows@[i].key@ == self.rows@[j].key@,
        ensures
            i == j,
    {
        if i < j || j < i {
            lemma_lex_lt_irrefl(self.rows@[i].key@);
        }
    }

    /// The record at index `i` is what the map view returns for its key.
    pub proof fn lemma_view_at(self, i: int)
        requires
            self.wf(),
            0 <= i < self.rows@.len(),
        ensures
            self@.contains_key(self.rows@[i].key@),
            self@[self.rows@[i].key@] == self.rows@[i].value@,
    {
        let k = self.rows@[i].key@;
        assert(self.has_key(k));
        self.lemma_key_at_most_once(i, self.idx_of(k));
    }
}

impl View for Table {
    type V = Map<Seq<u8>, Seq<u8>>;

    open spec fn view(&self) -> Map<Seq<u8>, Seq<u8>> {
        Map::new(|k: Seq<u8>| self.has_key(k), |k: Seq<u8>| self.value_for(k))
    }
}

impl Table {
    /// An empty table.
    pub fn new() -> (r: Table)
        ensures
            r.wf(),
            r@ =~= Map::<Seq<u8>, Seq<u8>>::empty(),
            r.rows_view().len() == 0,
    {
        Table { rows: Vec::new() }
    }

    /// How many records the table holds.
    pub fn len(&self) -> (r: usize)
        ensures
            r == self.rows_view().len(),
    {
        self.rows.len()
    }

    /// A borrow of the key at storage position `i`.
    pub fn key_at(&self, i: usize) -> (r: &Vec<u8>)
        requires
            i < self.rows_view().len(),
        ensures
            r@ == self.keys()[i as int],
    {
        &self.rows[i].key
    }

    /// A borrow of the value at storage position `i`.
    pub fn value_at(&self, i: usize) -> (r: &Vec<u8>)
        requires
            i < self.rows_view().len(),
        ensures
            r@ == self.rows_view()[i as int].value@,
    {
        &self.rows[i].value
    }

    /// The index of the record holding `key`, if any.
    pub fn find(&self, key: &[u8]) -> (r: Option<usize>)
        ensures
            match r {
                Some(i) => i < self.rows_view().len() && self.rows_view()[i as int].key@ == key@,
                None => !self.has_key(key@),
            },
    {
        let mut i: usize = 0;
        while i < self.rows.len()
            invariant
                i <= self.rows@.len(),
                forall|j: int| 0 <= j < i ==> self.rows@[j].key@ != key@,
            decreases self.rows@.len() - i,
        {
            if bytes_eq(self.rows[i].key.as_slice(), key) {
                return Some(i);
            }
            i = i + 1;
        }
        None
    }

    /// A borrow of the value stored under `key`, or nothing when the key
    /// is absent.
    pub fn get(&self, key: &[u8]) -> (r: Option<&Vec<u8>>)
        requires
            self.wf(),
        ensures
            match r {
                Some(v) => self@.contains_key(key@) && v@ == self@[key@],
                None => !self@.contains_key(key@),
            },
    {
        match self.find(key) {
            Some(i) => {
                proof {
                    self.lemma_view_at(i as int);
                }
                Some(&self.rows[i].value)
            },
            None => None,
        }
    }

    /// The first storage position whose key is not below `key`; the row
    /// count when every key is below it.
    fn find_slot(&self, key: &[u8]) -> (r: usize)
        requires
            self.wf(),
        ensures
            r <= self.rows_view().len(),
            forall|j: int| 0 <= j < r ==> lex_lt(#[trigger] self.rows_view()[j].key@, key@),
            r < self.rows_view().len() ==> !lex_lt(self.rows_view()[r as int].key@, key@),
    {
        let mut i: usize = 0;
        loop
            invariant
                self.wf(),
                i <= self.rows@.len(),
                forall|j: int| 0 <= j < i ==> lex_lt(#[trigger] self.rows@[j].key@, key@),
            decreases self.rows@.len() - i,
        {
            if i >= self.rows.len() {
                return i;
            }
            if !bytes_lt(self.rows[i].key.as_slice(), key) {
                return i;
            }
            i = i + 1;
        }
    }

    /// Stores `value` under `key`, replacing any earlier value.
    pub fn insert(&mut self, key: Vec<u8>, value: Vec<u8>) -> (grew: bool)
        requires
            old(self).wf(),
        ensures
            final(self).wf(),
            final(self)@ =~= old(self)@.insert(key@, value@),
            grew == !old(self).has_key(key@),
            final(self).rows_view().len() == old(self).rows_view().len() + (if grew {
                1int
            } else {
                0int
            }),
    {
        let ghost old_rows = self.rows@;
        let i = self.find_slot(key.as_slice());
        if i < self.rows.len() && bytes_eq(self.rows[i].key.as_slice(), key.as_slice()) {
            // replace in place: same keys, one new value
            let ghost k = key@;
            self.rows.remove(i);
            self.rows.insert(i, Record { key, value });
            proof {
                assert(self.rows@ =~= old_rows.update(i as int, self.rows@[i as int]));
                assert forall|a: int, b: int|
                    #![trigger self.rows@[a], self.rows@[b]]
                    0 <= a < b < self.rows@.len() implies lex_lt(
                    self.rows@[a].key@,
                    self.rows@[b].key@,
                ) by {
                    assert(self.rows@[a].key@ == old_rows[a].key@);
                    assert(self.rows@[b].key@ == old_rows[b].key@);
                }
                assert(old(self).has_key(k));
                assert forall|k2: Seq<u8>| true implies {
                    &&& self.has_key(k2) == old(self)@.insert(k, value@).contains_key(k2)
                    &&& (self.has_key(k2) ==> self.value_for(k2) == old(self)@.insert(
                        k,
                        value@,
                    )[k2])
                } by {
                    if k2 == k {
                        assert(self.rows@[i as int].key@ == k2);
                        assert(self.has_key(k2));
                        self.lemma_view_at(i as int);
                    } else {
                        if self.has_key(k2) {
                            let a = choose|a: int|
                                0 <= a < self.rows@.len() && self.rows@[a].key@ == k2;
                            assert(old_rows[a].key@ == k2);
                            assert(old(self).has_key(k2));
                            old(self).lemma_view_at(a);
                            self.lemma_view_at(a);
                        }
                        if old(self).has_key(k2) {
                            let a = choose|a: int|
                                0 <= a < old_rows.len() && old_rows[a].key@ == k2;
                            assert(self.rows@[a].key@ == k2);
                            assert(self.has_key(k2));
                        }
                    }
                }
                assert(self@ =~= old(self)@.insert(k, value@));
            }
            false
        } else {
            // fresh key: every earlier row is below it, every later row above
            let ghost k = key@;
            proof {
                if i < self.rows@.len() {
                    lemma_lex_lt_connected(self.rows@[i as int].key@, k);
                }
                assert forall|m: int| i <= m < self.rows@.len() implies lex_lt(
                    k,
                    #[trigger] self.rows@[m].key@,
                ) by {
                    if i < m {
                        lemma_lex_lt_trans(k, self.rows@[i as int].key@, self.rows@[m].key@);
                    }
                }
                assert forall|j: int| 0 <= j < old_rows.len() implies old_rows[j].key@ != k by {
                    if j < i {
                        lemma_lex_lt_irrefl(k);
                    } else {
                        lemma_lex_lt_irrefl(k);
                    }
                }
                assert(!old(self).has_key(k));
            }
            self.rows.insert(i, Record { key, value });
            proof {
                let rows = self.rows@;
                assert forall|a: int, b: int|
                    #![trigger rows[a], rows[b]]
                    0 <= a < b < rows.len() implies lex_lt(rows[a].key@, rows[b].key@) by {
                    if b < i as int {
                    } else if a > i as int {
                        assert(rows[a] == old_rows[a - 1]);
                        assert(rows[b] == old_rows[b - 1]);
                    } else if a == i as int {
                        assert(rows[b] == old_rows[b - 1]);
                    } else if b == i as int {
                        assert(rows[a] == old_rows[a]);
                    } else {
                        // a < i < b
                        assert(rows[a] == old_rows[a]);
                        assert(rows[b] == old_rows[b - 1]);
                        lemma_lex_lt_trans(rows[a].key@, k, rows[b].key@);
                    }
                }
                assert(self.wf());
                assert forall|k2: Seq<u8>| true implies {
                    &&& self.has_key(k2) == old(self)@.insert(k, value@).contains_key(k2)
                    &&& (self.has_key(k2) ==> self.value_for(k2) == old(self)@.insert(
                        k,
                        value@,
                    )[k2])
                } by {
                    if k2 == k {
                        assert(rows[i as int].key@ == k2);
                        assert(self.has_key(k2));
                        self.lemma_view_at(i as int);
                    } else {
                        if self.has_key(k2) {
                            let a = choose|a: int| 0 <= a < rows.len() && rows[a].key@ == k2;
                            let b: int = if a < i as int {
                                a
                            } else {
                                a - 1
                            };
                            assert(old_rows[b].key@ == k2);
                            assert(old(self).has_key(k2));
                            old(self).lemma_view_at(b);
                            self.lemma_view_at(a);
                        }
                        if old(self).has_key(k2) {
                            let b = choose|b: int|
                                0 <= b < old_rows.len() && old_rows[b].key@ == k2;
                            let a: int = if b < i as int {
                                b
                            } else {
                                b + 1
                            };
                            assert(rows[a].key@ == k2);
                            assert(self.has_key(k2));
                        }
                    }
                }
                assert(self@ =~= old(self)@.insert(k, value@));
            }
            true
        }
    }

    /// Removes the record holding `key`; says whether one was there.
    pub fn remove(&mut self, key: &[u8]) -> (r: bool)
        requires
            old(self).wf(),
        ensures
            final(self).wf(),
            r == old(self)@.contains_key(key@),
            final(self)@ =~= old(self)@.remove(key@),
            final(self).rows_view().len() == old(self).rows_view().len() - (if r {
                1int
            } else {
                0int
            }),
    {
        let ghost old_rows = self.rows@;
        match self.find(key) {
            Some(i) => {
                proof {
                    self.lemma_view_at(i as int);
                }
                self.rows.remove(i);
                proof {
                    let rows = self.rows@;
                    assert forall|a: int, b: int|
                        #![trigger rows[a], rows[b]]
                        0 <= a < b < rows.len() implies lex_lt(rows[a].key@, rows[b].key@) by {
                        let a0: int = if a < i as int {
                            a
                        } else {
                            a + 1
                        };
                        let b0: int = if b < i as int {
                            b
                        } else {
                            b + 1
                        };
                        assert(rows[a] == old_rows[a0]);
                        assert(rows[b] == old_rows[b0]);
                    }
                    assert(self.wf());
                    assert forall|k2: Seq<u8>| true implies {
                        &&& self.has_key(k2) == old(self)@.remove(key@).contains_key(k2)
                        &&& (self.has_key(k2) ==> self.value_for(k2) == old(self)@.remove(
                            key@,
                        )[k2])
                    } by {
                        if self.has_key(k2) {
                            let a = choose|a: int| 0 <= a < rows.len() && rows[a].key@ == k2;
                            let a0: int = if a < i as int {
                                a
                            } else {
                                a + 1
                            };
                            assert(old_rows[a0].key@ == k2);
                            assert(old(self).has_key(k2));
                            if k2 == key@ {
                                old(self).lemma_key_at_most_once(a0, i as int);
                            }
                            old(self).lemma_view_at(a0);
                            self.lemma_view_at(a);
                        }
                        if old(self).has_key(k2) && k2 != key@ {
                            let b = choose|b: int|
                                0 <= b < old_rows.len() && old_rows[b].key@ == k2;
                            assert(b != i as int);
                            let a: int = if b < i as int {
                                b
                            } else {
                                b - 1
                            };
                            assert(rows[a].key@ == k2);
                            assert(self.has_key(k2));
                        }
                    }
                    assert(self@ =~= old(self)@.remove(key@));
                }
                true
            },
            None => {
                proof {
                    assert(!old(self)@.contains_key(key@));
                    assert(self@ =~= old(self)@.remove(key@));
                }
                false
            },
        }
    }

    /// Whether every stored key is strictly below `key` — the condition for
    /// an in-order append.
    pub fn all_keys_below(&self, key: &[u8]) -> (r: bool)
        requires
            self.wf(),
        ensures
            r == forall|j: int|
                0 <= j < self.rows_view().len() ==> lex_lt(
                    #[trigger] self.rows_view()[j].key@,
                    key@,
                ),
    {
        let n = self.rows.len();
        if n == 0 {
            return true;
        }
        let r = bytes_lt(self.rows[n - 1].key.as_slice(), key);
        proof {
            if r {
                assert forall|j: int| 0 <= j < self.rows@.len() implies lex_lt(
                    #[trigger] self.rows@[j].key@,
                    key@,
                ) by {
                    if j < n - 1 {
                        lemma_lex_lt_trans(self.rows@[j].key@, self.rows@[n - 1].key@, key@);
                    }
                }
            } else {
                assert(!lex_lt(self.rows_view()[n - 1].key@, key@));
            }
        }
        r
    }

    /// A record-for-record copy of the table.
    pub fn clone_table(&self) -> (r: Table)
        requires
            self.wf(),
        ensures
            r.rows_view().len() == self.rows_view().len(),
            forall|i: int|
                0 <= i < self.rows_view().len() ==> #[trigger] r.rows_view()[i].key@
                    == self.rows_view()[i].key@ && r.rows_view()[i].value@
                    == self.rows_view()[i].value@,
            r.wf(),
            r@ == self@,
            r.keys() =~= self.keys(),
    {
        let mut rows: Vec<Record> = Vec::new();
        let mut i: usize = 0;
        while i < self.rows.len()
            invariant
                i <= self.rows@.len(),
                rows@.len() == i,
                forall|j: int|
                    0 <= j < i ==> #[trigger] rows@[j].key@ == self.rows@[j].key@
                        && rows@[j].value@ == self.rows@[j].value@,
            decreases self.rows@.len() - i,
        {
            let kc = self.rows[i].key.clone();
            let vc = self.rows[i].value.clone();
            proof {
                assert(kc@ =~= self.rows@[i as int].key@);
                assert(vc@ =~= self.rows@[i as int].value@);
            }
            rows.push(Record { key: kc, value: vc });
            i = i + 1;
        }
        let r = Table { rows };
        proof {
            assert forall|a: int, b: int|
                #![trigger r.rows@[a], r.rows@[b]]
                0 <= a < b < r.rows@.len() implies lex_lt(r.rows@[a].key@, r.rows@[b].key@) by {
                assert(r.rows@[a].key@ == self.rows@[a].key@);
                assert(r.rows@[b].key@ == self.rows@[b].key@);
            }
            assert(r.wf());
            assert forall|k2: Seq<u8>| true implies {
                &&& r.has_key(k2) == self.has_key(k2)
                &&& (r.has_key(k2) ==> r.value_for(k2) == self.value_for(k2))
            } by {
                if r.has_key(k2) {
                    let a = choose|a: int| 0 <= a < r.rows@.len() && r.rows@[a].key@ == k2;
                    assert(self.rows@[a].key@ == k2);
                    assert(self.has_key(k2));
                    r.lemma_key_at_most_once(a, r.idx_of(k2));
                    self.lemma_key_at_most_once(a, self.idx_of(k2));
                    assert(r.rows@[a].value@ == self.rows@[a].value@);
                }
                if self.has_key(k2) {
                    let a = choose|a: int| 0 <= a < self.rows@.len() && self.rows@[a].key@ == k2;
                    assert(r.rows@[a].key@ == k2);
                    assert(r.has_key(k2));
                }
            }
            assert(r@ =~= self@);
        }
        r
    }
}

} // verus!
