//! Cursors: ordered iteration over one database within one transaction.
//! A cursor borrows its transaction, so it cannot outlive it, and while
//! one is alive the transaction cannot be written to, committed or
//! aborted — reads through a cursor always see one working state.

use core::marker::PhantomData;
use vstd::prelude::*;

use crate::codec::FromBytes;
use crate::state::db_live;
use crate::table::Record;
use crate::txn::Transaction;

verus! {

/// A position in one database's key order, bound to one transaction and
/// one database. Freshly made it stands nowhere; the positioning calls
/// move it and answer the record they land on, in ascending key order.
#[verifier::reject_recursive_types(K)]
#[verifier::reject_recursive_types(V)]
pub struct Cursor<'t, K, V> {
    /// The transaction whose working state the cursor reads.
    pub txn: &'t Transaction,
    /// The slot of the database the cursor walks.
    pub dbi: u32,
    /// The current position in key order, once positioned.
    pub pos: Option<usize>,
    /// Ties the cursor to the key and value types it was opened with.
    pub marker: PhantomData<(K, V)>,
}

impl<'t, K: FromBytes, V: FromBytes> Cursor<'t, K, V> {
    /// The records the cursor walks, in ascending key order.
    pub open spec fn rows(self) -> Seq<Record> {
        self.txn.state.dbs@[self.dbi as int].table.rows_view()
    }

    /// Well-formed: the transaction is, the database is live, and any
    /// position is in range.
    pub open spec fn wf(self) -> bool {
        &&& self.txn.wf()
        &&& db_live(self.txn.model().cur, self.dbi as int)
        &&& match self.pos {
            Some(p) => (p as int) < self.rows().len(),
            None => true,
        }
    }

    /// Decodes the record at position `p`.
    fn pair_at(&self, p: usize) -> (r: (K, V))
        requires
            self.wf(),
            (p as int) < self.rows().len(),
        ensures
            r.0.byte_view() == self.rows()[p as int].key@,
            r.1.byte_view() == self.rows()[p as int].value@,
    {
        let table = &self.txn.state.dbs[self.dbi as usize].table;
        let k = K::from_byte_slice(table.key_at(p).as_slice());
        let v = V::from_byte_slice(table.value_at(p).as_slice());
        (k, v)
    }

    /// Moves to the first record in key order and answers it; an empty
    /// database leaves the cursor unpositioned and answers nothing.
    pub fn move_first(&mut self) -> (r: Option<(K, V)>)
        requires
            old(self).wf(),
        ensures
            final(self).wf(),
            final(self).txn == old(self).txn,
            final(self).dbi == old(self).dbi,
            match r {
                Some(kv) => old(self).rows().len() > 0 && final(self).pos == Some(0usize)
                    && kv.0.byte_view() == old(self).rows()[0].key@ && kv.1.byte_view() == old(
                    self,
                ).rows()[0].value@,
                None => old(self).rows().len() == 0 && final(self).pos is None,
            },
    {
        let table = &self.txn.state.dbs[self.dbi as usize].table;
        if table.len() == 0 {
            self.pos = None;
            return None;
        }
        self.pos = Some(0);
        Some(self.pair_at(0))
    }

    /// Moves to the last record in key order and answers it; an empty
    /// database leaves the cursor unpositioned and answers nothing.
    pub fn move_last(&mut self) -> (r: Option<(K, V)>)
        requires
            old(self).wf(),
        ensures
            final(self).wf(),
            final(self).txn == old(self).txn,
            final(self).dbi == old(self).dbi,
            match r {
                Some(kv) => old(self).rows().len() > 0 && final(self).pos == Some(
                    (old(self).rows().len() - 1) as usize,
                ) && kv.0.byte_view() == old(self).rows().last().key@ && kv.1.byte_view() == old(
                    self,
                ).rows().last().value@,
                None => old(self).rows().len() == 0 && final(self).pos is None,
            },
    {
        let table = &self.txn.state.dbs[self.dbi as usize].table;
        let n = table.len();
        if n == 0 {
            self.pos = None;
            return None;
        }
        self.pos = Some(n - 1);
        Some(self.pair_at(n - 1))
    }

    /// Moves one record forward in key order and answers it. From a fresh
    /// cursor this is the first record; at the end the cursor stays put
    /// and answers nothing.
    pub fn move_next(&mut self) -> (r: Option<(K, V)>)
        requires
            old(self).wf(),
        ensures
            final(self).wf(),
            final(self).txn == old(self).txn,
            final(self).dbi == old(self).dbi,
            match old(self).pos {
                None => match r {
                    Some(kv) => old(self).rows().len() > 0 && final(self).pos == Some(0usize)
                        && kv.0.byte_view() == old(self).rows()[0].key@ && kv.1.byte_view() == old(
                        self,
                    ).rows()[0].value@,
                    None => old(self).rows().len() == 0 && final(self).pos is None,
                },
                Some(p) => match r {
                    Some(kv) => (p + 1 as int) < old(self).rows().len() && final(self).pos == Some(
                        (p + 1) as usize,
                    ) && kv.0.byte_view() == old(self).rows()[p + 1 as int].key@ && kv.1.byte_view()
                        == old(self).rows()[p + 1 as int].value@,
                    None => (p + 1 as int) >= old(self).rows().len() && final(self).pos == Some(p),
                },
            },
    {
        match self.pos {
            None => self.move_first(),
            Some(p) => {
                let table = &self.txn.state.dbs[self.dbi as usize].table;
                let n = table.len();
                proof {
                    assert(p < n);
                }
                if p + 1 >= n {
                    return None;
                }
                self.pos = Some(p + 1);
                Some(self.pair_at(p + 1))
            },
        }
    }

    /// Moves one record backward in key order and answers it. From a
    /// fresh cursor this is the last record; at the start the cursor
    /// stays put and answers nothing.
    pub fn move_prev(&mut self) -> (r: Option<(K, V)>)
        requires
            old(self).wf(),
        ensures
            final(self).wf(),
            final(self).txn == old(self).txn,
            final(self).dbi == old(self).dbi,
            match old(self).pos {
                None => match r {
                    Some(kv) => old(self).rows().len() > 0 && final(self).pos == Some(
                        (old(self).rows().len() - 1) as usize,
                    ) && kv.0.byte_view() == old(self).rows().last().key@ && kv.1.byte_view()
                        == old(self).rows().last().value@,
                    None => old(self).rows().len() == 0 && final(self).pos is None,
                },
                Some(p) => match r {
                    Some(kv) => p >= 1 && final(self).pos == Some((p - 1) as usize)
                        && kv.0.byte_view() == old(self).rows()[p - 1 as int].key@
                        && kv.1.byte_view() == old(self).rows()[p - 1 as int].value@,
                    None => p == 0 && final(self).pos == Some(p),
                },
            },
    {
        match self.pos {
            None => self.move_last(),
            Some(p) => {
                if p == 0 {
                    return None;
                }
                self.pos = Some(p - 1);
                Some(self.pair_at(p - 1))
            },
        }
    }

    /// Positions the cursor on exactly `key` and answers the stored
    /// value; an absent key leaves the cursor where it was.
    pub fn seek(&mut self, key: &K) -> (r: Option<V>)
        requires
            old(self).wf(),
        ensures
            final(self).wf(),
            final(self).txn == old(self).txn,
            final(self).dbi == old(self).dbi,
            ({
                let t = old(self).txn.state.dbs@[old(self).dbi as int].table;
                match r {
                    Some(v) => t@.contains_key(key.byte_view()) && v.byte_view() == t@.index(
                        key.byte_view(),
                    ) && (final(self).pos matches Some(p) && (p as int) < old(self).rows().len()
                        && old(self).rows()[p as int].key@ == key.byte_view()),
                    None => final(self).pos == old(self).pos && !t@.contains_key(key.byte_view()),
                }
            }),
    {
        let table = &self.txn.state.dbs[self.dbi as usize].table;
        match table.find(key.to_byte_slice()) {
            Some(i) => {
                proof {
                    table.lemma_view_at(i as int);
                }
                self.pos = Some(i);
                let v = V::from_byte_slice(table.value_at(i).as_slice());
                Some(v)
            },
            None => None,
        }
    }

    /// The record the cursor stands on, if it is positioned.
    pub fn current(&self) -> (r: Option<(K, V)>)
        requires
            self.wf(),
        ensures
            match r {
                Some(kv) => self.pos matches Some(p) && kv.0.byte_view()
                    == self.rows()[p as int].key@ && kv.1.byte_view()
                    == self.rows()[p as int].value@,
                None => self.pos is None,
            },
    {
        match self.pos {
            None => None,
            Some(p) => Some(self.pair_at(p)),
        }
    }
}

} // verus!
