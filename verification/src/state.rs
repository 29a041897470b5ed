//! The stored state of one environment — a vector of database slots, each
//! holding a table — together with its ghost model and the transition
//! functions that every operation's contract is stated against.
//!
//! Slot 0 is the default table, created when the environment is opened.
//! A named database keeps its slot for the life of the environment; a
//! dropped one is marked dead rather than removed, so identifiers stay
//! stable and a stale handle is refused rather than misread.

use vstd::prelude::*;

use crate::bytecmp::bytes_eq;
use crate::bytecmp::lex_lt;
use crate::db::DBFlags;
use crate::error::ENGINE_EACCES;
use crate::error::LMDBError;
use crate::error::MDBError;
use crate::table::Table;
use vstd::utf8::encode_utf8;
use vstd::utf8::encode_utf8_decode_utf8;

verus! {

/// The largest key the engine accepts, in bytes.
pub const MDB_MAXKEYSIZE: usize = 511;

/// The most database slots an environment can hold, so that every slot
/// number fits the engine's numeric identifier type.
pub const MAX_DB_SLOTS: usize = 0xFFFF_FFFF;

/// The ghost model of one database slot.
pub ghost struct DbModel {
    /// The name the database was created under; the default table has none.
    pub name: Option<Seq<char>>,
    /// The persistent options recorded at creation.
    pub flags: DBFlags,
    /// Whether the slot is still open; a dropped database leaves a dead slot.
    pub live: bool,
    /// The stored records.
    pub records: Map<Seq<u8>, Seq<u8>>,
}

/// One database slot as stored.
#[derive(Debug)]
pub struct Db {
    /// The name the database was created under; the default table has none.
    pub name: Option<String>,
    /// The persistent options recorded at creation.
    pub flags: DBFlags,
    /// Whether the slot is still open.
    pub live: bool,
    /// The stored records.
    pub table: Table,
}

impl Db {
    /// The slot's ghost model.
    pub open spec fn model(self) -> DbModel {
        DbModel {
            name: match self.name {
                Some(s) => Some(s@),
                None => None,
            },
            flags: self.flags,
            live: self.live,
            records: self.table@,
        }
    }
}

/// The whole stored state of one environment.
#[derive(Debug)]
pub struct EnvState {
    /// The database slots; the slot index is the engine's identifier.
    pub dbs: Vec<Db>,
}

/// Whether a slot number names a live database in the model.
pub open spec fn db_live(m: Seq<DbModel>, dbi: int) -> bool {
    0 <= dbi < m.len() && m[dbi].live
}

/// What a lookup of `k` in slot `dbi` returns.
pub open spec fn model_get(m: Seq<DbModel>, dbi: int, k: Seq<u8>) -> Option<Seq<u8>> {
    if m[dbi].records.contains_key(k) {
        Some(m[dbi].records[k])
    } else {
        None
    }
}

/// The model after storing `v` under `k` in slot `dbi`.
pub open spec fn model_put(m: Seq<DbModel>, dbi: int, k: Seq<u8>, v: Seq<u8>) -> Seq<DbModel> {
    m.update(dbi, DbModel { records: m[dbi].records.insert(k, v), ..m[dbi] })
}

/// The model after removing `k` from slot `dbi`.
pub open spec fn model_del(m: Seq<DbModel>, dbi: int, k: Seq<u8>) -> Seq<DbModel> {
    m.update(dbi, DbModel { records: m[dbi].records.remove(k), ..m[dbi] })
}

/// The model after emptying slot `dbi` without closing it.
pub open spec fn model_clear(m: Seq<DbModel>, dbi: int) -> Seq<DbModel> {
    m.update(dbi, DbModel { records: Map::empty(), ..m[dbi] })
}

/// The model after dropping slot `dbi`: dead and empty.
pub open spec fn model_kill(m: Seq<DbModel>, dbi: int) -> Seq<DbModel> {
    m.update(dbi, DbModel { live: false, records: Map::empty(), ..m[dbi] })
}

/// Whether some live slot carries this name.
pub open spec fn has_named(m: Seq<DbModel>, name: Option<Seq<char>>) -> bool {
    exists|i: int| 0 <= i < m.len() && m[i].live && m[i].name == name
}

/// The live slot carrying this name.
pub open spec fn slot_of(m: Seq<DbModel>, name: Option<Seq<char>>) -> int {
    choose|i: int| 0 <= i < m.len() && m[i].live && m[i].name == name
}

/// No two live slots carry one name.
pub open spec fn names_unique(m: Seq<DbModel>) -> bool {
    forall|i: int, j: int|
        #![trigger m[i], m[j]]
        0 <= i < j < m.len() && m[i].live && m[j].live ==> m[i].name != m[j].name
}

/// A database name, or a path, is representable when its UTF-8 bytes hold
/// no embedded NUL; the default table's absent name always is.
pub open spec fn valid_name(name: Option<Seq<char>>) -> bool {
    match name {
        Some(s) => !encode_utf8(s).contains(0u8),
        None => true,
    }
}

/// Whether a key's size is one the engine accepts.
pub open spec fn key_size_ok(k: Seq<u8>) -> bool {
    1 <= k.len() <= MDB_MAXKEYSIZE
}

/// The model of a freshly opened environment: one live, empty, unnamed
/// default table.
pub open spec fn initial_model() -> Seq<DbModel> {
    seq![
        DbModel {
            name: None,
            flags: DBFlags::spec_empty(),
            live: true,
            records: Map::empty(),
        },
    ]
}

/// What resolving or creating a database does: an invalid name is refused
/// before anything else; a live database under the same name is shared when
/// the persistent options match and refused as incompatible when they do
/// not; an absent one is an error without the create option, is refused in
/// a read-only transaction with it, and is otherwise created in a fresh
/// slot — unless the slot budget is spent.
pub open spec fn spec_open_db(
    read_only: bool,
    m: Seq<DbModel>,
    name: Option<Seq<char>>,
    flags: DBFlags,
    max_dbs: usize,
) -> Result<(Seq<DbModel>, int), LMDBError> {
    if !valid_name(name) {
        Err(LMDBError::InvalidInput)
    } else if has_named(m, name) {
        if m[slot_of(m, name)].flags == flags.spec_persistent() {
            Ok((m, slot_of(m, name)))
        } else {
            Err(LMDBError::MDB(MDBError::Incompatible))
        }
    } else if !flags.create {
        Err(LMDBError::MDB(MDBError::NotFound))
    } else if read_only {
        Err(LMDBError::Io(ENGINE_EACCES))
    } else if m.len() - 1 >= max_dbs || m.len() >= MAX_DB_SLOTS {
        Err(LMDBError::MDB(MDBError::DbsFull))
    } else {
        Ok(
            (
                m.push(
                    DbModel {
                        name,
                        flags: flags.spec_persistent(),
                        live: true,
                        records: Map::empty(),
                    },
                ),
                m.len() as int,
            ),
        )
    }
}

/// What dropping a database does: the default table is emptied but stays
/// open; a named one is emptied and its slot closed for good.
pub open spec fn spec_drop_db(
    read_only: bool,
    m: Seq<DbModel>,
    name: Option<Seq<char>>,
) -> Result<Seq<DbModel>, LMDBError> {
    if !valid_name(name) {
        Err(LMDBError::InvalidInput)
    } else if read_only {
        Err(LMDBError::Io(ENGINE_EACCES))
    } else if !has_named(m, name) {
        Err(LMDBError::MDB(MDBError::NotFound))
    } else if name is None {
        Ok(model_clear(m, 0))
    } else {
        Ok(model_kill(m, slot_of(m, name)))
    }
}

/// The name view of an optional borrowed name.
pub open spec fn opt_name_view(name: Option<&str>) -> Option<Seq<char>> {
    match name {
        Some(s) => Some(s@),
        None => None,
    }
}

impl EnvState {
    /// The state's ghost model, slot by slot.
    pub open spec fn model(self) -> Seq<DbModel> {
        Seq::new(self.dbs@.len(), |i: int| self.dbs@[i].model())
    }

    /// Well-formed: at least the default table, which is live and unnamed;
    /// named slots above it; sorted tables; no two live slots sharing a
    /// name; and a slot count that fits the identifier type.
    pub open spec fn wf(self) -> bool {
        &&& 1 <= self.dbs@.len() <= MAX_DB_SLOTS
        &&& self.dbs@[0].name is None
        &&& self.dbs@[0].live
        &&& forall|i: int| 1 <= i < self.dbs@.len() ==> (#[trigger] self.dbs@[i]).name is Some
        &&& forall|i: int| 0 <= i < self.dbs@.len() ==> (#[trigger] self.dbs@[i]).table.wf()
        &&& forall|i: int, j: int|
            #![trigger self.dbs@[i], self.dbs@[j]]
            0 <= i < j < self.dbs@.len() && self.dbs@[i].live && self.dbs@[j].live
                ==> self.dbs@[i].model().name != self.dbs@[j].model().name
    }

    /// Two live slots carrying one name are one slot.
    pub proof fn lemma_live_name_unique(self, i: int, j: int)
        requires
            self.wf(),
            0 <= i < self.model().len(),
            0 <= j < self.model().len(),
            self.model()[i].live,
            self.model()[j].live,
            self.model()[i].name == self.model()[j].name,
        ensures
            i == j,
    {
    }

    /// A freshly opened environment's state.
    pub fn initial() -> (r: EnvState)
        ensures
            r.wf(),
            r.model() =~= initial_model(),
    {
        let mut dbs: Vec<Db> = Vec::new();
        dbs.push(Db { name: None, flags: DBFlags::empty(), live: true, table: Table::new() });
        EnvState { dbs }
    }

    /// A slot-for-slot copy, for a transaction's working snapshot.
    pub fn clone_state(&self) -> (r: EnvState)
        requires
            self.wf(),
        ensures
            r.wf(),
            r.model() =~= self.model(),
    {
        let mut dbs: Vec<Db> = Vec::new();
        let mut i: usize = 0;
        while i < self.dbs.len()
            invariant
                self.wf(),
                i <= self.dbs@.len(),
                dbs@.len() == i,
                forall|j: int| 0 <= j < i ==> (#[trigger] dbs@[j]).model() == self.dbs@[j].model(),
                forall|j: int| 0 <= j < i ==> (#[trigger] dbs@[j]).table.wf(),
            decreases self.dbs@.len() - i,
        {
            let src = &self.dbs[i];
            let name: Option<String> = match &src.name {
                Some(s) => Some(s.clone()),
                None => None,
            };
            let copy = Db { name, flags: src.flags, live: src.live, table: src.table.clone_table() };
            proof {
                assert(copy.model() == self.dbs@[i as int].model());
            }
            dbs.push(copy);
            i = i + 1;
        }
        let r = EnvState { dbs };
        proof {
            assert forall|a: int, b: int|
                #![trigger r.dbs@[a], r.dbs@[b]]
                0 <= a < b < r.dbs@.len() && r.dbs@[a].live && r.dbs@[b].live implies r.dbs@[a].model().name
                != r.dbs@[b].model().name by {
                assert(r.dbs@[a].model() == self.dbs@[a].model());
                assert(r.dbs@[b].model() == self.dbs@[b].model());
            }
            assert(r.wf());
            assert(r.model() =~= self.model());
        }
        r
    }

    /// The live slot carrying `name`, if any.
    pub fn find_name(&self, name: Option<&str>) -> (r: Option<u32>)
        requires
            self.wf(),
        ensures
            match r {
                Some(i) => db_live(self.model(), i as int) && self.model()[i as int].name
                    == opt_name_view(name) && i as int == slot_of(self.model(), opt_name_view(name)),
                None => !has_named(self.model(), opt_name_view(name)),
            },
    {
        let ghost target = opt_name_view(name);
        let mut i: usize = 0;
        while i < self.dbs.len()
            invariant
                self.wf(),
                i <= self.dbs@.len(),
                target == opt_name_view(name),
                forall|j: int|
                    0 <= j < i ==> !((#[trigger] self.model()[j]).live && self.model()[j].name
                        == target),
            decreases self.dbs@.len() - i,
        {
            if self.dbs[i].live {
                let matched: bool = match (&self.dbs[i].name, &name) {
                    (None, None) => true,
                    (Some(s), Some(g)) => {
                        let eq = bytes_eq(s.as_str().as_bytes(), g.as_bytes());
                        proof {
                            if eq {
                                encode_utf8_decode_utf8(s@);
                                encode_utf8_decode_utf8(g@);
                            }
                        }
                        eq
                    },
                    _ => false,
                };
                if matched {
                    proof {
                        assert(self.model()[i as int].live && self.model()[i as int].name
                            == target);
                        assert(has_named(self.model(), target));
                        self.lemma_live_name_unique(i as int, slot_of(self.model(), target));
                    }
                    return Some(i as u32);
                }
            }
            i = i + 1;
        }
        proof {
            assert forall|j: int|
                0 <= j < self.model().len() implies !((#[trigger] self.model()[j]).live
                && self.model()[j].name == target) by {}
        }
        None
    }

    /// A borrow of the value under `key` in slot `dbi`, if any.
    pub fn read(&self, dbi: u32, key: &[u8]) -> (r: Option<&Vec<u8>>)
        requires
            self.wf(),
            db_live(self.model(), dbi as int),
        ensures
            match r {
                Some(v) => model_get(self.model(), dbi as int, key@) == Some(v@),
                None => model_get(self.model(), dbi as int, key@) is None,
            },
    {
        self.dbs[dbi as usize].table.get(key)
    }

    /// Stores `value` under `key` in slot `dbi`.
    pub fn write(&mut self, dbi: u32, key: Vec<u8>, value: Vec<u8>)
        requires
            old(self).wf(),
            db_live(old(self).model(), dbi as int),
        ensures
            final(self).wf(),
            final(self).model() =~= model_put(old(self).model(), dbi as int, key@, value@),
    {
        let ghost k = key@;
        let ghost v = value@;
        let i = dbi as usize;
        let mut db = self.dbs.remove(i);
        db.table.insert(key, value);
        self.dbs.insert(i, db);
        proof {
            assert(self.dbs@ =~= old(self).dbs@.update(i as int, self.dbs@[i as int]));
            assert(self.dbs@[i as int].model() == DbModel {
                records: old(self).model()[i as int].records.insert(k, v),
                ..old(self).model()[i as int]
            });
            assert(self.wf());
            assert(self.model() =~= model_put(old(self).model(), dbi as int, k, v));
        }
    }

    /// Removes `key` from slot `dbi`; says whether a record was there.
    pub fn erase(&mut self, dbi: u32, key: &[u8]) -> (r: bool)
        requires
            old(self).wf(),
            db_live(old(self).model(), dbi as int),
        ensures
            final(self).wf(),
            r == old(self).model()[dbi as int].records.contains_key(key@),
            final(self).model() =~= model_del(old(self).model(), dbi as int, key@),
    {
        let i = dbi as usize;
        let mut db = self.dbs.remove(i);
        let r = db.table.remove(key);
        self.dbs.insert(i, db);
        proof {
            assert(self.dbs@ =~= old(self).dbs@.update(i as int, self.dbs@[i as int]));
            assert(self.wf());
            assert(self.model() =~= model_del(old(self).model(), dbi as int, key@));
        }
        r
    }

    /// Whether every key in slot `dbi` is strictly below `key`.
    pub fn append_ok(&self, dbi: u32, key: &[u8]) -> (r: bool)
        requires
            self.wf(),
            db_live(self.model(), dbi as int),
        ensures
            r == forall|k2: Seq<u8>|
                self.model()[dbi as int].records.contains_key(k2) ==> lex_lt(k2, key@),
    {
        let table = &self.dbs[dbi as usize].table;
        let r = table.all_keys_below(key);
        proof {
            if r {
                assert forall|k2: Seq<u8>|
                    self.model()[dbi as int].records.contains_key(k2) implies lex_lt(
                    k2,
                    key@,
                ) by {
                    let a = table.idx_of(k2);
                    assert(table.rows_view()[a].key@ == k2);
                }
            } else {
                let j = choose|j: int|
                    0 <= j < table.rows_view().len() && !lex_lt(table.rows_view()[j].key@, key@);
                table.lemma_view_at(j);
            }
        }
        r
    }

    /// Adds a fresh live slot for a named database; answers its number.
    pub fn create_named(&mut self, name: String, flags: DBFlags) -> (dbi: u32)
        requires
            old(self).wf(),
            old(self).model().len() < MAX_DB_SLOTS,
            !has_named(old(self).model(), Some(name@)),
        ensures
            final(self).wf(),
            dbi as int == old(self).model().len(),
            final(self).model() =~= old(self).model().push(
                DbModel {
                    name: Some(name@),
                    flags: flags.spec_persistent(),
                    live: true,
                    records: Map::empty(),
                },
            ),
    {
        let ghost n = name@;
        let dbi = self.dbs.len() as u32;
        self.dbs.push(
            Db { name: Some(name), flags: flags.persistent(), live: true, table: Table::new() },
        );
        proof {
            let m = self.model();
            let om = old(self).model();
            assert(m[om.len() as int].name == Some(n));
            assert forall|i: int, j: int|
                #![trigger self.dbs@[i], self.dbs@[j]]
                0 <= i < j < self.dbs@.len() && self.dbs@[i].live && self.dbs@[j].live implies self.dbs@[i].model().name
                != self.dbs@[j].model().name by {
                if j == self.dbs@.len() - 1 {
                    assert(om[i] == m[i]);
                    assert(!(om[i].live && om[i].name == Some(n)));
                }
            }
            assert(self.wf());
            assert(self.model() =~= om.push(
                DbModel {
                    name: Some(n),
                    flags: flags.spec_persistent(),
                    live: true,
                    records: Map::empty(),
                },
            ));
        }
        dbi
    }

    /// Empties slot `dbi` without closing it.
    pub fn clear_slot(&mut self, dbi: u32)
        requires
            old(self).wf(),
            db_live(old(self).model(), dbi as int),
        ensures
            final(self).wf(),
            final(self).model() =~= model_clear(old(self).model(), dbi as int),
    {
        let i = dbi as usize;
        let mut db = self.dbs.remove(i);
        db.table = Table::new();
        self.dbs.insert(i, db);
        proof {
            assert(self.dbs@ =~= old(self).dbs@.update(i as int, self.dbs@[i as int]));
            assert(self.wf());
            assert(self.model() =~= model_clear(old(self).model(), dbi as int));
        }
    }

    /// Empties slot `dbi` and closes it for good.
    pub fn kill_slot(&mut self, dbi: u32)
        requires
            old(self).wf(),
            db_live(old(self).model(), dbi as int),
            dbi >= 1,
        ensures
            final(self).wf(),
            final(self).model() =~= model_kill(old(self).model(), dbi as int),
    {
        let i = dbi as usize;
        let mut db = self.dbs.remove(i);
        db.table = Table::new();
        db.live = false;
        self.dbs.insert(i, db);
        proof {
            assert(self.dbs@ =~= old(self).dbs@.update(i as int, self.dbs@[i as int]));
            assert(self.wf());
            assert(self.model() =~= model_kill(old(self).model(), dbi as int));
        }
    }

    /// Whether a slot number names a live database.
    pub fn is_live(&self, dbi: u32) -> (r: bool)
        ensures
            r == db_live(self.model(), dbi as int),
    {
        (dbi as usize) < self.dbs.len() && self.dbs[dbi as usize].live
    }

    /// The persistent options slot `dbi` was created with.
    pub fn flags_of(&self, dbi: u32) -> (r: DBFlags)
        requires
            (dbi as int) < self.model().len(),
        ensures
            r == self.model()[dbi as int].flags,
    {
        self.dbs[dbi as usize].flags
    }

    /// How many records the default table holds.
    pub fn default_table_len(&self) -> (r: usize)
        requires
            self.wf(),
        ensures
            r == self.dbs@[0].table.rows_view().len(),
    {
        self.dbs[0].table.len()
    }

    /// How many database slots exist, the default table included.
    pub fn slot_count(&self) -> (r: usize)
        ensures
            r == self.model().len(),
    {
        self.dbs.len()
    }
}

} // verus!
