//! Transactions: a working snapshot of the environment's state, a linear
//! commit/abort protocol enforced by ownership, and the read and write
//! operations. A nested transaction takes its parent by value, so the
//! parent cannot be touched until the child commits into it or aborts.

use vstd::prelude::*;

use crate::bytecmp::bytes_eq;
use crate::bytecmp::has_nul;
use crate::bytecmp::lex_lt;
use core::marker::PhantomData;

use crate::codec::FromBytes;
use crate::codec::ToBytes;
use crate::cursor::Cursor;
use crate::db::DBFlags;
use crate::db::Database;
use crate::dbenv::DBEnv;
use crate::dbenv::EnvConfig;
use crate::error::ENGINE_EACCES;
use crate::error::LMDBError;
use crate::error::MDBError;
use crate::state::db_live;
use crate::state::key_size_ok;
use crate::state::model_del;
use crate::state::model_get;
use crate::state::model_put;
use crate::state::opt_name_view;
use crate::state::spec_drop_db;
use crate::state::spec_open_db;
use crate::state::DbModel;
use crate::state::EnvState;
use crate::state::MAX_DB_SLOTS;
use crate::state::MDB_MAXKEYSIZE;
use vstd::pervasive::unreached;
use vstd::slice::slice_to_vec;

verus! {

/// Bit for: refuse the pair when the exact key/data pair is present.
pub const MDB_NODUPDATA: u32 = 0x20;

/// Bit for: refuse the write when the key is present at all.
pub const MDB_NOOVERWRITE: u32 = 0x10;

/// Bit for: reserve space and let the caller fill it after the call.
pub const MDB_RESERVE: u32 = 0x10000;

/// Bit for: append a key known to come after every stored key.
pub const MDB_APPEND: u32 = 0x20000;

/// Bit for: append sorted duplicate data.
pub const MDB_APPENDDUP: u32 = 0x40000;

/// The options of one `put` call: a set over a closed enumeration,
/// encoded to the engine's bitmask only at the boundary.
#[derive(Debug, Clone, Copy, PartialEq, Eq, Structural)]
pub struct PutFlags {
    /// Refuse the pair when the exact key/data pair is already present.
    pub no_dup_data: bool,
    /// Refuse the write when the key is present at all; the stored value
    /// is left as it was.
    pub no_overwrite: bool,
    /// Reserve space for a value of the given size. This store keeps the
    /// given bytes themselves: there is no deferred fill over a map.
    pub reserve: bool,
    /// Append: the key must come after every stored key, else the write
    /// is refused as an existing key.
    pub append: bool,
    /// Append sorted duplicate data; treated as `append` here.
    pub append_dup: bool,
}

impl PutFlags {
    /// The set with no option chosen.
    pub open spec fn spec_empty() -> PutFlags {
        PutFlags {
            no_dup_data: false,
            no_overwrite: false,
            reserve: false,
            append: false,
            append_dup: false,
        }
    }

    /// The set with no option chosen.
    pub fn empty() -> (r: PutFlags)
        ensures
            r == PutFlags::spec_empty(),
    {
        PutFlags {
            no_dup_data: false,
            no_overwrite: false,
            reserve: false,
            append: false,
            append_dup: false,
        }
    }

    /// The engine's bitmask for this set.
    pub open spec fn spec_bits(self) -> u32 {
        (if self.no_dup_data {
            MDB_NODUPDATA
        } else {
            0
        }) | (if self.no_overwrite {
            MDB_NOOVERWRITE
        } else {
            0
        }) | (if self.reserve {
            MDB_RESERVE
        } else {
            0
        }) | (if self.append {
            MDB_APPEND
        } else {
            0
        }) | (if self.append_dup {
            MDB_APPENDDUP
        } else {
            0
        })
    }

    /// Encodes the set as the engine's bitmask.
    pub fn bits(&self) -> (r: u32)
        ensures
            r == self.spec_bits(),
    {
        (if self.no_dup_data {
            MDB_NODUPDATA
        } else {
            0
        }) | (if self.no_overwrite {
            MDB_NOOVERWRITE
        } else {
            0
        }) | (if self.reserve {
            MDB_RESERVE
        } else {
            0
        }) | (if self.append {
            MDB_APPEND
        } else {
            0
        }) | (if self.append_dup {
            MDB_APPENDDUP
        } else {
            0
        })
    }
}

impl Default for PutFlags {
    /// The default chooses no option.
    fn default() -> (r: Self)
        ensures
            r == PutFlags::spec_empty(),
    {
        PutFlags::empty()
    }
}

/// Whether a transaction may write.
#[derive(Debug, PartialEq, Eq, Clone, Copy, Structural)]
pub enum TransactionType {
    /// Reads a consistent snapshot; every write is refused.
    ReadOnly,
    /// May read and write; commits fold its writes into the committed
    /// state or, for a nested transaction, into its parent.
    ReadWrite,
}

/// The ghost model of a transaction: its kind, the configuration it was
/// begun under, its working state, and the suspended working states of its
/// ancestors, outermost first.
pub ghost struct TxnModel {
    /// Whether the transaction may write.
    pub kind: TransactionType,
    /// The environment configuration at begin time.
    pub config: EnvConfig,
    /// The working state the transaction reads and writes.
    pub cur: Seq<DbModel>,
    /// The suspended working states of the ancestors, outermost first.
    pub stack: Seq<Seq<DbModel>>,
}

/// One transaction. It owns a working snapshot of the environment state
/// taken when it began; reads and writes touch only that snapshot, and
/// `commit` alone publishes it. `commit` and `abort` take the transaction
/// by value, so a consumed transaction cannot be touched again, and no
/// transaction can be both committed and aborted. One merely dropped is
/// thereby aborted: its snapshot goes with it and the committed state
/// cannot be reached from a drop.
#[derive(Debug)]
pub struct Transaction {
    /// Whether the transaction may write.
    pub txn_type: TransactionType,
    /// The environment configuration at begin time.
    pub config: EnvConfig,
    /// The working snapshot.
    pub state: EnvState,
    /// For a nested transaction, the suspended parent.
    pub parent: Option<Box<Transaction>>,
}

impl Transaction {
    /// The transaction's ghost model.
    pub open spec fn model(self) -> TxnModel
        decreases self,
    {
        TxnModel {
            kind: self.txn_type,
            config: self.config,
            cur: self.state.model(),
            stack: match self.parent {
                None => Seq::empty(),
                Some(p) => (*p).model().stack.push((*p).model().cur),
            },
        }
    }

    /// Well-formed: the working state is, and a nested transaction and
    /// every ancestor may write and share one configuration.
    pub open spec fn wf(self) -> bool
        decreases self,
    {
        &&& self.state.wf()
        &&& match self.parent {
            None => true,
            Some(p) => {
                &&& self.txn_type is ReadWrite
                &&& (*p).txn_type is ReadWrite
                &&& (*p).config == self.config
                &&& (*p).wf()
            },
        }
    }

    /// Begins a root transaction over a snapshot of the committed state.
    pub(crate) fn new_root(txn_type: TransactionType, config: EnvConfig, state: EnvState) -> (r:
        Transaction)
        requires
            state.wf(),
        ensures
            r.wf(),
            r.model().kind == txn_type,
            r.model().config == config,
            r.model().cur == state.model(),
            r.model().stack.len() == 0,
    {
        Transaction { txn_type, config, state, parent: None }
    }

    /// Begins a nested transaction, taking this one as its parent. The
    /// parent is unreachable until the child commits into it or aborts;
    /// only a read-write transaction may have a child.
    pub fn begin_child(self) -> (r: Transaction)
        requires
            self.wf(),
            self.txn_type is ReadWrite,
        ensures
            r.wf(),
            r.model().kind is ReadWrite,
            r.model().config == self.model().config,
            r.model().cur == self.model().cur,
            r.model().stack == self.model().stack.push(self.model().cur),
    {
        let state = self.state.clone_state();
        let config = self.config;
        proof {
            assert(state.model() =~= self.state.model());
        }
        Transaction { txn_type: TransactionType::ReadWrite, config, state, parent: Some(
            Box::new(self),
        ) }
    }

    /// Commits the transaction, consuming it. A root read-write
    /// transaction publishes its working state as the environment's
    /// committed state and answers nothing; a root read-only one changes
    /// nothing; a nested one folds its writes into its parent — the
    /// environment is untouched until the parent itself commits — and
    /// hands the parent back.
    pub fn commit(self, env: &mut DBEnv) -> (r: Result<Option<Transaction>, LMDBError>)
        requires
            self.wf(),
            old(env).wf(),
        ensures
            final(env).wf(),
            final(env).spec_config() == old(env).spec_config(),
            final(env).spec_path() == old(env).spec_path(),
            r is Ok,
            self.model().stack.len() == 0 ==> (r matches Ok(o) && o is None),
            self.model().stack.len() == 0 && self.model().kind is ReadWrite
                ==> final(env).model() == self.model().cur,
            self.model().stack.len() == 0 && self.model().kind is ReadOnly ==> *final(env) == *old(env),
            self.model().stack.len() > 0 ==> *final(env) == *old(env) && (r matches Ok(o)
                && o matches Some(p) && p.wf() && p.model().kind is ReadWrite
                && p.model().config == self.model().config && p.model().cur == self.model().cur
                && p.model().stack == self.model().stack.drop_last()),
    {
        let Transaction { txn_type, config, state, parent } = self;
        match parent {
            None => {
                proof {
                    assert(self.parent is None);
                    assert(self.model().stack.len() == 0);
                }
                match txn_type {
                    TransactionType::ReadWrite => {
                        env.state = state;
                    },
                    TransactionType::ReadOnly => {},
                }
                Ok(None)
            },
            Some(p) => {
                let ghost op = *p;
                let mut up = *p;
                up.state = state;
                proof {
                    reveal_with_fuel(Transaction::wf, 3);
                    assert(up.parent == op.parent);
                    assert(up.model().stack == op.model().stack);
                    assert(self.model().stack == op.model().stack.push(op.model().cur));
                    assert(op.model().stack.push(op.model().cur).drop_last() =~= op.model().stack);
                    assert(up.model().cur == self.model().cur);
                    assert(up.model().stack == self.model().stack.drop_last());
                }
                Ok(Some(up))
            },
        }
    }

    /// Aborts the transaction, consuming it and discarding every write it
    /// made. A root transaction leaves nothing behind — the committed
    /// state is untouched, since an abort never reaches the environment.
    /// A nested one hands back its parent exactly as it was when the
    /// child began.
    pub fn abort(self) -> (r: Option<Transaction>)
        requires
            self.wf(),
        ensures
            (self.model().stack.len() == 0) <==> (r is None),
            r matches Some(p) ==> p.wf() && p.model().kind is ReadWrite && p.model().config
                == self.model().config && p.model().cur == self.model().stack.last()
                && p.model().stack == self.model().stack.drop_last(),
    {
        match self.parent {
            None => None,
            Some(p) => {
                proof {
                    assert((*p).model().cur == self.model().stack.last());
                    assert((*p).model().stack == self.model().stack.drop_last());
                }
                Some(*p)
            },
        }
    }

    /// Looks `key` up in `db` within this transaction's snapshot. Absence
    /// is an answer, not an error: a key never written — or whose write
    /// was discarded — answers nothing. Only a stale handle is an error.
    pub fn get<K: ToBytes, V: FromBytes>(&self, db: &Database<K, V>, key: &K) -> (r: Result<
        Option<V>,
        LMDBError,
    >)
        requires
            self.wf(),
        ensures
            match r {
                Ok(opt) => db_live(self.model().cur, db.dbi()) && (match opt {
                    Some(v) => model_get(self.model().cur, db.dbi(), key.byte_view()) == Some(
                        v.byte_view(),
                    ),
                    None => model_get(self.model().cur, db.dbi(), key.byte_view()) is None,
                }),
                Err(e) => e == LMDBError::MDB(MDBError::BadDbi) && !db_live(
                    self.model().cur,
                    db.dbi(),
                ),
            },
    {
        let dbi = db.id();
        if !self.state.is_live(dbi) {
            return Err(LMDBError::MDB(MDBError::BadDbi));
        }
        match self.state.read(dbi, key.to_byte_slice()) {
            Some(v) => Ok(Some(V::from_byte_slice(v.as_slice()))),
            None => Ok(None),
        }
    }

    /// Stores a key/value pair in `db` within this transaction's working
    /// state, under the given options. Nothing is visible outside the
    /// transaction until it commits.
    pub fn put<K: ToBytes, V: ToBytes>(
        &mut self,
        db: &Database<K, V>,
        key: &K,
        value: &V,
        flags: Option<PutFlags>,
    ) -> (r: Result<(), LMDBError>)
        requires
            old(self).wf(),
        ensures
            final(self).wf(),
            final(self).model().kind == old(self).model().kind,
            final(self).model().config == old(self).model().config,
            final(self).model().stack == old(self).model().stack,
            ({
                let f = match flags {
                    Some(f) => f,
                    None => PutFlags::spec_empty(),
                };
                match spec_put(
                    old(self).model().kind,
                    old(self).model().cur,
                    db.dbi(),
                    key.byte_view(),
                    value.byte_view(),
                    f,
                ) {
                    Ok(m2) => r is Ok && final(self).model().cur == m2,
                    Err(e) => r == Err::<(), LMDBError>(e) && final(self).model().cur == old(self).model().cur,
                }
            }),
    {
        let f = match flags {
            Some(f) => f,
            None => PutFlags::empty(),
        };
        if matches!(self.txn_type, TransactionType::ReadOnly) {
            return Err(LMDBError::Io(ENGINE_EACCES));
        }
        let dbi = db.id();
        if !self.state.is_live(dbi) {
            return Err(LMDBError::MDB(MDBError::BadDbi));
        }
        let kb = key.to_byte_slice();
        if kb.len() == 0 || kb.len() > MDB_MAXKEYSIZE {
            return Err(LMDBError::MDB(MDBError::BadValSize));
        }
        let vb = value.to_byte_slice();
        let present: bool = match self.state.read(dbi, kb) {
            Some(_) => true,
            None => false,
        };
        if f.no_overwrite && present {
            return Err(LMDBError::MDB(MDBError::KeyExists));
        }
        if f.no_dup_data && present {
            let same: bool = match self.state.read(dbi, kb) {
                Some(sv) => bytes_eq(sv.as_slice(), vb),
                None => false,
            };
            if same {
                return Err(LMDBError::MDB(MDBError::KeyExists));
            }
        }
        if (f.append || f.append_dup) && !self.state.append_ok(dbi, kb) {
            return Err(LMDBError::MDB(MDBError::KeyExists));
        }
        self.state.write(dbi, slice_to_vec(kb), slice_to_vec(vb));
        Ok(())
    }

    /// Removes `key` from `db` in this transaction's working state. A
    /// given value must match the stored one for the record to go; a
    /// missing or mismatched record is an error, unlike `get`.
    pub fn delete<K: ToBytes, V: ToBytes>(
        &mut self,
        db: &Database<K, V>,
        key: &K,
        value: Option<&V>,
    ) -> (r: Result<(), LMDBError>)
        requires
            old(self).wf(),
        ensures
            final(self).wf(),
            final(self).model().kind == old(self).model().kind,
            final(self).model().config == old(self).model().config,
            final(self).model().stack == old(self).model().stack,
            ({
                let v = match value {
                    Some(v) => Some(v.byte_view()),
                    None => None,
                };
                match spec_del(
                    old(self).model().kind,
                    old(self).model().cur,
                    db.dbi(),
                    key.byte_view(),
                    v,
                ) {
                    Ok(m2) => r is Ok && final(self).model().cur == m2,
                    Err(e) => r == Err::<(), LMDBError>(e) && final(self).model().cur == old(self).model().cur,
                }
            }),
    {
        if matches!(self.txn_type, TransactionType::ReadOnly) {
            return Err(LMDBError::Io(ENGINE_EACCES));
        }
        let dbi = db.id();
        if !self.state.is_live(dbi) {
            return Err(LMDBError::MDB(MDBError::BadDbi));
        }
        let kb = key.to_byte_slice();
        if kb.len() == 0 || kb.len() > MDB_MAXKEYSIZE {
            return Err(LMDBError::MDB(MDBError::BadValSize));
        }
        let present: bool = match self.state.read(dbi, kb) {
            Some(_) => true,
            None => false,
        };
        if !present {
            return Err(LMDBError::MDB(MDBError::NotFound));
        }
        if let Some(v) = value {
            let same: bool = match self.state.read(dbi, kb) {
                Some(sv) => bytes_eq(sv.as_slice(), v.to_byte_slice()),
                None => false,
            };
            if !same {
                return Err(LMDBError::MDB(MDBError::NotFound));
            }
        }
        self.state.erase(dbi, kb);
        Ok(())
    }

    /// Resolves or creates a database in this transaction's working state;
    /// answers the slot number.
    pub(crate) fn open_db_raw(&mut self, name: Option<&str>, flags: DBFlags) -> (r: Result<
        u32,
        LMDBError,
    >)
        requires
            old(self).wf(),
        ensures
            final(self).wf(),
            final(self).model().kind == old(self).model().kind,
            final(self).model().config == old(self).model().config,
            final(self).model().stack == old(self).model().stack,
            match spec_open_db(
                old(self).model().kind is ReadOnly,
                old(self).model().cur,
                opt_name_view(name),
                flags,
                old(self).model().config.max_dbs,
            ) {
                Ok((m2, dbi)) => r matches Ok(i) && i as int == dbi && final(self).model().cur
                    == m2,
                Err(e) => r == Err::<u32, LMDBError>(e) && final(self).model().cur == old(self).model().cur,
            },
    {
        if let Some(n) = name {
            if has_nul(n.as_bytes()) {
                return Err(LMDBError::InvalidInput);
            }
        }
        match self.state.find_name(name) {
            Some(i) => {
                let fl = self.state.flags_of(i);
                if fl == flags.persistent() {
                    Ok(i)
                } else {
                    Err(LMDBError::MDB(MDBError::Incompatible))
                }
            },
            None => {
                match name {
                    None => {
                        proof {
                            assert(self.state.model()[0].live && self.state.model()[0].name
                                is None);
                        }
                        unreached()
                    },
                    Some(n) => {
                        if !flags.create {
                            return Err(LMDBError::MDB(MDBError::NotFound));
                        }
                        if matches!(self.txn_type, TransactionType::ReadOnly) {
                            return Err(LMDBError::Io(ENGINE_EACCES));
                        }
                        let slots = self.state.slot_count();
                        if slots - 1 >= self.config.max_dbs || slots >= MAX_DB_SLOTS {
                            return Err(LMDBError::MDB(MDBError::DbsFull));
                        }
                        let dbi = self.state.create_named(n.to_owned(), flags);
                        Ok(dbi)
                    },
                }
            },
        }
    }

    /// A cursor over `db`, reading this transaction's working state in
    /// key order. It borrows the transaction, so it cannot outlive it,
    /// and the transaction cannot be written to, committed or aborted
    /// while the cursor lives.
    pub fn cursor<'t, K: FromBytes, V: FromBytes>(&'t self, db: &Database<K, V>) -> (r: Result<
        Cursor<'t, K, V>,
        LMDBError,
    >)
        requires
            self.wf(),
        ensures
            match r {
                Ok(c) => db_live(self.model().cur, db.dbi()) && c.txn == self && c.dbi
                    == db.raw_dbi && c.pos is None && c.wf(),
                Err(e) => e == LMDBError::MDB(MDBError::BadDbi) && !db_live(
                    self.model().cur,
                    db.dbi(),
                ),
            },
    {
        if !self.state.is_live(db.id()) {
            return Err(LMDBError::MDB(MDBError::BadDbi));
        }
        Ok(Cursor { txn: self, dbi: db.id(), pos: None, marker: PhantomData })
    }

    /// Drops a database in this transaction's working state: the default
    /// table is emptied, a named one is emptied and its slot closed, which
    /// makes every handle to it stale.
    pub(crate) fn drop_db_raw(&mut self, name: Option<&str>) -> (r: Result<(), LMDBError>)
        requires
            old(self).wf(),
        ensures
            final(self).wf(),
            final(self).model().kind == old(self).model().kind,
            final(self).model().config == old(self).model().config,
            final(self).model().stack == old(self).model().stack,
            match spec_drop_db(
                old(self).model().kind is ReadOnly,
                old(self).model().cur,
                opt_name_view(name),
            ) {
                Ok(m2) => r is Ok && final(self).model().cur == m2,
                Err(e) => r == Err::<(), LMDBError>(e) && final(self).model().cur == old(self).model().cur,
            },
    {
        if let Some(n) = name {
            if has_nul(n.as_bytes()) {
                return Err(LMDBError::InvalidInput);
            }
        }
        if matches!(self.txn_type, TransactionType::ReadOnly) {
            return Err(LMDBError::Io(ENGINE_EACCES));
        }
        match self.state.find_name(name) {
            None => Err(LMDBError::MDB(MDBError::NotFound)),
            Some(i) => {
                if i == 0 {
                    self.state.clear_slot(0);
                    Ok(())
                } else {
                    self.state.kill_slot(i);
                    Ok(())
                }
            },
        }
    }
}

/// What `put` does, over the model: a read-only transaction is refused;
/// then a stale handle, then a key the engine cannot store; the
/// no-overwrite option refuses a present key, the no-duplicate option a
/// present identical pair, and the append options any key not above every
/// stored one — each leaving the state as it was. Otherwise the pair is
/// stored.
pub open spec fn spec_put(
    kind: TransactionType,
    m: Seq<DbModel>,
    dbi: int,
    k: Seq<u8>,
    v: Seq<u8>,
    f: PutFlags,
) -> Result<Seq<DbModel>, LMDBError> {
    if kind is ReadOnly {
        Err(LMDBError::Io(ENGINE_EACCES))
    } else if !db_live(m, dbi) {
        Err(LMDBError::MDB(MDBError::BadDbi))
    } else if !key_size_ok(k) {
        Err(LMDBError::MDB(MDBError::BadValSize))
    } else if f.no_overwrite && m[dbi].records.contains_key(k) {
        Err(LMDBError::MDB(MDBError::KeyExists))
    } else if f.no_dup_data && m[dbi].records.contains_key(k) && m[dbi].records[k] == v {
        Err(LMDBError::MDB(MDBError::KeyExists))
    } else if (f.append || f.append_dup) && !(forall|k2: Seq<u8>|
        m[dbi].records.contains_key(k2) ==> lex_lt(k2, k)) {
        Err(LMDBError::MDB(MDBError::KeyExists))
    } else {
        Ok(model_put(m, dbi, k, v))
    }
}

/// What `delete` does, over the model: a read-only transaction is
/// refused; then a stale handle, then a key the engine cannot store; an
/// absent key is an error, as is a given value that differs from the
/// stored one. Otherwise the record goes.
pub open spec fn spec_del(
    kind: TransactionType,
    m: Seq<DbModel>,
    dbi: int,
    k: Seq<u8>,
    v: Option<Seq<u8>>,
) -> Result<Seq<DbModel>, LMDBError> {
    if kind is ReadOnly {
        Err(LMDBError::Io(ENGINE_EACCES))
    } else if !db_live(m, dbi) {
        Err(LMDBError::MDB(MDBError::BadDbi))
    } else if !key_size_ok(k) {
        Err(LMDBError::MDB(MDBError::BadValSize))
    } else if !m[dbi].records.contains_key(k) {
        Err(LMDBError::MDB(MDBError::NotFound))
    } else if v matches Some(vv) && m[dbi].records[k] != vv {
        Err(LMDBError::MDB(MDBError::NotFound))
    } else {
        Ok(model_del(m, dbi, k))
    }
}

} // verus!
