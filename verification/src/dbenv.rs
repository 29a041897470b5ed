//! The environment: the top-level handle to one store, its frozen
//! configuration, and the builder that assembles that configuration
//! before opening.

use vstd::prelude::*;

use crate::bytecmp::has_nul;
use crate::db::DBFlags;
use crate::db::Database;
use crate::error::LMDBError;
use crate::state::initial_model;
use crate::state::opt_name_view;
use crate::state::spec_drop_db;
use crate::state::spec_open_db;
use crate::state::DbModel;
use crate::state::EnvState;
use crate::txn::Transaction;
use crate::txn::TransactionType;
use crate::error::ENGINE_EACCES;
use vstd::utf8::encode_utf8;

verus! {

/// Bit for: use a fixed address for the memory map.
pub const MDB_FIXEDMAP: u32 = 0x01;

/// Bit for: the path names the data file itself, not a directory.
pub const MDB_NOSUBDIR: u32 = 0x4000;

/// Bit for: open the environment read-only.
pub const MDB_RDONLY_ENV: u32 = 0x20000;

/// Bit for: write data directly through the memory map.
pub const MDB_WRITEMAP: u32 = 0x80000;

/// Bit for: do not flush the meta page eagerly.
pub const MDB_NOMETASYNC: u32 = 0x40000;

/// Bit for: do not flush data pages eagerly.
pub const MDB_NOSYNC: u32 = 0x10000;

/// Bit for: flush the map asynchronously.
pub const MDB_MAPASYNC: u32 = 0x100000;

/// Bit for: do not tie reader slots to thread-local storage.
pub const MDB_NOTLS: u32 = 0x200000;

/// Bit for: the caller manages locking.
pub const MDB_NOLOCK: u32 = 0x400000;

/// Bit for: do not ask the OS to read ahead.
pub const MDB_NORDAHEAD: u32 = 0x800000;

/// Bit for: do not zero-initialise reused memory.
pub const MDB_NOMEMINIT: u32 = 0x1000000;

/// The default map-size ceiling, in bytes.
pub const DEFAULT_MAP_SIZE: usize = 10485760;

/// The default number of reader slots.
pub const DEFAULT_MAX_READERS: usize = 126;

/// The default number of named databases: none until configured.
pub const DEFAULT_MAX_DBS: usize = 0;

/// The default file-creation permission bits.
pub const DEFAULT_FILE_MODE: u32 = 0o644;

/// The options an environment is opened with: a set over a closed
/// enumeration, encoded to the engine's bitmask only at the boundary.
#[derive(Debug, Clone, Copy, PartialEq, Eq, Structural)]
pub struct EnvFlags {
    /// Use a fixed address for the memory map.
    pub fixed_map: bool,
    /// The path names the data file itself, not a directory holding it.
    pub no_subdir: bool,
    /// Open the environment read-only: no write transaction is allowed.
    pub read_only: bool,
    /// Write data directly through the memory map.
    pub write_map: bool,
    /// Do not flush the meta page eagerly.
    pub no_meta_sync: bool,
    /// Do not flush data pages eagerly.
    pub no_sync: bool,
    /// Flush the map asynchronously.
    pub map_async: bool,
    /// Do not tie reader slots to thread-local storage.
    pub no_tls: bool,
    /// The caller manages locking.
    pub no_lock: bool,
    /// Do not ask the OS to read ahead.
    pub no_read_ahead: bool,
    /// Do not zero-initialise reused memory.
    pub no_mem_init: bool,
}

impl EnvFlags {
    /// The set with no option chosen.
    pub open spec fn spec_empty() -> EnvFlags {
        EnvFlags {
            fixed_map: false,
            no_subdir: false,
            read_only: false,
            write_map: false,
            no_meta_sync: false,
            no_sync: false,
            map_async: false,
            no_tls: false,
            no_lock: false,
            no_read_ahead: false,
            no_mem_init: false,
        }
    }

    /// The set with no option chosen.
    pub fn empty() -> (r: EnvFlags)
        ensures
            r == EnvFlags::spec_empty(),
    {
        EnvFlags {
            fixed_map: false,
            no_subdir: false,
            read_only: false,
            write_map: false,
            no_meta_sync: false,
            no_sync: false,
            map_async: false,
            no_tls: false,
            no_lock: false,
            no_read_ahead: false,
            no_mem_init: false,
        }
    }

    /// The engine's bitmask for this set.
    pub open spec fn spec_bits(self) -> u32 {
        (if self.fixed_map {
            MDB_FIXEDMAP
        } else {
            0
        }) | (if self.no_subdir {
            MDB_NOSUBDIR
        } else {
            0
        }) | (if self.read_only {
            MDB_RDONLY_ENV
        } else {
            0
        }) | (if self.write_map {
            MDB_WRITEMAP
        } else {
            0
        }) | (if self.no_meta_sync {
            MDB_NOMETASYNC
        } else {
            0
        }) | (if self.no_sync {
            MDB_NOSYNC
        } else {
            0
        }) | (if self.map_async {
            MDB_MAPASYNC
        } else {
            0
        }) | (if self.no_tls {
            MDB_NOTLS
        } else {
            0
        }) | (if self.no_lock {
            MDB_NOLOCK
        } else {
            0
        }) | (if self.no_read_ahead {
            MDB_NORDAHEAD
        } else {
            0
        }) | (if self.no_mem_init {
            MDB_NOMEMINIT
        } else {
            0
        })
    }

    /// Encodes the set as the engine's bitmask.
    pub fn bits(&self) -> (r: u32)
        ensures
            r == self.spec_bits(),
    {
        (if self.fixed_map {
            MDB_FIXEDMAP
        } else {
            0
        }) | (if self.no_subdir {
            MDB_NOSUBDIR
        } else {
            0
        }) | (if self.read_only {
            MDB_RDONLY_ENV
        } else {
            0
        }) | (if self.write_map {
            MDB_WRITEMAP
        } else {
            0
        }) | (if self.no_meta_sync {
            MDB_NOMETASYNC
        } else {
            0
        }) | (if self.no_sync {
            MDB_NOSYNC
        } else {
            0
        }) | (if self.map_async {
            MDB_MAPASYNC
        } else {
            0
        }) | (if self.no_tls {
            MDB_NOTLS
        } else {
            0
        }) | (if self.no_lock {
            MDB_NOLOCK
        } else {
            0
        }) | (if self.no_read_ahead {
            MDB_NORDAHEAD
        } else {
            0
        }) | (if self.no_mem_init {
            MDB_NOMEMINIT
        } else {
            0
        })
    }
}

impl Default for EnvFlags {
    /// The default names the data file directly: no separate subdirectory.
    fn default() -> (r: Self)
        ensures
            r == EnvFlags::spec_empty().spec_no_subdir_set(),
    {
        EnvFlags {
            fixed_map: false,
            no_subdir: true,
            read_only: false,
            write_map: false,
            no_meta_sync: false,
            no_sync: false,
            map_async: false,
            no_tls: false,
            no_lock: false,
            no_read_ahead: false,
            no_mem_init: false,
        }
    }
}

impl EnvFlags {
    /// This set with `no_subdir` chosen.
    pub open spec fn spec_no_subdir_set(self) -> EnvFlags {
        EnvFlags { no_subdir: true, ..self }
    }
}

/// The configuration an environment was opened with, frozen at open time.
#[derive(Debug, Clone, Copy, PartialEq, Eq, Structural)]
pub struct EnvConfig {
    /// The map-size ceiling, in bytes.
    pub map_size: usize,
    /// How many concurrent reader slots the lock table holds.
    pub max_readers: usize,
    /// How many named databases may be created.
    pub max_dbs: usize,
    /// The feature flags the environment was opened with.
    pub flags: EnvFlags,
    /// The file-creation permission bits.
    pub file_mode: u32,
}

/// What the engine reports about the default table.
#[derive(Debug, Clone, Copy, PartialEq, Eq, Structural)]
pub struct Stat {
    /// How many records the default table holds.
    pub entries: usize,
}

/// The top-level handle to one store: its frozen configuration, the path
/// it was opened under, and the committed state. Transactions and database
/// handles are issued from here; the committed state changes only when a
/// root read-write transaction commits.
#[derive(Debug)]
pub struct DBEnv {
    /// The configuration, immutable after open.
    pub config: EnvConfig,
    /// The path the environment was opened under.
    pub path: String,
    /// The committed state.
    pub state: EnvState,
}

impl DBEnv {
    /// The committed state's ghost model.
    pub open spec fn model(self) -> Seq<DbModel> {
        self.state.model()
    }

    /// The frozen configuration.
    pub open spec fn spec_config(self) -> EnvConfig {
        self.config
    }

    /// The path the environment was opened under.
    pub open spec fn spec_path(self) -> Seq<char> {
        self.path@
    }

    /// Well-formed: the committed state is.
    pub open spec fn wf(self) -> bool {
        self.state.wf()
    }

    /// Flushes durable state to the backing medium. This store keeps its
    /// state in memory, where every commit is already final, so there is
    /// nothing left to flush and the call always succeeds; `force` asks
    /// for a flush even under deferred-sync configurations.
    pub fn sync(&self, force: bool) -> (r: Result<(), LMDBError>)
        ensures
            r is Ok,
    {
        let _ = force;
        Ok(())
    }

    /// What the engine reports about the default table.
    pub fn stat(&self) -> (r: Stat)
        requires
            self.wf(),
        ensures
            r.entries == self.state.dbs@[0].table.rows_view().len(),
    {
        Stat { entries: self.state.default_table_len() }
    }

    /// Begins a root read-write transaction over a snapshot of the
    /// committed state. Refused on a read-only environment; otherwise it
    /// is handed out, seeing exactly the committed state.
    pub fn begin_txn(&self) -> (r: Result<Transaction, LMDBError>)
        requires
            self.wf(),
        ensures
            self.spec_config().flags.read_only ==> r == Err::<Transaction, LMDBError>(
                LMDBError::Io(ENGINE_EACCES),
            ),
            !self.spec_config().flags.read_only ==> (r matches Ok(t) && t.wf() && t.model().kind
                is ReadWrite && t.model().config == self.spec_config() && t.model().cur
                == self.model() && t.model().stack.len() == 0),
    {
        if self.config.flags.read_only {
            return Err(LMDBError::Io(ENGINE_EACCES));
        }
        let state = self.state.clone_state();
        proof {
            assert(state.model() =~= self.state.model());
        }
        Ok(Transaction::new_root(TransactionType::ReadWrite, self.config, state))
    }

    /// Begins a root read-only transaction over a snapshot of the
    /// committed state: a consistent view as of its start, unaffected by
    /// later commits.
    pub fn begin_txn_read_only(&self) -> (r: Result<Transaction, LMDBError>)
        requires
            self.wf(),
        ensures
            r matches Ok(t) && t.wf() && t.model().kind is ReadOnly && t.model().config
                == self.spec_config() && t.model().cur == self.model() && t.model().stack.len()
                == 0,
    {
        let state = self.state.clone_state();
        proof {
            assert(state.model() =~= self.state.model());
        }
        Ok(Transaction::new_root(TransactionType::ReadOnly, self.config, state))
    }

    /// Opens the default table within the given transaction.
    pub fn open_db<K, V>(&self, txn: &mut Transaction, flags: Option<DBFlags>) -> (r: Result<
        Database<K, V>,
        LMDBError,
    >)
        requires
            old(txn).wf(),
        ensures
            final(txn).wf(),
            final(txn).model().kind == old(txn).model().kind,
            final(txn).model().config == old(txn).model().config,
            final(txn).model().stack == old(txn).model().stack,
            ({
                let f = match flags {
                    Some(f) => f,
                    None => DBFlags::spec_empty().spec_create_set(),
                };
                match spec_open_db(
                    old(txn).model().kind is ReadOnly,
                    old(txn).model().cur,
                    None,
                    f,
                    old(txn).model().config.max_dbs,
                ) {
                    Ok((m2, dbi)) => r matches Ok(db) && db.dbi() == dbi && db.name_view()
                        is None && final(txn).model().cur == m2,
                    Err(e) => r matches Err(e2) && e2 == e && final(txn).model().cur == old(txn).model().cur,
                }
            }),
    {
        self.open_db_internal(txn, None, flags)
    }

    /// Opens or creates the named table within the given transaction. The
    /// same name under the same creation options answers the same numeric
    /// identifier; conflicting options are refused as incompatible.
    pub fn open_named_db<K, V>(
        &self,
        txn: &mut Transaction,
        name: &str,
        flags: Option<DBFlags>,
    ) -> (r: Result<Database<K, V>, LMDBError>)
        requires
            old(txn).wf(),
        ensures
            final(txn).wf(),
            final(txn).model().kind == old(txn).model().kind,
            final(txn).model().config == old(txn).model().config,
            final(txn).model().stack == old(txn).model().stack,
            ({
                let f = match flags {
                    Some(f) => f,
                    None => DBFlags::spec_empty().spec_create_set(),
                };
                match spec_open_db(
                    old(txn).model().kind is ReadOnly,
                    old(txn).model().cur,
                    Some(name@),
                    f,
                    old(txn).model().config.max_dbs,
                ) {
                    Ok((m2, dbi)) => r matches Ok(db) && db.dbi() == dbi && db.name_view()
                        == Some(name@) && final(txn).model().cur == m2,
                    Err(e) => r matches Err(e2) && e2 == e && final(txn).model().cur == old(txn).model().cur,
                }
            }),
    {
        self.open_db_internal(txn, Some(name), flags)
    }

    /// Resolves or creates a table and tags the handle with its name.
    fn open_db_internal<K, V>(
        &self,
        txn: &mut Transaction,
        name: Option<&str>,
        flags: Option<DBFlags>,
    ) -> (r: Result<Database<K, V>, LMDBError>)
        requires
            old(txn).wf(),
        ensures
            final(txn).wf(),
            final(txn).model().kind == old(txn).model().kind,
            final(txn).model().config == old(txn).model().config,
            final(txn).model().stack == old(txn).model().stack,
            ({
                let f = match flags {
                    Some(f) => f,
                    None => DBFlags::spec_empty().spec_create_set(),
                };
                match spec_open_db(
                    old(txn).model().kind is ReadOnly,
                    old(txn).model().cur,
                    opt_name_view(name),
                    f,
                    old(txn).model().config.max_dbs,
                ) {
                    Ok((m2, dbi)) => r matches Ok(db) && db.dbi() == dbi && db.name_view()
                        == opt_name_view(name) && final(txn).model().cur == m2,
                    Err(e) => r matches Err(e2) && e2 == e && final(txn).model().cur == old(txn).model().cur,
                }
            }),
    {
        let f = match flags {
            Some(f) => f,
            None => DBFlags::default(),
        };
        match txn.open_db_raw(name, f) {
            Ok(dbi) => {
                let owned: Option<String> = match name {
                    Some(n) => Some(n.to_owned()),
                    None => None,
                };
                Ok(Database::from_dbi(dbi, owned))
            },
            Err(e) => Err(e),
        }
    }

    /// Removes a table within the given read-write transaction: the
    /// default table is emptied, a named one is closed for good, making
    /// every handle to it stale. Takes effect when the transaction
    /// commits.
    pub fn drop_db(&self, txn: &mut Transaction, name: Option<&str>) -> (r: Result<(), LMDBError>)
        requires
            old(txn).wf(),
        ensures
            final(txn).wf(),
            final(txn).model().kind == old(txn).model().kind,
            final(txn).model().config == old(txn).model().config,
            final(txn).model().stack == old(txn).model().stack,
            match spec_drop_db(
                old(txn).model().kind is ReadOnly,
                old(txn).model().cur,
                opt_name_view(name),
            ) {
                Ok(m2) => r is Ok && final(txn).model().cur == m2,
                Err(e) => r == Err::<(), LMDBError>(e) && final(txn).model().cur == old(txn).model().cur,
            },
    {
        txn.drop_db_raw(name)
    }
}

/// Accumulates configuration for an environment: path, permission bits,
/// map size, reader-slot count, and named-database count, each settable in
/// any order before `open` freezes them.
#[derive(Debug, Clone)]
pub struct DBEnvBuilder {
    /// Where the environment lives on the file system.
    pub db_path: String,
    /// File-creation permission bits, when the platform honours them.
    pub file_mode: Option<u32>,
    /// The map-size ceiling, in bytes.
    pub map_size: Option<usize>,
    /// How many concurrent reader slots to reserve.
    pub max_readers: Option<usize>,
    /// How many named databases to allow.
    pub max_dbs: Option<usize>,
}

impl DBEnvBuilder {
    /// The configuration `open` will freeze: each unset field takes its
    /// default.
    pub open spec fn spec_config(self, flags: EnvFlags) -> EnvConfig {
        EnvConfig {
            map_size: match self.map_size {
                Some(s) => s,
                None => DEFAULT_MAP_SIZE,
            },
            max_readers: match self.max_readers {
                Some(n) => n,
                None => DEFAULT_MAX_READERS,
            },
            max_dbs: match self.max_dbs {
                Some(n) => n,
                None => DEFAULT_MAX_DBS,
            },
            flags,
            file_mode: match self.file_mode {
                Some(m) => m,
                None => DEFAULT_FILE_MODE,
            },
        }
    }

    /// Starts a builder for the environment at `path`, with nothing else
    /// configured yet.
    pub fn new(path: &str) -> (r: DBEnvBuilder)
        ensures
            r.db_path@ == path@,
            r.file_mode is None,
            r.map_size is None,
            r.max_readers is None,
            r.max_dbs is None,
    {
        DBEnvBuilder {
            db_path: path.to_owned(),
            file_mode: None,
            map_size: None,
            max_readers: None,
            max_dbs: None,
        }
    }

    /// Sets the file-creation permission bits.
    pub fn set_file_mode(self, mode: u32) -> (r: DBEnvBuilder)
        ensures
            r == (DBEnvBuilder { file_mode: Some(mode), ..self }),
    {
        DBEnvBuilder { file_mode: Some(mode), ..self }
    }

    /// Sets the map-size ceiling, in bytes. Must be set before `open` to
    /// take effect.
    pub fn set_map_size(self, size: usize) -> (r: DBEnvBuilder)
        ensures
            r == (DBEnvBuilder { map_size: Some(size), ..self }),
    {
        DBEnvBuilder { map_size: Some(size), ..self }
    }

    /// Sets how many concurrent reader slots to reserve. Must be set
    /// before `open` to take effect.
    pub fn set_max_readers(self, max_readers: usize) -> (r: DBEnvBuilder)
        ensures
            r == (DBEnvBuilder { max_readers: Some(max_readers), ..self }),
    {
        DBEnvBuilder { max_readers: Some(max_readers), ..self }
    }

    /// Sets how many named databases may be created. Must be set before
    /// `open` to take effect.
    pub fn set_max_dbs(self, max_dbs: usize) -> (r: DBEnvBuilder)
        ensures
            r == (DBEnvBuilder { max_dbs: Some(max_dbs), ..self }),
    {
        DBEnvBuilder { max_dbs: Some(max_dbs), ..self }
    }

    /// Opens the environment with the given flags, or the default set
    /// when none is given. A path that is not representable — one holding
    /// an embedded NUL — is refused before any engine work. On success
    /// the configuration is frozen and the store holds one live, empty
    /// default table.
    pub fn open(&self, flags: Option<EnvFlags>) -> (r: Result<DBEnv, LMDBError>)
        ensures
            ({
                let fl = match flags {
                    Some(fl) => fl,
                    None => EnvFlags::spec_empty().spec_no_subdir_set(),
                };
                if encode_utf8(self.db_path@).contains(0u8) {
                    r == Err::<DBEnv, LMDBError>(LMDBError::InvalidInput)
                } else {
                    r matches Ok(env) && env.wf() && env.spec_config() == self.spec_config(fl)
                        && env.spec_path() == self.db_path@ && env.model() == initial_model()
                }
            }),
    {
        let fl = match flags {
            Some(fl) => fl,
            None => EnvFlags::default(),
        };
        if has_nul(self.db_path.as_str().as_bytes()) {
            return Err(LMDBError::InvalidInput);
        }
        let map_size = match self.map_size {
            Some(s) => s,
            None => DEFAULT_MAP_SIZE,
        };
        let max_readers = match self.max_readers {
            Some(n) => n,
            None => DEFAULT_MAX_READERS,
        };
        let max_dbs = match self.max_dbs {
            Some(n) => n,
            None => DEFAULT_MAX_DBS,
        };
        let file_mode = match self.file_mode {
            Some(m) => m,
            None => DEFAULT_FILE_MODE,
        };
        let config = EnvConfig { map_size, max_readers, max_dbs, flags: fl, file_mode };
        let state = EnvState::initial();
        proof {
            assert(state.model() == initial_model());
        }
        Ok(DBEnv { config, path: self.db_path.clone(), state })
    }
}

} // verus!
