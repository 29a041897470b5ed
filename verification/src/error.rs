//! The error taxonomy, and the pure mapper from engine status codes to it.
//!
//! Every engine call answers with a signed status code: zero means success,
//! a closed set of negative codes names the engine's own failure conditions,
//! and anything else is an OS-level code passed through unchanged.

use vstd::prelude::*;

verus! {

/// Status code for a successful engine call.
pub const MDB_SUCCESS: i32 = 0;

/// Key/data pair already exists.
pub const MDB_KEYEXIST: i32 = -30799;

/// No matching key/data pair found.
pub const MDB_NOTFOUND: i32 = -30798;

/// Requested page not found — usually indicates corruption.
pub const MDB_PAGE_NOTFOUND: i32 = -30797;

/// Located page was of the wrong type.
pub const MDB_CORRUPTED: i32 = -30796;

/// Update of the meta page failed, or the environment had a fatal error.
pub const MDB_PANIC: i32 = -30795;

/// Environment version mismatch.
pub const MDB_VERSION_MISMATCH: i32 = -30794;

/// File is not a valid database file.
pub const MDB_INVALID: i32 = -30793;

/// Environment map-size limit reached.
pub const MDB_MAP_FULL: i32 = -30792;

/// Environment max-databases limit reached.
pub const MDB_DBS_FULL: i32 = -30791;

/// Environment max-readers limit reached.
pub const MDB_READERS_FULL: i32 = -30790;

/// Too many thread-local storage keys in use.
pub const MDB_TLS_FULL: i32 = -30789;

/// Transaction has too many dirty pages.
pub const MDB_TXN_FULL: i32 = -30788;

/// Cursor stack limit reached — internal error.
pub const MDB_CURSOR_FULL: i32 = -30787;

/// Page has no more space — internal error.
pub const MDB_PAGE_FULL: i32 = -30786;

/// Database contents grew beyond the environment map size.
pub const MDB_MAP_RESIZED: i32 = -30785;

/// Operation and database incompatible, or database flags changed.
pub const MDB_INCOMPATIBLE: i32 = -30784;

/// Invalid reuse of a reader locktable slot.
pub const MDB_BAD_RSLOT: i32 = -30783;

/// Transaction must abort, has a child, or is invalid.
pub const MDB_BAD_TXN: i32 = -30782;

/// Unsupported size of key, database name, or data.
pub const MDB_BAD_VALSIZE: i32 = -30781;

/// The specified database handle was closed or changed unexpectedly.
pub const MDB_BAD_DBI: i32 = -30780;

/// OS-level code for an operation refused in a read-only context.
pub const ENGINE_EACCES: i32 = 13;

/// The engine's own failure conditions, one variant per status code.
#[derive(Debug, Clone, Copy, PartialEq, Eq, Structural)]
pub enum MDBError {
    /// Key/data pair already exists.
    KeyExists,
    /// No matching key/data pair found.
    NotFound,
    /// Requested page not found — usually indicates corruption.
    PageNotFound,
    /// Located page was of the wrong type.
    Corrupted,
    /// Update of the meta page failed, or the environment had a fatal error.
    Panic,
    /// Environment version mismatch.
    VersionMismatch,
    /// File is not a valid database file.
    Invalid,
    /// Environment map-size limit reached.
    MapFull,
    /// Environment max-databases limit reached.
    DbsFull,
    /// Environment max-readers limit reached.
    ReadersFull,
    /// Too many thread-local storage keys in use.
    TlsFull,
    /// Transaction has too many dirty pages.
    TxnFull,
    /// Cursor stack limit reached — internal error.
    CursorFull,
    /// Page has no more space — internal error.
    PageFull,
    /// Database contents grew beyond the environment map size.
    MapResized,
    /// Operation and database incompatible, or database flags changed.
    Incompatible,
    /// Invalid reuse of a reader locktable slot.
    BadRslot,
    /// Transaction must abort, has a child, or is invalid.
    BadTxn,
    /// Unsupported size of key, database name, or data.
    BadValSize,
    /// The specified database handle was closed or changed unexpectedly.
    BadDbi,
}

/// Any failure this layer reports: an engine condition, an unmapped
/// OS-level status code, or a local validation failure caught before any
/// engine work was done.
#[derive(Debug, Clone, Copy, PartialEq, Eq, Structural)]
pub enum LMDBError {
    /// The engine reported one of its own failure conditions.
    MDB(MDBError),
    /// An OS-level status code outside the engine's closed set.
    Io(i32),
    /// An input was rejected by this layer before any engine work:
    /// a path or database name holding an embedded NUL byte.
    InvalidInput,
}

/// What `LMDBError::from_mdb_error` returns for each status code:
/// zero is success, each known engine code names its variant, and any
/// other code is wrapped unchanged as an OS-level error.
pub open spec fn spec_from_code(code: i32) -> Result<(), LMDBError> {
    if code == MDB_SUCCESS {
        Ok(())
    } else if code == MDB_KEYEXIST {
        Err(LMDBError::MDB(MDBError::KeyExists))
    } else if code == MDB_NOTFOUND {
        Err(LMDBError::MDB(MDBError::NotFound))
    } else if code == MDB_PAGE_NOTFOUND {
        Err(LMDBError::MDB(MDBError::PageNotFound))
    } else if code == MDB_CORRUPTED {
        Err(LMDBError::MDB(MDBError::Corrupted))
    } else if code == MDB_PANIC {
        Err(LMDBError::MDB(MDBError::Panic))
    } else if code == MDB_VERSION_MISMATCH {
        Err(LMDBError::MDB(MDBError::VersionMismatch))
    } else if code == MDB_INVALID {
        Err(LMDBError::MDB(MDBError::Invalid))
    } else if code == MDB_MAP_FULL {
        Err(LMDBError::MDB(MDBError::MapFull))
    } else if code == MDB_DBS_FULL {
        Err(LMDBError::MDB(MDBError::DbsFull))
    } else if code == MDB_READERS_FULL {
        Err(LMDBError::MDB(MDBError::ReadersFull))
    } else if code == MDB_TLS_FULL {
        Err(LMDBError::MDB(MDBError::TlsFull))
    } else if code == MDB_TXN_FULL {
        Err(LMDBError::MDB(MDBError::TxnFull))
    } else if code == MDB_CURSOR_FULL {
        Err(LMDBError::MDB(MDBError::CursorFull))
    } else if code == MDB_PAGE_FULL {
        Err(LMDBError::MDB(MDBError::PageFull))
    } else if code == MDB_MAP_RESIZED {
        Err(LMDBError::MDB(MDBError::MapResized))
    } else if code == MDB_INCOMPATIBLE {
        Err(LMDBError::MDB(MDBError::Incompatible))
    } else if code == MDB_BAD_RSLOT {
        Err(LMDBError::MDB(MDBError::BadRslot))
    } else if code == MDB_BAD_TXN {
        Err(LMDBError::MDB(MDBError::BadTxn))
    } else if code == MDB_BAD_VALSIZE {
        Err(LMDBError::MDB(MDBError::BadValSize))
    } else if code == MDB_BAD_DBI {
        Err(LMDBError::MDB(MDBError::BadDbi))
    } else {
        Err(LMDBError::Io(code))
    }
}

impl MDBError {
    /// The fixed, human-readable description of each engine condition.
    pub open spec fn spec_message(self) -> Seq<char> {
        match self {
            MDBError::KeyExists => "MDB_KEYEXIST: Key/data pair already exists"@,
            MDBError::NotFound => "MDB_NOTFOUND: No matching key/data pair found"@,
            MDBError::PageNotFound => "MDB_PAGE_NOTFOUND: Requested page not found"@,
            MDBError::Corrupted => "MDB_CORRUPTED: Located page was wrong type"@,
            MDBError::Panic => "MDB_PANIC: Update of meta page failed or environment had fatal error"@,
            MDBError::VersionMismatch => "MDB_VERSION_MISMATCH: Database environment version mismatch"@,
            MDBError::Invalid => "MDB_INVALID: File is not an LMDB file"@,
            MDBError::MapFull => "MDB_MAP_FULL: Environment mapsize limit reached"@,
            MDBError::DbsFull => "MDB_DBS_FULL: Environment maxdbs limit reached"@,
            MDBError::ReadersFull => "MDB_READERS_FULL: Environment maxreaders limit reached"@,
            MDBError::TlsFull => "MDB_TLS_FULL: Thread-local storage keys full - too many environments open"@,
            MDBError::TxnFull => "MDB_TXN_FULL: Transaction has too many dirty pages - transaction too big"@,
            MDBError::CursorFull => "MDB_CURSOR_FULL: Internal error - cursor stack limit reached"@,
            MDBError::PageFull => "MDB_PAGE_FULL: Internal error - page has no more space"@,
            MDBError::MapResized => "MDB_MAP_RESIZED: Database contents grew beyond environment mapsize"@,
            MDBError::Incompatible => "MDB_INCOMPATIBLE: Operation and DB incompatible, or DB flags changed"@,
            MDBError::BadRslot => "MDB_BAD_RSLOT: Invalid reuse of reader locktable slot"@,
            MDBError::BadTxn => "MDB_BAD_TXN: Transaction must abort, has a child, or is invalid"@,
            MDBError::BadValSize => "MDB_BAD_VALSIZE: Unsupported size of key/DB name/data, or wrong DUPFIXED size"@,
            MDBError::BadDbi => "MDB_BAD_DBI: The specified DBI handle was closed/changed unexpectedly"@,
        }
    }

    /// The fixed, human-readable description of this engine condition.
    pub fn message(&self) -> (r: &'static str)
        ensures
            r@ == self.spec_message(),
    {
        match self {
            MDBError::KeyExists => "MDB_KEYEXIST: Key/data pair already exists",
            MDBError::NotFound => "MDB_NOTFOUND: No matching key/data pair found",
            MDBError::PageNotFound => "MDB_PAGE_NOTFOUND: Requested page not found",
            MDBError::Corrupted => "MDB_CORRUPTED: Located page was wrong type",
            MDBError::Panic => "MDB_PANIC: Update of meta page failed or environment had fatal error",
            MDBError::VersionMismatch => "MDB_VERSION_MISMATCH: Database environment version mismatch",
            MDBError::Invalid => "MDB_INVALID: File is not an LMDB file",
            MDBError::MapFull => "MDB_MAP_FULL: Environment mapsize limit reached",
            MDBError::DbsFull => "MDB_DBS_FULL: Environment maxdbs limit reached",
            MDBError::ReadersFull => "MDB_READERS_FULL: Environment maxreaders limit reached",
            MDBError::TlsFull => "MDB_TLS_FULL: Thread-local storage keys full - too many environments open",
            MDBError::TxnFull => "MDB_TXN_FULL: Transaction has too many dirty pages - transaction too big",
            MDBError::CursorFull => "MDB_CURSOR_FULL: Internal error - cursor stack limit reached",
            MDBError::PageFull => "MDB_PAGE_FULL: Internal error - page has no more space",
            MDBError::MapResized => "MDB_MAP_RESIZED: Database contents grew beyond environment mapsize",
            MDBError::Incompatible => "MDB_INCOMPATIBLE: Operation and DB incompatible, or DB flags changed",
            MDBError::BadRslot => "MDB_BAD_RSLOT: Invalid reuse of reader locktable slot",
            MDBError::BadTxn => "MDB_BAD_TXN: Transaction must abort, has a child, or is invalid",
            MDBError::BadValSize => "MDB_BAD_VALSIZE: Unsupported size of key/DB name/data, or wrong DUPFIXED size",
            MDBError::BadDbi => "MDB_BAD_DBI: The specified DBI handle was closed/changed unexpectedly",
        }
    }
}

impl LMDBError {
    /// The fixed, human-readable description of each error.
    pub open spec fn spec_message(self) -> Seq<char> {
        match self {
            LMDBError::MDB(e) => e.spec_message(),
            LMDBError::Io(_) => "I/O error: engine returned an OS-level status code"@,
            LMDBError::InvalidInput => "invalid input: embedded NUL byte in a path or database name"@,
        }
    }

    /// Translates an engine status code: zero maps to success, each known
    /// non-zero code to its named engine condition, and any other code to
    /// an OS-level error carrying the raw code. Pure and total.
    pub fn from_mdb_error(err_code: i32) -> (r: Result<(), LMDBError>)
        ensures
            r == spec_from_code(err_code),
    {
        if err_code == MDB_SUCCESS {
            Ok(())
        } else if err_code == MDB_KEYEXIST {
            Err(LMDBError::MDB(MDBError::KeyExists))
        } else if err_code == MDB_NOTFOUND {
            Err(LMDBError::MDB(MDBError::NotFound))
        } else if err_code == MDB_PAGE_NOTFOUND {
            Err(LMDBError::MDB(MDBError::PageNotFound))
        } else if err_code == MDB_CORRUPTED {
            Err(LMDBError::MDB(MDBError::Corrupted))
        } else if err_code == MDB_PANIC {
            Err(LMDBError::MDB(MDBError::Panic))
        } else if err_code == MDB_VERSION_MISMATCH {
            Err(LMDBError::MDB(MDBError::VersionMismatch))
        } else if err_code == MDB_INVALID {
            Err(LMDBError::MDB(MDBError::Invalid))
        } else if err_code == MDB_MAP_FULL {
            Err(LMDBError::MDB(MDBError::MapFull))
        } else if err_code == MDB_DBS_FULL {
            Err(LMDBError::MDB(MDBError::DbsFull))
        } else if err_code == MDB_READERS_FULL {
            Err(LMDBError::MDB(MDBError::ReadersFull))
        } else if err_code == MDB_TLS_FULL {
            Err(LMDBError::MDB(MDBError::TlsFull))
        } else if err_code == MDB_TXN_FULL {
            Err(LMDBError::MDB(MDBError::TxnFull))
        } else if err_code == MDB_CURSOR_FULL {
            Err(LMDBError::MDB(MDBError::CursorFull))
        } else if err_code == MDB_PAGE_FULL {
            Err(LMDBError::MDB(MDBError::PageFull))
        } else if err_code == MDB_MAP_RESIZED {
            Err(LMDBError::MDB(MDBError::MapResized))
        } else if err_code == MDB_INCOMPATIBLE {
            Err(LMDBError::MDB(MDBError::Incompatible))
        } else if err_code == MDB_BAD_RSLOT {
            Err(LMDBError::MDB(MDBError::BadRslot))
        } else if err_code == MDB_BAD_TXN {
            Err(LMDBError::MDB(MDBError::BadTxn))
        } else if err_code == MDB_BAD_VALSIZE {
            Err(LMDBError::MDB(MDBError::BadValSize))
        } else if err_code == MDB_BAD_DBI {
            Err(LMDBError::MDB(MDBError::BadDbi))
        } else {
            Err(LMDBError::Io(err_code))
        }
    }

    /// The fixed, human-readable description of this error.
    pub fn message(&self) -> (r: &'static str)
        ensures
            r@ == self.spec_message(),
    {
        match self {
            LMDBError::MDB(e) => e.message(),
            LMDBError::Io(_) => "I/O error: engine returned an OS-level status code",
            LMDBError::InvalidInput => "invalid input: embedded NUL byte in a path or database name",
        }
    }
}

} // verus!
