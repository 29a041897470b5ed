//! The error mapper and the flag sets, on concrete values.

use rlmdb::error::{self, LMDBError, MDBError};
use rlmdb::{DBFlags, EnvFlags, PutFlags};

#[test]
fn error_mapper_zero_is_success() {
    assert!(LMDBError::from_mdb_error(0).is_ok());
}

#[test]
fn error_mapper_known_codes() {
    let cases: Vec<(i32, MDBError)> = vec![
        (error::MDB_KEYEXIST, MDBError::KeyExists),
        (error::MDB_NOTFOUND, MDBError::NotFound),
        (error::MDB_PAGE_NOTFOUND, MDBError::PageNotFound),
        (error::MDB_CORRUPTED, MDBError::Corrupted),
        (error::MDB_PANIC, MDBError::Panic),
        (error::MDB_VERSION_MISMATCH, MDBError::VersionMismatch),
        (error::MDB_INVALID, MDBError::Invalid),
        (error::MDB_MAP_FULL, MDBError::MapFull),
        (error::MDB_DBS_FULL, MDBError::DbsFull),
        (error::MDB_READERS_FULL, MDBError::ReadersFull),
        (error::MDB_TLS_FULL, MDBError::TlsFull),
        (error::MDB_TXN_FULL, MDBError::TxnFull),
        (error::MDB_CURSOR_FULL, MDBError::CursorFull),
        (error::MDB_PAGE_FULL, MDBError::PageFull),
        (error::MDB_MAP_RESIZED, MDBError::MapResized),
        (error::MDB_INCOMPATIBLE, MDBError::Incompatible),
        (error::MDB_BAD_RSLOT, MDBError::BadRslot),
        (error::MDB_BAD_TXN, MDBError::BadTxn),
        (error::MDB_BAD_VALSIZE, MDBError::BadValSize),
        (error::MDB_BAD_DBI, MDBError::BadDbi),
    ];
    for (code, expected) in cases {
        match LMDBError::from_mdb_error(code) {
            Err(LMDBError::MDB(e)) => assert_eq!(e, expected),
            other => panic!("code {} mapped to {:?}", code, other),
        }
    }
}

#[test]
fn error_mapper_exact_code_values() {
    assert_eq!(error::MDB_KEYEXIST, -30799);
    assert_eq!(error::MDB_NOTFOUND, -30798);
    assert_eq!(error::MDB_BAD_DBI, -30780);
}

#[test]
fn error_mapper_unmapped_code_is_io() {
    match LMDBError::from_mdb_error(42) {
        Err(LMDBError::Io(code)) => assert_eq!(code, 42),
        other => panic!("unmapped code gave {:?}", other),
    }
    match LMDBError::from_mdb_error(-1) {
        Err(LMDBError::Io(code)) => assert_eq!(code, -1),
        other => panic!("unmapped code gave {:?}", other),
    }
}

#[test]
fn error_messages_are_fixed_text() {
    assert_eq!(
        MDBError::KeyExists.message(),
        "MDB_KEYEXIST: Key/data pair already exists"
    );
    assert_eq!(
        MDBError::NotFound.message(),
        "MDB_NOTFOUND: No matching key/data pair found"
    );
    assert_eq!(
        LMDBError::MDB(MDBError::MapFull).message(),
        "MDB_MAP_FULL: Environment mapsize limit reached"
    );
    assert!(!LMDBError::Io(7).message().is_empty());
    assert!(!LMDBError::InvalidInput.message().is_empty());
}

#[test]
fn db_flags_default_creates() {
    let f = DBFlags::default();
    assert!(f.create);
    assert_eq!(f.bits(), 0x40000);
    assert_eq!(DBFlags::empty().bits(), 0);
}

#[test]
fn db_flags_bits_encode_each_option() {
    let f = DBFlags {
        reverse_key: true,
        dup_sort: true,
        integer_key: false,
        dup_fixed: false,
        integer_dup: false,
        reverse_dup: false,
        create: true,
    };
    assert_eq!(f.bits(), 0x02 | 0x04 | 0x40000);
    assert_eq!(f.persistent().bits(), 0x02 | 0x04);
}

#[test]
fn env_flags_default_is_no_subdir() {
    let f = EnvFlags::default();
    assert!(f.no_subdir);
    assert_eq!(f.bits(), 0x4000);
    assert_eq!(EnvFlags::empty().bits(), 0);
}

#[test]
fn put_flags_default_is_empty() {
    assert_eq!(PutFlags::default(), PutFlags::empty());
    assert_eq!(PutFlags::empty().bits(), 0);
    let f = PutFlags {
        no_overwrite: true,
        ..PutFlags::empty()
    };
    assert_eq!(f.bits(), 0x10);
}
