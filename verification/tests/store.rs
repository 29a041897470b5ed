//! The environment, transactions, databases and cursors, end to end.

use rlmdb::{DBEnv, DBEnvBuilder, DBFlags, Database, EnvFlags, LMDBError, MDBError, PutFlags};

fn open_env() -> DBEnv {
    DBEnvBuilder::new("test.mdb")
        .set_map_size(1024 * 1024 * 1024)
        .set_max_readers(10)
        .set_max_dbs(5)
        .open(None)
        .unwrap()
}

#[test]
fn put_commit_get_round_trip() {
    // open with a 1 GiB map, 10 readers, 5 named databases
    let mut env = open_env();
    let mut txn = env.begin_txn().unwrap();
    let db: Database<String, Vec<u8>> = env.open_db(&mut txn, None).unwrap();

    txn.put(&db, &"key1".to_string(), &b"value1".to_vec(), None)
        .unwrap();
    txn.put(&db, &"key2".to_string(), &b"value2".to_vec(), None)
        .unwrap();
    assert!(txn.commit(&mut env).unwrap().is_none());

    // reuse the environment for reads only
    let rtxn = env.begin_txn_read_only().unwrap();
    assert_eq!(
        rtxn.get(&db, &"key1".to_string()).unwrap(),
        Some(b"value1".to_vec())
    );
    assert_eq!(
        rtxn.get(&db, &"key2".to_string()).unwrap(),
        Some(b"value2".to_vec())
    );
    assert_eq!(rtxn.get(&db, &"key3".to_string()).unwrap(), None);
}

#[test]
fn get_never_written_is_absent_not_error() {
    let env = open_env();
    let mut txn = env.begin_txn_read_only().unwrap();
    let db: Database<String, Vec<u8>> = env.open_db(&mut txn, None).unwrap();
    assert_eq!(txn.get(&db, &"nothing".to_string()).unwrap(), None);
}

#[test]
fn abort_leaves_committed_state_unchanged() {
    let mut env = open_env();
    let mut txn = env.begin_txn().unwrap();
    let db: Database<String, Vec<u8>> = env.open_db(&mut txn, None).unwrap();
    txn.put(&db, &"base".to_string(), &b"kept".to_vec(), None)
        .unwrap();
    assert!(txn.commit(&mut env).unwrap().is_none());

    let mut txn = env.begin_txn().unwrap();
    txn.put(&db, &"base".to_string(), &b"overwritten".to_vec(), None)
        .unwrap();
    txn.put(&db, &"extra".to_string(), &b"discarded".to_vec(), None)
        .unwrap();
    assert!(txn.abort().is_none());

    let rtxn = env.begin_txn_read_only().unwrap();
    assert_eq!(
        rtxn.get(&db, &"base".to_string()).unwrap(),
        Some(b"kept".to_vec())
    );
    assert_eq!(rtxn.get(&db, &"extra".to_string()).unwrap(), None);
}

#[test]
fn child_abort_keeps_parent_writes() {
    let mut env = open_env();
    let mut txn = env.begin_txn().unwrap();
    let db: Database<String, Vec<u8>> = env.open_db(&mut txn, None).unwrap();
    txn.put(&db, &"parent".to_string(), &b"pv".to_vec(), None)
        .unwrap();

    let mut child = txn.begin_child();
    child
        .put(&db, &"child".to_string(), &b"cv".to_vec(), None)
        .unwrap();
    let txn = child.abort().unwrap();

    // the parent's in-progress write is intact, the child's is gone
    assert_eq!(
        txn.get(&db, &"parent".to_string()).unwrap(),
        Some(b"pv".to_vec())
    );
    assert_eq!(txn.get(&db, &"child".to_string()).unwrap(), None);
}

#[test]
fn child_commit_folds_into_parent_only() {
    let mut env = open_env();
    let mut txn = env.begin_txn().unwrap();
    let db: Database<String, Vec<u8>> = env.open_db(&mut txn, None).unwrap();

    let mut child = txn.begin_child();
    child
        .put(&db, &"folded".to_string(), &b"cv".to_vec(), None)
        .unwrap();
    let txn = child.commit(&mut env).unwrap().unwrap();

    // the fold is visible in the parent but not yet committed
    assert_eq!(
        txn.get(&db, &"folded".to_string()).unwrap(),
        Some(b"cv".to_vec())
    );
    let peek = env.begin_txn_read_only().unwrap();
    assert_eq!(peek.get(&db, &"folded".to_string()).unwrap(), None);
    assert!(peek.abort().is_none());

    assert!(txn.commit(&mut env).unwrap().is_none());
    let rtxn = env.begin_txn_read_only().unwrap();
    assert_eq!(
        rtxn.get(&db, &"folded".to_string()).unwrap(),
        Some(b"cv".to_vec())
    );
}

#[test]
fn no_overwrite_returns_key_exists_and_keeps_value() {
    let mut env = open_env();
    let mut txn = env.begin_txn().unwrap();
    let db: Database<String, Vec<u8>> = env.open_db(&mut txn, None).unwrap();
    txn.put(&db, &"k".to_string(), &b"first".to_vec(), None)
        .unwrap();
    let flags = PutFlags {
        no_overwrite: true,
        ..PutFlags::empty()
    };
    let r = txn.put(&db, &"k".to_string(), &b"second".to_vec(), Some(flags));
    assert!(matches!(r, Err(LMDBError::MDB(MDBError::KeyExists))));
    assert_eq!(
        txn.get(&db, &"k".to_string()).unwrap(),
        Some(b"first".to_vec())
    );
}

#[test]
fn no_dup_data_refuses_identical_pair_only() {
    let mut env = open_env();
    let mut txn = env.begin_txn().unwrap();
    let db: Database<String, Vec<u8>> = env.open_db(&mut txn, None).unwrap();
    txn.put(&db, &"k".to_string(), &b"v".to_vec(), None).unwrap();
    let flags = PutFlags {
        no_dup_data: true,
        ..PutFlags::empty()
    };
    let r = txn.put(&db, &"k".to_string(), &b"v".to_vec(), Some(flags));
    assert!(matches!(r, Err(LMDBError::MDB(MDBError::KeyExists))));
    txn.put(&db, &"k".to_string(), &b"other".to_vec(), Some(flags))
        .unwrap();
    assert_eq!(
        txn.get(&db, &"k".to_string()).unwrap(),
        Some(b"other".to_vec())
    );
}

#[test]
fn open_named_db_same_flags_same_id() {
    let mut env = open_env();
    let mut txn = env.begin_txn().unwrap();
    let a: Database<String, Vec<u8>> = env.open_named_db(&mut txn, "users", None).unwrap();
    let b: Database<String, Vec<u8>> = env.open_named_db(&mut txn, "users", None).unwrap();
    assert_eq!(a.id(), b.id());
    assert_eq!(a.name(), Some("users"));

    let conflicting = DBFlags {
        dup_sort: true,
        ..DBFlags::default()
    };
    let r: Result<Database<String, Vec<u8>>, _> =
        env.open_named_db(&mut txn, "users", Some(conflicting));
    assert!(matches!(r, Err(LMDBError::MDB(MDBError::Incompatible))));
}

#[test]
fn named_databases_are_separate_and_capped() {
    let mut env = DBEnvBuilder::new("test.mdb")
        .set_max_dbs(2)
        .open(None)
        .unwrap();
    let mut txn = env.begin_txn().unwrap();
    let a: Database<String, Vec<u8>> = env.open_named_db(&mut txn, "a", None).unwrap();
    let b: Database<String, Vec<u8>> = env.open_named_db(&mut txn, "b", None).unwrap();
    txn.put(&a, &"k".to_string(), &b"in-a".to_vec(), None)
        .unwrap();
    assert_eq!(txn.get(&b, &"k".to_string()).unwrap(), None);

    let r: Result<Database<String, Vec<u8>>, _> = env.open_named_db(&mut txn, "c", None);
    assert!(matches!(r, Err(LMDBError::MDB(MDBError::DbsFull))));
}

#[test]
fn open_without_create_is_not_found() {
    let env = open_env();
    let mut txn = env.begin_txn().unwrap();
    let r: Result<Database<String, Vec<u8>>, _> =
        env.open_named_db(&mut txn, "absent", Some(DBFlags::empty()));
    assert!(matches!(r, Err(LMDBError::MDB(MDBError::NotFound))));
}

#[test]
fn embedded_nul_in_name_is_invalid_input() {
    let env = open_env();
    let mut txn = env.begin_txn().unwrap();
    let r: Result<Database<String, Vec<u8>>, _> = env.open_named_db(&mut txn, "bad\0name", None);
    assert!(matches!(r, Err(LMDBError::InvalidInput)));
}

#[test]
fn embedded_nul_in_path_is_invalid_input() {
    let r = DBEnvBuilder::new("bad\0path.mdb").open(None);
    assert!(matches!(r, Err(LMDBError::InvalidInput)));
}

#[test]
fn read_only_transaction_refuses_writes() {
    let env = open_env();
    let mut txn = env.begin_txn_read_only().unwrap();
    let db: Database<String, Vec<u8>> = env.open_db(&mut txn, None).unwrap();
    let r = txn.put(&db, &"k".to_string(), &b"v".to_vec(), None);
    assert!(matches!(r, Err(LMDBError::Io(13))));
    let r = txn.delete(&db, &"k".to_string(), None);
    assert!(matches!(r, Err(LMDBError::Io(13))));
}

#[test]
fn read_only_environment_refuses_write_transactions() {
    let flags = EnvFlags {
        read_only: true,
        ..EnvFlags::default()
    };
    let env = DBEnvBuilder::new("test.mdb").open(Some(flags)).unwrap();
    assert!(matches!(env.begin_txn(), Err(LMDBError::Io(13))));
    assert!(env.begin_txn_read_only().is_ok());
}

#[test]
fn delete_removes_and_missing_is_error() {
    let mut env = open_env();
    let mut txn = env.begin_txn().unwrap();
    let db: Database<String, Vec<u8>> = env.open_db(&mut txn, None).unwrap();
    txn.put(&db, &"k".to_string(), &b"v".to_vec(), None).unwrap();
    txn.delete(&db, &"k".to_string(), None).unwrap();
    assert_eq!(txn.get(&db, &"k".to_string()).unwrap(), None);
    let r = txn.delete(&db, &"k".to_string(), None);
    assert!(matches!(r, Err(LMDBError::MDB(MDBError::NotFound))));
}

#[test]
fn delete_with_value_must_match() {
    let mut env = open_env();
    let mut txn = env.begin_txn().unwrap();
    let db: Database<String, Vec<u8>> = env.open_db(&mut txn, None).unwrap();
    txn.put(&db, &"k".to_string(), &b"v".to_vec(), None).unwrap();
    let r = txn.delete(&db, &"k".to_string(), Some(&b"other".to_vec()));
    assert!(matches!(r, Err(LMDBError::MDB(MDBError::NotFound))));
    txn.delete(&db, &"k".to_string(), Some(&b"v".to_vec()))
        .unwrap();
    assert_eq!(txn.get(&db, &"k".to_string()).unwrap(), None);
}

#[test]
fn key_sizes_are_bounded() {
    let mut env = open_env();
    let mut txn = env.begin_txn().unwrap();
    let db: Database<Vec<u8>, Vec<u8>> = env.open_db(&mut txn, None).unwrap();
    let empty: Vec<u8> = Vec::new();
    let r = txn.put(&db, &empty, &b"v".to_vec(), None);
    assert!(matches!(r, Err(LMDBError::MDB(MDBError::BadValSize))));
    let oversize = vec![7u8; 512];
    let r = txn.put(&db, &oversize, &b"v".to_vec(), None);
    assert!(matches!(r, Err(LMDBError::MDB(MDBError::BadValSize))));
    let largest = vec![7u8; 511];
    txn.put(&db, &largest, &b"v".to_vec(), None).unwrap();
}

#[test]
fn dropped_database_handle_goes_stale() {
    let mut env = open_env();
    let mut txn = env.begin_txn().unwrap();
    let db: Database<String, Vec<u8>> = env.open_named_db(&mut txn, "doomed", None).unwrap();
    txn.put(&db, &"k".to_string(), &b"v".to_vec(), None).unwrap();
    env.drop_db(&mut txn, Some("doomed")).unwrap();
    let r = txn.get(&db, &"k".to_string());
    assert!(matches!(r, Err(LMDBError::MDB(MDBError::BadDbi))));
    // dropping a name twice finds nothing the second time
    let r = env.drop_db(&mut txn, Some("doomed"));
    assert!(matches!(r, Err(LMDBError::MDB(MDBError::NotFound))));
}

#[test]
fn dropping_default_database_empties_it() {
    let mut env = open_env();
    let mut txn = env.begin_txn().unwrap();
    let db: Database<String, Vec<u8>> = env.open_db(&mut txn, None).unwrap();
    txn.put(&db, &"k".to_string(), &b"v".to_vec(), None).unwrap();
    env.drop_db(&mut txn, None).unwrap();
    assert_eq!(txn.get(&db, &"k".to_string()).unwrap(), None);
}

#[test]
fn append_requires_ascending_keys() {
    let mut env = open_env();
    let mut txn = env.begin_txn().unwrap();
    let db: Database<String, Vec<u8>> = env.open_db(&mut txn, None).unwrap();
    let append = PutFlags {
        append: true,
        ..PutFlags::empty()
    };
    txn.put(&db, &"a".to_string(), &b"1".to_vec(), Some(append))
        .unwrap();
    txn.put(&db, &"b".to_string(), &b"2".to_vec(), Some(append))
        .unwrap();
    let r = txn.put(&db, &"a".to_string(), &b"3".to_vec(), Some(append));
    assert!(matches!(r, Err(LMDBError::MDB(MDBError::KeyExists))));
    let r = txn.put(&db, &"aa".to_string(), &b"3".to_vec(), Some(append));
    assert!(matches!(r, Err(LMDBError::MDB(MDBError::KeyExists))));
}

#[test]
fn cursor_walks_keys_in_order() {
    let mut env = open_env();
    let mut txn = env.begin_txn().unwrap();
    let db: Database<Vec<u8>, Vec<u8>> = env.open_db(&mut txn, None).unwrap();
    let pairs: Vec<(Vec<u8>, Vec<u8>)> = vec![
        (b"beta".to_vec(), b"2".to_vec()),
        (b"alpha".to_vec(), b"1".to_vec()),
        (b"gamma".to_vec(), b"3".to_vec()),
    ];
    for (k, v) in &pairs {
        txn.put(&db, k, v, None).unwrap();
    }
    let mut cur = txn.cursor(&db).unwrap();
    assert_eq!(
        cur.move_first().unwrap(),
        (b"alpha".to_vec(), b"1".to_vec())
    );
    assert_eq!(cur.move_next().unwrap(), (b"beta".to_vec(), b"2".to_vec()));
    assert_eq!(
        cur.move_next().unwrap(),
        (b"gamma".to_vec(), b"3".to_vec())
    );
    assert!(cur.move_next().is_none());
    assert_eq!(
        cur.current().unwrap(),
        (b"gamma".to_vec(), b"3".to_vec())
    );
    assert_eq!(
        cur.move_prev().unwrap(),
        (b"beta".to_vec(), b"2".to_vec())
    );
    assert_eq!(cur.seek(&b"alpha".to_vec()).unwrap(), b"1".to_vec());
    assert!(cur.seek(&b"missing".to_vec()).is_none());
    assert_eq!(
        cur.move_last().unwrap(),
        (b"gamma".to_vec(), b"3".to_vec())
    );
    assert!(cur.move_prev().is_some());
}

#[test]
fn cursor_on_empty_database_finds_nothing() {
    let env = open_env();
    let mut txn = env.begin_txn_read_only().unwrap();
    let db: Database<Vec<u8>, Vec<u8>> = env.open_db(&mut txn, None).unwrap();
    let mut cur = txn.cursor(&db).unwrap();
    assert!(cur.move_first().is_none());
    assert!(cur.move_last().is_none());
    assert!(cur.current().is_none());
}

#[test]
fn stat_counts_default_table_entries() {
    let mut env = open_env();
    assert_eq!(env.stat().entries, 0);
    let mut txn = env.begin_txn().unwrap();
    let db: Database<String, Vec<u8>> = env.open_db(&mut txn, None).unwrap();
    txn.put(&db, &"k1".to_string(), &b"v".to_vec(), None).unwrap();
    txn.put(&db, &"k2".to_string(), &b"v".to_vec(), None).unwrap();
    txn.put(&db, &"k1".to_string(), &b"w".to_vec(), None).unwrap();
    assert!(txn.commit(&mut env).unwrap().is_none());
    assert_eq!(env.stat().entries, 2);
    assert!(env.sync(true).is_ok());
    assert!(env.sync(false).is_ok());
}

#[test]
fn database_handle_exposes_id_and_name() {
    let env = open_env();
    let mut txn = env.begin_txn().unwrap();
    let default: Database<String, Vec<u8>> = env.open_db(&mut txn, None).unwrap();
    assert_eq!(default.id(), 0);
    assert_eq!(default.name(), None);
    let named: Database<String, Vec<u8>> = env.open_named_db(&mut txn, "table", None).unwrap();
    assert_eq!(named.id(), 1);
    assert_eq!(named.name(), Some("table"));
}

#[test]
fn byte_vector_keys_round_trip() {
    let mut env = open_env();
    let mut txn = env.begin_txn().unwrap();
    let db: Database<Vec<u8>, Vec<u8>> = env.open_db(&mut txn, None).unwrap();
    let key = vec![1u8, 255u8, 3u8];
    let value = vec![9u8, 8u8, 7u8];
    txn.put(&db, &key, &value, None).unwrap();
    assert_eq!(txn.get(&db, &key).unwrap(), Some(value));
}

#[test]
fn grandchild_folds_then_child_abort_discards_both() {
    let mut env = open_env();
    let mut txn = env.begin_txn().unwrap();
    let db: Database<String, Vec<u8>> = env.open_db(&mut txn, None).unwrap();
    txn.put(&db, &"root".to_string(), &b"r".to_vec(), None)
        .unwrap();

    let mut child = txn.begin_child();
    child
        .put(&db, &"child".to_string(), &b"c".to_vec(), None)
        .unwrap();
    let mut grand = child.begin_child();
    grand
        .put(&db, &"grand".to_string(), &b"g".to_vec(), None)
        .unwrap();

    // the grandchild's commit folds into the child alone
    let child = grand.commit(&mut env).unwrap().unwrap();
    assert_eq!(
        child.get(&db, &"grand".to_string()).unwrap(),
        Some(b"g".to_vec())
    );

    // aborting the child now discards its own write and the folded one
    let txn = child.abort().unwrap();
    assert_eq!(txn.get(&db, &"child".to_string()).unwrap(), None);
    assert_eq!(txn.get(&db, &"grand".to_string()).unwrap(), None);
    assert_eq!(
        txn.get(&db, &"root".to_string()).unwrap(),
        Some(b"r".to_vec())
    );

    assert!(txn.commit(&mut env).unwrap().is_none());
    let rtxn = env.begin_txn_read_only().unwrap();
    assert_eq!(
        rtxn.get(&db, &"root".to_string()).unwrap(),
        Some(b"r".to_vec())
    );
    assert_eq!(rtxn.get(&db, &"child".to_string()).unwrap(), None);
}

#[test]
fn fresh_cursor_prev_starts_at_last() {
    let env = open_env();
    let mut txn = env.begin_txn().unwrap();
    let db: Database<Vec<u8>, Vec<u8>> = env.open_db(&mut txn, None).unwrap();
    txn.put(&db, &b"one".to_vec(), &b"1".to_vec(), None).unwrap();
    txn.put(&db, &b"two".to_vec(), &b"2".to_vec(), None).unwrap();
    let mut cur = txn.cursor(&db).unwrap();
    assert_eq!(cur.move_prev().unwrap(), (b"two".to_vec(), b"2".to_vec()));
    assert_eq!(cur.move_prev().unwrap(), (b"one".to_vec(), b"1".to_vec()));
    assert!(cur.move_prev().is_none());
    // the cursor stays on the first record
    assert_eq!(cur.current().unwrap(), (b"one".to_vec(), b"1".to_vec()));
}
