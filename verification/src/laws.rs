//! The laws the store keeps, stated over the model that every operation's
//! contract is written against and proved once and for all.

use vstd::prelude::*;

use crate::db::DBFlags;
use crate::error::LMDBError;
use crate::error::MDBError;
use crate::state::db_live;
use crate::state::has_named;
use crate::state::key_size_ok;
use crate::state::model_get;
use crate::state::model_put;
use crate::state::names_unique;
use crate::state::slot_of;
use crate::state::spec_open_db;
use crate::state::DbModel;
use crate::txn::spec_put;
use crate::txn::PutFlags;
use crate::txn::TransactionType;

verus! {

/// Round trip: once a pair is stored, a lookup of its key in any state
/// that carries that write — in particular in a fresh transaction begun
/// after the write was committed — answers exactly the stored value.
pub proof fn lemma_put_get_round_trip(m: Seq<DbModel>, dbi: int, k: Seq<u8>, v: Seq<u8>)
    requires
        db_live(m, dbi),
    ensures
        model_get(model_put(m, dbi, k, v), dbi, k) == Some(v),
{
}

/// A key never written — or whose only write was discarded with its
/// transaction — has no value: the lookup answers nothing rather than an
/// error.
pub proof fn lemma_get_unwritten_is_absent(m: Seq<DbModel>, dbi: int, k: Seq<u8>)
    requires
        db_live(m, dbi),
        !m[dbi].records.contains_key(k),
    ensures
        model_get(m, dbi, k) is None,
{
}

/// A write to one key leaves every other key's value as it was: what a
/// transaction stores is read back unchanged by keys it did not touch.
pub proof fn lemma_put_leaves_other_keys(m: Seq<DbModel>, dbi: int, k: Seq<u8>, v: Seq<u8>, k2: Seq<
    u8,
>)
    requires
        db_live(m, dbi),
        k2 != k,
    ensures
        model_get(model_put(m, dbi, k, v), dbi, k2) == model_get(m, dbi, k2),
{
}

/// `put` with the no-overwrite option against a present key answers the
/// key-exists error, and — by the operation's contract, which leaves the
/// working state untouched on every error — the stored value stays as it
/// was.
pub proof fn lemma_no_overwrite_refused(
    m: Seq<DbModel>,
    dbi: int,
    k: Seq<u8>,
    v: Seq<u8>,
    f: PutFlags,
)
    requires
        db_live(m, dbi),
        key_size_ok(k),
        f.no_overwrite,
        m[dbi].records.contains_key(k),
    ensures
        spec_put(TransactionType::ReadWrite, m, dbi, k, v, f) == Err::<Seq<DbModel>, LMDBError>(
            LMDBError::MDB(MDBError::KeyExists),
        ),
{
}

/// Opening a name a second time under the same creation options answers
/// the same numeric identifier and changes nothing, whether the second
/// open is read-only or not.
pub proof fn lemma_open_db_same_flags_same_id(
    ro1: bool,
    ro2: bool,
    m: Seq<DbModel>,
    name: Option<Seq<char>>,
    flags: DBFlags,
    max_dbs: usize,
    m2: Seq<DbModel>,
    dbi: int,
)
    requires
        names_unique(m),
        spec_open_db(ro1, m, name, flags, max_dbs) == Ok::<(Seq<DbModel>, int), LMDBError>(
            (m2, dbi),
        ),
    ensures
        spec_open_db(ro2, m2, name, flags, max_dbs) == Ok::<(Seq<DbModel>, int), LMDBError>(
            (m2, dbi),
        ),
{
    if has_named(m, name) {
        assert(m2 == m);
        assert(db_live(m, slot_of(m, name)) && m[slot_of(m, name)].name == name);
    } else {
        let fresh = DbModel {
            name,
            flags: flags.spec_persistent(),
            live: true,
            records: Map::empty(),
        };
        assert(m2 == m.push(fresh));
        assert(m2[m.len() as int] == fresh);
        assert(has_named(m2, name));
        let s = slot_of(m2, name);
        assert(0 <= s < m2.len() && m2[s].live && m2[s].name == name);
        if s < m.len() {
            assert(m2[s] == m[s]);
            assert(has_named(m, name));
        }
        assert(s == m.len());
        assert(m2[s].flags == flags.spec_persistent());
    }
}

/// Opening an existing name under conflicting creation options is refused
/// as incompatible, and the state is left as it was by the operation's
/// contract.
pub proof fn lemma_open_db_conflicting_flags_incompatible(
    ro1: bool,
    ro2: bool,
    m: Seq<DbModel>,
    name: Option<Seq<char>>,
    flags: DBFlags,
    flags2: DBFlags,
    max_dbs: usize,
    m2: Seq<DbModel>,
    dbi: int,
)
    requires
        names_unique(m),
        spec_open_db(ro1, m, name, flags, max_dbs) == Ok::<(Seq<DbModel>, int), LMDBError>(
            (m2, dbi),
        ),
        flags2.spec_persistent() != flags.spec_persistent(),
    ensures
        spec_open_db(ro2, m2, name, flags2, max_dbs) == Err::<(Seq<DbModel>, int), LMDBError>(
            LMDBError::MDB(MDBError::Incompatible),
        ),
{
    lemma_open_db_same_flags_same_id(ro1, ro2, m, name, flags, max_dbs, m2, dbi);
    assert(has_named(m2, name));
    assert(m2[slot_of(m2, name)].flags == flags.spec_persistent());
}

} // verus!
