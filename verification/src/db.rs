//! Database handles and the options a database is opened or created with.

use core::marker::PhantomData;
use vstd::prelude::*;

verus! {

/// Bit for: keys are compared in reverse byte order.
pub const MDB_REVERSEKEY: u32 = 0x02;

/// Bit for: a key may hold several data items, kept sorted.
pub const MDB_DUPSORT: u32 = 0x04;

/// Bit for: keys are native-endian binary integers of one size.
pub const MDB_INTEGERKEY: u32 = 0x08;

/// Bit for: with sorted duplicates, all data items have one size.
pub const MDB_DUPFIXED: u32 = 0x10;

/// Bit for: duplicate data items are binary integers.
pub const MDB_INTEGERDUP: u32 = 0x20;

/// Bit for: duplicate data items are compared in reverse byte order.
pub const MDB_REVERSEDUP: u32 = 0x40;

/// Bit for: create the named database if it does not exist.
pub const MDB_CREATE: u32 = 0x40000;

/// The options a database is opened or created with: a set over a closed
/// enumeration, encoded to the engine's bitmask only at the boundary.
///
/// All options but `create` are persistent: the engine records them when
/// the database is created, and a later open must name the same set.
#[derive(Debug, Clone, Copy, PartialEq, Eq, Structural)]
pub struct DBFlags {
    /// Compare keys in reverse byte order.
    pub reverse_key: bool,
    /// Allow several sorted data items per key.
    pub dup_sort: bool,
    /// Keys are native-endian binary integers of one size.
    pub integer_key: bool,
    /// With sorted duplicates, all data items have one size.
    pub dup_fixed: bool,
    /// Duplicate data items are binary integers.
    pub integer_dup: bool,
    /// Compare duplicate data items in reverse byte order.
    pub reverse_dup: bool,
    /// Create the named database if it does not exist.
    pub create: bool,
}

impl DBFlags {
    /// The set with no option chosen.
    pub open spec fn spec_empty() -> DBFlags {
        DBFlags {
            reverse_key: false,
            dup_sort: false,
            integer_key: false,
            dup_fixed: false,
            integer_dup: false,
            reverse_dup: false,
            create: false,
        }
    }

    /// The set with no option chosen.
    pub fn empty() -> (r: DBFlags)
        ensures
            r == DBFlags::spec_empty(),
    {
        DBFlags {
            reverse_key: false,
            dup_sort: false,
            integer_key: false,
            dup_fixed: false,
            integer_dup: false,
            reverse_dup: false,
            create: false,
        }
    }

    /// The persistent part: everything but `create`, which only affects
    /// the open call itself.
    pub open spec fn spec_persistent(self) -> DBFlags {
        DBFlags { create: false, ..self }
    }

    /// The persistent part: everything but `create`.
    pub fn persistent(&self) -> (r: DBFlags)
        ensures
            r == self.spec_persistent(),
    {
        DBFlags { create: false, ..*self }
    }

    /// The engine's bitmask for this set.
    pub open spec fn spec_bits(self) -> u32 {
        (if self.reverse_key {
            MDB_REVERSEKEY
        } else {
            0
        }) | (if self.dup_sort {
            MDB_DUPSORT
        } else {
            0
        }) | (if self.integer_key {
            MDB_INTEGERKEY
        } else {
            0
        }) | (if self.dup_fixed {
            MDB_DUPFIXED
        } else {
            0
        }) | (if self.integer_dup {
            MDB_INTEGERDUP
        } else {
            0
        }) | (if self.reverse_dup {
            MDB_REVERSEDUP
        } else {
            0
        }) | (if self.create {
            MDB_CREATE
        } else {
            0
        })
    }

    /// Encodes the set as the engine's bitmask.
    pub fn bits(&self) -> (r: u32)
        ensures
            r == self.spec_bits(),
    {
        (if self.reverse_key {
            MDB_REVERSEKEY
        } else {
            0
        }) | (if self.dup_sort {
            MDB_DUPSORT
        } else {
            0
        }) | (if self.integer_key {
            MDB_INTEGERKEY
        } else {
            0
        }) | (if self.dup_fixed {
            MDB_DUPFIXED
        } else {
            0
        }) | (if self.integer_dup {
            MDB_INTEGERDUP
        } else {
            0
        }) | (if self.reverse_dup {
            MDB_REVERSEDUP
        } else {
            0
        }) | (if self.create {
            MDB_CREATE
        } else {
            0
        })
    }
}

impl Default for DBFlags {
    /// The default asks the engine to create the database if absent.
    fn default() -> (r: DBFlags)
        ensures
            r == DBFlags::spec_empty().spec_create_set(),
    {
        DBFlags {
            reverse_key: false,
            dup_sort: false,
            integer_key: false,
            dup_fixed: false,
            integer_dup: false,
            reverse_dup: false,
            create: true,
        }
    }
}

impl DBFlags {
    /// This set with `create` chosen.
    pub open spec fn spec_create_set(self) -> DBFlags {
        DBFlags { create: true, ..self }
    }
}

/// A handle to a named or default database within one environment: the
/// numeric identifier the engine assigned on first open, the name it was
/// opened under, and phantom typing for the key and value codecs it was
/// opened with, so a mismatched codec at a call site is rejected before
/// reaching any storage.
#[verifier::reject_recursive_types(K)]
#[verifier::reject_recursive_types(V)]
#[derive(Debug)]
pub struct Database<K, V> {
    /// The numeric identifier the engine assigned.
    pub raw_dbi: u32,
    /// The name the database was opened under; the default table has none.
    pub db_name: Option<String>,
    /// Ties the handle to the key and value types it was opened with.
    pub marker: PhantomData<(K, V)>,
}

impl<K, V> Database<K, V> {
    /// The handle's slot in the environment model.
    pub open spec fn dbi(self) -> int {
        self.raw_dbi as int
    }

    /// The name the handle was opened under, as a character sequence.
    pub open spec fn name_view(self) -> Option<Seq<char>> {
        match self.db_name {
            Some(s) => Some(s@),
            None => None,
        }
    }

    /// Makes a handle from the identifier the engine assigned.
    pub(crate) fn from_dbi(raw_dbi: u32, db_name: Option<String>) -> (r: Database<K, V>)
        ensures
            r.raw_dbi == raw_dbi,
            r.db_name == db_name,
    {
        Database { raw_dbi, db_name, marker: PhantomData }
    }

    /// The numeric identifier the engine assigned on first open.
    pub fn id(&self) -> (r: u32)
        ensures
            r == self.raw_dbi,
    {
        self.raw_dbi
    }

    /// The name the database was opened under, if it is a named one.
    pub fn name(&self) -> (r: Option<&str>)
        ensures
            match r {
                Some(s) => self.name_view() == Some(s@),
                None => self.name_view() is None,
            },
    {
        match &self.db_name {
            Some(s) => Some(s.as_str()),
            None => None,
        }
    }
}

} // verus!
