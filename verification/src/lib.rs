//! A safety layer over an embedded, transactional key-value storage engine.
//!
//! The crate models the engine's observable behaviour — a set of named
//! tables holding byte keys and byte values, read and changed through
//! transactions — and builds the resource-lifecycle layer on top of it:
//! environment construction through a builder, a linear commit/abort
//! protocol for transactions (including nested ones), database handles
//! scoped to an environment, typed key/value encoding, and a closed error
//! taxonomy for engine status codes.

pub mod bytecmp;
pub mod codec;
pub mod cursor;
pub mod db;
pub mod dbenv;
pub mod error;
pub mod laws;
pub mod state;
pub mod table;
pub mod txn;

pub use db::DBFlags;
pub use db::Database;
pub use dbenv::DBEnv;
pub use dbenv::DBEnvBuilder;
pub use dbenv::EnvFlags;
pub use dbenv::Stat;
pub use error::LMDBError;
pub use error::MDBError;
pub use txn::PutFlags;
pub use txn::Transaction;
pub use txn::TransactionType;
