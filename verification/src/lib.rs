//! A minimal transactional data-access layer over an embedded relational
//! store. A `Db` names a storage location (in-memory or a file), `init`
//! creates the account schema idempotently, and `Transaction` owns one live
//! session whose writes either all land (`commit`) or are all reverted
//! (`rollback`, explicit or automatic on release).

pub mod account;
mod conn;
pub mod db;
pub mod error;
pub mod tx;

use vstd::prelude::*;

verus! {

} // verus!
