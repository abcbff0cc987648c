//! The storage handle: a location descriptor and the operations that open
//! connections against it.

use crate::account::Location;
use crate::conn::{create_accounts_table, open_connection};
use crate::error::{describe, StorageError};
use crate::tx::Transaction;
use vstd::prelude::*;

verus! {

/// A handle on a storage location. It owns no live connection; `init` and
/// `transaction` each open a fresh one against the location.
pub struct Db {
    location: Location,
}

impl Db {
    /// The location this handle was built over.
    pub closed spec fn loc(self) -> Location {
        self.location
    }

    /// Pure construction: records the location, performs no I/O, cannot
    /// fail.
    pub fn new(location: Location) -> (d: Db)
        ensures
            d.loc() == location,
    {
        Db { location }
    }

    /// Ensures the accounts table exists at the location, idempotently: it
    /// succeeds whether or not the table pre-exists and never alters its
    /// shape. Fails with a `ConnectionError` if the location cannot be
    /// opened, and with a `SchemaError` if the backend rejects the schema
    /// statement.
    pub fn init(&self) -> (r: Result<(), StorageError>)
        ensures
            (r matches Err(e) ==> e is ConnectionError || e is SchemaError),
    {
        let conn = match open_connection(&self.location) {
            Ok(c) => c,
            Err(e) => {
                return Err(StorageError::ConnectionError(describe(&e)));
            },
        };
        match create_accounts_table(&conn) {
            Ok(()) => Ok(()),
            Err(e) => Err(StorageError::SchemaError(describe(&e))),
        }
    }

    /// Opens a new connection against the location and immediately begins a
    /// transactional session on it, returning the owned guard: open, well
    /// formed, with no additions of its own yet. Fails with a
    /// `ConnectionError` if the connection cannot be opened, and with a
    /// `TransactionError` if the begin statement is rejected.
    pub fn transaction(&self) -> (r: Result<Transaction, StorageError>)
        ensures
            (r matches Ok(t) ==> {
                &&& t.inv()
                &&& t.is_open()
                &&& t.added_rows() == Seq::<crate::account::AccountView>::empty()
            }),
            (r matches Err(e) ==> e is ConnectionError || e is TransactionError),
    {
        Transaction::new(&self.location)
    }
}

} // verus!
