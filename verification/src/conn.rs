//! The trusted boundary to the storage engine's connections.
//!
//! A connection value is opaque to the verifier; opening one depends on the
//! state of the machine (the path may be unwritable, the file corrupt), so
//! the wrappers here promise nothing of their outcome, and the callers state
//! what holds whichever way the open went.

use crate::account::Location;
use vstd::prelude::*;

verus! {

/// The backend's connection type, opaque here: one live session against one
/// location.
#[verifier::external_type_specification]
#[verifier::external_body]
pub struct ExConnection(rusqlite::Connection);

/// Relies on `rusqlite::Connection::open_in_memory`: opens a fresh, empty,
/// private in-process store.
#[verifier::external_body]
fn open_memory_connection() -> Result<rusqlite::Connection, rusqlite::Error> {
    rusqlite::Connection::open_in_memory()
}

/// Relies on `rusqlite::Connection::open`: opens the single-file store at
/// the given path, creating the file if it does not yet exist.
#[verifier::external_body]
fn open_file_connection(path: &String) -> Result<rusqlite::Connection, rusqlite::Error> {
    rusqlite::Connection::open(path)
}

/// A fresh connection against the given location. Whether it succeeds
/// depends on the machine, so nothing is promised of the outcome.
pub(crate) fn open_connection(location: &Location) -> Result<rusqlite::Connection, rusqlite::Error> {
    match location {
        Location::Memory => open_memory_connection(),
        Location::Persistent(path) => open_file_connection(path),
    }
}

/// Relies on `rusqlite::Connection::execute` with `CREATE TABLE IF NOT
/// EXISTS`: succeeds whether or not the accounts table already exists, and
/// never alters a pre-existing table.
#[verifier::external_body]
pub(crate) fn create_accounts_table(conn: &rusqlite::Connection) -> Result<(), rusqlite::Error> {
    let sql = "CREATE TABLE IF NOT EXISTS accounts (
        id INTEGER PRIMARY KEY AUTOINCREMENT,
        name TEXT NOT NULL
    )";
    match conn.execute(sql, ()) {
        Ok(_) => Ok(()),
        Err(e) => Err(e),
    }
}

} // verus!
