//! The storage location descriptor and the account entity.

use vstd::prelude::*;
use vstd::string::StringExecFns;

verus! {

/// Where a connection is opened: an ephemeral in-process store, or a durable
/// single-file store at the given path. Carries no behaviour of its own and
/// is consumed only at connection-open time.
#[derive(Debug, Clone)]
pub enum Location {
    Memory,
    Persistent(String),
}

/// Identifier assigned by the storage engine on insertion.
pub type AccountId = i64;

/// Mathematical model of an account row: its identifier and its name.
pub ghost struct AccountView {
    pub id: int,
    pub name: Seq<char>,
}

/// An account entity: an engine-assigned identifier and a caller-supplied
/// name. A freshly constructed account carries the sentinel identifier 0,
/// which is never a valid stored identifier.
#[derive(Debug, Clone)]
pub struct Account {
    id: i64,
    name: String,
}

impl View for Account {
    type V = AccountView;

    closed spec fn view(&self) -> AccountView {
        AccountView { id: self.id as int, name: self.name@ }
    }
}

impl Account {
    /// A fresh, not-yet-inserted account with the given non-empty name and
    /// the sentinel identifier.
    pub fn new(name: &str) -> (a: Account)
        requires
            name@.len() > 0,
        ensures
            a@.id == 0,
            a@.name == name@,
    {
        Account { id: 0, name: String::from_str(name) }
    }

    /// An account as read back from the store.
    pub(crate) fn from_row(id: i64, name: String) -> (a: Account)
        ensures
            a@.id == id,
            a@.name == name@,
    {
        Account { id, name }
    }

    /// The engine-assigned identifier, or 0 if the account was never stored.
    pub fn id(&self) -> (r: AccountId)
        ensures
            r == self@.id,
    {
        self.id
    }

    /// The account's name.
    pub fn name(&self) -> (r: &String)
        ensures
            r@ == self@.name,
    {
        &self.name
    }
}

} // verus!
