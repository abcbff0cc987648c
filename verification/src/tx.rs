//! The transaction guard: exclusive owner of one live session.
//!
//! A `Transaction` is modelled by two ghost sequences of account rows: the
//! committed rows of the session's snapshot, unchanging for its whole life
//! (`base`, in the backend's scan order), and the rows added through this
//! guard (`added`, in insertion order). Reads see `base + added`
//! (read-your-writes); `commit` makes `added` durable and `rollback`
//! discards it. A guard that is released without an explicit commit or
//! rollback rolls back automatically, exactly once, enforced by the
//! `finished` flag that only a finalizing operation sets.

use crate::account::{Account, AccountId, AccountView, Location};
use crate::conn::open_connection;
use crate::error::{describe, StorageError};
use vstd::prelude::*;

verus! {

/// One open transactional session against a storage location.
pub struct Transaction {
    conn: rusqlite::Connection,
    finished: bool,
    base: Ghost<Seq<AccountView>>,
    added: Ghost<Seq<AccountView>>,
}

impl Transaction {
    /// The committed rows of this session's snapshot, in the backend's
    /// scan order; unchanging for the life of the session.
    pub closed spec fn base_rows(self) -> Seq<AccountView> {
        self.base@
    }

    /// The rows added through this guard, in insertion order.
    pub closed spec fn added_rows(self) -> Seq<AccountView> {
        self.added@
    }

    /// Whether no finalizing operation (commit or rollback) has run yet.
    pub closed spec fn is_open(self) -> bool {
        !self.finished
    }

    /// All rows visible within this session: its base followed by its own
    /// additions.
    pub open spec fn visible_rows(self) -> Seq<AccountView> {
        self.base_rows() + self.added_rows()
    }

    /// Well-formedness of the session's additions: no identifier is ever
    /// the sentinel 0, identifiers strictly increase in insertion order,
    /// and every one exceeds every identifier visible at open.
    pub closed spec fn inv(self) -> bool {
        &&& (forall|i: int| 0 <= i < self.added@.len() ==> self.added@[i].id >= 1)
        &&& (forall|i: int, j: int| 0 <= i < j < self.added@.len()
                ==> self.added@[i].id < self.added@[j].id)
        &&& (forall|i: int, j: int| 0 <= i < self.base@.len() && 0 <= j < self.added@.len()
                ==> self.base@[i].id < self.added@[j].id)
    }

    /// Relies on `rusqlite::Connection::execute_batch` with `BEGIN
    /// TRANSACTION`: on success a transactional session is open on this
    /// connection. All its reads see one unchanging set of committed rows —
    /// its base, in the backend's scan order, fixed no later than the
    /// session's first access — plus the session's own later writes;
    /// nothing has been added through it yet.
    #[verifier::external_body]
    fn begin(conn: rusqlite::Connection) -> (r: Result<Transaction, rusqlite::Error>)
        ensures
            (r matches Ok(t) ==> t.added_rows() == Seq::<AccountView>::empty() && t.is_open()),
    {
        match conn.execute_batch("BEGIN TRANSACTION") {
            Ok(()) => Ok(Transaction {
                conn,
                finished: false,
                base: Ghost(arbitrary()),
                added: Ghost(arbitrary()),
            }),
            Err(e) => Err(e),
        }
    }

    /// Relies on `rusqlite::Connection::execute` with `INSERT INTO
    /// accounts` and on `Connection::last_insert_rowid`: on success exactly
    /// one row with the given name is appended to the session's visible
    /// rows, and `last_insert_rowid` returns its engine-assigned
    /// identifier, which is at least 1 and — the id column being `INTEGER
    /// PRIMARY KEY AUTOINCREMENT` — exceeds every identifier already
    /// visible. A failed insert statement leaves the visible rows
    /// unchanged.
    #[verifier::external_body]
    fn insert_account(&mut self, name: &String) -> (r: Result<i64, rusqlite::Error>)
        ensures
            (r matches Ok(id) ==> {
                &&& 1 <= id
                &&& forall|i: int| 0 <= i < old(self).visible_rows().len()
                        ==> old(self).visible_rows()[i].id < id
                &&& final(self).base_rows() == old(self).base_rows()
                &&& final(self).added_rows() == old(self).added_rows().push(
                        (AccountView { id: id as int, name: name@ }))
                &&& final(self).is_open() == old(self).is_open()
            }),
            (r is Err ==> {
                &&& final(self).base_rows() == old(self).base_rows()
                &&& final(self).added_rows() == old(self).added_rows()
                &&& final(self).is_open() == old(self).is_open()
            }),
    {
        match self.conn.execute("INSERT INTO accounts (name) VALUES (?)", (name,)) {
            Ok(_) => Ok(self.conn.last_insert_rowid()),
            Err(e) => Err(e),
        }
    }

    /// Relies on `rusqlite::Connection::prepare` and
    /// `Statement::query_map` over `SELECT id, name FROM accounts`: on
    /// success returns every row visible in this session, one account per
    /// row, in the backend's scan order — the order of the session's model.
    #[verifier::external_body]
    fn query_accounts(&self) -> (r: Result<Vec<Account>, rusqlite::Error>)
        ensures
            (r matches Ok(v) ==> {
                &&& v@.len() == self.visible_rows().len()
                &&& forall|i: int| 0 <= i < v@.len() ==> v@[i]@ == self.visible_rows()[i]
            }),
    {
        let mut stmt = self.conn.prepare("SELECT id, name FROM accounts")?;
        let rows = stmt.query_map((), |row| {
            Ok(Account::from_row(row.get(0)?, row.get(1)?))
        })?;
        rows.collect::<Result<Vec<Account>, rusqlite::Error>>()
    }

    /// Relies on `rusqlite::Connection::execute_batch` with `COMMIT`: on
    /// success every write of this session is made durable at the location
    /// and visible to later sessions.
    #[verifier::external_body]
    fn commit_raw(&mut self) -> (r: Result<(), rusqlite::Error>)
    {
        self.conn.execute_batch("COMMIT")
    }

    /// Relies on `rusqlite::Connection::execute_batch` with `ROLLBACK`: on
    /// success every write of this session is reverted. Reports failure in
    /// its result and does not unwind, so it is safe to attempt during
    /// cleanup.
    #[verifier::external_body]
    fn rollback_raw(&mut self) -> (r: Result<(), rusqlite::Error>)
        opens_invariants none
        no_unwind
    {
        self.conn.execute_batch("ROLLBACK")
    }

    /// Opens a fresh connection against the location and immediately begins
    /// a transactional session on it. On success the guard is open, well
    /// formed, and has no additions of its own yet.
    pub fn new(location: &Location) -> (r: Result<Transaction, StorageError>)
        ensures
            (r matches Ok(t) ==> {
                &&& t.inv()
                &&& t.is_open()
                &&& t.added_rows() == Seq::<AccountView>::empty()
            }),
            (r matches Err(e) ==> e is ConnectionError || e is TransactionError),
    {
        let conn = match open_connection(location) {
            Ok(c) => c,
            Err(e) => {
                return Err(StorageError::ConnectionError(describe(&e)));
            },
        };
        match Transaction::begin(conn) {
            Ok(t) => Ok(t),
            Err(e) => Err(StorageError::TransactionError(describe(&e))),
        }
    }

    /// Inserts one row with the given account's name and returns the
    /// engine-assigned identifier: at least 1, above every identifier
    /// visible before the call, and recorded as the session's newest
    /// addition. On failure the session's rows are unchanged and a
    /// `ConstraintError` is returned.
    pub fn add_account(&mut self, a: &Account) -> (r: Result<AccountId, StorageError>)
        requires
            old(self).inv(),
            a@.name.len() > 0,
        ensures
            final(self).inv(),
            final(self).base_rows() == old(self).base_rows(),
            final(self).is_open() == old(self).is_open(),
            (r matches Ok(id) ==> {
                &&& 1 <= id
                &&& final(self).added_rows() == old(self).added_rows().push(
                        (AccountView { id: id as int, name: a@.name }))
                &&& forall|i: int| 0 <= i < old(self).visible_rows().len()
                        ==> old(self).visible_rows()[i].id < id
                &&& forall|i: int| 0 <= i < old(self).added_rows().len()
                        ==> old(self).added_rows()[i].id < id
                &&& forall|i: int| 0 <= i < old(self).base_rows().len()
                        ==> old(self).base_rows()[i].id < id
            }),
            (r matches Err(e) ==> {
                &&& e is ConstraintError
                &&& final(self).added_rows() == old(self).added_rows()
            }),
    {
        match self.insert_account(a.name()) {
            Ok(id) => {
                proof {
                    let b = old(self).base_rows();
                    let ad = old(self).added_rows();
                    let oldv = old(self).visible_rows();
                    assert forall|i: int| 0 <= i < ad.len() implies ad[i].id < id as int by {
                        assert(oldv[b.len() + i] == ad[i]);
                    }
                    assert forall|i: int| 0 <= i < b.len() implies b[i].id < id as int by {
                        assert(oldv[i] == b[i]);
                    }
                }
                Ok(id)
            },
            Err(e) => Err(StorageError::ConstraintError(describe(&e))),
        }
    }

    /// Returns all rows currently visible within this session, in the
    /// backend's order: the base rows followed by exactly this guard's own
    /// additions. On failure a `QueryError` is returned.
    pub fn get_accounts(&self) -> (r: Result<Vec<Account>, StorageError>)
        ensures
            (r matches Ok(v) ==> {
                &&& v@.len() == self.visible_rows().len()
                &&& forall|i: int| 0 <= i < v@.len() ==> v@[i]@ == self.visible_rows()[i]
            }),
            (r matches Err(e) ==> e is QueryError),
    {
        match self.query_accounts() {
            Ok(v) => Ok(v),
            Err(e) => Err(StorageError::QueryError(describe(&e))),
        }
    }

    /// Finalizes all writes of this session durably. Consumes the guard, so
    /// no further operation — and no automatic rollback — can follow a
    /// successful commit. If the backend rejects the commit, a
    /// `TransactionError` is returned and the guard's release still rolls
    /// the session back.
    pub fn commit(self) -> (r: Result<(), StorageError>)
        ensures
            (r matches Err(e) ==> e is TransactionError),
    {
        let mut this = self;
        match this.commit_raw() {
            Ok(()) => {
                this.finished = true;
                Ok(())
            },
            Err(e) => Err(StorageError::TransactionError(describe(&e))),
        }
    }

    /// Explicitly reverts all writes of this session. Consumes the guard;
    /// the rollback is attempted exactly once, and a backend rejection is
    /// returned to the caller as a `TransactionError`.
    pub fn rollback(self) -> (r: Result<(), StorageError>)
        ensures
            (r matches Err(e) ==> e is TransactionError),
    {
        let mut this = self;
        this.finished = true;
        match this.rollback_raw() {
            Ok(()) => Ok(()),
            Err(e) => Err(StorageError::TransactionError(describe(&e))),
        }
    }
}

impl Drop for Transaction {
    /// Automatic finalization: a guard released while still open rolls its
    /// session back, exactly once. A failure here has no caller left to
    /// receive it and is deliberately discarded.
    fn drop(&mut self)
        opens_invariants none
        no_unwind
    {
        if !self.finished {
            let _ = self.rollback_raw();
        }
    }
}

/// Read-your-writes: what a session reads is its base followed by exactly
/// the rows added through its guard, so after any number of additions every
/// one of them is visible, before any commit or rollback.
pub proof fn lemma_read_your_writes(t: Transaction, rows: Seq<AccountView>)
    requires
        rows == t.visible_rows(),
    ensures
        rows.len() == t.base_rows().len() + t.added_rows().len(),
        rows.subrange(t.base_rows().len() as int, rows.len() as int) == t.added_rows(),
        forall|i: int| 0 <= i < t.added_rows().len()
            ==> rows[t.base_rows().len() + i] == t.added_rows()[i],
{
    assert(rows.subrange(t.base_rows().len() as int, rows.len() as int) =~= t.added_rows());
}

/// Within the rows a well-formed session reads, this guard's own additions
/// form the final segment, and their identifiers strictly increase in
/// insertion order.
pub proof fn lemma_visible_additions_ordered(t: Transaction, rows: Seq<AccountView>)
    requires
        t.inv(),
        rows == t.visible_rows(),
    ensures
        forall|i: int, j: int|
            t.base_rows().len() <= i < j < rows.len() ==> rows[i].id < rows[j].id,
{
    let b = t.base_rows().len() as int;
    assert forall|i: int, j: int|
        b <= i < j < rows.len() implies rows[i].id < rows[j].id by {
        assert(rows[i] == t.added_rows()[i - b]);
        assert(rows[j] == t.added_rows()[j - b]);
    }
}

/// Identifiers assigned within one well-formed session: never the sentinel
/// 0, strictly increasing in insertion order, and above every identifier
/// that was already visible when the session opened.
pub proof fn lemma_session_identifiers(t: Transaction)
    requires
        t.inv(),
    ensures
        forall|i: int| 0 <= i < t.added_rows().len() ==> t.added_rows()[i].id >= 1,
        forall|i: int, j: int| 0 <= i < j < t.added_rows().len()
            ==> t.added_rows()[i].id < t.added_rows()[j].id,
        forall|i: int, j: int| 0 <= i < t.base_rows().len() && 0 <= j < t.added_rows().len()
            ==> t.base_rows()[i].id < t.added_rows()[j].id,
{
}

} // verus!
