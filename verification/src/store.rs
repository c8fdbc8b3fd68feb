//! The trusted boundary to the relational store and its connection pool.
//!
//! Everything here is a declaration about outside code: the SQLite
//! bindings (`rusqlite`), the connection pool (`r2d2`) and its SQLite
//! manager (`r2d2_sqlite`).  The pool and its checked-out connections
//! are generic over r2d2's `ManageConnection` trait, which Verus cannot
//! be told about, so they live in private fields of the two opaque
//! structs below.  The bodiless spec functions name what the store holds
//! as seen through one connection; each wrapper states, over those
//! names, what its statement does, as the crates' sources and SQLite's
//! documentation show it.
//!
//! The row sequences are in id (rowid) order.  This library never
//! deletes rows, and SQLite assigns every inserted row a rowid larger
//! than any existing one while rowids are plentiful, so a newly inserted
//! row stands last and `ORDER BY id` reads the rows back in insertion
//! order.

use vstd::prelude::*;

use crate::ledger::{AccountRecord, PostingRecord, Transaction, TransactionRecord};

verus! {

#[verifier::external_type_specification]
#[verifier::external_body]
pub struct ExSqliteError(rusqlite::Error);

#[verifier::external_type_specification]
#[verifier::external_body]
pub struct ExSqliteConnectionManager(r2d2_sqlite::SqliteConnectionManager);

#[verifier::external_type_specification]
#[verifier::external_body]
pub struct ExPoolError(r2d2::Error);

/// One exclusively checked-out connection to the store.  It returns to
/// the pool when dropped, on every exit path.
#[verifier::external_body]
pub struct LedgerConn {
    inner: r2d2::PooledConnection<r2d2_sqlite::SqliteConnectionManager>,
}

/// The bounded pool of reusable connections over the single store of
/// this service.
#[verifier::external_body]
pub struct LedgerPool {
    inner: r2d2::Pool<r2d2_sqlite::SqliteConnectionManager>,
}

/// The rows of the `accounts` table, in id order, as read through this
/// connection.
pub uninterp spec fn db_accounts(conn: LedgerConn) -> Seq<AccountRecord>;

/// The rows of the `transactions` table, in id order, as read through
/// this connection.
pub uninterp spec fn db_transactions(conn: LedgerConn) -> Seq<TransactionRecord>;

/// The rows of the `postings` table, in id order, as read through this
/// connection.
pub uninterp spec fn db_postings(conn: LedgerConn) -> Seq<PostingRecord>;

/// Whether the three tables of the schema exist in the store.
pub uninterp spec fn schema_ready(conn: LedgerConn) -> bool;

/// Whether this connection enforces foreign-key constraints.  Only a
/// `PRAGMA foreign_keys` statement changes the setting, so every other
/// wrapper leaves it as it was.
pub uninterp spec fn fk_enforced(conn: LedgerConn) -> bool;

/// The two connection states read the same ledger contents and keep the
/// same settings.
pub open spec fn same_contents(a: LedgerConn, b: LedgerConn) -> bool {
    db_accounts(a) == db_accounts(b) && db_transactions(a) == db_transactions(b) && db_postings(a)
        == db_postings(b) && schema_ready(a) == schema_ready(b) && fk_enforced(a) == fk_enforced(b)
}

/// Relies on rusqlite's `Connection::execute_batch` running `CREATE TABLE
/// IF NOT EXISTS` statements: tables that exist are left untouched, rows
/// and all, and absent tables are created, so the operation is
/// idempotent.
#[verifier::external_body]
pub(crate) fn exec_create_schema(conn: &mut LedgerConn) -> (r: Result<(), rusqlite::Error>)
    ensures
        r is Ok ==> schema_ready(*final(conn)),
        r is Ok && schema_ready(*old(conn)) ==> same_contents(*old(conn), *final(conn)),
{
    conn.inner.execute_batch(
        "CREATE TABLE IF NOT EXISTS accounts (id INTEGER PRIMARY KEY, name TEXT NOT NULL, kind INTEGER NOT NULL); CREATE TABLE IF NOT EXISTS transactions (id INTEGER PRIMARY KEY, payee TEXT, description TEXT); CREATE TABLE IF NOT EXISTS postings (id INTEGER PRIMARY KEY, date TEXT NOT NULL, amount INTEGER NOT NULL, account INTEGER NOT NULL, \"transaction\" INTEGER NOT NULL, FOREIGN KEY (account) REFERENCES accounts(id), FOREIGN KEY (\"transaction\") REFERENCES transactions(id));",
    )
}

/// Relies on `Connection::execute_batch` running `BEGIN IMMEDIATE`:
/// opening the store's atomic unit writes no row.
#[verifier::external_body]
pub(crate) fn exec_begin(conn: &mut LedgerConn) -> (r: Result<(), rusqlite::Error>)
    ensures
        r is Ok ==> same_contents(*old(conn), *final(conn)),
{
    conn.inner.execute_batch("BEGIN IMMEDIATE")
}

/// Relies on `Connection::execute_batch` running `COMMIT`: the rows
/// staged in the atomic unit become durable, and what this connection
/// reads is exactly what it read before.
#[verifier::external_body]
pub(crate) fn exec_commit(conn: &mut LedgerConn) -> (r: Result<(), rusqlite::Error>)
    ensures
        r is Ok ==> same_contents(*old(conn), *final(conn)),
{
    conn.inner.execute_batch("COMMIT")
}

/// Relies on `Connection::execute_batch` running `ROLLBACK`: the atomic
/// unit is abandoned and the store returns to its last committed state.
/// That earlier state is not tracked here, so nothing is claimed of the
/// contents afterwards.
#[verifier::external_body]
pub(crate) fn exec_rollback(conn: &mut LedgerConn) -> Result<(), rusqlite::Error> {
    conn.inner.execute_batch("ROLLBACK")
}

/// Relies on rusqlite's `Connection::execute` running a single `INSERT`
/// into `transactions` and on `Connection::last_insert_rowid`: on
/// success exactly one row with the given fields and a fresh id is
/// appended, and that id is returned.
#[verifier::external_body]
pub(crate) fn exec_insert_transaction(
    conn: &mut LedgerConn,
    payee: &str,
    description: &str,
) -> (r: Result<i64, rusqlite::Error>)
    ensures
        r is Ok ==> db_transactions(*final(conn)) == db_transactions(*old(conn)).push(
            TransactionRecord { id: r->Ok_0 as int, payee: payee@, description: description@ },
        ),
        r is Ok ==> forall|j: int|
            0 <= j < db_transactions(*old(conn)).len() ==> #[trigger] db_transactions(
                *old(conn),
            )[j].id != r->Ok_0 as int,
        r is Ok ==> db_accounts(*final(conn)) == db_accounts(*old(conn)) && db_postings(
            *final(conn),
        ) == db_postings(*old(conn)) && schema_ready(*final(conn)) == schema_ready(*old(conn))
            && fk_enforced(*final(conn)) == fk_enforced(*old(conn)),
{
    conn.inner.execute(
        "INSERT INTO transactions (payee, description) VALUES (?1, ?2)",
        (payee, description),
    )?;
    Ok(conn.inner.last_insert_rowid())
}

/// Relies on `Connection::execute` running a single `INSERT` into
/// `postings`: on success exactly one row with the given fields is
/// appended.  With foreign keys enforced, an absent referenced account
/// row makes the statement fail as a constraint violation and write
/// nothing, so such an insert never succeeds.
#[verifier::external_body]
pub(crate) fn exec_insert_posting(
    conn: &mut LedgerConn,
    date: &str,
    amount: i64,
    account: i64,
    txn: i64,
) -> (r: Result<(), rusqlite::Error>)
    ensures
        r is Ok ==> db_postings(*final(conn)) == db_postings(*old(conn)).push(
            PostingRecord {
                date: date@,
                amount: amount as int,
                account: account as int,
                txn: txn as int,
            },
        ),
        r is Ok ==> db_accounts(*final(conn)) == db_accounts(*old(conn)) && db_transactions(
            *final(conn),
        ) == db_transactions(*old(conn)) && schema_ready(*final(conn)) == schema_ready(
            *old(conn),
        ) && fk_enforced(*final(conn)) == fk_enforced(*old(conn)),
        fk_enforced(*old(conn)) && !crate::ledger::account_exists(
            db_accounts(*old(conn)),
            account as int,
        ) ==> r is Err,
{
    conn.inner.execute(
        "INSERT INTO postings (date, amount, account, \"transaction\") VALUES (?1, ?2, ?3, ?4)",
        (date, amount, account, txn),
    )?;
    Ok(())
}

/// Relies on `Connection::execute` running a single `INSERT` into
/// `accounts` and on `Connection::last_insert_rowid`: on success exactly
/// one row with the given fields and a fresh id is appended, and that id
/// is returned.
#[verifier::external_body]
pub(crate) fn exec_insert_account(
    conn: &mut LedgerConn,
    name: &str,
    kind: i64,
) -> (r: Result<i64, rusqlite::Error>)
    ensures
        r is Ok ==> db_accounts(*final(conn)) == db_accounts(*old(conn)).push(
            AccountRecord { id: r->Ok_0 as int, name: name@, kind: kind as int },
        ),
        r is Ok ==> forall|j: int|
            0 <= j < db_accounts(*old(conn)).len() ==> #[trigger] db_accounts(*old(conn))[j].id
                != r->Ok_0 as int,
        r is Ok ==> db_transactions(*final(conn)) == db_transactions(*old(conn)) && db_postings(
            *final(conn),
        ) == db_postings(*old(conn)) && schema_ready(*final(conn)) == schema_ready(*old(conn))
            && fk_enforced(*final(conn)) == fk_enforced(*old(conn)),
{
    conn.inner.execute("INSERT INTO accounts (name, kind) VALUES (?1, ?2)", (name, kind))?;
    Ok(conn.inner.last_insert_rowid())
}

/// Relies on rusqlite's `Statement::query_map` over `SELECT id, payee,
/// description FROM transactions ORDER BY id`: on success the returned
/// vector holds exactly the transaction rows, in id order, with
/// named-column access for each field.
#[verifier::external_body]
pub(crate) fn query_transactions(conn: &LedgerConn) -> (r: Result<
    Vec<Transaction>,
    rusqlite::Error,
>)
    ensures
        r is Ok ==> r->Ok_0@.len() == db_transactions(*conn).len(),
        r is Ok ==> forall|j: int|
            0 <= j < db_transactions(*conn).len() ==> r->Ok_0@[j].record()
                == #[trigger] db_transactions(*conn)[j],
{
    let mut stmt = conn.inner.prepare("SELECT id, payee, description FROM transactions ORDER BY id")?;
    let rows = stmt.query_map(
        [],
        |row| Ok(Transaction {
            id: row.get("id")?,
            payee: row.get("payee")?,
            description: row.get("description")?,
        }),
    )?;
    rows.collect()
}

/// Relies on `Statement::query_map` over `SELECT amount FROM postings
/// WHERE account = ?1 ORDER BY id`: on success the returned vector holds
/// exactly the amounts of the posting rows that reference the account,
/// in id order.
#[verifier::external_body]
pub(crate) fn query_account_amounts(conn: &LedgerConn, account: i64) -> (r: Result<
    Vec<i64>,
    rusqlite::Error,
>)
    ensures
        r is Ok ==> crate::ledger::amounts_as_ints(r->Ok_0@) == crate::ledger::amounts_for(
            db_postings(*conn),
            account as int,
        ),
{
    let mut stmt = conn.inner.prepare("SELECT amount FROM postings WHERE account = ?1 ORDER BY id")?;
    let rows = stmt.query_map([account], |row| row.get("amount"))?;
    rows.collect()
}

/// Relies on `Connection::execute_batch` running `PRAGMA foreign_keys =
/// ON`: turning constraint enforcement on for this connection writes no
/// row.  An old or misbuilt SQLite ignores the pragma, so nothing is
/// claimed of the setting afterwards; the read-back below decides.
#[verifier::external_body]
pub(crate) fn exec_enable_foreign_keys(conn: &mut LedgerConn) -> (r: Result<(), rusqlite::Error>)
    ensures
        r is Ok ==> db_accounts(*final(conn)) == db_accounts(*old(conn)) && db_transactions(
            *final(conn),
        ) == db_transactions(*old(conn)) && db_postings(*final(conn)) == db_postings(*old(conn))
            && schema_ready(*final(conn)) == schema_ready(*old(conn)),
{
    conn.inner.execute_batch("PRAGMA foreign_keys = ON")
}

/// Relies on rusqlite's `Connection::query_row` reading `PRAGMA
/// foreign_keys` back: the answer is 1 exactly when this connection
/// enforces foreign keys.  A store built without foreign-key support
/// answers 0 or no row at all; the caller decides on the result.
#[verifier::external_body]
pub(crate) fn query_foreign_keys(conn: &LedgerConn) -> (r: Result<i64, rusqlite::Error>)
    ensures
        r is Ok ==> (r->Ok_0 == 1 <==> fk_enforced(*conn)),
{
    conn.inner.query_row("PRAGMA foreign_keys", [], |row| row.get(0))
}

/// Relies on rusqlite's `Error::sqlite_error_code`: tells a constraint
/// violation (a referenced row is absent) apart from other store
/// failures.
#[verifier::external_body]
pub(crate) fn is_constraint_violation(e: &rusqlite::Error) -> bool {
    match e.sqlite_error_code() {
        Some(code) => code == rusqlite::ffi::ErrorCode::ConstraintViolation,
        None => false,
    }
}

/// Relies on rusqlite's `Display` impl for `Error`: renders the original
/// cause for diagnostics.
#[verifier::external_body]
pub(crate) fn sqlite_error_message(e: &rusqlite::Error) -> String {
    format!("{}", e)
}

/// Relies on r2d2's `Display` impl for `Error`: renders the pool's
/// report, a timed-out or failed connection attempt.
#[verifier::external_body]
pub(crate) fn pool_error_message(e: &r2d2::Error) -> String {
    format!("{}", e)
}

/// Relies on `SqliteConnectionManager::memory`: every connection made by
/// this manager opens the same ephemeral shared-cache in-memory store,
/// which lives until the pool is dropped.
#[verifier::external_body]
pub(crate) fn manager_memory() -> r2d2_sqlite::SqliteConnectionManager {
    r2d2_sqlite::SqliteConnectionManager::memory()
}

/// Relies on `SqliteConnectionManager::file`: every connection made by
/// this manager opens the store file at the given path.
#[verifier::external_body]
pub(crate) fn manager_file(path: &str) -> r2d2_sqlite::SqliteConnectionManager {
    r2d2_sqlite::SqliteConnectionManager::file(path)
}

/// Relies on r2d2's `Pool::builder`, `Builder::max_size`,
/// `Builder::connection_timeout` and `Builder::build`: a pool of at most
/// `size` connections whose acquires wait at most `timeout_ms`
/// milliseconds.  `build` opens the pool's initial connections and
/// reports an error if the store cannot be opened, so startup fails
/// fast.  r2d2 panics on a zero size or timeout, so zero is excluded.
#[verifier::external_body]
pub(crate) fn build_pool(
    manager: r2d2_sqlite::SqliteConnectionManager,
    size: u32,
    timeout_ms: u64,
) -> Result<LedgerPool, r2d2::Error>
    requires
        size >= 1,
        timeout_ms >= 1,
{
    let inner = r2d2::Pool::builder()
        .max_size(size)
        .connection_timeout(std::time::Duration::from_millis(timeout_ms))
        .build(manager)?;
    Ok(LedgerPool { inner })
}

/// Relies on r2d2's `Pool::get`: waits at most the configured connection
/// timeout for a connection to free up; its only error reports that wait
/// timing out.  The connection is checked out exclusively and returns to
/// the pool when dropped, on every exit path.
#[verifier::external_body]
pub(crate) fn pool_get(pool: &LedgerPool) -> Result<LedgerConn, r2d2::Error> {
    Ok(LedgerConn { inner: pool.inner.get()? })
}

} // verus!
