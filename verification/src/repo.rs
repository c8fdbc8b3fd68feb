//! The ledger repository: translates domain operations into atomic SQL
//! operations over one pooled connection, enforcing the double-entry
//! invariant before anything touches the store, and mapping store
//! failures into the error taxonomy.

use vstd::prelude::*;

use crate::config::Config;
use crate::errors::{ErrorKind, LedgerError};
use crate::ledger::{
    account_exists, account_kind_code, balanced, lemma_amounts_for_balance, posting_rows,
    sum_amounts_exact, validate_postings, AccountKind, AccountRecord, PostingInput, Transaction,
    TransactionRecord,
};
use crate::store::{
    build_pool, db_accounts, db_postings, db_transactions, exec_begin, exec_commit,
    exec_create_schema, exec_enable_foreign_keys, exec_insert_account, exec_insert_posting,
    exec_insert_transaction, exec_rollback, fk_enforced, is_constraint_violation, manager_file,
    manager_memory,
    pool_error_message, pool_get, query_account_amounts, query_foreign_keys, query_transactions,
    same_contents, schema_ready, sqlite_error_message, LedgerConn, LedgerPool,
};

verus! {

/// Maps a store failure into the taxonomy: a constraint violation means
/// a referenced row is absent (`NotFound`); anything else stays a
/// `Store` error.  Either way the original cause is retained.
fn map_store_error(e: rusqlite::Error) -> (r: LedgerError)
    ensures
        r.kind == ErrorKind::NotFound || r.kind == ErrorKind::Store,
{
    let message = sqlite_error_message(&e);
    if is_constraint_violation(&e) {
        LedgerError::new(ErrorKind::NotFound, message)
    } else {
        LedgerError::new(ErrorKind::Store, message)
    }
}

/// Builds the connection pool for the configured store location: the
/// reserved sentinel selects the ephemeral in-memory store, anything
/// else is a file path.  A pool that cannot open the store reports a
/// `Store` error, so startup fails fast.
pub fn init_pool(config: &Config, size: u32, timeout_ms: u64) -> (r: Result<
    LedgerPool,
    LedgerError,
>)
    requires
        size >= 1,
        timeout_ms >= 1,
    ensures
        r is Err ==> r->Err_0.kind == ErrorKind::Store,
{
    let manager = if config.uses_memory_store() {
        manager_memory()
    } else {
        manager_file(config.db_file.as_str())
    };
    match build_pool(manager, size, timeout_ms) {
        Ok(pool) => Ok(pool),
        Err(e) => Err(LedgerError::new(ErrorKind::Store, pool_error_message(&e))),
    }
}

/// Acquires one pooled connection and applies the per-connection setup:
/// foreign-key enforcement is turned on and read back, and a store that
/// does not honour it is refused loudly rather than left silently
/// unconstrained.  When no connection frees up within the configured
/// timeout, the distinct `PoolExhausted` error is returned.
pub fn acquire(pool: &LedgerPool) -> (r: Result<LedgerConn, LedgerError>)
    ensures
        r is Ok ==> fk_enforced(r->Ok_0),
        r is Err ==> r->Err_0.kind == ErrorKind::PoolExhausted || r->Err_0.kind
            == ErrorKind::Store,
{
    let mut conn = match pool_get(pool) {
        Ok(c) => c,
        Err(e) => {
            return Err(LedgerError::new(ErrorKind::PoolExhausted, pool_error_message(&e)));
        },
    };
    if let Err(e) = exec_enable_foreign_keys(&mut conn) {
        return Err(LedgerError::new(ErrorKind::Store, sqlite_error_message(&e)));
    }
    let enforced = match query_foreign_keys(&conn) {
        Ok(v) => v,
        Err(e) => {
            return Err(LedgerError::new(ErrorKind::Store, sqlite_error_message(&e)));
        },
    };
    if enforced != 1 {
        return Err(
            LedgerError::new(ErrorKind::Store, "store does not enforce foreign keys".to_owned()),
        );
    }
    Ok(conn)
}

/// Idempotently ensures the three tables and their foreign-key
/// relationships exist; existing tables and their data are left
/// untouched.  Failure is fatal to startup: the service must not serve
/// with an unverified schema.
pub fn ensure_schema(conn: &mut LedgerConn) -> (r: Result<(), LedgerError>)
    ensures
        r is Ok ==> schema_ready(*final(conn)),
        r is Ok && schema_ready(*old(conn)) ==> same_contents(*old(conn), *final(conn)),
        r is Err ==> r->Err_0.kind == ErrorKind::Store,
{
    match exec_create_schema(conn) {
        Ok(()) => Ok(()),
        Err(e) => Err(LedgerError::new(ErrorKind::Store, sqlite_error_message(&e))),
    }
}

/// Creates a transaction and its postings as one atomic unit and returns
/// the newly assigned transaction id.
///
/// An unbalanced or too-short posting set is rejected with a
/// `Validation` error before the store is touched, so no partial write
/// exists.  A store failure mid-way abandons the atomic unit, and the
/// store keeps its committed state.
pub fn create_transaction(
    conn: &mut LedgerConn,
    payee: &str,
    description: &str,
    postings: &Vec<PostingInput>,
) -> (r: Result<i64, LedgerError>)
    ensures
        (r is Err && r->Err_0.kind == ErrorKind::Validation) <==> !balanced(postings@),
        !balanced(postings@) ==> *final(conn) == *old(conn),
        r is Err ==> r->Err_0.kind == ErrorKind::Validation || r->Err_0.kind == ErrorKind::NotFound
            || r->Err_0.kind == ErrorKind::Store,
        r is Ok ==> db_transactions(*final(conn)) == db_transactions(*old(conn)).push(
            TransactionRecord { id: r->Ok_0 as int, payee: payee@, description: description@ },
        ),
        r is Ok ==> forall|j: int|
            0 <= j < db_transactions(*old(conn)).len() ==> #[trigger] db_transactions(
                *old(conn),
            )[j].id != r->Ok_0 as int,
        r is Ok ==> db_postings(*final(conn)) == db_postings(*old(conn)) + posting_rows(
            postings@,
            r->Ok_0 as int,
        ),
        r is Ok ==> db_accounts(*final(conn)) == db_accounts(*old(conn)) && schema_ready(
            *final(conn),
        ) == schema_ready(*old(conn)) && fk_enforced(*final(conn)) == fk_enforced(*old(conn)),
        r is Ok && fk_enforced(*old(conn)) ==> forall|j: int|
            0 <= j < postings@.len() ==> account_exists(
                db_accounts(*old(conn)),
                (#[trigger] postings@[j]).account as int,
            ),
{
    if let Err(e) = validate_postings(postings) {
        return Err(e);
    }
    if let Err(e) = exec_begin(conn) {
        return Err(map_store_error(e));
    }
    let tid: i64 = match exec_insert_transaction(conn, payee, description) {
        Ok(id) => id,
        Err(e) => {
            let mapped = map_store_error(e);
            let _ = exec_rollback(conn);
            return Err(mapped);
        },
    };
    let mut i: usize = 0;
    while i < postings.len()
        invariant
            0 <= i <= postings@.len(),
            balanced(postings@),
            db_transactions(*conn) == db_transactions(*old(conn)).push(
                TransactionRecord { id: tid as int, payee: payee@, description: description@ },
            ),
            forall|j: int|
                0 <= j < db_transactions(*old(conn)).len() ==> #[trigger] db_transactions(
                    *old(conn),
                )[j].id != tid as int,
            db_postings(*conn) == db_postings(*old(conn)) + posting_rows(
                postings@.take(i as int),
                tid as int,
            ),
            db_accounts(*conn) == db_accounts(*old(conn)),
            schema_ready(*conn) == schema_ready(*old(conn)),
            fk_enforced(*conn) == fk_enforced(*old(conn)),
            fk_enforced(*old(conn)) ==> forall|j: int|
                0 <= j < i ==> account_exists(
                    db_accounts(*old(conn)),
                    (#[trigger] postings@[j]).account as int,
                ),
        decreases postings@.len() - i,
    {
        let p = &postings[i];
        match exec_insert_posting(conn, p.date.as_str(), p.amount, p.account, tid) {
            Ok(()) => {},
            Err(e) => {
                let mapped = map_store_error(e);
                let _ = exec_rollback(conn);
                return Err(mapped);
            },
        }
        proof {
            let ii = i as int;
            assert(postings@.take(ii + 1).drop_last() =~= postings@.take(ii));
            assert(postings@.take(ii + 1).last() == postings@[ii]);
            assert(db_postings(*conn) =~= db_postings(*old(conn)) + posting_rows(
                postings@.take(ii + 1),
                tid as int,
            ));
        }
        i = i + 1;
    }
    proof {
        assert(postings@.take(postings@.len() as int) =~= postings@);
    }
    match exec_commit(conn) {
        Ok(()) => Ok(tid),
        Err(e) => {
            let mapped = map_store_error(e);
            let _ = exec_rollback(conn);
            Err(mapped)
        },
    }
}

/// Lists the recorded transactions (id, payee and description only;
/// postings are not expanded in this minimal read), in ascending id
/// order.
pub fn list_transactions(conn: &LedgerConn) -> (r: Result<Vec<Transaction>, LedgerError>)
    ensures
        r is Ok ==> r->Ok_0@.len() == db_transactions(*conn).len(),
        r is Ok ==> forall|j: int|
            0 <= j < db_transactions(*conn).len() ==> r->Ok_0@[j].record()
                == #[trigger] db_transactions(*conn)[j],
        r is Err ==> r->Err_0.kind == ErrorKind::Store,
{
    match query_transactions(conn) {
        Ok(v) => Ok(v),
        Err(e) => Err(LedgerError::new(ErrorKind::Store, sqlite_error_message(&e))),
    }
}

/// Computes one account's balance: the sum of all posting amounts that
/// reference it, recomputed from the postings at query time.  A balance
/// that exceeds the representable range is reported as a `Store` error
/// rather than returned wrapped.
pub fn get_account_balance(conn: &LedgerConn, account: i64) -> (r: Result<i64, LedgerError>)
    ensures
        r is Ok ==> r->Ok_0 as int == crate::ledger::balance_in(
            db_postings(*conn),
            account as int,
        ),
        r is Err ==> r->Err_0.kind == ErrorKind::Store,
{
    let amounts = match query_account_amounts(conn, account) {
        Ok(v) => v,
        Err(e) => {
            return Err(LedgerError::new(ErrorKind::Store, sqlite_error_message(&e)));
        },
    };
    let total = sum_amounts_exact(&amounts);
    proof {
        lemma_amounts_for_balance(db_postings(*conn), account as int);
    }
    if total < i64::MIN as i128 || total > i64::MAX as i128 {
        return Err(
            LedgerError::new(
                ErrorKind::Store,
                "account balance exceeds the representable range".to_owned(),
            ),
        );
    }
    Ok(total as i64)
}

/// Creates an account: the administrative bootstrap that must precede
/// any posting referencing it.  The name must be non-empty; the kind is
/// stored as its integer code.  Returns the newly assigned account id.
pub fn create_account(conn: &mut LedgerConn, name: &str, kind: AccountKind) -> (r: Result<
    i64,
    LedgerError,
>)
    ensures
        (r is Err && r->Err_0.kind == ErrorKind::Validation) <==> name@.len() == 0,
        name@.len() == 0 ==> *final(conn) == *old(conn),
        r is Err ==> r->Err_0.kind == ErrorKind::Validation || r->Err_0.kind == ErrorKind::NotFound
            || r->Err_0.kind == ErrorKind::Store,
        r is Ok ==> db_accounts(*final(conn)) == db_accounts(*old(conn)).push(
            AccountRecord { id: r->Ok_0 as int, name: name@, kind: account_kind_code(kind) },
        ),
        r is Ok ==> forall|j: int|
            0 <= j < db_accounts(*old(conn)).len() ==> #[trigger] db_accounts(*old(conn))[j].id
                != r->Ok_0 as int,
        r is Ok ==> db_transactions(*final(conn)) == db_transactions(*old(conn)) && db_postings(
            *final(conn),
        ) == db_postings(*old(conn)) && schema_ready(*final(conn)) == schema_ready(*old(conn)),
{
    if name.is_empty() {
        return Err(
            LedgerError::new(ErrorKind::Validation, "account name must not be empty".to_owned()),
        );
    }
    match exec_insert_account(conn, name, kind.code()) {
        Ok(id) => Ok(id),
        Err(e) => Err(map_store_error(e)),
    }
}

} // verus!


