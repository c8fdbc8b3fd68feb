use kleingeld::config::Config;
use kleingeld::errors::ErrorKind;
use kleingeld::ledger::{AccountKind, PostingInput};
use kleingeld::repo::{
    acquire, create_account, create_transaction, ensure_schema, get_account_balance, init_pool,
    list_transactions,
};
use kleingeld::store::LedgerPool;

fn memory_pool(size: u32, timeout_ms: u64) -> LedgerPool {
    let config = Config::default();
    init_pool(&config, size, timeout_ms).expect("pool over the in-memory store")
}

fn posting(account: i64, amount: i64) -> PostingInput {
    PostingInput { account, amount, date: "2024-01-15".to_owned() }
}

fn ready_ledger() -> LedgerPool {
    let pool = memory_pool(2, 2_000);
    let mut conn = acquire(&pool).expect("connection");
    ensure_schema(&mut conn).expect("schema");
    pool
}

#[test]
fn config_defaults() {
    assert_eq!(Config::default_address(), [127, 0, 0, 1]);
    assert_eq!(Config::default_port(), 4000);
    assert_eq!(Config::default_db_file(), "memory");
    let config = Config::default();
    assert_eq!(config.address, [127, 0, 0, 1]);
    assert_eq!(config.port, 4000);
    assert_eq!(config.db_file, "memory");
    assert!(config.uses_memory_store());
    let on_disk = Config { db_file: "ledger.db".to_owned(), ..Config::default() };
    assert!(!on_disk.uses_memory_store());
}

#[test]
fn status_codes_by_kind() {
    let cases = [
        (ErrorKind::Validation, 422u16),
        (ErrorKind::NotFound, 404u16),
        (ErrorKind::PoolExhausted, 503u16),
        (ErrorKind::Store, 500u16),
    ];
    for (kind, status) in cases {
        let err = kleingeld::errors::LedgerError::new(kind, "cause".to_owned());
        assert_eq!(err.status_code(), status);
        assert_eq!(err.kind, kind);
        assert_eq!(err.message, "cause");
    }
}

#[test]
fn account_kind_codes() {
    assert_eq!(AccountKind::Asset.code(), 0);
    assert_eq!(AccountKind::Liability.code(), 1);
    assert_eq!(AccountKind::Equity.code(), 2);
    assert_eq!(AccountKind::Income.code(), 3);
    assert_eq!(AccountKind::Expense.code(), 4);
}

#[test]
fn validate_accepts_balanced_sets() {
    assert!(kleingeld::ledger::validate_postings(&vec![posting(1, 1000), posting(2, -1000)])
        .is_ok());
    assert!(kleingeld::ledger::validate_postings(&vec![
        posting(1, i64::MAX),
        posting(2, i64::MIN + 2),
        posting(3, -1),
    ])
    .is_ok());
}

#[test]
fn validate_rejects_unbalanced_and_short_sets() {
    let r = kleingeld::ledger::validate_postings(&vec![posting(1, 1000), posting(2, -999)]);
    assert_eq!(r.err().map(|e| e.kind), Some(ErrorKind::Validation));
    let r = kleingeld::ledger::validate_postings(&vec![]);
    assert_eq!(r.err().map(|e| e.kind), Some(ErrorKind::Validation));
    let r = kleingeld::ledger::validate_postings(&vec![posting(1, 0)]);
    assert_eq!(r.err().map(|e| e.kind), Some(ErrorKind::Validation));
    let r = kleingeld::ledger::validate_postings(&vec![
        posting(1, i64::MAX),
        posting(2, i64::MAX),
        posting(3, -2),
    ]);
    assert_eq!(r.err().map(|e| e.kind), Some(ErrorKind::Validation));
}

#[test]
fn end_to_end_sale() {
    let pool = ready_ledger();
    let mut conn = acquire(&pool).expect("connection");
    let cash = create_account(&mut conn, "Cash", AccountKind::Asset).expect("cash account");
    let revenue =
        create_account(&mut conn, "Revenue", AccountKind::Income).expect("revenue account");
    let id = create_transaction(
        &mut conn,
        "Acme",
        "Sale",
        &vec![posting(cash, 1000), posting(revenue, -1000)],
    )
    .expect("balanced create succeeds");
    let listed = list_transactions(&conn).expect("list");
    assert_eq!(listed.len(), 1);
    assert_eq!(listed[0].id, id);
    assert_eq!(listed[0].payee, "Acme");
    assert_eq!(listed[0].description, "Sale");
    assert_eq!(get_account_balance(&conn, cash).expect("cash balance"), 1000);
    assert_eq!(get_account_balance(&conn, revenue).expect("revenue balance"), -1000);
}

#[test]
fn unbalanced_create_persists_nothing() {
    let pool = ready_ledger();
    let mut conn = acquire(&pool).expect("connection");
    let cash = create_account(&mut conn, "Cash", AccountKind::Asset).expect("cash account");
    let r = create_transaction(&mut conn, "Acme", "Sale", &vec![posting(cash, 5), posting(cash, 5)]);
    assert_eq!(r.err().map(|e| e.kind), Some(ErrorKind::Validation));
    assert_eq!(list_transactions(&conn).expect("list").len(), 0);
    assert_eq!(get_account_balance(&conn, cash).expect("balance"), 0);
}

#[test]
fn missing_account_persists_nothing() {
    let pool = ready_ledger();
    let mut conn = acquire(&pool).expect("connection");
    let cash = create_account(&mut conn, "Cash", AccountKind::Asset).expect("cash account");
    let r = create_transaction(
        &mut conn,
        "Acme",
        "Sale",
        &vec![posting(cash, 700), posting(cash + 41, -700)],
    );
    match r {
        Err(e) => assert!(e.kind == ErrorKind::NotFound || e.kind == ErrorKind::Store),
        Ok(_) => panic!("create referencing an absent account must fail"),
    }
    assert_eq!(list_transactions(&conn).expect("list").len(), 0);
    assert_eq!(get_account_balance(&conn, cash).expect("balance"), 0);
}

#[test]
fn empty_account_name_rejected() {
    let pool = ready_ledger();
    let mut conn = acquire(&pool).expect("connection");
    let r = create_account(&mut conn, "", AccountKind::Asset);
    assert_eq!(r.err().map(|e| e.kind), Some(ErrorKind::Validation));
}

#[test]
fn schema_setup_is_idempotent() {
    let pool = ready_ledger();
    let mut conn = acquire(&pool).expect("connection");
    let cash = create_account(&mut conn, "Cash", AccountKind::Asset).expect("cash account");
    let equity = create_account(&mut conn, "Equity", AccountKind::Equity).expect("equity account");
    create_transaction(&mut conn, "Seed", "Opening", &vec![posting(cash, 42), posting(equity, -42)])
        .expect("create");
    ensure_schema(&mut conn).expect("second run succeeds");
    ensure_schema(&mut conn).expect("third run succeeds");
    assert_eq!(list_transactions(&conn).expect("list").len(), 1);
    assert_eq!(get_account_balance(&conn, cash).expect("balance"), 42);
}

#[test]
fn balances_accumulate_per_call_contributions() {
    let pool = ready_ledger();
    let mut conn = acquire(&pool).expect("connection");
    let a = create_account(&mut conn, "A", AccountKind::Asset).expect("account");
    let b = create_account(&mut conn, "B", AccountKind::Income).expect("account");
    let c = create_account(&mut conn, "C", AccountKind::Expense).expect("account");
    create_transaction(&mut conn, "one", "", &vec![posting(a, 10), posting(b, -10)])
        .expect("create");
    create_transaction(&mut conn, "two", "", &vec![posting(a, 25), posting(c, -25)])
        .expect("create");
    create_transaction(&mut conn, "three", "", &vec![posting(b, -7), posting(c, 7)])
        .expect("create");
    assert_eq!(get_account_balance(&conn, a).expect("a"), 35);
    assert_eq!(get_account_balance(&conn, b).expect("b"), -17);
    assert_eq!(get_account_balance(&conn, c).expect("c"), -18);
    assert_eq!(list_transactions(&conn).expect("list").len(), 3);
}

#[test]
fn listing_preserves_creation_order() {
    let pool = ready_ledger();
    let mut conn = acquire(&pool).expect("connection");
    let a = create_account(&mut conn, "A", AccountKind::Asset).expect("account");
    let b = create_account(&mut conn, "B", AccountKind::Income).expect("account");
    for n in 0..4i64 {
        let payee = format!("payee-{}", n);
        create_transaction(&mut conn, &payee, "batch", &vec![posting(a, n + 1), posting(b, -(n + 1))])
            .expect("create");
    }
    let listed = list_transactions(&conn).expect("list");
    assert_eq!(listed.len(), 4);
    for n in 0..4usize {
        assert_eq!(listed[n].payee, format!("payee-{}", n));
        assert_eq!(listed[n].description, "batch");
    }
    assert!(listed[0].id < listed[1].id && listed[1].id < listed[2].id && listed[2].id < listed[3].id);
}

#[test]
fn balance_of_unposted_account_is_zero() {
    let pool = ready_ledger();
    let mut conn = acquire(&pool).expect("connection");
    let lonely = create_account(&mut conn, "Lonely", AccountKind::Liability).expect("account");
    assert_eq!(get_account_balance(&conn, lonely).expect("balance"), 0);
    assert_eq!(get_account_balance(&conn, lonely + 9).expect("absent account"), 0);
}

#[test]
fn oversized_balance_is_a_store_error() {
    let pool = ready_ledger();
    let mut conn = acquire(&pool).expect("connection");
    let a = create_account(&mut conn, "A", AccountKind::Asset).expect("account");
    let b = create_account(&mut conn, "B", AccountKind::Income).expect("account");
    create_transaction(&mut conn, "big", "", &vec![posting(a, i64::MAX), posting(b, -i64::MAX)])
        .expect("create");
    create_transaction(&mut conn, "big again", "", &vec![posting(a, i64::MAX), posting(b, -i64::MAX)])
        .expect("create");
    let r = get_account_balance(&conn, a);
    assert_eq!(r.err().map(|e| e.kind), Some(ErrorKind::Store));
    assert_eq!(get_account_balance(&conn, b).err().map(|e| e.kind), Some(ErrorKind::Store));
}

#[test]
fn exhausted_pool_times_out_distinctly() {
    let pool = memory_pool(1, 300);
    let mut held = acquire(&pool).expect("first connection");
    ensure_schema(&mut held).expect("schema");
    let r = acquire(&pool);
    assert_eq!(r.err().map(|e| e.kind), Some(ErrorKind::PoolExhausted));
    drop(held);
    assert!(acquire(&pool).is_ok());
}

#[test]
fn unopenable_store_fails_fast() {
    let config = Config { db_file: "/dev/null/nowhere/ledger.db".to_owned(), ..Config::default() };
    let r = init_pool(&config, 1, 200);
    assert_eq!(r.err().map(|e| e.kind), Some(ErrorKind::Store));
}

#[test]
fn concurrent_disjoint_creates_all_land() {
    let pool = std::sync::Arc::new(memory_pool(1, 10_000));
    let mut conn = acquire(&pool).expect("connection");
    ensure_schema(&mut conn).expect("schema");
    let mut accounts = Vec::new();
    for n in 0..4i64 {
        let name = format!("account-{}", n);
        accounts.push(create_account(&mut conn, &name, AccountKind::Asset).expect("account"));
    }
    drop(conn);
    let runtime = tokio::runtime::Builder::new_multi_thread()
        .worker_threads(4)
        .build()
        .expect("runtime");
    let mut handles = Vec::new();
    for pair in 0..2usize {
        for round in 0..3i64 {
            let pool = pool.clone();
            let debit = accounts[2 * pair];
            let credit = accounts[2 * pair + 1];
            handles.push(runtime.spawn_blocking(move || {
                let mut conn = acquire(&pool).expect("pooled connection");
                create_transaction(
                    &mut conn,
                    "worker",
                    "",
                    &vec![posting(debit, 100 + round), posting(credit, -(100 + round))],
                )
                .expect("balanced create succeeds")
            }));
        }
    }
    let mut ids = Vec::new();
    for handle in handles {
        ids.push(runtime.block_on(handle).expect("join"));
    }
    ids.sort();
    ids.dedup();
    assert_eq!(ids.len(), 6, "every create got its own transaction id");
    let conn = acquire(&pool).expect("connection");
    assert_eq!(list_transactions(&conn).expect("list").len(), 6);
    assert_eq!(get_account_balance(&conn, accounts[0]).expect("balance"), 303);
    assert_eq!(get_account_balance(&conn, accounts[1]).expect("balance"), -303);
    assert_eq!(get_account_balance(&conn, accounts[2]).expect("balance"), 303);
    assert_eq!(get_account_balance(&conn, accounts[3]).expect("balance"), -303);
}

#[test]
fn exact_sum_of_amounts() {
    assert_eq!(kleingeld::ledger::sum_amounts_exact(&vec![]), 0);
    assert_eq!(kleingeld::ledger::sum_amounts_exact(&vec![1, 2, 3]), 6);
    assert_eq!(kleingeld::ledger::sum_amounts_exact(&vec![i64::MAX, i64::MAX, 1]), 2 * (i64::MAX as i128) + 1);
    assert_eq!(kleingeld::ledger::sum_amounts_exact(&vec![i64::MIN, i64::MIN]), 2 * (i64::MIN as i128));
}

#[test]
fn empty_payee_and_description_round_trip() {
    let pool = {
        let config = Config::default();
        init_pool(&config, 2, 2_000).expect("pool over the in-memory store")
    };
    let mut conn = acquire(&pool).expect("connection");
    ensure_schema(&mut conn).expect("schema");
    let a = create_account(&mut conn, "A", AccountKind::Asset).expect("account");
    let b = create_account(&mut conn, "B", AccountKind::Income).expect("account");
    let id = create_transaction(&mut conn, "", "", &vec![posting(a, 1), posting(b, -1)])
        .expect("create");
    let listed = list_transactions(&conn).expect("list");
    assert_eq!(listed.len(), 1);
    assert_eq!(listed[0].id, id);
    assert_eq!(listed[0].payee, "");
    assert_eq!(listed[0].description, "");
}
