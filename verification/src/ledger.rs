//! The ledger data model and its invariants.
//!
//! A transaction is one economic event; each of its postings applies one
//! signed amount (in the smallest currency unit) to one account.  The
//! double-entry discipline demands that the amounts of a transaction's
//! postings sum to zero, and that there are at least two of them.
//!
//! The ghost records in this module are the mathematical image of the rows
//! the store holds; the executable types carry the same data between the
//! caller and the repository.

use vstd::prelude::*;

use crate::errors::{ErrorKind, LedgerError};

verus! {

/// The mathematical image of one row of the `transactions` table.
#[verifier::ext_equal]
pub ghost struct TransactionRecord {
    pub id: int,
    pub payee: Seq<char>,
    pub description: Seq<char>,
}

/// The mathematical image of one row of the `postings` table.
#[verifier::ext_equal]
pub ghost struct PostingRecord {
    pub date: Seq<char>,
    pub amount: int,
    pub account: int,
    pub txn: int,
}

/// The mathematical image of one row of the `accounts` table.
#[verifier::ext_equal]
pub ghost struct AccountRecord {
    pub id: int,
    pub name: Seq<char>,
    pub kind: int,
}

/// One transaction as read back from the store: postings are not expanded
/// in this minimal read.
#[derive(Clone, Debug)]
pub struct Transaction {
    pub id: i64,
    pub payee: String,
    pub description: String,
}

impl Transaction {
    /// The ghost record this value stands for.
    pub open spec fn record(self) -> TransactionRecord {
        TransactionRecord { id: self.id as int, payee: self.payee@, description: self.description@ }
    }
}

/// One leg of a transaction to be created: a signed amount applied to one
/// account on one calendar date.
#[derive(Clone, Debug)]
pub struct PostingInput {
    pub account: i64,
    pub amount: i64,
    pub date: String,
}

/// The enumerated account types, stored as an integer code.
#[derive(Clone, Copy, Debug, PartialEq, Eq, Structural)]
pub enum AccountKind {
    Asset,
    Liability,
    Equity,
    Income,
    Expense,
}

/// The integer code under which an account kind is stored.
pub open spec fn account_kind_code(k: AccountKind) -> int {
    match k {
        AccountKind::Asset => 0,
        AccountKind::Liability => 1,
        AccountKind::Equity => 2,
        AccountKind::Income => 3,
        AccountKind::Expense => 4,
    }
}

impl AccountKind {
    /// The stored integer code of this kind.
    pub fn code(self) -> (r: i64)
        ensures
            r as int == account_kind_code(self),
    {
        match self {
            AccountKind::Asset => 0,
            AccountKind::Liability => 1,
            AccountKind::Equity => 2,
            AccountKind::Income => 3,
            AccountKind::Expense => 4,
        }
    }
}

/// The sum of the amounts of a sequence of posting inputs.
pub open spec fn sum_amounts(ps: Seq<PostingInput>) -> int
    decreases ps.len(),
{
    if ps.len() == 0 {
        0
    } else {
        sum_amounts(ps.drop_last()) + ps.last().amount as int
    }
}

/// The double-entry validity condition on a posting set: at least two legs,
/// and the amounts sum to zero.
pub open spec fn balanced(ps: Seq<PostingInput>) -> bool {
    ps.len() >= 2 && sum_amounts(ps) == 0
}

/// The posting row that one input leg of transaction `txn` becomes.
pub open spec fn posting_row(p: PostingInput, txn: int) -> PostingRecord {
    PostingRecord { date: p.date@, amount: p.amount as int, account: p.account as int, txn: txn }
}

/// The posting rows that creating a transaction `txn` from the inputs `ps`
/// adds to the store, in input order.
pub open spec fn posting_rows(ps: Seq<PostingInput>, txn: int) -> Seq<PostingRecord>
    decreases ps.len(),
{
    if ps.len() == 0 {
        Seq::empty()
    } else {
        posting_rows(ps.drop_last(), txn).push(posting_row(ps.last(), txn))
    }
}

/// The sum of the amounts of a sequence of posting rows, across all
/// accounts.
pub open spec fn sum_posting_rows(rows: Seq<PostingRecord>) -> int
    decreases rows.len(),
{
    if rows.len() == 0 {
        0
    } else {
        sum_posting_rows(rows.drop_last()) + rows.last().amount
    }
}

/// The balance of one account: the sum of the amounts of the posting rows
/// that reference it.  A derived read, never stored.
pub open spec fn balance_in(rows: Seq<PostingRecord>, account: int) -> int
    decreases rows.len(),
{
    if rows.len() == 0 {
        0
    } else {
        balance_in(rows.drop_last(), account) + if rows.last().account == account {
            rows.last().amount
        } else {
            0
        }
    }
}

/// What a posting set contributes to one account's balance: the sum of the
/// amounts of its legs that reference that account.
pub open spec fn contribution(ps: Seq<PostingInput>, account: int) -> int
    decreases ps.len(),
{
    if ps.len() == 0 {
        0
    } else {
        contribution(ps.drop_last(), account) + if ps.last().account as int == account {
            ps.last().amount as int
        } else {
            0
        }
    }
}

/// The amounts of the posting rows that reference one account, in row
/// order.
pub open spec fn amounts_for(rows: Seq<PostingRecord>, account: int) -> Seq<int>
    decreases rows.len(),
{
    if rows.len() == 0 {
        Seq::empty()
    } else if rows.last().account == account {
        amounts_for(rows.drop_last(), account).push(rows.last().amount)
    } else {
        amounts_for(rows.drop_last(), account)
    }
}

/// The sum of a sequence of integers.
pub open spec fn sum_ints(s: Seq<int>) -> int
    decreases s.len(),
{
    if s.len() == 0 {
        0
    } else {
        sum_ints(s.drop_last()) + s.last()
    }
}

/// The integer values of a sequence of machine amounts.
pub open spec fn amounts_as_ints(v: Seq<i64>) -> Seq<int> {
    Seq::new(v.len(), |i: int| v[i] as int)
}

/// Whether an account row with the given id exists.
pub open spec fn account_exists(accounts: Seq<AccountRecord>, id: int) -> bool {
    exists|k: int| 0 <= k < accounts.len() && accounts[k].id == id
}

proof fn lemma_sum_ints_push(s: Seq<int>, x: int)
    ensures
        sum_ints(s.push(x)) == sum_ints(s) + x,
{
    assert(s.push(x).drop_last() =~= s);
    assert(s.push(x).last() == x);
}

/// Account balances are additive over appended posting rows: rows written
/// by separate transactions contribute to each account independently, so
/// one create never loses another's contribution.
pub proof fn lemma_balance_append(a: Seq<PostingRecord>, b: Seq<PostingRecord>, account: int)
    ensures
        balance_in(a + b, account) == balance_in(a, account) + balance_in(b, account),
    decreases b.len(),
{
    if b.len() == 0 {
        assert(a + b =~= a);
    } else {
        lemma_balance_append(a, b.drop_last(), account);
        assert((a + b).drop_last() =~= a + b.drop_last());
        assert((a + b).last() == b.last());
    }
}

/// The all-accounts sum is additive over appended posting rows.
pub proof fn lemma_sum_rows_append(a: Seq<PostingRecord>, b: Seq<PostingRecord>)
    ensures
        sum_posting_rows(a + b) == sum_posting_rows(a) + sum_posting_rows(b),
    decreases b.len(),
{
    if b.len() == 0 {
        assert(a + b =~= a);
    } else {
        lemma_sum_rows_append(a, b.drop_last());
        assert((a + b).drop_last() =~= a + b.drop_last());
        assert((a + b).last() == b.last());
    }
}

/// The rows a posting set becomes move exactly its per-account
/// contribution into each account's balance.
pub proof fn lemma_rows_balance(ps: Seq<PostingInput>, txn: int, account: int)
    ensures
        balance_in(posting_rows(ps, txn), account) == contribution(ps, account),
    decreases ps.len(),
{
    if ps.len() == 0 {
    } else {
        lemma_rows_balance(ps.drop_last(), txn, account);
        assert(posting_rows(ps, txn).drop_last() =~= posting_rows(ps.drop_last(), txn));
        assert(posting_rows(ps, txn).last() == posting_row(ps.last(), txn));
    }
}

/// Across all accounts, the rows a posting set becomes sum to the same
/// total as the set itself.
pub proof fn lemma_rows_sum(ps: Seq<PostingInput>, txn: int)
    ensures
        sum_posting_rows(posting_rows(ps, txn)) == sum_amounts(ps),
    decreases ps.len(),
{
    if ps.len() == 0 {
    } else {
        lemma_rows_sum(ps.drop_last(), txn);
        assert(posting_rows(ps, txn).drop_last() =~= posting_rows(ps.drop_last(), txn));
        assert(posting_rows(ps, txn).last() == posting_row(ps.last(), txn));
    }
}

/// After a successful create, every account's balance reflects the new
/// postings exactly once: the old balance plus the posting set's
/// contribution to that account.
pub proof fn lemma_balance_after_create(
    rows: Seq<PostingRecord>,
    ps: Seq<PostingInput>,
    txn: int,
    account: int,
)
    ensures
        balance_in(rows + posting_rows(ps, txn), account) == balance_in(rows, account)
            + contribution(ps, account),
{
    lemma_balance_append(rows, posting_rows(ps, txn), account);
    lemma_rows_balance(ps, txn, account);
}

/// The conservation law of double entry: creating a balanced transaction
/// moves value between accounts without creating any, so the sum of all
/// postings across the whole ledger is unchanged.
pub proof fn lemma_total_preserved(rows: Seq<PostingRecord>, ps: Seq<PostingInput>, txn: int)
    requires
        balanced(ps),
    ensures
        sum_posting_rows(rows + posting_rows(ps, txn)) == sum_posting_rows(rows),
{
    lemma_sum_rows_append(rows, posting_rows(ps, txn));
    lemma_rows_sum(ps, txn);
}

/// An account's balance is the sum of the amounts posted to it.
pub proof fn lemma_amounts_for_balance(rows: Seq<PostingRecord>, account: int)
    ensures
        sum_ints(amounts_for(rows, account)) == balance_in(rows, account),
    decreases rows.len(),
{
    if rows.len() == 0 {
    } else {
        lemma_amounts_for_balance(rows.drop_last(), account);
        if rows.last().account == account {
            lemma_sum_ints_push(amounts_for(rows.drop_last(), account), rows.last().amount);
        }
    }
}

/// Checks the double-entry validity of a posting set: at least two legs,
/// whose amounts sum to zero.  Rejected input never reaches the store.
pub fn validate_postings(postings: &Vec<PostingInput>) -> (r: Result<(), LedgerError>)
    ensures
        r is Ok <==> balanced(postings@),
        r is Err ==> r->Err_0.kind == ErrorKind::Validation,
{
    if postings.len() < 2 {
        return Err(
            LedgerError::new(
                ErrorKind::Validation,
                "a transaction needs at least two postings".to_owned(),
            ),
        );
    }
    let mut total: i128 = 0;
    let mut i: usize = 0;
    while i < postings.len()
        invariant
            0 <= i <= postings@.len(),
            total as int == sum_amounts(postings@.take(i as int)),
            (i as int) * (i64::MIN as int) <= total as int <= (i as int) * (i64::MAX as int),
        decreases postings@.len() - i,
    {
        let a: i64 = postings[i].amount;
        proof {
            let ii = i as int;
            assert((ii + 1) * (i64::MIN as int) == ii * (i64::MIN as int) + (i64::MIN as int))
                by (nonlinear_arith);
            assert((ii + 1) * (i64::MAX as int) == ii * (i64::MAX as int) + (i64::MAX as int))
                by (nonlinear_arith);
            assert((ii + 1) * (i64::MIN as int) >= 0xffff_ffff_ffff_ffff * (i64::MIN as int))
                by (nonlinear_arith)
                requires
                    0 <= ii + 1 <= 0xffff_ffff_ffff_ffff,
            ;
            assert((ii + 1) * (i64::MAX as int) <= 0xffff_ffff_ffff_ffff * (i64::MAX as int))
                by (nonlinear_arith)
                requires
                    0 <= ii + 1 <= 0xffff_ffff_ffff_ffff,
            ;
            assert(postings@.take(ii + 1).drop_last() =~= postings@.take(ii));
            assert(postings@.take(ii + 1).last() == postings@[ii]);
        }
        total = total + a as i128;
        i = i + 1;
    }
    proof {
        assert(postings@.take(postings@.len() as int) =~= postings@);
    }
    if total == 0 {
        Ok(())
    } else {
        Err(LedgerError::new(ErrorKind::Validation, "postings do not sum to zero".to_owned()))
    }
}

/// Sums machine amounts exactly; a 128-bit accumulator cannot overflow on
/// any number of 64-bit amounts that fits in memory.
pub fn sum_amounts_exact(v: &Vec<i64>) -> (r: i128)
    ensures
        r as int == sum_ints(amounts_as_ints(v@)),
{
    let mut total: i128 = 0;
    let mut i: usize = 0;
    while i < v.len()
        invariant
            0 <= i <= v@.len(),
            total as int == sum_ints(amounts_as_ints(v@).take(i as int)),
            (i as int) * (i64::MIN as int) <= total as int <= (i as int) * (i64::MAX as int),
        decreases v@.len() - i,
    {
        let a: i64 = v[i];
        proof {
            let ii = i as int;
            assert((ii + 1) * (i64::MIN as int) == ii * (i64::MIN as int) + (i64::MIN as int))
                by (nonlinear_arith);
            assert((ii + 1) * (i64::MAX as int) == ii * (i64::MAX as int) + (i64::MAX as int))
                by (nonlinear_arith);
            assert((ii + 1) * (i64::MIN as int) >= 0xffff_ffff_ffff_ffff * (i64::MIN as int))
                by (nonlinear_arith)
                requires
                    0 <= ii + 1 <= 0xffff_ffff_ffff_ffff,
            ;
            assert((ii + 1) * (i64::MAX as int) <= 0xffff_ffff_ffff_ffff * (i64::MAX as int))
                by (nonlinear_arith)
                requires
                    0 <= ii + 1 <= 0xffff_ffff_ffff_ffff,
            ;
            assert(amounts_as_ints(v@).take(ii + 1).drop_last() =~= amounts_as_ints(v@).take(ii));
            assert(amounts_as_ints(v@).take(ii + 1).last() == a as int);
        }
        total = total + a as i128;
        i = i + 1;
    }
    proof {
        assert(amounts_as_ints(v@).take(v@.len() as int) =~= amounts_as_ints(v@));
    }
    total
}

} // verus!
