use vstd::prelude::*;
use crate::workload::TransferResult;

verus! {

/// Maximum number of items per API call against the accounting
/// engine: its limit is 8190, kept one below for safety margin.
pub const BATCH_SIZE: usize = 8189;

/// Ledger every transfer is booked on.
pub const LEDGER_ID: u32 = 1;

/// Code carried by every transfer record.
pub const TRANSFER_CODE: u16 = 1;

/// Id of the constraint-free bank account that funds the user
/// accounts at initialization: the engine reserves id zero and the
/// all-ones id, so the bank takes the largest usable one.
pub const BANK_ACCOUNT_ID: u128 = 340282366920938463463374607431768211454;

/// Semantic classes of the per-transfer errors the accounting engine
/// reports, as far as the outcome taxonomy distinguishes them.
#[derive(Debug, Clone, Copy, PartialEq, Eq, Structural)]
pub enum LedgerTransferError {
    /// The transfer would push the debit side past its credits.
    ExceedsCredits,
    /// The transfer would push the credit side past its debits.
    ExceedsDebits,
    /// The debit account does not exist.
    DebitAccountNotFound,
    /// The credit account does not exist.
    CreditAccountNotFound,
    /// Any other engine error.
    Other,
}

/// The outcome a ledger error maps to: balance-limit errors are
/// rejections, unknown accounts are unknown accounts, everything else
/// is a failure.
pub open spec fn spec_map_ledger_error(e: LedgerTransferError) -> TransferResult {
    match e {
        LedgerTransferError::ExceedsCredits => TransferResult::InsufficientBalance,
        LedgerTransferError::ExceedsDebits => TransferResult::InsufficientBalance,
        LedgerTransferError::DebitAccountNotFound => TransferResult::AccountNotFound,
        LedgerTransferError::CreditAccountNotFound => TransferResult::AccountNotFound,
        LedgerTransferError::Other => TransferResult::Failed,
    }
}

/// Map one ledger error to the common outcome taxonomy.
pub fn map_ledger_error(e: LedgerTransferError) -> (r: TransferResult)
    ensures
        r == spec_map_ledger_error(e),
{
    match e {
        LedgerTransferError::ExceedsCredits => TransferResult::InsufficientBalance,
        LedgerTransferError::ExceedsDebits => TransferResult::InsufficientBalance,
        LedgerTransferError::DebitAccountNotFound => TransferResult::AccountNotFound,
        LedgerTransferError::CreditAccountNotFound => TransferResult::AccountNotFound,
        LedgerTransferError::Other => TransferResult::Failed,
    }
}

/// The outcome of submitting a single transfer whose API call came
/// back with the given per-item error list: the first error decides
/// (one transfer yields at most one error), and an error response
/// that names no item is itself a failure.
pub fn single_transfer_outcome(api_errors: &Vec<LedgerTransferError>) -> (r: TransferResult)
    ensures
        api_errors.len() == 0 ==> r == TransferResult::Failed,
        api_errors.len() > 0 ==> r == spec_map_ledger_first(api_errors@),
{
    if api_errors.len() == 0 {
        TransferResult::Failed
    } else {
        map_ledger_error(api_errors[0])
    }
}

/// Outcome decided by the first error of a non-empty error list.
pub open spec fn spec_map_ledger_first(errors: Seq<LedgerTransferError>) -> TransferResult
    recommends
        errors.len() > 0,
{
    spec_map_ledger_error(errors[0])
}

/// How many batches it takes to process `total` items.
pub open spec fn spec_batch_count(total: u64) -> int {
    if total == 0 {
        0
    } else {
        ((total - 1) as u64 / (BATCH_SIZE as u64)) as int + 1
    }
}

/// Split `total` items into consecutive half-open ranges of at most
/// `BATCH_SIZE` items each, covering `0..total` in order.
pub fn batch_ranges(total: u64) -> (r: Vec<(u64, u64)>)
    ensures
        r.len() == spec_batch_count(total),
        forall|i: int|
            0 <= i < r.len() ==> (#[trigger] r[i]).0 == i * (BATCH_SIZE as u64),
        forall|i: int|
            0 <= i < r.len() ==> (#[trigger] r[i]).1 == if (i + 1) * (BATCH_SIZE as u64) <= total {
                (i + 1) * (BATCH_SIZE as u64)
            } else {
                total as int
            },
{
    let mut out: Vec<(u64, u64)> = Vec::new();
    let mut start: u64 = 0;
    proof {
        assert(out.len() == 0);
        assert(out.len() * (BATCH_SIZE as u64) == 0) by (nonlinear_arith)
            requires
                out.len() == 0,
        ;
    }
    while start < total
        invariant
            start == if out.len() * (BATCH_SIZE as u64) <= total {
                (out.len() * (BATCH_SIZE as u64)) as int
            } else {
                total as int
            },
            forall|i: int| 0 <= i < out.len() ==> (#[trigger] out[i]).0 < total,
            forall|i: int|
                0 <= i < out.len() ==> (#[trigger] out[i]).0 == i * (BATCH_SIZE as u64),
            forall|i: int|
                0 <= i < out.len() ==> (#[trigger] out[i]).1 == if (i + 1) * (BATCH_SIZE as u64)
                    <= total {
                    (i + 1) * (BATCH_SIZE as u64)
                } else {
                    total as int
                },
        decreases total - start,
    {
        proof {
            let n = out.len() as int;
            assert((n + 1) * (BATCH_SIZE as u64) == n * (BATCH_SIZE as u64) + (
            BATCH_SIZE as u64)) by (nonlinear_arith);
        }
        let end = if total - start > BATCH_SIZE as u64 {
            start + BATCH_SIZE as u64
        } else {
            total
        };
        out.push((start, end));
        start = end;
    }
    proof {
        if total > 0 {
            let n = out.len() as int;
            assert(out@[n - 1].0 == (n - 1) * (BATCH_SIZE as u64));
            assert(out@[n - 1].0 < total);
        } else if out.len() > 0 {
            assert(out@[0].0 < total);  // impossible: nothing lies below zero
        }
        lemma_batch_count(total, out.len() as int);
    }
    out
}

/// A vector of ranges whose last element reaches `total` and whose
/// count times the batch size brackets `total` has exactly the batch
/// count many elements.
proof fn lemma_batch_count(total: u64, n: int)
    requires
        n >= 0,
        total == 0 ==> n == 0,
        total > 0 ==> (n - 1) * (BATCH_SIZE as u64) < total <= n * (BATCH_SIZE as u64),
    ensures
        n == spec_batch_count(total),
{
    if total > 0 {
        let b = BATCH_SIZE as int;
        assert(n == (total - 1) / b + 1) by (nonlinear_arith)
            requires
                b > 0,
                total > 0,
                (n - 1) * b < total <= n * b,
        ;
    }
}

/// One account's posted amounts, as looked up from the ledger.
#[derive(Debug, Clone, Copy, PartialEq, Eq, Structural)]
pub struct AccountBalances {
    pub credits_posted: u128,
    pub debits_posted: u128,
}

/// An account's live balance: credits posted minus debits posted,
/// saturating at zero.
pub open spec fn spec_net_balance(a: AccountBalances) -> int {
    if a.credits_posted >= a.debits_posted {
        a.credits_posted - a.debits_posted
    } else {
        0
    }
}

/// Sum of the live balances of a sequence of accounts.
pub open spec fn spec_total_balance(accounts: Seq<AccountBalances>) -> int
    decreases accounts.len(),
{
    if accounts.len() == 0 {
        0
    } else {
        spec_total_balance(accounts.drop_last()) + spec_net_balance(accounts.last())
    }
}

/// Compare the summed live balances of all accounts against the
/// expected total: true exactly when no money was created or
/// destroyed.
pub fn verify_total_balance(accounts: &Vec<AccountBalances>, expected_total: u64) -> (r: bool)
    ensures
        r == (spec_total_balance(accounts@) == expected_total as int),
{
    let mut sum: u128 = 0;
    let mut i: usize = 0;
    while i < accounts.len()
        invariant
            i <= accounts.len(),
            sum == if spec_total_balance(accounts@.take(i as int)) <= u128::MAX {
                spec_total_balance(accounts@.take(i as int))
            } else {
                u128::MAX as int
            },
        decreases accounts.len() - i,
    {
        let a = accounts[i];
        let net: u128 = if a.credits_posted >= a.debits_posted {
            a.credits_posted - a.debits_posted
        } else {
            0
        };
        proof {
            assert(accounts@.take(i + 1).drop_last() =~= accounts@.take(i as int));
            lemma_total_balance_nonneg(accounts@.take(i as int));
        }
        sum = if sum <= u128::MAX - net {
            sum + net
        } else {
            u128::MAX
        };
        i = i + 1;
    }
    proof {
        assert(accounts@.take(accounts@.len() as int) =~= accounts@);
    }
    sum == expected_total as u128
}

/// A total of live balances is never negative.
proof fn lemma_total_balance_nonneg(accounts: Seq<AccountBalances>)
    ensures
        spec_total_balance(accounts) >= 0,
    decreases accounts.len(),
{
    if accounts.len() > 0 {
        lemma_total_balance_nonneg(accounts.drop_last());
    }
}

/// The engine ids of the accounts in one batch range: account numbers
/// are one-based, so item `k` of the range becomes id `k + 1`.
pub fn account_ids(batch_start: u64, batch_end: u64) -> (r: Vec<u128>)
    requires
        batch_start <= batch_end,
    ensures
        r.len() == batch_end - batch_start,
        forall|i: int| 0 <= i < r.len() ==> r[i] == batch_start + i + 1,
{
    let mut out: Vec<u128> = Vec::new();
    let mut id: u64 = batch_start;
    while id < batch_end
        invariant
            batch_start <= id <= batch_end,
            out.len() == id - batch_start,
            forall|i: int| 0 <= i < out.len() ==> out[i] == batch_start + i + 1,
        decreases batch_end - id,
    {
        out.push(id as u128 + 1);
        id = id + 1;
    }
    out
}

/// One funding transfer: the bank account credits a user account with
/// its initial balance.
#[derive(Debug, Clone, Copy, PartialEq, Eq, Structural)]
pub struct FundingTransfer {
    pub debit_account_id: u128,
    pub credit_account_id: u128,
    pub amount: u128,
}

/// The funding transfers for one batch range of accounts: one
/// transfer per account, each debiting the bank by the initial
/// balance and crediting the account.
pub fn funding_plan(batch_start: u64, batch_end: u64, initial_balance: u64) -> (r: Vec<
    FundingTransfer,
>)
    requires
        batch_start <= batch_end,
    ensures
        r.len() == batch_end - batch_start,
        forall|i: int|
            0 <= i < r.len() ==> (#[trigger] r[i]) == (FundingTransfer {
                debit_account_id: BANK_ACCOUNT_ID,
                credit_account_id: (batch_start + i + 1) as u128,
                amount: initial_balance as u128,
            }),
{
    let mut out: Vec<FundingTransfer> = Vec::new();
    let mut id: u64 = batch_start;
    while id < batch_end
        invariant
            batch_start <= id <= batch_end,
            out.len() == id - batch_start,
            forall|i: int|
                0 <= i < out.len() ==> (#[trigger] out[i]) == (FundingTransfer {
                    debit_account_id: BANK_ACCOUNT_ID,
                    credit_account_id: (batch_start + i + 1) as u128,
                    amount: initial_balance as u128,
                }),
        decreases batch_end - id,
    {
        out.push(
            FundingTransfer {
                debit_account_id: BANK_ACCOUNT_ID,
                credit_account_id: id as u128 + 1,
                amount: initial_balance as u128,
            },
        );
        id = id + 1;
    }
    out
}

} // verus!
