use tb_perf::tigerbeetle::{
    account_ids, batch_ranges, funding_plan, map_ledger_error, single_transfer_outcome,
    verify_total_balance, AccountBalances, LedgerTransferError, BANK_ACCOUNT_ID, BATCH_SIZE,
};
use tb_perf::workload::TransferResult;

#[test]
fn test_ledger_error_mapping() {
    // An account flagged "debits must not exceed credits" that would
    // go negative is a rejection, not a failure.
    assert_eq!(
        map_ledger_error(LedgerTransferError::ExceedsCredits),
        TransferResult::InsufficientBalance
    );
    assert_eq!(
        map_ledger_error(LedgerTransferError::ExceedsDebits),
        TransferResult::InsufficientBalance
    );
    assert_eq!(
        map_ledger_error(LedgerTransferError::DebitAccountNotFound),
        TransferResult::AccountNotFound
    );
    assert_eq!(
        map_ledger_error(LedgerTransferError::CreditAccountNotFound),
        TransferResult::AccountNotFound
    );
    assert_eq!(map_ledger_error(LedgerTransferError::Other), TransferResult::Failed);
}

#[test]
fn test_single_transfer_outcome_first_error_decides() {
    assert_eq!(
        single_transfer_outcome(&vec![LedgerTransferError::ExceedsCredits]),
        TransferResult::InsufficientBalance
    );
    assert_eq!(
        single_transfer_outcome(&vec![
            LedgerTransferError::DebitAccountNotFound,
            LedgerTransferError::Other,
        ]),
        TransferResult::AccountNotFound
    );
    // An error response that names no item is itself a failure.
    assert_eq!(single_transfer_outcome(&vec![]), TransferResult::Failed);
}

#[test]
fn test_batch_ranges_empty() {
    assert_eq!(batch_ranges(0).len(), 0);
}

#[test]
fn test_batch_ranges_single_batch() {
    let ranges = batch_ranges(100);
    assert_eq!(ranges, vec![(0, 100)]);
    let total: u64 = ranges.iter().map(|(s, e)| e - s).sum();
    assert_eq!(total, 100);
}

#[test]
fn test_batch_ranges_multiple_batches() {
    // Two and a half batches' worth of items takes three batches.
    let total = (BATCH_SIZE as u64) * 2 + 500;
    let ranges = batch_ranges(total);
    assert_eq!(ranges.len(), 3);
    let covered: u64 = ranges.iter().map(|(s, e)| e - s).sum();
    assert_eq!(covered, total);
    assert_eq!(ranges[0], (0, BATCH_SIZE as u64));
    assert_eq!(ranges[1], (BATCH_SIZE as u64, 2 * BATCH_SIZE as u64));
    assert_eq!(ranges[2], (2 * BATCH_SIZE as u64, total));
}

#[test]
fn test_batch_ranges_exact_batch_boundary() {
    let total = BATCH_SIZE as u64;
    let ranges = batch_ranges(total);
    assert_eq!(ranges.len(), 1);
    assert_eq!(ranges[0], (0, total));
}

#[test]
fn test_account_ids_are_one_based() {
    let ids = account_ids(0, 3);
    assert_eq!(ids, vec![1u128, 2, 3]);
    let ids = account_ids(10, 12);
    assert_eq!(ids, vec![11u128, 12]);
}

#[test]
fn test_funding_plan_debits_bank() {
    let plan = funding_plan(0, 2, 500);
    assert_eq!(plan.len(), 2);
    for (i, t) in plan.iter().enumerate() {
        assert_eq!(t.debit_account_id, BANK_ACCOUNT_ID);
        assert_eq!(t.credit_account_id, (i + 1) as u128);
        assert_eq!(t.amount, 500);
    }
}

#[test]
fn test_bank_account_id_is_largest_usable() {
    assert_eq!(BANK_ACCOUNT_ID, u128::MAX - 1);
}

#[test]
fn test_verify_total_balance_sums_net_positions() {
    let accounts = vec![
        AccountBalances { credits_posted: 1000, debits_posted: 400 },
        AccountBalances { credits_posted: 700, debits_posted: 300 },
    ];
    assert!(verify_total_balance(&accounts, 1000));
    assert!(!verify_total_balance(&accounts, 999));
}

#[test]
fn test_verify_total_balance_saturates_overdrawn_accounts() {
    // An account whose debits exceed its credits counts as zero, not
    // as a negative amount.
    let accounts = vec![
        AccountBalances { credits_posted: 100, debits_posted: 400 },
        AccountBalances { credits_posted: 700, debits_posted: 0 },
    ];
    assert!(verify_total_balance(&accounts, 700));
}

#[test]
fn test_verify_total_balance_empty() {
    assert!(verify_total_balance(&vec![], 0));
    assert!(!verify_total_balance(&vec![], 1));
}
