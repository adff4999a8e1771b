use tb_perf::memory::MemoryBackend;
use tb_perf::results::expected_total_balance;
use tb_perf::workload::TransferResult;

#[test]
fn test_init_accounts_is_idempotent() {
    // Ensuring the account set twice with the same parameters yields
    // the same account set and balances; accounts that already exist
    // are accepted.
    let mut backend = MemoryBackend::new(0, 0);
    backend.init_accounts(10, 500);
    let once = backend.clone();
    backend.init_accounts(10, 500);
    assert_eq!(backend, once);
    assert_eq!(backend.num_accounts(), 10);
    assert_eq!(backend.balance_of(1), Some(500));
    assert_eq!(backend.balance_of(10), Some(500));
}

#[test]
fn test_init_accounts_keeps_existing_balances() {
    let mut backend = MemoryBackend::new(2, 100);
    backend.transfer(1, 2, 30);
    backend.init_accounts(4, 100);
    // The two pre-existing accounts keep their moved balances; the
    // two new ones are created with the initial balance.
    assert_eq!(backend.balance_of(1), Some(70));
    assert_eq!(backend.balance_of(2), Some(130));
    assert_eq!(backend.balance_of(3), Some(100));
    assert_eq!(backend.balance_of(4), Some(100));
}

#[test]
fn test_reset_then_verify_total_balance() {
    // A reset followed by verification succeeds without any
    // intervening workload.
    let mut backend = MemoryBackend::new(3, 7);
    backend.transfer(1, 2, 5);
    backend.reset(10, 100);
    let expected = expected_total_balance(10, 100);
    assert_eq!(expected, 1000);
    assert!(backend.verify_total_balance(expected));
    assert!(!backend.verify_total_balance(expected + 1));
}

#[test]
fn test_transfer_moves_balance() {
    let mut backend = MemoryBackend::new(2, 100);
    assert_eq!(backend.transfer(1, 2, 40), TransferResult::Success);
    assert_eq!(backend.balance_of(1), Some(60));
    assert_eq!(backend.balance_of(2), Some(140));
}

#[test]
fn test_transfer_insufficient_balance_rejected() {
    // An account that would go negative rejects the transfer rather
    // than failing it.
    let mut backend = MemoryBackend::new(50, 100);
    assert_eq!(backend.transfer(42, 1, 101), TransferResult::InsufficientBalance);
    assert_eq!(backend.balance_of(42), Some(100));
    assert_eq!(backend.balance_of(1), Some(100));
}

#[test]
fn test_transfer_unknown_account() {
    let mut backend = MemoryBackend::new(2, 100);
    assert_eq!(backend.transfer(0, 1, 10), TransferResult::AccountNotFound);
    assert_eq!(backend.transfer(1, 3, 10), TransferResult::AccountNotFound);
    assert_eq!(backend.transfer(3, 1, 10), TransferResult::AccountNotFound);
}

#[test]
fn test_transfers_conserve_total_balance() {
    let mut backend = MemoryBackend::new(5, 1000);
    let expected = expected_total_balance(5, 1000);
    backend.transfer(1, 2, 999);
    backend.transfer(2, 3, 1500);
    backend.transfer(4, 4, 10);
    backend.transfer(5, 1, 1);
    backend.transfer(1, 9, 1);
    assert!(backend.verify_total_balance(expected));
}
