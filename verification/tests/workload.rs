use rand::rngs::SmallRng;
use rand::SeedableRng;
use rand_distr::{Distribution, Zipf};
use tb_perf::workload::{AccountSelector, TransferGenerator, TransferRequest};

#[test]
fn test_account_selector_uniform() {
    let selector = AccountSelector::new(1000);
    let mut rng = SmallRng::seed_from_u64(1);

    // Accounts are one-based: every selection lies in 1..=1000.
    for _ in 0..100 {
        let account = selector.select_account(&mut rng);
        assert!(account >= 1 && account <= 1000);
    }
}

#[test]
fn test_account_selector_skewed() {
    // A skewed sampler draws outside the core and feeds its raw
    // values through the clamp. With a high exponent, low accounts
    // dominate the selection.
    let selector = AccountSelector::new(1000);
    let zipf = Zipf::new(1000.0, 1.5).unwrap();
    let mut rng = SmallRng::seed_from_u64(6);

    let mut low_count: u32 = 0;
    for _ in 0..1000 {
        let account = selector.clamp_sample(zipf.sample(&mut rng) as u64);
        assert!(account >= 1 && account <= 1000);
        if account <= 100 {
            low_count += 1;
        }
    }
    assert!(low_count > 500, "Expected skew toward low accounts");
}

#[test]
fn test_transfer_accounts_different() {
    let selector = AccountSelector::new(1000);
    let mut rng = SmallRng::seed_from_u64(2);

    for _ in 0..100 {
        let (source, dest) = selector.select_transfer_accounts(&mut rng);
        assert_ne!(source, dest, "Source and destination must be different");
        assert!(source >= 1 && source <= 1000);
        assert!(dest >= 1 && dest <= 1000);
    }
}

#[test]
fn test_transfer_generator() {
    let generator = TransferGenerator::new(1, 1000);
    let mut rng = SmallRng::seed_from_u64(3);

    for _ in 0..100 {
        let amount = generator.generate_amount(&mut rng);
        assert!(amount >= 1 && amount <= 1000);
    }
}

#[test]
fn test_transfer_generator_single_value_range() {
    let generator = TransferGenerator::new(42, 42);
    let mut rng = SmallRng::seed_from_u64(4);
    for _ in 0..10 {
        assert_eq!(generator.generate_amount(&mut rng), 42);
    }
}

#[test]
fn test_clamp_sample_guards_domain_edges() {
    let selector = AccountSelector::new(100);
    // A sampler may hand back a value just past either end of the
    // domain; the clamp maps it to the nearest valid id.
    assert_eq!(selector.clamp_sample(0), 1);
    assert_eq!(selector.clamp_sample(1), 1);
    assert_eq!(selector.clamp_sample(50), 50);
    assert_eq!(selector.clamp_sample(100), 100);
    assert_eq!(selector.clamp_sample(101), 100);
    assert_eq!(selector.clamp_sample(u64::MAX), 100);
}

#[test]
fn test_pair_from_samples_rejects_collisions() {
    let selector = AccountSelector::new(100);
    assert_eq!(selector.pair_from_samples(3, 7), Some((3, 7)));
    assert_eq!(selector.pair_from_samples(3, 3), None);
    // Distinct raw draws clamped onto the same account still collide.
    assert_eq!(selector.pair_from_samples(100, 101), None);
    assert_eq!(selector.pair_from_samples(0, 1), None);
    assert_eq!(selector.pair_from_samples(0, 2), Some((1, 2)));
}

#[test]
fn test_two_accounts_select_both_sides() {
    // With two accounts and uniform selection, both accounts turn up
    // and the rejection loop always terminates.
    let selector = AccountSelector::new(2);
    let mut rng = SmallRng::seed_from_u64(5);
    let mut source_one = false;
    let mut source_two = false;
    for _ in 0..200 {
        let (source, dest) = selector.select_transfer_accounts(&mut rng);
        assert_ne!(source, dest);
        assert!(source == 1 || source == 2);
        assert!(dest == 1 || dest == 2);
        if source == 1 {
            source_one = true;
        }
        if source == 2 {
            source_two = true;
        }
    }
    assert!(source_one && source_two, "Expected both accounts to be selected");
}

#[test]
fn test_transfer_request_fields() {
    let req = TransferRequest { source_id: 1, dest_id: 2, amount: 10 };
    assert_eq!(req.source_id, 1);
    assert_eq!(req.dest_id, 2);
    assert_eq!(req.amount, 10);
}
