use vstd::prelude::*;
use rand::rngs::SmallRng;
use crate::rng::rng_range;

verus! {

/// How many times a colliding destination draw is rejected and
/// redrawn before the selector falls back to a deterministic
/// neighbour of the source account.
pub const RESAMPLE_ATTEMPTS: u64 = 64;

/// Result of a single transfer operation.
#[derive(Debug, Clone, Copy, PartialEq, Eq, Structural)]
pub enum TransferResult {
    /// Transfer completed successfully.
    Success,
    /// Transfer rejected because the source balance was insufficient.
    InsufficientBalance,
    /// Transfer failed because an account does not exist.
    AccountNotFound,
    /// Transfer failed on a backend error (after retries).
    Failed,
}

/// One transfer request: move `amount` from the source account to the
/// destination account. Produced by the workload generators and
/// consumed by an executor; never persisted by the client.
#[derive(Debug, Clone, Copy, PartialEq, Eq, Structural)]
pub struct TransferRequest {
    pub source_id: u64,
    pub dest_id: u64,
    pub amount: u64,
}

impl TransferRequest {
    /// The invariant a generated request satisfies: both accounts lie
    /// in the one-based id space, they differ, and the amount lies in
    /// the configured range.
    pub open spec fn wf(self, num_accounts: u64, min_amount: u64, max_amount: u64) -> bool {
        &&& 1 <= self.source_id <= num_accounts
        &&& 1 <= self.dest_id <= num_accounts
        &&& self.source_id != self.dest_id
        &&& min_amount <= self.amount <= max_amount
    }
}

/// Picks accounts for transfers over the one-based id space
/// `1..=num_accounts`. Selection here is uniform; a skewed sampler
/// can feed raw draws through `clamp_sample` and `pair_from_samples`
/// instead.
#[derive(Debug, Clone, Copy, PartialEq, Eq, Structural)]
pub struct AccountSelector {
    num_accounts: u64,
}

impl AccountSelector {
    /// The configured size of the account id space.
    pub closed spec fn spec_num_accounts(self) -> u64 {
        self.num_accounts
    }

    /// A selector is well formed when at least two accounts exist, so
    /// that a transfer can pick two distinct ones.
    pub open spec fn wf(self) -> bool {
        self.spec_num_accounts() >= 2
    }

    /// The id an arbitrary raw draw is mapped to: clamped into the
    /// valid account space `1..=num_accounts`.
    pub open spec fn spec_clamp(self, raw: u64) -> u64 {
        if raw < 1 {
            1u64
        } else if raw > self.spec_num_accounts() {
            self.spec_num_accounts()
        } else {
            raw
        }
    }

    pub fn new(num_accounts: u64) -> (r: AccountSelector)
        requires
            num_accounts >= 2,
        ensures
            r.wf(),
            r.spec_num_accounts() == num_accounts,
    {
        AccountSelector { num_accounts }
    }

    pub fn num_accounts(&self) -> (r: u64)
        ensures
            r == self.spec_num_accounts(),
    {
        self.num_accounts
    }

    /// Map a raw sample into the valid account space. Guards against a
    /// sampler handing back a value just past either end of the domain.
    pub fn clamp_sample(&self, raw: u64) -> (r: u64)
        requires
            self.wf(),
        ensures
            r == self.spec_clamp(raw),
            1 <= r <= self.spec_num_accounts(),
    {
        if raw < 1 {
            1
        } else if raw > self.num_accounts {
            self.num_accounts
        } else {
            raw
        }
    }

    /// Select one account uniformly from `1..=num_accounts`.
    pub fn select_account(&self, rng: &mut SmallRng) -> (r: u64)
        requires
            self.wf(),
        ensures
            1 <= r <= self.spec_num_accounts(),
    {
        rng_range(rng, 1, self.num_accounts)
    }

    /// One step of the rejection loop for a skewed sampler: clamp both
    /// raw draws, and accept them as a pair only when they name
    /// different accounts. `None` asks the caller to redraw the
    /// destination.
    pub fn pair_from_samples(&self, source_raw: u64, dest_raw: u64) -> (r: Option<(u64, u64)>)
        requires
            self.wf(),
        ensures
            self.spec_clamp(source_raw) != self.spec_clamp(dest_raw) <==> r is Some,
            (r matches Some(p) ==> p == (self.spec_clamp(source_raw), self.spec_clamp(dest_raw))),
            (r matches Some(p) ==> 1 <= p.0 <= self.spec_num_accounts() && 1 <= p.1
                <= self.spec_num_accounts() && p.0 != p.1),
    {
        let source = self.clamp_sample(source_raw);
        let dest = self.clamp_sample(dest_raw);
        if source != dest {
            Some((source, dest))
        } else {
            None
        }
    }

    /// Select two different accounts for a transfer: draw a source,
    /// then reject and redraw the destination until it differs. A
    /// bounded number of redraws is attempted; if every one collides,
    /// the destination falls back to the neighbouring account, which
    /// is always distinct and in range.
    pub fn select_transfer_accounts(&self, rng: &mut SmallRng) -> (r: (u64, u64))
        requires
            self.wf(),
        ensures
            1 <= r.0 <= self.spec_num_accounts(),
            1 <= r.1 <= self.spec_num_accounts(),
            r.0 != r.1,
    {
        let source = self.select_account(rng);
        let mut dest = self.select_account(rng);
        let mut attempts: u64 = 0;
        while dest == source && attempts < RESAMPLE_ATTEMPTS
            invariant
                self.wf(),
                1 <= source <= self.spec_num_accounts(),
                1 <= dest <= self.spec_num_accounts(),
                attempts <= RESAMPLE_ATTEMPTS,
            decreases RESAMPLE_ATTEMPTS - attempts,
        {
            dest = self.select_account(rng);
            attempts = attempts + 1;
        }
        if dest == source {
            dest = if source == self.num_accounts {
                1
            } else {
                source + 1
            };
        }
        (source, dest)
    }
}

/// Generates transfer amounts uniformly from a configured inclusive
/// range.
#[derive(Debug, Clone, Copy, PartialEq, Eq, Structural)]
pub struct TransferGenerator {
    min_amount: u64,
    max_amount: u64,
}

impl TransferGenerator {
    pub closed spec fn spec_min_amount(self) -> u64 {
        self.min_amount
    }

    pub closed spec fn spec_max_amount(self) -> u64 {
        self.max_amount
    }

    /// A generator is well formed when its range is not empty.
    pub open spec fn wf(self) -> bool {
        self.spec_min_amount() <= self.spec_max_amount()
    }

    pub fn new(min_amount: u64, max_amount: u64) -> (r: TransferGenerator)
        requires
            min_amount <= max_amount,
        ensures
            r.wf(),
            r.spec_min_amount() == min_amount,
            r.spec_max_amount() == max_amount,
    {
        TransferGenerator { min_amount, max_amount }
    }

    /// Generate a transfer amount within the configured range.
    pub fn generate_amount(&self, rng: &mut SmallRng) -> (r: u64)
        requires
            self.wf(),
        ensures
            self.spec_min_amount() <= r <= self.spec_max_amount(),
    {
        rng_range(rng, self.min_amount, self.max_amount)
    }
}

} // verus!
