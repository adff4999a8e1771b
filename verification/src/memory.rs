use vstd::prelude::*;
use crate::runner::{ExecError, TransferExecutor};
use crate::workload::TransferResult;

verus! {

/// Sum of a sequence of balances.
pub open spec fn spec_sum(s: Seq<u128>) -> int
    decreases s.len(),
{
    if s.len() == 0 {
        0
    } else {
        spec_sum(s.drop_last()) + s.last()
    }
}

/// Balances after ensuring `num_accounts` accounts exist: accounts
/// that already exist keep their balance; missing ones are created
/// with the initial balance.
pub open spec fn spec_init(s: Seq<u128>, num_accounts: int, initial_balance: u128) -> Seq<u128> {
    if s.len() >= num_accounts {
        s
    } else {
        s + Seq::new((num_accounts - s.len()) as nat, |i: int| initial_balance)
    }
}

/// Balances after a reset: exactly `num_accounts` accounts, each with
/// the initial balance.
pub open spec fn spec_reset(num_accounts: int, initial_balance: u128) -> Seq<u128> {
    Seq::new(num_accounts as nat, |i: int| initial_balance)
}

/// The outcome of one transfer against the given balances. The last
/// case guards the credit against exceeding the balance domain; a
/// backend whose total fits the domain never reaches it.
pub open spec fn spec_execute_outcome(s: Seq<u128>, source: u64, dest: u64, amount: u64) -> TransferResult {
    if !(1 <= source <= s.len()) || !(1 <= dest <= s.len()) {
        TransferResult::AccountNotFound
    } else if s[source - 1] < amount {
        TransferResult::InsufficientBalance
    } else if s.update(source - 1, (s[source - 1] - amount) as u128)[dest - 1] + amount
        > u128::MAX {
        TransferResult::Failed
    } else {
        TransferResult::Success
    }
}

/// The balances after one transfer: debit then credit on success,
/// untouched otherwise.
pub open spec fn spec_execute_state(s: Seq<u128>, source: u64, dest: u64, amount: u64) -> Seq<
    u128,
> {
    if spec_execute_outcome(s, source, dest, amount) == TransferResult::Success {
        let debited = s.update(source - 1, (s[source - 1] - amount) as u128);
        debited.update(dest - 1, (debited[dest - 1] + amount) as u128)
    } else {
        s
    }
}

/// In-memory reference backend: one balance per account, account ids
/// one-based. It exercises the runners without any network behind
/// them, and carries the backend collaborator laws (idempotent
/// initialization, reset, balance verification).
#[derive(Debug, Clone, PartialEq, Eq)]
pub struct MemoryBackend {
    balances: Vec<u128>,
}

impl MemoryBackend {
    /// The balances, as a sequence indexed by account id minus one.
    pub closed spec fn spec_balances(self) -> Seq<u128> {
        self.balances@
    }

    /// A backend is well formed when its total balance fits the
    /// balance domain, so that no credit can overflow.
    pub open spec fn wf(self) -> bool {
        spec_sum(self.spec_balances()) <= u128::MAX
    }

    /// Fresh backend with `num_accounts` accounts, each holding the
    /// initial balance.
    pub fn new(num_accounts: u64, initial_balance: u64) -> (r: MemoryBackend)
        requires
            num_accounts <= usize::MAX,
        ensures
            r.spec_balances() == spec_reset(num_accounts as int, initial_balance as u128),
            r.wf(),
    {
        let mut backend = MemoryBackend { balances: Vec::new() };
        backend.reset(num_accounts, initial_balance);
        backend
    }

    /// Number of accounts the backend holds.
    pub fn num_accounts(&self) -> (r: usize)
        ensures
            r == self.spec_balances().len(),
    {
        self.balances.len()
    }

    /// Balance of the account with the given one-based id.
    pub fn balance_of(&self, id: u64) -> (r: Option<u128>)
        ensures
            1 <= id <= self.spec_balances().len() ==> r == Some(self.spec_balances()[id - 1]),
            !(1 <= id <= self.spec_balances().len()) ==> r is None,
    {
        if 1 <= id && id <= self.balances.len() as u64 {
            Some(self.balances[(id - 1) as usize])
        } else {
            None
        }
    }

    /// Return the backend to the pre-run state: exactly `num_accounts`
    /// accounts, each with the initial balance.
    pub fn reset(&mut self, num_accounts: u64, initial_balance: u64)
        requires
            num_accounts <= usize::MAX,
        ensures
            final(self).spec_balances() == spec_reset(num_accounts as int, initial_balance as u128),
            final(self).wf(),
    {
        self.balances = Vec::new();
        let mut i: u64 = 0;
        while i < num_accounts
            invariant
                i <= num_accounts <= usize::MAX,
                self.balances@.len() == i,
                forall|j: int| 0 <= j < i ==> self.balances@[j] == initial_balance as u128,
            decreases num_accounts - i,
        {
            self.balances.push(initial_balance as u128);
            i = i + 1;
        }
        proof {
            assert(self.balances@ =~= spec_reset(num_accounts as int, initial_balance as u128));
            lemma_sum_constant(num_accounts as int, initial_balance as u128);
            assert((num_accounts as int) * (initial_balance as u128) <= u128::MAX)
                by (nonlinear_arith)
                requires
                    num_accounts <= u64::MAX,
                    initial_balance <= u64::MAX,
            ;
        }
    }

    /// Ensure `num_accounts` accounts exist: accounts that already
    /// exist are accepted and keep their balance; missing ones are
    /// created with the initial balance. Idempotent in effect.
    pub fn init_accounts(&mut self, num_accounts: u64, initial_balance: u64)
        requires
            num_accounts <= usize::MAX,
            old(self).wf(),
            spec_sum(old(self).spec_balances()) + num_accounts * initial_balance <= u128::MAX,
        ensures
            final(self).spec_balances() == spec_init(
                old(self).spec_balances(),
                num_accounts as int,
                initial_balance as u128,
            ),
            final(self).wf(),
    {
        let ghost orig = self.balances@;
        let mut i: u64 = self.balances.len() as u64;
        if i >= num_accounts {
            proof {
                assert(self.balances@ =~= spec_init(orig, num_accounts as int, initial_balance as u128));
            }
            return ;
        }
        while i < num_accounts
            invariant
                orig.len() <= i <= num_accounts <= usize::MAX,
                orig.len() < num_accounts,
                self.balances@.len() == i,
                self.balances@ =~= orig + Seq::new(
                    (i - orig.len()) as nat,
                    |j: int| initial_balance as u128,
                ),
                spec_sum(orig) + num_accounts * initial_balance <= u128::MAX,
            decreases num_accounts - i,
        {
            self.balances.push(initial_balance as u128);
            i = i + 1;
            proof {
                assert(self.balances@ =~= orig + Seq::new(
                    (i - orig.len()) as nat,
                    |j: int| initial_balance as u128,
                ));
            }
        }
        proof {
            assert(self.balances@ =~= spec_init(orig, num_accounts as int, initial_balance as u128));
            let added = Seq::new((num_accounts - orig.len()) as nat, |j: int| initial_balance as u128);
            lemma_sum_concat(orig, added);
            lemma_sum_constant((num_accounts - orig.len()) as int, initial_balance as u128);
            assert((num_accounts - orig.len()) as int * (initial_balance as u128) <= (
            num_accounts as int) * (initial_balance as u128)) by (nonlinear_arith)
                requires
                    0 <= orig.len() <= num_accounts,
                    initial_balance >= 0,
            ;
            lemma_sum_nonneg(orig);
        }
    }

    /// Execute one transfer: debit the source, credit the destination.
    /// The outcome is exactly the one the balances dictate, the total
    /// balance is conserved, and a well-formed backend never fails.
    pub fn transfer(&mut self, source: u64, dest: u64, amount: u64) -> (r: TransferResult)
        requires
            old(self).wf(),
        ensures
            r == spec_execute_outcome(old(self).spec_balances(), source, dest, amount),
            final(self).spec_balances() == spec_execute_state(
                old(self).spec_balances(),
                source,
                dest,
                amount,
            ),
            spec_sum(final(self).spec_balances()) == spec_sum(old(self).spec_balances()),
            final(self).wf(),
            r != TransferResult::Failed,
    {
        let ghost s = self.balances@;
        let len = self.balances.len() as u64;
        if !(1 <= source && source <= len) || !(1 <= dest && dest <= len) {
            return TransferResult::AccountNotFound;
        }
        let src_idx = (source - 1) as usize;
        let dst_idx = (dest - 1) as usize;
        let src_balance = self.balances[src_idx];
        if src_balance < amount as u128 {
            return TransferResult::InsufficientBalance;
        }
        let debited_src = src_balance - amount as u128;
        self.balances[src_idx] = debited_src;
        let ghost debited = self.balances@;
        let dst_balance = self.balances[dst_idx];
        proof {
            lemma_sum_update(s, src_idx as int, debited_src);
            lemma_sum_nonneg(debited);
            lemma_sum_element_bound(debited, dst_idx as int);
        }
        let credited = dst_balance + amount as u128;
        self.balances[dst_idx] = credited;
        proof {
            lemma_sum_update(debited, dst_idx as int, credited);
        }
        TransferResult::Success
    }

    /// Compare the total of all live balances against the expected
    /// total: true exactly when no money was created or destroyed.
    pub fn verify_total_balance(&self, expected_total: u128) -> (r: bool)
        requires
            self.wf(),
        ensures
            r == (spec_sum(self.spec_balances()) == expected_total),
    {
        let mut sum: u128 = 0;
        let mut i: usize = 0;
        while i < self.balances.len()
            invariant
                i <= self.balances.len(),
                self.wf(),
                sum == spec_sum(self.spec_balances().take(i as int)),
            decreases self.balances.len() - i,
        {
            proof {
                assert(self.spec_balances().take(i + 1).drop_last() =~= self.spec_balances().take(
                    i as int,
                ));
                lemma_sum_take_bound(self.spec_balances(), i + 1);
            }
            sum = sum + self.balances[i];
            i = i + 1;
        }
        proof {
            assert(self.spec_balances().take(self.balances.len() as int) =~= self.spec_balances());
        }
        sum == expected_total
    }
}

impl TransferExecutor for MemoryBackend {
    fn execute(&mut self, source: u64, dest: u64, amount: u64) -> (r: Result<
        TransferResult,
        ExecError,
    >) {
        if total_fits(self) {
            Ok(self.transfer(source, dest, amount))
        } else {
            Err(ExecError { serialization: false })
        }
    }
}

/// Whether the backend's total still fits the balance domain. Always
/// true for backends built by this module's constructors; checked at
/// the executor boundary because the capability interface makes no
/// assumption about its caller.
fn total_fits(backend: &MemoryBackend) -> (r: bool)
    ensures
        r == backend.wf(),
{
    let mut sum: u128 = 0;
    let mut i: usize = 0;
    let ghost s = backend.spec_balances();
    let mut saturated = false;
    loop
        invariant_except_break
            i <= backend.spec_balances().len(),
            s == backend.spec_balances(),
            !saturated ==> sum == spec_sum(s.take(i as int)),
            saturated ==> spec_sum(s) > u128::MAX,
        ensures
            saturated ==> spec_sum(s) > u128::MAX,
            !saturated ==> spec_sum(s) <= u128::MAX,
        decreases backend.spec_balances().len() - i,
    {
        if i >= backend.balances_len() {
            proof {
                assert(s.take(s.len() as int) =~= s);
            }
            break ;
        }
        let b = backend.balance_at(i);
        proof {
            assert(s.take(i + 1).drop_last() =~= s.take(i as int));
            assert(s.take(i + 1).last() == s[i as int]);
        }
        if sum <= u128::MAX - b {
            sum = sum + b;
        } else {
            saturated = true;
            proof {
                lemma_sum_take_bound(s, i + 1);
            }
            break ;
        }
        i = i + 1;
    }
    !saturated
}

impl MemoryBackend {
    fn balances_len(&self) -> (r: usize)
        ensures
            r == self.spec_balances().len(),
    {
        self.balances.len()
    }

    fn balance_at(&self, i: usize) -> (r: u128)
        requires
            i < self.spec_balances().len(),
        ensures
            r == self.spec_balances()[i as int],
    {
        self.balances[i]
    }
}

/// The sum of any sequence of balances is nonnegative.
pub proof fn lemma_sum_nonneg(s: Seq<u128>)
    ensures
        spec_sum(s) >= 0,
    decreases s.len(),
{
    if s.len() > 0 {
        lemma_sum_nonneg(s.drop_last());
    }
}

/// Every element is at most the sum of its sequence.
pub proof fn lemma_sum_element_bound(s: Seq<u128>, i: int)
    requires
        0 <= i < s.len(),
    ensures
        s[i] <= spec_sum(s),
    decreases s.len(),
{
    lemma_sum_nonneg(s.drop_last());
    if i < s.len() - 1 {
        lemma_sum_element_bound(s.drop_last(), i);
    }
}

/// Replacing one element changes the sum by the difference.
pub proof fn lemma_sum_update(s: Seq<u128>, i: int, v: u128)
    requires
        0 <= i < s.len(),
    ensures
        spec_sum(s.update(i, v)) == spec_sum(s) - s[i] + v,
    decreases s.len(),
{
    if i == s.len() - 1 {
        assert(s.update(i, v).drop_last() =~= s.drop_last());
    } else {
        assert(s.update(i, v).drop_last() =~= s.drop_last().update(i, v));
        lemma_sum_update(s.drop_last(), i, v);
    }
}

/// The sum of a constant sequence is length times the constant.
pub proof fn lemma_sum_constant(n: int, v: u128)
    requires
        n >= 0,
    ensures
        spec_sum(Seq::new(n as nat, |i: int| v)) == n * v,
    decreases n,
{
    let s = Seq::new(n as nat, |i: int| v);
    if n == 0 {
        assert(n * v == 0) by (nonlinear_arith)
            requires
                n == 0,
        ;
    } else {
        assert(s.drop_last() =~= Seq::new((n - 1) as nat, |i: int| v));
        lemma_sum_constant(n - 1, v);
        assert(n * v == (n - 1) * v + v) by (nonlinear_arith);
    }
}

/// Sums add over concatenation.
pub proof fn lemma_sum_concat(a: Seq<u128>, b: Seq<u128>)
    ensures
        spec_sum(a + b) == spec_sum(a) + spec_sum(b),
    decreases b.len(),
{
    if b.len() == 0 {
        assert(a + b =~= a);
    } else {
        assert((a + b).drop_last() =~= a + b.drop_last());
        lemma_sum_concat(a, b.drop_last());
    }
}

/// A prefix sums to no more than the whole.
pub proof fn lemma_sum_take_bound(s: Seq<u128>, n: int)
    requires
        0 <= n <= s.len(),
    ensures
        spec_sum(s.take(n)) <= spec_sum(s),
    decreases s.len() - n,
{
    if n < s.len() {
        assert(s.take(n + 1).drop_last() =~= s.take(n));
        lemma_sum_take_bound(s, n + 1);
    } else {
        assert(s.take(n) =~= s);
    }
}

/// Ensuring the account set is idempotent: a second initialization
/// with the same parameters finds every account present and leaves
/// the balances exactly as the first one did.
pub proof fn lemma_init_idempotent(s: Seq<u128>, num_accounts: int, initial_balance: u128)
    requires
        num_accounts >= 0,
    ensures
        spec_init(spec_init(s, num_accounts, initial_balance), num_accounts, initial_balance)
            == spec_init(s, num_accounts, initial_balance),
{
    if s.len() < num_accounts {
        assert(spec_init(s, num_accounts, initial_balance).len() == num_accounts);
    }
}

/// A reset followed by verification succeeds without any intervening
/// workload: the balances of a freshly reset backend sum to the
/// number of accounts times the initial balance.
pub proof fn lemma_reset_verifies(num_accounts: u64, initial_balance: u64)
    ensures
        spec_sum(spec_reset(num_accounts as int, initial_balance as u128)) == (num_accounts as int)
            * (initial_balance as int),
{
    lemma_sum_constant(num_accounts as int, initial_balance as u128);
}

} // verus!
