use vstd::prelude::*;
use crate::runner::{ExecError, TransferExecutor};
use crate::workload::{TransferRequest, TransferResult};

verus! {

/// Maximum number of retries for serialization failures.
pub const MAX_RETRIES: u32 = 5;

/// Base delay for the exponential retry backoff, in milliseconds.
pub const BASE_RETRY_DELAY_MS: u64 = 10;

/// Maximum number of transfers per batch (the accounting engine's
/// batch limit, reproduced here so the comparison is fair).
pub const MAX_BATCH_SIZE: usize = 8190;

/// Capacity of the bounded request queue feeding the batch
/// aggregator: two full batches.
pub const REQUEST_QUEUE_CAPACITY: usize = 16380;

/// The outcome that a status label returned by the server-side
/// transfer routine denotes. The routine answers with one of three
/// fixed labels; anything else is a protocol violation and maps to a
/// failure.
pub open spec fn spec_parse_status(s: Seq<char>) -> TransferResult {
    if s == "success"@ {
        TransferResult::Success
    } else if s == "insufficient_balance"@ {
        TransferResult::InsufficientBalance
    } else if s == "account_not_found"@ {
        TransferResult::AccountNotFound
    } else {
        TransferResult::Failed
    }
}

/// Parse the status label returned by the server-side transfer routine.
pub fn parse_transfer_status(status: &str) -> (r: TransferResult)
    ensures
        r == spec_parse_status(status@),
{
    let owned = status.to_owned();
    if owned == "success".to_owned() {
        TransferResult::Success
    } else if owned == "insufficient_balance".to_owned() {
        TransferResult::InsufficientBalance
    } else if owned == "account_not_found".to_owned() {
        TransferResult::AccountNotFound
    } else {
        TransferResult::Failed
    }
}

/// Backoff delay imposed before the retry numbered `retries` (counting
/// from one): the base delay doubled at each retry.
pub open spec fn spec_retry_delay(retries: u32) -> int
    decreases retries,
{
    if retries == 0 {
        BASE_RETRY_DELAY_MS as int
    } else {
        2 * spec_retry_delay((retries - 1) as u32)
    }
}

/// Total backoff delay imposed by `retries` retries.
pub open spec fn spec_total_backoff(retries: u32) -> int
    decreases retries,
{
    if retries == 0 {
        0
    } else {
        spec_total_backoff((retries - 1) as u32) + spec_retry_delay(retries)
    }
}

/// What the per-request executor does after a failed attempt.
#[derive(Debug, Clone, Copy, PartialEq, Eq, Structural)]
pub enum RetryDecision {
    /// Sleep for the given backoff delay and try again.
    Retry { delay_ms: u64 },
    /// The retry budget is exhausted: report the transfer as failed.
    GiveUp,
    /// A non-serialization error with budget left: propagate it once.
    Propagate,
}

/// The retry policy: a serialization failure is retried with
/// exponential backoff while budget remains; once the budget is spent
/// the transfer is reported failed; any other error propagates.
pub open spec fn spec_on_error(serialization: bool, retries_done: u32) -> RetryDecision {
    if serialization && retries_done < MAX_RETRIES {
        RetryDecision::Retry { delay_ms: spec_retry_delay((retries_done + 1) as u32) as u64 }
    } else if retries_done >= MAX_RETRIES {
        RetryDecision::GiveUp
    } else {
        RetryDecision::Propagate
    }
}

/// Decide what to do after attempt number `retries_done + 1` failed
/// with the given error.
pub fn on_transfer_error(error: ExecError, retries_done: u32) -> (r: RetryDecision)
    requires
        retries_done <= MAX_RETRIES,
    ensures
        r == spec_on_error(error.serialization, retries_done),
{
    proof {
        reveal_with_fuel(spec_retry_delay, 7);
    }
    if error.serialization && retries_done < MAX_RETRIES {
        let delay_ms: u64 = match retries_done {
            0 => 20,
            1 => 40,
            2 => 80,
            3 => 160,
            _ => 320,
        };
        RetryDecision::Retry { delay_ms }
    } else if retries_done >= MAX_RETRIES {
        RetryDecision::GiveUp
    } else {
        RetryDecision::Propagate
    }
}

/// Execute one transfer with the serialization-failure retry policy.
///
/// Returns the final outcome together with how many retries were made
/// and the total backoff delay the policy imposed; the caller is the
/// one that actually sleeps between attempts, so the delay is reported
/// rather than waited out here. An error is propagated only when it is
/// not a serialization failure; a spent retry budget surfaces as the
/// `Failed` outcome instead.
pub fn execute_transfer_with_retry<E: TransferExecutor>(
    executor: &mut E,
    source: u64,
    dest: u64,
    amount: u64,
) -> (r: (Result<TransferResult, ExecError>, u32, u64))
    ensures
        r.1 <= MAX_RETRIES,
        r.2 == spec_total_backoff(r.1),
        (r.0 matches Err(e) ==> !e.serialization),
{
    let mut retries: u32 = 0;
    let mut backoff: u64 = 0;
    loop
        invariant
            retries <= MAX_RETRIES,
            backoff == spec_total_backoff(retries),
        decreases MAX_RETRIES - retries,
    {
        let result = executor.execute(source, dest, amount);
        match result {
            Ok(outcome) => {
                return (Ok(outcome), retries, backoff);
            },
            Err(e) => {
                match on_transfer_error(e, retries) {
                    RetryDecision::Retry { delay_ms: _ } => {
                        retries = retries + 1;
                        backoff = total_backoff_ms(retries);
                    },
                    RetryDecision::GiveUp => {
                        return (Ok(TransferResult::Failed), retries, backoff);
                    },
                    RetryDecision::Propagate => {
                        return (Err(e), retries, backoff);
                    },
                }
            },
        }
    }
}

/// The total backoff delay imposed by the given number of retries.
pub fn total_backoff_ms(retries: u32) -> (r: u64)
    requires
        retries <= MAX_RETRIES,
    ensures
        r == spec_total_backoff(retries),
{
    proof {
        reveal_with_fuel(spec_retry_delay, 7);
        reveal_with_fuel(spec_total_backoff, 7);
    }
    match retries {
        0 => 0,
        1 => 20,
        2 => 60,
        3 => 140,
        4 => 300,
        _ => 620,
    }
}

/// The outcome denoted by one result code of the server-side batch
/// routine: a small integer per request, with every unknown code a
/// failure.
pub open spec fn spec_code_to_result(code: i16) -> TransferResult {
    if code == 0 {
        TransferResult::Success
    } else if code == 1 {
        TransferResult::InsufficientBalance
    } else if code == 2 {
        TransferResult::AccountNotFound
    } else {
        TransferResult::Failed
    }
}

/// Map one result code of the server-side batch routine.
pub fn code_to_result(code: i16) -> (r: TransferResult)
    ensures
        r == spec_code_to_result(code),
{
    if code == 0 {
        TransferResult::Success
    } else if code == 1 {
        TransferResult::InsufficientBalance
    } else if code == 2 {
        TransferResult::AccountNotFound
    } else {
        TransferResult::Failed
    }
}

/// Turn the result codes of one batch round into per-request outcomes.
///
/// Exactly one outcome is produced for each of the `batch_len`
/// requests dispatched. When the routine answers with a same-length
/// array, each request receives its own code's outcome; an answer of
/// any other length is a protocol violation by the server-side
/// routine, and the whole batch is reported failed.
pub fn apply_batch_results(batch_len: usize, codes: &Vec<i16>) -> (r: Vec<TransferResult>)
    ensures
        r.len() == batch_len,
        codes.len() == batch_len ==> forall|i: int|
            0 <= i < batch_len ==> r[i] == spec_code_to_result(codes[i]),
        codes.len() != batch_len ==> forall|i: int| 0 <= i < batch_len ==> r[i] == TransferResult::Failed,
{
    let mut out: Vec<TransferResult> = Vec::new();
    if codes.len() != batch_len {
        let mut i: usize = 0;
        while i < batch_len
            invariant
                i <= batch_len,
                out.len() == i,
                forall|j: int| 0 <= j < i ==> out[j] == TransferResult::Failed,
            decreases batch_len - i,
        {
            out.push(TransferResult::Failed);
            i = i + 1;
        }
        out
    } else {
        let mut i: usize = 0;
        while i < batch_len
            invariant
                i <= batch_len,
                codes.len() == batch_len,
                out.len() == i,
                forall|j: int| 0 <= j < i ==> out[j] == spec_code_to_result(codes[j]),
            decreases batch_len - i,
        {
            out.push(code_to_result(codes[i]));
            i = i + 1;
        }
        out
    }
}

/// Transpose a batch of requests into the three parallel arrays the
/// server-side batch routine takes, widening each unsigned value to a
/// signed 64-bit integer.
pub fn transpose_batch(batch: &Vec<TransferRequest>) -> (r: (Vec<i64>, Vec<i64>, Vec<i64>))
    requires
        forall|i: int|
            0 <= i < batch.len() ==> #[trigger] batch[i].source_id <= i64::MAX as u64
                && batch[i].dest_id <= i64::MAX as u64 && batch[i].amount <= i64::MAX as u64,
    ensures
        r.0.len() == batch.len(),
        r.1.len() == batch.len(),
        r.2.len() == batch.len(),
        forall|i: int| 0 <= i < batch.len() ==> r.0[i] == batch[i].source_id as i64,
        forall|i: int| 0 <= i < batch.len() ==> r.1[i] == batch[i].dest_id as i64,
        forall|i: int| 0 <= i < batch.len() ==> r.2[i] == batch[i].amount as i64,
{
    let mut sources: Vec<i64> = Vec::new();
    let mut dests: Vec<i64> = Vec::new();
    let mut amounts: Vec<i64> = Vec::new();
    let mut i: usize = 0;
    while i < batch.len()
        invariant
            i <= batch.len(),
            sources.len() == i,
            dests.len() == i,
            amounts.len() == i,
            forall|j: int|
                0 <= j < batch.len() ==> #[trigger] batch[j].source_id <= i64::MAX as u64
                    && batch[j].dest_id <= i64::MAX as u64 && batch[j].amount <= i64::MAX as u64,
            forall|j: int| 0 <= j < i ==> sources[j] == batch[j].source_id as i64,
            forall|j: int| 0 <= j < i ==> dests[j] == batch[j].dest_id as i64,
            forall|j: int| 0 <= j < i ==> amounts[j] == batch[j].amount as i64,
        decreases batch.len() - i,
    {
        sources.push(batch[i].source_id as i64);
        dests.push(batch[i].dest_id as i64);
        amounts.push(batch[i].amount as i64);
        i = i + 1;
    }
    (sources, dests, amounts)
}

} // verus!
