use vstd::prelude::*;
use vstd::arithmetic::power2::{pow2, lemma_pow2_strictly_increases};
use crate::quote::FailureKind;

verus! {

/// How often an operation is tried and how long to wait between tries.
#[derive(Clone, Copy, Debug, PartialEq, Eq, Structural)]
pub struct RetryPolicy {
    pub max_attempts: u32,
    pub initial_delay_ms: u64,
}

/// What the runner of a retried operation does next.
#[derive(Clone, Copy, Debug, PartialEq, Eq, Structural)]
pub enum RetryStep {
    /// Run the operation (again).
    Attempt,
    /// Sleep this long, then run the operation again.
    SleepThenAttempt { delay_ms: u64 },
    /// The last attempt succeeded: hand its value back.
    Succeeded,
    /// No attempt is left: fail, naming how many were made.
    Exhausted { attempts: u32 },
    /// The failure is of a class that retrying cannot mend: fail at once,
    /// naming how many attempts were made.
    NotRetried { attempts: u32 },
}

/// The pause after the failure of attempt `index` (counted from zero):
/// `initial * 2^index`, capped at `u64::MAX`.
pub open spec fn backoff_delay(initial: u64, index: nat) -> int {
    let d = initial * pow2(index);
    if d <= u64::MAX {
        d
    } else {
        u64::MAX as int
    }
}

/// The step after `attempts_made` attempts, the last of which succeeded or
/// not.
pub open spec fn step_after(policy: RetryPolicy, attempts_made: nat, succeeded: bool) -> RetryStep {
    if succeeded {
        RetryStep::Succeeded
    } else if attempts_made < policy.max_attempts {
        RetryStep::SleepThenAttempt {
            delay_ms: backoff_delay(policy.initial_delay_ms, (attempts_made - 1) as nat) as u64,
        }
    } else {
        RetryStep::Exhausted { attempts: policy.max_attempts }
    }
}

/// The step after `attempts_made` attempts, the last of which failed with
/// a failure of class `kind`.
pub open spec fn step_after_failure(policy: RetryPolicy, attempts_made: nat, kind: FailureKind) -> RetryStep {
    if kind.spec_is_retryable() {
        step_after(policy, attempts_made, false)
    } else {
        RetryStep::NotRetried { attempts: attempts_made as u32 }
    }
}

/// `initial * 2^index` saturating at `u64::MAX`.
pub fn backoff(initial: u64, index: u32) -> (r: u64)
    ensures
        r == backoff_delay(initial, index as nat),
{
    let mut d: u64 = initial;
    let mut k: u32 = 0;
    let mut saturated = false;
    proof {
        vstd::arithmetic::power2::lemma2_to64();
    }
    while k < index
        invariant
            k <= index,
            saturated ==> d == u64::MAX && initial * pow2(k as nat) > u64::MAX,
            !saturated ==> d == initial * pow2(k as nat),
        decreases index - k,
    {
        proof {
            vstd::arithmetic::power2::lemma_pow2_unfold((k + 1) as nat);
            assert(initial * pow2((k + 1) as nat) == 2 * (initial * pow2(k as nat))) by (nonlinear_arith)
                requires
                    pow2((k + 1) as nat) == 2 * pow2(k as nat),
            ;
        }
        if !saturated {
            if d > u64::MAX / 2 {
                saturated = true;
                d = u64::MAX;
            } else {
                d = d * 2;
            }
        }
        k = k + 1;
    }
    d
}

/// The first step of a retried operation: attempt it, unless no attempt is
/// allowed at all.
pub fn retry_start(policy: RetryPolicy) -> (r: RetryStep)
    ensures
        r == (if policy.max_attempts == 0 {
            RetryStep::Exhausted { attempts: 0 }
        } else {
            RetryStep::Attempt
        }),
{
    if policy.max_attempts == 0 {
        RetryStep::Exhausted { attempts: 0 }
    } else {
        RetryStep::Attempt
    }
}

/// The step after `attempts_made` attempts: done on success; otherwise a
/// pause of `initial_delay * 2^(attempts_made - 1)` and one more attempt
/// while attempts are left, else exhaustion. A timed-out attempt counts as
/// a failed one.
pub fn retry_after(policy: RetryPolicy, attempts_made: u32, succeeded: bool) -> (r: RetryStep)
    requires
        1 <= attempts_made <= policy.max_attempts,
    ensures
        r == step_after(policy, attempts_made as nat, succeeded),
{
    if succeeded {
        RetryStep::Succeeded
    } else if attempts_made < policy.max_attempts {
        RetryStep::SleepThenAttempt { delay_ms: backoff(policy.initial_delay_ms, attempts_made - 1) }
    } else {
        RetryStep::Exhausted { attempts: policy.max_attempts }
    }
}

/// The step after `attempts_made` attempts, the last of which failed with
/// a failure of class `kind`: a request or configuration error ends the run
/// at once; a transient failure or a rate limit is retried with backoff
/// while attempts are left. A timed-out attempt is a transient failure.
pub fn retry_after_failure(policy: RetryPolicy, attempts_made: u32, kind: FailureKind) -> (r: RetryStep)
    requires
        1 <= attempts_made <= policy.max_attempts,
    ensures
        r == step_after_failure(policy, attempts_made as nat, kind),
{
    if kind.is_retryable() {
        retry_after(policy, attempts_made, false)
    } else {
        RetryStep::NotRetried { attempts: attempts_made }
    }
}

/// An operation that always fails is tried exactly `max_attempts` times:
/// after each of the first `max_attempts - 1` failures the runner sleeps
/// `initial_delay * 2^i` (the `i`-th pause, from zero, while that fits in
/// `u64`), and after the last it gives up naming `max_attempts` attempts.
pub proof fn lemma_always_failing_run(policy: RetryPolicy, i: nat)
    requires
        policy.max_attempts >= 1,
        i < policy.max_attempts,
    ensures
        i + 1 < policy.max_attempts ==> step_after(policy, i + 1, false) == (RetryStep::SleepThenAttempt {
            delay_ms: backoff_delay(policy.initial_delay_ms, i) as u64,
        }),
        i + 1 < policy.max_attempts && policy.initial_delay_ms * pow2(i) <= u64::MAX ==> step_after(
            policy,
            i + 1,
            false,
        ) == (RetryStep::SleepThenAttempt {
            delay_ms: (policy.initial_delay_ms * pow2(i)) as u64,
        }),
        i + 1 == policy.max_attempts ==> step_after(policy, i + 1, false) == (RetryStep::Exhausted {
            attempts: policy.max_attempts,
        }),
{
}

/// The whole schedule of an operation that always fails, where the longest
/// pause fits in `u64`: after failure `i + 1` of the first
/// `max_attempts - 1` the runner sleeps exactly `initial_delay * 2^i` and
/// tries again; after failure `max_attempts` it gives up, naming
/// `max_attempts` attempts.
pub proof fn lemma_always_failing_schedule(policy: RetryPolicy)
    requires
        policy.max_attempts >= 2 ==> policy.initial_delay_ms * pow2((policy.max_attempts - 2) as nat)
            <= u64::MAX,
    ensures
        forall|i: nat|
            i + 1 < policy.max_attempts ==> #[trigger] step_after(policy, i + 1, false) == (
            RetryStep::SleepThenAttempt { delay_ms: (policy.initial_delay_ms * pow2(i)) as u64 }),
        policy.max_attempts >= 1 ==> step_after(policy, policy.max_attempts as nat, false) == (
        RetryStep::Exhausted { attempts: policy.max_attempts }),
{
    assert forall|i: nat| i + 1 < policy.max_attempts implies #[trigger] step_after(
        policy,
        i + 1,
        false,
    ) == (RetryStep::SleepThenAttempt { delay_ms: (policy.initial_delay_ms * pow2(i)) as u64 }) by {
        let top = (policy.max_attempts - 2) as nat;
        if i < top {
            lemma_pow2_strictly_increases(i, top);
        }
        let d = policy.initial_delay_ms;
        assert(d * pow2(i) <= d * pow2(top)) by (nonlinear_arith)
            requires
                pow2(i) <= pow2(top),
                d >= 0,
        ;
    }
}

} // verus!
