use vstd::prelude::*;

verus! {

/// How a failed call is classified.
#[derive(Debug, Clone, Copy, PartialEq, Eq, Structural)]
pub enum ErrorClass {
    Retryable,
    Fatal,
}

/// What to do after a failed attempt: wait and call again, or give up and
/// hand back the error of that attempt.
#[derive(Debug, Clone, PartialEq, Eq)]
pub enum RetryOutcome<E> {
    RetryAfter(u64),
    GiveUp(E),
}

/// A bounded retry budget with pure exponential backoff: after the failed
/// attempt `k` (counted from 1) the wait is `initial_delay_ms * 2^(k-1)`.
#[derive(Debug, Clone, Copy, PartialEq, Eq, Structural)]
pub struct RetryPolicy {
    pub max_attempts: u32,
    pub initial_delay_ms: u64,
}

/// Two to the power `e`.
pub open spec fn pow2(e: nat) -> nat
    decreases e,
{
    if e == 0 {
        1
    } else {
        2 * pow2((e - 1) as nat)
    }
}

proof fn lemma_first_delay(initial_delay: u64)
    ensures
        backoff_delay(initial_delay, 1) == initial_delay,
{
    assert(pow2(0) == 1);
    assert(((1 - 1) as nat) == 0);
    assert(initial_delay * pow2(0) == initial_delay) by (nonlinear_arith)
        requires pow2(0) == 1;
}

proof fn lemma_pow2_grows(a: nat, b: nat)
    requires
        a <= b,
    ensures
        1 <= pow2(a) <= pow2(b),
    decreases b,
{
    if b > a {
        lemma_pow2_grows(a, (b - 1) as nat);
    } else if a > 0 {
        lemma_pow2_grows((a - 1) as nat, (a - 1) as nat);
    }
}

/// The wait after the failed attempt `attempt` (counted from 1).
pub open spec fn backoff_delay(initial_delay: u64, attempt: nat) -> int {
    initial_delay * pow2((attempt - 1) as nat)
}

/// The decision after attempt `attempt` failed with class `class`:
/// `Some(delay)` to retry, `None` to give up.
pub open spec fn retry_decision(p: RetryPolicy, attempt: nat, class: ErrorClass) -> Option<int> {
    if class == ErrorClass::Fatal || attempt >= p.max_attempts {
        None
    } else {
        Some(backoff_delay(p.initial_delay_ms, attempt))
    }
}

/// How many times an operation that fails every time is invoked, where its
/// `k`-th failure (from 0) has class `classes[k]`, counting from attempt `attempt`.
pub open spec fn invocations_from(p: RetryPolicy, classes: Seq<ErrorClass>, attempt: nat) -> nat
    decreases p.max_attempts - attempt,
{
    if attempt >= p.max_attempts || attempt == 0 || classes[attempt - 1] == ErrorClass::Fatal {
        attempt
    } else {
        invocations_from(p, classes, attempt + 1)
    }
}

/// How many times an operation that fails every time is invoked in all.
pub open spec fn invocations(p: RetryPolicy, classes: Seq<ErrorClass>) -> nat {
    invocations_from(p, classes, 1)
}

impl RetryPolicy {
    /// At least one attempt, and every wait fits in `u64`.
    pub open spec fn wf(self) -> bool {
        &&& self.max_attempts >= 1
        &&& backoff_delay(self.initial_delay_ms, self.max_attempts as nat) <= u64::MAX
    }

    /// The budget used for calls to the compute backend.
    pub fn compute_backend() -> (r: RetryPolicy)
        ensures
            r.max_attempts == 5,
            r.initial_delay_ms == 1000,
            r.wf(),
    {
        proof {
            reveal_with_fuel(pow2, 5);
            assert(backoff_delay(1000, 5) == 16000);
        }
        RetryPolicy { max_attempts: 5, initial_delay_ms: 1000 }
    }

    /// A policy of `max_attempts` attempts and first wait `initial_delay_ms`,
    /// where at least one attempt is asked for and every wait fits in `u64`.
    pub fn new(max_attempts: u32, initial_delay_ms: u64) -> (r: Option<RetryPolicy>)
        ensures
            match r {
                Some(p) => p.max_attempts == max_attempts && p.initial_delay_ms == initial_delay_ms && p.wf(),
                None => !(RetryPolicy { max_attempts, initial_delay_ms }).wf(),
            },
    {
        if max_attempts == 0 {
            return None;
        }
        let mut d: u64 = initial_delay_ms;
        let mut k: u32 = 1;
        proof {
            lemma_first_delay(initial_delay_ms);
        }
        while k < max_attempts
            invariant
                1 <= k <= max_attempts,
                d == backoff_delay(initial_delay_ms, k as nat),
            decreases max_attempts - k,
        {
            proof {
                assert(initial_delay_ms * pow2(k as nat) == 2 * (initial_delay_ms * pow2((k - 1) as nat)))
                    by (nonlinear_arith)
                    requires pow2(k as nat) == 2 * pow2((k - 1) as nat);
            }
            if d > u64::MAX / 2 {
                proof {
                    lemma_delay_monotone(initial_delay_ms, (k + 1) as nat, max_attempts as nat);
                }
                return None;
            }
            d = d * 2;
            k = k + 1;
        }
        Some(RetryPolicy { max_attempts, initial_delay_ms })
    }

    /// The wait after the failed attempt `attempt`.
    pub fn delay_for_attempt(&self, attempt: u32) -> (r: u64)
        requires
            self.wf(),
            1 <= attempt <= self.max_attempts,
        ensures
            r == backoff_delay(self.initial_delay_ms, attempt as nat),
    {
        let mut d: u64 = self.initial_delay_ms;
        let mut k: u32 = 1;
        proof {
            lemma_first_delay(self.initial_delay_ms);
        }
        while k < attempt
            invariant
                self.wf(),
                1 <= k <= attempt <= self.max_attempts,
                d == backoff_delay(self.initial_delay_ms, k as nat),
            decreases attempt - k,
        {
            proof {
                assert(self.initial_delay_ms * pow2(k as nat) == 2 * (self.initial_delay_ms * pow2((k - 1) as nat)))
                    by (nonlinear_arith)
                    requires pow2(k as nat) == 2 * pow2((k - 1) as nat);
                lemma_delay_monotone(self.initial_delay_ms, (k + 1) as nat, self.max_attempts as nat);
            }
            d = d * 2;
            k = k + 1;
        }
        d
    }

    /// Decides what follows the failed attempt `attempt`, whose error is `error`.
    /// On giving up, the error handed back is that of this last attempt.
    pub fn after_failure<E>(&self, attempt: u32, class: ErrorClass, error: E) -> (r: RetryOutcome<E>)
        requires
            self.wf(),
            1 <= attempt <= self.max_attempts,
        ensures
            match retry_decision(*self, attempt as nat, class) {
                Some(delay) => r == RetryOutcome::<E>::RetryAfter(delay as u64) && delay <= u64::MAX,
                None => r == RetryOutcome::GiveUp(error),
            },
    {
        match class {
            ErrorClass::Fatal => RetryOutcome::GiveUp(error),
            ErrorClass::Retryable => {
                if attempt >= self.max_attempts {
                    RetryOutcome::GiveUp(error)
                } else {
                    RetryOutcome::RetryAfter(self.delay_for_attempt(attempt))
                }
            },
        }
    }
}

/// Backoff waits grow with the attempt number.
pub proof fn lemma_delay_monotone(initial_delay: u64, a: nat, b: nat)
    requires
        1 <= a <= b,
    ensures
        backoff_delay(initial_delay, a) <= backoff_delay(initial_delay, b),
{
    if a < b {
        lemma_pow2_grows((a - 1) as nat, (b - 1) as nat);
        assert(initial_delay * pow2((a - 1) as nat) <= initial_delay * pow2((b - 1) as nat))
            by (nonlinear_arith)
            requires pow2((a - 1) as nat) <= pow2((b - 1) as nat);
    }
}

/// The waits between attempts form the geometric sequence
/// `initial, 2 * initial, 4 * initial, ...`: each is twice the one before.
pub proof fn lemma_backoff_geometric(p: RetryPolicy, attempt: nat)
    requires
        p.wf(),
        1 <= attempt < p.max_attempts,
    ensures
        retry_decision(p, 1, ErrorClass::Retryable) == Some(p.initial_delay_ms as int),
        retry_decision(p, attempt, ErrorClass::Retryable) == Some(backoff_delay(p.initial_delay_ms, attempt)),
        attempt + 1 < p.max_attempts ==> backoff_delay(p.initial_delay_ms, attempt + 1)
            == 2 * backoff_delay(p.initial_delay_ms, attempt),
{
    lemma_first_delay(p.initial_delay_ms);
    assert(p.initial_delay_ms * pow2(attempt) == 2 * (p.initial_delay_ms * pow2((attempt - 1) as nat)))
        by (nonlinear_arith)
        requires pow2(attempt) == 2 * pow2((attempt - 1) as nat);
}

proof fn lemma_retryable_invocations_from(p: RetryPolicy, classes: Seq<ErrorClass>, attempt: nat)
    requires
        p.wf(),
        1 <= attempt <= p.max_attempts,
        classes.len() >= p.max_attempts,
        forall|k: int| 0 <= k < classes.len() ==> classes[k] == ErrorClass::Retryable,
    ensures
        invocations_from(p, classes, attempt) == p.max_attempts,
    decreases p.max_attempts - attempt,
{
    if attempt < p.max_attempts {
        lemma_retryable_invocations_from(p, classes, attempt + 1);
    }
}

/// An operation that fails with a retryable error every time is invoked
/// exactly `max_attempts` times; one that fails fatally at once, exactly once.
pub proof fn lemma_retry_invocations(p: RetryPolicy, classes: Seq<ErrorClass>)
    requires
        p.wf(),
        classes.len() >= p.max_attempts,
    ensures
        (forall|k: int| 0 <= k < classes.len() ==> classes[k] == ErrorClass::Retryable)
            ==> invocations(p, classes) == p.max_attempts,
        classes[0] == ErrorClass::Fatal ==> invocations(p, classes) == 1,
        retry_decision(p, p.max_attempts as nat, ErrorClass::Retryable) is None,
        retry_decision(p, 1, ErrorClass::Fatal) is None,
{
    if forall|k: int| 0 <= k < classes.len() ==> classes[k] == ErrorClass::Retryable {
        lemma_retryable_invocations_from(p, classes, 1);
    }
}

} // verus!
