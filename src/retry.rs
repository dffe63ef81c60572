use vstd::prelude::*;

use crate::error::{transient, SerpError};
use crate::natural::{from_u64, le, mul_small, quotient_u64, value};
use vstd::arithmetic::div_mod::lemma_fundamental_div_mod_converse;

verus! {

/// Retries made by the default policy.
pub const DEFAULT_MAX_RETRIES: usize = 3;

/// Delay before the first retry of the default policy, in milliseconds.
pub const DEFAULT_BASE_DELAY_MS: u64 = 100;

/// Largest delay of the default policy, in milliseconds.
pub const DEFAULT_MAX_DELAY_MS: u64 = 10_000;

/// Growth factor of the default policy, in thousandths (2.0).
pub const DEFAULT_MULTIPLIER_MILLI: u32 = 2000;

/// How the executor retries a failed request.
///
/// Delays are whole milliseconds and the growth factor is a fixed-point
/// number in thousandths, so that `1500` stands for a factor of 1.5.
#[derive(Clone, Copy, Debug)]
pub struct RetryPolicy {
    /// Retries allowed after the first attempt.
    pub max_retries: usize,
    /// Delay before the first retry, in milliseconds.
    pub base_delay_ms: u64,
    /// Upper bound of every delay, in milliseconds.
    pub max_delay_ms: u64,
    /// Factor by which the delay grows per attempt, in thousandths.
    pub backoff_multiplier_milli: u32,
}

/// `x` to the power `n`.
pub open spec fn power(x: int, n: nat) -> int
    decreases n,
{
    if n == 0 {
        1
    } else {
        power(x, (n - 1) as nat) * x
    }
}

/// How long the executor waits before the next attempt.
#[derive(PartialEq, Eq, Structural, Clone, Copy, Debug)]
pub enum Pause {
    /// A wait that the service dictated, in seconds.
    Seconds(u64),
    /// A backoff wait, in milliseconds.
    Millis(u64),
}

/// What the executor does after one attempt.
#[derive(Debug)]
pub enum RetryStep<T> {
    /// Stop and hand this result to the caller.
    Finish(Result<T, SerpError>),
    /// Wait, then make the next attempt.
    Retry(Pause),
}

impl RetryPolicy {
    /// Delay before retry number `attempt`, in milliseconds: the base delay
    /// times `(multiplier / 1000)` to the power `attempt`, clamped to the
    /// largest delay, with the fraction of a millisecond dropped.
    pub open spec fn backoff_ms(self, attempt: nat) -> int {
        let d = self.base_delay_ms * power(self.backoff_multiplier_milli as int, attempt) / power(
            1000,
            attempt,
        );
        if d <= self.max_delay_ms {
            d
        } else {
            self.max_delay_ms as int
        }
    }

    /// The wait before the next attempt when attempt number `attempt`
    /// (counted from zero) failed with `e`, or `None` when `e` is final.
    pub open spec fn retry_pause(self, attempt: nat, e: SerpError) -> Option<Pause> {
        if attempt < self.max_retries {
            match e {
                SerpError::RateLimited { retry_after } => Some(Pause::Seconds(retry_after)),
                _ => if transient(e) {
                    Some(Pause::Millis(self.backoff_ms(attempt) as u64))
                } else {
                    None
                },
            }
        } else {
            None
        }
    }

    /// Whether the executor tries again after attempt `attempt` ended with `outcome`.
    pub open spec fn continues<T>(self, attempt: nat, outcome: Result<T, SerpError>) -> bool {
        match outcome {
            Ok(_) => false,
            Err(e) => self.retry_pause(attempt, e) is Some,
        }
    }

    /// Number of attempts the executor makes, counting from attempt `from`,
    /// when attempt `i` ends with `outcomes[i]`.
    pub open spec fn attempts_from<T>(self, outcomes: Seq<Result<T, SerpError>>, from: nat) -> nat
        decreases outcomes.len() - from,
    {
        if from < outcomes.len() && self.continues(from, outcomes[from as int]) {
            self.attempts_from(outcomes, from + 1)
        } else {
            from + 1
        }
    }

    /// The default policy: three retries, 100 ms growing twofold up to 10 s.
    pub fn default_policy() -> (r: RetryPolicy)
        ensures
            r.max_retries == DEFAULT_MAX_RETRIES,
            r.base_delay_ms == DEFAULT_BASE_DELAY_MS,
            r.max_delay_ms == DEFAULT_MAX_DELAY_MS,
            r.backoff_multiplier_milli == DEFAULT_MULTIPLIER_MILLI,
    {
        RetryPolicy {
            max_retries: DEFAULT_MAX_RETRIES,
            base_delay_ms: DEFAULT_BASE_DELAY_MS,
            max_delay_ms: DEFAULT_MAX_DELAY_MS,
            backoff_multiplier_milli: DEFAULT_MULTIPLIER_MILLI,
        }
    }

    /// The default policy with `max_retries` retries.
    pub fn new(max_retries: usize) -> (r: RetryPolicy)
        ensures
            r.max_retries == max_retries,
            r.base_delay_ms == DEFAULT_BASE_DELAY_MS,
            r.max_delay_ms == DEFAULT_MAX_DELAY_MS,
            r.backoff_multiplier_milli == DEFAULT_MULTIPLIER_MILLI,
    {
        RetryPolicy { max_retries, ..RetryPolicy::default_policy() }
    }

    /// This policy with another base delay, in milliseconds.
    pub fn with_base_delay(self, delay_ms: u64) -> (r: RetryPolicy)
        ensures
            r == (RetryPolicy { base_delay_ms: delay_ms, ..self }),
    {
        RetryPolicy { base_delay_ms: delay_ms, ..self }
    }

    /// This policy with another largest delay, in milliseconds.
    pub fn with_max_delay(self, delay_ms: u64) -> (r: RetryPolicy)
        ensures
            r == (RetryPolicy { max_delay_ms: delay_ms, ..self }),
    {
        RetryPolicy { max_delay_ms: delay_ms, ..self }
    }

    /// This policy with another growth factor, in thousandths.
    pub fn with_backoff_multiplier(self, multiplier_milli: u32) -> (r: RetryPolicy)
        ensures
            r == (RetryPolicy { backoff_multiplier_milli: multiplier_milli, ..self }),
    {
        RetryPolicy { backoff_multiplier_milli: multiplier_milli, ..self }
    }

    /// Delay before retry number `attempt`, in milliseconds: the base delay
    /// times the growth factor to the power `attempt`, at most the largest
    /// delay, with the fraction of a millisecond dropped. The power is kept
    /// as an exact fraction until it passes the largest delay or, for a
    /// factor below one, drops under one millisecond.
    pub fn backoff_duration(&self, attempt: usize) -> (r: u64)
        ensures
            r == self.backoff_ms(attempt as nat),
            r <= self.max_delay_ms,
    {
        let base = self.base_delay_ms;
        let m = self.backoff_multiplier_milli;
        let max = self.max_delay_ms;
        let ghost a = attempt as nat;
        let ghost gm = m as int;
        proof {
            lemma_power_pos(1000, a);
        }
        if base == 0 {
            return 0;
        }
        if m == 1000 {
            proof {
                let p = power(1000, a);
                lemma_fundamental_div_mod_converse(base * p, p, base as int, 0);
            }
            return if base <= max { base } else { max };
        }
        let mut num: Vec<u32> = from_u64(base);
        let mut den: Vec<u32> = from_u64(1);
        let mut k: usize = 0;
        while k < attempt
            invariant
                k <= attempt,
                a == attempt,
                gm == m,
                base == self.base_delay_ms,
                m == self.backoff_multiplier_milli,
                max == self.max_delay_ms,
                m != 1000,
                value(num@) == base * power(gm, k as nat),
                value(den@) == power(1000, k as nat),
            decreases attempt - k,
        {
            let kk = k;
            proof {
                lemma_power_pos(1000, kk as nat);
            }
            if m > 1000 {
                let cap = mul_small(&den, max);
                if le(&cap, &num) {
                    proof {
                        lemma_grows_past(base as int, gm, max as int, kk as nat, a);
                    }
                    return max;
                }
            } else {
                if !le(&den, &num) {
                    proof {
                        lemma_shrinks_below_one(base as int, gm, kk as nat, a);
                    }
                    return 0;
                }
            }
            num = mul_small(&num, m as u64);
            den = mul_small(&den, 1000);
            k = k + 1;
            proof {
                assert(base * power(gm, kk as nat) * m == base * power(gm, k as nat)) by (
                nonlinear_arith)
                    requires power(gm, k as nat) == power(gm, kk as nat) * gm, gm == m;
            }
        }
        let cap = mul_small(&den, max);
        if le(&cap, &num) {
            proof {
                lemma_quotient_at_least(value(num@) as int, value(den@) as int, max as int);
            }
            return max;
        }
        proof {
            let dv = value(den@) as int;
            assert(max * dv <= 0xffff_ffff_ffff_ffff * dv) by (nonlinear_arith)
                requires max <= 0xffff_ffff_ffff_ffffu64, dv > 0;
            lemma_quotient_below(value(num@) as int, dv, max as int);
        }
        quotient_u64(&num, &den)
    }

    /// What the executor does after attempt number `attempt` (counted from
    /// zero) ended with `outcome`: a success or a final error ends the run
    /// with that very outcome; a rate limit waits the time the service gave;
    /// a transient error waits the backoff delay; both only while fewer than
    /// `max_retries` retries were made.
    pub fn next_step<T>(&self, attempt: usize, outcome: Result<T, SerpError>) -> (r: RetryStep<T>)
        ensures
            match outcome {
                Ok(_) => r == RetryStep::Finish(outcome),
                Err(e) => match self.retry_pause(attempt as nat, e) {
                    Some(p) => r == RetryStep::<T>::Retry(p),
                    None => r == RetryStep::Finish(outcome),
                },
            },
    {
        match outcome {
            Ok(v) => RetryStep::Finish(Ok(v)),
            Err(e) => {
                if attempt < self.max_retries {
                    match e {
                        SerpError::RateLimited { retry_after } => {
                            return RetryStep::Retry(Pause::Seconds(retry_after));
                        },
                        _ => {},
                    }
                    if e.is_transient() {
                        return RetryStep::Retry(Pause::Millis(self.backoff_duration(attempt)));
                    }
                }
                RetryStep::Finish(Err(e))
            },
        }
    }
}

impl Default for RetryPolicy {
    fn default() -> (r: RetryPolicy)
        ensures
            r.max_retries == DEFAULT_MAX_RETRIES,
            r.base_delay_ms == DEFAULT_BASE_DELAY_MS,
            r.max_delay_ms == DEFAULT_MAX_DELAY_MS,
            r.backoff_multiplier_milli == DEFAULT_MULTIPLIER_MILLI,
    {
        RetryPolicy::default_policy()
    }
}

proof fn lemma_power_pos(x: int, n: nat)
    requires
        x > 0,
    ensures
        power(x, n) > 0,
    decreases n,
{
    if n > 0 {
        lemma_power_pos(x, (n - 1) as nat);
        let p = power(x, (n - 1) as nat);
        assert(p * x > 0) by (nonlinear_arith)
            requires p > 0, x > 0;
    }
}

proof fn lemma_power_nonneg(x: int, n: nat)
    requires
        x >= 0,
    ensures
        power(x, n) >= 0,
    decreases n,
{
    if n > 0 {
        lemma_power_nonneg(x, (n - 1) as nat);
        let p = power(x, (n - 1) as nat);
        assert(p * x >= 0) by (nonlinear_arith)
            requires p >= 0, x >= 0;
    }
}

proof fn lemma_power_add(x: int, a: nat, b: nat)
    ensures
        power(x, a + b) == power(x, a) * power(x, b),
    decreases b,
{
    if b > 0 {
        lemma_power_add(x, a, (b - 1) as nat);
        let pa = power(x, a);
        let pb = power(x, (b - 1) as nat);
        assert(power(x, a + b) == power(x, (a + b - 1) as nat) * x);
        assert(pa * pb * x == pa * (pb * x)) by (nonlinear_arith);
    }
}

/// For nonnegative `x <= y`, `x^n <= y^n`.
proof fn lemma_power_le(x: int, y: int, n: nat)
    requires
        0 <= x <= y,
    ensures
        power(x, n) <= power(y, n),
    decreases n,
{
    if n > 0 {
        lemma_power_le(x, y, (n - 1) as nat);
        lemma_power_nonneg(x, (n - 1) as nat);
        let px = power(x, (n - 1) as nat);
        let py = power(y, (n - 1) as nat);
        assert(px * x <= py * y) by (nonlinear_arith)
            requires 0 <= px <= py, 0 <= x <= y;
    }
}

/// `c <= n / d` whenever `c * d <= n`.
proof fn lemma_quotient_at_least(n: int, d: int, c: int)
    requires
        d > 0,
        c * d <= n,
    ensures
        c <= n / d,
{
    let q = n / d;
    let r = n % d;
    assert(n == q * d + r && 0 <= r < d) by {
        vstd::arithmetic::div_mod::lemma_fundamental_div_mod(n, d);
    }
    if c > q {
        assert(c * d >= (q + 1) * d) by (nonlinear_arith)
            requires c >= q + 1, d > 0;
        assert((q + 1) * d == q * d + d) by (nonlinear_arith);
    }
}

/// `n / d < c` whenever `n < c * d`.
proof fn lemma_quotient_below(n: int, d: int, c: int)
    requires
        d > 0,
        n < c * d,
    ensures
        n / d < c,
{
    let q = n / d;
    let r = n % d;
    assert(n == q * d + r && 0 <= r < d) by {
        vstd::arithmetic::div_mod::lemma_fundamental_div_mod(n, d);
    }
    if q >= c {
        assert(q * d >= c * d) by (nonlinear_arith)
            requires q >= c, d > 0;
    }
}

/// With a factor above one, once `base * m^k / 1000^k` reaches `max` it
/// stays at or above `max` for every later power.
proof fn lemma_grows_past(base: int, m: int, max: int, k: nat, a: nat)
    requires
        base >= 0,
        m > 1000,
        max >= 0,
        k <= a,
        max * power(1000, k) <= base * power(m, k),
    ensures
        base * power(m, a) / power(1000, a) >= max,
{
    let d = (a - k) as nat;
    lemma_power_add(m, k, d);
    lemma_power_add(1000, k, d);
    lemma_power_le(1000, m, d);
    lemma_power_nonneg(1000, d);
    lemma_power_nonneg(1000, k);
    lemma_power_nonneg(m, k);
    lemma_power_pos(1000, a);
    let pk = power(1000, k);
    let qk = power(m, k);
    let pd = power(1000, d);
    let qd = power(m, d);
    assert(max * (pk * pd) <= base * (qk * qd)) by (nonlinear_arith)
        requires max * pk <= base * qk, 0 <= pd <= qd, base >= 0, qk >= 0, pk >= 0, max >= 0;
    assert(base * (qk * qd) == base * power(m, a));
    lemma_quotient_at_least(base * power(m, a), power(1000, a), max);
}

/// With a factor below one, once `base * m^k` falls under `1000^k` the
/// delay rounds down to zero for every later power.
proof fn lemma_shrinks_below_one(base: int, m: int, k: nat, a: nat)
    requires
        base >= 0,
        0 <= m < 1000,
        k <= a,
        base * power(m, k) < power(1000, k),
    ensures
        base * power(m, a) / power(1000, a) == 0,
{
    let d = (a - k) as nat;
    lemma_power_add(m, k, d);
    lemma_power_add(1000, k, d);
    lemma_power_le(m, 1000, d);
    lemma_power_nonneg(m, d);
    lemma_power_nonneg(m, k);
    lemma_power_pos(1000, d);
    let pk = power(1000, k);
    let qk = power(m, k);
    let pd = power(1000, d);
    let qd = power(m, d);
    assert(0 <= base * (qk * qd) < pk * pd) by (nonlinear_arith)
        requires 0 <= base * qk < pk, 0 <= qd <= pd, pd > 0, base >= 0, qk >= 0;
    lemma_fundamental_div_mod_converse(base * power(m, a), power(1000, a), 0, base * power(m, a));
}

/// With a growth factor of at least one, the backoff delay never decreases
/// from one attempt to a later one, and no delay exceeds the largest delay.
pub proof fn lemma_backoff_monotone(policy: RetryPolicy, a: nat, b: nat)
    requires
        policy.backoff_multiplier_milli >= 1000,
        a <= b,
    ensures
        policy.backoff_ms(a) <= policy.backoff_ms(b),
        policy.backoff_ms(b) <= policy.max_delay_ms,
{
    let base = policy.base_delay_ms as int;
    let m = policy.backoff_multiplier_milli as int;
    let d = (b - a) as nat;
    lemma_power_add(m, a, d);
    lemma_power_add(1000, a, d);
    lemma_power_le(1000, m, d);
    lemma_power_nonneg(1000, d);
    lemma_power_nonneg(m, a);
    lemma_power_pos(1000, a);
    lemma_power_pos(1000, b);
    let na = base * power(m, a);
    let da = power(1000, a);
    let q = na / da;
    assert(na == q * da + na % da && 0 <= na % da) by {
        vstd::arithmetic::div_mod::lemma_fundamental_div_mod(na, da);
    }
    let pd = power(1000, d);
    let qd = power(m, d);
    assert(na >= 0) by (nonlinear_arith)
        requires base >= 0, power(m, a) >= 0, na == base * power(m, a);
    assert(q >= 0) by {
        lemma_quotient_at_least(na, da, 0);
    }
    assert(q * (da * pd) <= na * qd) by (nonlinear_arith)
        requires q * da <= na, 0 <= pd <= qd, q >= 0, da > 0, na >= 0;
    assert(na * qd == base * power(m, b)) by (nonlinear_arith)
        requires na == base * power(m, a), power(m, b) == power(m, a) * qd;
    lemma_quotient_at_least(base * power(m, b), power(1000, b), q);
}

/// Whatever the service answers, the executor makes at most
/// `max_retries + 1` attempts; every attempt before the last was retried,
/// and the run ends on the outcome of its last attempt, which is what the
/// caller receives.
pub proof fn lemma_attempts_bounded<T>(policy: RetryPolicy, outcomes: Seq<Result<T, SerpError>>)
    requires
        outcomes.len() > policy.max_retries,
    ensures
        1 <= policy.attempts_from(outcomes, 0) <= policy.max_retries + 1,
        forall|i: nat|
            i + 1 < policy.attempts_from(outcomes, 0) ==> #[trigger] policy.continues(
                i,
                outcomes[i as int],
            ),
        !policy.continues(
            (policy.attempts_from(outcomes, 0) - 1) as nat,
            outcomes[policy.attempts_from(outcomes, 0) - 1],
        ),
{
    lemma_attempts_from(policy, outcomes, 0);
}

proof fn lemma_attempts_from<T>(policy: RetryPolicy, outcomes: Seq<Result<T, SerpError>>, from: nat)
    requires
        outcomes.len() > policy.max_retries,
        from <= policy.max_retries,
    ensures
        from + 1 <= policy.attempts_from(outcomes, from) <= policy.max_retries + 1,
        forall|i: nat|
            from <= i && i + 1 < policy.attempts_from(outcomes, from) ==> #[trigger] policy.continues(
                i,
                outcomes[i as int],
            ),
        !policy.continues(
            (policy.attempts_from(outcomes, from) - 1) as nat,
            outcomes[policy.attempts_from(outcomes, from) - 1],
        ),
    decreases policy.max_retries - from,
{
    if policy.continues(from, outcomes[from as int]) {
        lemma_attempts_from(policy, outcomes, from + 1);
    }
}

/// A rate-limited attempt is followed by exactly the wait the service asked
/// for, whatever the backoff settings, while retries remain.
pub proof fn lemma_rate_limit_wait(policy: RetryPolicy, attempt: nat, retry_after: u64)
    requires
        attempt < policy.max_retries,
    ensures
        policy.retry_pause(attempt, SerpError::RateLimited { retry_after }) == Some(
            Pause::Seconds(retry_after),
        ),
{
}

/// A 4xx answer other than 429 is never retried: a run whose first attempt
/// gets one makes exactly one attempt.
pub proof fn lemma_client_error_final<T>(
    policy: RetryPolicy,
    outcomes: Seq<Result<T, SerpError>>,
    code: u16,
    message: String,
)
    requires
        400 <= code < 500,
        code != 429,
        outcomes.len() > 0,
        outcomes[0] == Err::<T, SerpError>(SerpError::ApiError { code, message }),
    ensures
        forall|attempt: nat|
            #[trigger] policy.retry_pause(attempt, SerpError::ApiError { code, message }) is None,
        policy.attempts_from(outcomes, 0) == 1,
{
}

} // verus!
