//! Retry policy: exponential backoff, and no automatic retry of trading
//! operations.

use vstd::prelude::*;
use crate::duration::{max_nanos, Duration};
use crate::text::str_eq;

verus! {

/// 2 to the power `n`.
pub open spec fn pow_two(n: nat) -> nat
    decreases n,
{
    if n == 0 {
        1
    } else {
        2 * pow_two((n - 1) as nat)
    }
}

/// `min(2^n * base, max)`, in nanoseconds.
pub open spec fn backoff_nanos(base: nat, max: nat, n: nat) -> nat {
    if pow_two(n) * base > max {
        max
    } else {
        pow_two(n) * base
    }
}

/// Whether `method` names a trading operation (placing, modifying or
/// cancelling an order), which is never retried automatically.
pub open spec fn trade_operation(method: Seq<char>) -> bool {
    method == "place_order"@ || method == "modify_order"@ || method == "cancel_order"@
}

/// Powers of two are positive.
pub proof fn lemma_pow_two_pos(n: nat)
    ensures
        pow_two(n) > 0,
    decreases n,
{
    if n > 0 {
        lemma_pow_two_pos((n - 1) as nat);
    }
}

/// `2^i * b <= 2^j * b` for `i <= j`.
pub proof fn lemma_pow_two_monotone(i: nat, j: nat, b: nat)
    requires
        i <= j,
    ensures
        pow_two(i) * b <= pow_two(j) * b,
    decreases j - i,
{
    if i < j {
        lemma_pow_two_monotone(i, (j - 1) as nat, b);
        assert(pow_two(j) * b == 2 * (pow_two((j - 1) as nat) * b)) by (nonlinear_arith)
            requires
                pow_two(j) == 2 * pow_two((j - 1) as nat),
        ;
    }
}

/// How requests are retried.
pub struct RetryPolicy {
    /// Largest number of retries.
    pub max_retries: u32,
    /// Largest total time spent retrying.
    pub max_retry_time: Duration,
    /// Wait before the first retry.
    pub base_delay: Duration,
    /// Largest single wait.
    pub max_delay: Duration,
}

impl Default for RetryPolicy {
    /// 5 retries within 60 s, waiting 1 s first and at most 16 s.
    fn default() -> (p: Self)
        ensures
            p.max_retries == 5,
            p.max_retry_time@ == 60_000_000_000,
            p.base_delay@ == 1_000_000_000,
            p.max_delay@ == 16_000_000_000,
    {
        RetryPolicy {
            max_retries: 5,
            max_retry_time: Duration::from_secs(60),
            base_delay: Duration::from_secs(1),
            max_delay: Duration::from_secs(16),
        }
    }
}

impl RetryPolicy {
    /// Whether a failed call of `api_method` may be retried: every method
    /// but the trading operations.
    pub fn should_retry(&self, api_method: &str) -> (b: bool)
        ensures
            b == !trade_operation(api_method@),
    {
        !is_trade_operation(api_method)
    }

    /// The wait before retry number `retry_count` (counting from 0):
    /// `min(2^retry_count * base_delay, max_delay)`.
    pub fn calculate_backoff(&self, retry_count: u32) -> (d: Duration)
        ensures
            d@ == backoff_nanos(self.base_delay@, self.max_delay@, retry_count as nat),
    {
        let base = self.base_delay.as_nanos();
        let max = self.max_delay.as_nanos();
        let mut d: u128 = base;
        let mut i: u32 = 0;
        assert(pow_two(0) * base == base) by {
            assert(pow_two(0) == 1);
        }
        while i < retry_count && d <= max && d != 0
            invariant
                i <= retry_count,
                d == pow_two(i as nat) * base,
                max == self.max_delay@,
                max <= max_nanos(),
            decreases retry_count - i,
        {
            assert(pow_two((i + 1) as nat) * base == 2 * (pow_two(i as nat) * base)) by (nonlinear_arith)
                requires
                    pow_two((i + 1) as nat) == 2 * pow_two(i as nat),
            ;
            d = d * 2;
            i = i + 1;
        }
        proof {
            let n = retry_count as nat;
            if i < retry_count && d > max {
                lemma_pow_two_monotone(i as nat, n, base as nat);
            }
            if d == 0 {
                lemma_pow_two_pos(i as nat);
                assert(base == 0) by (nonlinear_arith)
                    requires
                        d == 0,
                        d == pow_two(i as nat) * base,
                        pow_two(i as nat) > 0,
                {
                }
                assert(pow_two(n) * base == 0) by (nonlinear_arith)
                    requires
                        base == 0,
                ;
            }
        }
        if d > max {
            self.max_delay
        } else {
            match Duration::from_nanos_checked(d) {
                Some(x) => x,
                None => self.max_delay,
            }
        }
    }
}

/// Whether `api_method` is a trading operation (`place_order`,
/// `modify_order` or `cancel_order`).
pub fn is_trade_operation(api_method: &str) -> (b: bool)
    ensures
        b == trade_operation(api_method@),
{
    str_eq(api_method, "place_order") || str_eq(api_method, "modify_order") || str_eq(
        api_method,
        "cancel_order",
    )
}

} // verus!
