//! Per-provider statistics: request counters and a rolling mean of the
//! response latency of successful calls.

use vstd::prelude::*;
use vstd::arithmetic::div_mod::{lemma_div_is_ordered, lemma_div_multiples_vanish};

verus! {

/// Counters for one provider: requests issued, successes, failures, and
/// the running arithmetic mean of successful-call latency in
/// milliseconds. `total_requests == successful_requests +
/// failed_requests` holds after every update.
#[derive(Debug, Clone, Copy, PartialEq, Eq, Structural)]
pub struct ProviderStats {
    pub total_requests: u64,
    pub successful_requests: u64,
    pub failed_requests: u64,
    pub avg_response_time_ms: u64,
}

impl Default for ProviderStats {
    /// Fresh counters: everything zero.
    fn default() -> (r: Self)
        ensures
            r == ProviderStats::zeroed(),
    {
        ProviderStats {
            total_requests: 0,
            successful_requests: 0,
            failed_requests: 0,
            avg_response_time_ms: 0,
        }
    }
}

impl ProviderStats {
    /// The counters a provider starts with.
    pub open spec fn zeroed() -> ProviderStats {
        ProviderStats {
            total_requests: 0,
            successful_requests: 0,
            failed_requests: 0,
            avg_response_time_ms: 0,
        }
    }

    /// The accounting invariant: every issued request completed either
    /// successfully or not.
    pub open spec fn balanced(self) -> bool {
        self.total_requests == self.successful_requests + self.failed_requests
    }

    /// Whether one more request can be counted without overflowing.
    pub open spec fn can_count(self) -> bool {
        &&& self.total_requests < u64::MAX
        &&& self.successful_requests < u64::MAX
        &&& self.failed_requests < u64::MAX
    }

    /// The counters after one successful call that took `elapsed_ms`:
    /// one more request and success, and the rolling mean recomputed as
    /// `(old_mean * (n - 1) + elapsed_ms) / n` for the post-increment
    /// success count `n`.
    pub open spec fn after_success(self, elapsed_ms: u64) -> ProviderStats {
        ProviderStats {
            total_requests: (self.total_requests + 1) as u64,
            successful_requests: (self.successful_requests + 1) as u64,
            failed_requests: self.failed_requests,
            avg_response_time_ms: ((self.avg_response_time_ms * self.successful_requests
                + elapsed_ms) / (self.successful_requests + 1)) as u64,
        }
    }

    /// The counters after one failed call (a provider error or a
    /// timeout): one more request and failure, mean untouched.
    pub open spec fn after_failure(self) -> ProviderStats {
        ProviderStats {
            total_requests: (self.total_requests + 1) as u64,
            successful_requests: self.successful_requests,
            failed_requests: (self.failed_requests + 1) as u64,
            avg_response_time_ms: self.avg_response_time_ms,
        }
    }

    /// Records one successful call and folds its latency into the
    /// rolling mean.
    pub fn record_success(&mut self, elapsed_ms: u64)
        requires
            old(self).can_count(),
        ensures
            *final(self) == old(self).after_success(elapsed_ms),
    {
        let m = self.avg_response_time_ms;
        let k = self.successful_requests;
        proof {
            lemma_rolling_mean_bounded(m as int, k as int, elapsed_ms as int);
            assert((m as u128) * (k as u128) <= (u64::MAX as u128) * (u64::MAX as u128))
                by (nonlinear_arith)
                requires
                    m <= u64::MAX,
                    k <= u64::MAX,
            ;
        }
        let sum: u128 = (m as u128) * (k as u128) + (elapsed_ms as u128);
        let mean: u128 = sum / ((k as u128) + 1);
        self.total_requests = self.total_requests + 1;
        self.successful_requests = self.successful_requests + 1;
        self.avg_response_time_ms = mean as u64;
    }

    /// Records one failed call.
    pub fn record_failure(&mut self)
        requires
            old(self).can_count(),
        ensures
            *final(self) == old(self).after_failure(),
    {
        self.total_requests = self.total_requests + 1;
        self.failed_requests = self.failed_requests + 1;
    }

    /// Updating the counters preserves the accounting invariant and
    /// increments the request count by exactly one.
    pub proof fn lemma_update_balanced(self, elapsed_ms: u64)
        requires
            self.balanced(),
            self.can_count(),
        ensures
            self.after_success(elapsed_ms).balanced(),
            self.after_failure().balanced(),
            self.after_success(elapsed_ms).total_requests == self.total_requests + 1,
            self.after_failure().total_requests == self.total_requests + 1,
    {
    }
}

/// The rolling mean never exceeds the larger of the previous mean and
/// the new sample, so it stays within `u64`.
proof fn lemma_rolling_mean_bounded(m: int, k: int, e: int)
    requires
        0 <= m,
        0 <= k,
        0 <= e,
    ensures
        (m * k + e) / (k + 1) <= if m >= e {
            m
        } else {
            e
        },
{
    let mx = if m >= e {
        m
    } else {
        e
    };
    assert(m * k + e <= mx * (k + 1)) by (nonlinear_arith)
        requires
            0 <= k,
            0 <= m <= mx,
            0 <= e <= mx,
    ;
    lemma_div_is_ordered(m * k + e, mx * (k + 1), k + 1);
    lemma_div_multiples_vanish(mx, k + 1);
    assert((k + 1) * mx == mx * (k + 1)) by (nonlinear_arith);
}

/// The sum of `total_requests` over a sequence of counters.
pub open spec fn sum_total_requests(stats: Seq<ProviderStats>) -> int
    decreases stats.len(),
{
    if stats.len() == 0 {
        0
    } else {
        sum_total_requests(stats.drop_last()) + stats.last().total_requests
    }
}

/// Replacing one entry changes the sum by the difference of that entry's
/// request count.
pub proof fn lemma_sum_total_update(stats: Seq<ProviderStats>, i: int, s: ProviderStats)
    requires
        0 <= i < stats.len(),
    ensures
        sum_total_requests(stats.update(i, s)) == sum_total_requests(stats)
            - stats[i].total_requests + s.total_requests,
    decreases stats.len(),
{
    let n = stats.len() as int;
    if i == n - 1 {
        assert(stats.update(i, s).drop_last() =~= stats.drop_last());
    } else {
        assert(stats.update(i, s).drop_last() =~= stats.drop_last().update(i, s));
        lemma_sum_total_update(stats.drop_last(), i, s);
    }
}

/// The sum over a fresh, zeroed statistics table is zero, so the
/// round-robin selection of a new orchestrator starts at index 0.
pub proof fn lemma_sum_total_zeroed(stats: Seq<ProviderStats>)
    requires
        forall|i: int| 0 <= i < stats.len() ==> stats[i] == ProviderStats::zeroed(),
    ensures
        sum_total_requests(stats) == 0,
    decreases stats.len(),
{
    if stats.len() > 0 {
        lemma_sum_total_zeroed(stats.drop_last());
    }
}

/// Sums the request counters of a statistics table; the `u128`
/// accumulator cannot overflow.
pub fn total_requests_sum(stats: &Vec<ProviderStats>) -> (r: u128)
    ensures
        r == sum_total_requests(stats@),
{
    let n = stats.len();
    let mut sum: u128 = 0;
    let mut i: usize = 0;
    while i < n
        invariant
            i <= n,
            n == stats@.len(),
            sum == sum_total_requests(stats@.take(i as int)),
            sum <= (i as int) * (u64::MAX as int),
        decreases n - i,
    {
        proof {
            assert(stats@.take(i as int + 1).drop_last() =~= stats@.take(i as int));
            assert(stats@.take(i as int + 1).last() == stats@[i as int]);
            assert((i as int) * (u64::MAX as int) + (u64::MAX as int) == (i as int + 1) * (
            u64::MAX as int)) by (nonlinear_arith);
            assert((i as int + 1) * (u64::MAX as int) <= (usize::MAX as int) * (u64::MAX as int))
                by (nonlinear_arith)
                requires
                    i as int + 1 <= usize::MAX as int,
            ;
        }
        sum = sum + (stats[i].total_requests as u128);
        i = i + 1;
    }
    proof {
        assert(stats@.take(n as int) =~= stats@);
    }
    sum
}

} // verus!
