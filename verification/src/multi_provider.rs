//! The multi-provider orchestration engine: strategy dispatch (failover,
//! load balancing, aggregation, racing), the per-call timeout and
//! accounting wrapper, and the statistics tracker.
//!
//! Providers are invoked strictly one at a time, in registration order,
//! as a deliberate design choice: the racing strategy is observably the
//! failover strategy, and `max_concurrent` is accepted but has no effect.
//! Every contract below is stated against a *trace*: the sequence of
//! effective per-provider outcomes, in which each entry is either the
//! provider's modeled response or a timeout with the configured deadline,
//! since only the clock decides whether a call's result is kept.

use vstd::prelude::*;
use vstd::arithmetic::div_mod::{lemma_fundamental_div_mod, lemma_fundamental_div_mod_converse};
use crate::error::SearchError;
use crate::sort::sort_results_by_provider;
use crate::stats::{sum_total_requests, total_requests_sum, ProviderStats};
use crate::types::{outcome_of, DebugOptions, SafeSearch, SearchOptions, SearchProvider,
    SearchResult, SortBy, SortOrder};

verus! {

/// Strategy for using multiple providers.
#[derive(Debug, Clone, Copy)]
pub enum MultiProviderStrategy {
    /// Use providers in sequence until one succeeds.
    Failover,
    /// Load balance requests across providers (round-robin).
    LoadBalance,
    /// Query all providers and merge results.
    Aggregate,
    /// Use the fastest responding provider; sequential here, so the
    /// first listed provider that succeeds wins, exactly as Failover.
    RaceFirst,
}

/// Configuration for multi-provider searches.
#[derive(Debug)]
pub struct MultiProviderConfig<P> {
    pub providers: Vec<P>,
    pub strategy: MultiProviderStrategy,
    pub timeout_per_provider_ms: u64,
    pub max_concurrent: usize,
}

impl<P> MultiProviderConfig<P> {
    /// A configuration with the given strategy, no providers yet, a ten
    /// second per-provider timeout and a concurrency cap of three.
    pub fn new(strategy: MultiProviderStrategy) -> (r: Self)
        ensures
            r.providers@.len() == 0,
            r.strategy == strategy,
            r.timeout_per_provider_ms == 10000u64,
            r.max_concurrent == 3usize,
    {
        MultiProviderConfig {
            providers: Vec::new(),
            strategy,
            timeout_per_provider_ms: 10000,
            max_concurrent: 3,
        }
    }

    /// Appends one provider to the registration list.
    pub fn add_provider(self, provider: P) -> (r: Self)
        ensures
            r.providers@ == self.providers@.push(provider),
            r.strategy == self.strategy,
            r.timeout_per_provider_ms == self.timeout_per_provider_ms,
            r.max_concurrent == self.max_concurrent,
    {
        let mut c = self;
        c.providers.push(provider);
        c
    }

    /// Sets the per-provider timeout, in milliseconds.
    pub fn with_timeout(self, timeout_ms: u64) -> (r: Self)
        ensures
            r.providers@ == self.providers@,
            r.strategy == self.strategy,
            r.timeout_per_provider_ms == timeout_ms,
            r.max_concurrent == self.max_concurrent,
    {
        let mut c = self;
        c.timeout_per_provider_ms = timeout_ms;
        c
    }

    /// Sets the concurrency cap; accepted for compatibility, a no-op
    /// under the strictly sequential scheduling used here.
    pub fn with_max_concurrent(self, max: usize) -> (r: Self)
        ensures
            r.providers@ == self.providers@,
            r.strategy == self.strategy,
            r.timeout_per_provider_ms == self.timeout_per_provider_ms,
            r.max_concurrent == max,
    {
        let mut c = self;
        c.max_concurrent = max;
        c
    }
}

/// Multi-provider search options; the same request fields as
/// [`SearchOptions`], for a call that is not yet tied to one provider.
#[derive(Debug)]
pub struct SearchOptionsMulti {
    pub query: String,
    pub id_list: Option<String>,
    pub max_results: Option<u32>,
    pub language: Option<String>,
    pub region: Option<String>,
    pub safe_search: Option<SafeSearch>,
    pub page: Option<u32>,
    pub start: Option<u32>,
    pub sort_by: Option<SortBy>,
    pub sort_order: Option<SortOrder>,
    pub timeout: Option<u64>,
    pub debug: Option<DebugOptions>,
}

impl SearchOptionsMulti {
    /// The per-provider options carrying the same request fields.
    pub open spec fn as_single_options(self) -> SearchOptions {
        SearchOptions {
            query: self.query,
            id_list: self.id_list,
            max_results: self.max_results,
            language: self.language,
            region: self.region,
            safe_search: self.safe_search,
            page: self.page,
            start: self.start,
            sort_by: self.sort_by,
            sort_order: self.sort_order,
            timeout: self.timeout,
            debug: self.debug,
        }
    }

    /// Builds the per-provider options handed to each provider.
    pub fn to_search_options(&self) -> (r: SearchOptions)
        ensures
            r == self.as_single_options(),
    {
        SearchOptions {
            query: self.query.clone(),
            id_list: clone_opt_string(&self.id_list),
            max_results: self.max_results,
            language: clone_opt_string(&self.language),
            region: clone_opt_string(&self.region),
            safe_search: self.safe_search,
            page: self.page,
            start: self.start,
            sort_by: self.sort_by,
            sort_order: self.sort_order,
            timeout: self.timeout,
            debug: self.debug,
        }
    }
}

impl Default for SearchOptionsMulti {
    /// The defaults of one request: ten results, first page, a fifteen
    /// second timeout, everything else unset.
    fn default() -> (r: Self)
        ensures
            r.query@ == Seq::<char>::empty(),
            r.id_list is None,
            r.max_results == Some(10u32),
            r.language is None,
            r.region is None,
            r.safe_search is None,
            r.page == Some(1u32),
            r.start is None,
            r.sort_by is None,
            r.sort_order is None,
            r.timeout == Some(15000u64),
            r.debug is None,
    {
        SearchOptionsMulti {
            query: String::new(),
            id_list: None,
            max_results: Some(10),
            language: None,
            region: None,
            safe_search: None,
            page: Some(1),
            start: None,
            sort_by: None,
            sort_order: None,
            timeout: Some(15000),
            debug: None,
        }
    }
}

/// Clones an optional string, keeping its characters.
fn clone_opt_string(o: &Option<String>) -> (r: Option<String>)
    ensures
        r == *o,
{
    match o {
        Some(s) => Some(s.clone()),
        None => None,
    }
}

/// Declares `std::time::Instant` for latency measurement; a clock
/// reading is opaque here.
#[verifier::external_type_specification]
#[verifier::external_body]
pub struct ExInstant(std::time::Instant);

/// Relies on `std::time::Instant::now` for a monotonic clock reading;
/// nothing is promised of it.
#[verifier::external_body]
fn clock_now() -> std::time::Instant {
    std::time::Instant::now()
}

/// Relies on `std::time::Instant::elapsed`: the time since `start`,
/// converted to whole milliseconds, saturated into `u64`. Nothing is
/// promised of a clock reading.
#[verifier::external_body]
fn elapsed_millis(start: &std::time::Instant) -> u64 {
    let ms = start.elapsed().as_millis();
    if ms > u64::MAX as u128 {
        u64::MAX
    } else {
        ms as u64
    }
}

/// The modeled responses of a provider list to one request, in
/// registration order.
pub open spec fn behaviors<P: SearchProvider>(providers: Seq<P>, options: SearchOptions) -> Seq<
    Result<Seq<SearchResult>, SearchError>,
> {
    Seq::new(providers.len(), |i: int| providers[i].spec_search(options))
}

/// Whether `eff` is `base` with some entries replaced by a timeout
/// carrying the configured deadline: the only liberty the clock has.
pub open spec fn degraded_by_timeouts(
    eff: Seq<Result<Seq<SearchResult>, SearchError>>,
    base: Seq<Result<Seq<SearchResult>, SearchError>>,
    timeout_ms: u64,
) -> bool {
    &&& eff.len() == base.len()
    &&& forall|i: int|
        0 <= i < eff.len() ==> (#[trigger] eff[i]) == base[i] || eff[i] == Err::<
            Seq<SearchResult>,
            SearchError,
        >(SearchError::Timeout { timeout_ms })
}

/// The position of the first successful outcome, or the length when
/// every outcome failed.
pub open spec fn first_success(outs: Seq<Result<Seq<SearchResult>, SearchError>>) -> int
    decreases outs.len(),
{
    if outs.len() == 0 {
        0
    } else if outs[0] is Ok {
        0
    } else {
        1 + first_success(outs.drop_first())
    }
}

/// `first_success` is the position of the first success.
pub proof fn lemma_first_success_at(outs: Seq<Result<Seq<SearchResult>, SearchError>>, k: int)
    requires
        0 <= k < outs.len(),
        outs[k] is Ok,
        forall|j: int| 0 <= j < k ==> (#[trigger] outs[j]) is Err,
    ensures
        first_success(outs) == k,
    decreases k,
{
    if k > 0 {
        assert(outs[0] is Err);
        assert forall|j: int| 0 <= j < k - 1 implies (#[trigger] outs.drop_first()[j]) is Err by {
            assert(outs.drop_first()[j] == outs[j + 1]);
        }
        lemma_first_success_at(outs.drop_first(), k - 1);
    }
}

/// With no success at all, `first_success` runs off the end.
pub proof fn lemma_first_success_none(outs: Seq<Result<Seq<SearchResult>, SearchError>>)
    requires
        forall|j: int| 0 <= j < outs.len() ==> (#[trigger] outs[j]) is Err,
    ensures
        first_success(outs) == outs.len(),
    decreases outs.len(),
{
    if outs.len() > 0 {
        assert(outs[0] is Err);
        assert forall|j: int|
            0 <= j < outs.drop_first().len() implies (#[trigger] outs.drop_first()[j]) is Err by {
            assert(outs.drop_first()[j] == outs[j + 1]);
        }
        lemma_first_success_none(outs.drop_first());
    }
}

/// How many providers the failover strategy invokes on this trace: up
/// to and including the first success, or all of them.
pub open spec fn failover_attempts(outs: Seq<Result<Seq<SearchResult>, SearchError>>) -> int {
    if first_success(outs) < outs.len() {
        first_success(outs) + 1
    } else {
        outs.len() as int
    }
}

/// What the failover strategy returns on this trace: the first
/// success, else the *last* failure, else the configuration error.
pub open spec fn failover_result(outs: Seq<Result<Seq<SearchResult>, SearchError>>) -> Result<
    Seq<SearchResult>,
    SearchError,
> {
    if outs.len() == 0 {
        Err(SearchError::NoProvidersConfigured)
    } else if first_success(outs) < outs.len() {
        outs[first_success(outs)]
    } else {
        outs[outs.len() - 1]
    }
}

/// The statistics table after attempts on the first `k` providers of
/// the trace: attempted entries count one success with its latency or
/// one failure; the rest are untouched.
pub open spec fn stats_after_attempts(
    old_stats: Seq<ProviderStats>,
    outs: Seq<Result<Seq<SearchResult>, SearchError>>,
    elapsed: Seq<u64>,
    k: int,
) -> Seq<ProviderStats> {
    Seq::new(
        old_stats.len(),
        |i: int|
            if 0 <= i < k {
                if outs[i] is Ok {
                    old_stats[i].after_success(elapsed[i])
                } else {
                    old_stats[i].after_failure()
                }
            } else {
                old_stats[i]
            },
    )
}

/// One witness trace explaining a failover (or race) call: outcomes
/// degraded only by timeouts, the result determined by the trace, and
/// the statistics updated for exactly the attempted prefix.
pub open spec fn failover_witness<P: SearchProvider>(
    pre: MultiProviderSearch<P>,
    post: MultiProviderSearch<P>,
    options: SearchOptionsMulti,
    r: Result<Vec<SearchResult>, SearchError>,
    eff: Seq<Result<Seq<SearchResult>, SearchError>>,
    elapsed: Seq<u64>,
) -> bool {
    let base = behaviors(pre.config.providers@, options.as_single_options());
    &&& degraded_by_timeouts(eff, base, pre.config.timeout_per_provider_ms)
    &&& elapsed.len() == eff.len()
    &&& outcome_of(r) == failover_result(eff)
    &&& post.provider_stats@ == stats_after_attempts(
        pre.provider_stats@,
        eff,
        elapsed,
        failover_attempts(eff),
    )
}

/// The failover contract: some trace of per-provider outcomes, each the
/// provider's own response unless its call timed out, explains the
/// result and the statistics.
pub open spec fn failover_post<P: SearchProvider>(
    pre: MultiProviderSearch<P>,
    post: MultiProviderSearch<P>,
    options: SearchOptionsMulti,
    r: Result<Vec<SearchResult>, SearchError>,
) -> bool {
    exists|eff: Seq<Result<Seq<SearchResult>, SearchError>>, elapsed: Seq<u64>|
        failover_witness(pre, post, options, r, eff, elapsed)
}

/// One witness outcome explaining a load-balanced call at the selected
/// index.
pub open spec fn load_balance_witness<P: SearchProvider>(
    pre: MultiProviderSearch<P>,
    post: MultiProviderSearch<P>,
    options: SearchOptionsMulti,
    r: Result<Vec<SearchResult>, SearchError>,
    eff: Result<Seq<SearchResult>, SearchError>,
    elapsed: u64,
) -> bool {
    let base = behaviors(pre.config.providers@, options.as_single_options());
    let idx = sum_total_requests(pre.provider_stats@) % (base.len() as int);
    &&& eff == base[idx] || eff == Err::<Seq<SearchResult>, SearchError>(
        SearchError::Timeout { timeout_ms: pre.config.timeout_per_provider_ms },
    )
    &&& outcome_of(r) == eff
    &&& post.provider_stats@ == pre.provider_stats@.update(
        idx,
        if eff is Ok {
            pre.provider_stats@[idx].after_success(elapsed)
        } else {
            pre.provider_stats@[idx].after_failure()
        },
    )
}

/// The load-balance contract: the provider at index `sum of all
/// total_requests mod provider count` is the only one invoked, and its
/// outcome is returned as-is, with no fallback.
pub open spec fn load_balance_post<P: SearchProvider>(
    pre: MultiProviderSearch<P>,
    post: MultiProviderSearch<P>,
    options: SearchOptionsMulti,
    r: Result<Vec<SearchResult>, SearchError>,
) -> bool {
    if pre.config.providers@.len() == 0 {
        &&& r matches Err(e) && e is NoProvidersConfigured
        &&& post.provider_stats@ == pre.provider_stats@
    } else {
        exists|eff: Result<Seq<SearchResult>, SearchError>, elapsed: u64|
            load_balance_witness(pre, post, options, r, eff, elapsed)
    }
}

/// The successful results of one outcome, or nothing.
pub open spec fn success_part(o: Result<Seq<SearchResult>, SearchError>) -> Seq<SearchResult> {
    match o {
        Ok(s) => s,
        Err(_) => Seq::empty(),
    }
}

/// All successful outcomes' results concatenated in provider order.
pub open spec fn concat_successes(outs: Seq<Result<Seq<SearchResult>, SearchError>>) -> Seq<
    SearchResult,
>
    decreases outs.len(),
{
    if outs.len() == 0 {
        Seq::empty()
    } else {
        concat_successes(outs.drop_last()) + success_part(outs.last())
    }
}

/// How many outcomes succeeded.
pub open spec fn ok_count(outs: Seq<Result<Seq<SearchResult>, SearchError>>) -> int
    decreases outs.len(),
{
    if outs.len() == 0 {
        0
    } else {
        ok_count(outs.drop_last()) + if outs.last() is Ok {
            1int
        } else {
            0int
        }
    }
}

/// Whether every outcome failed.
pub open spec fn all_failed(outs: Seq<Result<Seq<SearchResult>, SearchError>>) -> bool {
    forall|i: int| 0 <= i < outs.len() ==> (#[trigger] outs[i]) is Err
}

/// No outcome succeeded exactly when every outcome failed.
pub proof fn lemma_ok_count_zero(outs: Seq<Result<Seq<SearchResult>, SearchError>>)
    ensures
        ok_count(outs) == 0 <==> all_failed(outs),
        ok_count(outs) >= 0,
    decreases outs.len(),
{
    if outs.len() > 0 {
        lemma_ok_count_zero(outs.drop_last());
        if ok_count(outs) == 0 {
            assert forall|i: int| 0 <= i < outs.len() implies (#[trigger] outs[i]) is Err by {
                if i < outs.len() - 1 {
                    assert(outs.drop_last()[i] == outs[i]);
                }
            }
        } else {
            if !all_failed(outs.drop_last()) {
                let i = choose|i: int|
                    0 <= i < outs.drop_last().len() && !((#[trigger] outs.drop_last()[i]) is Err);
                assert(outs[i] == outs.drop_last()[i]);
            }
        }
    }
}

/// The merged list capped at the requested maximum, if one is set.
pub open spec fn cap_results(s: Seq<SearchResult>, max_results: Option<u32>) -> Seq<SearchResult> {
    match max_results {
        Option::None => s,
        Option::Some(m) => if s.len() <= m {
            s
        } else {
            s.take(m as int)
        },
    }
}

/// What the aggregate strategy returns on this trace: every successful
/// outcome's results concatenated in provider order, sorted by provider
/// name and capped; `AllProvidersFailed` when nothing succeeded.
pub open spec fn aggregate_result(
    outs: Seq<Result<Seq<SearchResult>, SearchError>>,
    max_results: Option<u32>,
) -> Result<Seq<SearchResult>, SearchError> {
    if outs.len() == 0 {
        Err(SearchError::NoProvidersConfigured)
    } else if all_failed(outs) {
        Err(SearchError::AllProvidersFailed)
    } else {
        Ok(cap_results(crate::sort::sort_by_provider(concat_successes(outs)), max_results))
    }
}

/// One witness trace explaining an aggregate call: every provider was
/// attempted once and the merged, sorted, capped list (or the
/// all-failed error) came out.
pub open spec fn aggregate_witness<P: SearchProvider>(
    pre: MultiProviderSearch<P>,
    post: MultiProviderSearch<P>,
    options: SearchOptionsMulti,
    r: Result<Vec<SearchResult>, SearchError>,
    eff: Seq<Result<Seq<SearchResult>, SearchError>>,
    elapsed: Seq<u64>,
) -> bool {
    let base = behaviors(pre.config.providers@, options.as_single_options());
    &&& degraded_by_timeouts(eff, base, pre.config.timeout_per_provider_ms)
    &&& elapsed.len() == eff.len()
    &&& outcome_of(r) == aggregate_result(eff, options.max_results)
    &&& post.provider_stats@ == stats_after_attempts(
        pre.provider_stats@,
        eff,
        elapsed,
        eff.len() as int,
    )
}

/// The aggregate contract: some trace of per-provider outcomes, each
/// the provider's own response unless its call timed out, explains the
/// merged result and the statistics of every provider.
pub open spec fn aggregate_post<P: SearchProvider>(
    pre: MultiProviderSearch<P>,
    post: MultiProviderSearch<P>,
    options: SearchOptionsMulti,
    r: Result<Vec<SearchResult>, SearchError>,
) -> bool {
    exists|eff: Seq<Result<Seq<SearchResult>, SearchError>>, elapsed: Seq<u64>|
        aggregate_witness(pre, post, options, r, eff, elapsed)
}

/// Multi-provider search manager: owns the provider list, the strategy
/// configuration and the per-provider statistics.
pub struct MultiProviderSearch<P> {
    pub config: MultiProviderConfig<P>,
    pub provider_stats: Vec<ProviderStats>,
}

impl<P: SearchProvider> MultiProviderSearch<P> {
    /// One statistics entry per registered provider, each balanced.
    pub open spec fn wf(self) -> bool {
        &&& self.provider_stats@.len() == self.config.providers@.len()
        &&& forall|i: int|
            0 <= i < self.provider_stats@.len() ==> (#[trigger] self.provider_stats@[i]).balanced()
    }

    /// Whether every counter can still count one more request.
    pub open spec fn can_count_all(self) -> bool {
        forall|i: int|
            0 <= i < self.provider_stats@.len() ==> (#[trigger] self.provider_stats@[i]).can_count()
    }

    /// Sets up the manager with zeroed statistics for every registered
    /// provider.
    pub fn new(config: MultiProviderConfig<P>) -> (r: Self)
        ensures
            r.wf(),
            r.config == config,
            r.provider_stats@.len() == config.providers@.len(),
            forall|i: int|
                0 <= i < r.provider_stats@.len() ==> (#[trigger] r.provider_stats@[i])
                    == ProviderStats::zeroed(),
            r.can_count_all(),
    {
        let n = config.providers.len();
        let mut provider_stats: Vec<ProviderStats> = Vec::new();
        let mut i: usize = 0;
        while i < n
            invariant
                i <= n,
                provider_stats@.len() == i as int,
                forall|j: int|
                    0 <= j < i ==> (#[trigger] provider_stats@[j]) == ProviderStats::zeroed(),
            decreases n - i,
        {
            provider_stats.push(ProviderStats::default());
            i = i + 1;
        }
        MultiProviderSearch { config, provider_stats }
    }

    /// A read-only snapshot of the statistics: one `(name, counters)`
    /// pair per provider, in registration order.
    pub fn get_stats(&self) -> (r: Vec<(String, ProviderStats)>)
        ensures
            self.wf() ==> r@.len() == self.config.providers@.len(),
            forall|i: int|
                0 <= i < r@.len() ==> (#[trigger] r@[i]).0@ == self.config.providers@[i].spec_name()
                    && r@[i].1 == self.provider_stats@[i],
    {
        let n = if self.config.providers.len() <= self.provider_stats.len() {
            self.config.providers.len()
        } else {
            self.provider_stats.len()
        };
        let mut r: Vec<(String, ProviderStats)> = Vec::new();
        let mut i: usize = 0;
        while i < n
            invariant
                i <= n,
                n <= self.config.providers@.len(),
                n <= self.provider_stats@.len(),
                self.wf() ==> n == self.config.providers@.len(),
                r@.len() == i as int,
                forall|j: int|
                    0 <= j < i ==> (#[trigger] r@[j]).0@ == self.config.providers@[j].spec_name()
                        && r@[j].1 == self.provider_stats@[j],
            decreases n - i,
        {
            let name = self.config.providers[i].name();
            let entry = self.provider_stats[i];
            r.push((name, entry));
            i = i + 1;
        }
        r
    }

    /// Whether one more search can be accounted without a counter
    /// overflowing; callers outside verified code should check this
    /// before searching.
    pub fn can_record_more(&self) -> (r: bool)
        ensures
            r == self.can_count_all(),
    {
        let n = self.provider_stats.len();
        let mut i: usize = 0;
        while i < n
            invariant
                i <= n,
                n == self.provider_stats@.len(),
                forall|j: int| 0 <= j < i ==> (#[trigger] self.provider_stats@[j]).can_count(),
            decreases n - i,
        {
            let s = self.provider_stats[i];
            if !(s.total_requests < u64::MAX && s.successful_requests < u64::MAX
                && s.failed_requests < u64::MAX) {
                return false;
            }
            i = i + 1;
        }
        true
    }

    /// Performs one search using the configured strategy.
    pub fn search(&mut self, options: &SearchOptionsMulti) -> (r: Result<
        Vec<SearchResult>,
        SearchError,
    >)
        requires
            old(self).wf(),
            old(self).can_count_all(),
        ensures
            final(self).wf(),
            final(self).config == old(self).config,
            match old(self).config.strategy {
                MultiProviderStrategy::Failover => failover_post(*old(self), *final(self), *options, r),
                MultiProviderStrategy::LoadBalance => load_balance_post(
                    *old(self),
                    *final(self),
                    *options,
                    r,
                ),
                MultiProviderStrategy::Aggregate => aggregate_post(*old(self), *final(self), *options, r),
                MultiProviderStrategy::RaceFirst => failover_post(*old(self), *final(self), *options, r),
            },
    {
        let strategy = self.config.strategy;
        match strategy {
            MultiProviderStrategy::Failover => self.search_failover(options),
            MultiProviderStrategy::LoadBalance => self.search_load_balance(options),
            MultiProviderStrategy::Aggregate => self.search_aggregate(options),
            MultiProviderStrategy::RaceFirst => self.search_race_first(options),
        }
    }

    /// Invokes one provider under the configured deadline and records
    /// the outcome: one request always; a success with its latency when
    /// the call returned results in time; a failure when it returned an
    /// error or overran the deadline, in which case its outcome is
    /// discarded and a timeout carrying the deadline is returned.
    ///
    /// Scheduling is sequential, so the call is allowed to resolve
    /// before the deadline check; its latency is measured from just
    /// before the call to just after it resolves.
    fn invoke_provider(&mut self, i: usize, options: &SearchOptions) -> (a: (
        Result<Vec<SearchResult>, SearchError>,
        u64,
    ))
        requires
            old(self).wf(),
            i < old(self).config.providers@.len(),
            old(self).provider_stats@[i as int].can_count(),
        ensures
            final(self).wf(),
            final(self).config == old(self).config,
            outcome_of(a.0) == old(self).config.providers@[i as int].spec_search(*options)
                || outcome_of(a.0) == Err::<Seq<SearchResult>, SearchError>(
                SearchError::Timeout { timeout_ms: old(self).config.timeout_per_provider_ms },
            ),
            final(self).provider_stats@ == old(self).provider_stats@.update(
                i as int,
                if a.0 is Ok {
                    old(self).provider_stats@[i as int].after_success(a.1)
                } else {
                    old(self).provider_stats@[i as int].after_failure()
                },
            ),
    {
        let timeout_ms = self.config.timeout_per_provider_ms;
        let start = clock_now();
        let outcome = self.config.providers[i].search(options);
        let elapsed = elapsed_millis(&start);
        let result: Result<Vec<SearchResult>, SearchError> = if elapsed > timeout_ms {
            Err(SearchError::Timeout { timeout_ms })
        } else {
            outcome
        };
        if result.is_ok() {
            self.provider_stats[i].record_success(elapsed);
        } else {
            self.provider_stats[i].record_failure();
        }
        proof {
            assert(self.provider_stats@ =~= old(self).provider_stats@.update(
                i as int,
                if result is Ok {
                    old(self).provider_stats@[i as int].after_success(elapsed)
                } else {
                    old(self).provider_stats@[i as int].after_failure()
                },
            ));
        }
        (result, elapsed)
    }

    /// Tries providers in registration order until one succeeds; if all
    /// fail, surfaces the last failure.
    fn search_failover(&mut self, options: &SearchOptionsMulti) -> (r: Result<
        Vec<SearchResult>,
        SearchError,
    >)
        requires
            old(self).wf(),
            old(self).can_count_all(),
        ensures
            final(self).wf(),
            final(self).config == old(self).config,
            failover_post(*old(self), *final(self), *options, r),
    {
        let so = options.to_search_options();
        let ghost pre = *old(self);
        let ghost base = behaviors(pre.config.providers@, so);
        let ghost t = pre.config.timeout_per_provider_ms;
        let n = self.config.providers.len();
        if n == 0 {
            let r: Result<Vec<SearchResult>, SearchError> = Err(
                SearchError::NoProvidersConfigured,
            );
            proof {
                let effw = Seq::<Result<Seq<SearchResult>, SearchError>>::empty();
                let elw = Seq::<u64>::empty();
                assert(stats_after_attempts(pre.provider_stats@, effw, elw, 0)
                    =~= pre.provider_stats@);
                assert(failover_witness(pre, *self, *options, r, effw, elw));
            }
            return r;
        }
        let mut last_error: Option<SearchError> = None;
        let ghost mut eff: Seq<Result<Seq<SearchResult>, SearchError>> = Seq::empty();
        let ghost mut el: Seq<u64> = Seq::empty();
        let mut i: usize = 0;
        while i < n
            invariant
                i <= n,
                pre == *old(self),
                n == pre.config.providers@.len(),
                self.config == pre.config,
                self.wf(),
                pre.wf(),
                pre.can_count_all(),
                base == behaviors(pre.config.providers@, so),
                so == options.as_single_options(),
                base.len() == n,
                t == pre.config.timeout_per_provider_ms,
                eff.len() == i as int,
                el.len() == i as int,
                forall|j: int|
                    0 <= j < i ==> (#[trigger] eff[j]) == base[j] || eff[j] == Err::<
                        Seq<SearchResult>,
                        SearchError,
                    >(SearchError::Timeout { timeout_ms: t }),
                forall|j: int| 0 <= j < i ==> (#[trigger] eff[j]) is Err,
                self.provider_stats@ == stats_after_attempts(
                    pre.provider_stats@,
                    eff,
                    el,
                    i as int,
                ),
                i > 0 ==> (last_error matches Some(e) && eff[i - 1] == Err::<
                    Seq<SearchResult>,
                    SearchError,
                >(e)),
            decreases n - i,
        {
            proof {
                assert(self.provider_stats@[i as int] == pre.provider_stats@[i as int]);
            }
            let ghost stats_before = self.provider_stats@;
            let (res, elapsed) = self.invoke_provider(i, &so);
            proof {
                eff = eff.push(outcome_of(res));
                el = el.push(elapsed);
                assert(self.provider_stats@ =~= stats_after_attempts(
                    pre.provider_stats@,
                    eff,
                    el,
                    i as int + 1,
                ));
            }
            match res {
                Ok(v) => {
                    let r: Result<Vec<SearchResult>, SearchError> = Ok(v);
                    proof {
                        let effw = eff + base.skip(i as int + 1);
                        let elw = el + Seq::new((n - i - 1) as nat, |_j: int| 0u64);
                        assert(effw.len() == n);
                        assert(elw.len() == n);
                        assert forall|j: int|
                            0 <= j < effw.len() implies (#[trigger] effw[j]) == base[j] || effw[j]
                            == Err::<Seq<SearchResult>, SearchError>(
                            SearchError::Timeout { timeout_ms: t },
                        ) by {
                            if j <= i {
                                assert(effw[j] == eff[j]);
                            } else {
                                assert(effw[j] == base.skip(i as int + 1)[j - i - 1]);
                            }
                        }
                        assert(effw[i as int] == eff[i as int]);
                        assert forall|j: int| 0 <= j < i implies (#[trigger] effw[j]) is Err by {
                            assert(effw[j] == eff[j]);
                        }
                        lemma_first_success_at(effw, i as int);
                        assert(failover_attempts(effw) == i + 1);
                        assert(stats_after_attempts(pre.provider_stats@, effw, elw, i as int + 1)
                            =~= stats_after_attempts(pre.provider_stats@, eff, el, i as int + 1));
                        assert(failover_witness(pre, *self, *options, r, effw, elw));
                    }
                    return r;
                },
                Err(e) => {
                    last_error = Some(e);
                },
            }
            i = i + 1;
        }
        match last_error {
            Some(e) => {
                let r: Result<Vec<SearchResult>, SearchError> = Err(e);
                proof {
                    lemma_first_success_none(eff);
                    assert(failover_attempts(eff) == n);
                    assert(failover_result(eff) == eff[n - 1]);
                    assert(failover_witness(pre, *self, *options, r, eff, el));
                }
                r
            },
            None => {
                proof {
                    assert(false);
                }
                Err(SearchError::NoProvidersConfigured)
            },
        }
    }

    /// Selects exactly one provider per call by round-robin over the
    /// accumulated request counts and returns its outcome as-is.
    fn search_load_balance(&mut self, options: &SearchOptionsMulti) -> (r: Result<
        Vec<SearchResult>,
        SearchError,
    >)
        requires
            old(self).wf(),
            old(self).can_count_all(),
        ensures
            final(self).wf(),
            final(self).config == old(self).config,
            load_balance_post(*old(self), *final(self), *options, r),
    {
        let so = options.to_search_options();
        let ghost pre = *old(self);
        let n = self.config.providers.len();
        if n == 0 {
            return Err(SearchError::NoProvidersConfigured);
        }
        let sum = total_requests_sum(&self.provider_stats);
        let idx = (sum % (n as u128)) as usize;
        proof {
            assert(idx as int == sum_total_requests(pre.provider_stats@) % (n as int));
        }
        let (res, elapsed) = self.invoke_provider(idx, &so);
        proof {
            let effw = outcome_of(res);
            assert(load_balance_witness(pre, *self, *options, res, effw, elapsed));
        }
        res
    }

    /// Queries every provider in registration order, merges the
    /// successes sorted by provider name, caps the list, and fails only
    /// when nothing succeeded.
    fn search_aggregate(&mut self, options: &SearchOptionsMulti) -> (r: Result<
        Vec<SearchResult>,
        SearchError,
    >)
        requires
            old(self).wf(),
            old(self).can_count_all(),
        ensures
            final(self).wf(),
            final(self).config == old(self).config,
            aggregate_post(*old(self), *final(self), *options, r),
    {
        let so = options.to_search_options();
        let ghost pre = *old(self);
        let ghost base = behaviors(pre.config.providers@, so);
        let ghost t = pre.config.timeout_per_provider_ms;
        let n = self.config.providers.len();
        if n == 0 {
            let r: Result<Vec<SearchResult>, SearchError> = Err(
                SearchError::NoProvidersConfigured,
            );
            proof {
                let effw = Seq::<Result<Seq<SearchResult>, SearchError>>::empty();
                let elw = Seq::<u64>::empty();
                assert(stats_after_attempts(pre.provider_stats@, effw, elw, 0)
                    =~= pre.provider_stats@);
                assert(aggregate_witness(pre, *self, *options, r, effw, elw));
            }
            return r;
        }
        let mut merged: Vec<SearchResult> = Vec::new();
        let mut successes: usize = 0;
        let ghost mut eff: Seq<Result<Seq<SearchResult>, SearchError>> = Seq::empty();
        let ghost mut el: Seq<u64> = Seq::empty();
        let mut i: usize = 0;
        while i < n
            invariant
                i <= n,
                pre == *old(self),
                n == pre.config.providers@.len(),
                self.config == pre.config,
                self.wf(),
                pre.wf(),
                pre.can_count_all(),
                base == behaviors(pre.config.providers@, so),
                so == options.as_single_options(),
                base.len() == n,
                t == pre.config.timeout_per_provider_ms,
                eff.len() == i as int,
                el.len() == i as int,
                forall|j: int|
                    0 <= j < i ==> (#[trigger] eff[j]) == base[j] || eff[j] == Err::<
                        Seq<SearchResult>,
                        SearchError,
                    >(SearchError::Timeout { timeout_ms: t }),
                merged@ == concat_successes(eff),
                successes as int == ok_count(eff),
                successes <= i,
                self.provider_stats@ == stats_after_attempts(
                    pre.provider_stats@,
                    eff,
                    el,
                    i as int,
                ),
            decreases n - i,
        {
            proof {
                assert(self.provider_stats@[i as int] == pre.provider_stats@[i as int]);
            }
            let (res, elapsed) = self.invoke_provider(i, &so);
            proof {
                let eff_prev = eff;
                eff = eff.push(outcome_of(res));
                el = el.push(elapsed);
                assert(self.provider_stats@ =~= stats_after_attempts(
                    pre.provider_stats@,
                    eff,
                    el,
                    i as int + 1,
                ));
                lemma_concat_successes_push(eff_prev, outcome_of(res));
                assert(eff.drop_last() =~= eff_prev);
                assert(eff.drop_last() == eff_prev);
            }
            match res {
                Ok(mut v) => {
                    successes = successes + 1;
                    merged.append(&mut v);
                },
                Err(_) => {
                    proof {
                        assert(merged@ + success_part(eff.last()) =~= merged@);
                    }
                },
            }
            i = i + 1;
        }
        if successes == 0 {
            let r: Result<Vec<SearchResult>, SearchError> = Err(SearchError::AllProvidersFailed);
            proof {
                lemma_ok_count_zero(eff);
                assert(aggregate_witness(pre, *self, *options, r, eff, el));
            }
            return r;
        }
        proof {
            lemma_ok_count_zero(eff);
            assert(!all_failed(eff));
        }
        let mut sorted = sort_results_by_provider(merged);
        let ghost unsorted_capless = sorted@;
        match options.max_results {
            Some(m) => {
                let keep = m as usize;
                let ghost before = sorted@;
                sorted.truncate(keep);
                proof {
                    if before.len() <= m {
                        if keep as int <= before.len() {
                            assert(sorted@ =~= before);
                        }
                        assert(sorted@ == cap_results(before, Some(m)));
                    } else {
                        assert(sorted@ == before.subrange(0, keep as int));
                        assert(before.subrange(0, keep as int) =~= before.take(m as int));
                        assert(sorted@ == cap_results(before, Some(m)));
                    }
                }
            },
            None => {},
        }
        proof {
            assert(sorted@ == cap_results(unsorted_capless, options.max_results));
        }
        let r: Result<Vec<SearchResult>, SearchError> = Ok(sorted);
        proof {
            assert(outcome_of(r) == aggregate_result(eff, options.max_results));
            assert(aggregate_witness(pre, *self, *options, r, eff, el));
        }
        r
    }

    /// Returns the fastest successful provider's results. Scheduling is
    /// strictly sequential here, a stated design choice, so the race is
    /// observably the failover strategy: the first provider in
    /// registration order to succeed wins.
    fn search_race_first(&mut self, options: &SearchOptionsMulti) -> (r: Result<
        Vec<SearchResult>,
        SearchError,
    >)
        requires
            old(self).wf(),
            old(self).can_count_all(),
        ensures
            final(self).wf(),
            final(self).config == old(self).config,
            failover_post(*old(self), *final(self), *options, r),
    {
        self.search_failover(options)
    }
}

/// Under failover, when provider `k` is the first whose outcome
/// succeeds, the call returns exactly provider `k`'s output, and
/// providers `0..k` were each invoked exactly once before it — their
/// request counters grow by one — while every later provider is
/// untouched.
pub proof fn lemma_failover_first_success(
    outs: Seq<Result<Seq<SearchResult>, SearchError>>,
    stats: Seq<ProviderStats>,
    elapsed: Seq<u64>,
    k: int,
)
    requires
        0 <= k < outs.len(),
        outs[k] is Ok,
        forall|j: int| 0 <= j < k ==> (#[trigger] outs[j]) is Err,
        stats.len() == outs.len(),
        elapsed.len() == outs.len(),
        forall|i: int| 0 <= i < stats.len() ==> (#[trigger] stats[i]).can_count(),
    ensures
        failover_result(outs) == outs[k],
        failover_attempts(outs) == k + 1,
        forall|j: int|
            0 <= j <= k ==> (#[trigger] stats_after_attempts(stats, outs, elapsed, k + 1)[j])
                .total_requests == stats[j].total_requests + 1,
        forall|j: int|
            k < j < stats.len() ==> (#[trigger] stats_after_attempts(stats, outs, elapsed, k + 1)[j])
                == stats[j],
{
    lemma_first_success_at(outs, k);
}

/// How often the round-robin selection lands on index `i` across a
/// number of consecutive calls that begin with zeroed counters: the
/// cursor visits `0, 1, 2, ...` modulo the provider count, since every
/// call grows the summed totals by exactly one.
pub open spec fn round_robin_hits(calls: int, n: int, i: int) -> int
    decreases calls,
{
    if calls <= 0 {
        0
    } else {
        round_robin_hits(calls - 1, n, i) + if (calls - 1) % n == i {
            1int
        } else {
            0int
        }
    }
}

/// Under load balancing, across `calls` consecutive calls starting
/// from zeroed counters, the provider at index `i` is selected
/// `⌊calls / n⌋` or `⌈calls / n⌉` times, cycling in registration order
/// from index 0.
pub proof fn lemma_load_balance_round_robin(calls: int, n: int, i: int)
    requires
        n > 0,
        0 <= i < n,
        calls >= 0,
    ensures
        round_robin_hits(calls, n, i) == calls / n + if i < calls % n {
            1int
        } else {
            0int
        },
        round_robin_hits(calls, n, i) == calls / n || round_robin_hits(calls, n, i) == calls / n
            + 1,
    decreases calls,
{
    if calls == 0 {
        lemma_fundamental_div_mod(0, n);
        lemma_fundamental_div_mod_converse(0, n, 0, 0);
    } else {
        lemma_load_balance_round_robin(calls - 1, n, i);
        lemma_fundamental_div_mod(calls - 1, n);
        let q = (calls - 1) / n;
        let r = (calls - 1) % n;
        if r < n - 1 {
            assert(calls == q * n + (r + 1));
            lemma_fundamental_div_mod_converse(calls, n, q, r + 1);
        } else {
            assert(calls == (q + 1) * n + 0) by (nonlinear_arith)
                requires
                    calls - 1 == q * n + r,
                    r == n - 1,
            ;
            lemma_fundamental_div_mod_converse(calls, n, q + 1, 0);
        }
    }
}

/// Recording one call — success or failure — grows the summed request
/// totals by exactly one, which is what advances the round-robin
/// cursor.
pub proof fn lemma_recorded_call_advances_cursor(
    stats: Seq<ProviderStats>,
    idx: int,
    elapsed: u64,
    success: bool,
)
    requires
        0 <= idx < stats.len(),
        stats[idx].can_count(),
    ensures
        sum_total_requests(
            stats.update(
                idx,
                if success {
                    stats[idx].after_success(elapsed)
                } else {
                    stats[idx].after_failure()
                },
            ),
        ) == sum_total_requests(stats) + 1,
{
    if success {
        crate::stats::lemma_sum_total_update(stats, idx, stats[idx].after_success(elapsed));
    } else {
        crate::stats::lemma_sum_total_update(stats, idx, stats[idx].after_failure());
    }
}

/// The combined length of every successful outcome's result list.
pub open spec fn total_success_len(outs: Seq<Result<Seq<SearchResult>, SearchError>>) -> int
    decreases outs.len(),
{
    if outs.len() == 0 {
        0
    } else {
        total_success_len(outs.drop_last()) + success_part(outs.last()).len()
    }
}

/// Concatenating the successes yields exactly their combined length.
pub proof fn lemma_concat_successes_len(outs: Seq<Result<Seq<SearchResult>, SearchError>>)
    ensures
        concat_successes(outs).len() == total_success_len(outs),
    decreases outs.len(),
{
    if outs.len() > 0 {
        lemma_concat_successes_len(outs.drop_last());
    }
}

/// Under aggregation with at least one success, the merged output holds
/// every succeeding provider's results — its length is their combined
/// length, capped at `max_results` when one is set — and it is sorted
/// by provider name, ascending.
pub proof fn lemma_aggregate_merged(
    outs: Seq<Result<Seq<SearchResult>, SearchError>>,
    max_results: Option<u32>,
)
    requires
        outs.len() > 0,
        !all_failed(outs),
    ensures
        aggregate_result(outs, max_results) matches Ok(m) && {
            &&& m.len() == (match max_results {
                Option::None => total_success_len(outs),
                Option::Some(cap) => if total_success_len(outs) <= cap {
                    total_success_len(outs)
                } else {
                    cap as int
                },
            })
            &&& crate::sort::sorted_by_provider(m)
        },
{
    let merged = concat_successes(outs);
    let sorted = crate::sort::sort_by_provider(merged);
    lemma_concat_successes_len(outs);
    crate::sort::lemma_sort_len(merged);
    crate::sort::lemma_sort_sorted(merged);
    let m = cap_results(sorted, max_results);
    assert(crate::sort::sorted_by_provider(m)) by {
        assert forall|i: int, j: int| 0 <= i < j < m.len() implies crate::sort::key_le(
            m[i],
            m[j],
        ) by {
            assert(m[i] == sorted[i] && m[j] == sorted[j]);
        }
    }
}

/// Under aggregation, when every provider fails the call fails with
/// the all-providers-failed error, whatever the cap.
pub proof fn lemma_aggregate_all_failed(
    outs: Seq<Result<Seq<SearchResult>, SearchError>>,
    max_results: Option<u32>,
)
    requires
        outs.len() > 0,
        all_failed(outs),
    ensures
        aggregate_result(outs, max_results) == Err::<Seq<SearchResult>, SearchError>(
            SearchError::AllProvidersFailed,
        ),
{
}

/// Idempotence of repeated calls. The failover (and race) result is a
/// function of the providers' responses alone — [`failover_result`]
/// takes nothing but the trace — and the load-balance selection is a
/// function of the accumulated totals modulo the provider count. Two
/// calls with an identical request, identical provider behavior and,
/// for load balancing, statistics that agree modulo the provider count
/// (as after a reset to zeroed counters) therefore return the same
/// results in the same order.
pub proof fn lemma_repeated_call_identical(
    outs: Seq<Result<Seq<SearchResult>, SearchError>>,
    stats_a: Seq<ProviderStats>,
    stats_b: Seq<ProviderStats>,
)
    requires
        outs.len() > 0,
        stats_a.len() == outs.len(),
        stats_b.len() == outs.len(),
        sum_total_requests(stats_a) % (outs.len() as int) == sum_total_requests(stats_b) % (
        outs.len() as int),
    ensures
        outs[sum_total_requests(stats_a) % (outs.len() as int)] == outs[sum_total_requests(stats_b)
            % (outs.len() as int)],
{
}

/// Concatenation of successes grows by the pushed outcome's results.
proof fn lemma_concat_successes_push(
    outs: Seq<Result<Seq<SearchResult>, SearchError>>,
    o: Result<Seq<SearchResult>, SearchError>,
)
    ensures
        concat_successes(outs.push(o)) == concat_successes(outs) + success_part(o),
{
    assert(outs.push(o).drop_last() =~= outs);
    assert(outs.push(o).last() == o);
}

} // verus!
