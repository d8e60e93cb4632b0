//! Tests of the multi-provider orchestration engine: strategies,
//! statistics and timeouts, driven by a configurable mock provider.

use websearch::error::SearchError;
use websearch::multi_provider::{
    MultiProviderConfig, MultiProviderSearch, MultiProviderStrategy, SearchOptionsMulti,
};
use websearch::stats::ProviderStats;
use websearch::types::{DebugOptions, SearchOptions, SearchProvider, SearchResult};

#[derive(Debug, Clone)]
struct MockProvider {
    name: String,
    should_error: bool,
    error_type: Option<SearchError>,
    results: Vec<SearchResult>,
    delay_ms: u64,
}

impl MockProvider {
    fn new(name: &str) -> Self {
        Self {
            name: name.to_string(),
            should_error: false,
            error_type: None,
            results: vec![
                SearchResult {
                    title: format!("{name} Result 1"),
                    url: format!("https://{name}.com/1"),
                    snippet: Some(format!("{name} content 1")),
                    domain: None,
                    published_date: None,
                    provider: Some(name.to_string()),
                    raw: None,
                },
                SearchResult {
                    title: format!("{name} Result 2"),
                    url: format!("https://{name}.com/2"),
                    snippet: Some(format!("{name} content 2")),
                    domain: None,
                    published_date: None,
                    provider: Some(name.to_string()),
                    raw: None,
                },
            ],
            delay_ms: 0,
        }
    }

    fn with_error(mut self, error: SearchError) -> Self {
        self.should_error = true;
        self.error_type = Some(error);
        self
    }

    fn with_results(mut self, results: Vec<SearchResult>) -> Self {
        self.results = results;
        self
    }

    fn with_delay(mut self, delay_ms: u64) -> Self {
        self.delay_ms = delay_ms;
        self
    }
}

impl SearchProvider for MockProvider {
    fn name(&self) -> String {
        self.name.clone()
    }

    fn search(&self, _options: &SearchOptions) -> Result<Vec<SearchResult>, SearchError> {
        if self.delay_ms > 0 {
            let start = std::time::Instant::now();
            while start.elapsed().as_millis() < self.delay_ms as u128 {}
        }
        if self.should_error {
            Err(self
                .error_type
                .clone()
                .unwrap_or(SearchError::Other("Mock error".to_string())))
        } else {
            Ok(self.results.clone())
        }
    }

    fn config(&self) -> Vec<(String, String)> {
        Vec::new()
    }
}

fn create_test_options(query: &str) -> SearchOptionsMulti {
    SearchOptionsMulti {
        query: query.to_string(),
        max_results: Some(10),
        debug: Some(DebugOptions {
            enabled: false,
            log_requests: false,
            log_responses: false,
        }),
        ..Default::default()
    }
}

fn stat_for<'a>(stats: &'a [(String, ProviderStats)], name: &str) -> &'a ProviderStats {
    &stats.iter().find(|(n, _)| n == name).expect("provider not in stats").1
}

#[test]
fn test_multi_provider_config() {
    let provider1 = MockProvider::new("provider1");
    let provider2 = MockProvider::new("provider2");

    let config = MultiProviderConfig::new(MultiProviderStrategy::Failover)
        .add_provider(provider1)
        .add_provider(provider2)
        .with_timeout(5000)
        .with_max_concurrent(2);

    assert_eq!(config.providers.len(), 2);
    assert_eq!(config.timeout_per_provider_ms, 5000);
    assert_eq!(config.max_concurrent, 2);
    assert!(matches!(config.strategy, MultiProviderStrategy::Failover));
}

#[test]
fn test_failover_strategy_success() {
    let provider1 = MockProvider::new("provider1");
    let provider2 = MockProvider::new("provider2");

    let config = MultiProviderConfig::new(MultiProviderStrategy::Failover)
        .add_provider(provider1)
        .add_provider(provider2);

    let mut multi_search = MultiProviderSearch::new(config);
    let options = create_test_options("test query");

    let results = multi_search.search(&options).unwrap();
    assert_eq!(results.len(), 2);
    assert_eq!(results[0].provider, Some("provider1".to_string()));
    assert!(results[0].title.contains("provider1"));
}

#[test]
fn test_failover_strategy_with_first_provider_failing() {
    let provider1 = MockProvider::new("provider1").with_error(SearchError::HttpError {
        status_code: Some(500),
        message: "Server error".to_string(),
        response_body: None,
    });
    let provider2 = MockProvider::new("provider2");

    let config = MultiProviderConfig::new(MultiProviderStrategy::Failover)
        .add_provider(provider1)
        .add_provider(provider2);

    let mut multi_search = MultiProviderSearch::new(config);
    let options = create_test_options("test query");

    let results = multi_search.search(&options).unwrap();
    assert_eq!(results.len(), 2);
    assert_eq!(results[0].provider, Some("provider2".to_string()));
    assert!(results[0].title.contains("provider2"));
}

#[test]
fn test_failover_strategy_all_providers_failing() {
    let provider1 = MockProvider::new("provider1").with_error(SearchError::HttpError {
        status_code: Some(500),
        message: "Server error".to_string(),
        response_body: None,
    });
    let provider2 = MockProvider::new("provider2").with_error(SearchError::HttpError {
        status_code: Some(401),
        message: "Unauthorized".to_string(),
        response_body: None,
    });

    let config = MultiProviderConfig::new(MultiProviderStrategy::Failover)
        .add_provider(provider1)
        .add_provider(provider2);

    let mut multi_search = MultiProviderSearch::new(config);
    let options = create_test_options("test query");

    let result = multi_search.search(&options);
    assert!(result.is_err());
    match result.unwrap_err() {
        SearchError::HttpError {
            status_code: Some(401),
            ..
        } => {
            // The last provider's error is surfaced.
        }
        _ => panic!("Expected the last provider's error"),
    }
}

#[test]
fn test_load_balance_strategy() {
    let provider1 = MockProvider::new("provider1");
    let provider2 = MockProvider::new("provider2");

    let config = MultiProviderConfig::new(MultiProviderStrategy::LoadBalance)
        .add_provider(provider1)
        .add_provider(provider2);

    let mut multi_search = MultiProviderSearch::new(config);
    let options = create_test_options("test query");

    // First request goes to provider1 (index 0).
    let results1 = multi_search.search(&options).unwrap();
    assert_eq!(results1[0].provider, Some("provider1".to_string()));

    // Second request goes to provider2 (index 1).
    let results2 = multi_search.search(&options).unwrap();
    assert_eq!(results2[0].provider, Some("provider2".to_string()));

    // Third request goes back to provider1 (round-robin).
    let results3 = multi_search.search(&options).unwrap();
    assert_eq!(results3[0].provider, Some("provider1".to_string()));
}

#[test]
fn test_aggregate_strategy() {
    let provider1 = MockProvider::new("provider1").with_results(vec![SearchResult {
        title: "Provider1 Result".to_string(),
        url: "https://provider1.com/result".to_string(),
        snippet: Some("Provider1 content".to_string()),
        domain: None,
        published_date: None,
        provider: Some("provider1".to_string()),
        raw: None,
    }]);
    let provider2 = MockProvider::new("provider2").with_results(vec![SearchResult {
        title: "Provider2 Result".to_string(),
        url: "https://provider2.com/result".to_string(),
        snippet: Some("Provider2 content".to_string()),
        domain: None,
        published_date: None,
        provider: Some("provider2".to_string()),
        raw: None,
    }]);

    let config = MultiProviderConfig::new(MultiProviderStrategy::Aggregate)
        .add_provider(provider1)
        .add_provider(provider2);

    let mut multi_search = MultiProviderSearch::new(config);
    let options = create_test_options("test query");

    let results = multi_search.search(&options).unwrap();
    assert_eq!(results.len(), 2);

    let provider_names: Vec<&str> = results
        .iter()
        .map(|r| r.provider.as_deref().unwrap_or("unknown"))
        .collect();
    assert!(provider_names.contains(&"provider1"));
    assert!(provider_names.contains(&"provider2"));
}

#[test]
fn test_aggregate_strategy_with_one_provider_failing() {
    let provider1 = MockProvider::new("provider1").with_error(SearchError::HttpError {
        status_code: Some(500),
        message: "Server error".to_string(),
        response_body: None,
    });
    let provider2 = MockProvider::new("provider2");

    let config = MultiProviderConfig::new(MultiProviderStrategy::Aggregate)
        .add_provider(provider1)
        .add_provider(provider2);

    let mut multi_search = MultiProviderSearch::new(config);
    let options = create_test_options("test query");

    let results = multi_search.search(&options).unwrap();
    assert_eq!(results.len(), 2);
    assert_eq!(results[0].provider, Some("provider2".to_string()));
}

#[test]
fn test_aggregate_strategy_all_providers_failing() {
    let provider1 = MockProvider::new("provider1").with_error(SearchError::HttpError {
        status_code: Some(500),
        message: "Server error".to_string(),
        response_body: None,
    });
    let provider2 = MockProvider::new("provider2").with_error(SearchError::HttpError {
        status_code: Some(401),
        message: "Unauthorized".to_string(),
        response_body: None,
    });

    let config = MultiProviderConfig::new(MultiProviderStrategy::Aggregate)
        .add_provider(provider1)
        .add_provider(provider2);

    let mut multi_search = MultiProviderSearch::new(config);
    let options = create_test_options("test query");

    let result = multi_search.search(&options);
    assert!(result.is_err());
    match result.unwrap_err() {
        SearchError::AllProvidersFailed => {
            assert!(
                SearchError::AllProvidersFailed
                    .message()
                    .contains("All providers failed")
            );
        }
        _ => panic!("Expected the all-providers-failed error"),
    }
}

#[test]
fn test_race_first_strategy() {
    let provider1 = MockProvider::new("provider1");
    let provider2 = MockProvider::new("provider2");

    let config = MultiProviderConfig::new(MultiProviderStrategy::RaceFirst)
        .add_provider(provider1)
        .add_provider(provider2);

    let mut multi_search = MultiProviderSearch::new(config);
    let options = create_test_options("test query");

    let results = multi_search.search(&options).unwrap();
    assert_eq!(results.len(), 2);
    // The first provider wins since they all succeed immediately.
    assert_eq!(results[0].provider, Some("provider1".to_string()));
}

#[test]
fn test_race_first_strategy_with_first_provider_failing() {
    let provider1 = MockProvider::new("provider1").with_error(SearchError::HttpError {
        status_code: Some(500),
        message: "Server error".to_string(),
        response_body: None,
    });
    let provider2 = MockProvider::new("provider2");

    let config = MultiProviderConfig::new(MultiProviderStrategy::RaceFirst)
        .add_provider(provider1)
        .add_provider(provider2);

    let mut multi_search = MultiProviderSearch::new(config);
    let options = create_test_options("test query");

    let results = multi_search.search(&options).unwrap();
    assert_eq!(results.len(), 2);
    assert_eq!(results[0].provider, Some("provider2".to_string()));
}

#[test]
fn test_provider_stats_tracking() {
    let provider1 = MockProvider::new("provider1");
    let provider2 = MockProvider::new("provider2").with_error(SearchError::HttpError {
        status_code: Some(500),
        message: "Server error".to_string(),
        response_body: None,
    });

    let config = MultiProviderConfig::new(MultiProviderStrategy::Failover)
        .add_provider(provider1)
        .add_provider(provider2);

    let mut multi_search = MultiProviderSearch::new(config);
    let options = create_test_options("test query");

    let _ = multi_search.search(&options).unwrap();
    let _ = multi_search.search(&options).unwrap();

    let stats = multi_search.get_stats();

    let provider1_stats = stat_for(&stats, "provider1");
    assert_eq!(provider1_stats.total_requests, 2);
    assert_eq!(provider1_stats.successful_requests, 2);
    assert_eq!(provider1_stats.failed_requests, 0);

    // Under failover, provider2 is never reached while provider1 succeeds.
    let provider2_stats = stat_for(&stats, "provider2");
    assert_eq!(provider2_stats.total_requests, 0);
}

#[test]
fn test_timeout_functionality() {
    let slow_provider = MockProvider::new("slow").with_delay(100);

    let config = MultiProviderConfig::new(MultiProviderStrategy::Failover)
        .add_provider(slow_provider)
        .with_timeout(50);

    let mut multi_search = MultiProviderSearch::new(config);
    let options = create_test_options("test query");

    let result = multi_search.search(&options);
    assert!(result.is_err());
    match result.unwrap_err() {
        SearchError::Timeout { timeout_ms } => {
            assert_eq!(timeout_ms, 50);
        }
        _ => panic!("Expected timeout error"),
    }
}

#[test]
fn test_timeout_records_failure() {
    // A provider with a 100 ms artificial delay under a 50 ms deadline:
    // the call times out, carrying the configured deadline, and counts
    // as one failed request for that provider.
    let slow_provider = MockProvider::new("slow").with_delay(100);

    let config = MultiProviderConfig::new(MultiProviderStrategy::Failover)
        .add_provider(slow_provider)
        .with_timeout(50);

    let mut multi_search = MultiProviderSearch::new(config);
    let options = create_test_options("test query");

    let result = multi_search.search(&options);
    assert!(matches!(
        result.unwrap_err(),
        SearchError::Timeout { timeout_ms: 50 }
    ));

    let stats = multi_search.get_stats();
    let slow_stats = stat_for(&stats, "slow");
    assert_eq!(slow_stats.failed_requests, 1);
    assert_eq!(slow_stats.total_requests, 1);
    assert_eq!(slow_stats.successful_requests, 0);
}

#[test]
fn test_max_results_in_aggregate() {
    let provider1 = MockProvider::new("provider1").with_results(vec![
        SearchResult {
            title: "Result 1".to_string(),
            url: "https://example1.com".to_string(),
            snippet: Some("Content 1".to_string()),
            domain: None,
            published_date: None,
            provider: Some("provider1".to_string()),
            raw: None,
        },
        SearchResult {
            title: "Result 2".to_string(),
            url: "https://example2.com".to_string(),
            snippet: Some("Content 2".to_string()),
            domain: None,
            published_date: None,
            provider: Some("provider1".to_string()),
            raw: None,
        },
    ]);
    let provider2 = MockProvider::new("provider2").with_results(vec![
        SearchResult {
            title: "Result 3".to_string(),
            url: "https://example3.com".to_string(),
            snippet: Some("Content 3".to_string()),
            domain: None,
            published_date: None,
            provider: Some("provider2".to_string()),
            raw: None,
        },
        SearchResult {
            title: "Result 4".to_string(),
            url: "https://example4.com".to_string(),
            snippet: Some("Content 4".to_string()),
            domain: None,
            published_date: None,
            provider: Some("provider2".to_string()),
            raw: None,
        },
    ]);

    let config = MultiProviderConfig::new(MultiProviderStrategy::Aggregate)
        .add_provider(provider1)
        .add_provider(provider2);

    let mut multi_search = MultiProviderSearch::new(config);
    let mut options = create_test_options("test query");
    options.max_results = Some(3);

    let results = multi_search.search(&options).unwrap();
    assert_eq!(results.len(), 3);
}

#[test]
fn test_empty_providers_config() {
    let config: MultiProviderConfig<MockProvider> =
        MultiProviderConfig::new(MultiProviderStrategy::Failover);
    let mut multi_search = MultiProviderSearch::new(config);
    let options = create_test_options("test query");

    let result = multi_search.search(&options);
    assert!(result.is_err());
    match result.unwrap_err() {
        SearchError::NoProvidersConfigured => {
            assert!(
                SearchError::NoProvidersConfigured
                    .message()
                    .contains("No providers configured")
            );
        }
        _ => panic!("Expected the no-providers-configured error"),
    }
}

#[test]
fn test_empty_providers_any_strategy_no_stats() {
    // An empty provider list fails the same way under every strategy,
    // and no statistics entries are created.
    for strategy in [
        MultiProviderStrategy::Failover,
        MultiProviderStrategy::LoadBalance,
        MultiProviderStrategy::Aggregate,
        MultiProviderStrategy::RaceFirst,
    ] {
        let config: MultiProviderConfig<MockProvider> = MultiProviderConfig::new(strategy);
        let mut multi_search = MultiProviderSearch::new(config);
        let options = create_test_options("anything");

        let result = multi_search.search(&options);
        assert!(matches!(
            result.unwrap_err(),
            SearchError::NoProvidersConfigured
        ));
        assert_eq!(multi_search.get_stats().len(), 0);
    }
}

#[test]
fn test_aggregate_sorted_by_provider_with_cap() {
    // Two providers with two results each under a cap of three: the
    // merged output holds three results sorted by provider name, so
    // every "p1" entry precedes the "p2" entries up to the cap.
    let p1 = MockProvider::new("p1");
    let p2 = MockProvider::new("p2");

    let config = MultiProviderConfig::new(MultiProviderStrategy::Aggregate)
        .add_provider(p2)
        .add_provider(p1);

    let mut multi_search = MultiProviderSearch::new(config);
    let mut options = create_test_options("test query");
    options.max_results = Some(3);

    let results = multi_search.search(&options).unwrap();
    assert_eq!(results.len(), 3);
    assert_eq!(results[0].provider, Some("p1".to_string()));
    assert_eq!(results[1].provider, Some("p1".to_string()));
    assert_eq!(results[2].provider, Some("p2".to_string()));
}

#[test]
fn test_failover_counts_each_earlier_provider_once() {
    // The second provider is the first to succeed: the first provider
    // was invoked exactly once before it, the third never.
    let p0 = MockProvider::new("p0").with_error(SearchError::Other("down".to_string()));
    let p1 = MockProvider::new("p1");
    let p2 = MockProvider::new("p2");

    let config = MultiProviderConfig::new(MultiProviderStrategy::Failover)
        .add_provider(p0)
        .add_provider(p1)
        .add_provider(p2);

    let mut multi_search = MultiProviderSearch::new(config);
    let options = create_test_options("q");

    let results = multi_search.search(&options).unwrap();
    assert_eq!(results[0].provider, Some("p1".to_string()));

    let stats = multi_search.get_stats();
    assert_eq!(stat_for(&stats, "p0").total_requests, 1);
    assert_eq!(stat_for(&stats, "p0").failed_requests, 1);
    assert_eq!(stat_for(&stats, "p1").total_requests, 1);
    assert_eq!(stat_for(&stats, "p1").successful_requests, 1);
    assert_eq!(stat_for(&stats, "p2").total_requests, 0);
}

#[test]
fn test_repeated_identical_calls_same_ordering() {
    // Identical requests against identical provider behavior return
    // identically ordered results: twice under failover, and under
    // load balancing when the statistics are reset between calls.
    let options = create_test_options("repeat");

    let mut failover = MultiProviderSearch::new(
        MultiProviderConfig::new(MultiProviderStrategy::Failover)
            .add_provider(MockProvider::new("alpha"))
            .add_provider(MockProvider::new("beta")),
    );
    let first = failover.search(&options).unwrap();
    let second = failover.search(&options).unwrap();
    let first_urls: Vec<&String> = first.iter().map(|r| &r.url).collect();
    let second_urls: Vec<&String> = second.iter().map(|r| &r.url).collect();
    assert_eq!(first_urls, second_urls);

    let make_lb = || {
        MultiProviderSearch::new(
            MultiProviderConfig::new(MultiProviderStrategy::LoadBalance)
                .add_provider(MockProvider::new("alpha"))
                .add_provider(MockProvider::new("beta")),
        )
    };
    let mut lb1 = make_lb();
    let mut lb2 = make_lb();
    let r1 = lb1.search(&options).unwrap();
    let r2 = lb2.search(&options).unwrap();
    assert_eq!(r1[0].provider, r2[0].provider);
    assert_eq!(r1[0].url, r2[0].url);
}

#[test]
fn test_load_balance_even_distribution() {
    // Across six consecutive calls over three providers with no
    // failures, each provider is selected exactly twice, cycling in
    // registration order from index 0.
    let config = MultiProviderConfig::new(MultiProviderStrategy::LoadBalance)
        .add_provider(MockProvider::new("a"))
        .add_provider(MockProvider::new("b"))
        .add_provider(MockProvider::new("c"));
    let mut multi_search = MultiProviderSearch::new(config);
    let options = create_test_options("q");

    let mut seen: Vec<String> = Vec::new();
    for _ in 0..6 {
        let results = multi_search.search(&options).unwrap();
        seen.push(results[0].provider.clone().unwrap());
    }
    let seen_refs: Vec<&str> = seen.iter().map(|s| s.as_str()).collect();
    assert_eq!(seen_refs, vec!["a", "b", "c", "a", "b", "c"]);

    let stats = multi_search.get_stats();
    for name in ["a", "b", "c"] {
        assert_eq!(stat_for(&stats, name).total_requests, 2);
    }
}

#[test]
fn test_stats_balanced_after_every_call() {
    // After each call, every provider's issued requests equal its
    // successes plus its failures.
    let good = MockProvider::new("good");
    let bad = MockProvider::new("bad").with_error(SearchError::Other("down".to_string()));

    let config = MultiProviderConfig::new(MultiProviderStrategy::Aggregate)
        .add_provider(good)
        .add_provider(bad);
    let mut multi_search = MultiProviderSearch::new(config);
    let options = create_test_options("q");

    for _ in 0..3 {
        let _ = multi_search.search(&options);
        for (_, s) in multi_search.get_stats() {
            assert_eq!(s.total_requests, s.successful_requests + s.failed_requests);
        }
    }
}
