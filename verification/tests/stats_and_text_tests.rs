//! Tests of the statistics counters, error rendering, text helpers and
//! the provider-name sort.

use websearch::error::SearchError;
use websearch::sort::sort_results_by_provider;
use websearch::stats::ProviderStats;
use websearch::types::{SafeSearch, SearchResult, SortBy, SortOrder};
use websearch::utils::debug::{debug_all, debug_basic};
use websearch::utils::http::{build_url, normalize_text, normalize_url};
use websearch::utils::strings::u64_to_dec_string;

#[test]
fn test_stats_rolling_mean() {
    let mut s = ProviderStats::default();
    assert_eq!(s.total_requests, 0);

    s.record_success(10);
    assert_eq!(s.avg_response_time_ms, 10);
    s.record_success(20);
    // (10 * 1 + 20) / 2
    assert_eq!(s.avg_response_time_ms, 15);
    s.record_success(1);
    // (15 * 2 + 1) / 3 with integer division
    assert_eq!(s.avg_response_time_ms, 10);

    s.record_failure();
    assert_eq!(s.total_requests, 4);
    assert_eq!(s.successful_requests, 3);
    assert_eq!(s.failed_requests, 1);
    assert_eq!(s.total_requests, s.successful_requests + s.failed_requests);
    // Failures leave the mean untouched.
    assert_eq!(s.avg_response_time_ms, 10);
}

#[test]
fn test_error_messages() {
    assert_eq!(
        SearchError::Timeout { timeout_ms: 50 }.message(),
        "Request timed out after 50ms"
    );
    assert_eq!(
        SearchError::InvalidInput("bad".to_string()).message(),
        "Invalid input: bad"
    );
    assert_eq!(
        SearchError::NoProvidersConfigured.message(),
        "No providers configured"
    );
    assert_eq!(
        SearchError::AllProvidersFailed.message(),
        "All providers failed"
    );
    assert_eq!(
        SearchError::RateLimit("later".to_string()).message(),
        "Rate limit exceeded: later"
    );
    assert_eq!(
        SearchError::ParseError("bad json".to_string()).message(),
        "Parsing error: bad json"
    );
    assert_eq!(
        SearchError::AuthenticationError("denied".to_string()).message(),
        "Authentication failed: denied"
    );
    assert_eq!(
        SearchError::ConfigError("no key".to_string()).message(),
        "Configuration error: no key"
    );
    assert_eq!(
        SearchError::ProviderError("backend".to_string()).message(),
        "Provider error: backend"
    );
    assert_eq!(
        SearchError::Other("misc".to_string()).message(),
        "Search error: misc"
    );
    assert_eq!(
        SearchError::HttpError {
            message: "boom".to_string(),
            status_code: Some(500),
            response_body: None,
        }
        .message(),
        "HTTP request failed: boom"
    );
}

#[test]
fn test_u64_to_dec_string() {
    assert_eq!(u64_to_dec_string(0), "0");
    assert_eq!(u64_to_dec_string(7), "7");
    assert_eq!(u64_to_dec_string(10), "10");
    assert_eq!(u64_to_dec_string(90210), "90210");
    assert_eq!(u64_to_dec_string(u64::MAX), "18446744073709551615");
}

#[test]
fn test_normalize_text() {
    assert_eq!(normalize_text("  hello   world  "), "hello world");
    assert_eq!(normalize_text(""), "");
    assert_eq!(normalize_text(" \t\n "), "");
    assert_eq!(normalize_text("one"), "one");
    assert_eq!(normalize_text("a\u{00A0}b"), "a b");
}

#[test]
fn test_normalize_url() {
    assert_eq!(normalize_url("//cdn.example.com/x"), "https://cdn.example.com/x");
    assert_eq!(normalize_url("example.com/x"), "https://example.com/x");
    assert_eq!(normalize_url("http://example.com"), "http://example.com");
    assert_eq!(normalize_url("https://example.com"), "https://example.com");
}

#[test]
fn test_build_url() {
    let params = vec![
        ("q".to_string(), "a b".to_string()),
        ("n".to_string(), "10".to_string()),
    ];
    let url = build_url("https://example.com/search", &params).unwrap();
    assert_eq!(url, "https://example.com/search?q=a+b&n=10");

    let err = build_url("not a url", &params).unwrap_err();
    match err {
        SearchError::InvalidInput(msg) => assert!(msg.starts_with("Invalid URL: ")),
        _ => panic!("Expected InvalidInput"),
    }
}

fn named(provider: Option<&str>, title: &str) -> SearchResult {
    SearchResult {
        url: format!("https://x.example/{title}"),
        title: title.to_string(),
        snippet: None,
        domain: None,
        published_date: None,
        provider: provider.map(|p| p.to_string()),
        raw: None,
    }
}

#[test]
fn test_sort_results_by_provider_name() {
    let input = vec![
        named(Some("zeta"), "1"),
        named(None, "2"),
        named(Some("alpha"), "3"),
        named(Some("alpha"), "4"),
        named(None, "5"),
    ];
    let sorted = sort_results_by_provider(input);
    let order: Vec<(Option<&str>, &str)> = sorted
        .iter()
        .map(|r| (r.provider.as_deref(), r.title.as_str()))
        .collect();
    // Unnamed providers sort first; equal names keep their original
    // relative order.
    assert_eq!(
        order,
        vec![
            (None, "2"),
            (None, "5"),
            (Some("alpha"), "3"),
            (Some("alpha"), "4"),
            (Some("zeta"), "1"),
        ]
    );
}

#[test]
fn test_label_strings() {
    assert_eq!(SafeSearch::Off.to_string(), "off");
    assert_eq!(SafeSearch::Moderate.to_string(), "moderate");
    assert_eq!(SafeSearch::Strict.to_string(), "strict");
    assert_eq!(SortBy::Relevance.to_string(), "relevance");
    assert_eq!(SortBy::LastUpdatedDate.to_string(), "lastUpdatedDate");
    assert_eq!(SortBy::SubmittedDate.to_string(), "submittedDate");
    assert_eq!(SortOrder::Ascending.to_string(), "ascending");
    assert_eq!(SortOrder::Descending.to_string(), "descending");
}

#[test]
fn test_debug_option_bundles() {
    let all = debug_all();
    assert!(all.enabled && all.log_requests && all.log_responses);
    let basic = debug_basic();
    assert!(basic.enabled && !basic.log_requests && !basic.log_responses);
}
