//! Tests of the Tavily provider configuration and helpers.

use websearch::error::SearchError;
use websearch::providers::tavily::TavilyProvider;
use websearch::types::SearchOptions;
use websearch::utils::http::extract_domain;

fn cfg_get<'a>(config: &'a [(String, String)], key: &str) -> Option<&'a String> {
    config.iter().find(|(k, _)| k == key).map(|(_, v)| v)
}

#[test]
fn test_tavily_provider_new() {
    // Valid API key
    let provider = TavilyProvider::new("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");
    assert!(provider.is_ok());

    // Empty API key
    let provider = TavilyProvider::new("");
    assert!(provider.is_err());
    match provider.unwrap_err() {
        SearchError::ConfigError(msg) => assert!(msg.contains("required")),
        _ => panic!("Expected ConfigError"),
    }

    // Invalid API key format
    let provider = TavilyProvider::new("invalid-key");
    assert!(provider.is_err());
    match provider.unwrap_err() {
        SearchError::ConfigError(msg) => assert!(msg.contains("tvly-")),
        _ => panic!("Expected ConfigError"),
    }
}

#[test]
fn test_tavily_provider_configuration() {
    let provider = TavilyProvider::new("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")
        .unwrap()
        .with_answer(false)
        .with_images(true);

    assert!(!provider.include_answer);
    assert!(provider.include_images);
    assert_eq!(provider.search_depth, "basic");
}

#[test]
fn test_tavily_provider_advanced() {
    let provider = TavilyProvider::new_advanced("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");
    assert!(provider.is_ok());
    let provider = provider.unwrap();
    assert_eq!(provider.search_depth, "advanced");
    assert!(provider.include_raw_content);
}

#[test]
fn test_tavily_search_depth_validation() {
    let _provider = TavilyProvider::new("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").unwrap();

    // Valid search depths - create new providers for each test
    let provider1 = TavilyProvider::new("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").unwrap();
    let provider2 = TavilyProvider::new("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").unwrap();
    let provider3 = TavilyProvider::new("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").unwrap();

    assert!(provider1.with_search_depth("basic").is_ok());
    assert!(provider2.with_search_depth("advanced").is_ok());

    // Invalid search depth
    assert!(provider3.with_search_depth("invalid").is_err());
}

#[test]
fn test_tavily_provider_name() {
    let provider = TavilyProvider::new("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").unwrap();
    assert_eq!(provider.name(), "tavily");
}

#[test]
fn test_tavily_provider_config() {
    let provider = TavilyProvider::new("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").unwrap();
    let config = provider.config();

    assert_eq!(cfg_get(&config, "provider"), Some(&"tavily".to_string()));
    assert_eq!(cfg_get(&config, "api_key"), Some(&"***".to_string()));
    assert!(cfg_get(&config, "base_url").is_some());
    assert!(cfg_get(&config, "search_depth").is_some());
}

#[test]
fn test_tavily_api_key_format_validation() {
    // Various invalid API key formats
    let invalid_keys = vec![
        "",
        "invalid",
        "api-key-without-prefix",
        "tavily-wrong-prefix",
        "TVLY-uppercase",
    ];

    for key in invalid_keys {
        let result = TavilyProvider::new(key);
        assert!(result.is_err(), "Should reject invalid key: {key}");
    }

    // Valid format
    let valid_result = TavilyProvider::new("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");
    assert!(valid_result.is_ok());
}

#[test]
fn test_tavily_provider_configuration_persistence() {
    let provider = TavilyProvider::new("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")
        .unwrap()
        .with_answer(false)
        .with_images(true)
        .with_search_depth("advanced")
        .unwrap();

    let config = provider.config();

    assert_eq!(cfg_get(&config, "include_answer"), Some(&"false".to_string()));
    assert_eq!(cfg_get(&config, "include_images"), Some(&"true".to_string()));
    assert_eq!(cfg_get(&config, "search_depth"), Some(&"advanced".to_string()));
    assert_eq!(cfg_get(&config, "provider"), Some(&"tavily".to_string()));
}

#[test]
fn test_tavily_search_empty_query() {
    let provider = TavilyProvider::new("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").unwrap();
    let options = SearchOptions {
        query: "".to_string(),
        ..Default::default()
    };

    let result = provider.build_request(&options);
    assert!(result.is_err());
    match result.unwrap_err() {
        SearchError::InvalidInput(msg) => assert!(msg.contains("empty")),
        _ => panic!("Expected InvalidInput error"),
    }
}

#[test]
fn test_tavily_build_request_caps_results() {
    let provider = TavilyProvider::new("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").unwrap();
    let mut options = SearchOptions {
        query: "rust".to_string(),
        ..Default::default()
    };
    options.max_results = Some(200);

    let request = provider.build_request(&options).unwrap();
    assert_eq!(request.max_results, 50);
    assert_eq!(request.query, "rust");
    assert_eq!(request.search_depth, "basic");
    assert!(request.include_answer);
}

#[test]
fn test_tavily_error_for_status() {
    let err = websearch::providers::tavily::error_for_status(
        429,
        "429 Too Many Requests",
        "slow down".to_string(),
    );
    match err {
        SearchError::HttpError {
            message,
            status_code,
            response_body,
        } => {
            assert_eq!(
                message,
                "Tavily API error (429 Too Many Requests): Rate limit exceeded - too many requests"
            );
            assert_eq!(status_code, Some(429));
            assert_eq!(response_body, Some("slow down".to_string()));
        }
        _ => panic!("Expected HttpError"),
    }
}

#[test]
fn test_extract_domain() {
    assert_eq!(
        extract_domain("https://example.com/path"),
        Some("example.com".to_string())
    );
    assert_eq!(
        extract_domain("http://subdomain.example.org"),
        Some("subdomain.example.org".to_string())
    );
    assert_eq!(extract_domain("invalid-url"), None);
    assert_eq!(extract_domain(""), None);
}
