//! Error types for search operations.

use vstd::prelude::*;
use vstd::string::StringExecFns;
use crate::utils::strings::{dec_str, str_to_owned, string_as_str, u64_to_dec_string};

verus! {

/// Result alias used throughout the crate.
pub type SearchResult<T> = core::result::Result<T, SearchError>;

/// Errors that a search operation can produce.
///
/// Individual provider failures are carried through unchanged by the
/// orchestration strategies; the orchestrator itself only adds
/// `NoProvidersConfigured`, `AllProvidersFailed` and `Timeout`.
#[derive(Debug, Clone)]
pub enum SearchError {
    /// HTTP request failed.
    HttpError { message: String, status_code: Option<u16>, response_body: Option<String> },
    /// Invalid input parameters.
    InvalidInput(String),
    /// Provider-specific error.
    ProviderError(String),
    /// Configuration error.
    ConfigError(String),
    /// Parsing error (JSON, XML, HTML).
    ParseError(String),
    /// A provider call exceeded its deadline; carries the configured timeout.
    Timeout { timeout_ms: u64 },
    /// Rate limit exceeded.
    RateLimit(String),
    /// Authentication failed.
    AuthenticationError(String),
    /// The orchestrator was asked to search with an empty provider list.
    NoProvidersConfigured,
    /// Every provider failed under the aggregate strategy.
    AllProvidersFailed,
    /// Generic error for unhandled cases.
    Other(String),
}

impl SearchError {
    /// The human-readable description of this error.
    pub open spec fn spec_message(self) -> Seq<char> {
        match self {
            SearchError::HttpError { message, status_code, response_body } => "HTTP request failed: "@
                + message@,
            SearchError::InvalidInput(s) => "Invalid input: "@ + s@,
            SearchError::ProviderError(s) => "Provider error: "@ + s@,
            SearchError::ConfigError(s) => "Configuration error: "@ + s@,
            SearchError::ParseError(s) => "Parsing error: "@ + s@,
            SearchError::Timeout { timeout_ms } => "Request timed out after "@ + dec_str(
                timeout_ms as int,
            ) + "ms"@,
            SearchError::RateLimit(s) => "Rate limit exceeded: "@ + s@,
            SearchError::AuthenticationError(s) => "Authentication failed: "@ + s@,
            SearchError::NoProvidersConfigured => "No providers configured"@,
            SearchError::AllProvidersFailed => "All providers failed"@,
            SearchError::Other(s) => "Search error: "@ + s@,
        }
    }

    /// Renders the human-readable description of this error.
    pub fn message(&self) -> (r: String)
        ensures
            r@ == self.spec_message(),
    {
        match self {
            SearchError::HttpError { message, status_code: _, response_body: _ } => {
                let mut m = str_to_owned("HTTP request failed: ");
                m.append(string_as_str(message));
                m
            },
            SearchError::InvalidInput(s) => {
                let mut m = str_to_owned("Invalid input: ");
                m.append(string_as_str(s));
                m
            },
            SearchError::ProviderError(s) => {
                let mut m = str_to_owned("Provider error: ");
                m.append(string_as_str(s));
                m
            },
            SearchError::ConfigError(s) => {
                let mut m = str_to_owned("Configuration error: ");
                m.append(string_as_str(s));
                m
            },
            SearchError::ParseError(s) => {
                let mut m = str_to_owned("Parsing error: ");
                m.append(string_as_str(s));
                m
            },
            SearchError::Timeout { timeout_ms } => {
                let mut m = str_to_owned("Request timed out after ");
                let num = u64_to_dec_string(*timeout_ms);
                m.append(string_as_str(&num));
                m.append("ms");
                m
            },
            SearchError::RateLimit(s) => {
                let mut m = str_to_owned("Rate limit exceeded: ");
                m.append(string_as_str(s));
                m
            },
            SearchError::AuthenticationError(s) => {
                let mut m = str_to_owned("Authentication failed: ");
                m.append(string_as_str(s));
                m
            },
            SearchError::NoProvidersConfigured => str_to_owned("No providers configured"),
            SearchError::AllProvidersFailed => str_to_owned("All providers failed"),
            SearchError::Other(s) => {
                let mut m = str_to_owned("Search error: ");
                m.append(string_as_str(s));
                m
            },
        }
    }
}

} // verus!
