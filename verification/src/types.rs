//! Core types and traits shared by the orchestration engine and the providers.

use vstd::prelude::*;
use crate::error::SearchError;
use crate::utils::strings::str_to_owned;

verus! {

/// Declares `serde_json::Value` so that results can carry an opaque raw
/// payload; the engine never looks inside such a value.
#[verifier::external_type_specification]
#[verifier::external_body]
pub struct ExValue(serde_json::Value);

/// Relies on `<serde_json::Value as Clone>::clone`; no claim is made about
/// the copy beyond its existence, since the value is opaque here.
pub assume_specification[ <serde_json::Value as Clone>::clone ](v: &serde_json::Value) -> serde_json::Value;

/// A normalized web search result returned by any provider.
#[derive(Debug, Clone)]
pub struct SearchResult {
    /// URL of the search result.
    pub url: String,
    /// Title of the web page.
    pub title: String,
    /// Snippet/description of the web page.
    pub snippet: Option<String>,
    /// The source website domain.
    pub domain: Option<String>,
    /// When the result was published or last updated.
    pub published_date: Option<String>,
    /// The search provider that returned this result.
    pub provider: Option<String>,
    /// Raw response data from the provider.
    pub raw: Option<serde_json::Value>,
}

/// Debug options for the search library.
#[derive(Debug, Clone, Copy, Default)]
pub struct DebugOptions {
    /// Enable verbose logging.
    pub enabled: bool,
    /// Log request details (URLs, headers, etc.).
    pub log_requests: bool,
    /// Log full responses.
    pub log_responses: bool,
}

/// Safe search setting levels.
#[derive(Debug, Clone, Copy)]
pub enum SafeSearch {
    Off,
    Moderate,
    Strict,
}

impl SafeSearch {
    /// The request-parameter spelling of this level.
    pub open spec fn spec_label(self) -> Seq<char> {
        match self {
            SafeSearch::Off => "off"@,
            SafeSearch::Moderate => "moderate"@,
            SafeSearch::Strict => "strict"@,
        }
    }

    /// The request-parameter spelling of this level.
    pub fn to_string(&self) -> (r: String)
        ensures
            r@ == self.spec_label(),
    {
        match self {
            SafeSearch::Off => str_to_owned("off"),
            SafeSearch::Moderate => str_to_owned("moderate"),
            SafeSearch::Strict => str_to_owned("strict"),
        }
    }
}

/// Sort options for search results (primarily for the academic paper feed).
#[derive(Debug, Clone, Copy)]
pub enum SortBy {
    Relevance,
    LastUpdatedDate,
    SubmittedDate,
}

impl SortBy {
    /// The request-parameter spelling of this sort key.
    pub open spec fn spec_label(self) -> Seq<char> {
        match self {
            SortBy::Relevance => "relevance"@,
            SortBy::LastUpdatedDate => "lastUpdatedDate"@,
            SortBy::SubmittedDate => "submittedDate"@,
        }
    }

    /// The request-parameter spelling of this sort key.
    pub fn to_string(&self) -> (r: String)
        ensures
            r@ == self.spec_label(),
    {
        match self {
            SortBy::Relevance => str_to_owned("relevance"),
            SortBy::LastUpdatedDate => str_to_owned("lastUpdatedDate"),
            SortBy::SubmittedDate => str_to_owned("submittedDate"),
        }
    }
}

/// Sort order for search results.
#[derive(Debug, Clone, Copy)]
pub enum SortOrder {
    Ascending,
    Descending,
}

impl SortOrder {
    /// The request-parameter spelling of this order.
    pub open spec fn spec_label(self) -> Seq<char> {
        match self {
            SortOrder::Ascending => "ascending"@,
            SortOrder::Descending => "descending"@,
        }
    }

    /// The request-parameter spelling of this order.
    pub fn to_string(&self) -> (r: String)
        ensures
            r@ == self.spec_label(),
    {
        match self {
            SortOrder::Ascending => str_to_owned("ascending"),
            SortOrder::Descending => str_to_owned("descending"),
        }
    }
}

/// Common options for one search, handed to a single provider.
#[derive(Debug)]
pub struct SearchOptions {
    /// The search query text.
    pub query: String,
    /// A comma-delimited list of paper IDs to fetch (academic feed only).
    pub id_list: Option<String>,
    /// Maximum number of results to return.
    pub max_results: Option<u32>,
    /// Language/locale for results.
    pub language: Option<String>,
    /// Country/region for results.
    pub region: Option<String>,
    /// Safe search setting.
    pub safe_search: Option<SafeSearch>,
    /// Result page number (for pagination).
    pub page: Option<u32>,
    /// The starting index for results (pagination offset, academic feed).
    pub start: Option<u32>,
    /// Sort order for results (academic feed).
    pub sort_by: Option<SortBy>,
    /// Sort direction (academic feed).
    pub sort_order: Option<SortOrder>,
    /// Custom timeout in milliseconds.
    pub timeout: Option<u64>,
    /// Debug options.
    pub debug: Option<DebugOptions>,
}

impl Default for SearchOptions {
    /// The defaults of one search: ten results, first page, a fifteen
    /// second timeout, everything else unset.
    fn default() -> (r: Self)
        ensures
            r.query@ == Seq::<char>::empty(),
            r.id_list is None,
            r.max_results == Some(10u32),
            r.language is None,
            r.region is None,
            r.safe_search is None,
            r.page == Some(1u32),
            r.start is None,
            r.sort_by is None,
            r.sort_order is None,
            r.timeout == Some(15000u64),
            r.debug is None,
    {
        SearchOptions {
            query: String::new(),
            id_list: None,
            max_results: Some(10),
            language: None,
            region: None,
            safe_search: None,
            page: Some(1),
            start: None,
            sort_by: None,
            sort_order: None,
            timeout: Some(15000),
            debug: None,
        }
    }
}

/// The interface every concrete search backend offers to the engine.
///
/// Implementations live outside this crate (test doubles, network
/// adapters); the engine is verified against the stated contract, which
/// models a provider as a pure function of its configuration and the
/// request. Nothing checks an outside implementation against it.
pub trait SearchProvider: Sized {
    /// The provider's stable name, as a mathematical value. An
    /// implementation that leaves this unrefined has an unspecified
    /// name.
    open spec fn spec_name(&self) -> Seq<char> {
        arbitrary()
    }

    /// The provider's modeled response to a request: either a list of
    /// normalized results or a typed failure. An implementation that
    /// leaves this unrefined has an unspecified response.
    open spec fn spec_search(&self, options: SearchOptions) -> Result<
        Seq<SearchResult>,
        SearchError,
    > {
        arbitrary()
    }

    /// Name of the search provider; the stats key and aggregate sort key.
    fn name(&self) -> (r: String)
        ensures
            r@ == self.spec_name(),
    ;

    /// Executes one query against the backend.
    fn search(&self, options: &SearchOptions) -> (r: Result<Vec<SearchResult>, SearchError>)
        ensures
            outcome_of(r) == self.spec_search(*options),
    ;

    /// Non-secret key/value description of the provider's settings.
    fn config(&self) -> Vec<(String, String)>;
}

/// The mathematical value of one provider invocation's outcome.
pub open spec fn outcome_of(r: Result<Vec<SearchResult>, SearchError>) -> Result<
    Seq<SearchResult>,
    SearchError,
> {
    match r {
        Ok(v) => Ok(v@),
        Err(e) => Err(e),
    }
}

/// Provider configuration interface for consistent validation patterns.
pub trait ProviderConfig: Sized {
    /// Whether this configuration is acceptable.
    spec fn spec_valid(&self) -> bool;

    /// The configured base URL, as a mathematical value. An
    /// implementation that leaves this unrefined has an unspecified
    /// base URL.
    open spec fn spec_base_url(&self) -> Seq<char> {
        arbitrary()
    }

    /// Validates the configuration, failing exactly on invalid ones.
    fn validate(&self) -> (r: Result<(), SearchError>)
        ensures
            r is Ok <==> self.spec_valid(),
    ;

    /// The base URL for API requests.
    fn base_url(&self) -> (r: &str)
        ensures
            r@ == self.spec_base_url(),
    ;

    /// The API key, if this backend requires one.
    fn api_key(&self) -> Option<&str>;
}

} // verus!
