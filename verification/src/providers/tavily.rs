//! The Tavily search backend: an AI-powered search API. Configuration,
//! request building and response shaping are verified here; the HTTP
//! POST itself is the embedding application's job.

use vstd::prelude::*;
use vstd::string::StringExecFns;
use crate::error::{SearchError, SearchResult};
use crate::types::{SearchOptions, SearchResult as SearchResultType};
use crate::utils::http::{extract_domain, host_of};
use crate::utils::strings::{has_prefix, str_has_prefix, str_is_empty, str_to_owned, string_as_str};

verus! {

/// Whether a Tavily API key is acceptable: non-empty and carrying the
/// `tvly-` prefix.
pub open spec fn valid_api_key(key: Seq<char>) -> bool {
    key.len() > 0 && has_prefix(key, "tvly-"@)
}

/// Tavily search provider configuration.
#[derive(Debug, Clone)]
pub struct TavilyProvider {
    pub api_key: String,
    pub base_url: String,
    pub search_depth: String,
    pub include_answer: bool,
    pub include_images: bool,
    pub include_raw_content: bool,
}

/// The body of one Tavily search request, ready to be serialized and
/// posted by the embedding application.
#[derive(Debug, Clone)]
pub struct TavilyRequestData {
    pub api_key: String,
    pub query: String,
    pub search_depth: String,
    pub include_answer: bool,
    pub include_images: bool,
    pub include_raw_content: bool,
    pub max_results: u32,
    pub include_domains: Option<Vec<String>>,
    pub exclude_domains: Option<Vec<String>>,
}

impl TavilyProvider {
    /// Creates a provider for the given API key, rejecting an empty key
    /// and one without the `tvly-` prefix.
    pub fn new(api_key: &str) -> (r: SearchResult<Self>)
        ensures
            match r {
                Ok(p) => {
                    &&& valid_api_key(api_key@)
                    &&& p.api_key@ == api_key@
                    &&& p.base_url@ == "https://api.tavily.com/search"@
                    &&& p.search_depth@ == "basic"@
                    &&& p.include_answer
                    &&& !p.include_images
                    &&& !p.include_raw_content
                },
                Err(e) => {
                    &&& !valid_api_key(api_key@)
                    &&& e matches SearchError::ConfigError(m)
                    &&& (api_key@.len() == 0 ==> m@ == "Tavily API key is required"@)
                    &&& (api_key@.len() > 0 ==> m@
                        == "Invalid Tavily API key format. Keys should start with 'tvly-'"@)
                },
            },
    {
        if str_is_empty(api_key) {
            return Err(SearchError::ConfigError(str_to_owned("Tavily API key is required")));
        }
        if !str_has_prefix(api_key, "tvly-") {
            return Err(
                SearchError::ConfigError(
                    str_to_owned("Invalid Tavily API key format. Keys should start with 'tvly-'"),
                ),
            );
        }
        Ok(
            TavilyProvider {
                api_key: str_to_owned(api_key),
                base_url: str_to_owned("https://api.tavily.com/search"),
                search_depth: str_to_owned("basic"),
                include_answer: true,
                include_images: false,
                include_raw_content: false,
            },
        )
    }

    /// Creates a provider with advanced search depth and raw content
    /// included.
    pub fn new_advanced(api_key: &str) -> (r: SearchResult<Self>)
        ensures
            match r {
                Ok(p) => {
                    &&& valid_api_key(api_key@)
                    &&& p.api_key@ == api_key@
                    &&& p.base_url@ == "https://api.tavily.com/search"@
                    &&& p.search_depth@ == "advanced"@
                    &&& p.include_answer
                    &&& !p.include_images
                    &&& p.include_raw_content
                },
                Err(e) => !valid_api_key(api_key@) && e is ConfigError,
            },
    {
        let provider = TavilyProvider::new(api_key)?;
        let mut p = provider;
        p.search_depth = str_to_owned("advanced");
        p.include_raw_content = true;
        Ok(p)
    }

    /// Enables or disables answer generation.
    pub fn with_answer(self, include_answer: bool) -> (r: Self)
        ensures
            r.include_answer == include_answer,
            r.api_key == self.api_key,
            r.base_url == self.base_url,
            r.search_depth == self.search_depth,
            r.include_images == self.include_images,
            r.include_raw_content == self.include_raw_content,
    {
        let mut p = self;
        p.include_answer = include_answer;
        p
    }

    /// Enables or disables image results.
    pub fn with_images(self, include_images: bool) -> (r: Self)
        ensures
            r.include_images == include_images,
            r.api_key == self.api_key,
            r.base_url == self.base_url,
            r.search_depth == self.search_depth,
            r.include_answer == self.include_answer,
            r.include_raw_content == self.include_raw_content,
    {
        let mut p = self;
        p.include_images = include_images;
        p
    }

    /// Sets the search depth, which must be `basic` or `advanced`.
    pub fn with_search_depth(self, depth: &str) -> (r: SearchResult<Self>)
        ensures
            match r {
                Ok(p) => {
                    &&& (depth@ == "basic"@ || depth@ == "advanced"@)
                    &&& p.search_depth@ == depth@
                    &&& p.api_key == self.api_key
                    &&& p.base_url == self.base_url
                    &&& p.include_answer == self.include_answer
                    &&& p.include_images == self.include_images
                    &&& p.include_raw_content == self.include_raw_content
                },
                Err(e) => {
                    &&& depth@ != "basic"@ && depth@ != "advanced"@
                    &&& e matches SearchError::ConfigError(m)
                    &&& m@ == "Search depth must be 'basic' or 'advanced'"@
                },
            },
    {
        if !crate::utils::strings::str_eq_str(depth, "basic")
            && !crate::utils::strings::str_eq_str(depth, "advanced") {
            return Err(
                SearchError::ConfigError(str_to_owned("Search depth must be 'basic' or 'advanced'")),
            );
        }
        let mut p = self;
        p.search_depth = str_to_owned(depth);
        Ok(p)
    }

    /// Sets a custom base URL (for testing or enterprise endpoints).
    pub fn with_base_url(self, base_url: &str) -> (r: Self)
        ensures
            r.base_url@ == base_url@,
            r.api_key == self.api_key,
            r.search_depth == self.search_depth,
            r.include_answer == self.include_answer,
            r.include_images == self.include_images,
            r.include_raw_content == self.include_raw_content,
    {
        let mut p = self;
        p.base_url = str_to_owned(base_url);
        p
    }

    /// The provider's stable name.
    pub fn name(&self) -> (r: String)
        ensures
            r@ == "tavily"@,
    {
        str_to_owned("tavily")
    }

    /// Non-secret description of the provider's settings; the API key
    /// is masked.
    pub fn config(&self) -> (r: Vec<(String, String)>)
        ensures
            r@.len() == 7,
            r@[0].0@ == "provider"@ && r@[0].1@ == "tavily"@,
            r@[1].0@ == "api_key"@ && r@[1].1@ == "***"@,
            r@[2].0@ == "base_url"@ && r@[2].1@ == self.base_url@,
            r@[3].0@ == "search_depth"@ && r@[3].1@ == self.search_depth@,
            r@[4].0@ == "include_answer"@ && r@[4].1@ == bool_label(self.include_answer),
            r@[5].0@ == "include_images"@ && r@[5].1@ == bool_label(self.include_images),
            r@[6].0@ == "include_raw_content"@ && r@[6].1@ == bool_label(
                self.include_raw_content,
            ),
    {
        let mut r: Vec<(String, String)> = Vec::new();
        r.push((str_to_owned("provider"), str_to_owned("tavily")));
        r.push((str_to_owned("api_key"), str_to_owned("***")));
        r.push((str_to_owned("base_url"), self.base_url.clone()));
        r.push((str_to_owned("search_depth"), self.search_depth.clone()));
        r.push((str_to_owned("include_answer"), bool_string(self.include_answer)));
        r.push((str_to_owned("include_images"), bool_string(self.include_images)));
        r.push((str_to_owned("include_raw_content"), bool_string(self.include_raw_content)));
        r
    }

    /// Builds the request body for one search, rejecting an empty
    /// query; the result count is capped at the backend's maximum of
    /// fifty.
    pub fn build_request(&self, options: &SearchOptions) -> (r: SearchResult<TavilyRequestData>)
        ensures
            match r {
                Ok(d) => {
                    &&& options.query@.len() > 0
                    &&& d.api_key == self.api_key
                    &&& d.query == options.query
                    &&& d.search_depth == self.search_depth
                    &&& d.include_answer == self.include_answer
                    &&& d.include_images == self.include_images
                    &&& d.include_raw_content == self.include_raw_content
                    &&& d.max_results as int == capped_max_results(options.max_results)
                    &&& d.include_domains is None
                    &&& d.exclude_domains is None
                },
                Err(e) => {
                    &&& options.query@.len() == 0
                    &&& e matches SearchError::InvalidInput(m)
                    &&& m@ == "Query cannot be empty"@
                },
            },
    {
        if str_is_empty(string_as_str(&options.query)) {
            return Err(SearchError::InvalidInput(str_to_owned("Query cannot be empty")));
        }
        let wanted = match options.max_results {
            Some(m) => m,
            None => 10,
        };
        let max_results = if wanted < 50 {
            wanted
        } else {
            50
        };
        Ok(
            TavilyRequestData {
                api_key: self.api_key.clone(),
                query: options.query.clone(),
                search_depth: self.search_depth.clone(),
                include_answer: self.include_answer,
                include_images: self.include_images,
                include_raw_content: self.include_raw_content,
                max_results,
                include_domains: None,
                exclude_domains: None,
            },
        )
    }
}

/// The requested result count capped at the backend's maximum of fifty.
pub open spec fn capped_max_results(requested: Option<u32>) -> int {
    let wanted = match requested {
        Option::Some(m) => m as int,
        Option::None => 10,
    };
    if wanted < 50 {
        wanted
    } else {
        50
    }
}

/// The spelling of a boolean in configuration listings.
pub open spec fn bool_label(b: bool) -> Seq<char> {
    if b {
        "true"@
    } else {
        "false"@
    }
}

/// Renders a boolean for configuration listings.
pub fn bool_string(b: bool) -> (r: String)
    ensures
        r@ == bool_label(b),
{
    if b {
        str_to_owned("true")
    } else {
        str_to_owned("false")
    }
}

/// The remedy text for one failing Tavily HTTP status.
pub open spec fn spec_status_remedy(status: u16) -> Seq<char> {
    if status == 400 {
        "Bad request - check your query parameters"@
    } else if status == 401 {
        "Unauthorized - check your API key"@
    } else if status == 402 {
        "Payment required - check your Tavily account billing"@
    } else if status == 403 {
        "Forbidden - API key may be invalid or suspended"@
    } else if status == 429 {
        "Rate limit exceeded - too many requests"@
    } else if 500 <= status && status <= 599 {
        "Tavily server error - try again later"@
    } else {
        "Unknown error occurred"@
    }
}

/// The error for a failing Tavily response: an HTTP error whose message
/// names the status (as displayed by the transport) and the remedy, and
/// which carries the status code and the response body.
pub fn error_for_status(status: u16, status_line: &str, response_text: String) -> (r: SearchError)
    ensures
        r matches SearchError::HttpError { message, status_code, response_body } && {
            &&& message@ == "Tavily API error ("@ + status_line@ + "): "@ + spec_status_remedy(
                status,
            )
            &&& status_code == Some(status)
            &&& response_body matches Some(b) && b == response_text
        },
{
    let remedy: &str = if status == 400 {
        "Bad request - check your query parameters"
    } else if status == 401 {
        "Unauthorized - check your API key"
    } else if status == 402 {
        "Payment required - check your Tavily account billing"
    } else if status == 403 {
        "Forbidden - API key may be invalid or suspended"
    } else if status == 429 {
        "Rate limit exceeded - too many requests"
    } else if 500 <= status && status <= 599 {
        "Tavily server error - try again later"
    } else {
        "Unknown error occurred"
    };
    let mut message = str_to_owned("Tavily API error (");
    message.append(status_line);
    message.append("): ");
    message.append(remedy);
    SearchError::HttpError { message, status_code: Some(status), response_body: Some(response_text) }
}

/// Shapes one parsed Tavily result into the normalized schema: the
/// content becomes the snippet, the domain is extracted from the URL,
/// and the raw payload is carried through untouched.
pub fn normalize_result(
    title: String,
    url: String,
    content: String,
    published_date: Option<String>,
    raw: Option<serde_json::Value>,
) -> (r: SearchResultType)
    ensures
        r.url == url,
        r.title == title,
        r.snippet matches Some(s) && s == content,
        (match r.domain {
            Some(h) => host_of(url@) == Some(h@),
            None => host_of(url@) is None,
        }),
        r.published_date == published_date,
        r.provider matches Some(p) && p@ == "tavily"@,
        raw is Some <==> r.raw is Some,
    {
    let domain = extract_domain(string_as_str(&url));
    SearchResultType {
        url,
        title,
        snippet: Some(content),
        domain,
        published_date,
        provider: Some(str_to_owned("tavily")),
        raw,
    }
}

} // verus!
