//! The Exa search backend: a semantic search API. Configuration,
//! request building and response shaping are verified here; the HTTP
//! POST itself is the embedding application's job.

use vstd::prelude::*;
use vstd::string::StringExecFns;
use crate::error::{SearchError, SearchResult};
use crate::types::{SearchOptions, SearchResult as SearchResultType};
use crate::utils::http::host_of;
use crate::utils::strings::{str_eq_str, str_is_empty, str_to_owned, str_trim, string_as_str,
    trimmed};

verus! {

/// Exa search provider configuration.
#[derive(Debug, Clone)]
pub struct ExaProvider {
    pub api_key: String,
    pub base_url: String,
    pub model: String,
    pub include_contents: bool,
}

/// The body of one Exa search request, ready to be serialized and
/// posted by the embedding application.
#[derive(Debug, Clone)]
pub struct ExaRequestData {
    pub query: String,
    pub max_results: Option<u32>,
    pub model: String,
    pub include_contents: bool,
}

impl ExaProvider {
    /// Creates a provider for the given API key, rejecting an empty one.
    pub fn new(api_key: &str) -> (r: SearchResult<Self>)
        ensures
            match r {
                Ok(p) => {
                    &&& api_key@.len() > 0
                    &&& p.api_key@ == api_key@
                    &&& p.base_url@ == "https://api.exa.ai/search"@
                    &&& p.model@ == "keyword"@
                    &&& !p.include_contents
                },
                Err(e) => {
                    &&& api_key@.len() == 0
                    &&& e matches SearchError::ConfigError(m)
                    &&& m@ == "Exa API key is required"@
                },
            },
    {
        if str_is_empty(api_key) {
            return Err(SearchError::ConfigError(str_to_owned("Exa API key is required")));
        }
        Ok(
            ExaProvider {
                api_key: str_to_owned(api_key),
                base_url: str_to_owned("https://api.exa.ai/search"),
                model: str_to_owned("keyword"),
                include_contents: false,
            },
        )
    }

    /// Creates a provider that also fetches page contents.
    pub fn new_advanced(api_key: &str) -> (r: SearchResult<Self>)
        ensures
            match r {
                Ok(p) => {
                    &&& api_key@.len() > 0
                    &&& p.api_key@ == api_key@
                    &&& p.base_url@ == "https://api.exa.ai/search"@
                    &&& p.model@ == "keyword"@
                    &&& p.include_contents
                },
                Err(e) => api_key@.len() == 0 && e is ConfigError,
            },
    {
        let provider = ExaProvider::new(api_key)?;
        let mut p = provider;
        p.include_contents = true;
        Ok(p)
    }

    /// Sets the search model, which must be `keyword` or `embeddings`.
    pub fn with_model(self, model: &str) -> (r: SearchResult<Self>)
        ensures
            match r {
                Ok(p) => {
                    &&& (model@ == "keyword"@ || model@ == "embeddings"@)
                    &&& p.model@ == model@
                    &&& p.api_key == self.api_key
                    &&& p.base_url == self.base_url
                    &&& p.include_contents == self.include_contents
                },
                Err(e) => {
                    &&& model@ != "keyword"@ && model@ != "embeddings"@
                    &&& e matches SearchError::ConfigError(m)
                    &&& m@ == "Model must be 'keyword' or 'embeddings'"@
                },
            },
    {
        if !str_eq_str(model, "keyword") && !str_eq_str(model, "embeddings") {
            return Err(
                SearchError::ConfigError(str_to_owned("Model must be 'keyword' or 'embeddings'")),
            );
        }
        let mut p = self;
        p.model = str_to_owned(model);
        Ok(p)
    }

    /// Enables or disables fetching page contents.
    pub fn with_contents(self, include_contents: bool) -> (r: Self)
        ensures
            r.include_contents == include_contents,
            r.api_key == self.api_key,
            r.base_url == self.base_url,
            r.model == self.model,
    {
        let mut p = self;
        p.include_contents = include_contents;
        p
    }

    /// Sets a custom base URL.
    pub fn with_base_url(self, base_url: &str) -> (r: Self)
        ensures
            r.base_url@ == base_url@,
            r.api_key == self.api_key,
            r.model == self.model,
            r.include_contents == self.include_contents,
    {
        let mut p = self;
        p.base_url = str_to_owned(base_url);
        p
    }

    /// The provider's stable name.
    pub fn name(&self) -> (r: String)
        ensures
            r@ == "exa"@,
    {
        str_to_owned("exa")
    }

    /// Non-secret description of the provider's settings; the API key
    /// is masked.
    pub fn config(&self) -> (r: Vec<(String, String)>)
        ensures
            r@.len() == 4,
            r@[0].0@ == "api_key"@ && r@[0].1@ == "***"@,
            r@[1].0@ == "base_url"@ && r@[1].1@ == self.base_url@,
            r@[2].0@ == "model"@ && r@[2].1@ == self.model@,
            r@[3].0@ == "include_contents"@ && r@[3].1@ == crate::providers::tavily::bool_label(
                self.include_contents,
            ),
    {
        let mut r: Vec<(String, String)> = Vec::new();
        r.push((str_to_owned("api_key"), str_to_owned("***")));
        r.push((str_to_owned("base_url"), self.base_url.clone()));
        r.push((str_to_owned("model"), self.model.clone()));
        r.push((
            str_to_owned("include_contents"),
            crate::providers::tavily::bool_string(self.include_contents),
        ));
        r
    }

    /// Builds the request body for one search, rejecting a query with
    /// no visible text.
    pub fn build_request(&self, options: &SearchOptions) -> (r: SearchResult<ExaRequestData>)
        ensures
            match r {
                Ok(d) => {
                    &&& trimmed(options.query@).len() > 0
                    &&& d.query == options.query
                    &&& d.max_results == options.max_results
                    &&& d.model == self.model
                    &&& d.include_contents == self.include_contents
                },
                Err(e) => {
                    &&& trimmed(options.query@).len() == 0
                    &&& e matches SearchError::InvalidInput(m)
                    &&& m@ == "Query cannot be empty"@
                },
            },
    {
        let t = str_trim(string_as_str(&options.query));
        if str_is_empty(string_as_str(&t)) {
            return Err(SearchError::InvalidInput(str_to_owned("Query cannot be empty")));
        }
        Ok(
            ExaRequestData {
                query: options.query.clone(),
                max_results: options.max_results,
                model: self.model.clone(),
                include_contents: self.include_contents,
            },
        )
    }
}

/// The remedy text for one failing Exa HTTP status.
pub open spec fn spec_exa_remedy(status: u16) -> Seq<char> {
    if status == 401 {
        "Invalid API key. Check your Exa API token in the Authorization header."@
    } else if status == 403 {
        "Access denied. Your Exa API token may have insufficient permissions or has expired."@
    } else if status == 429 {
        "Rate limit exceeded. You have reached your Exa API quota or sent too many requests."@
    } else if status == 400 {
        "Bad request. Check your search parameters, especially the query and model values."@
    } else if 500 <= status && status <= 599 {
        "Exa server error. The service might be experiencing issues. Try again later."@
    } else {
        "Exa API request failed"@
    }
}

/// The error for a failing Exa response: a provider error whose message
/// carries the remedy, the response body, and the status line as the
/// transport displays it.
pub fn error_for_status(status: u16, status_line: &str, error_text: &str) -> (r: SearchError)
    ensures
        r matches SearchError::ProviderError(m) && m@ == spec_exa_remedy(status) + ": "@
            + error_text@ + " (Status: "@ + status_line@ + ")"@,
{
    let remedy: &str = if status == 401 {
        "Invalid API key. Check your Exa API token in the Authorization header."
    } else if status == 403 {
        "Access denied. Your Exa API token may have insufficient permissions or has expired."
    } else if status == 429 {
        "Rate limit exceeded. You have reached your Exa API quota or sent too many requests."
    } else if status == 400 {
        "Bad request. Check your search parameters, especially the query and model values."
    } else if 500 <= status && status <= 599 {
        "Exa server error. The service might be experiencing issues. Try again later."
    } else {
        "Exa API request failed"
    };
    let mut m = str_to_owned(remedy);
    m.append(": ");
    m.append(error_text);
    m.append(" (Status: ");
    m.append(status_line);
    m.append(")");
    SearchError::ProviderError(m)
}

/// Shapes one parsed Exa result into the normalized schema: the
/// optional page text becomes the snippet, the domain is extracted
/// from the URL, and the raw payload is carried through untouched.
pub fn normalize_result(
    title: String,
    url: String,
    text: Option<String>,
    published_date: Option<String>,
    raw: Option<serde_json::Value>,
) -> (r: SearchResultType)
    ensures
        r.url == url,
        r.title == title,
        r.snippet == text,
        (match r.domain {
            Some(h) => host_of(url@) == Some(h@),
            None => host_of(url@) is None,
        }),
        r.published_date == published_date,
        r.provider matches Some(p) && p@ == "exa"@,
        r.raw == raw,
{
    let domain = crate::utils::http::extract_domain(string_as_str(&url));
    SearchResultType {
        url,
        title,
        snippet: text,
        domain,
        published_date,
        provider: Some(str_to_owned("exa")),
        raw,
    }
}

} // verus!
