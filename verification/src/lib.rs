//! A multi-provider web-search library.
//!
//! The heart of the crate is the multi-provider orchestration engine in
//! [`multi_provider`]: a strategy dispatcher (failover, load balancing,
//! aggregation, racing), a per-call timeout and accounting wrapper, and a
//! rolling per-provider statistics tracker. Concrete search backends are
//! reached through the [`types::SearchProvider`] trait.

pub mod error;
pub mod multi_provider;
pub mod providers;
pub mod sort;
pub mod stats;
pub mod types;
pub mod utils;

pub use error::{SearchError, SearchResult as Result};
pub use types::{DebugOptions, SearchOptions, SearchProvider, SearchResult};

use vstd::prelude::*;
use vstd::string::StringExecFns;
use crate::utils::strings::{str_eq_str, str_is_empty, str_to_owned, string_as_str};

verus! {

/// The suggestion chosen from the error alone: HTTP status classes with
/// a known remedy get a fixed text, anything else none.
pub open spec fn spec_error_suggestion(e: SearchError) -> Seq<char> {
    match e {
        SearchError::HttpError { message, status_code, response_body } => {
            match status_code {
                Option::Some(c) => {
                    if c == 401 || c == 403 {
                        "This is likely an authentication issue. Check your API key and make sure it's valid and has the correct permissions."@
                    } else if c == 400 {
                        "This is likely due to invalid request parameters. Check your query and other search options."@
                    } else if c == 429 {
                        "You've exceeded the rate limit for this API. Try again later or reduce your request frequency."@
                    } else if 500 <= c && c <= 599 {
                        "The search provider is experiencing server issues. Try again later."@
                    } else {
                        Seq::empty()
                    }
                },
                Option::None => Seq::empty(),
            }
        },
        _ => Seq::empty(),
    }
}

/// The troubleshooting text for one provider and error: the error's own
/// suggestion when it has one, else the provider's, else a generic one
/// naming the provider.
pub open spec fn spec_troubleshooting(name: Seq<char>, e: SearchError) -> Seq<char> {
    let s = spec_error_suggestion(e);
    if s.len() > 0 {
        s
    } else if name == "google"@ {
        "Make sure your Google API key is valid and has the Custom Search API enabled. Also check if your Search Engine ID (cx) is correct."@
    } else if name == "serpapi"@ {
        "Check that your SerpAPI key is valid. Verify that you have enough credits remaining in your SerpAPI account."@
    } else if name == "searxng"@ {
        "Check if your SearXNG instance URL is correct and that the server is running. Verify the format of your search URL."@
    } else if name == "brave"@ {
        "Ensure your Brave Search API token is valid. Check your subscription status in the Brave Developer Hub."@
    } else if name == "duckduckgo"@ {
        "You may be making too many requests to DuckDuckGo. Try adding a delay between requests or reduce your request frequency."@
    } else {
        "Check your "@ + name + " API credentials and make sure your search request is valid."@
    }
}

/// Provider-specific troubleshooting information for an error.
pub fn get_troubleshooting_info(provider_name: &str, error: &SearchError) -> (r: String)
    ensures
        r@ == spec_troubleshooting(provider_name@, *error),
{
    proof {
        reveal_strlit(
            "This is likely an authentication issue. Check your API key and make sure it's valid and has the correct permissions.",
        );
        reveal_strlit(
            "This is likely due to invalid request parameters. Check your query and other search options.",
        );
        reveal_strlit(
            "You've exceeded the rate limit for this API. Try again later or reduce your request frequency.",
        );
        reveal_strlit("The search provider is experiencing server issues. Try again later.");
    }
    let by_error: Option<&str> = match error {
        SearchError::HttpError { message: _, status_code: Some(c), response_body: _ } => {
            if *c == 401 || *c == 403 {
                Some(
                    "This is likely an authentication issue. Check your API key and make sure it's valid and has the correct permissions.",
                )
            } else if *c == 400 {
                Some(
                    "This is likely due to invalid request parameters. Check your query and other search options.",
                )
            } else if *c == 429 {
                Some(
                    "You've exceeded the rate limit for this API. Try again later or reduce your request frequency.",
                )
            } else if 500 <= *c && *c <= 599 {
                Some("The search provider is experiencing server issues. Try again later.")
            } else {
                None
            }
        },
        _ => None,
    };
    match by_error {
        Some(s) => str_to_owned(s),
        None => {
            if str_eq_str(provider_name, "google") {
                str_to_owned(
                    "Make sure your Google API key is valid and has the Custom Search API enabled. Also check if your Search Engine ID (cx) is correct.",
                )
            } else if str_eq_str(provider_name, "serpapi") {
                str_to_owned(
                    "Check that your SerpAPI key is valid. Verify that you have enough credits remaining in your SerpAPI account.",
                )
            } else if str_eq_str(provider_name, "searxng") {
                str_to_owned(
                    "Check if your SearXNG instance URL is correct and that the server is running. Verify the format of your search URL.",
                )
            } else if str_eq_str(provider_name, "brave") {
                str_to_owned(
                    "Ensure your Brave Search API token is valid. Check your subscription status in the Brave Developer Hub.",
                )
            } else if str_eq_str(provider_name, "duckduckgo") {
                str_to_owned(
                    "You may be making too many requests to DuckDuckGo. Try adding a delay between requests or reduce your request frequency.",
                )
            } else {
                let mut m = str_to_owned("Check your ");
                m.append(provider_name);
                m.append(" API credentials and make sure your search request is valid.");
                m
            }
        },
    }
}

/// The detailed failure text `web_search` wraps a provider error in.
pub open spec fn spec_detailed_failure(name: Seq<char>, e: SearchError) -> Seq<char> {
    "Search with provider '"@ + name + "' failed: "@ + e.spec_message() + "\n\nTroubleshooting: "@
        + spec_troubleshooting(name, e)
}

/// Queries one search provider and returns its normalized results.
///
/// A request with neither query text nor an ID list is rejected; a
/// provider failure is wrapped in a provider error that names the
/// provider and carries troubleshooting advice.
pub fn web_search<P: SearchProvider>(provider: &P, options: &SearchOptions) -> (r: Result<
    Vec<SearchResult>,
>)
    ensures
        (options.query@.len() == 0 && options.id_list is None) ==> (r matches Err(e) && (e matches
        SearchError::InvalidInput(m) && m@ == "A search query or ID list (for Arxiv) is required"@)),
        !(options.query@.len() == 0 && options.id_list is None) ==> (match provider.spec_search(
            *options,
        ) {
            Ok(s) => r matches Ok(v) && v@ == s,
            Err(e) => r matches Err(e2) && (e2 matches SearchError::ProviderError(m) && m@
                == spec_detailed_failure(provider.spec_name(), e)),
        }),
{
    let query_empty = str_is_empty(string_as_str(&options.query));
    let no_ids = options.id_list.is_none();
    if query_empty && no_ids {
        return Err(
            SearchError::InvalidInput(
                str_to_owned("A search query or ID list (for Arxiv) is required"),
            ),
        );
    }
    match provider.search(options) {
        Ok(results) => Ok(results),
        Err(error) => {
            let name = provider.name();
            let troubleshooting = get_troubleshooting_info(string_as_str(&name), &error);
            let mut msg = str_to_owned("Search with provider '");
            msg.append(string_as_str(&name));
            msg.append("' failed: ");
            let described = error.message();
            msg.append(string_as_str(&described));
            msg.append("\n\nTroubleshooting: ");
            msg.append(string_as_str(&troubleshooting));
            Err(SearchError::ProviderError(msg))
        },
    }
}

} // verus!
