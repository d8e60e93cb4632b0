//! The SearXNG search backend: a stub whose search is not yet
//! available.

use vstd::prelude::*;
use crate::error::{SearchError, SearchResult};
use crate::types::{SearchOptions, SearchResult as SearchResultType};
use crate::utils::strings::{str_is_empty, str_to_owned};

verus! {

/// SearXNG search provider (stub configuration).
#[derive(Debug, Clone)]
pub struct SearxNGProvider {
    pub base_url: String,
}

impl SearxNGProvider {
    /// Creates a provider for the given instance URL, rejecting an
    /// empty one.
    pub fn new(base_url: &str) -> (r: SearchResult<Self>)
        ensures
            match r {
                Ok(p) => base_url@.len() > 0 && p.base_url@ == base_url@,
                Err(e) => {
                    &&& base_url@.len() == 0
                    &&& e matches SearchError::ConfigError(m)
                    &&& m@ == "SearXNG base URL is required"@
                },
            },
    {
        if str_is_empty(base_url) {
            return Err(SearchError::ConfigError(str_to_owned("SearXNG base URL is required")));
        }
        Ok(SearxNGProvider { base_url: str_to_owned(base_url) })
    }

    /// The provider's stable name.
    pub fn name(&self) -> (r: String)
        ensures
            r@ == "searxng"@,
    {
        str_to_owned("searxng")
    }

    /// This backend is not implemented yet: every search fails with a
    /// provider error saying so.
    pub fn search(&self, _options: &SearchOptions) -> (r: SearchResult<Vec<SearchResultType>>)
        ensures
            r matches Err(e) && (e matches SearchError::ProviderError(m) && m@
                == "SearXNG provider implementation coming soon"@),
    {
        Err(SearchError::ProviderError(str_to_owned("SearXNG provider implementation coming soon")))
    }

    /// Non-secret description of the provider's settings.
    pub fn config(&self) -> (r: Vec<(String, String)>)
        ensures
            r@.len() == 1,
            r@[0].0@ == "base_url"@ && r@[0].1@ == self.base_url@,
    {
        let mut r: Vec<(String, String)> = Vec::new();
        r.push((str_to_owned("base_url"), self.base_url.clone()));
        r
    }
}

} // verus!
