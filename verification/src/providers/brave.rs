//! The Brave search backend: a stub whose search is not yet available.

use vstd::prelude::*;
use crate::error::{SearchError, SearchResult};
use crate::types::{SearchOptions, SearchResult as SearchResultType};
use crate::utils::strings::{str_is_empty, str_to_owned};

verus! {

/// Brave search provider (stub configuration).
#[derive(Debug, Clone)]
pub struct BraveProvider {
    pub api_key: String,
}

impl BraveProvider {
    /// Creates a provider for the given API key, rejecting an empty one.
    pub fn new(api_key: &str) -> (r: SearchResult<Self>)
        ensures
            match r {
                Ok(p) => api_key@.len() > 0 && p.api_key@ == api_key@,
                Err(e) => {
                    &&& api_key@.len() == 0
                    &&& e matches SearchError::ConfigError(m)
                    &&& m@ == "Brave API key is required"@
                },
            },
    {
        if str_is_empty(api_key) {
            return Err(SearchError::ConfigError(str_to_owned("Brave API key is required")));
        }
        Ok(BraveProvider { api_key: str_to_owned(api_key) })
    }

    /// The provider's stable name.
    pub fn name(&self) -> (r: String)
        ensures
            r@ == "brave"@,
    {
        str_to_owned("brave")
    }

    /// This backend is not implemented yet: every search fails with a
    /// provider error saying so.
    pub fn search(&self, _options: &SearchOptions) -> (r: SearchResult<Vec<SearchResultType>>)
        ensures
            r matches Err(e) && (e matches SearchError::ProviderError(m) && m@
                == "Brave provider implementation coming soon"@),
    {
        Err(SearchError::ProviderError(str_to_owned("Brave provider implementation coming soon")))
    }

    /// Non-secret description of the provider's settings; the API key
    /// is masked.
    pub fn config(&self) -> (r: Vec<(String, String)>)
        ensures
            r@.len() == 1,
            r@[0].0@ == "api_key"@ && r@[0].1@ == "***"@,
    {
        let mut r: Vec<(String, String)> = Vec::new();
        r.push((str_to_owned("api_key"), str_to_owned("***")));
        r
    }
}

} // verus!
