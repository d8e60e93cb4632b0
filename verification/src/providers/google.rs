//! The Google Custom Search backend: configuration validation, search
//! URL building and response shaping are verified here; the HTTP GET
//! itself is the embedding application's job.

use vstd::prelude::*;
use vstd::string::StringExecFns;
use crate::error::{SearchError, SearchResult};
use crate::types::{ProviderConfig, SearchOptions, SearchResult as SearchResultType};
use crate::utils::http::{build_url, url_parse_ok};
use crate::utils::strings::{
    dec_str, has_prefix, pair_views, str_is_empty, str_to_owned, string_as_str, u64_to_dec_string,
};

verus! {

/// Google Custom Search configuration.
#[derive(Debug, Clone)]
pub struct GoogleConfig {
    /// Google API key.
    pub api_key: String,
    /// Custom Search Engine ID.
    pub cx: String,
    /// Base URL for the API.
    pub base_url: String,
}

impl Default for GoogleConfig {
    /// An unconfigured instance pointing at the public API endpoint.
    fn default() -> (r: Self)
        ensures
            r.api_key@ == Seq::<char>::empty(),
            r.cx@ == Seq::<char>::empty(),
            r.base_url@ == "https://www.googleapis.com/customsearch/v1"@,
    {
        GoogleConfig {
            api_key: String::new(),
            cx: String::new(),
            base_url: str_to_owned("https://www.googleapis.com/customsearch/v1"),
        }
    }
}

impl ProviderConfig for GoogleConfig {
    /// Acceptable when both the API key and the engine ID are set.
    open spec fn spec_valid(&self) -> bool {
        self.api_key@.len() > 0 && self.cx@.len() > 0
    }

    open spec fn spec_base_url(&self) -> Seq<char> {
        self.base_url@
    }

    fn validate(&self) -> (r: Result<(), SearchError>)
        ensures
            r matches Err(e) ==> e is ConfigError,
    {
        if str_is_empty(string_as_str(&self.api_key)) {
            return Err(SearchError::ConfigError(str_to_owned("Google API key is required")));
        }
        if str_is_empty(string_as_str(&self.cx)) {
            return Err(
                SearchError::ConfigError(str_to_owned("Google Search Engine ID (cx) is required")),
            );
        }
        Ok(())
    }

    fn base_url(&self) -> &str {
        string_as_str(&self.base_url)
    }

    fn api_key(&self) -> Option<&str> {
        Some(string_as_str(&self.api_key))
    }
}

/// Google Custom Search provider.
#[derive(Debug, Clone)]
pub struct GoogleProvider {
    pub config: GoogleConfig,
}

impl GoogleProvider {
    /// Creates a provider with an API key and a Search Engine ID,
    /// rejecting an empty key or ID.
    pub fn new(api_key: &str, cx: &str) -> (r: SearchResult<Self>)
        ensures
            match r {
                Ok(p) => {
                    &&& api_key@.len() > 0 && cx@.len() > 0
                    &&& p.config.api_key@ == api_key@
                    &&& p.config.cx@ == cx@
                    &&& p.config.base_url@ == "https://www.googleapis.com/customsearch/v1"@
                },
                Err(e) => (api_key@.len() == 0 || cx@.len() == 0) && e is ConfigError,
            },
    {
        let config = GoogleConfig {
            api_key: str_to_owned(api_key),
            cx: str_to_owned(cx),
            base_url: str_to_owned("https://www.googleapis.com/customsearch/v1"),
        };
        GoogleProvider::with_config(config)
    }

    /// Creates a provider from a configuration, validating it first.
    pub fn with_config(config: GoogleConfig) -> (r: SearchResult<Self>)
        ensures
            match r {
                Ok(p) => config.spec_valid() && p.config == config,
                Err(e) => !config.spec_valid() && e is ConfigError,
            },
    {
        match config.validate() {
            Ok(()) => Ok(GoogleProvider { config }),
            Err(e) => Err(e),
        }
    }

    /// The provider's stable name.
    pub fn name(&self) -> (r: String)
        ensures
            r@ == "google"@,
    {
        str_to_owned("google")
    }

    /// Non-secret description of the provider's settings; the API key
    /// is masked.
    pub fn config(&self) -> (r: Vec<(String, String)>)
        ensures
            r@.len() == 3,
            r@[0].0@ == "api_key"@ && r@[0].1@ == "***"@,
            r@[1].0@ == "cx"@ && r@[1].1@ == self.config.cx@,
            r@[2].0@ == "base_url"@ && r@[2].1@ == self.config.base_url@,
    {
        let mut r: Vec<(String, String)> = Vec::new();
        r.push((str_to_owned("api_key"), str_to_owned("***")));
        r.push((str_to_owned("cx"), self.config.cx.clone()));
        r.push((str_to_owned("base_url"), self.config.base_url.clone()));
        r
    }

    /// Builds the query parameters of one request: credentials and
    /// query, the result count capped at the API's ten-per-request
    /// limit, pagination, and language, region and safe-search hints.
    pub fn build_query_params(&self, options: &SearchOptions) -> (r: Vec<(String, String)>)
        requires
            options.page matches Some(p) ==> p >= 1 && (p - 1) * (match options.max_results {
                Some(m) => m as int,
                None => 10,
            }) + 1 <= u32::MAX,
        ensures
            pair_views(r@) == google_params(self.config, *options),
    {
        let mut params: Vec<(String, String)> = Vec::new();
        params.push((str_to_owned("key"), self.config.api_key.clone()));
        params.push((str_to_owned("cx"), self.config.cx.clone()));
        params.push((str_to_owned("q"), options.query.clone()));
        match options.max_results {
            Some(max_results) => {
                let num = if max_results > 10 {
                    10
                } else {
                    max_results
                };
                params.push((str_to_owned("num"), u64_to_dec_string(num as u64)));
            },
            None => {},
        }
        match options.page {
            Some(page) => {
                let max_results = match options.max_results {
                    Some(m) => m,
                    None => 10,
                };
                let start = (page - 1) * max_results + 1;
                params.push((str_to_owned("start"), u64_to_dec_string(start as u64)));
            },
            None => {},
        }
        match &options.language {
            Some(language) => {
                let mut lr = str_to_owned("lang_");
                lr.append(string_as_str(language));
                params.push((str_to_owned("lr"), lr));
            },
            None => {},
        }
        match &options.region {
            Some(region) => {
                params.push((str_to_owned("gl"), region.clone()));
            },
            None => {},
        }
        match &options.safe_search {
            Some(safe_search) => {
                let safe = match safe_search {
                    crate::types::SafeSearch::Off => str_to_owned("off"),
                    _ => str_to_owned("active"),
                };
                params.push((str_to_owned("safe"), safe));
            },
            None => {},
        }
        proof {
            assert(pair_views(params@) =~= google_params(self.config, *options));
        }
        params
    }

    /// Builds the full search URL for one request; succeeds exactly
    /// when the configured base URL parses.
    pub fn build_search_url(&self, options: &SearchOptions) -> (r: SearchResult<String>)
        requires
            options.page matches Some(p) ==> p >= 1 && (p - 1) * (match options.max_results {
                Some(m) => m as int,
                None => 10,
            }) + 1 <= u32::MAX,
        ensures
            r is Ok <==> url_parse_ok(self.config.base_url@),
            r matches Err(e) ==> e matches SearchError::InvalidInput(m) && has_prefix(
                m@,
                "Invalid URL: "@,
            ),
    {
        let params = self.build_query_params(options);
        build_url(string_as_str(&self.config.base_url), &params)
    }
}

/// The query parameters of one Google Custom Search request, in order.
pub open spec fn google_params(config: GoogleConfig, options: SearchOptions) -> Seq<
    (Seq<char>, Seq<char>),
> {
    let head: Seq<(Seq<char>, Seq<char>)> = seq![
        ("key"@, config.api_key@),
        ("cx"@, config.cx@),
        ("q"@, options.query@),
    ];
    let num: Seq<(Seq<char>, Seq<char>)> = match options.max_results {
        Option::Some(m) => seq![
            ("num"@, dec_str(if m > 10 { 10int } else { m as int })),
        ],
        Option::None => Seq::empty(),
    };
    let start: Seq<(Seq<char>, Seq<char>)> = match options.page {
        Option::Some(p) => {
            let max = match options.max_results {
                Option::Some(m) => m as int,
                Option::None => 10,
            };
            seq![("start"@, dec_str((p as int - 1) * max + 1))]
        },
        Option::None => Seq::empty(),
    };
    let lr: Seq<(Seq<char>, Seq<char>)> = match options.language {
        Option::Some(l) => seq![("lr"@, "lang_"@ + l@)],
        Option::None => Seq::empty(),
    };
    let gl: Seq<(Seq<char>, Seq<char>)> = match options.region {
        Option::Some(re) => seq![("gl"@, re@)],
        Option::None => Seq::empty(),
    };
    let safe: Seq<(Seq<char>, Seq<char>)> = match options.safe_search {
        Option::Some(s) => seq![
            ("safe"@, if s is Off { "off"@ } else { "active"@ }),
        ],
        Option::None => Seq::empty(),
    };
    head + num + start + lr + gl + safe
}

/// The first value bound to `key` in an association list.
pub open spec fn assoc_lookup(pairs: Seq<(String, String)>, key: Seq<char>) -> Option<Seq<char>>
    decreases pairs.len(),
{
    if pairs.len() == 0 {
        Option::None
    } else if pairs[0].0@ == key {
        Option::Some(pairs[0].1@)
    } else {
        assoc_lookup(pairs.drop_first(), key)
    }
}

/// Looks up the first value bound to `key` in an association list.
fn lookup_value(pairs: &Vec<(String, String)>, key: &str) -> (r: Option<String>)
    ensures
        match r {
            Some(v) => assoc_lookup(pairs@, key@) == Some(v@),
            None => assoc_lookup(pairs@, key@) is None,
        },
{
    let n = pairs.len();
    let mut i: usize = 0;
    proof {
        assert(pairs@.skip(0) =~= pairs@);
    }
    while i < n
        invariant
            i <= n,
            n == pairs@.len(),
            assoc_lookup(pairs@, key@) == assoc_lookup(pairs@.skip(i as int), key@),
        decreases n - i,
    {
        proof {
            assert(pairs@.skip(i as int)[0] == pairs@[i as int]);
            assert(pairs@.skip(i as int).drop_first() =~= pairs@.skip(i as int + 1));
        }
        if crate::utils::strings::str_eq_str(string_as_str(&pairs[i].0), key) {
            return Some(pairs[i].1.clone());
        }
        i = i + 1;
    }
    proof {
        assert(pairs@.skip(n as int).len() == 0);
    }
    None
}

/// The published date taken from a result's first metatag map: the
/// article's published time, else its date, else its update time.
pub open spec fn published_of_metatags(meta: Seq<(String, String)>) -> Option<Seq<char>> {
    match assoc_lookup(meta, "article:published_time"@) {
        Option::Some(v) => Option::Some(v),
        Option::None => match assoc_lookup(meta, "date"@) {
            Option::Some(v) => Option::Some(v),
            Option::None => assoc_lookup(meta, "og:updated_time"@),
        },
    }
}

/// Extracts the published date from a result's first metatag map.
pub fn published_from_metatags(meta: &Vec<(String, String)>) -> (r: Option<String>)
    ensures
        match r {
            Some(v) => published_of_metatags(meta@) == Some(v@),
            None => published_of_metatags(meta@) is None,
        },
{
    match lookup_value(meta, "article:published_time") {
        Some(v) => Some(v),
        None => match lookup_value(meta, "date") {
            Some(v) => Some(v),
            None => lookup_value(meta, "og:updated_time"),
        },
    }
}

/// Shapes one parsed Custom Search item into the normalized schema:
/// the displayed link becomes the domain and the raw payload is
/// carried through untouched.
pub fn item_to_result(
    title: String,
    link: String,
    display_link: String,
    snippet: String,
    published_date: Option<String>,
    raw: Option<serde_json::Value>,
) -> (r: SearchResultType)
    ensures
        r.url == link,
        r.title == title,
        r.snippet matches Some(s) && s == snippet,
        r.domain matches Some(d) && d == display_link,
        r.published_date == published_date,
        r.provider matches Some(p) && p@ == "google"@,
        r.raw == raw,
{
    SearchResultType {
        url: link,
        title,
        snippet: Some(snippet),
        domain: Some(display_link),
        published_date,
        provider: Some(str_to_owned("google")),
        raw,
    }
}

} // verus!
