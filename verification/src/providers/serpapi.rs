//! The SerpAPI search backend: query-parameter building and response
//! shaping are verified here; the HTTP GET itself is the embedding
//! application's job.

use vstd::prelude::*;
use crate::error::{SearchError, SearchResult};
use crate::types::{SearchOptions, SearchResult as SearchResultType};
use crate::utils::http::{host_if_parses, host_of, url_parse_ok};
use crate::utils::strings::{
    dec_str, pair_views, str_is_empty, str_to_owned, string_as_str, u64_to_dec_string,
};
use vstd::string::StrSliceExecFns;

verus! {

/// SerpAPI search provider configuration.
#[derive(Debug, Clone)]
pub struct SerpApiProvider {
    pub api_key: String,
    pub engine: String,
    pub base_url: String,
}

impl SerpApiProvider {
    /// Creates a provider for the given API key, rejecting an empty one.
    pub fn new(api_key: &str) -> (r: SearchResult<Self>)
        ensures
            match r {
                Ok(p) => {
                    &&& api_key@.len() > 0
                    &&& p.api_key@ == api_key@
                    &&& p.engine@ == "google"@
                    &&& p.base_url@ == "https://serpapi.com/search.json"@
                },
                Err(e) => {
                    &&& api_key@.len() == 0
                    &&& e matches SearchError::ConfigError(m)
                    &&& m@ == "SerpAPI key is required"@
                },
            },
    {
        if str_is_empty(api_key) {
            return Err(SearchError::ConfigError(str_to_owned("SerpAPI key is required")));
        }
        Ok(
            SerpApiProvider {
                api_key: str_to_owned(api_key),
                engine: str_to_owned("google"),
                base_url: str_to_owned("https://serpapi.com/search.json"),
            },
        )
    }

    /// Sets the search engine routed through the API.
    pub fn with_engine(self, engine: &str) -> (r: Self)
        ensures
            r.engine@ == engine@,
            r.api_key == self.api_key,
            r.base_url == self.base_url,
    {
        let mut p = self;
        p.engine = str_to_owned(engine);
        p
    }

    /// Sets a custom base URL.
    pub fn with_base_url(self, base_url: &str) -> (r: Self)
        ensures
            r.base_url@ == base_url@,
            r.api_key == self.api_key,
            r.engine == self.engine,
    {
        let mut p = self;
        p.base_url = str_to_owned(base_url);
        p
    }

    /// The provider's stable name.
    pub fn name(&self) -> (r: String)
        ensures
            r@ == "serpapi"@,
    {
        str_to_owned("serpapi")
    }

    /// Non-secret description of the provider's settings; the API key
    /// is masked.
    pub fn config(&self) -> (r: Vec<(String, String)>)
        ensures
            r@.len() == 3,
            r@[0].0@ == "api_key"@ && r@[0].1@ == "***"@,
            r@[1].0@ == "engine"@ && r@[1].1@ == self.engine@,
            r@[2].0@ == "base_url"@ && r@[2].1@ == self.base_url@,
    {
        let mut r: Vec<(String, String)> = Vec::new();
        r.push((str_to_owned("api_key"), str_to_owned("***")));
        r.push((str_to_owned("engine"), self.engine.clone()));
        r.push((str_to_owned("base_url"), self.base_url.clone()));
        r
    }

    /// Builds the query parameters of one request: engine, key, query
    /// and result count, then pagination past the first page, then
    /// language, region and safe-search hints.
    pub fn build_params(&self, options: &SearchOptions) -> (r: Vec<(String, String)>)
        requires
            match options.page {
                Some(p) => p > 1 ==> (p - 1) * (match options.max_results {
                    Some(m) => m as int,
                    None => 10,
                }) + 1 <= u32::MAX,
                None => true,
            },
        ensures
            pair_views(r@) == serpapi_params(*self, *options),
    {
        let mut params: Vec<(String, String)> = Vec::new();
        let max_results = match options.max_results {
            Some(m) => m,
            None => 10,
        };
        params.push((str_to_owned("engine"), self.engine.clone()));
        params.push((str_to_owned("api_key"), self.api_key.clone()));
        params.push((str_to_owned("q"), options.query.clone()));
        params.push((str_to_owned("num"), u64_to_dec_string(max_results as u64)));
        match options.page {
            Some(page) => {
                if page > 1 {
                    let start = (page - 1) * max_results + 1;
                    params.push((str_to_owned("start"), u64_to_dec_string(start as u64)));
                }
            },
            None => {},
        }
        match &options.language {
            Some(language) => {
                params.push((str_to_owned("hl"), language.clone()));
            },
            None => {},
        }
        match &options.region {
            Some(region) => {
                params.push((str_to_owned("gl"), region.clone()));
            },
            None => {},
        }
        match &options.safe_search {
            Some(safe_search) => {
                params.push((str_to_owned("safe"), safe_search.to_string()));
            },
            None => {},
        }
        proof {
            assert(pair_views(params@) =~= serpapi_params(*self, *options));
        }
        params
    }
}

/// The query parameters of one SerpAPI request, in order.
pub open spec fn serpapi_params(p: SerpApiProvider, options: SearchOptions) -> Seq<
    (Seq<char>, Seq<char>),
> {
    let max = match options.max_results {
        Option::Some(m) => m as int,
        Option::None => 10,
    };
    let head: Seq<(Seq<char>, Seq<char>)> = seq![
        ("engine"@, p.engine@),
        ("api_key"@, p.api_key@),
        ("q"@, options.query@),
        ("num"@, dec_str(max)),
    ];
    let pagination: Seq<(Seq<char>, Seq<char>)> = match options.page {
        Option::Some(page) => if page > 1 {
            seq![("start"@, dec_str((page as int - 1) * max + 1))]
        } else {
            Seq::empty()
        },
        Option::None => Seq::empty(),
    };
    let hl: Seq<(Seq<char>, Seq<char>)> = match options.language {
        Option::Some(l) => seq![("hl"@, l@)],
        Option::None => Seq::empty(),
    };
    let gl: Seq<(Seq<char>, Seq<char>)> = match options.region {
        Option::Some(re) => seq![("gl"@, re@)],
        Option::None => Seq::empty(),
    };
    let safe: Seq<(Seq<char>, Seq<char>)> = match options.safe_search {
        Option::Some(s) => seq![("safe"@, s.spec_label())],
        Option::None => Seq::empty(),
    };
    head + pagination + hl + gl + safe
}

/// The prefix of `s` up to its first `/`, or all of `s` when it has
/// none; the crude domain fallback for links that do not parse.
pub open spec fn before_first_slash(s: Seq<char>) -> Seq<char>
    decreases s.len(),
{
    if s.len() == 0 {
        s
    } else if s[0] == '/' {
        Seq::empty()
    } else {
        seq![s[0]] + before_first_slash(s.drop_first())
    }
}

/// Returns the prefix of `s` up to its first `/`.
fn str_before_first_slash(s: &str) -> (r: String)
    ensures
        r@ == before_first_slash(s@),
{
    let n = s.unicode_len();
    let mut e: usize = 0;
    while e < n && s.get_char(e) != '/'
        invariant
            e <= n,
            n == s@.len(),
            forall|j: int| 0 <= j < e ==> s@[j] != '/',
        decreases n - e,
    {
        e = e + 1;
    }
    let piece = s.substring_char(0, e);
    proof {
        lemma_before_first_slash_at(s@, e as int);
        assert(piece@ =~= s@.take(e as int));
    }
    str_to_owned(piece)
}

/// The prefix before the first slash is the prefix that ends at the
/// first slash position.
proof fn lemma_before_first_slash_at(s: Seq<char>, e: int)
    requires
        0 <= e <= s.len(),
        forall|j: int| 0 <= j < e ==> s[j] != '/',
        e < s.len() ==> s[e] == '/',
    ensures
        before_first_slash(s) == s.take(e),
    decreases e,
{
    if s.len() == 0 {
        assert(s.take(0) =~= s);
    } else if e == 0 {
        assert(s.take(0) =~= Seq::<char>::empty());
    } else {
        assert(s[0] != '/');
        lemma_before_first_slash_at(s.drop_first(), e - 1);
        assert(seq![s[0]] + s.drop_first().take(e - 1) =~= s.take(e));
    }
}

/// The domain shown for one result: the host of the displayed link (or
/// of the result link when none is displayed) when it parses as a URL,
/// else everything before its first slash.
pub open spec fn serpapi_domain(displayed_link: Option<Seq<char>>, link: Seq<char>) -> Option<
    Seq<char>,
> {
    let cand = match displayed_link {
        Option::Some(d) => d,
        Option::None => link,
    };
    if url_parse_ok(cand) {
        host_of(cand)
    } else {
        Option::Some(before_first_slash(cand))
    }
}

/// Picks the domain for one result from its displayed link or URL.
pub fn domain_from_links(displayed_link: &Option<String>, link: &String) -> (r: Option<String>)
    ensures
        match r {
            Some(d) => serpapi_domain(
                match displayed_link {
                    Some(x) => Some(x@),
                    None => None,
                },
                link@,
            ) == Some(d@),
            None => serpapi_domain(
                match displayed_link {
                    Some(x) => Some(x@),
                    None => None,
                },
                link@,
            ) is None,
        },
{
    let cand: &String = match displayed_link {
        Some(d) => d,
        None => link,
    };
    let (parsed, host) = host_if_parses(string_as_str(cand));
    if parsed {
        host
    } else {
        Some(str_before_first_slash(string_as_str(cand)))
    }
}

/// Shapes one parsed SerpAPI organic result into the normalized
/// schema, with the domain taken from the displayed link when
/// possible and the raw payload carried through untouched.
pub fn normalize_result(
    title: String,
    link: String,
    displayed_link: Option<String>,
    snippet: Option<String>,
    date: Option<String>,
    raw: Option<serde_json::Value>,
) -> (r: SearchResultType)
    ensures
        r.url == link,
        r.title == title,
        r.snippet == snippet,
        (match r.domain {
            Some(d) => serpapi_domain(
                match displayed_link {
                    Some(x) => Some(x@),
                    None => None,
                },
                link@,
            ) == Some(d@),
            None => serpapi_domain(
                match displayed_link {
                    Some(x) => Some(x@),
                    None => None,
                },
                link@,
            ) is None,
        }),
        r.published_date == date,
        r.provider matches Some(p) && p@ == "serpapi"@,
        r.raw == raw,
{
    let domain = domain_from_links(&displayed_link, &link);
    SearchResultType {
        url: link,
        title,
        snippet,
        domain,
        published_date: date,
        provider: Some(str_to_owned("serpapi")),
        raw,
    }
}

} // verus!
