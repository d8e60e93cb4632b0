//! The DuckDuckGo search backend, fed by HTML scraping: configuration,
//! form building and the assembly of scraped links into normalized
//! results are verified here; the HTTP POST and the HTML parsing are
//! the embedding application's job.

use vstd::prelude::*;
use crate::error::SearchError;
use crate::types::{ProviderConfig, SearchOptions, SearchResult as SearchResultType};
use crate::utils::http::{extract_domain, host_of, normalize_text, normalize_url, normalized_text,
    normalized_url};
use crate::utils::strings::{contains_sub, pair_views, str_contains_sub, str_is_empty,
    str_to_owned, string_as_str};

verus! {

/// DuckDuckGo search types.
#[derive(Debug, Clone, Copy)]
pub enum SearchType {
    Text,
    Images,
    News,
}

impl SearchType {
    /// The configuration spelling of this search type.
    pub open spec fn spec_label(self) -> Seq<char> {
        match self {
            SearchType::Text => "text"@,
            SearchType::Images => "images"@,
            SearchType::News => "news"@,
        }
    }

    /// The configuration spelling of this search type.
    pub fn to_string(&self) -> (r: String)
        ensures
            r@ == self.spec_label(),
    {
        match self {
            SearchType::Text => str_to_owned("text"),
            SearchType::Images => str_to_owned("images"),
            SearchType::News => str_to_owned("news"),
        }
    }
}

/// DuckDuckGo configuration.
#[derive(Debug, Clone)]
pub struct DuckDuckGoConfig {
    /// Base URL for DuckDuckGo.
    pub base_url: String,
    /// Search type.
    pub search_type: SearchType,
    /// Whether to use the lite version.
    pub use_lite: bool,
    /// User agent for requests.
    pub user_agent: String,
}

impl Default for DuckDuckGoConfig {
    /// The HTML endpoint with text search and a desktop user agent.
    fn default() -> (r: Self)
        ensures
            r.base_url@ == "https://html.duckduckgo.com/html"@,
            r.search_type is Text,
            !r.use_lite,
            r.user_agent@
                == "Mozilla/5.0 (Windows NT 10.0; Win64; x64) AppleWebKit/537.36 (KHTML, like Gecko) Chrome/91.0.4472.124 Safari/537.36"@,
    {
        DuckDuckGoConfig {
            base_url: str_to_owned("https://html.duckduckgo.com/html"),
            search_type: SearchType::Text,
            use_lite: false,
            user_agent: str_to_owned(
                "Mozilla/5.0 (Windows NT 10.0; Win64; x64) AppleWebKit/537.36 (KHTML, like Gecko) Chrome/91.0.4472.124 Safari/537.36",
            ),
        }
    }
}

impl ProviderConfig for DuckDuckGoConfig {
    /// No API key needed: acceptable whenever a base URL is set.
    open spec fn spec_valid(&self) -> bool {
        self.base_url@.len() > 0
    }

    open spec fn spec_base_url(&self) -> Seq<char> {
        self.base_url@
    }

    fn validate(&self) -> (r: Result<(), SearchError>) {
        if str_is_empty(string_as_str(&self.base_url)) {
            return Err(SearchError::ConfigError(str_to_owned("Base URL is required")));
        }
        Ok(())
    }

    fn base_url(&self) -> &str {
        string_as_str(&self.base_url)
    }

    fn api_key(&self) -> Option<&str> {
        None
    }
}

/// DuckDuckGo search provider.
#[derive(Debug, Clone)]
pub struct DuckDuckGoProvider {
    pub config: DuckDuckGoConfig,
}

impl DuckDuckGoProvider {
    /// Creates a provider with the default configuration.
    pub fn new() -> (r: Self)
        ensures
            r.config.base_url@ == "https://html.duckduckgo.com/html"@,
            r.config.search_type is Text,
            !r.config.use_lite,
    {
        DuckDuckGoProvider::with_config(DuckDuckGoConfig::default())
    }

    /// Creates a provider with a custom configuration.
    pub fn with_config(config: DuckDuckGoConfig) -> (r: Self)
        ensures
            r.config == config,
    {
        DuckDuckGoProvider { config }
    }

    /// Creates a provider aimed at image search.
    pub fn for_images() -> (r: Self)
        ensures
            r.config.base_url@ == "https://duckduckgo.com/i.js"@,
            r.config.search_type is Images,
    {
        let mut config = DuckDuckGoConfig::default();
        config.search_type = SearchType::Images;
        config.base_url = str_to_owned("https://duckduckgo.com/i.js");
        DuckDuckGoProvider::with_config(config)
    }

    /// Creates a provider aimed at news search.
    pub fn for_news() -> (r: Self)
        ensures
            r.config.base_url@ == "https://duckduckgo.com/news.js"@,
            r.config.search_type is News,
    {
        let mut config = DuckDuckGoConfig::default();
        config.search_type = SearchType::News;
        config.base_url = str_to_owned("https://duckduckgo.com/news.js");
        DuckDuckGoProvider::with_config(config)
    }

    /// The provider's stable name.
    pub fn name(&self) -> (r: String)
        ensures
            r@ == "duckduckgo"@,
    {
        str_to_owned("duckduckgo")
    }

    /// Non-secret description of the provider's settings.
    pub fn config(&self) -> (r: Vec<(String, String)>)
        ensures
            r@.len() == 3,
            r@[0].0@ == "base_url"@ && r@[0].1@ == self.config.base_url@,
            r@[1].0@ == "search_type"@ && r@[1].1@ == self.config.search_type.spec_label(),
            r@[2].0@ == "use_lite"@ && r@[2].1@ == crate::providers::tavily::bool_label(
                self.config.use_lite,
            ),
    {
        let mut r: Vec<(String, String)> = Vec::new();
        r.push((str_to_owned("base_url"), self.config.base_url.clone()));
        r.push((str_to_owned("search_type"), self.config.search_type.to_string()));
        r.push((
            str_to_owned("use_lite"),
            crate::providers::tavily::bool_string(self.config.use_lite),
        ));
        r
    }

    /// Builds the form fields of one text search: the query, an empty
    /// batch marker, and the region (worldwide when none is set).
    pub fn build_text_form(&self, options: &SearchOptions) -> (r: Vec<(String, String)>)
        ensures
            pair_views(r@) == ddg_form(*options),
    {
        let mut form: Vec<(String, String)> = Vec::new();
        form.push((str_to_owned("q"), options.query.clone()));
        form.push((str_to_owned("b"), String::new()));
        match &options.region {
            Some(region) => {
                form.push((str_to_owned("kl"), region.clone()));
            },
            None => {
                form.push((str_to_owned("kl"), str_to_owned("wt-wt")));
            },
        }
        proof {
            assert(pair_views(form@) =~= ddg_form(*options));
        }
        form
    }
}

impl Default for DuckDuckGoProvider {
    /// A provider with the default configuration.
    fn default() -> (r: Self)
        ensures
            r.config.base_url@ == "https://html.duckduckgo.com/html"@,
            r.config.search_type is Text,
    {
        DuckDuckGoProvider::new()
    }
}

/// The form fields of one text search, in order.
pub open spec fn ddg_form(options: SearchOptions) -> Seq<(Seq<char>, Seq<char>)> {
    seq![
        ("q"@, options.query@),
        ("b"@, Seq::<char>::empty()),
        (
            "kl"@,
            match options.region {
                Option::Some(re) => re@,
                Option::None => "wt-wt"@,
            },
        ),
    ]
}

/// Whether a scraped link points back into a search engine and is
/// skipped rather than surfaced as a result.
pub open spec fn ddg_internal_link(href: Seq<char>) -> bool {
    contains_sub(href, "duckduckgo.com"@) || contains_sub(href, "google.com/search"@)
}

/// The shape of one assembled result, as mathematical values.
pub struct DdgResultView {
    pub url: Seq<char>,
    pub title: Seq<char>,
    pub snippet: Option<Seq<char>>,
    pub domain: Option<Seq<char>>,
}

/// The view of one assembled result: the normalized URL and title, the
/// normalized snippet paired by position, and the URL's domain.
pub open spec fn ddg_view(
    href: Seq<char>,
    inner: Seq<char>,
    snippet: Option<Seq<char>>,
) -> DdgResultView {
    DdgResultView {
        url: normalized_url(href),
        title: normalized_text(inner),
        snippet: match snippet {
            Option::Some(s) => Option::Some(normalized_text(s)),
            Option::None => Option::None,
        },
        domain: host_of(normalized_url(href)),
    }
}

/// The results assembled from scraped links `i` onward while `room`
/// results may still be added: search-internal links are skipped, and
/// each kept link is normalized and paired with the snippet at its
/// position.
pub open spec fn ddg_results(
    links: Seq<(Seq<char>, Seq<char>)>,
    snippets: Seq<Seq<char>>,
    i: int,
    room: int,
) -> Seq<DdgResultView>
    decreases links.len() - i,
{
    if i < 0 || i >= links.len() || room <= 0 {
        Seq::empty()
    } else if ddg_internal_link(links[i].0) {
        ddg_results(links, snippets, i + 1, room)
    } else {
        seq![
            ddg_view(
                links[i].0,
                links[i].1,
                if i < snippets.len() {
                    Option::Some(snippets[i])
                } else {
                    Option::None
                },
            ),
        ] + ddg_results(links, snippets, i + 1, room - 1)
    }
}

/// The view of one assembled result value.
pub open spec fn result_ddg_view(r: SearchResultType) -> DdgResultView {
    DdgResultView {
        url: r.url@,
        title: r.title@,
        snippet: match r.snippet {
            Option::Some(s) => Option::Some(s@),
            Option::None => Option::None,
        },
        domain: match r.domain {
            Option::Some(d) => Option::Some(d@),
            Option::None => Option::None,
        },
    }
}

/// Assembles scraped search links into normalized results: links that
/// point back into a search engine are skipped, URLs and text are
/// normalized, each link is paired with the snippet at its position,
/// and at most `max_results` results are produced.
pub fn assemble_text_results(
    links: &Vec<(String, String)>,
    snippets: &Vec<String>,
    max_results: u32,
) -> (r: Vec<SearchResultType>)
    ensures
        r@.map_values(|x: SearchResultType| result_ddg_view(x)) == ddg_results(
            pair_views(links@),
            snippets@.map_values(|s: String| s@),
            0,
            max_results as int,
        ),
        forall|k: int|
            0 <= k < r@.len() ==> {
                &&& (#[trigger] r@[k]).provider matches Some(p) && p@ == "duckduckgo"@
                &&& r@[k].published_date is None
                &&& r@[k].raw is None
            },
{
    let ghost lvs = pair_views(links@);
    let ghost svs = snippets@.map_values(|s: String| s@);
    let mut results: Vec<SearchResultType> = Vec::new();
    let n = links.len();
    let mut i: usize = 0;
    while i < n && results.len() < max_results as usize
        invariant
            i <= n,
            n == links@.len(),
            lvs == pair_views(links@),
            svs == snippets@.map_values(|s: String| s@),
            results@.len() <= max_results,
            ddg_results(lvs, svs, 0, max_results as int) == results@.map_values(
                |x: SearchResultType| result_ddg_view(x),
            ) + ddg_results(lvs, svs, i as int, max_results - results@.len()),
            forall|k: int|
                0 <= k < results@.len() ==> {
                    &&& (#[trigger] results@[k]).provider matches Some(p) && p@ == "duckduckgo"@
                    &&& results@[k].published_date is None
                    &&& results@[k].raw is None
                },
        decreases n - i,
    {
        let href = &links[i].0;
        proof {
            assert(lvs[i as int] == (links@[i as int].0@, links@[i as int].1@));
        }
        if str_contains_sub(string_as_str(href), "duckduckgo.com") || str_contains_sub(
            string_as_str(href),
            "google.com/search",
        ) {
            i = i + 1;
        } else {
            let url = normalize_url(string_as_str(href));
            let title = normalize_text(string_as_str(&links[i].1));
            let snippet: Option<String> = if i < snippets.len() {
                proof {
                    assert(svs[i as int] == snippets@[i as int]@);
                }
                Some(normalize_text(string_as_str(&snippets[i])))
            } else {
                None
            };
            let domain = extract_domain(string_as_str(&url));
            let item = SearchResultType {
                url,
                title,
                snippet,
                domain,
                published_date: None,
                provider: Some(str_to_owned("duckduckgo")),
                raw: None,
            };
            proof {
                assert(result_ddg_view(item) == ddg_view(
                    lvs[i as int].0,
                    lvs[i as int].1,
                    if i < svs.len() {
                        Option::Some(svs[i as int])
                    } else {
                        Option::None
                    },
                ));
            }
            let ghost before = results@;
            results.push(item);
            proof {
                assert(results@.map_values(|x: SearchResultType| result_ddg_view(x))
                    =~= before.map_values(|x: SearchResultType| result_ddg_view(x)) + seq![
                    result_ddg_view(item),
                ]);
            }
            i = i + 1;
        }
    }
    proof {
        if i < n {
            assert(results@.len() == max_results);
            assert(ddg_results(lvs, svs, i as int, 0) =~= Seq::<DdgResultView>::empty());
        } else {
            assert(ddg_results(lvs, svs, n as int, max_results - results@.len()) =~= Seq::<
                DdgResultView,
            >::empty());
        }
        assert(results@.map_values(|x: SearchResultType| result_ddg_view(x)) + Seq::<
            DdgResultView,
        >::empty() =~= results@.map_values(|x: SearchResultType| result_ddg_view(x)));
    }
    results
}

} // verus!
