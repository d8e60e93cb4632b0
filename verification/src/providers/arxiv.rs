//! The academic paper feed backend: query building and the shaping of
//! parsed feed entries into the normalized result schema. Fetching and
//! XML decoding belong to the embedding application.

use vstd::prelude::*;
use vstd::string::StringExecFns;
use crate::error::{SearchError, SearchResult};
use crate::types::{SearchOptions, SearchResult as SearchResultType};
use crate::utils::strings::{
    after_last_slash, dec_str, joined, pair_views, str_after_last_slash, str_is_empty,
    str_to_owned, str_trim, string_as_str, trimmed, u64_to_dec_string,
};

verus! {

/// Academic paper feed provider configuration.
#[derive(Debug, Clone)]
pub struct ArxivProvider {
    pub base_url: String,
}

impl ArxivProvider {
    /// Creates a provider pointing at the public export API.
    pub fn new() -> (r: Self)
        ensures
            r.base_url@ == "http://export.arxiv.org/api/query"@,
    {
        ArxivProvider { base_url: str_to_owned("http://export.arxiv.org/api/query") }
    }

    /// The provider's stable name.
    pub fn name(&self) -> (r: String)
        ensures
            r@ == "arxiv"@,
    {
        str_to_owned("arxiv")
    }

    /// Non-secret description of the provider's settings.
    pub fn config(&self) -> (r: Vec<(String, String)>)
        ensures
            r@.len() == 3,
            r@[0].0@ == "provider"@ && r@[0].1@ == "arxiv"@,
            r@[1].0@ == "base_url"@ && r@[1].1@ == self.base_url@,
            r@[2].0@ == "max_results"@ && r@[2].1@ == "50"@,
    {
        let mut r: Vec<(String, String)> = Vec::new();
        r.push((str_to_owned("provider"), str_to_owned("arxiv")));
        r.push((str_to_owned("base_url"), self.base_url.clone()));
        r.push((str_to_owned("max_results"), str_to_owned("50")));
        r
    }

    /// Builds the query parameters for one feed request: a lookup by ID
    /// list or a free-text query, pagination, the capped result count,
    /// and the sort fields.
    pub fn build_query_params(&self, options: &SearchOptions) -> (r: SearchResult<
        Vec<(String, String)>,
    >)
        ensures
            match r {
                Ok(params) => {
                    &&& arxiv_selector_ok(*options)
                    &&& pair_views(params@) == arxiv_params(*options)
                },
                Err(e) => {
                    &&& !arxiv_selector_ok(*options)
                    &&& e matches SearchError::InvalidInput(m)
                    &&& m@ == "ArXiv search requires either a search query or ID list"@
                },
            },
    {
        let mut params: Vec<(String, String)> = Vec::new();
        match &options.id_list {
            Some(ids) => {
                params.push((str_to_owned("id_list"), ids.clone()));
            },
            None => {
                let q = str_trim(string_as_str(&options.query));
                if str_is_empty(string_as_str(&q)) {
                    return Err(
                        SearchError::InvalidInput(
                            str_to_owned("ArXiv search requires either a search query or ID list"),
                        ),
                    );
                }
                let mut sq = str_to_owned("all:");
                sq.append(string_as_str(&q));
                params.push((str_to_owned("search_query"), sq));
            },
        }
        match options.start {
            Some(s) => {
                params.push((str_to_owned("start"), u64_to_dec_string(s as u64)));
            },
            None => {},
        }
        let wanted = match options.max_results {
            Some(m) => m,
            None => 10,
        };
        let capped = if wanted < 50 {
            wanted
        } else {
            50
        };
        params.push((str_to_owned("max_results"), u64_to_dec_string(capped as u64)));
        match options.sort_by {
            Some(s) => {
                params.push((str_to_owned("sortBy"), s.to_string()));
            },
            None => {},
        }
        match options.sort_order {
            Some(s) => {
                params.push((str_to_owned("sortOrder"), s.to_string()));
            },
            None => {},
        }
        proof {
            assert(pair_views(params@) =~= arxiv_params(*options));
        }
        Ok(params)
    }
}

impl Default for ArxivProvider {
    /// The provider pointing at the public export API.
    fn default() -> (r: Self)
        ensures
            r.base_url@ == "http://export.arxiv.org/api/query"@,
    {
        ArxivProvider::new()
    }
}

/// Whether a feed request can be built: an ID list or a query with
/// visible text.
pub open spec fn arxiv_selector_ok(options: SearchOptions) -> bool {
    options.id_list is Some || trimmed(options.query@).len() > 0
}

/// The query parameters of one feed request, in order.
pub open spec fn arxiv_params(options: SearchOptions) -> Seq<(Seq<char>, Seq<char>)> {
    let sel: Seq<(Seq<char>, Seq<char>)> = match options.id_list {
        Option::Some(ids) => seq![("id_list"@, ids@)],
        Option::None => seq![("search_query"@, "all:"@ + trimmed(options.query@))],
    };
    let st: Seq<(Seq<char>, Seq<char>)> = match options.start {
        Option::Some(s) => seq![("start"@, dec_str(s as int))],
        Option::None => Seq::empty(),
    };
    let mx: Seq<(Seq<char>, Seq<char>)> = seq![
        ("max_results"@, dec_str(arxiv_capped(options.max_results))),
    ];
    let sb: Seq<(Seq<char>, Seq<char>)> = match options.sort_by {
        Option::Some(s) => seq![("sortBy"@, s.spec_label())],
        Option::None => Seq::empty(),
    };
    let so: Seq<(Seq<char>, Seq<char>)> = match options.sort_order {
        Option::Some(s) => seq![("sortOrder"@, s.spec_label())],
        Option::None => Seq::empty(),
    };
    sel + st + mx + sb + so
}

/// The requested result count capped at the feed's maximum of fifty.
pub open spec fn arxiv_capped(requested: Option<u32>) -> int {
    let wanted = match requested {
        Option::Some(m) => m as int,
        Option::None => 10,
    };
    if wanted < 50 {
        wanted
    } else {
        50
    }
}

/// One link of a parsed feed entry.
#[derive(Debug, Clone)]
pub struct ArxivLinkData {
    pub href: String,
    pub link_type: Option<String>,
}

/// One parsed feed entry, as plain data.
#[derive(Debug, Clone)]
pub struct ArxivEntryData {
    pub id: String,
    pub title: String,
    pub summary: String,
    pub published: String,
    pub authors: Vec<String>,
    pub links: Vec<ArxivLinkData>,
}

/// The first entry link that points at the paper's HTML page.
pub open spec fn first_html_href(links: Seq<ArxivLinkData>) -> Option<Seq<char>>
    decreases links.len(),
{
    if links.len() == 0 {
        Option::None
    } else if links[0].link_type matches Some(t) && t@ == "text/html"@ {
        Option::Some(links[0].href@)
    } else {
        first_html_href(links.drop_first())
    }
}

/// The URL a feed entry's result points at: its HTML link if it has
/// one, else the abstract page of its ID's final path segment.
pub open spec fn paper_url_of(entry: ArxivEntryData) -> Seq<char> {
    match first_html_href(entry.links@) {
        Option::Some(h) => h,
        Option::None => "https://arxiv.org/abs/"@ + after_last_slash(entry.id@),
    }
}

/// Finds the first entry link that points at the paper's HTML page.
fn find_html_href(links: &Vec<ArxivLinkData>) -> (r: Option<String>)
    ensures
        match r {
            Some(h) => first_html_href(links@) == Some(h@),
            None => first_html_href(links@) is None,
        },
{
    let n = links.len();
    let mut i: usize = 0;
    proof {
        assert(links@.skip(0) =~= links@);
    }
    while i < n
        invariant
            i <= n,
            n == links@.len(),
            first_html_href(links@) == first_html_href(links@.skip(i as int)),
        decreases n - i,
    {
        proof {
            assert(links@.skip(i as int)[0] == links@[i as int]);
            assert(links@.skip(i as int).drop_first() =~= links@.skip(i as int + 1));
        }
        match &links[i].link_type {
            Some(t) => {
                if crate::utils::strings::str_eq_str(string_as_str(t), "text/html") {
                    return Some(links[i].href.clone());
                }
            },
            None => {},
        }
        i = i + 1;
    }
    proof {
        assert(links@.skip(n as int).len() == 0);
    }
    None
}

/// Shapes one parsed feed entry into the normalized schema: the paper
/// URL, the trimmed title and summary, the feed's domain, and the raw
/// payload carried through untouched.
pub fn entry_to_result(entry: &ArxivEntryData, raw: Option<serde_json::Value>) -> (r:
    SearchResultType)
    ensures
        r.url@ == paper_url_of(*entry),
        r.title@ == trimmed(entry.title@),
        r.snippet matches Some(s) && s@ == trimmed(entry.summary@),
        r.domain matches Some(d) && d@ == "arxiv.org"@,
        r.published_date matches Some(p) && p == entry.published,
        r.provider matches Some(p) && p@ == "arxiv"@,
        r.raw == raw,
{
    let url = match find_html_href(&entry.links) {
        Some(h) => h,
        None => {
            let arxiv_id = str_after_last_slash(string_as_str(&entry.id));
            let mut u = str_to_owned("https://arxiv.org/abs/");
            u.append(string_as_str(&arxiv_id));
            u
        },
    };
    SearchResultType {
        url,
        title: str_trim(string_as_str(&entry.title)),
        snippet: Some(str_trim(string_as_str(&entry.summary))),
        domain: Some(str_to_owned("arxiv.org")),
        published_date: Some(entry.published.clone()),
        provider: Some(str_to_owned("arxiv")),
        raw,
    }
}

/// The comma-joined author list of a feed entry, or nothing when the
/// entry names no authors.
pub fn authors_label(authors: &Vec<String>) -> (r: Option<String>)
    ensures
        match r {
            Some(s) => authors@.len() > 0 && s@ == joined(
                authors@.map_values(|a: String| a@),
                ", "@,
            ),
            None => authors@.len() == 0,
        },
{
    if authors.len() == 0 {
        None
    } else {
        Some(crate::utils::strings::join_strings(authors, ", "))
    }
}

} // verus!
