//! URL helpers shared by the provider implementations: building request
//! URLs, extracting domains, and normalizing text and URLs.

use vstd::prelude::*;
use vstd::string::StrSliceExecFns;
use vstd::string::StringExecFns;
use crate::error::SearchError;
use crate::utils::strings::{
    has_prefix, is_whitespace_char, is_ws_char, push_char, str_has_prefix, str_to_owned,
    string_as_str,
};

verus! {

/// Declares `url::Url` so parsed URLs can pass through signatures; the
/// value is opaque here.
#[verifier::external_type_specification]
#[verifier::external_body]
pub struct ExUrl(url::Url);

/// Declares `url::ParseError`, the error of `url::Url::parse`.
#[verifier::external_type_specification]
#[verifier::external_body]
pub struct ExUrlParseError(url::ParseError);

/// Whether `url::Url::parse` accepts `s`; parsing depends on the input
/// string alone.
pub uninterp spec fn url_parse_ok(s: Seq<char>) -> bool;

/// The host component that the `url` crate finds in `s`, if `s` parses
/// as an absolute URL with a host; a function of the string alone.
pub uninterp spec fn host_of(s: Seq<char>) -> Option<Seq<char>>;

/// Relies on `url::Url::parse`: parses an absolute URL from a string,
/// failing exactly on strings the crate rejects.
#[verifier::external_body]
fn url_parse(s: &str) -> (r: Result<url::Url, url::ParseError>)
    ensures
        r is Ok == url_parse_ok(s@),
{
    url::Url::parse(s)
}

/// Relies on `url::Url::query_pairs_mut` and
/// `form_urlencoded::Serializer::append_pair`: appends one
/// percent-encoded key/value pair to the URL's query string.
#[verifier::external_body]
fn url_append_pair(u: &mut url::Url, key: &str, value: &str) {
    u.query_pairs_mut().append_pair(key, value);
}

/// Relies on `url::Url::as_str`: the serialization of the URL.
#[verifier::external_body]
fn url_serialize(u: &url::Url) -> String {
    u.as_str().to_string()
}

/// Relies on `url::ParseError`'s `Display` implementation for the
/// human-readable description of a parse failure.
#[verifier::external_body]
fn url_parse_error_text(e: &url::ParseError) -> String {
    e.to_string()
}

/// Builds a URL from a base and query parameters, in the given order.
///
/// Succeeds exactly when the base URL parses; the query pairs are
/// percent-encoded and appended by the `url` crate. On failure the
/// error names the invalid URL.
pub fn build_url(base_url: &str, params: &Vec<(String, String)>) -> (r: Result<
    String,
    SearchError,
>)
    ensures
        r is Ok <==> url_parse_ok(base_url@),
        r matches Err(e) ==> e matches SearchError::InvalidInput(m) && has_prefix(
            m@,
            "Invalid URL: "@,
        ),
{
    let mut url = match url_parse(base_url) {
        Ok(u) => u,
        Err(e) => {
            let mut msg = str_to_owned("Invalid URL: ");
            let detail = url_parse_error_text(&e);
            msg.append(string_as_str(&detail));
            proof {
                assert(has_prefix(msg@, "Invalid URL: "@)) by {
                    assert(msg@.subrange(0, "Invalid URL: "@.len() as int) =~= "Invalid URL: "@);
                }
            }
            return Err(SearchError::InvalidInput(msg));
        },
    };
    let n = params.len();
    let mut i: usize = 0;
    while i < n
        invariant
            n == params.len(),
        decreases n - i,
    {
        url_append_pair(&mut url, string_as_str(&params[i].0), string_as_str(&params[i].1));
        i = i + 1;
    }
    Ok(url_serialize(&url))
}

/// Extracts the host/domain from a URL string.
///
/// Relies on `url::Url::parse` and `url::Url::host_str`: together they
/// are a function of the input string alone, named by [`host_of`].
#[verifier::external_body]
pub fn extract_domain(url: &str) -> (r: Option<String>)
    ensures
        match r {
            Some(h) => host_of(url@) == Some(h@),
            None => host_of(url@) is None,
        },
{
    url::Url::parse(url).ok().and_then(|parsed| parsed.host_str().map(|host| host.to_string()))
}

/// Tells whether a URL string parses, and hands out its host when it
/// does.
///
/// Relies on `url::Url::parse` and `url::Url::host_str`: together they
/// are a function of the input string alone, named by [`url_parse_ok`]
/// and [`host_of`].
#[verifier::external_body]
pub fn host_if_parses(url: &str) -> (r: (bool, Option<String>))
    ensures
        r.0 == url_parse_ok(url@),
        r.0 ==> match r.1 {
            Some(h) => host_of(url@) == Some(h@),
            None => host_of(url@) is None,
        },
{
    match url::Url::parse(url) {
        Ok(u) => (true, u.host_str().map(|host| host.to_string())),
        Err(_) => (false, None),
    }
}

/// One step of whitespace normalization: whitespace runs set a pending
/// separator, which becomes a single space before the next word
/// character once a first word has started.
pub open spec fn norm_step(s: Seq<char>, pending: bool, started: bool) -> Seq<char>
    decreases s.len(),
{
    if s.len() == 0 {
        Seq::empty()
    } else if is_ws_char(s[0]) {
        norm_step(s.drop_first(), true, started)
    } else if pending && started {
        seq![' ', s[0]] + norm_step(s.drop_first(), false, true)
    } else {
        seq![s[0]] + norm_step(s.drop_first(), false, true)
    }
}

/// Text with leading and trailing whitespace removed and every interior
/// whitespace run collapsed to a single space.
pub open spec fn normalized_text(s: Seq<char>) -> Seq<char> {
    norm_step(s, false, false)
}

/// Normalizes text by removing excess whitespace.
pub fn normalize_text(text: &str) -> (r: String)
    ensures
        r@ == normalized_text(text@),
{
    let n = text.unicode_len();
    let mut out = String::new();
    let mut pending = false;
    let mut started = false;
    let mut i: usize = 0;
    proof {
        assert(text@.skip(0) =~= text@);
    }
    while i < n
        invariant
            i <= n,
            n == text@.len(),
            normalized_text(text@) == out@ + norm_step(text@.skip(i as int), pending, started),
        decreases n - i,
    {
        let c = text.get_char(i);
        proof {
            assert(text@.skip(i as int)[0] == c);
            assert(text@.skip(i as int).drop_first() =~= text@.skip(i as int + 1));
        }
        if is_whitespace_char(c) {
            pending = true;
        } else {
            if pending && started {
                push_char(&mut out, ' ');
            }
            push_char(&mut out, c);
            pending = false;
            started = true;
        }
        i = i + 1;
    }
    proof {
        assert(text@.skip(n as int).len() == 0);
        assert(out@ + norm_step(text@.skip(n as int), pending, started) =~= out@);
    }
    out
}

/// Normalizes a URL by ensuring it has a proper scheme: protocol-relative
/// URLs get `https:`, bare URLs get `https://`, and URLs that already
/// start with `http://` or `https://` are unchanged.
pub open spec fn normalized_url(u: Seq<char>) -> Seq<char> {
    if has_prefix(u, "//"@) {
        "https:"@ + u
    } else if !has_prefix(u, "http://"@) && !has_prefix(u, "https://"@) {
        "https://"@ + u
    } else {
        u
    }
}

/// Normalizes a URL by ensuring it has a proper scheme.
pub fn normalize_url(url: &str) -> (r: String)
    ensures
        r@ == normalized_url(url@),
{
    if str_has_prefix(url, "//") {
        let mut s = str_to_owned("https:");
        s.append(url);
        s
    } else if !str_has_prefix(url, "http://") && !str_has_prefix(url, "https://") {
        let mut s = str_to_owned("https://");
        s.append(url);
        s
    } else {
        str_to_owned(url)
    }
}

} // verus!
