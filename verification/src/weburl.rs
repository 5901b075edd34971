//! URLs as the `url` crate (re-exported by `reqwest`) parses and edits them.
//!
//! A [`WebUrl`] holds the serialization of a parsed URL. Every reading or
//! editing operation parses that serialization again and calls one method of
//! `reqwest::Url`; what the method returns is named by an uninterpreted spec
//! function, since the WHATWG URL algorithm is far beyond a few lines.

use vstd::prelude::*;

verus! {

/// A parsed URL, held by its serialization.
#[derive(Debug)]
pub struct WebUrl {
    serialization: String,
}

impl View for WebUrl {
    type V = Seq<char>;

    closed spec fn view(&self) -> Seq<char> {
        self.serialization@
    }
}

/// The serialization of `Url::parse(input)`, or `None` where it fails.
pub uninterp spec fn spec_url_parse(input: Seq<char>) -> Option<Seq<char>>;

/// The serialization of `Url::join(base, input)`.
pub uninterp spec fn spec_url_join(base: Seq<char>, input: Seq<char>) -> Option<Seq<char>>;

/// `Url::host_str` of the URL serialized as `url`.
pub uninterp spec fn spec_url_host(url: Seq<char>) -> Option<Seq<char>>;

/// `Url::scheme` of the URL serialized as `url`.
pub uninterp spec fn spec_url_scheme(url: Seq<char>) -> Seq<char>;

/// `Url::path` of the URL serialized as `url`.
pub uninterp spec fn spec_url_path(url: Seq<char>) -> Seq<char>;

/// `Url::query_pairs` of the URL serialized as `url`, percent-decoded.
pub uninterp spec fn spec_url_query_pairs(url: Seq<char>) -> Seq<(Seq<char>, Seq<char>)>;

/// The serialization after `Url::set_host(Some(host))`, or `None` where it fails.
pub uninterp spec fn spec_url_set_host(url: Seq<char>, host: Seq<char>) -> Option<Seq<char>>;

/// The serialization after `Url::set_scheme(scheme)`, or `None` where it fails.
pub uninterp spec fn spec_url_set_scheme(url: Seq<char>, scheme: Seq<char>) -> Option<Seq<char>>;

/// The serialization of `Url::parse_with_params(input, params)`: `input`
/// parsed, with `params` appended to its query; `None` where parsing fails.
pub uninterp spec fn spec_url_parse_with_params(input: Seq<char>, params: Seq<(Seq<char>, Seq<char>)>) -> Option<Seq<char>>;

/// The serialization after `Url::set_fragment(None)`.
pub uninterp spec fn spec_url_clear_fragment(url: Seq<char>) -> Seq<char>;

/// `Url::fragment` of the URL serialized as `url`.
pub uninterp spec fn spec_url_fragment(url: Seq<char>) -> Option<Seq<char>>;

/// Whether `scheme` is already a scheme as `Url::set_scheme` writes it: an
/// ASCII lowercase letter, then lowercase letters, digits, `+`, `-` and `.`.
pub open spec fn is_lowercase_scheme(scheme: Seq<char>) -> bool {
    &&& scheme.len() > 0
    &&& 'a' <= scheme[0] <= 'z'
    &&& forall|i: int|
        0 <= i < scheme.len() ==> {
            let c = #[trigger] scheme[i];
            ||| 'a' <= c <= 'z'
            ||| '0' <= c <= '9'
            ||| c == '+'
            ||| c == '-'
            ||| c == '.'
        }
}

/// `Url::parse`: the URL's serialization, or `None` where parsing fails.
#[verifier::external_body]
fn url_parse(input: &str) -> (r: Option<WebUrl>)
    ensures
        r matches Some(u) ==> spec_url_parse(input@) == Some(u@),
        r is None ==> spec_url_parse(input@) is None,
{
    let url = reqwest::Url::parse(input).ok()?;
    Some(WebUrl { serialization: url.as_str().to_string() })
}

/// `Url::parse_with_params`: parses `input` and appends `params` to its query.
#[verifier::external_body]
fn url_parse_with_params(input: &str, params: &Vec<(String, String)>) -> (r: Option<WebUrl>)
    ensures
        r matches Some(u) ==> spec_url_parse_with_params(input@, pairs_view(params@)) == Some(u@),
        r is None ==> spec_url_parse_with_params(input@, pairs_view(params@)) is None,
{
    let url = reqwest::Url::parse_with_params(input, params.iter()).ok()?;
    Some(WebUrl { serialization: url.as_str().to_string() })
}

/// The names and values of `params`.
pub open spec fn pairs_view(params: Seq<(String, String)>) -> Seq<(Seq<char>, Seq<char>)> {
    params.map_values(|p: (String, String)| (p.0@, p.1@))
}

/// `Url::join`: resolves `input` against `base`.
#[verifier::external_body]
fn url_join(base: &WebUrl, input: &str) -> (r: Option<WebUrl>)
    ensures
        r matches Some(u) ==> spec_url_join(base@, input@) == Some(u@),
        r is None ==> spec_url_join(base@, input@) is None,
{
    let base = reqwest::Url::parse(&base.serialization).ok()?;
    let url = base.join(input).ok()?;
    Some(WebUrl { serialization: url.as_str().to_string() })
}

/// `Url::host_str`.
#[verifier::external_body]
fn url_host(url: &WebUrl) -> (r: Option<String>)
    ensures
        r matches Some(h) ==> spec_url_host(url@) == Some(h@),
        r is None ==> spec_url_host(url@) is None,
{
    let url = reqwest::Url::parse(&url.serialization).ok()?;
    url.host_str().map(|host| host.to_string())
}

/// `Url::scheme`.
#[verifier::external_body]
fn url_scheme(url: &WebUrl) -> (r: String)
    ensures
        r@ == spec_url_scheme(url@),
{
    match reqwest::Url::parse(&url.serialization) {
        Ok(url) => url.scheme().to_string(),
        Err(_) => String::new(),
    }
}

/// `Url::path`.
#[verifier::external_body]
fn url_path(url: &WebUrl) -> (r: String)
    ensures
        r@ == spec_url_path(url@),
{
    match reqwest::Url::parse(&url.serialization) {
        Ok(url) => url.path().to_string(),
        Err(_) => String::new(),
    }
}

/// `Url::query_pairs`, each name and value percent-decoded.
#[verifier::external_body]
fn url_query_pairs(url: &WebUrl) -> (r: Vec<(String, String)>)
    ensures
        r@.map_values(|p: (String, String)| (p.0@, p.1@)) == spec_url_query_pairs(url@),
{
    match reqwest::Url::parse(&url.serialization) {
        Ok(url) => url.query_pairs().map(|(k, v)| (k.into_owned(), v.into_owned())).collect(),
        Err(_) => Vec::new(),
    }
}

/// `Url::set_host(Some(host))`.
#[verifier::external_body]
fn url_set_host(url: &WebUrl, host: &str) -> (r: Option<WebUrl>)
    ensures
        r matches Some(u) ==> spec_url_set_host(url@, host@) == Some(u@),
        r is None ==> spec_url_set_host(url@, host@) is None,
{
    let mut url = reqwest::Url::parse(&url.serialization).ok()?;
    url.set_host(Some(host)).ok()?;
    Some(WebUrl { serialization: url.as_str().to_string() })
}

/// `Url::set_scheme(scheme)`. Where it succeeds with a scheme written as
/// the URL parser writes schemes, the result has that scheme.
#[verifier::external_body]
fn url_set_scheme(url: &WebUrl, scheme: &str) -> (r: Option<WebUrl>)
    ensures
        r matches Some(u) ==> spec_url_set_scheme(url@, scheme@) == Some(u@),
        r is None ==> spec_url_set_scheme(url@, scheme@) is None,
        r matches Some(u) ==> (is_lowercase_scheme(scheme@) ==> spec_url_scheme(u@) == scheme@),
{
    let mut url = reqwest::Url::parse(&url.serialization).ok()?;
    url.set_scheme(scheme).ok()?;
    Some(WebUrl { serialization: url.as_str().to_string() })
}

/// `Url::set_fragment(None)`: the serialization cut before its fragment, so
/// the result has no fragment and keeps the scheme and the host.
#[verifier::external_body]
fn url_clear_fragment(url: &WebUrl) -> (r: WebUrl)
    ensures
        r@ == spec_url_clear_fragment(url@),
        spec_url_fragment(r@) is None,
        spec_url_scheme(r@) == spec_url_scheme(url@),
        spec_url_host(r@) == spec_url_host(url@),
{
    match reqwest::Url::parse(&url.serialization) {
        Ok(mut parsed) => {
            parsed.set_fragment(None);
            WebUrl { serialization: parsed.as_str().to_string() }
        },
        Err(_) => WebUrl { serialization: url.serialization.clone() },
    }
}


impl Clone for WebUrl {
    fn clone(&self) -> (r: Self)
        ensures
            r@ == self@,
    {
        WebUrl { serialization: self.serialization.clone() }
    }
}

impl WebUrl {
    /// Parses `input` as an absolute URL.
    pub fn parse(input: &str) -> (r: Option<WebUrl>)
        ensures
            r matches Some(u) ==> spec_url_parse(input@) == Some(u@),
            r is None <==> spec_url_parse(input@) is None,
    {
        url_parse(input)
    }

    /// Parses `input` as an absolute URL and appends `params` to its query.
    pub fn parse_with_params(input: &str, params: &Vec<(String, String)>) -> (r: Option<WebUrl>)
        ensures
            r matches Some(u) ==> spec_url_parse_with_params(input@, pairs_view(params@)) == Some(u@),
            r is None <==> spec_url_parse_with_params(input@, pairs_view(params@)) is None,
    {
        url_parse_with_params(input, params)
    }

    /// The URL's serialization.
    pub fn as_str(&self) -> (r: &str)
        ensures
            r@ == self@,
    {
        self.serialization.as_str()
    }

    /// The URL's host, where it has one.
    pub fn host_str(&self) -> (r: Option<String>)
        ensures
            r matches Some(h) ==> spec_url_host(self@) == Some(h@),
            r is None <==> spec_url_host(self@) is None,
    {
        url_host(self)
    }

    /// The URL's scheme.
    pub fn scheme(&self) -> (r: String)
        ensures
            r@ == spec_url_scheme(self@),
    {
        url_scheme(self)
    }

    /// The URL's path.
    pub fn path(&self) -> (r: String)
        ensures
            r@ == spec_url_path(self@),
    {
        url_path(self)
    }

    /// The decoded name and value pairs of the URL's query.
    pub fn query_pairs(&self) -> (r: Vec<(String, String)>)
        ensures
            r@.map_values(|p: (String, String)| (p.0@, p.1@)) == spec_url_query_pairs(self@),
    {
        url_query_pairs(self)
    }

    /// Resolves `input` against this URL.
    pub fn join(&self, input: &str) -> (r: Option<WebUrl>)
        ensures
            r matches Some(u) ==> spec_url_join(self@, input@) == Some(u@),
            r is None <==> spec_url_join(self@, input@) is None,
    {
        url_join(self, input)
    }

    /// This URL with its host replaced by `host`.
    pub fn with_host(&self, host: &str) -> (r: Option<WebUrl>)
        ensures
            r matches Some(u) ==> spec_url_set_host(self@, host@) == Some(u@),
            r is None <==> spec_url_set_host(self@, host@) is None,
    {
        url_set_host(self, host)
    }

    /// This URL with its scheme replaced by `scheme`.
    pub fn with_scheme(&self, scheme: &str) -> (r: Option<WebUrl>)
        ensures
            r matches Some(u) ==> spec_url_set_scheme(self@, scheme@) == Some(u@),
            r is None <==> spec_url_set_scheme(self@, scheme@) is None,
            r matches Some(u) ==> (is_lowercase_scheme(scheme@) ==> spec_url_scheme(u@) == scheme@),
    {
        url_set_scheme(self, scheme)
    }

    /// This URL without its fragment.
    pub fn without_fragment(&self) -> (r: WebUrl)
        ensures
            r@ == spec_url_clear_fragment(self@),
            spec_url_fragment(r@) is None,
            spec_url_scheme(r@) == spec_url_scheme(self@),
            spec_url_host(r@) == spec_url_host(self@),
    {
        url_clear_fragment(self)
    }
}

} // verus!
