//! Article lists of the graduate school site: their addresses, the articles
//! read from a list page and the identifiers given to them.

use vstd::prelude::*;
use crate::graduate_school::sections::{ArticleSection, SITE_BASE_URL, site_base_url};
use crate::text::{
    all_digits, all_digits_exec, chars_of, chars_seqs, decimal, find_first, find_last,
    parse_u64, parse_u64_chars, split_char, split_char_exec, string_of, sub_chars, u64_decimal,
    contains, first_index, last_index, lemma_first_index,
    lemma_last_index,
};
use crate::weburl::{
    WebUrl, spec_url_join, spec_url_parse, spec_url_path, spec_url_host, spec_url_scheme,
    spec_url_set_scheme, spec_url_clear_fragment, spec_url_fragment, is_lowercase_scheme,
};
use crate::html::{HtmlMatch, HtmlMatchView, HtmlNodeView, select, spec_html_select, strings_view, matches_view, well_shaped, nodes_view};
use crate::text::{trim, trim_str, chars_eq};

verus! {

/// Why the graduate school site could not be read.
#[derive(Debug, Clone, Copy, PartialEq, Eq, Structural)]
pub enum GraduateSchoolError {
    /// Page numbers start from 1.
    ZeroPage,
    /// A built-in CSS selector does not parse.
    InvalidSelector,
    /// The site's base address does not parse.
    InvalidBaseUrl,
    /// The path of a list page cannot be resolved against the site.
    InvalidListPath,
    /// The address of a fetched page does not parse.
    InvalidPageUrl,
    /// The link of an entry cannot be resolved against its page.
    InvalidEntryUrl,
    /// An address of the site cannot be moved to https.
    Normalize,
}

/// The path of list page `page` of `section`, relative to the site.
pub open spec fn list_page_path(section: ArticleSection, page: nat) -> Seq<char> {
    if page == 1 {
        section.spec_list_path() + "/list.htm"@
    } else {
        section.spec_list_path() + "/list"@ + decimal(page) + ".htm"@
    }
}

/// The address of list page `page` of `section`.
pub open spec fn list_url_spec(section: ArticleSection, page: nat) -> Result<Seq<char>, GraduateSchoolError> {
    if page == 0 {
        Err(GraduateSchoolError::ZeroPage)
    } else {
        match spec_url_parse(site_base_url()) {
            None => Err(GraduateSchoolError::InvalidBaseUrl),
            Some(base) => match spec_url_join(base, list_page_path(section, page)) {
                Some(u) => Ok(u),
                None => Err(GraduateSchoolError::InvalidListPath),
            },
        }
    }
}


/// The path of list page `page` of `section`.
pub fn list_page_path_exec(section: ArticleSection, page: u64) -> (r: String)
    requires
        page >= 1,
    ensures
        r@ == list_page_path(section, page as nat),
{
    let mut path = String::from_str(section.list_path());
    if page == 1 {
        path.append("/list.htm");
    } else {
        path.append("/list");
        let digits = string_of(u64_decimal(page).as_slice());
        path.append(digits.as_str());
        path.append(".htm");
    }
    path
}

/// The address of list page `page_index` of `section`; pages are numbered from 1.
pub fn list_url(section: ArticleSection, page_index: u64) -> (r: Result<WebUrl, GraduateSchoolError>)
    ensures
        match list_url_spec(section, page_index as nat) {
            Ok(u) => r matches Ok(v) && v@ == u,
            Err(e) => r == Err::<WebUrl, GraduateSchoolError>(e),
        },
{
    if page_index == 0 {
        return Err(GraduateSchoolError::ZeroPage);
    }
    let path = list_page_path_exec(section, page_index);
    let base = match WebUrl::parse(SITE_BASE_URL) {
        Some(base) => base,
        None => return Err(GraduateSchoolError::InvalidBaseUrl),
    };
    match base.join(path.as_str()) {
        Some(url) => Ok(url),
        None => Err(GraduateSchoolError::InvalidListPath),
    }
}

/// The 64-bit FNV-1a hash of `bytes`.
pub open spec fn fnv1a(bytes: Seq<u8>) -> u64
    decreases bytes.len(),
{
    if bytes.len() == 0 {
        0xcbf2_9ce4_8422_2325u64
    } else {
        vstd::wrapping::u64_specs::wrapping_mul(
            fnv1a(bytes.drop_last()) ^ (bytes.last() as u64),
            0x0000_0100_0000_01b3u64,
        )
    }
}

/// A hash of `text` that stays the same from run to run: FNV-1a of its UTF-8
/// bytes, with the top bit cleared.
pub open spec fn stable_hash_spec(text: Seq<char>) -> u64 {
    fnv1a(vstd::utf8::encode_utf8(text)) & 0x7fff_ffff_ffff_ffffu64
}

/// A hash of `text` that stays the same from run to run.
pub fn stable_hash(text: &str) -> (r: u64)
    ensures
        r == stable_hash_spec(text@),
        r < 0x8000_0000_0000_0000u64,
{
    let bytes = text.as_bytes();
    let mut hash: u64 = 0xcbf2_9ce4_8422_2325;
    let mut i: usize = 0;
    while i < bytes.len()
        invariant
            i <= bytes@.len(),
            bytes@ == vstd::utf8::encode_utf8(text@),
            hash == fnv1a(bytes@.take(i as int)),
        decreases bytes@.len() - i,
    {
        assert(bytes@.take(i + 1).drop_last() == bytes@.take(i as int));
        hash = (hash ^ (bytes[i] as u64)).wrapping_mul(0x0000_0100_0000_01b3);
        i += 1;
    }
    assert(bytes@.take(bytes@.len() as int) == bytes@);
    let r = hash & 0x7fff_ffff_ffff_ffff;
    assert(hash & 0x7fff_ffff_ffff_ffffu64 < 0x8000_0000_0000_0000u64) by (bit_vector);
    r
}


/// The identifier that a path segment of shape `c<digits>a<digits>` carries:
/// `None` where the segment has another shape, `Some(None)` where the digits
/// after the last `a` do not fit in 64 bits.
pub open spec fn segment_article_id(seg: Seq<char>) -> Option<Option<u64>> {
    if contains(seg, seq!['a']) {
        let column = seg.take(first_index(seg, seq!['a']));
        let id = seg.skip(last_index(seg, seq!['a']) + 1);
        if column.len() > 1 && column[0] == 'c' && all_digits(column.skip(1)) && id.len() > 0
            && all_digits(id) {
            Some(parse_u64(id))
        } else {
            None
        }
    } else {
        None
    }
}

/// What the first segment of the right shape in `segments` carries.
pub open spec fn first_segment_article_id(segments: Seq<Seq<char>>) -> Option<u64>
    decreases segments.len(),
{
    if segments.len() == 0 {
        None
    } else {
        match segment_article_id(segments[0]) {
            Some(id) => id,
            None => first_segment_article_id(segments.drop_first()),
        }
    }
}

/// The identifier that the site itself gives the article at `path`.
pub open spec fn internal_article_id_spec(path: Seq<char>) -> Option<u64> {
    if path.len() > 0 && path[0] == '/' {
        first_segment_article_id(split_char(path.drop_first(), '/'))
    } else {
        None
    }
}

/// The identifier of the article at `url`: the site's own where the address
/// carries one, a stable hash of the address with the top bit set otherwise.
pub open spec fn article_id_spec(url: Seq<char>) -> u64 {
    match internal_article_id_spec(spec_url_path(url)) {
        Some(id) => id,
        None => 0x8000_0000_0000_0000u64 | stable_hash_spec(url),
    }
}

/// What one path segment carries.
pub fn segment_article_id_exec(seg: &[char]) -> (r: Option<Option<u64>>)
    ensures
        r == segment_article_id(seg@),
{
    let a: [char; 1] = ['a'];
    let first = find_first(seg, &a);
    let last = find_last(seg, &a);
    assert(a@ == seq!['a']);
    match (first, last) {
        (Some(f), Some(l)) => {
            proof {
                lemma_first_index(seg@, seq!['a'], f as int);
                lemma_last_index(seg@, seq!['a'], l as int);
            }
            assert(l + 1 <= seg@.len());
            assert(seg@.len() == seg.len());
            let column = sub_chars(seg, 0, f);
            let id = sub_chars(seg, l + 1, seg.len());
            assert(column@ == seg@.take(f as int));
            assert(id@ == seg@.skip(l + 1));
            if column.len() > 1 && column[0] == 'c' {
                let rest = sub_chars(column.as_slice(), 1, column.len());
                assert(rest@ == column@.skip(1));
                if all_digits_exec(rest.as_slice()) && id.len() > 0 && all_digits_exec(id.as_slice()) {
                    return Some(parse_u64_chars(id.as_slice()));
                }
            }
            None
        },
        _ => None,
    }
}

/// The identifier that the site itself gives the article at `url`.
pub fn internal_article_id(url: &WebUrl) -> (r: Option<u64>)
    ensures
        r == internal_article_id_spec(spec_url_path(url@)),
{
    let path = chars_of(url.path().as_str());
    if path.len() == 0 || path[0] != '/' {
        return None;
    }
    let segments = split_char_exec(path.as_slice(), 1, '/');
    assert(path@.skip(1) == path@.drop_first());
    let ghost segs = chars_seqs(segments@);
    assert(segs.skip(0) == segs);
    let mut i: usize = 0;
    while i < segments.len()
        invariant
            i <= segments@.len(),
            segs == chars_seqs(segments@),
            path@ == spec_url_path(url@),
            internal_article_id_spec(path@) == first_segment_article_id(segs.skip(i as int)),
        decreases segments@.len() - i,
    {
        assert(segs.skip(i as int)[0] == segments@[i as int]@);
        assert(segs.skip(i as int).drop_first() == segs.skip(i + 1));
        match segment_article_id_exec(segments[i].as_slice()) {
            Some(id) => return id,
            None => {},
        }
        i += 1;
    }
    None
}

/// The identifier of the article at `url`.
pub fn article_id(url: &WebUrl) -> (r: u64)
    ensures
        r == article_id_spec(url@),
{
    match internal_article_id(url) {
        Some(id) => id,
        None => 0x8000_0000_0000_0000 | stable_hash(url.as_str()),
    }
}


/// The host of the graduate school site.
pub open spec fn site_host() -> Seq<char> {
    "grawww.nju.edu.cn"@
}

/// An address of the site with `http` moved to `https` and the fragment
/// dropped; `None` where the scheme cannot be changed.
pub open spec fn normalize_site_url_spec(url: Seq<char>) -> Option<Seq<char>> {
    let moved = if spec_url_host(url) == Some(site_host()) && spec_url_scheme(url) == "http"@ {
        spec_url_set_scheme(url, "https"@)
    } else {
        Some(url)
    };
    match moved {
        Some(m) => Some(spec_url_clear_fragment(m)),
        None => None,
    }
}

/// Whether `u` is an address as the site's normalization leaves it: without
/// a fragment, and not `http` where it is on the site.
pub open spec fn is_normal_site_url(u: Seq<char>) -> bool {
    &&& spec_url_fragment(u) is None
    &&& spec_url_host(u) == Some(site_host()) ==> spec_url_scheme(u) != "http"@
}

/// Moves an address of the site to `https` and drops its fragment.
pub fn normalize_site_url(url: &WebUrl) -> (r: Result<WebUrl, GraduateSchoolError>)
    ensures
        match normalize_site_url_spec(url@) {
            Some(u) => r matches Ok(v) && v@ == u,
            None => r == Err::<WebUrl, GraduateSchoolError>(GraduateSchoolError::Normalize),
        },
        r matches Ok(v) ==> is_normal_site_url(v@),
{
    proof {
        reveal_strlit("http");
        reveal_strlit("https");
    }
    assert(is_lowercase_scheme("https"@));
    assert("https"@ != "http"@) by {
        assert("https"@.len() != "http"@.len());
    }
    let on_site = match url.host_str() {
        Some(host) => {
            let h = chars_of(host.as_str());
            let site = chars_of("grawww.nju.edu.cn");
            chars_eq(h.as_slice(), site.as_slice())
        },
        None => false,
    };
    let scheme = chars_of(url.scheme().as_str());
    let http = chars_of("http");
    if on_site && chars_eq(scheme.as_slice(), http.as_slice()) {
        match url.with_scheme("https") {
            Some(moved) => Ok(moved.without_fragment()),
            None => Err(GraduateSchoolError::Normalize),
        }
    } else {
        Ok(url.without_fragment())
    }
}

/// The address `url` resolved against the site and normalized.
pub open spec fn resolve_site_url_spec(url: Seq<char>) -> Result<Seq<char>, GraduateSchoolError> {
    match spec_url_parse(site_base_url()) {
        None => Err(GraduateSchoolError::InvalidBaseUrl),
        Some(base) => match spec_url_join(base, url) {
            None => Err(GraduateSchoolError::InvalidEntryUrl),
            Some(j) => match normalize_site_url_spec(j) {
                Some(u) => Ok(u),
                None => Err(GraduateSchoolError::Normalize),
            },
        },
    }
}

/// Resolves `url` against the site and normalizes it.
pub fn resolve_site_url(url: &str) -> (r: Result<WebUrl, GraduateSchoolError>)
    ensures
        match resolve_site_url_spec(url@) {
            Ok(u) => r matches Ok(v) && v@ == u,
            Err(e) => r == Err::<WebUrl, GraduateSchoolError>(e),
        },
        r matches Ok(v) ==> is_normal_site_url(v@),
{
    let base = match WebUrl::parse(SITE_BASE_URL) {
        Some(base) => base,
        None => return Err(GraduateSchoolError::InvalidBaseUrl),
    };
    match base.join(url) {
        Some(joined) => normalize_site_url(&joined),
        None => Err(GraduateSchoolError::InvalidEntryUrl),
    }
}

/// An entry of an article list.
#[derive(Debug)]
pub struct Article {
    pub id: u64,
    pub title: String,
    pub publish_time: String,
    pub url: String,
}

/// The view of an [`Article`].
pub struct ArticleView {
    pub id: u64,
    pub title: Seq<char>,
    pub publish_time: Seq<char>,
    pub url: Seq<char>,
}

impl View for Article {
    type V = ArticleView;

    open spec fn view(&self) -> ArticleView {
        ArticleView {
            id: self.id,
            title: self.title@,
            publish_time: self.publish_time@,
            url: self.url@,
        }
    }
}

impl Clone for Article {
    fn clone(&self) -> (r: Self)
        ensures
            r@ == self@,
    {
        Article {
            id: self.id,
            title: self.title.clone(),
            publish_time: self.publish_time.clone(),
            url: self.url.clone(),
        }
    }
}

/// One page of an article list.
#[derive(Debug)]
pub struct ArticlePage {
    pub section: ArticleSection,
    pub page_index: u64,
    pub page_size: Option<u64>,
    pub total: Option<u64>,
    pub total_pages: Option<u64>,
    pub articles: Vec<Article>,
}

/// The view of an [`ArticlePage`].
pub struct ArticlePageView {
    pub section: ArticleSection,
    pub page_index: u64,
    pub page_size: Option<u64>,
    pub total: Option<u64>,
    pub total_pages: Option<u64>,
    pub articles: Seq<ArticleView>,
}

pub open spec fn articles_view(v: Seq<Article>) -> Seq<ArticleView> {
    v.map_values(|a: Article| a@)
}

impl View for ArticlePage {
    type V = ArticlePageView;

    open spec fn view(&self) -> ArticlePageView {
        ArticlePageView {
            section: self.section,
            page_index: self.page_index,
            page_size: self.page_size,
            total: self.total,
            total_pages: self.total_pages,
            articles: articles_view(self.articles@),
        }
    }
}

/// The selector of the entries of the main article list.
pub open spec fn item_css() -> Seq<char> {
    ".col_news_list ul.news_list li.news"@
}

/// The selectors read inside an entry: its link, its date, and the month-day
/// and year parts of a split date.
pub open spec fn item_inner_css() -> Seq<Seq<char>> {
    seq![".news_title a"@, ".news_meta"@, ".news_year"@, ".news_days"@]
}

/// The attributes read of the elements of an entry.
pub open spec fn item_attrs() -> Seq<Seq<char>> {
    seq!["href"@, "title"@]
}

/// The trimmed text of the first of `nodes`.
pub open spec fn first_text(nodes: Seq<HtmlNodeView>) -> Option<Seq<char>> {
    if nodes.len() > 0 {
        Some(trim(nodes[0].text))
    } else {
        None
    }
}

/// The title of an entry: its link's `title` attribute where that is not
/// blank, the link's text otherwise.
pub open spec fn item_title(link: HtmlNodeView) -> Seq<char> {
    match link.attrs[1] {
        Some(t) => if trim(t).len() > 0 {
            trim(t)
        } else {
            trim(link.text)
        },
        None => trim(link.text),
    }
}

/// The date of an entry: its date element where that is not blank, else
/// `year-month-day` from the split date, else empty.
pub open spec fn item_publish_time(m: HtmlMatchView) -> Seq<char> {
    let date = first_text(m.inner[1]);
    if date is Some && date->0.len() > 0 {
        date->0
    } else {
        match (first_text(m.inner[2]), first_text(m.inner[3])) {
            (Some(month_day), Some(year)) => year + "-"@ + month_day,
            _ => Seq::empty(),
        }
    }
}

/// The article of one entry, resolved against the page at `base`; `Ok(None)`
/// where the entry has no link or its link no address.
pub open spec fn item_article(m: HtmlMatchView, base: Seq<char>) -> Result<Option<ArticleView>, GraduateSchoolError> {
    if m.inner[0].len() == 0 {
        Ok(None)
    } else {
        let link = m.inner[0][0];
        match link.attrs[0] {
            None => Ok(None),
            Some(href) => match spec_url_join(base, href) {
                None => Err(GraduateSchoolError::InvalidEntryUrl),
                Some(joined) => match normalize_site_url_spec(joined) {
                    None => Err(GraduateSchoolError::Normalize),
                    Some(u) => Ok(
                        Some(
                            ArticleView {
                                id: article_id_spec(u),
                                title: item_title(link),
                                publish_time: item_publish_time(m),
                                url: u,
                            },
                        ),
                    ),
                },
            },
        }
    }
}

/// The title of a listed article is its link's `title` attribute where that
/// is not blank, and the trimmed text of the link otherwise; so a link with
/// text never gives an article without a title.
pub proof fn lemma_item_title(m: HtmlMatchView, base: Seq<char>)
    requires
        item_article(m, base) is Ok,
        item_article(m, base)->Ok_0 is Some,
    ensures
        ({
            let a = item_article(m, base)->Ok_0->Some_0;
            let link = m.inner[0][0];
            &&& (link.attrs[1] matches Some(t) && trim(t).len() > 0) ==> a.title == trim(
                link.attrs[1]->Some_0,
            )
            &&& !(link.attrs[1] matches Some(t) && trim(t).len() > 0) ==> a.title == trim(link.text)
            &&& trim(link.text).len() > 0 ==> a.title.len() > 0
        }),
{
}

/// The publish time of a listed article is the trimmed text of its first
/// date element where that is not blank; only otherwise is it put together
/// as `year-month-day` from the split date, and it is empty where that is
/// missing too.
pub proof fn lemma_item_publish_time(m: HtmlMatchView, base: Seq<char>)
    requires
        item_article(m, base) is Ok,
        item_article(m, base)->Ok_0 is Some,
    ensures
        ({
            let a = item_article(m, base)->Ok_0->Some_0;
            let dated = m.inner[1].len() > 0 && trim(m.inner[1][0].text).len() > 0;
            &&& dated ==> a.publish_time == trim(m.inner[1][0].text)
            &&& !dated && m.inner[2].len() > 0 && m.inner[3].len() > 0 ==> a.publish_time == trim(
                m.inner[3][0].text,
            ) + "-"@ + trim(m.inner[2][0].text)
            &&& !dated && (m.inner[2].len() == 0 || m.inner[3].len() == 0) ==> a.publish_time.len() == 0
        }),
{
}

/// The articles of the entries `items` in order, or the first entry's error.
pub open spec fn items_articles(items: Seq<HtmlMatchView>, base: Seq<char>) -> Result<Seq<ArticleView>, GraduateSchoolError>
    decreases items.len(),
{
    if items.len() == 0 {
        Ok(Seq::empty())
    } else {
        match items_articles(items.drop_last(), base) {
            Err(e) => Err(e),
            Ok(prev) => match item_article(items.last(), base) {
                Err(e) => Err(e),
                Ok(None) => Ok(prev),
                Ok(Some(a)) => Ok(prev.push(a)),
            },
        }
    }
}

/// An error among the first `k` entries is the error of the whole list.
pub proof fn lemma_items_error_extends(items: Seq<HtmlMatchView>, base: Seq<char>, k: int)
    requires
        0 <= k <= items.len(),
        items_articles(items.take(k), base) is Err,
    ensures
        items_articles(items, base) == items_articles(items.take(k), base),
    decreases items.len() - k,
{
    if k == items.len() {
        assert(items.take(k) == items);
    } else {
        assert(items.take(k + 1).drop_last() == items.take(k));
        lemma_items_error_extends(items, base, k + 1);
    }
}

/// The number that the first element matching `css` holds; the outer `None`
/// where the selector does not parse.
pub open spec fn first_u64_spec(html: Seq<char>, css: Seq<char>) -> Option<Option<u64>> {
    match spec_html_select(html, css, Seq::empty(), Seq::empty()) {
        None => None,
        Some(m) => Some(
            if m.len() > 0 {
                parse_u64(trim(m[0].node.text))
            } else {
                None
            },
        ),
    }
}

/// What a list page of `section` at `page_url` holding `html` lists.
pub open spec fn parse_article_list_spec(
    section: ArticleSection,
    page_index: u64,
    page_url: Seq<char>,
    html: Seq<char>,
) -> Result<ArticlePageView, GraduateSchoolError> {
    let page_size = first_u64_spec(html, ".per_count"@);
    let total = first_u64_spec(html, "em.all_count"@);
    let total_pages = first_u64_spec(html, ".pages .all_pages"@);
    match spec_html_select(html, item_css(), item_inner_css(), item_attrs()) {
        None => Err(GraduateSchoolError::InvalidSelector),
        Some(items) => if page_size is None || total is None || total_pages is None {
            Err(GraduateSchoolError::InvalidSelector)
        } else {
            match spec_url_parse(page_url) {
                None => Err(GraduateSchoolError::InvalidPageUrl),
                Some(base) => match items_articles(items, base) {
                    Err(e) => Err(e),
                    Ok(articles) => Ok(
                        ArticlePageView {
                            section,
                            page_index,
                            page_size: page_size->0,
                            total: total->0,
                            total_pages: total_pages->0,
                            articles,
                        },
                    ),
                },
            }
        },
    }
}


/// The strings `items`, each owned.
fn owned_strings(items: &[&str]) -> (r: Vec<String>)
    ensures
        strings_view(r@) == items@.map_values(|s: &str| s@),
{
    let mut r: Vec<String> = Vec::new();
    let mut i: usize = 0;
    while i < items.len()
        invariant
            i <= items@.len(),
            r@.len() == i,
            strings_view(r@) == items@.take(i as int).map_values(|s: &str| s@),
        decreases items@.len() - i,
    {
        let ghost old_r = r@;
        r.push(String::from_str(items[i]));
        assert(items@.take(i + 1) == items@.take(i as int).push(items@[i as int]));
        assert forall|k: int| 0 <= k < r@.len() implies #[trigger] strings_view(r@)[k]
            == items@.take(i + 1).map_values(|s: &str| s@)[k] by {
            if k < i {
                assert(r@[k] == old_r[k]);
                assert(strings_view(old_r)[k] == old_r[k]@);
            }
        }
        assert(strings_view(r@) =~= items@.take(i + 1).map_values(|s: &str| s@));
        i += 1;
    }
    assert(items@.take(items@.len() as int) == items@);
    r
}

/// The trimmed text of the first of `nodes`.
fn first_text_exec(nodes: &Vec<crate::html::HtmlNode>) -> (r: Option<String>)
    ensures
        match first_text(nodes_view(*nodes)) {
            Some(t) => r matches Some(u) && u@ == t,
            None => r is None,
        },
{
    if nodes.len() > 0 {
        Some(trim_str(nodes[0].text.as_str()))
    } else {
        None
    }
}

/// The number that the first element of `html` matching `css` holds; the
/// outer `None` where the selector does not parse.
pub fn first_u64(html: &str, css: &str) -> (r: Option<Option<u64>>)
    ensures
        r == first_u64_spec(html@, css@),
{
    let none: Vec<String> = Vec::new();
    assert(strings_view(none@) == Seq::<Seq<char>>::empty());
    match select(html, css, &none, &none) {
        None => None,
        Some(m) => {
            if m.len() > 0 {
                let text = trim_str(m[0].node.text.as_str());
                let digits = chars_of(text.as_str());
                Some(parse_u64_chars(digits.as_slice()))
            } else {
                Some(None)
            }
        },
    }
}

/// The article of one entry, resolved against the page at `base`.
fn item_article_exec(m: &HtmlMatch, base: &WebUrl) -> (r: Result<Option<Article>, GraduateSchoolError>)
    requires
        m@.inner.len() == 4,
        forall|k: int, j: int|
            0 <= k < 4 && 0 <= j < m@.inner[k].len() ==> (#[trigger] m@.inner[k][j]).attrs.len() == 2,
    ensures
        match item_article(m@, base@) {
            Ok(Some(a)) => r matches Ok(Some(b)) && b@ == a,
            Ok(None) => r matches Ok(None),
            Err(e) => r == Err::<Option<Article>, GraduateSchoolError>(e),
        },
        r matches Ok(Some(b)) ==> is_normal_site_url(b.url@),
{
    assert(m.inner@.len() == 4);
    assert(m@.inner[0] == nodes_view(m.inner@[0]));
    if m.inner[0].len() == 0 {
        return Ok(None);
    }
    let link = &m.inner[0][0];
    assert(link@ == m@.inner[0][0]);
    assert(link.attrs@.len() == 2);
    let href = match &link.attrs[0] {
        Some(href) => href,
        None => return Ok(None),
    };
    let joined = match base.join(href.as_str()) {
        Some(joined) => joined,
        None => return Err(GraduateSchoolError::InvalidEntryUrl),
    };
    let url = match normalize_site_url(&joined) {
        Ok(url) => url,
        Err(e) => return Err(e),
    };
    let link_text = trim_str(link.text.as_str());
    let title = match &link.attrs[1] {
        Some(t) => {
            let tt = trim_str(t.as_str());
            if chars_of(tt.as_str()).len() > 0 {
                tt
            } else {
                link_text
            }
        },
        None => link_text,
    };
    assert(m@.inner[1] == nodes_view(m.inner@[1]));
    assert(m@.inner[2] == nodes_view(m.inner@[2]));
    assert(m@.inner[3] == nodes_view(m.inner@[3]));
    let date = first_text_exec(&m.inner[1]);
    let publish_time = match date {
        Some(d) if chars_of(d.as_str()).len() > 0 => d,
        _ => match (first_text_exec(&m.inner[2]), first_text_exec(&m.inner[3])) {
            (Some(month_day), Some(year)) => {
                let mut t = year;
                t.append("-");
                t.append(month_day.as_str());
                t
            },
            _ => String::new(),
        },
    };
    let id = article_id(&url);
    Ok(Some(Article { id, title, publish_time, url: String::from_str(url.as_str()) }))
}

/// The article list that a list page of `section` at `page_url` holds.
#[verifier::loop_isolation(false)]
pub fn parse_article_list(section: ArticleSection, page_index: u64, page_url: &str, html: &str) -> (r:
    Result<ArticlePage, GraduateSchoolError>)
    ensures
        match parse_article_list_spec(section, page_index, page_url@, html@) {
            Ok(p) => r matches Ok(q) && q@ == p,
            Err(e) => r matches Err(f) && f == e,
        },
        r matches Ok(q) ==> forall|k: int|
            0 <= k < q@.articles.len() ==> is_normal_site_url(#[trigger] q@.articles[k].url),
{
    let inner = owned_strings(&[".news_title a", ".news_meta", ".news_year", ".news_days"]);
    let attrs = owned_strings(&["href", "title"]);
    assert(strings_view(inner@) == item_inner_css());
    assert(strings_view(attrs@) == item_attrs());
    let items = match select(html, ".col_news_list ul.news_list li.news", &inner, &attrs) {
        Some(items) => items,
        None => return Err(GraduateSchoolError::InvalidSelector),
    };
    let page_size = first_u64(html, ".per_count");
    let total = first_u64(html, "em.all_count");
    let total_pages = first_u64(html, ".pages .all_pages");
    let (page_size, total, total_pages) = match (page_size, total, total_pages) {
        (Some(a), Some(b), Some(c)) => (a, b, c),
        _ => return Err(GraduateSchoolError::InvalidSelector),
    };
    let base = match WebUrl::parse(page_url) {
        Some(base) => base,
        None => return Err(GraduateSchoolError::InvalidPageUrl),
    };
    let ghost items_view = matches_view(items@);
    let mut articles: Vec<Article> = Vec::new();
    let mut i: usize = 0;
    assert(items_view.take(0) == Seq::<HtmlMatchView>::empty());
    assert(articles_view(articles@) =~= Seq::<ArticleView>::empty());
    while i < items.len()
        invariant
            i <= items@.len(),
            items_view == matches_view(items@),
            well_shaped(items_view, 4, 2),
            items_articles(items_view.take(i as int), base@) == Ok::<Seq<ArticleView>, GraduateSchoolError>(articles_view(articles@)),
            forall|k: int| 0 <= k < articles@.len() ==> is_normal_site_url(#[trigger] articles@[k].url@),
        decreases items@.len() - i,
    {
        assert(items_view[i as int] == items@[i as int]@);
        assert(items_view.take(i + 1).drop_last() == items_view.take(i as int));
        assert(items_view.take(i + 1).last() == items_view[i as int]);
        let ghost old_articles = articles@;
        match item_article_exec(&items[i], &base) {
            Ok(Some(a)) => {
                articles.push(a);
                assert(articles@.drop_last() == old_articles);
                assert(articles_view(articles@) =~= articles_view(old_articles).push(articles@.last()@));
            },
            Ok(None) => {},
            Err(e) => {
                proof {
                    assert(items_articles(items_view.take(i + 1), base@) == Err::<Seq<ArticleView>, GraduateSchoolError>(e));
                    lemma_items_error_extends(items_view, base@, i + 1);
                }
                return Err(e);
            },
        }
        i += 1;
    }
    assert(items_view.take(items@.len() as int) == items_view);
    Ok(ArticlePage { section, page_index, page_size, total, total_pages, articles })
}

} // verus!
