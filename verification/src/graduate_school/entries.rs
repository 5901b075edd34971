//! Entries of the graduate school site rendered as Markdown, and the paging
//! of a whole article list.

use vstd::prelude::*;
use crate::graduate_school::articles::{
    Article, ArticlePage, ArticlePageView, ArticleView, GraduateSchoolError, articles_view,
    normalize_site_url, normalize_site_url_spec,
};
use crate::html::{HtmlNodeView, opt_view, select, spec_html_select, strings_view, matches_view, well_shaped};
use crate::text::{
    chars_of, chars_eq, contains, contains_exec, ends_with, find_first, first_index,
    lemma_first_index, string_of, sub_chars, to_ascii_lowercase,
    to_ascii_lowercase_exec, trim, trim_chars, trim_start, trim_start_chars, trim_str,
    has_suffix,
};
use crate::weburl::{WebUrl, spec_url_join, spec_url_parse, spec_url_path, spec_url_query_pairs};

verus! {

/// `markdown` with its leading whitespace removed and, where it then begins
/// with the level-one heading `title`, without that heading.
pub open spec fn strip_duplicate_heading_spec(markdown: Seq<char>, title: Seq<char>) -> Seq<char> {
    let m = trim_start(markdown);
    if m.len() >= 2 && m[0] == '#' && m[1] == ' ' {
        let rest = m.skip(2);
        if contains(rest, seq!['\n']) {
            let k = first_index(rest, seq!['\n']);
            if trim(rest.take(k)) == title {
                trim_start(rest.skip(k + 1))
            } else {
                m
            }
        } else {
            m
        }
    } else {
        m
    }
}

/// Drops a leading `# title` heading from `markdown`.
pub fn strip_duplicate_heading(markdown: &str, title: &str) -> (r: String)
    ensures
        r@ == strip_duplicate_heading_spec(markdown@, title@),
{
    let md = chars_of(markdown);
    let m = trim_start_chars(md.as_slice());
    if m.len() >= 2 && m[0] == '#' && m[1] == ' ' {
        let rest = sub_chars(m.as_slice(), 2, m.len());
        assert(rest@ == m@.skip(2));
        let nl: [char; 1] = ['\n'];
        assert(nl@ == seq!['\n']);
        match find_first(rest.as_slice(), &nl) {
            Some(k) => {
                proof {
                    lemma_first_index(rest@, seq!['\n'], k as int);
                }
                let heading = sub_chars(rest.as_slice(), 0, k);
                assert(heading@ == rest@.take(k as int));
                let heading = trim_chars(heading.as_slice());
                let t = chars_of(title);
                if chars_eq(heading.as_slice(), t.as_slice()) {
                    let body = sub_chars(rest.as_slice(), k + 1, rest.len());
                    assert(body@ == rest@.skip(k + 1));
                    let body = trim_start_chars(body.as_slice());
                    return string_of(body.as_slice());
                }
                string_of(m.as_slice())
            },
            None => string_of(m.as_slice()),
        }
    } else {
        string_of(m.as_slice())
    }
}

/// The Markdown of an entry that is an attachment rather than a page.
pub open spec fn attachment_markdown_spec(title: Seq<char>, url: Seq<char>) -> Seq<char> {
    "# "@ + title + "\n\n该条目是附件：["@ + title + "]("@ + url + ")"@
}

/// The Markdown of an entry that is an attachment rather than a page.
pub fn attachment_markdown(title: &str, url: &str) -> (r: String)
    ensures
        r@ == attachment_markdown_spec(title@, url@),
{
    let mut r = String::from_str("# ");
    r.append(title);
    r.append("\n\n该条目是附件：[");
    r.append(title);
    r.append("](");
    r.append(url);
    r.append(")");
    r
}

/// Whether a response with `content_type` from `path` is an HTML page.
pub open spec fn is_html_response_spec(content_type: Seq<char>, path: Seq<char>) -> bool {
    let lower = to_ascii_lowercase(content_type);
    ||| contains(lower, "text/html"@)
    ||| contains(lower, "application/xhtml+xml"@)
    ||| has_suffix(path, ".htm"@)
    ||| has_suffix(path, ".html"@)
}

/// Whether a response with `content_type` from `url` is an HTML page.
pub fn is_html_response(content_type: &str, url: &WebUrl) -> (r: bool)
    ensures
        r == is_html_response_spec(content_type@, spec_url_path(url@)),
{
    let ct = chars_of(content_type);
    let lower = to_ascii_lowercase_exec(ct.as_slice());
    let path = chars_of(url.path().as_str());
    let html = chars_of("text/html");
    let xhtml = chars_of("application/xhtml+xml");
    let htm = chars_of(".htm");
    let html_ext = chars_of(".html");
    contains_exec(lower.as_slice(), html.as_slice()) || contains_exec(lower.as_slice(), xhtml.as_slice())
        || ends_with(path.as_slice(), htm.as_slice()) || ends_with(path.as_slice(), html_ext.as_slice())
}


/// An address of the site normalized where it can be, unchanged otherwise.
pub open spec fn normalize_lenient(url: Seq<char>) -> Seq<char> {
    match normalize_site_url_spec(url) {
        Some(u) => u,
        None => url,
    }
}

/// `urls` with `url`, resolved against `base`, appended unless it is already
/// there or does not resolve.
pub open spec fn push_unique_url_spec(urls: Seq<Seq<char>>, base: Seq<char>, url: Seq<char>) -> Seq<Seq<char>> {
    match spec_url_join(base, url) {
        None => urls,
        Some(j) => {
            let u = normalize_lenient(j);
            if urls.contains(u) {
                urls
            } else {
                urls.push(u)
            }
        },
    }
}

/// The value of the first pair named `name`.
pub open spec fn first_query_value(pairs: Seq<(Seq<char>, Seq<char>)>, name: Seq<char>) -> Option<Seq<char>>
    decreases pairs.len(),
{
    if pairs.len() == 0 {
        None
    } else if pairs[0].0 == name {
        Some(pairs[0].1)
    } else {
        first_query_value(pairs.drop_first(), name)
    }
}

/// The PDF addresses that the players `players` of a page at `base` embed,
/// in order and without repetition.
pub open spec fn collect_pdf_urls(players: Seq<HtmlNodeView>, base: Seq<char>) -> Seq<Seq<char>>
    decreases players.len(),
{
    if players.len() == 0 {
        Seq::empty()
    } else {
        let prev = collect_pdf_urls(players.drop_last(), base);
        let e = players.last();
        let with_src = match e.attrs[0] {
            Some(p) => push_unique_url_spec(prev, base, p),
            None => prev,
        };
        match e.attrs[1] {
            Some(src) => match spec_url_join(base, src) {
                Some(viewer) => match first_query_value(spec_url_query_pairs(viewer), "file"@) {
                    Some(f) => push_unique_url_spec(with_src, base, f),
                    None => with_src,
                },
                None => with_src,
            },
            None => with_src,
        }
    }
}

pub open spec fn nodes_of(m: Seq<crate::html::HtmlMatchView>) -> Seq<HtmlNodeView> {
    m.map_values(|x: crate::html::HtmlMatchView| x.node)
}

/// The PDF addresses embedded in the page at `page_url` holding `html`.
pub open spec fn embedded_pdf_urls_spec(html: Seq<char>, page_url: Seq<char>) -> Result<Seq<Seq<char>>, GraduateSchoolError> {
    match spec_url_parse(page_url) {
        None => Err(GraduateSchoolError::InvalidPageUrl),
        Some(base) => match spec_html_select(html, ".wp_pdf_player, [pdfsrc]"@, Seq::empty(), seq!["pdfsrc"@, "src"@]) {
            None => Err(GraduateSchoolError::InvalidSelector),
            Some(m) => Ok(collect_pdf_urls(nodes_of(m), base)),
        },
    }
}

/// Whether `url` is one of `urls`.
fn contains_string(urls: &Vec<String>, url: &str) -> (r: bool)
    ensures
        r == strings_view(urls@).contains(url@),
{
    let u = chars_of(url);
    let mut i: usize = 0;
    while i < urls.len()
        invariant
            i <= urls@.len(),
            u@ == url@,
            forall|j: int| 0 <= j < i ==> urls@[j]@ != url@,
        decreases urls@.len() - i,
    {
        let c = chars_of(urls[i].as_str());
        if chars_eq(c.as_slice(), u.as_slice()) {
            assert(strings_view(urls@)[i as int] == url@);
            return true;
        }
        i += 1;
    }
    assert forall|j: int| 0 <= j < strings_view(urls@).len() implies strings_view(urls@)[j] != url@ by {
        assert(strings_view(urls@)[j] == urls@[j]@);
    }
    false
}

/// Appends `url`, resolved against `base`, unless it is already there or does
/// not resolve.
pub fn push_unique_url(urls: &mut Vec<String>, base: &WebUrl, url: &str)
    ensures
        strings_view(final(urls)@) == push_unique_url_spec(strings_view(old(urls)@), base@, url@),
{
    if let Some(joined) = base.join(url) {
        let normalized = match normalize_site_url(&joined) {
            Ok(u) => u,
            Err(_) => joined,
        };
        let u = String::from_str(normalized.as_str());
        if !contains_string(urls, u.as_str()) {
            let ghost old_urls = urls@;
            urls.push(u);
            assert(strings_view(urls@) =~= strings_view(old_urls).push(normalized@));
        }
    }
}

/// The value of the first pair named `name`.
fn first_query_value_exec(pairs: &Vec<(String, String)>, name: &str) -> (r: Option<String>)
    ensures
        match first_query_value(pairs@.map_values(|p: (String, String)| (p.0@, p.1@)), name@) {
            Some(v) => r matches Some(w) && w@ == v,
            None => r is None,
        },
{
    let ghost all = pairs@.map_values(|p: (String, String)| (p.0@, p.1@));
    let n = chars_of(name);
    let mut i: usize = 0;
    assert(all.skip(0) == all);
    while i < pairs.len()
        invariant
            i <= pairs@.len(),
            n@ == name@,
            all == pairs@.map_values(|p: (String, String)| (p.0@, p.1@)),
            first_query_value(all, name@) == first_query_value(all.skip(i as int), name@),
        decreases pairs@.len() - i,
    {
        assert(all.skip(i as int)[0] == all[i as int]);
        assert(all.skip(i as int).drop_first() == all.skip(i + 1));
        let k = chars_of(pairs[i].0.as_str());
        if chars_eq(k.as_slice(), n.as_slice()) {
            return Some(String::from_str(pairs[i].1.as_str()));
        }
        i += 1;
    }
    None
}

/// The PDF addresses embedded in the page at `page_url` holding `html`.
pub fn embedded_pdf_urls(html: &str, page_url: &str) -> (r: Result<Vec<String>, GraduateSchoolError>)
    ensures
        match embedded_pdf_urls_spec(html@, page_url@) {
            Ok(u) => r matches Ok(v) && strings_view(v@) == u,
            Err(e) => r == Err::<Vec<String>, GraduateSchoolError>(e),
        },
{
    let base = match WebUrl::parse(page_url) {
        Some(base) => base,
        None => return Err(GraduateSchoolError::InvalidPageUrl),
    };
    let none: Vec<String> = Vec::new();
    let attrs: Vec<String> = vec![String::from_str("pdfsrc"), String::from_str("src")];
    assert(strings_view(none@) == Seq::<Seq<char>>::empty());
    assert(strings_view(attrs@) == seq!["pdfsrc"@, "src"@]);
    let players = match select(html, ".wp_pdf_player, [pdfsrc]", &none, &attrs) {
        Some(players) => players,
        None => return Err(GraduateSchoolError::InvalidSelector),
    };
    let ghost nodes = nodes_of(matches_view(players@));
    let mut urls: Vec<String> = Vec::new();
    let mut i: usize = 0;
    assert(nodes.take(0) == Seq::<HtmlNodeView>::empty());
    assert(strings_view(urls@) == Seq::<Seq<char>>::empty());
    while i < players.len()
        invariant
            i <= players@.len(),
            nodes == nodes_of(matches_view(players@)),
            well_shaped(matches_view(players@), 0, 2),
            strings_view(urls@) == collect_pdf_urls(nodes.take(i as int), base@),
        decreases players@.len() - i,
    {
        let e = &players[i].node;
        assert(nodes[i as int] == e@);
        assert(matches_view(players@)[i as int] == players@[i as int]@);
        assert(e.attrs@.len() == 2);
        assert(nodes.take(i + 1).drop_last() == nodes.take(i as int));
        assert(nodes.take(i + 1).last() == e@);
        if let Some(p) = &e.attrs[0] {
            push_unique_url(&mut urls, &base, p.as_str());
        }
        if let Some(src) = &e.attrs[1] {
            if let Some(viewer) = base.join(src.as_str()) {
                let pairs = viewer.query_pairs();
                if let Some(f) = first_query_value_exec(&pairs, "file") {
                    push_unique_url(&mut urls, &base, f.as_str());
                }
            }
        }
        i += 1;
    }
    assert(nodes.take(players@.len() as int) == nodes);
    Ok(urls)
}


/// The first element matched by the first of `selectors` that matches any,
/// read with the attributes `attrs`.
pub open spec fn first_element_spec(html: Seq<char>, selectors: Seq<Seq<char>>) -> Result<Option<HtmlNodeView>, GraduateSchoolError>
    decreases selectors.len(),
{
    if selectors.len() == 0 {
        Ok(None)
    } else {
        match spec_html_select(html, selectors[0], Seq::empty(), Seq::empty()) {
            None => Err(GraduateSchoolError::InvalidSelector),
            Some(m) => if m.len() > 0 {
                Ok(Some(m[0].node))
            } else {
                first_element_spec(html, selectors.drop_first())
            },
        }
    }
}

/// The first element matched by the first of `selectors` that matches any.
pub fn first_element(html: &str, selectors: &Vec<String>) -> (r: Result<Option<crate::html::HtmlNode>, GraduateSchoolError>)
    ensures
        match first_element_spec(html@, strings_view(selectors@)) {
            Ok(Some(n)) => r matches Ok(Some(m)) && m@ == n,
            Ok(None) => r matches Ok(None),
            Err(e) => r matches Err(f) && f == e,
        },
{
    let ghost sels = strings_view(selectors@);
    let none: Vec<String> = Vec::new();
    assert(strings_view(none@) == Seq::<Seq<char>>::empty());
    let mut i: usize = 0;
    assert(sels.skip(0) == sels);
    while i < selectors.len()
        invariant
            i <= selectors@.len(),
            sels == strings_view(selectors@),
            strings_view(none@) == Seq::<Seq<char>>::empty(),
            first_element_spec(html@, sels) == first_element_spec(html@, sels.skip(i as int)),
        decreases selectors@.len() - i,
    {
        assert(sels.skip(i as int)[0] == selectors@[i as int]@);
        assert(sels.skip(i as int).drop_first() == sels.skip(i + 1));
        match select(html, selectors[i].as_str(), &none, &none) {
            None => return Err(GraduateSchoolError::InvalidSelector),
            Some(mut m) => {
                if m.len() > 0 {
                    let first = m.remove(0);
                    return Ok(Some(first.node));
                }
            },
        }
        i += 1;
    }
    Ok(None)
}

/// What the library reads of an entry page before its content is rendered:
/// its title, the HTML of its content and the PDF files it embeds.
pub struct ArticleParts {
    pub title: Option<String>,
    pub content_html: String,
    pub pdf_urls: Vec<String>,
}

pub open spec fn title_selectors() -> Seq<Seq<char>> {
    seq![".arti_title"@, ".col_title h2"@, "title"@]
}

pub open spec fn content_selectors() -> Seq<Seq<char>> {
    seq![".wp_articlecontent"@, ".article"@, ".col_news_con"@]
}

/// What an entry page at `page_url` holding `html` is made of.
pub open spec fn article_parts_spec(html: Seq<char>, page_url: Seq<char>) -> Result<(Option<Seq<char>>, Seq<char>, Seq<Seq<char>>), GraduateSchoolError> {
    match first_element_spec(html, title_selectors()) {
        Err(e) => Err(e),
        Ok(title_node) => match first_element_spec(html, content_selectors()) {
            Err(e) => Err(e),
            Ok(content_node) => match embedded_pdf_urls_spec(html, page_url) {
                Err(e) => Err(e),
                Ok(pdfs) => {
                    let title = match title_node {
                        Some(n) => if trim(n.text).len() > 0 {
                            Some(trim(n.text))
                        } else {
                            None
                        },
                        None => None,
                    };
                    let content = match content_node {
                        Some(n) => n.html,
                        None => html,
                    };
                    Ok((title, content, pdfs))
                },
            },
        },
    }
}

/// The trimmed text of the first element of `html` that `css` selects,
/// where the selector parses and selects any.
pub open spec fn first_selected_text(html: Seq<char>, css: Seq<char>) -> Option<Seq<char>> {
    match spec_html_select(html, css, Seq::empty(), Seq::empty()) {
        Some(m) => if m.len() > 0 {
            Some(trim(m[0].node.text))
        } else {
            None
        },
        None => None,
    }
}

/// Whether `css` parses and selects nothing in `html`.
pub open spec fn selects_nothing(html: Seq<char>, css: Seq<char>) -> bool {
    spec_html_select(html, css, Seq::empty(), Seq::empty()) is Some
        && spec_html_select(html, css, Seq::empty(), Seq::empty())->Some_0.len() == 0
}

/// The title of an entry page is read from its article title first, then
/// from its column heading, then from the document title: where the page
/// has an `.arti_title` element with text, the title is the trimmed text of
/// the first one, whatever other headings the page holds; where it has
/// none but a `.col_title h2` element with text, it is that one's, and
/// where it has neither, the document title's. A blank `.arti_title` gives
/// no title at all.
pub proof fn lemma_article_title_priority(html: Seq<char>, page_url: Seq<char>)
    requires
        article_parts_spec(html, page_url) is Ok,
    ensures
        first_selected_text(html, ".arti_title"@) is Some && first_selected_text(html, ".arti_title"@)->Some_0.len()
            > 0 ==> article_parts_spec(html, page_url)->Ok_0.0 == first_selected_text(html, ".arti_title"@),
        selects_nothing(html, ".arti_title"@) && first_selected_text(html, ".col_title h2"@) is Some
            && first_selected_text(html, ".col_title h2"@)->Some_0.len() > 0 ==> article_parts_spec(
            html,
            page_url,
        )->Ok_0.0 == first_selected_text(html, ".col_title h2"@),
        selects_nothing(html, ".arti_title"@) && selects_nothing(html, ".col_title h2"@)
            && first_selected_text(html, "title"@) is Some && first_selected_text(html, "title"@)->Some_0.len()
            > 0 ==> article_parts_spec(html, page_url)->Ok_0.0 == first_selected_text(html, "title"@),
        first_selected_text(html, ".arti_title"@) == Some(Seq::<char>::empty()) ==> article_parts_spec(
            html,
            page_url,
        )->Ok_0.0 is None,
{
    let sels = title_selectors();
    assert(sels[0] == ".arti_title"@);
    assert(sels.drop_first()[0] == ".col_title h2"@);
    assert(sels.drop_first().len() == 2);
    assert(sels.drop_first().drop_first()[0] == "title"@);
    assert(sels.drop_first().drop_first().len() == 1);
    if selects_nothing(html, ".arti_title"@) {
        assert(first_element_spec(html, sels) == first_element_spec(html, sels.drop_first()));
        if selects_nothing(html, ".col_title h2"@) {
            assert(first_element_spec(html, sels.drop_first()) == first_element_spec(
                html,
                sels.drop_first().drop_first(),
            ));
        }
    }
}

/// What an entry page at `page_url` holding `html` is made of.
pub fn article_parts(html: &str, page_url: &str) -> (r: Result<ArticleParts, GraduateSchoolError>)
    ensures
        match article_parts_spec(html@, page_url@) {
            Ok((title, content, pdfs)) => r matches Ok(p) && opt_view(p.title) == title
                && p.content_html@ == content && strings_view(p.pdf_urls@) == pdfs,
            Err(e) => r matches Err(f) && f == e,
        },
{
    let title_sels = vec![String::from_str(".arti_title"), String::from_str(".col_title h2"), String::from_str("title")];
    assert(strings_view(title_sels@) == title_selectors());
    let content_sels = vec![String::from_str(".wp_articlecontent"), String::from_str(".article"), String::from_str(".col_news_con")];
    assert(strings_view(content_sels@) == content_selectors());
    let title_node = first_element(html, &title_sels)?;
    let content_node = first_element(html, &content_sels)?;
    let pdf_urls = embedded_pdf_urls(html, page_url)?;
    let title = match title_node {
        Some(n) => {
            let t = trim_str(n.text.as_str());
            if chars_of(t.as_str()).len() > 0 {
                Some(t)
            } else {
                None
            }
        },
        None => None,
    };
    let content_html = match content_node {
        Some(n) => n.html,
        None => String::from_str(html),
    };
    Ok(ArticleParts { title, content_html, pdf_urls })
}

/// `markdown` followed by a list of `pdf_urls` where there are any.
pub open spec fn with_attachments(markdown: Seq<char>, pdf_urls: Seq<Seq<char>>) -> Seq<char>
    decreases pdf_urls.len(),
{
    if pdf_urls.len() == 0 {
        markdown
    } else if pdf_urls.len() == 1 {
        markdown + "\n\n## 附件\n\n"@ + "- [PDF]("@ + pdf_urls[0] + ")\n"@
    } else {
        with_attachments(markdown, pdf_urls.drop_last()) + "- [PDF]("@ + pdf_urls.last() + ")\n"@
    }
}

/// The Markdown of an entry: its rendered content followed by its
/// attachments, under the entry's title where it has one.
pub open spec fn article_markdown_spec(title: Option<Seq<char>>, content_markdown: Seq<char>, pdf_urls: Seq<Seq<char>>) -> Seq<char> {
    let markdown = with_attachments(content_markdown, pdf_urls);
    match title {
        Some(t) => "# "@ + t + "\n\n"@ + strip_duplicate_heading_spec(markdown, t),
        None => markdown,
    }
}

/// The Markdown of an entry from its parts and its rendered content.
pub fn article_markdown(parts: &ArticleParts, content_markdown: &str) -> (r: String)
    ensures
        r@ == article_markdown_spec(
            opt_view(parts.title),
            content_markdown@,
            strings_view(parts.pdf_urls@),
        ),
{
    let ghost pdfs = strings_view(parts.pdf_urls@);
    let mut markdown = String::from_str(content_markdown);
    if parts.pdf_urls.len() > 0 {
        markdown.append("\n\n## 附件\n\n");
        let mut i: usize = 0;
        while i < parts.pdf_urls.len()
            invariant
                0 < parts.pdf_urls@.len(),
                i <= parts.pdf_urls@.len(),
                pdfs == strings_view(parts.pdf_urls@),
                markdown@ == if i == 0 {
                    content_markdown@ + "\n\n## 附件\n\n"@
                } else {
                    with_attachments(content_markdown@, pdfs.take(i as int))
                },
            decreases parts.pdf_urls@.len() - i,
        {
            assert(pdfs[i as int] == parts.pdf_urls@[i as int]@);
            if i > 0 {
                assert(pdfs.take(i + 1).drop_last() == pdfs.take(i as int));
            }
            markdown.append("- [PDF](");
            markdown.append(parts.pdf_urls[i].as_str());
            markdown.append(")\n");
            i += 1;
        }
        assert(pdfs.take(parts.pdf_urls@.len() as int) == pdfs);
    }
    match &parts.title {
        Some(t) => {
            let mut r = String::from_str("# ");
            r.append(t.as_str());
            r.append("\n\n");
            let body = strip_duplicate_heading(markdown.as_str(), t.as_str());
            r.append(body.as_str());
            r
        },
        None => markdown,
    }
}

/// Whether listing a section stops after page `page_index`, which held
/// `fetched` articles, the list having reported `total` articles and
/// `total_pages` pages, with `collected` articles gathered so far.
pub open spec fn listing_done(fetched: nat, total: Option<u64>, total_pages: Option<u64>, collected: nat, page_index: u64) -> bool {
    ||| fetched == 0
    ||| (total is Some && collected >= total->0)
    ||| (total_pages is Some && page_index >= total_pages->0)
}

/// The next page to fetch while listing a whole section, or `None` where the
/// listing is complete.
pub fn next_list_page(fetched: usize, total: Option<u64>, total_pages: Option<u64>, collected: usize, page_index: u64) -> (r: Option<u64>)
    requires
        listing_done(fetched as nat, total, total_pages, collected as nat, page_index) || page_index < u64::MAX,
    ensures
        listing_done(fetched as nat, total, total_pages, collected as nat, page_index) ==> r is None,
        !listing_done(fetched as nat, total, total_pages, collected as nat, page_index) ==> r == Some((page_index + 1) as u64),
{
    let by_total = match total {
        Some(t) => collected as u64 >= t,
        None => false,
    };
    let by_pages = match total_pages {
        Some(p) => page_index >= p,
        None => false,
    };
    if fetched == 0 || by_total || by_pages {
        None
    } else {
        Some(page_index + 1)
    }
}

/// A listing of a whole section under way: the page to request next, or
/// `None` once the listing is complete, and the articles of the pages taken
/// in so far, in order.
pub struct SectionListing {
    pub next_page: Option<u64>,
    pub articles: Vec<Article>,
}

/// The view of a [`SectionListing`].
pub struct SectionListingView {
    pub next_page: Option<u64>,
    pub articles: Seq<ArticleView>,
}

impl View for SectionListing {
    type V = SectionListingView;

    open spec fn view(&self) -> SectionListingView {
        SectionListingView { next_page: self.next_page, articles: articles_view(self.articles@) }
    }
}

/// A listing that has taken in nothing and asks for the first page.
pub open spec fn listing_start() -> SectionListingView {
    SectionListingView { next_page: Some(1u64), articles: Seq::empty() }
}

/// The listing `l` after it took in `page`, the page it asked for: the
/// page's articles are added, and the next page is asked for unless the
/// listing is complete.
pub open spec fn listing_step(l: SectionListingView, page: ArticlePageView) -> SectionListingView {
    let articles = l.articles + page.articles;
    let index = l.next_page->0;
    SectionListingView {
        next_page: if listing_done(page.articles.len(), page.total, page.total_pages, articles.len(), index) {
            None
        } else {
            Some((index + 1) as u64)
        },
        articles,
    }
}

/// The listing after it took in the first `n` of `pages`, one after another.
pub open spec fn listing_after(pages: Seq<ArticlePageView>, n: nat) -> SectionListingView
    decreases n,
{
    if n == 0 || n > pages.len() {
        listing_start()
    } else {
        listing_step(listing_after(pages, (n - 1) as nat), pages[n - 1])
    }
}

/// The articles of the first `n` of `pages`, page after page.
pub open spec fn pages_articles(pages: Seq<ArticlePageView>, n: nat) -> Seq<ArticleView>
    decreases n,
{
    if n == 0 || n > pages.len() {
        Seq::empty()
    } else {
        pages_articles(pages, (n - 1) as nat) + pages[n - 1].articles
    }
}

impl SectionListing {
    /// A listing that asks for the first page.
    pub fn new() -> (r: SectionListing)
        ensures
            r@ == listing_start(),
    {
        let articles: Vec<Article> = Vec::new();
        assert(articles_view(articles@) =~= Seq::<ArticleView>::empty());
        SectionListing { next_page: Some(1), articles }
    }

    /// Takes in `page`, the page that the listing asked for, and gives the
    /// page to request next, or `None` where the listing is complete.
    pub fn take_page(&mut self, page: ArticlePage) -> (r: Option<u64>)
        requires
            old(self).next_page matches Some(i) && i < u64::MAX,
        ensures
            final(self)@ == listing_step(old(self)@, page@),
            r == final(self).next_page,
    {
        let index = match self.next_page {
            Some(i) => i,
            None => 1,
        };
        let ArticlePage { total, total_pages, articles, .. } = page;
        let fetched = articles.len();
        let ghost before = self.articles@;
        let mut items = articles;
        let ghost added = items@;
        self.articles.append(&mut items);
        assert(articles_view(self.articles@) =~= articles_view(before) + articles_view(added));
        let next = next_list_page(fetched, total, total_pages, self.articles.len(), index);
        self.next_page = next;
        next
    }
}

/// Listing a whole section requests pages 1, 2, ... in turn and takes in
/// each; where page `k + 1` is the first after which the listing is
/// complete, it asks for pages 1 to `k + 1` and no other, and ends holding
/// the articles of those pages, page after page.
pub proof fn lemma_listing_gathers_pages_in_order(pages: Seq<ArticlePageView>, k: nat)
    requires
        k < pages.len(),
        k + 1 < u64::MAX,
        forall|j: nat|
            j < k ==> !listing_done(
                pages[j as int].articles.len(),
                pages[j as int].total,
                pages[j as int].total_pages,
                #[trigger] pages_articles(pages, j + 1).len(),
                (j + 1) as u64,
            ),
        listing_done(
            pages[k as int].articles.len(),
            pages[k as int].total,
            pages[k as int].total_pages,
            pages_articles(pages, k + 1).len(),
            (k + 1) as u64,
        ),
    ensures
        forall|j: nat|
            j <= k ==> #[trigger] listing_after(pages, j) == (SectionListingView {
                next_page: Some((j + 1) as u64),
                articles: pages_articles(pages, j),
            }),
        listing_after(pages, k + 1) == (SectionListingView { next_page: None, articles: pages_articles(pages, k + 1) }),
{
    assert forall|j: nat| j <= k implies #[trigger] listing_after(pages, j) == (SectionListingView {
        next_page: Some((j + 1) as u64),
        articles: pages_articles(pages, j),
    }) by {
        lemma_listing_prefix(pages, k, j);
    }
    lemma_listing_prefix(pages, k, k);
}

proof fn lemma_listing_prefix(pages: Seq<ArticlePageView>, k: nat, j: nat)
    requires
        j <= k < pages.len(),
        k + 1 < u64::MAX,
        forall|i: nat|
            i < k ==> !listing_done(
                pages[i as int].articles.len(),
                pages[i as int].total,
                pages[i as int].total_pages,
                #[trigger] pages_articles(pages, i + 1).len(),
                (i + 1) as u64,
            ),
    ensures
        listing_after(pages, j) == (SectionListingView { next_page: Some((j + 1) as u64), articles: pages_articles(pages, j) }),
    decreases j,
{
    if j > 0 {
        lemma_listing_prefix(pages, k, (j - 1) as nat);
        let i = (j - 1) as nat;
        assert(pages_articles(pages, i + 1).len() == pages_articles(pages, j).len());
    }
}

} // verus!
