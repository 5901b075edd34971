//! Elements of an HTML document as `scraper` finds them, held as plain values.

use vstd::prelude::*;
use scraper::{ElementRef, Html, Selector};

verus! {

/// What the library reads of one element: the values of the attributes it
/// asked for (in the order asked), its text and its serialized HTML.
pub struct HtmlNode {
    pub attrs: Vec<Option<String>>,
    pub text: String,
    pub html: String,
}

/// The view of an [`HtmlNode`].
pub struct HtmlNodeView {
    pub attrs: Seq<Option<Seq<char>>>,
    pub text: Seq<char>,
    pub html: Seq<char>,
}

pub open spec fn opt_view(o: Option<String>) -> Option<Seq<char>> {
    match o {
        Some(s) => Some(s@),
        None => None,
    }
}

impl View for HtmlNode {
    type V = HtmlNodeView;

    open spec fn view(&self) -> HtmlNodeView {
        HtmlNodeView {
            attrs: self.attrs@.map_values(|a: Option<String>| opt_view(a)),
            text: self.text@,
            html: self.html@,
        }
    }
}

/// An element matched by the outer selector, with, for each inner selector,
/// the descendants that it matches.
pub struct HtmlMatch {
    pub node: HtmlNode,
    pub inner: Vec<Vec<HtmlNode>>,
}

/// The view of an [`HtmlMatch`].
pub struct HtmlMatchView {
    pub node: HtmlNodeView,
    pub inner: Seq<Seq<HtmlNodeView>>,
}

pub open spec fn nodes_view(v: Vec<HtmlNode>) -> Seq<HtmlNodeView> {
    v@.map_values(|n: HtmlNode| n@)
}

impl View for HtmlMatch {
    type V = HtmlMatchView;

    open spec fn view(&self) -> HtmlMatchView {
        HtmlMatchView {
            node: self.node@,
            inner: self.inner@.map_values(|g: Vec<HtmlNode>| nodes_view(g)),
        }
    }
}

pub open spec fn strings_view(v: Seq<String>) -> Seq<Seq<char>> {
    v.map_values(|s: String| s@)
}

pub open spec fn matches_view(v: Seq<HtmlMatch>) -> Seq<HtmlMatchView> {
    v.map_values(|m: HtmlMatch| m@)
}

/// What `scraper` finds in the document `html`: for each element matching the
/// selector `outer` in document order, that element and, for each selector of
/// `inner`, the element's descendants matching it in document order; each
/// element given by the attributes `attrs`, its text and its HTML. `None` where
/// one of the selectors does not parse.
pub uninterp spec fn spec_html_select(
    html: Seq<char>,
    outer: Seq<char>,
    inner: Seq<Seq<char>>,
    attrs: Seq<Seq<char>>,
) -> Option<Seq<HtmlMatchView>>;

/// Whether every element found has one value per asked attribute and every
/// match one group per inner selector.
pub open spec fn well_shaped(m: Seq<HtmlMatchView>, n_inner: nat, n_attrs: nat) -> bool {
    forall|i: int|
        0 <= i < m.len() ==> {
            &&& (#[trigger] m[i]).node.attrs.len() == n_attrs
            &&& m[i].inner.len() == n_inner
            &&& forall|k: int, j: int|
                0 <= k < n_inner && 0 <= j < m[i].inner[k].len() ==> (
                #[trigger] m[i].inner[k][j]).attrs.len() == n_attrs
        }
}

/// `Html::parse_document`, then `Selector::parse` of each selector, then
/// `Html::select` with `outer` and `ElementRef::select` with each of `inner`;
/// each element read by `Element::attr`, `ElementRef::text` and `ElementRef::html`.
#[verifier::external_body]
fn scraper_select(html: &str, outer: &str, inner: &Vec<String>, attrs: &Vec<String>) -> (r: Option<
    Vec<HtmlMatch>,
>)
    ensures
        r matches Some(m) ==> spec_html_select(html@, outer@, strings_view(inner@), strings_view(
            attrs@,
        )) == Some(matches_view(m@)),
        r is None ==> spec_html_select(html@, outer@, strings_view(inner@), strings_view(attrs@))
            is None,
        r matches Some(m) ==> well_shaped(matches_view(m@), inner@.len(), attrs@.len()),
{
    let doc = Html::parse_document(html);
    let outer = Selector::parse(outer).ok()?;
    let inner = inner.iter().map(|css| Selector::parse(css).ok()).collect::<Option<Vec<_>>>()?;
    let node = |e: ElementRef| HtmlNode {
        attrs: attrs.iter().map(|a| e.value().attr(a).map(str::to_string)).collect(),
        text: e.text().collect(),
        html: e.html(),
    };
    Some(doc.select(&outer).map(|e| HtmlMatch {
        node: node(e),
        inner: inner.iter().map(|s| e.select(s).map(node).collect()).collect(),
    }).collect())
}

/// The elements of `html` that match `outer`, each with the descendants that
/// match each selector of `inner`.
pub fn select(html: &str, outer: &str, inner: &Vec<String>, attrs: &Vec<String>) -> (r: Option<
    Vec<HtmlMatch>,
>)
    ensures
        r matches Some(m) ==> spec_html_select(html@, outer@, strings_view(inner@), strings_view(
            attrs@,
        )) == Some(matches_view(m@)),
        r is None <==> spec_html_select(html@, outer@, strings_view(inner@), strings_view(attrs@))
            is None,
        r matches Some(m) ==> well_shaped(matches_view(m@), inner@.len(), attrs@.len()),
{
    scraper_select(html, outer, inner, attrs)
}

} // verus!
