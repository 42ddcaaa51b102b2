//! Extracting a page's text and the page count from an HTML body.
//!
//! The HTML is parsed and queried by the `scraper` crate behind trusted
//! wrappers; what those calls return is a function of the document and
//! selector text alone, and is given a name here. The library's own,
//! verified part trims each text node and concatenates them with no
//! separator, and turns the selector's option counts into the page count.

use vstd::prelude::*;
use vstd::string::StringExecFns;

verus! {

/// The descendant text nodes, in document order, of all elements of the
/// document `html` that match `selector` — what scraper's parser and
/// selector engine yield for those two strings.
pub uninterp spec fn text_nodes_of(html: Seq<char>, selector: Seq<char>) -> Seq<Seq<char>>;

/// For each element of the document `html` that matches `outer`, in
/// document order, the number of its descendant elements matching `inner` —
/// what scraper's parser and selector engine yield for those three strings.
pub uninterp spec fn nested_counts_of(html: Seq<char>, outer: Seq<char>, inner: Seq<char>) -> Seq<
    usize,
>;

/// `s` with leading and trailing whitespace removed.
pub uninterp spec fn trim_of(s: Seq<char>) -> Seq<char>;

pub open spec fn views_of(ss: Seq<String>) -> Seq<Seq<char>> {
    ss.map_values(|s: String| s@)
}

/// Relies on scraper's `Html::parse_document`, `Selector::parse`,
/// `Html::select` and `ElementRef::text`: parses `html` as a document and
/// collects, in document order, the descendant text nodes of every element
/// matching `selector` (none if the selector text is invalid).
#[verifier::external_body]
fn select_text_nodes(html: &str, selector: &str) -> (r: Vec<String>)
    ensures
        views_of(r@) == text_nodes_of(html@, selector@),
{
    let doc = scraper::Html::parse_document(html);
    let sel = match scraper::Selector::parse(selector) {
        Ok(sel) => sel,
        Err(_) => return Vec::new(),
    };
    doc.select(&sel).flat_map(|e| e.text().map(|t| t.to_string())).collect()
}

/// Relies on scraper's `Html::parse_document`, `Selector::parse`,
/// `Html::select` and `ElementRef::select`: parses `html` as a document
/// and collects, for each element matching `outer` in document order, how
/// many of its descendant elements match `inner` (none if either selector
/// text is invalid).
#[verifier::external_body]
fn select_nested_counts(html: &str, outer: &str, inner: &str) -> (r: Vec<usize>)
    ensures
        r@ == nested_counts_of(html@, outer@, inner@),
{
    let doc = scraper::Html::parse_document(html);
    let osel = match scraper::Selector::parse(outer) {
        Ok(sel) => sel,
        Err(_) => return Vec::new(),
    };
    let isel = match scraper::Selector::parse(inner) {
        Ok(sel) => sel,
        Err(_) => return Vec::new(),
    };
    doc.select(&osel).map(|e| e.select(&isel).count()).collect()
}

/// Relies on `str::trim`: removes leading and trailing whitespace; the
/// result depends on the characters alone.
#[verifier::external_body]
fn trim_str<'a>(s: &'a str) -> (r: &'a str)
    ensures
        r@ == trim_of(s@),
{
    s.trim()
}

/// Each node trimmed of surrounding whitespace, then all of them
/// concatenated with no added separator.
pub open spec fn concat_trimmed(nodes: Seq<Seq<char>>) -> Seq<char>
    decreases nodes.len(),
{
    if nodes.len() == 0 {
        Seq::empty()
    } else {
        concat_trimmed(nodes.drop_last()) + trim_of(nodes.last())
    }
}

/// Trims each text node and concatenates them in order.
pub fn extract_content(nodes: &Vec<String>) -> (r: String)
    ensures
        r@ == concat_trimmed(views_of(nodes@)),
{
    let mut r = String::new();
    let mut i: usize = 0;
    proof {
        assert(views_of(nodes@).take(0) =~= Seq::<Seq<char>>::empty());
    }
    while i < nodes.len()
        invariant
            i <= nodes@.len(),
            r@ == concat_trimmed(views_of(nodes@).take(i as int)),
        decreases nodes@.len() - i,
    {
        let t = trim_str(nodes[i].as_str());
        r.append(t);
        proof {
            assert(views_of(nodes@).take((i + 1) as int).drop_last() =~= views_of(nodes@).take(
                i as int,
            ));
            assert(views_of(nodes@).take((i + 1) as int).last() == nodes@[i as int]@);
        }
        i = i + 1;
    }
    proof {
        assert(views_of(nodes@).take(nodes@.len() as int) =~= views_of(nodes@));
    }
    r
}

/// The text of one page: the content selector's descendant text nodes,
/// each trimmed, concatenated with no separator.
pub fn page_text(html: &str, content_selector: &str) -> (r: String)
    ensures
        r@ == concat_trimmed(text_nodes_of(html@, content_selector@)),
{
    let nodes = select_text_nodes(html, content_selector);
    extract_content(&nodes)
}

/// The page count a list of per-element option counts denotes: the last
/// matching element's count, and 0 when the selector matched nothing.
pub open spec fn count_from(counts: Seq<usize>) -> usize {
    if counts.len() == 0 {
        0usize
    } else {
        counts.last()
    }
}

/// The last element's count, or 0 when the selector was absent.
pub fn last_count(counts: &Vec<usize>) -> (r: usize)
    ensures
        r == count_from(counts@),
{
    if counts.len() == 0 {
        0
    } else {
        counts[counts.len() - 1]
    }
}

/// Discovers the total page count from the first page's HTML body: the
/// number of option children of the page-count selector's last match, and
/// 0 when that selector is absent from the page.
pub fn discover_page_count(html: &str, outer: &str, inner: &str) -> (r: usize)
    ensures
        r == count_from(nested_counts_of(html@, outer@, inner@)),
{
    let counts = select_nested_counts(html, outer, inner);
    last_count(&counts)
}

/// The selector whose option children enumerate the available pages.
pub fn page_count_selector() -> (r: &'static str)
    ensures
        r@ == "#exampleFormControlSelect1"@,
{
    "#exampleFormControlSelect1"
}

/// The selector for one option child of the page-count selector.
pub fn option_selector() -> (r: &'static str)
    ensures
        r@ == "option"@,
{
    "option"
}

/// The selector for the element whose descendant text is a page's body.
pub fn content_selector() -> (r: &'static str)
    ensures
        r@ == "#pageContent"@,
{
    "#pageContent"
}

} // verus!
