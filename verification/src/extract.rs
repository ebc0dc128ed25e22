//! Address extraction out of fetched page content. The two page shapes are
//! fixed: a site-relative venue page keeps the address at a set spot inside
//! its callout block; a third-party venue-map page keeps it as the second
//! match of a fixed selector chain. The CSS querying is the `scraper`
//! crate's work; this module pins which selector runs, which match and
//! which node are read, and exactly when extraction fails.

use vstd::prelude::*;

verus! {

/// The text of the `index`-th element matching `selector` in `contents`,
/// as the `scraper` crate parses and selects it; nothing when the selector
/// is invalid, has too few matches, or the element holds no text. The
/// result depends on the three arguments alone.
pub uninterp spec fn selected_text(contents: Seq<char>, selector: Seq<char>, index: int) -> Option<
    Seq<char>,
>;

/// Relies on `scraper` (`Html::parse_document`, `Selector::parse`,
/// `Html::select`, `ElementRef::text`): the first text of the `index`-th
/// match of `selector` in `contents`.
#[verifier::external_body]
fn select_text(contents: &str, selector: &str, index: usize) -> (r: Option<String>)
    ensures
        r.deep_view() == selected_text(contents@, selector@, index as int),
{
    let doc = scraper::Html::parse_document(contents);
    let sel = match scraper::Selector::parse(selector) {
        Ok(s) => s,
        Err(_) => return None,
    };
    let found = doc.select(&sel).nth(index)?;
    let text = found.text().next()?;
    Some(text.to_owned())
}

/// The text node at the fixed spot inside the first element matching
/// `selector`: that element's first child's first child's second child,
/// read as text, as the `scraper` crate's document tree holds it; nothing
/// when the structure is absent. The result depends on the two arguments
/// alone.
pub uninterp spec fn nested_text(contents: Seq<char>, selector: Seq<char>) -> Option<Seq<char>>;

/// Relies on `scraper` and its `ego-tree` document tree
/// (`Html::parse_document`, `Selector::parse`, `Html::select`,
/// `NodeRef::first_child`, `NodeRef::children`, `Node::as_text`): the text
/// node at the fixed spot under the first match of `selector`.
#[verifier::external_body]
fn select_nested_text(contents: &str, selector: &str) -> (r: Option<String>)
    ensures
        r.deep_view() == nested_text(contents@, selector@),
{
    let doc = scraper::Html::parse_document(contents);
    let sel = match scraper::Selector::parse(selector) {
        Ok(s) => s,
        Err(_) => return None,
    };
    let element = doc.select(&sel).next()?;
    let node = element.first_child()?.first_child()?.children().nth(1)?;
    let text = node.value().as_text()?;
    Some(text.to_string())
}

/// The address on a site-relative venue page: the text at the fixed spot
/// inside the page's callout block. `None` exactly when the page does not
/// carry that structure.
pub fn scrape_local_address(contents: &str) -> (r: Option<String>)
    ensures
        r.deep_view() == nested_text(contents@, "div.callout"@),
{
    select_nested_text(contents, "div.callout")
}

/// The address on a third-party venue-map page: the text of the second
/// element under the page's fixed selector chain. `None` exactly when
/// there is no second match or it holds no text.
pub fn scrape_remote_address(contents: &str) -> (r: Option<String>)
    ensures
        r.deep_view() == selected_text(
            contents@,
            "div.bg_primary > div > div > div > h2 > small"@,
            1,
        ),
{
    select_text(contents, "div.bg_primary > div > div > div > h2 > small", 1)
}

} // verus!
