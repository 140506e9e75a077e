//! Finding the JSON document that a fetched page carries in its first
//! `pre` element.

use vstd::prelude::*;

verus! {

/// Whether scraper accepts `css` as a selector group.
pub uninterp spec fn css_selector_accepted(css: Seq<char>) -> bool;

/// The text of the first element of the HTML document `html` that the
/// selector `css` matches, as scraper parses and walks the document;
/// nothing when no element matches.
pub uninterp spec fn scraped_first_text(html: Seq<char>, css: Seq<char>) -> Option<Seq<char>>;

/// The model of an optional string.
pub open spec fn opt_string_view(v: Option<String>) -> Option<Seq<char>> {
    match v {
        Some(s) => Some(s@),
        None => None,
    }
}

/// scraper: `Selector::parse(css)`, then `Html::parse_document(html)`,
/// then the text of the first element that `select` yields, all its text
/// nodes in document order. Claimed: the selector fails exactly when
/// `css` is not accepted, a lone type selector such as `pre` is accepted,
/// and otherwise the result is the named text, which depends on `html`
/// and `css` alone.
#[verifier::external_body]
fn first_matching_text(html: &str, css: &str) -> (r: Result<Option<String>, ()>)
    ensures
        r is Err <==> !css_selector_accepted(css@),
        css@ == "pre"@ ==> r is Ok,
        r matches Ok(found) ==> opt_string_view(found) == scraped_first_text(html@, css@),
{
    let selector = match scraper::Selector::parse(css) {
        Ok(s) => s,
        Err(_) => return Err(()),
    };
    let document = scraper::Html::parse_document(html);
    match document.select(&selector).next() {
        Some(element) => Ok(Some(element.text().collect::<String>())),
        None => Ok(None),
    }
}

/// Why no JSON document was found in a page.
#[derive(Debug, Clone, Copy, PartialEq, Eq)]
pub enum ExtractError {
    /// The selector of `pre` elements was refused.
    SelectorRejected,
    /// The page has no `pre` element.
    PreElementMissing,
}

/// What a search for the first `pre` element yields: its text, or the
/// reason it is missing.
pub fn pre_text_outcome(found: Result<Option<String>, ()>) -> (r: Result<String, ExtractError>)
    ensures
        match found {
            Err(_) => r == Err::<String, ExtractError>(ExtractError::SelectorRejected),
            Ok(None) => r == Err::<String, ExtractError>(ExtractError::PreElementMissing),
            Ok(Some(t)) => r is Ok && r->Ok_0@ == t@,
        },
{
    match found {
        Err(_) => Err(ExtractError::SelectorRejected),
        Ok(None) => Err(ExtractError::PreElementMissing),
        Ok(Some(t)) => Ok(t),
    }
}

/// The text of the first `pre` element of a page, which holds the JSON
/// document of a source.
pub fn extract_pre_text(html_content: &str) -> (r: Result<String, ExtractError>)
    ensures
        match scraped_first_text(html_content@, "pre"@) {
            None => r == Err::<String, ExtractError>(ExtractError::PreElementMissing),
            Some(t) => r is Ok && r->Ok_0@ == t,
        },
{
    pre_text_outcome(first_matching_text(html_content, "pre"))
}

} // verus!
