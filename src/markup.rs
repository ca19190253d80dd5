//! What the source adapters read from fetched pages: elements picked by CSS
//! selectors, and string fields of an embedded JSON object.

use scraper::{Html, Selector};
use vstd::prelude::*;
use crate::text::opt_text;

verus! {

/// One element that a selector matched: its inner HTML, its text content
/// (its text nodes joined) and the value of the attribute asked for.
pub type Matched = (String, String, Option<String>);

/// The texts of a match.
pub open spec fn matched_view(m: Matched) -> (Seq<char>, Seq<char>, Option<Seq<char>>) {
    (m.0@, m.1@, opt_text(m.2))
}

/// Each element of the document `html` that matches the CSS selector
/// `selector`, in document order, as scraper reads it: inner HTML, text
/// content, and the value of attribute `attr`.
pub uninterp spec fn matches_of(html: Seq<char>, selector: Seq<char>, attr: Seq<char>) -> Seq<
    (Seq<char>, Seq<char>, Option<Seq<char>>),
>;

/// The string held under `key` in the JSON object that `json` writes; `None`
/// where `json` is no JSON object or the field is missing or no string.
pub uninterp spec fn json_string_field(json: Seq<char>, key: Seq<char>) -> Option<Seq<char>>;

/// The `n`-th match, if there is one.
pub open spec fn match_at(html: Seq<char>, selector: Seq<char>, attr: Seq<char>, n: int) -> Option<
    (Seq<char>, Seq<char>, Option<Seq<char>>),
> {
    let m = matches_of(html, selector, attr);
    if 0 <= n < m.len() {
        Some(m[n])
    } else {
        None
    }
}

/// Inner HTML of the `n`-th match, if there is one.
pub open spec fn inner_html_at(html: Seq<char>, selector: Seq<char>, n: int) -> Option<Seq<char>> {
    match match_at(html, selector, ""@, n) {
        Some(m) => Some(m.0),
        None => None,
    }
}

/// Text content of a match, if there is one.
pub open spec fn text_part(m: Option<(Seq<char>, Seq<char>, Option<Seq<char>>)>) -> Option<Seq<char>> {
    match m {
        Some(x) => Some(x.1),
        None => None,
    }
}

/// The attribute read from a match, if there is one and it has the attribute.
pub open spec fn attr_part(m: Option<(Seq<char>, Seq<char>, Option<Seq<char>>)>) -> Option<Seq<char>> {
    match m {
        Some(x) => x.2,
        None => None,
    }
}

/// Relies on scraper's `Selector::parse`, `Html::parse_document`,
/// `Html::select`, and `ElementRef::inner_html`, `text` and `attr`: every
/// match, in document order. A selector scraper cannot parse matches nothing.
#[verifier::external_body]
fn select(html: &str, selector: &str, attr: &str) -> (r: Vec<Matched>)
    ensures
        r@.map_values(|m: Matched| matched_view(m)) == matches_of(html@, selector@, attr@),
{
    let mut found = Vec::new();
    let sel = match Selector::parse(selector) {
        Ok(sel) => sel,
        Err(_) => return found,
    };
    let doc = Html::parse_document(html);
    for e in doc.select(&sel) {
        found.push((e.inner_html(), e.text().collect::<String>(), e.attr(attr).map(String::from)));
    }
    found
}

/// The `n`-th element of `html` that `selector` matches, with attribute
/// `attr` read.
pub(crate) fn nth_match(html: &str, selector: &str, attr: &str, n: usize) -> (r: Option<Matched>)
    ensures
        match r {
            Some(m) => match_at(html@, selector@, attr@, n as int) == Some(matched_view(m)),
            None => match_at(html@, selector@, attr@, n as int) is None,
        },
{
    let mut all = select(html, selector, attr);
    proof {
        assert(all@.map_values(|m: Matched| matched_view(m)).len() == all@.len());
    }
    if n < all.len() {
        proof {
            assert(all@.map_values(|m: Matched| matched_view(m))[n as int] == matched_view(all@[n as int]));
        }
        Some(all.swap_remove(n))
    } else {
        None
    }
}

/// Inner HTML of the `n`-th element of `html` that `selector` matches.
pub(crate) fn nth_inner_html(html: &str, selector: &str, n: usize) -> (r: Option<String>)
    ensures
        opt_text(r) == inner_html_at(html@, selector@, n as int),
{
    match nth_match(html, selector, "", n) {
        Some(m) => Some(m.0),
        None => None,
    }
}

/// Attribute `attr` of the `n`-th element of `html` that `selector` matches.
pub(crate) fn nth_attr(html: &str, selector: &str, attr: &str, n: usize) -> (r: Option<String>)
    ensures
        opt_text(r) == attr_part(match_at(html@, selector@, attr@, n as int)),
{
    match nth_match(html, selector, attr, n) {
        Some(m) => m.2,
        None => None,
    }
}

/// Relies on serde_json's `from_str` into a `Value`, `Value::get` and
/// `Value::as_str`.
#[verifier::external_body]
pub(crate) fn json_string(json: &str, key: &str) -> (r: Option<String>)
    ensures
        opt_text(r) == json_string_field(json@, key@),
{
    let value: serde_json::Value = serde_json::from_str(json).ok()?;
    Some(value.get(key)?.as_str()?.to_string())
}

} // verus!
