//! Reading the list of stoves from the portal's summary page.
use vstd::prelude::*;

use crate::model::text_of;
use crate::text::{has_prefix, text_strip_prefix};

verus! {

/// The CSS selector of the links to the stoves on the summary page.
pub const STOVE_LINK_SELECTOR: &'static str = "ul#stoveList li a";

/// The path prefix of a stove's page; the rest of the path is its id.
pub const STOVE_PATH_PREFIX: &'static str = "/web/stove/";

/// The values of attribute `attribute` on the elements of the HTML document
/// `html` that the CSS selector `selector` matches, in document order, with
/// none for an element without the attribute; none at all when `selector`
/// is not a valid selector.
pub uninterp spec fn selected_attribute_values(
    html: Seq<char>,
    selector: Seq<char>,
    attribute: Seq<char>,
) -> Option<Seq<Option<Seq<char>>>>;

/// The character views of a sequence of optional strings.
pub open spec fn optional_texts(values: Seq<Option<String>>) -> Seq<Option<Seq<char>>> {
    values.map_values(|v: Option<String>| text_of(v))
}

/// The character views of a sequence of strings.
pub open spec fn texts(values: Seq<String>) -> Seq<Seq<char>> {
    values.map_values(|v: String| v@)
}

/// Relies on nipper: `Matcher::new` parses the selector (an error for an
/// invalid one), `Document::from` parses the HTML, `select_matcher` gives
/// the matching elements in document order and `attr` reads the attribute
/// of each.
#[verifier::external_body]
fn select_attribute_values(html: &str, selector: &str, attribute: &str) -> (r: Option<
    Vec<Option<String>>,
>)
    ensures
        match selected_attribute_values(html@, selector@, attribute@) {
            Some(values) => r matches Some(v) && optional_texts(v@) == values,
            None => r is None,
        },
{
    let matcher = nipper::Matcher::new(selector).ok()?;
    let document = nipper::Document::from(html);
    let selection = document.select_matcher(&matcher);
    Some(selection.iter().map(|element| element.attr(attribute).map(|v| v.to_string())).collect())
}

/// The stove ids that links with targets `hrefs` point to, in order: each
/// target with the stove path prefix removed. Links without a target, or
/// with one elsewhere, are passed over.
pub open spec fn stove_ids_of(hrefs: Seq<Option<Seq<char>>>) -> Seq<Seq<char>>
    decreases hrefs.len(),
{
    if hrefs.len() == 0 {
        Seq::empty()
    } else {
        let earlier = stove_ids_of(hrefs.drop_last());
        match hrefs.last() {
            Some(h) => if has_prefix(h, STOVE_PATH_PREFIX@) {
                earlier.push(h.subrange(STOVE_PATH_PREFIX@.len() as int, h.len() as int))
            } else {
                earlier
            },
            None => earlier,
        }
    }
}

/// The targets of the stove links on the summary page `html`.
pub open spec fn stove_links_of(html: Seq<char>) -> Seq<Option<Seq<char>>> {
    match selected_attribute_values(html, STOVE_LINK_SELECTOR@, "href"@) {
        Some(hrefs) => hrefs,
        None => Seq::empty(),
    }
}

/// The stove ids that links with targets `hrefs` point to.
pub fn stove_ids_from_links(hrefs: &Vec<Option<String>>) -> (r: Vec<String>)
    ensures
        texts(r@) == stove_ids_of(optional_texts(hrefs@)),
{
    let ghost links = optional_texts(hrefs@);
    let mut ids: Vec<String> = Vec::new();
    let n = hrefs.len();
    let mut i: usize = 0;
    while i < n
        invariant
            n == hrefs@.len(),
            links == optional_texts(hrefs@),
            i <= n,
            texts(ids@) == stove_ids_of(links.subrange(0, i as int)),
        decreases n - i,
    {
        let ghost before = ids@;
        assert(links.subrange(0, i + 1).drop_last() =~= links.subrange(0, i as int));
        assert(links.subrange(0, i + 1).last() == text_of(hrefs@[i as int]));
        match &hrefs[i] {
            Some(h) => match text_strip_prefix(h.as_str(), STOVE_PATH_PREFIX) {
                Some(id) => {
                    ids.push(id);
                    assert(texts(ids@) =~= texts(before).push(ids@.last()@));
                },
                None => {},
            },
            None => {},
        }
        i = i + 1;
    }
    assert(links.subrange(0, n as int) =~= links);
    ids
}

/// The ids of the stoves listed on the portal's summary page `body`.
pub fn extract_stove_ids(body: &str) -> (r: Vec<String>)
    ensures
        texts(r@) == stove_ids_of(stove_links_of(body@)),
{
    match select_attribute_values(body, STOVE_LINK_SELECTOR, "href") {
        Some(hrefs) => stove_ids_from_links(&hrefs),
        None => {
            let none: Vec<String> = Vec::new();
            assert(texts(none@) =~= Seq::<Seq<char>>::empty());
            none
        },
    }
}

} // verus!
