//! Querying an HTML document for the first element that a selector matches.
use vstd::prelude::*;

verus! {

/// The inner HTML of the first element of the document parsed from `html`
/// that `selector` matches (in the order in which the parser created the
/// elements), or `None` where no element matches.
pub uninterp spec fn first_match_inner_html(html: Seq<char>, selector: Seq<char>) -> Option<
    Seq<char>,
>;

/// The longest page text, in chars, that the parser takes: its UTF-8 encoding
/// then fits in `u32::MAX` bytes.
pub const MAX_PAGE_CHARS: usize = 0x3fff_ffff;

/// The view of an optional string: its characters, when present.
pub open spec fn opt_view(s: Option<String>) -> Option<Seq<char>> {
    match s {
        Some(t) => Some(t@),
        None => None,
    }
}

/// A CSS type selector made of lowercase ASCII letters only (such as `title`).
pub open spec fn is_tag_selector(selector: Seq<char>) -> bool {
    &&& selector.len() > 0
    &&& forall|i: int| 0 <= i < selector.len() ==> 'a' <= #[trigger] selector[i] <= 'z'
}

/// The selector that picks out the title element of a page.
pub open spec fn title_selector() -> Seq<char> {
    seq!['t', 'i', 't', 'l', 'e']
}

/// Relies on `trpl::Html::parse` (an html5ever document parse of the whole
/// text), `trpl::Html::select_first` (the first attached element that the
/// selector matches, in the order in which the parser created the tree's
/// nodes) and `scraper::ElementRef::inner_html` (the serialised children of
/// that element). With scraper's `deterministic` feature, attributes keep their
/// source order, so the result depends on the two texts alone.
/// The parse panics on a text of more than `u32::MAX` bytes, which the bound on
/// `html` rules out (a char takes at most four bytes). `select_first` panics on
/// a selector that does not parse, which a lowercase tag name always does.
#[verifier::external_body]
fn select_first_inner_html(html: &str, selector: &str) -> (r: Option<String>)
    requires
        html@.len() <= MAX_PAGE_CHARS,
        is_tag_selector(selector@),
    ensures
        opt_view(r) == first_match_inner_html(html@, selector@),
{
    let document = trpl::Html::parse(html);
    match document.select_first(selector) {
        Some(element) => Some(element.inner_html()),
        None => None,
    }
}

/// The inner HTML of the first `title` element of the page whose body is
/// `response_text`, or `None` where the page has no `title` element.
pub fn page_title(response_text: &str) -> (r: Option<String>)
    requires
        response_text@.len() <= MAX_PAGE_CHARS,
    ensures
        opt_view(r) == first_match_inner_html(response_text@, title_selector()),
{
    let selector: &str = "title";
    proof {
        reveal_strlit("title");
        assert(selector@ =~= title_selector());
    }
    select_first_inner_html(response_text, selector)
}

} // verus!
