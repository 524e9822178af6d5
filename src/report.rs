//! Formatting the one line of output that reports a page's title.
use vstd::prelude::*;
use vstd::string::StringExecFns;
use crate::document::{first_match_inner_html, opt_view, page_title, title_selector, MAX_PAGE_CHARS};

verus! {

/// The line reported for `url`: `The title for <url> was <title>` where a title
/// was found, `<url> had no title` where none was.
pub open spec fn title_line_spec(url: Seq<char>, title: Option<Seq<char>>) -> Seq<char> {
    match title {
        Some(t) => "The title for "@ + url + " was "@ + t,
        None => url + " had no title"@,
    }
}

/// Formats the report line for `url` and the title found on its page, if any.
pub fn title_line(url: &str, title: &Option<String>) -> (r: String)
    ensures
        r@ == title_line_spec(url@, opt_view(*title)),
{
    proof {
        reveal_strlit("The title for ");
        reveal_strlit(" was ");
        reveal_strlit(" had no title");
    }
    match title {
        Some(t) => {
            let mut line = String::from_str("The title for ");
            line.append(url);
            line.append(" was ");
            line.append(t.as_str());
            line
        },
        None => {
            let mut line = String::from_str(url);
            line.append(" had no title");
            line
        },
    }
}

/// The report line for `url`, given the text of the response fetched from it.
pub fn report_line(url: &str, response_text: &str) -> (r: String)
    requires
        response_text@.len() <= MAX_PAGE_CHARS,
    ensures
        r@ == title_line_spec(
            url@,
            first_match_inner_html(response_text@, title_selector()),
        ),
{
    let title = page_title(response_text);
    title_line(url, &title)
}

} // verus!
