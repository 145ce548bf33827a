use vstd::prelude::*;

verus! {

/// The CSS selector of the link to the newest thread on the forum's news page.
pub const TOP_URL_SELECTOR: &'static str = "body > main > div > div > div > div:nth-child(2) > div > ol > li:nth-child(2) > div > h4 > div > a";

/// What goes wrong when reading the newest thread off the forum's news page.
#[derive(Debug, Clone, Copy, PartialEq, Eq, Structural)]
pub enum ForumPageError {
    /// The CSS selector was refused by the selector parser.
    SelectorRejected,
    /// The link that the selector found carries no `href` attribute.
    MissingHref,
}

/// What `scraper` finds when it parses `document` as an HTML page, takes the
/// first element that `Html::select` yields for the CSS selector `selector`
/// (`select` walks the parsed node tree in the order the parser inserted its
/// nodes), and reads its attribute `attribute`:
/// `None` when `selector` is not a valid selector, `Some(None)` when no
/// element matches, `Some(Some(None))` when the first match lacks the
/// attribute, and `Some(Some(Some(value)))` otherwise.
pub uninterp spec fn first_match_attribute(
    document: Seq<char>,
    selector: Seq<char>,
    attribute: Seq<char>,
) -> Option<Option<Option<Seq<char>>>>;

/// Calls `scraper::Selector::parse` on `selector`, `scraper::Html::parse_document`
/// on `document`, takes the first element of `Html::select`, and reads its
/// attribute with `Element::attr`. The contract claims only that the outcome
/// is a function of the three strings, named `first_match_attribute`.
#[verifier::external_body]
fn select_first_attribute(document: &str, selector: &str, attribute: &str) -> (res: Option<Option<Option<String>>>)
    ensures
        res.deep_view() == first_match_attribute(document@, selector@, attribute@),
{
    let selector = match scraper::Selector::parse(selector) {
        Ok(parsed) => parsed,
        Err(_) => return None,
    };
    let html = scraper::Html::parse_document(document);
    match html.select(&selector).next() {
        None => Some(None),
        Some(element) => match element.value().attr(attribute) {
            None => Some(Some(None)),
            Some(value) => Some(Some(Some(value.to_string()))),
        },
    }
}

/// The newest thread's url as decided from the outcome of the selection:
/// `Ok(None)` when the page holds no matching link.
pub open spec fn top_url_outcome(found: Option<Option<Option<Seq<char>>>>) -> Result<Option<Seq<char>>, ForumPageError> {
    match found {
        None => Err(ForumPageError::SelectorRejected),
        Some(None) => Ok(None),
        Some(Some(None)) => Err(ForumPageError::MissingHref),
        Some(Some(Some(url))) => Ok(Some(url)),
    }
}

/// The view of a url result: the url by its characters.
pub open spec fn url_result_view(res: Result<Option<String>, ForumPageError>) -> Result<Option<Seq<char>>, ForumPageError> {
    match res {
        Ok(Some(url)) => Ok(Some(url@)),
        Ok(None) => Ok(None),
        Err(e) => Err(e),
    }
}

/// Turns the outcome of the selection into the newest thread's url.
pub fn top_url_from_selection(found: Option<Option<Option<String>>>) -> (res: Result<Option<String>, ForumPageError>)
    ensures
        url_result_view(res) == top_url_outcome(found.deep_view()),
        found is None ==> res == Err::<Option<String>, ForumPageError>(ForumPageError::SelectorRejected),
        found == Some(None::<Option<String>>) ==> res == Ok::<Option<String>, ForumPageError>(None),
        found == Some(Some(None::<String>)) ==> res == Err::<Option<String>, ForumPageError>(ForumPageError::MissingHref),
        forall|u: String| found == Some(Some(Some(u))) ==> res == Ok::<Option<String>, ForumPageError>(Some(u)),
{
    match found {
        None => Err(ForumPageError::SelectorRejected),
        Some(None) => Ok(None),
        Some(Some(None)) => Err(ForumPageError::MissingHref),
        Some(Some(Some(url))) => Ok(Some(url)),
    }
}

/// The url of the newest thread on the forum's news page `document`:
/// the `href` of the first link that `Html::select` yields for
/// `TOP_URL_SELECTOR`.
pub fn top_forum_url(document: &str) -> (res: Result<Option<String>, ForumPageError>)
    ensures
        url_result_view(res) == top_url_outcome(
            first_match_attribute(document@, TOP_URL_SELECTOR@, "href"@),
        ),
        forall|u: Seq<char>| first_match_attribute(document@, TOP_URL_SELECTOR@, "href"@) == Some(Some(Some(u)))
            ==> url_result_view(res) == Ok::<Option<Seq<char>>, ForumPageError>(Some(u)),
{
    proof {
        law_found_href_is_the_url(first_match_attribute(document@, TOP_URL_SELECTOR@, "href"@));
    }
    let found = select_first_attribute(document, TOP_URL_SELECTOR, "href");
    top_url_from_selection(found)
}

/// Whatever the href of the first match is, that href is the url returned;
/// no match gives no url; a rejected selector and a match without href are
/// the two errors.
pub proof fn law_found_href_is_the_url(found: Option<Option<Option<Seq<char>>>>)
    ensures
        forall|u: Seq<char>| found == Some(Some(Some(u))) ==> top_url_outcome(found) == Ok::<Option<Seq<char>>, ForumPageError>(Some(u)),
        found == Some(None::<Option<Seq<char>>>) ==> top_url_outcome(found) == Ok::<Option<Seq<char>>, ForumPageError>(None),
        found is None ==> top_url_outcome(found) == Err::<Option<Seq<char>>, ForumPageError>(ForumPageError::SelectorRejected),
        found == Some(Some(None::<Seq<char>>)) ==> top_url_outcome(found) == Err::<Option<Seq<char>>, ForumPageError>(ForumPageError::MissingHref),
{
}

}
