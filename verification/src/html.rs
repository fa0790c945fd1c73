//! HTML documents, read and searched through `scraper`.

use vstd::prelude::*;

verus! {

/// What a CSS selector finds in an HTML document.
#[derive(Debug)]
pub enum Selection {
    /// The selector is not one that `scraper` accepts.
    Invalid,
    /// The selector selects no element of the document.
    NoMatch,
    /// The selector selects an element. Of the first one in document order,
    /// this is the value of the attribute that was asked for, if it has it.
    Match(Option<String>),
}

/// The mathematical value of a [`Selection`].
pub ghost enum SelectionView {
    Invalid,
    NoMatch,
    Match(Option<Seq<char>>),
}

impl View for Selection {
    type V = SelectionView;

    open spec fn view(&self) -> SelectionView {
        match self {
            Selection::Invalid => SelectionView::Invalid,
            Selection::NoMatch => SelectionView::NoMatch,
            Selection::Match(Some(value)) => SelectionView::Match(Some(value@)),
            Selection::Match(None) => SelectionView::Match(None),
        }
    }
}

impl SelectionView {
    /// The value that was found, empty where none was: where the selector is
    /// invalid, where it selects nothing, and where the selected element
    /// lacks the attribute.
    pub open spec fn value_or_empty(self) -> Seq<char> {
        match self {
            SelectionView::Match(Some(value)) => value,
            _ => Seq::empty(),
        }
    }
}

impl Selection {
    /// The value that was found, empty where none was.
    pub fn value_or_empty(self) -> (r: String)
        ensures
            r@ == self@.value_or_empty(),
    {
        match self {
            Selection::Match(Some(value)) => value,
            _ => String::new(),
        }
    }
}

/// What `scraper` finds when it reads `html` as a document and selects with
/// `selector`: the value that the first selected element has for
/// `attribute`.
pub uninterp spec fn selection(
    html: Seq<char>,
    selector: Seq<char>,
    attribute: Seq<char>,
) -> SelectionView;

/// `Selector::parse`, `Html::parse_document`, the first item of
/// `Html::select`, and `Element::attr` on it. The same three texts always
/// give the same answer.
#[verifier::external_body]
pub(crate) fn select_first(html: &str, selector: &str, attribute: &str) -> (r: Selection)
    ensures
        r@ == selection(html@, selector@, attribute@),
{
    let selector = match scraper::Selector::parse(selector) {
        Ok(selector) => selector,
        Err(_) => return Selection::Invalid,
    };
    let document = scraper::Html::parse_document(html);
    match document.select(&selector).next() {
        Some(element) => Selection::Match(element.value().attr(attribute).map(String::from)),
        None => Selection::NoMatch,
    }
}

} // verus!
