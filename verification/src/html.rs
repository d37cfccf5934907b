use vstd::prelude::*;

verus! {

/// One element of a parsed page, reduced to what the extraction rules read.
#[derive(Clone, Debug, PartialEq, Eq)]
pub struct Element {
    /// The values of the attributes that were asked for, in the order in
    /// which they were asked for; `None` where the element has none.
    pub attrs: Vec<Option<String>>,
    /// The text nodes below the element, in document order.
    pub text: Vec<String>,
}

impl DeepView for Element {
    type V = (Seq<Option<Seq<char>>>, Seq<Seq<char>>);

    open spec fn deep_view(&self) -> Self::V {
        (self.attrs.deep_view(), self.text.deep_view())
    }
}

/// The elements of the document `html` that the selector matches, in
/// document order, each with the values of the attributes `attrs` and its
/// text nodes; `None` where `selector` is no selector.
pub uninterp spec fn selected(html: Seq<char>, selector: Seq<char>, attrs: Seq<Seq<char>>) -> Option<Seq<(Seq<Option<Seq<char>>>, Seq<Seq<char>>)>>;

/// Parses `selector` with `scraper::Selector::parse` and `html` with
/// `scraper::Html::parse_document`, walks `Html::select`, and reads each
/// match with `ElementRef::attr` and `ElementRef::text`. The contract claims
/// that the outcome is a function of the three arguments, that a selector
/// that does not parse gives `None`, and that every element comes with one
/// entry for each attribute asked for.
#[verifier::external_body]
pub(crate) fn select(html: &str, selector: &str, attrs: &Vec<String>) -> (r: Option<Vec<Element>>)
    ensures
        r.deep_view() == selected(html@, selector@, attrs.deep_view()),
        r matches Some(found) ==> forall|i: int|
            0 <= i < found.len() ==> (#[trigger] found[i]).attrs.len() == attrs.len(),
{
    let rule = match ::scraper::Selector::parse(selector) {
        Ok(rule) => rule,
        Err(_) => return None,
    };
    let page = ::scraper::Html::parse_document(html);
    Some(page.select(&rule).map(|e| Element {
        attrs: attrs.iter().map(|name| e.attr(name).map(|v| v.to_string())).collect(),
        text: e.text().map(|t| t.to_string()).collect(),
    }).collect())
}

} // verus!
