use vstd::prelude::*;

verus! {

#[derive(Clone, Copy, Debug, PartialEq, Eq, Structural)]
pub enum Method {
    Get,
    Post,
}

/// What a request carries.
#[derive(Clone, Debug, PartialEq, Eq)]
pub enum Body {
    Empty,
    /// Fields of a form, to be sent URL-encoded.
    Form(Vec<(String, String)>),
    /// A JSON document, to be sent as it stands.
    Json(String),
}

pub enum BodyView {
    Empty,
    Form(Seq<(Seq<char>, Seq<char>)>),
    Json(Seq<char>),
}

impl View for Body {
    type V = BodyView;

    open spec fn view(&self) -> BodyView {
        match self {
            Body::Empty => BodyView::Empty,
            Body::Form(fields) => BodyView::Form(fields.deep_view()),
            Body::Json(text) => BodyView::Json(text@),
        }
    }
}

/// One request for the driver to send. Headers that the session's client
/// adds to every request are not listed.
#[derive(Clone, Debug, PartialEq, Eq)]
pub struct Request {
    pub method: Method,
    pub url: String,
    pub headers: Vec<(String, String)>,
    pub body: Body,
}

pub struct RequestView {
    pub method: Method,
    pub url: Seq<char>,
    pub headers: Seq<(Seq<char>, Seq<char>)>,
    pub body: BodyView,
}

impl View for Request {
    type V = RequestView;

    open spec fn view(&self) -> RequestView {
        RequestView {
            method: self.method,
            url: self.url@,
            headers: self.headers.deep_view(),
            body: self.body@,
        }
    }
}

/// A name and a value as owned strings.
pub fn pair(name: &str, value: &str) -> (r: (String, String))
    ensures
        r.deep_view() == (name@, value@),
{
    (String::from_str(name), String::from_str(value))
}

/// Adds a header at the end of a header list.
pub fn push_header(headers: &mut Vec<(String, String)>, name: &str, value: &str)
    ensures
        final(headers).deep_view() == old(headers).deep_view().push((name@, value@)),
{
    headers.push(pair(name, value));
    assert(headers.deep_view() =~= old(headers).deep_view().push((name@, value@)));
}

} // verus!
