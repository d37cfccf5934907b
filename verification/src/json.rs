use vstd::prelude::*;

verus! {

/// What a JSON document holds at one place.
#[derive(Clone, Debug, PartialEq, Eq)]
pub struct Field {
    /// The value as an integer, where it is one that fits.
    pub number: Option<i64>,
    /// The value as a string, where it is one.
    pub text: Option<String>,
    /// The value written as JSON text; `null` where the place is empty.
    pub json: String,
}

impl DeepView for Field {
    type V = (Option<i64>, Option<Seq<char>>, Seq<char>);

    open spec fn deep_view(&self) -> Self::V {
        (self.number, self.text.deep_view(), self.json@)
    }
}

/// What the JSON document `body` holds at each of `paths`, a path being the
/// keys to follow from the document's root; `None` where `body` is no JSON
/// document.
pub uninterp spec fn json_fields(body: Seq<u8>, paths: Seq<Seq<Seq<char>>>) -> Option<Seq<(Option<i64>, Option<Seq<char>>, Seq<char>)>>;

/// Parses `body` with `serde_json::from_slice`, follows each path with
/// `Value`'s index by key, and reads the value found with `Value::as_i64`,
/// `Value::as_str` and `Value`'s `Display`. The contract claims that the
/// outcome is a function of the two arguments, that a body that does not
/// parse gives `None`, and that there is one field for each path.
#[verifier::external_body]
pub(crate) fn read_fields(body: &[u8], paths: &Vec<Vec<String>>) -> (r: Option<Vec<Field>>)
    ensures
        r.deep_view() == json_fields(body@, paths.deep_view()),
        r matches Some(fields) ==> fields.len() == paths.len(),
{
    let root: ::serde_json::Value = match ::serde_json::from_slice(body) {
        Ok(root) => root,
        Err(_) => return None,
    };
    Some(paths.iter().map(|path| {
        let at = path.iter().fold(&root, |at, key| &at[key.as_str()]);
        Field { number: at.as_i64(), text: at.as_str().map(|s| s.to_string()), json: at.to_string() }
    }).collect())
}

/// The JSON string literal for the text `s`: quoted and escaped.
pub uninterp spec fn json_string(s: Seq<char>) -> Seq<char>;

/// Writes `s` as a JSON string with `serde_json::Value`'s `Display`. The
/// contract claims that the outcome is a function of `s`.
#[verifier::external_body]
pub(crate) fn quote(s: &str) -> (r: String)
    ensures
        r@ == json_string(s@),
{
    ::serde_json::Value::String(s.to_string()).to_string()
}

} // verus!
