//! Reading JSON, one level at a time.

use crate::seqs::{first_from, first_where};
use crate::text::same_text;
use vstd::prelude::*;

verus! {

/// A value of JSON. What an object holds is left as text.
#[derive(Debug, PartialEq, Eq)]
pub enum Json {
    Null,
    Bool(bool),
    /// A number, where it is a whole one that is not negative and not too large.
    Number(Option<u64>),
    Text(String),
    List,
    /// The names and the values, which are JSON again.
    Object(Vec<(String, String)>),
}

/// What a value of JSON is, as a value of mathematics.
pub ghost enum JsonView {
    Null,
    Bool(bool),
    Number(Option<u64>),
    Text(Seq<char>),
    List,
    Object(Seq<(Seq<char>, Seq<char>)>),
}

/// The names and values of an object, as values of mathematics.
pub open spec fn members(pairs: Seq<(String, String)>) -> Seq<(Seq<char>, Seq<char>)> {
    pairs.map_values(|pair: (String, String)| (pair.0@, pair.1@))
}

impl View for Json {
    type V = JsonView;

    open spec fn view(&self) -> JsonView {
        match self {
            Json::Null => JsonView::Null,
            Json::Bool(truth) => JsonView::Bool(*truth),
            Json::Number(number) => JsonView::Number(*number),
            Json::Text(text) => JsonView::Text(text@),
            Json::List => JsonView::List,
            Json::Object(pairs) => JsonView::Object(members(pairs@)),
        }
    }
}

/// A value that may not have been readable.
pub open spec fn json_view(value: Option<Json>) -> Option<JsonView> {
    match value {
        Some(value) => Some(value@),
        None => None,
    }
}

/// What `serde_json` reads from a text, where it is JSON.
pub uninterp spec fn json_value(text: Seq<char>) -> Option<JsonView>;

/// `serde_json::from_str` reads a value of JSON from a text, here with the members of an object
/// written out again. What it reads is named, not spelled out.
#[verifier::external_body]
pub(crate) fn read_json(text: &str) -> (r: Option<Json>)
    ensures
        json_view(r) == json_value(text@),
{
    match serde_json::from_str::<serde_json::Value>(text) {
        Err(_) => None,
        Ok(serde_json::Value::Null) => Some(Json::Null),
        Ok(serde_json::Value::Bool(truth)) => Some(Json::Bool(truth)),
        Ok(serde_json::Value::Number(number)) => Some(Json::Number(number.as_u64())),
        Ok(serde_json::Value::String(text)) => Some(Json::Text(text)),
        Ok(serde_json::Value::Array(_)) => Some(Json::List),
        Ok(serde_json::Value::Object(map)) => Some(
            Json::Object(map.into_iter().map(|(name, value)| (name, value.to_string())).collect()),
        ),
    }
}

/// Whether a member has a name.
pub open spec fn is_named(name: Seq<char>) -> spec_fn((Seq<char>, Seq<char>)) -> bool {
    |pair: (Seq<char>, Seq<char>)| pair.0 == name
}

/// The value of the member with a name.
pub open spec fn member(pairs: Seq<(Seq<char>, Seq<char>)>, name: Seq<char>) -> Option<Seq<char>> {
    match first_where(pairs, is_named(name)) {
        Some(i) => Some(pairs[i].1),
        None => None,
    }
}

/// The value of the member with a name.
pub fn find_member<'a>(pairs: &'a Vec<(String, String)>, name: &str) -> (r: Option<&'a str>)
    ensures
        match r {
            Some(value) => member(members(pairs@), name@) == Some(value@),
            None => member(members(pairs@), name@) is None,
        },
{
    let mut i: usize = 0;
    while i < pairs.len()
        invariant
            i <= pairs@.len(),
            first_where(members(pairs@), is_named(name@)) == first_from(
                members(pairs@),
                is_named(name@),
                i as int,
            ),
        decreases pairs@.len() - i,
    {
        proof {
            assert(members(pairs@)[i as int] == (pairs@[i as int].0@, pairs@[i as int].1@));
        }
        if same_text(pairs[i].0.as_str(), name) {
            return Some(pairs[i].1.as_str());
        }
        i += 1;
    }
    None
}

} // verus!
