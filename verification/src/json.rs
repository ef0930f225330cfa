//! JSON documents, as far as the classification of responses reads them.

use crate::text::same_text;
use vstd::prelude::*;

verus! {

/// `serde_json::Value`, carried from the parser to the conversion.
#[verifier::external_type_specification]
#[verifier::external_body]
pub struct ExValue(serde_json::Value);

/// A JSON value. Of a number with a fraction or an exponent only the kind is kept.
/// The members of an object stand in a list, each name once.
#[derive(Debug, PartialEq, Eq)]
pub enum Json {
    Null,
    Bool(bool),
    Unsigned(u64),
    Signed(i64),
    Float,
    Text(String),
    Array(Vec<Json>),
    Object(Vec<(String, Json)>),
}

/// The value that `serde_json::from_slice` reads from `bytes`; `None` where the
/// bytes are no JSON document.
pub uninterp spec fn json_document(bytes: Seq<u8>) -> Option<Json>;

/// Turns a `serde_json::Value` into a `Json`, variant by variant. A number goes
/// by `Number::as_u64` and `Number::as_i64`.
#[verifier::external_body]
fn json_from(value: serde_json::Value) -> Json {
    match value {
        serde_json::Value::Null => Json::Null,
        serde_json::Value::Bool(flag) => Json::Bool(flag),
        serde_json::Value::Number(number) => match (number.as_u64(), number.as_i64()) {
            (Some(value), _) => Json::Unsigned(value),
            (_, Some(value)) => Json::Signed(value),
            _ => Json::Float,
        },
        serde_json::Value::String(text) => Json::Text(text),
        serde_json::Value::Array(items) => Json::Array(items.into_iter().map(json_from).collect()),
        serde_json::Value::Object(members) => Json::Object(
            members.into_iter().map(|(name, value)| (name, json_from(value))).collect(),
        ),
    }
}

/// `serde_json::from_slice` at the type `serde_json::Value`, its error dropped.
#[verifier::external_body]
pub(crate) fn parse_json(bytes: &[u8]) -> (document: Option<Json>)
    ensures
        document == json_document(bytes@),
{
    serde_json::from_slice::<serde_json::Value>(bytes).ok().map(json_from)
}

/// The value of the first member named `key`.
pub open spec fn member(members: Seq<(String, Json)>, key: Seq<char>) -> Option<Json>
    decreases members.len(),
{
    if members.len() == 0 {
        None
    } else if members[0].0@ == key {
        Some(members[0].1)
    } else {
        member(members.drop_first(), key)
    }
}

/// The text of the member named `key`: empty where there is no such member,
/// `None` where the member is no string.
pub open spec fn text_member(members: Seq<(String, Json)>, key: Seq<char>) -> Option<Seq<char>> {
    match member(members, key) {
        None => Some(Seq::empty()),
        Some(Json::Text(text)) => Some(text@),
        Some(_) => None,
    }
}

/// The value of the first member named `key`.
pub fn get<'a>(members: &'a Vec<(String, Json)>, key: &str) -> (value: Option<&'a Json>)
    ensures
        match value {
            Some(found) => member(members@, key@) == Some(*found),
            None => member(members@, key@) is None,
        },
{
    let mut i: usize = 0;
    proof {
        assert(members@.skip(0) == members@);
    }
    while i < members.len()
        invariant
            i <= members.len(),
            member(members@, key@) == member(members@.skip(i as int), key@),
        decreases members.len() - i,
    {
        proof {
            let rest = members@.skip(i as int);
            assert(rest[0] == members@[i as int]);
            assert(rest.drop_first() == members@.skip(i + 1));
        }
        if same_text(members[i].0.as_str(), key) {
            return Some(&members[i].1);
        }
        i += 1;
    }
    None
}

/// The text of the member named `key`, as `text_member` has it.
pub fn get_text(members: &Vec<(String, Json)>, key: &str) -> (text: Option<String>)
    ensures
        match text {
            Some(found) => text_member(members@, key@) == Some(found@),
            None => text_member(members@, key@) is None,
        },
{
    match get(members, key) {
        None => Some(String::new()),
        Some(Json::Text(text)) => Some(text.clone()),
        Some(_) => None,
    }
}

} // verus!
