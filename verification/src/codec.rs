//! Reading and writing JSON text, which the `serde_json` crate does.

use vstd::prelude::*;
use vstd::utf8::{decode_utf8, valid_utf8};
use crate::json::{Json, JsonView};

verus! {

#[verifier::external_type_specification]
#[verifier::external_body]
pub struct ExValue(serde_json::Value);

/// The document that a `serde_json::Value` holds.
pub uninterp spec fn value_content(v: serde_json::Value) -> JsonView;

/// What parsing `bytes` as JSON text gives: the document, or the parser's
/// message.
pub uninterp spec fn json_parsed(bytes: Seq<u8>) -> Result<JsonView, Seq<char>>;

/// The message of the UTF-8 decoder on bytes that are no valid UTF-8.
pub uninterp spec fn utf8_error_text(bytes: Seq<u8>) -> Seq<char>;

/// The JSON text of the object with the given members, or the writer's
/// message.
pub uninterp spec fn object_text(members: Seq<(Seq<char>, ScalarView)>) -> Result<Seq<char>, Seq<char>>;

/// A value that is no array and no object.
#[derive(Debug, PartialEq, Eq)]
pub enum Scalar {
    Text(String),
    Count(u64),
    Flag(bool),
}

/// The mathematical model of a [`Scalar`].
pub enum ScalarView {
    Text(Seq<char>),
    Count(u64),
    Flag(bool),
}

impl View for Scalar {
    type V = ScalarView;

    open spec fn view(&self) -> ScalarView {
        match self {
            Scalar::Text(s) => ScalarView::Text(s@),
            Scalar::Count(n) => ScalarView::Count(*n),
            Scalar::Flag(b) => ScalarView::Flag(*b),
        }
    }
}

/// The models of the members in `v`, in order.
pub open spec fn member_views(v: Seq<(String, Scalar)>) -> Seq<(Seq<char>, ScalarView)> {
    Seq::new(v.len(), |i: int| (v[i].0@, v[i].1@))
}

/// `serde_json::from_slice::<Value>`. Trusted: the outcome is the one that
/// `json_parsed` names for these bytes, a failure by its message.
#[verifier::external_body]
fn parse_value(bytes: &[u8]) -> (r: Result<serde_json::Value, String>)
    ensures
        match r {
            Ok(v) => json_parsed(bytes@) matches Ok(doc) && doc == value_content(v),
            Err(m) => json_parsed(bytes@) matches Err(text) && text == m@,
        },
{
    match serde_json::from_slice::<serde_json::Value>(bytes) {
        Ok(v) => Ok(v),
        Err(e) => Err(e.to_string()),
    }
}

/// One level of a `serde_json::Value`: its variant, with what the variant
/// holds.
pub enum Shape<'a> {
    Null,
    Bool(bool),
    Number(Option<u64>),
    String(&'a String),
    Array(&'a Vec<serde_json::Value>),
    Object(Vec<(&'a String, &'a serde_json::Value)>),
}

/// The document that a [`Shape`] stands for.
pub open spec fn shape_content(shape: Shape) -> JsonView {
    match shape {
        Shape::Null => JsonView::Null,
        Shape::Bool(b) => JsonView::Bool(b),
        Shape::Number(n) => JsonView::Number(n),
        Shape::String(s) => JsonView::String(s@),
        Shape::Array(items) => JsonView::Array(
            Seq::new(items@.len(), |i: int| value_content(items@[i])),
        ),
        Shape::Object(members) => JsonView::Object(
            Seq::new(members@.len(), |i: int| (members@[i].0@, value_content(*members@[i].1))),
        ),
    }
}

/// Tells the variants of a `serde_json::Value` apart and hands out what the
/// variant holds: of a number what `Number::as_u64` gives, of an object the
/// members that `Map::iter` walks. Trusted: the shape stands for the value's
/// content.
#[verifier::external_body]
fn shape_of<'a>(v: &'a serde_json::Value) -> (shape: Shape<'a>)
    ensures
        shape_content(shape) == value_content(*v),
{
    match v {
        serde_json::Value::Null => Shape::Null,
        serde_json::Value::Bool(b) => Shape::Bool(*b),
        serde_json::Value::Number(n) => Shape::Number(n.as_u64()),
        serde_json::Value::String(s) => Shape::String(s),
        serde_json::Value::Array(a) => Shape::Array(a),
        serde_json::Value::Object(o) => Shape::Object(o.iter().collect()),
    }
}

/// Reads what a `serde_json::Value` holds into a [`Json`].
fn json_of_value(v: &serde_json::Value) -> (j: Json)
    ensures
        j@ == value_content(*v),
    decreases value_content(*v),
{
    match shape_of(v) {
        Shape::Null => Json::Null,
        Shape::Bool(b) => Json::Bool(b),
        Shape::Number(n) => Json::Number(n),
        Shape::String(s) => Json::String(s.clone()),
        Shape::Array(items) => {
            let mut list: Vec<Json> = Vec::new();
            let mut i: usize = 0;
            while i < items.len()
                invariant
                    i <= items.len(),
                    list@.len() == i,
                    value_content(*v) == JsonView::Array(
                        Seq::new(items@.len(), |k: int| value_content(items@[k])),
                    ),
                    forall|k: int| 0 <= k < i ==> (#[trigger] list@[k])@ == value_content(items@[k]),
                decreases items.len() - i,
            {
                assert(value_content(*v)->Array_0[i as int] == value_content(items@[i as int]));
                list.push(json_of_value(&items[i]));
                i += 1;
            }
            assert(Json::Array(list)@->Array_0 =~= value_content(*v)->Array_0);
            Json::Array(list)
        },
        Shape::Object(members) => {
            let mut list: Vec<(String, Json)> = Vec::new();
            let mut i: usize = 0;
            while i < members.len()
                invariant
                    i <= members.len(),
                    list@.len() == i,
                    value_content(*v) == JsonView::Object(
                        Seq::new(
                            members@.len(),
                            |k: int| (members@[k].0@, value_content(*members@[k].1)),
                        ),
                    ),
                    forall|k: int|
                        0 <= k < i ==> (#[trigger] list@[k]).0@ == members@[k].0@ && list@[k].1@
                            == value_content(*members@[k].1),
                decreases members.len() - i,
            {
                assert(value_content(*v)->Object_0[i as int].1 == value_content(
                    *members@[i as int].1,
                ));
                let key = members[i].0.clone();
                let value = json_of_value(members[i].1);
                list.push((key, value));
                i += 1;
            }
            assert(Json::Object(list)@->Object_0 =~= value_content(*v)->Object_0);
            Json::Object(list)
        },
    }
}

/// `std::str::from_utf8`. Trusted: valid UTF-8 gives the text it encodes,
/// anything else the decoder's message.
#[verifier::external_body]
pub(crate) fn utf8_text(bytes: &[u8]) -> (r: Result<String, String>)
    ensures
        match r {
            Ok(s) => valid_utf8(bytes@) && s@ == decode_utf8(bytes@),
            Err(m) => !valid_utf8(bytes@) && m@ == utf8_error_text(bytes@),
        },
{
    match std::str::from_utf8(bytes) {
        Ok(s) => Ok(s.to_string()),
        Err(e) => Err(e.to_string()),
    }
}

/// `serde_json::to_string` on the `serde_json::Map` that holds `members`.
/// Trusted: the outcome is the one that `object_text` names for them.
#[verifier::external_body]
pub(crate) fn write_object(members: &Vec<(String, Scalar)>) -> (r: Result<String, String>)
    ensures
        match r {
            Ok(s) => object_text(member_views(members@)) matches Ok(text) && text == s@,
            Err(m) => object_text(member_views(members@)) matches Err(text) && text == m@,
        },
{
    let mut map = serde_json::Map::new();
    for (key, value) in members {
        let v = match value {
            Scalar::Text(s) => serde_json::Value::from(s.clone()),
            Scalar::Count(n) => serde_json::Value::from(*n),
            Scalar::Flag(b) => serde_json::Value::from(*b),
        };
        map.insert(key.clone(), v);
    }
    match serde_json::to_string(&map) {
        Ok(s) => Ok(s),
        Err(e) => Err(e.to_string()),
    }
}

/// The model of a decoding outcome.
pub open spec fn decoded_view(r: Result<Json, String>) -> Result<JsonView, Seq<char>> {
    match r {
        Ok(j) => Ok(j@),
        Err(m) => Err(m@),
    }
}

/// The model of an outcome that is a text or a message.
pub open spec fn text_view(r: Result<String, String>) -> Result<Seq<char>, Seq<char>> {
    match r {
        Ok(s) => Ok(s@),
        Err(m) => Err(m@),
    }
}

/// What decoding `bytes` as UTF-8 gives: the text, or the decoder's message.
pub open spec fn utf8_decoded(bytes: Seq<u8>) -> Result<Seq<char>, Seq<char>> {
    if valid_utf8(bytes) {
        Ok(decode_utf8(bytes))
    } else {
        Err(utf8_error_text(bytes))
    }
}

/// Parses `bytes` as JSON text.
pub fn decode(bytes: &[u8]) -> (r: Result<Json, String>)
    ensures
        decoded_view(r) == json_parsed(bytes@),
{
    match parse_value(bytes) {
        Ok(v) => Ok(json_of_value(&v)),
        Err(m) => Err(m),
    }
}

} // verus!
