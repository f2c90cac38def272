//! JSON documents as plain values, parsed by `serde_json`.
//!
//! A number keeps the text that `serde_json` prints for it; the library reads
//! the digits itself where it needs a value.
use vstd::prelude::*;
use crate::text::str_eq;

verus! {

/// `serde_json`'s dynamically typed value.
#[verifier::external_type_specification]
#[verifier::external_body]
pub struct ExValue(serde_json::Value);

/// `serde_json`'s error.
#[verifier::external_type_specification]
#[verifier::external_body]
pub struct ExJsonError(serde_json::Error);

/// A JSON value.
pub enum Json {
    Null,
    Bool(bool),
    Number(String),
    Str(String),
    Array(Vec<Json>),
    Object(Vec<(String, Json)>),
}

/// The mathematical model of a JSON value.
pub enum JsonView {
    Null,
    Bool(bool),
    Number(Seq<char>),
    Str(Seq<char>),
    Array(Seq<JsonView>),
    Object(Seq<(Seq<char>, JsonView)>),
}

/// The model of a value.
pub open spec fn json_view(j: Json) -> JsonView
    decreases j,
{
    match j {
        Json::Null => JsonView::Null,
        Json::Bool(b) => JsonView::Bool(b),
        Json::Number(t) => JsonView::Number(t@),
        Json::Str(s) => JsonView::Str(s@),
        Json::Array(v) => JsonView::Array(json_view_seq(v@)),
        Json::Object(v) => JsonView::Object(json_view_fields(v@)),
    }
}

/// The models of a sequence of values.
pub open spec fn json_view_seq(s: Seq<Json>) -> Seq<JsonView>
    decreases s,
{
    if s.len() == 0 {
        seq![]
    } else {
        json_view_seq(s.drop_last()).push(json_view(s.last()))
    }
}

/// The models of the fields of an object.
pub open spec fn json_view_fields(s: Seq<(String, Json)>) -> Seq<(Seq<char>, JsonView)>
    decreases s,
{
    if s.len() == 0 {
        seq![]
    } else {
        json_view_fields(s.drop_last()).push((s.last().0@, json_view(s.last().1)))
    }
}

/// What `serde_json` parses a text into: `None` when the text is not JSON.
pub uninterp spec fn json_document(text: Seq<char>) -> Option<JsonView>;

/// Parses a JSON text with `serde_json::from_str` into a `serde_json::Value`
/// and converts that value into a `Json` one for one. The contract names the
/// result and claims nothing else of it.
#[verifier::external_body]
fn json_from_str(text: &str) -> (r: Result<Json, serde_json::Error>)
    ensures
        match r {
            Ok(j) => json_document(text@) == Some(json_view(j)),
            Err(_) => json_document(text@) is None,
        },
{
    serde_json::from_str::<serde_json::Value>(text).map(json_of_value)
}

/// Converts a `serde_json::Value` variant by variant; a number becomes the
/// text that its `Display` prints.
#[verifier::external_body]
fn json_of_value(v: serde_json::Value) -> Json {
    match v {
        serde_json::Value::Null => Json::Null,
        serde_json::Value::Bool(b) => Json::Bool(b),
        serde_json::Value::Number(n) => Json::Number(n.to_string()),
        serde_json::Value::String(s) => Json::Str(s),
        serde_json::Value::Array(a) => Json::Array(a.into_iter().map(json_of_value).collect()),
        serde_json::Value::Object(m) => Json::Object(m.into_iter().map(|(k, x)| (k, json_of_value(x))).collect()),
    }
}

/// A JSON text that could not be parsed.
pub struct JsonSyntaxError;

/// Parses a JSON text.
pub fn parse_json(text: &str) -> (r: Result<Json, JsonSyntaxError>)
    ensures
        match r {
            Ok(j) => json_document(text@) == Some(json_view(j)),
            Err(_) => json_document(text@) is None,
        },
{
    match json_from_str(text) {
        Ok(j) => Ok(j),
        Err(_) => Err(JsonSyntaxError),
    }
}

/// The value of the first field named `key`.
pub open spec fn field_of(fields: Seq<(Seq<char>, JsonView)>, key: Seq<char>) -> Option<JsonView>
    decreases fields.len(),
{
    if fields.len() == 0 {
        None
    } else if fields[0].0 == key {
        Some(fields[0].1)
    } else {
        field_of(fields.drop_first(), key)
    }
}

/// The value of a field of an object; `None` for a missing field or a value
/// that is not an object.
pub open spec fn get_spec(v: JsonView, key: Seq<char>) -> Option<JsonView> {
    match v {
        JsonView::Object(fields) => field_of(fields, key),
        _ => None,
    }
}

/// The models of a sequence of values, element by element.
pub proof fn lemma_view_seq_index(s: Seq<Json>, i: int)
    requires
        0 <= i < s.len(),
    ensures
        json_view_seq(s).len() == s.len(),
        json_view_seq(s)[i] == json_view(s[i]),
    decreases s.len(),
{
    lemma_view_seq_len(s);
    if i < s.len() - 1 {
        lemma_view_seq_index(s.drop_last(), i);
    }
}

/// The models of a sequence of values are as many as the values.
pub proof fn lemma_view_seq_len(s: Seq<Json>)
    ensures
        json_view_seq(s).len() == s.len(),
    decreases s.len(),
{
    if s.len() > 0 {
        lemma_view_seq_len(s.drop_last());
    }
}

/// The models of the fields of an object, field by field.
pub proof fn lemma_view_fields_index(s: Seq<(String, Json)>, i: int)
    requires
        0 <= i < s.len(),
    ensures
        json_view_fields(s).len() == s.len(),
        json_view_fields(s)[i] == (s[i].0@, json_view(s[i].1)),
    decreases s.len(),
{
    lemma_view_fields_len(s);
    if i < s.len() - 1 {
        lemma_view_fields_index(s.drop_last(), i);
    }
}

/// The models of the fields of an object are as many as the fields.
pub proof fn lemma_view_fields_len(s: Seq<(String, Json)>)
    ensures
        json_view_fields(s).len() == s.len(),
    decreases s.len(),
{
    if s.len() > 0 {
        lemma_view_fields_len(s.drop_last());
    }
}

/// The value of the first field named `key` of an object.
pub fn get<'a>(v: &'a Json, key: &str) -> (r: Option<&'a Json>)
    ensures
        match r {
            Some(x) => get_spec(json_view(*v), key@) == Some(json_view(*x)),
            None => get_spec(json_view(*v), key@) is None,
        },
{
    match v {
        Json::Object(fields) => {
            let ghost fv = json_view_fields(fields@);
            proof {
                lemma_view_fields_len(fields@);
                assert(fv.skip(0) =~= fv);
            }
            let mut i: usize = 0;
            while i < fields.len()
                invariant
                    i <= fields@.len(),
                    fv == json_view_fields(fields@),
                    json_view(*v) == JsonView::Object(fv),
                    fv.len() == fields@.len(),
                    field_of(fv, key@) == field_of(fv.skip(i as int), key@),
                decreases fields@.len() - i,
            {
                proof {
                    lemma_view_fields_index(fields@, i as int);
                    assert(fv.skip(i as int)[0] == fv[i as int]);
                    assert(fv.skip(i as int).drop_first() =~= fv.skip(i + 1));
                }
                if str_eq(fields[i].0.as_str(), key) {
                    assert(field_of(fv.skip(i as int), key@) == Some(fv[i as int].1));
                    assert(fv[i as int].1 == json_view(fields@[i as int].1));
                    return Some(&fields[i].1);
                }
                i += 1;
            }
            None
        },
        _ => None,
    }
}

} // verus!
