//! A JSON document as plain values, the parser that produces it, and the
//! lookups that the forecast reader needs.

use vstd::prelude::*;
use crate::error::WeatherError;
use crate::error::WeatherErrorView;
use crate::text::same_text;

verus! {

/// One name/value pair of a JSON object.
#[derive(Debug, PartialEq)]
pub struct Member {
    pub name: String,
    pub value: Json,
}

/// A JSON document.
#[derive(Debug, PartialEq)]
pub enum Json {
    Null,
    Bool(bool),
    /// A number, read as a double-precision float and held as that float's
    /// IEEE 754 bit pattern; `None` where the numeral has no such reading.
    Number(Option<u64>),
    Text(String),
    Array(Vec<Json>),
    /// The members of an object, in the order in which the parser hands
    /// them out.
    Object(Vec<Member>),
}

/// The mathematical value of a `Member`.
pub struct MemberValue {
    pub name: Seq<char>,
    pub value: JsonValue,
}

/// The mathematical value of a `Json`.
pub enum JsonValue {
    Null,
    Bool(bool),
    Number(Option<u64>),
    Text(Seq<char>),
    Array(Seq<JsonValue>),
    Object(Seq<MemberValue>),
}

/// The mathematical value of a document: the same tree, with every string
/// as its characters and every vector as a sequence.
pub open spec fn value_of(node: Json) -> JsonValue
    decreases node,
{
    match node {
        Json::Null => JsonValue::Null,
        Json::Bool(b) => JsonValue::Bool(b),
        Json::Number(bits) => JsonValue::Number(bits),
        Json::Text(text) => JsonValue::Text(text@),
        Json::Array(items) => JsonValue::Array(
            Seq::new(
                items@.len(),
                |i: int|
                    if 0 <= i < items@.len() {
                        value_of(items@[i])
                    } else {
                        JsonValue::Null
                    },
            ),
        ),
        Json::Object(members) => JsonValue::Object(
            Seq::new(
                members@.len(),
                |i: int|
                    if 0 <= i < members@.len() {
                        MemberValue { name: members@[i].name@, value: value_of(members@[i].value) }
                    } else {
                        MemberValue { name: Seq::empty(), value: JsonValue::Null }
                    },
            ),
        ),
    }
}

impl View for Json {
    type V = JsonValue;

    open spec fn view(&self) -> JsonValue {
        value_of(*self)
    }
}

/// The value of the first of `members` that is called `name`.
pub open spec fn first_named(members: Seq<MemberValue>, name: Seq<char>) -> Option<JsonValue>
    decreases members.len(),
{
    if members.len() == 0 {
        None
    } else if members[0].name == name {
        Some(members[0].value)
    } else {
        first_named(members.drop_first(), name)
    }
}

/// The value of an optional reference to a document.
pub open spec fn found_value(found: Option<&Json>) -> Option<JsonValue> {
    match found {
        Some(node) => Some(node@),
        None => None,
    }
}

/// What is reported of a required field that is not there.
pub open spec fn missing() -> Seq<char> {
    "missing"@
}

/// What is reported of a field that should hold a string and does not.
pub open spec fn not_text() -> Seq<char> {
    "expected a string"@
}

/// What is reported of a field that should hold a number and does not.
pub open spec fn not_number() -> Seq<char> {
    "expected a number"@
}

/// What is reported of a field that should hold an array and does not.
pub open spec fn not_array() -> Seq<char> {
    "expected an array"@
}

impl JsonValue {
    /// The member called `name`, where this is an object that has one.
    pub open spec fn member(self, name: Seq<char>) -> Option<JsonValue> {
        match self {
            JsonValue::Object(members) => first_named(members, name),
            _ => None,
        }
    }
}

/// One step down from a value that may be absent: the member called `name`
/// of `found`, where `found` is an object that has one.
pub open spec fn step(found: Option<JsonValue>, name: Seq<char>) -> Option<JsonValue> {
    match found {
        Some(value) => value.member(name),
        None => None,
    }
}

/// The string that a required field holds, or what is wrong with the field.
pub open spec fn text_in(found: Option<JsonValue>) -> Result<Seq<char>, Seq<char>> {
    match found {
        None => Err(missing()),
        Some(JsonValue::Text(text)) => Ok(text),
        Some(_) => Err(not_text()),
    }
}

/// The number that a required field holds, or what is wrong with the field.
pub open spec fn number_in(found: Option<JsonValue>) -> Result<u64, Seq<char>> {
    match found {
        None => Err(missing()),
        Some(JsonValue::Number(Some(bits))) => Ok(bits),
        Some(_) => Err(not_number()),
    }
}

/// The items of the array that a required field holds, or what is wrong with
/// the field.
pub open spec fn array_in(found: Option<JsonValue>) -> Result<Seq<JsonValue>, Seq<char>> {
    match found {
        None => Err(missing()),
        Some(JsonValue::Array(items)) => Ok(items),
        Some(_) => Err(not_array()),
    }
}

/// The value of an array holds the values of its items, in order.
pub proof fn lemma_array_value(node: Json)
    requires
        node is Array,
    ensures
        node@ matches JsonValue::Array(values) && values.len() == node->Array_0@.len()
            && forall|i: int| 0 <= i < values.len() ==> values[i] == #[trigger] node->Array_0@[i]@,
{
}

/// The value of an object holds the names and values of its members, in
/// order.
pub proof fn lemma_object_value(node: Json)
    requires
        node is Object,
    ensures
        node@ matches JsonValue::Object(values) && values.len() == node->Object_0@.len()
            && forall|i: int|
            0 <= i < values.len() ==> values[i] == (MemberValue {
                name: (#[trigger] node->Object_0@[i]).name@,
                value: node->Object_0@[i].value@,
            }),
{
}

impl Json {
    /// The member called `name`, where this is an object that has one.
    pub fn member(&self, name: &str) -> (found: Option<&Json>)
        ensures
            found_value(found) == self@.member(name@),
    {
        match self {
            Json::Object(members) => {
                let ghost values = self@->Object_0;
                proof {
                    lemma_object_value(*self);
                }
                assert(values.skip(0) =~= values);
                let mut i: usize = 0;
                while i < members.len()
                    invariant
                        i <= members.len(),
                        self@ == JsonValue::Object(values),
                        values.len() == members@.len(),
                        forall|k: int|
                            0 <= k < members@.len() ==> values[k] == (MemberValue {
                                name: (#[trigger] members@[k]).name@,
                                value: members@[k].value@,
                            }),
                        first_named(values, name@) == first_named(values.skip(i as int), name@),
                    decreases members.len() - i,
                {
                    let ghost rest = values.skip(i as int);
                    assert(rest[0] == values[i as int]);
                    assert(rest.drop_first() =~= values.skip(i + 1));
                    if same_text(members[i].name.as_str(), name) {
                        return Some(&members[i].value);
                    }
                    i += 1;
                }
                None
            },
            _ => None,
        }
    }
}

/// One step down from a document that may be absent.
pub fn descend<'a>(found: Option<&'a Json>, name: &str) -> (below: Option<&'a Json>)
    ensures
        found_value(below) == step(found_value(found), name@),
{
    match found {
        Some(node) => node.member(name),
        None => None,
    }
}

/// The string that a required field holds, or what is wrong with the field.
pub fn read_text(found: Option<&Json>) -> (r: Result<String, &'static str>)
    ensures
        match r {
            Ok(text) => text_in(found_value(found)) == Ok::<Seq<char>, Seq<char>>(text@),
            Err(fault) => text_in(found_value(found)) == Err::<Seq<char>, Seq<char>>(fault@),
        },
{
    match found {
        None => Err("missing"),
        Some(Json::Text(text)) => Ok(text.clone()),
        Some(_) => Err("expected a string"),
    }
}

/// The number that a required field holds, or what is wrong with the field.
pub fn read_number(found: Option<&Json>) -> (r: Result<u64, &'static str>)
    ensures
        match r {
            Ok(bits) => number_in(found_value(found)) == Ok::<u64, Seq<char>>(bits),
            Err(fault) => number_in(found_value(found)) == Err::<u64, Seq<char>>(fault@),
        },
{
    match found {
        None => Err("missing"),
        Some(Json::Number(Some(bits))) => Ok(*bits),
        Some(_) => Err("expected a number"),
    }
}

/// The items of the array that a required field holds, or what is wrong with
/// the field.
pub fn read_array<'a>(found: Option<&'a Json>) -> (r: Result<&'a Vec<Json>, &'static str>)
    ensures
        match r {
            Ok(items) => {
                &&& array_in(found_value(found)) matches Ok(values)
                &&& values.len() == items@.len()
                &&& forall|i: int| 0 <= i < values.len() ==> values[i] == #[trigger] items@[i]@
            },
            Err(fault) => array_in(found_value(found)) == Err::<Seq<JsonValue>, Seq<char>>(fault@),
        },
{
    match found {
        None => Err("missing"),
        Some(Json::Array(items)) => {
            proof {
                lemma_array_value(*found.unwrap());
            }
            Ok(items)
        },
        Some(_) => Err("expected an array"),
    }
}

/// `serde_json::Value`, the parser's own tree, declared so that `lower` can
/// take one. It is opaque here: contracts speak of the `Json` it is moved
/// into.
#[verifier::external_type_specification]
#[verifier::external_body]
pub struct ExValue(serde_json::Value);

/// What `serde_json::from_slice` makes of `body`, read as a
/// `serde_json::Value`: the document, or the text of the parser's error.
pub uninterp spec fn parsed_document(body: Seq<u8>) -> Result<JsonValue, Seq<char>>;

/// Moves a `serde_json::Value` into a `Json`: the converting half of
/// `parse_document`, apart from it because it calls itself.
///
/// Trusted, and nothing is claimed of it alone. Each variant goes to the
/// variant of the same kind and keeps what it holds. A number is read with
/// `serde_json::Number::as_f64` and kept as the bits of that float; an
/// object's members come in the order of `serde_json::Map`'s own iterator.
#[verifier::external_body]
fn lower(value: serde_json::Value) -> (node: Json) {
    match value {
        serde_json::Value::Null => Json::Null,
        serde_json::Value::Bool(b) => Json::Bool(b),
        serde_json::Value::Number(n) => Json::Number(n.as_f64().map(|x| x.to_bits())),
        serde_json::Value::String(text) => Json::Text(text),
        serde_json::Value::Array(items) => Json::Array(items.into_iter().map(lower).collect()),
        serde_json::Value::Object(members) => Json::Object(
            members.into_iter().map(|(name, value)| Member { name, value: lower(value) }).collect(),
        ),
    }
}

/// Parses `body` as JSON.
///
/// Trusted: this is `serde_json::from_slice` at the type
/// `serde_json::Value`. The contract gives its result the name
/// `parsed_document` and so claims only that the result depends on the bytes
/// alone: on success the document that was parsed, on failure the parser's
/// error as text (`to_string`). Which bytes parse, and to what, is
/// `serde_json`'s to say.
#[verifier::external_body]
fn parse_document(body: &[u8]) -> (r: Result<Json, String>)
    ensures
        match r {
            Ok(doc) => parsed_document(body@) == Ok::<JsonValue, Seq<char>>(doc@),
            Err(why) => parsed_document(body@) == Err::<JsonValue, Seq<char>>(why@),
        },
{
    match serde_json::from_slice::<serde_json::Value>(body) {
        Ok(value) => Ok(lower(value)),
        Err(error) => Err(error.to_string()),
    }
}

/// Parses `body` as JSON; a body that is not JSON gives a `Parse` error that
/// carries the parser's complaint.
pub fn parse(body: &[u8]) -> (r: Result<Json, WeatherError>)
    ensures
        match parsed_document(body@) {
            Ok(value) => r matches Ok(doc) && doc@ == value,
            Err(why) => r matches Err(e) && e@ == WeatherErrorView::Parse(why),
        },
{
    match parse_document(body) {
        Ok(doc) => Ok(doc),
        Err(why) => Err(WeatherError::Parse(why)),
    }
}

} // verus!
