//! JSON documents, as the `serde_json` crate reads and writes them.

use serde_json::Value;
use vstd::prelude::*;

verus! {

/// What a JSON value is.
pub enum Json {
    Null,
    Bool(bool),
    /// A number: how it is written, and its value where that is an `i64`.
    Number(Seq<char>, Option<i64>),
    Text(Seq<char>),
    Array(Seq<Json>),
    /// The members, in the order in which they are kept.
    Object(Seq<(Seq<char>, Json)>),
}

impl Json {
    /// The member of an object with the key; nothing else has members.
    pub open spec fn member(self, key: Seq<char>) -> Option<Json> {
        match self {
            Json::Object(members) => lookup(members, key),
            _ => None,
        }
    }

    /// The element of an array with the index; nothing else has elements.
    pub open spec fn element(self, index: nat) -> Option<Json> {
        match self {
            Json::Array(elements) if index < elements.len() => Some(elements[index as int]),
            _ => None,
        }
    }

    /// The text that the value is.
    pub open spec fn text(self) -> Option<Seq<char>> {
        match self {
            Json::Text(text) => Some(text),
            _ => None,
        }
    }

    /// The integer that the value is, where it is one in the range of an `i64`.
    pub open spec fn integer(self) -> Option<i64> {
        match self {
            Json::Number(_, integer) => integer,
            _ => None,
        }
    }
}

/// The value of the member with the key.
pub open spec fn lookup(members: Seq<(Seq<char>, Json)>, key: Seq<char>) -> Option<Json>
    decreases members.len(),
{
    if members.len() == 0 {
        None
    } else if members.last().0 == key {
        Some(members.last().1)
    } else {
        lookup(members.drop_last(), key)
    }
}

/// Declares `serde_json::Value`, a JSON value.
#[verifier::external_type_specification]
#[verifier::external_body]
pub struct ExValue(serde_json::Value);

/// What a `serde_json::Value` holds.
pub uninterp spec fn json_content(value: Value) -> Json;

/// What `serde_json::from_str` reads in a text; nothing where it is not JSON.
pub uninterp spec fn json_parsed(text: Seq<char>) -> Option<Json>;

/// How `serde_json` writes a value in compact form.
pub uninterp spec fn json_written(content: Json) -> Seq<char>;

/// Calls `serde_json::from_str`: what is read is a function of the text, and
/// nothing where the text is not JSON.
#[verifier::external_body]
pub(crate) fn parse_json(text: &str) -> (value: Option<Value>)
    ensures
        match value {
            Some(value) => json_parsed(text@) == Some(json_content(value)),
            None => json_parsed(text@) is None,
        },
{
    serde_json::from_str(text).ok()
}

/// Calls `serde_json::Value::get` with a key: the member of an object with the
/// key, if there is one.
#[verifier::external_body]
pub(crate) fn json_member<'a>(value: &'a Value, key: &str) -> (member: Option<&'a Value>)
    ensures
        match member {
            Some(member) => json_content(*value).member(key@) == Some(json_content(*member)),
            None => json_content(*value).member(key@) is None,
        },
{
    value.get(key)
}

/// Calls `serde_json::Value::get` with an index: the element of an array at the
/// index, if there is one.
#[verifier::external_body]
pub(crate) fn json_element<'a>(value: &'a Value, index: usize) -> (element: Option<&'a Value>)
    ensures
        match element {
            Some(element) => json_content(*value).element(index as nat) == Some(
                json_content(*element),
            ),
            None => json_content(*value).element(index as nat) is None,
        },
{
    value.get(index)
}

/// Calls `serde_json::Value::as_str`: the text, where the value is one.
#[verifier::external_body]
pub(crate) fn json_str<'a>(value: &'a Value) -> (text: Option<&'a str>)
    ensures
        match text {
            Some(text) => json_content(*value).text() == Some(text@),
            None => json_content(*value).text() is None,
        },
{
    value.as_str()
}

/// Calls `serde_json::Value::as_i64`: the integer, where the value is one in the
/// range of an `i64`.
#[verifier::external_body]
pub(crate) fn json_i64(value: &Value) -> (integer: Option<i64>)
    ensures
        integer == json_content(*value).integer(),
{
    value.as_i64()
}

/// Calls `serde_json::Value::is_object`: whether the value is an object.
#[verifier::external_body]
pub(crate) fn json_is_object(value: &Value) -> (object: bool)
    ensures
        object == (json_content(*value) is Object),
{
    value.is_object()
}

/// Calls `serde_json::Value::to_string`: the compact form is a function of what
/// the value holds.
#[verifier::external_body]
pub(crate) fn write_json(value: &Value) -> (text: String)
    ensures
        text@ == json_written(json_content(*value)),
{
    value.to_string()
}

/// The member of a member; the way stops where there is none.
pub open spec fn json_at2(content: Json, first: Seq<char>, second: Seq<char>) -> Option<Json> {
    match content.member(first) {
        Some(inner) => inner.member(second),
        None => None,
    }
}

/// The member of a member, if there is one.
pub(crate) fn json_member2<'a>(value: &'a Value, first: &str, second: &str) -> (member: Option<
    &'a Value,
>)
    ensures
        match member {
            Some(member) => json_at2(json_content(*value), first@, second@) == Some(
                json_content(*member),
            ),
            None => json_at2(json_content(*value), first@, second@) is None,
        },
{
    match json_member(value, first) {
        Some(inner) => json_member(inner, second),
        None => None,
    }
}

/// The text that a value is, if there is a value.
pub open spec fn text_of(content: Option<Json>) -> Option<Seq<char>> {
    match content {
        Some(content) => content.text(),
        None => None,
    }
}

/// Whether two texts are the same.
pub fn same_text(a: &str, b: &str) -> (same: bool)
    ensures
        same == (a@ == b@),
{
    let a = a.to_owned();
    let b = b.to_owned();
    a == b
}

/// The member of an object with a key is one that stands under that key, and there
/// is one exactly where the key occurs; nothing but an object has members.
pub proof fn members_stand_under_their_key(
    members: Seq<(Seq<char>, Json)>,
    key: Seq<char>,
)
    ensures
        Json::Object(members).member(key) is Some <==> exists|i: int|
            0 <= i < members.len() && (#[trigger] members[i]).0 == key,
        Json::Object(members).member(key) matches Some(value) ==> exists|i: int|
            0 <= i < members.len() && (#[trigger] members[i]) == (key, value),
    decreases members.len(),
{
    if members.len() > 0 {
        let before = members.drop_last();
        members_stand_under_their_key(before, key);
        assert(members[members.len() - 1] == members.last());
        if members.last().0 == key {
            assert(members[members.len() - 1] == (key, members.last().1));
        } else {
            if lookup(before, key) is Some {
                let i = choose|i: int|
                    0 <= i < before.len() && (#[trigger] before[i]) == (
                        key,
                        lookup(before, key)->0,
                    );
                assert(members[i] == before[i]);
            }
            if exists|i: int| 0 <= i < members.len() && (#[trigger] members[i]).0 == key {
                let i = choose|i: int| 0 <= i < members.len() && (#[trigger] members[i]).0 == key;
                assert(before[i].0 == key);
            }
        }
    }
}

/// The element of an array at an index is the one there; nothing but an array has
/// elements, nothing but a text is a text, and a way stops where a member is
/// missing.
pub proof fn values_are_read_as_what_they_are(
    content: Json,
    elements: Seq<Json>,
    text: Seq<char>,
    index: nat,
    first: Seq<char>,
    second: Seq<char>,
)
    ensures
        index < elements.len() ==> Json::Array(elements).element(index) == Some(
            elements[index as int],
        ),
        index >= elements.len() ==> Json::Array(elements).element(index) is None,
        !(content is Array) ==> content.element(index) is None,
        !(content is Object) ==> content.member(first) is None,
        text_of(Some(Json::Text(text))) == Some(text),
        !(content is Text) ==> text_of(Some(content)) is None,
        text_of(None) is None,
        content.member(first) matches Some(inner) ==> json_at2(content, first, second)
            == inner.member(second),
        content.member(first) is None ==> json_at2(content, first, second) is None,
{
}

} // verus!
