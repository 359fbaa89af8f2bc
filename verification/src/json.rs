//! The boundary to `serde_json`: a mathematical model of JSON documents and
//! the contracts under which the library reads and builds them.

use serde_json::Value;
use vstd::prelude::*;

verus! {

/// A JSON document as a mathematical value.
///
/// An object is the sequence of its members in the order in which the
/// document yields them.
pub enum Json {
    Null,
    Bool(bool),
    Number,
    Text(Seq<char>),
    List(Seq<Json>),
    Object(Seq<(Seq<char>, Json)>),
}

/// The value of the first member of `members` named `key`, if there is one.
pub open spec fn lookup(members: Seq<(Seq<char>, Json)>, key: Seq<char>) -> Option<Json>
    decreases members.len(),
{
    if members.len() == 0 {
        None
    } else if members[0].0 == key {
        Some(members[0].1)
    } else {
        lookup(members.drop_first(), key)
    }
}

impl Json {
    /// The member `key` of an object; `None` for a missing member and for
    /// anything that is not an object.
    pub open spec fn member(self, key: Seq<char>) -> Option<Json> {
        match self {
            Json::Object(members) => lookup(members, key),
            _ => None,
        }
    }

    /// The text of a JSON string; `None` for every other kind of value.
    pub open spec fn text(self) -> Option<Seq<char>> {
        match self {
            Json::Text(chars) => Some(chars),
            _ => None,
        }
    }

    /// The text of the member `key` of an object; `None` where the member is
    /// missing or no JSON string, and for anything that is not an object.
    pub open spec fn member_text(self, key: Seq<char>) -> Option<Seq<char>> {
        match self.member(key) {
            Some(inner) => inner.text(),
            None => None,
        }
    }
}

/// `serde_json::Value`, a JSON document. Nothing is known of what is in
/// one but through [`json_of`].
#[verifier::external_type_specification]
#[verifier::external_body]
pub struct ExValue(serde_json::Value);

/// `serde_json::Map`, the members of a JSON object. Nothing is known of
/// what is in one but through [`members_of`].
#[verifier::external_type_specification]
#[verifier::external_body]
#[verifier::reject_recursive_types(K)]
#[verifier::reject_recursive_types(V)]
pub struct ExMap<K, V>(serde_json::Map<K, V>);

/// `serde_json::Error`, the reason for which a text is refused. Nothing is
/// read from one.
#[verifier::external_type_specification]
#[verifier::external_body]
pub struct ExError(serde_json::Error);

/// The document that a `serde_json::Value` holds.
pub uninterp spec fn json_of(value: Value) -> Json;

/// The members that a `serde_json::Map` holds, each a name and a document,
/// in the order of its iterator. A map holds no two members of one name.
pub uninterp spec fn members_of(map: serde_json::Map<String, Value>) -> Seq<(Seq<char>, Json)>;

/// The document that `serde_json` reads from `bytes`; `None` where it
/// refuses them.
pub uninterp spec fn decoded(bytes: Seq<u8>) -> Option<Json>;

/// `serde_json::from_slice` at `Value`: the document that the bytes spell,
/// or the decoder's error. Which document that is, is left to `serde_json`:
/// the contract only names it.
#[verifier::external_body]
pub(crate) fn from_slice(bytes: &[u8]) -> (parsed: Result<Value, serde_json::Error>)
    ensures
        match parsed {
            Ok(value) => decoded(bytes@) == Some(json_of(value)),
            Err(_) => decoded(bytes@) is None,
        },
{
    serde_json::from_slice(bytes)
}

/// The variant `Value::Null`.
#[verifier::external_body]
pub(crate) fn null() -> (value: Value)
    ensures
        json_of(value) == Json::Null,
{
    Value::Null
}

/// The variant `Value::String` around `text`.
#[verifier::external_body]
pub(crate) fn string(text: String) -> (value: Value)
    ensures
        json_of(value) == Json::Text(text@),
{
    Value::String(text)
}

/// The variant `Value::Object` around `map`.
#[verifier::external_body]
pub(crate) fn object(map: serde_json::Map<String, Value>) -> (value: Value)
    ensures
        json_of(value) == Json::Object(members_of(map)),
{
    Value::Object(map)
}

/// `Map::new`: a map without members.
#[verifier::external_body]
pub(crate) fn new_map() -> (map: serde_json::Map<String, Value>)
    ensures
        members_of(map) == Seq::<(Seq<char>, Json)>::empty(),
{
    serde_json::Map::new()
}

/// `Map::insert`: afterwards the map holds `value` under `key`, and under
/// every other key what it held before. Where the new member stands among
/// the others is not stated.
#[verifier::external_body]
pub(crate) fn insert(map: &mut serde_json::Map<String, Value>, key: String, value: Value)
    ensures
        lookup(members_of(*final(map)), key@) == Some(json_of(value)),
        forall|other: Seq<char>|
            other != key@ ==> #[trigger] lookup(members_of(*final(map)), other) == lookup(
                members_of(*old(map)),
                other,
            ),
{
    map.insert(key, value);
}

/// `Value::get` with a string index: the member of that name when the value
/// is an object that has one, `None` otherwise. An object has at most one
/// member of a name, which is then the first of that name.
#[verifier::external_body]
pub(crate) fn get<'a>(value: &'a Value, key: &str) -> (found: Option<&'a Value>)
    ensures
        match found {
            Some(inner) => json_of(*value).member(key@) == Some(json_of(*inner)),
            None => json_of(*value).member(key@) is None,
        },
{
    value.get(key)
}

/// `Value::as_str`: the text when the value is a JSON string, `None`
/// otherwise.
#[verifier::external_body]
pub(crate) fn as_str(value: &Value) -> (text: Option<&str>)
    ensures
        match text {
            Some(s) => json_of(*value) == Json::Text(s@),
            None => !(json_of(*value) is Text),
        },
{
    value.as_str()
}

/// `Value::as_object`: the map when the value is a JSON object, `None`
/// otherwise.
#[verifier::external_body]
pub(crate) fn as_object(value: &Value) -> (object: Option<&serde_json::Map<String, Value>>)
    ensures
        match object {
            Some(map) => json_of(*value) == Json::Object(members_of(*map)),
            None => !(json_of(*value) is Object),
        },
{
    value.as_object()
}

/// `Map::iter`, keeping the value of each member: the values of the members
/// in the order in which the map yields them.
#[verifier::external_body]
pub(crate) fn values<'a>(map: &'a serde_json::Map<String, Value>) -> (values: Vec<&'a Value>)
    ensures
        values@.len() == members_of(*map).len(),
        forall|i: int|
            0 <= i < values@.len() ==> json_of(*values@[i]) == (#[trigger] members_of(*map)[i]).1,
{
    map.iter().map(|member| member.1).collect()
}

/// The text of the member `key` of `value`, if `value` is an object whose
/// member `key` is a JSON string.
pub fn text_member<'a>(value: &'a Value, key: &str) -> (text: Option<&'a str>)
    ensures
        match text {
            Some(s) => json_of(*value).member_text(key@) == Some(s@),
            None => json_of(*value).member_text(key@) is None,
        },
{
    match get(value, key) {
        Some(inner) => as_str(inner),
        None => None,
    }
}

} // verus!
