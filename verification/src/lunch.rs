//! The menu of the day: where it is asked for, and the document that a
//! response stands for.

use crate::json::{decoded, from_slice, insert, json_of, lookup, new_map, null, object, Json};
use crate::message::message;
use serde_json::Value;
use vstd::prelude::*;

verus! {

/// Why a response gave no menu.
#[derive(Clone, Copy, Debug, PartialEq, Eq, Structural)]
pub enum FetchFailure {
    /// No response body arrived.
    Transport,
    /// The body is no JSON text.
    Decode,
}

/// The document that stands for a missing menu: an object whose members
/// are `meta` and `courses`, both null.
pub open spec fn is_empty_lunch(lunch: Json) -> bool {
    &&& lunch matches Json::Object(members)
    &&& forall|key: Seq<char>| #[trigger]
        lookup(members, key) == if key == "meta"@ || key == "courses"@ {
            Some(Json::Null)
        } else {
            None
        }
}

/// The address of the menu of the day written as `date`.
pub fn lunch_url(sodexo_url: &str, date: &str) -> (url: String)
    ensures
        url@ == sodexo_url@ + date@,
{
    let mut url = sodexo_url.to_string();
    url.append(date);
    url
}

/// The document that stands for a missing menu.
pub fn empty_lunch() -> (lunch: Value)
    ensures
        is_empty_lunch(json_of(lunch)),
{
    let mut members = new_map();
    insert(&mut members, "meta".to_string(), null());
    insert(&mut members, "courses".to_string(), null());
    proof {
        reveal_strlit("meta");
        reveal_strlit("courses");
    }
    object(members)
}

/// The menu to go on with once the decoder has answered: the decoded
/// document as it is, or the empty menu with the reason. `None` stands for a
/// response whose body never arrived.
pub fn lunch_or_empty(parsed: Option<Result<Value, serde_json::Error>>) -> (fetched: (
    Value,
    Option<FetchFailure>,
))
    ensures
        match parsed {
            Some(Ok(lunch)) => fetched.0 == lunch && fetched.1 is None,
            Some(Err(_)) => is_empty_lunch(json_of(fetched.0)) && fetched.1 == Some(
                FetchFailure::Decode,
            ),
            None => is_empty_lunch(json_of(fetched.0)) && fetched.1 == Some(
                FetchFailure::Transport,
            ),
        },
{
    match parsed {
        Some(Ok(lunch)) => (lunch, None),
        Some(Err(_)) => (empty_lunch(), Some(FetchFailure::Decode)),
        None => (empty_lunch(), Some(FetchFailure::Transport)),
    }
}

/// The bytes of a response body, `None` for a body that never arrived.
pub open spec fn body_bytes(body: Option<&[u8]>) -> Option<Seq<u8>> {
    match body {
        Some(bytes) => Some(bytes@),
        None => None,
    }
}

/// Why a response gives no menu, if it gives none: no body arrived, or the
/// body is no JSON text.
pub open spec fn response_failure(body: Option<Seq<u8>>) -> Option<FetchFailure> {
    match body {
        Some(bytes) => if decoded(bytes) is Some {
            None
        } else {
            Some(FetchFailure::Decode)
        },
        None => Some(FetchFailure::Transport),
    }
}

/// `lunch` is the menu that a response stands for: the document that the
/// body spells, as it is, and the empty menu where the response gives none.
pub open spec fn is_lunch_of(lunch: Json, body: Option<Seq<u8>>) -> bool {
    match body {
        Some(bytes) => match decoded(bytes) {
            Some(document) => lunch == document,
            None => is_empty_lunch(lunch),
        },
        None => is_empty_lunch(lunch),
    }
}

/// The menu that a response stands for, and why it is the empty one if it
/// is. `None` stands for a response whose body never arrived.
pub fn lunch_from_response(body: Option<&[u8]>) -> (fetched: (Value, Option<FetchFailure>))
    ensures
        is_lunch_of(json_of(fetched.0), body_bytes(body)),
        fetched.1 == response_failure(body_bytes(body)),
{
    let parsed = match body {
        Some(bytes) => Some(from_slice(bytes)),
        None => None,
    };
    lunch_or_empty(parsed)
}

/// The empty menu gives the message `Nothing for today`, whatever the date.
pub proof fn empty_lunch_has_nothing(lunch: Json, date: Seq<char>)
    requires
        is_empty_lunch(lunch),
    ensures
        lunch.member("meta"@) == Some(Json::Null),
        lunch.member("courses"@) == Some(Json::Null),
        message(lunch, date) == "Nothing for today"@,
{
}

} // verus!
