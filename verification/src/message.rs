//! The chat message for one day's menu.

use crate::allergens::{has_peanuts, peanut_check};
use crate::clock::today;
use crate::json::{
    as_object, get, insert, json_of, lookup, members_of, new_map, object, string, text_member,
    values, Json,
};
use serde_json::Value;
use vstd::prelude::*;

verus! {

/// The text that was found, `fallback` where none was.
pub open spec fn text_or(found: Option<Seq<char>>, fallback: Seq<char>) -> Seq<char> {
    match found {
        Some(text) => text,
        None => fallback,
    }
}

/// The name of the restaurant: `meta.ref_title` when it is a string.
pub open spec fn restaurant(menu: Json) -> Seq<char> {
    match menu.member("meta"@) {
        Some(meta) => text_or(meta.member_text("ref_title"@), "Unknown restaurant"@),
        None => "Unknown restaurant"@,
    }
}

/// The first line of a message, with the opener of the fenced block.
pub open spec fn header(menu: Json, date: Seq<char>) -> Seq<char> {
    "**"@ + restaurant(menu) + " Lounas "@ + date + "**"@ + "```\n"@
}

/// The allergen marker of a food item: a peanut where its diet
/// information names peanuts, nothing otherwise.
pub open spec fn peanut_marker(item: Json) -> Seq<char> {
    match item.member("additionalDietInfo"@) {
        Some(diet_info) => if has_peanuts(diet_info) {
            "🥜"@
        } else {
            ""@
        },
        None => ""@,
    }
}

/// What one entry of `courses` adds to the message: a line and a blank
/// line for an object, nothing for any other value.
pub open spec fn item_line(item: Json) -> Seq<char> {
    if item is Object {
        text_or(item.member_text("title_fi"@), "?"@) + ": "@ + text_or(
            item.member_text("price"@),
            "? €"@,
        ) + " "@ + text_or(item.member_text("dietcodes"@), ""@) + " "@ + peanut_marker(item)
            + "\n\n"@
    } else {
        Seq::empty()
    }
}

/// The lines of all entries, in the order of the entries.
pub open spec fn item_lines(items: Seq<(Seq<char>, Json)>) -> Seq<char>
    decreases items.len(),
{
    if items.len() == 0 {
        Seq::empty()
    } else {
        item_lines(items.drop_last()) + item_line(items.last().1)
    }
}

/// The menu has courses to list: its member `courses` is an object.
pub open spec fn has_courses(menu: Json) -> bool {
    menu.member("courses"@) matches Some(courses) && courses is Object
}

/// The message for `menu` on the day written as `date`.
pub open spec fn message(menu: Json, date: Seq<char>) -> Seq<char> {
    match menu.member("courses"@) {
        Some(Json::Object(items)) => header(menu, date) + item_lines(items) + "```"@,
        _ => "Nothing for today"@,
    }
}

/// The text of the member `key` of `value`, or `fallback`.
fn text_member_or<'a>(value: &'a Value, key: &str, fallback: &'a str) -> (text: &'a str)
    ensures
        text@ == text_or(json_of(*value).member_text(key@), fallback@),
{
    match text_member(value, key) {
        Some(text) => text,
        None => fallback,
    }
}

/// The name of the restaurant of `menu`.
fn restaurant_name(menu: &Value) -> (name: &str)
    ensures
        name@ == restaurant(json_of(*menu)),
{
    match get(menu, "meta") {
        Some(meta) => text_member_or(meta, "ref_title", "Unknown restaurant"),
        None => "Unknown restaurant",
    }
}

/// Appends to `text` what the entry `item` adds to the message.
fn push_item_line(text: &mut String, item: &Value)
    ensures
        final(text)@ == old(text)@ + item_line(json_of(*item)),
{
    if as_object(item).is_some() {
        let peanuts = match get(item, "additionalDietInfo") {
            Some(diet_info) => peanut_check(diet_info),
            None => false,
        };
        text.append(text_member_or(item, "title_fi", "?"));
        text.append(": ");
        text.append(text_member_or(item, "price", "? €"));
        text.append(" ");
        text.append(text_member_or(item, "dietcodes", ""));
        text.append(" ");
        text.append(if peanuts { "🥜" } else { "" });
        text.append("\n\n");
    }
}

/// Builds the message for `menu` on the day written as `date`.
///
/// A menu without an object `courses` gives `Nothing for today`. Every
/// other menu gives the header, one line for each entry of `courses` that is
/// an object, and the closing fence; what is missing in the menu is replaced
/// by its placeholder.
pub fn format_message(menu: &Value, date: &str) -> (text: String)
    ensures
        text@ == message(json_of(*menu), date@),
{
    let courses = match get(menu, "courses") {
        Some(courses) => as_object(courses),
        None => None,
    };
    match courses {
        Some(courses) => {
            let mut text = String::new();
            text.append("**");
            text.append(restaurant_name(menu));
            text.append(" Lounas ");
            text.append(date);
            text.append("**");
            text.append("```\n");
            let items = values(courses);
            let ghost members = members_of(*courses);
            for i in 0..items.len()
                invariant
                    items@.len() == members.len(),
                    forall|k: int|
                        0 <= k < items@.len() ==> json_of(*items@[k]) == (#[trigger] members[k]).1,
                    text@ == header(json_of(*menu), date@) + item_lines(members.take(i as int)),
            {
                push_item_line(&mut text, items[i]);
                assert(members.take(i + 1).drop_last() =~= members.take(i as int));
            }
            assert(members.take(items@.len() as int) =~= members);
            text.append("```");
            text
        },
        None => "Nothing for today".to_string(),
    }
}

/// Builds the message for `menu` on the local calendar date of the moment
/// of the call.
///
/// The date is read from the clock, so the contract holds for some date
/// text; [`format_message`] states the message for a given one.
pub fn build_message(sodexo_response: Value) -> (text: String)
    ensures
        exists|date: Seq<char>| text@ == #[trigger] message(json_of(sodexo_response), date),
        !has_courses(json_of(sodexo_response)) ==> text@ == "Nothing for today"@,
{
    let date = today();
    format_message(&sodexo_response, date.as_str())
}

/// The body that the webhook expects for `message`: an object whose only
/// member is `content`, the message.
pub open spec fn is_payload(payload: Json, message: Seq<char>) -> bool {
    &&& payload matches Json::Object(members)
    &&& forall|key: Seq<char>| #[trigger]
        lookup(members, key) == if key == "content"@ {
            Some(Json::Text(message))
        } else {
            None
        }
}

/// The body to post to the webhook for `message`.
pub fn webhook_payload(message: String) -> (payload: Value)
    ensures
        is_payload(json_of(payload), message@),
{
    let mut members = new_map();
    insert(&mut members, "content".to_string(), string(message));
    object(members)
}

/// A menu whose `courses` is missing, null or anything else but an object
/// gives `Nothing for today`, whatever the date.
pub proof fn no_courses_nothing_for_today(menu: Json, date: Seq<char>)
    requires
        !has_courses(menu),
    ensures
        message(menu, date) == "Nothing for today"@,
{
}

/// A food item without a title is listed as `?`, one without a price as
/// `? €`; so is one whose title or price is no string.
pub proof fn missing_fields_have_placeholders(item: Json)
    requires
        item is Object,
    ensures
        item.member_text("title_fi"@) is None ==> item_line(item) == "?"@ + ": "@ + text_or(
            item.member_text("price"@),
            "? €"@,
        ) + " "@ + text_or(item.member_text("dietcodes"@), ""@) + " "@ + peanut_marker(item)
            + "\n\n"@,
        item.member_text("price"@) is None ==> item_line(item) == text_or(
            item.member_text("title_fi"@),
            "?"@,
        ) + ": "@ + "? €"@ + " "@ + text_or(item.member_text("dietcodes"@), ""@) + " "@
            + peanut_marker(item) + "\n\n"@,
{
}

/// Formatting is a function of the menu and the date: two messages built
/// for the same menu and the same date are the same text.
pub proof fn format_message_is_repeatable(
    menu: Value,
    date: Seq<char>,
    first: String,
    second: String,
)
    requires
        first@ == message(json_of(menu), date),
        second@ == message(json_of(menu), date),
    ensures
        first@ == second@,
{
}

} // verus!
