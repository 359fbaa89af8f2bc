//! One round of the relay: from the tick of the timer to the body that is
//! posted. The date is taken once, at the tick, and serves both the request
//! and the message.

use crate::clock::{is_date_text, today};
use crate::json::{decoded, json_of};
use crate::lunch::{
    body_bytes, empty_lunch_has_nothing, lunch_from_response, lunch_url, response_failure,
    FetchFailure,
};
use crate::message::{format_message, is_payload, message, webhook_payload};
use serde_json::Value;
use vstd::prelude::*;

verus! {

/// A tick of the timer, with the local calendar date on which it fell.
pub struct Tick {
    pub today: String,
}

/// The message that a response gives on the day written as `date`: that of
/// the decoded menu, and `Nothing for today` where no body arrived or the
/// body is no JSON text.
pub open spec fn response_message(body: Option<Seq<u8>>, date: Seq<char>) -> Seq<char> {
    match body {
        Some(bytes) => match decoded(bytes) {
            Some(lunch) => message(lunch, date),
            None => "Nothing for today"@,
        },
        None => "Nothing for today"@,
    }
}

impl Tick {
    /// A tick that falls now. Its date is read from the clock: which date
    /// it is cannot be said beforehand, only that it is written
    /// year-month-day.
    pub fn now() -> (tick: Tick)
        ensures
            is_date_text(tick.today@),
    {
        Tick { today: today() }
    }

    /// The address to ask for the menu of the day of the tick.
    pub fn request(&self, sodexo_url: &str) -> (url: String)
        ensures
            url@ == sodexo_url@ + self.today@,
    {
        lunch_url(sodexo_url, self.today.as_str())
    }

    /// The body to post for what the request brought, and why the menu is
    /// missing if it is. `None` stands for a response whose body never
    /// arrived. A failure never stops the round: it is posted as `Nothing
    /// for today`.
    pub fn payload(&self, response: Option<&[u8]>) -> (posted: (Value, Option<FetchFailure>))
        ensures
            is_payload(json_of(posted.0), response_message(body_bytes(response), self.today@)),
            posted.1 == response_failure(body_bytes(response)),
    {
        let (lunch, failure) = lunch_from_response(response);
        proof {
            if failure is Some {
                empty_lunch_has_nothing(json_of(lunch), self.today@);
            }
        }
        let text = format_message(&lunch, self.today.as_str());
        (webhook_payload(text), failure)
    }
}

} // verus!
