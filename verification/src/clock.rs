//! The boundary to `chrono`: what the library reads from the local clock
//! and the local calendar.

use crate::schedule::{all_digits, decimal, PostTime, EARLIEST_MILLIS, LATEST_MILLIS};
use chrono::TimeZone;
use vstd::prelude::*;

verus! {

/// A year as it is written in a date: four digits, or a sign and four
/// digits or more for a year before 0 or after 9999.
pub open spec fn is_year_text(year: Seq<char>) -> bool {
    ||| year.len() == 4 && all_digits(year)
    ||| year.len() >= 5 && (year[0] == '+' || year[0] == '-') && all_digits(year.drop_first())
}

/// A calendar date written year-month-day: the year, a hyphen, the month
/// in two digits from 01 to 12, a hyphen, and the day in two digits from 01
/// to 31.
pub open spec fn is_date_text(text: Seq<char>) -> bool {
    let year = text.take(text.len() - 6);
    let month = text.subrange(text.len() - 5, text.len() - 3);
    let day = text.skip(text.len() - 2);
    &&& text.len() >= 10
    &&& is_year_text(year)
    &&& text[text.len() - 6] == '-'
    &&& all_digits(month)
    &&& 1 <= decimal(month) <= 12
    &&& text[text.len() - 3] == '-'
    &&& all_digits(day)
    &&& 1 <= decimal(day) <= 31
}

/// `chrono::Local::now`, its `date_naive` and that date's `Display`: the
/// local calendar date of the moment of the call. Which date that is
/// depends on the clock and on the machine's time zone, so the contract
/// claims only the form in which `chrono` writes every date: that of
/// `%Y-%m-%d`.
#[verifier::external_body]
pub(crate) fn today() -> (date: String)
    ensures
        is_date_text(date@),
{
    chrono::Local::now().date_naive().to_string()
}

/// `chrono::Utc::now` and its `timestamp_millis`: the moment of the call in
/// milliseconds since the Unix epoch. The result depends on the clock, so
/// nothing is claimed of it.
#[verifier::external_body]
pub(crate) fn now_millis() -> i64 {
    chrono::Utc::now().timestamp_millis()
}

/// The milliseconds from the moment `now` until `post_time` on the local
/// calendar day that lies `days` days after that of `now`; negative where
/// that time is past. `None` where `chrono` has no single such moment.
///
/// The calls are `timestamp_millis_opt`, `checked_add_signed`, `date_naive`,
/// `and_hms_opt`, `and_local_timezone` and `signed_duration_since`. The
/// result depends on the machine's time zone, so nothing is claimed of it.
/// The bounds keep `now` and the day after it inside the range of dates
/// that `chrono` can hold.
#[verifier::external_body]
pub(crate) fn until_post_time(now: i64, days: i64, post_time: PostTime) -> Option<i64>
    requires
        EARLIEST_MILLIS <= now <= LATEST_MILLIS,
        0 <= days <= 1,
        post_time.is_valid(),
{
    let now = chrono::Local.timestamp_millis_opt(now).single()?;
    let day = now.checked_add_signed(chrono::Duration::days(days))?.date_naive();
    let time = day.and_hms_opt(post_time.hours, post_time.minutes, post_time.seconds)?;
    let tick = time.and_local_timezone(chrono::Local).single()?;
    Some(tick.signed_duration_since(now).num_milliseconds())
}

} // verus!
