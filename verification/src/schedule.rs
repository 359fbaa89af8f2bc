//! The daily schedule: the configured time of day and the wait before the
//! first tick.

use crate::clock::{now_millis, until_post_time};
use crate::text::chars_of;
use vstd::prelude::*;

verus! {

/// A time of day as it is configured. Nothing bounds the three numbers:
/// see [`PostTime::is_valid`].
#[derive(Clone, Copy, Debug, PartialEq, Eq, Structural)]
pub struct PostTime {
    pub hours: u32,
    pub minutes: u32,
    pub seconds: u32,
}

/// The time between two ticks, in milliseconds: one day.
pub const TICK_PERIOD_MILLIS: u64 = 86_400_000;

/// The earliest moment, in milliseconds since the Unix epoch, for which a
/// wait is computed: about 250 000 years before it.
pub const EARLIEST_MILLIS: i64 = -8_000_000_000_000_000;

/// The latest moment for which a wait is computed: about 250 000 years
/// after the Unix epoch.
pub const LATEST_MILLIS: i64 = 8_000_000_000_000_000;

/// `c` is one of the ten decimal digits.
pub open spec fn is_digit(c: char) -> bool {
    '0' <= c && c <= '9'
}

/// The number that a decimal digit stands for.
pub open spec fn digit_value(c: char) -> nat {
    (c as u32 - '0' as u32) as nat
}

/// The number that a text of decimal digits spells; leading zeros count
/// for nothing.
pub open spec fn decimal(digits: Seq<char>) -> nat
    decreases digits.len(),
{
    if digits.len() == 0 {
        0
    } else {
        decimal(digits.drop_last()) * 10 + digit_value(digits.last())
    }
}

/// Every character of `text` is a decimal digit.
pub open spec fn all_digits(text: Seq<char>) -> bool {
    forall|i: int| 0 <= i < text.len() ==> is_digit(#[trigger] text[i])
}

/// The text without a plus sign at its front.
pub open spec fn unsigned_part(text: Seq<char>) -> Seq<char> {
    if text.len() > 0 && text[0] == '+' {
        text.drop_first()
    } else {
        text
    }
}

/// The number that a component spells: decimal digits, at least one, with
/// at most one plus sign before them, and a value that a `u32` holds.
/// Anything else spells no number.
pub open spec fn number(text: Seq<char>) -> Option<u32> {
    let digits = unsigned_part(text);
    if digits.len() > 0 && all_digits(digits) && decimal(digits) <= u32::MAX {
        Some(decimal(digits) as u32)
    } else {
        None
    }
}

/// The number that a component spells, 0 where it spells none.
pub open spec fn number_or_zero(text: Seq<char>) -> u32 {
    match number(text) {
        Some(value) => value,
        None => 0,
    }
}

/// No character of `text` is a colon.
pub open spec fn colon_free(text: Seq<char>) -> bool {
    forall|i: int| 0 <= i < text.len() ==> #[trigger] text[i] != ':'
}

/// `at` is the place of the first colon of `text`.
pub open spec fn is_first_colon(text: Seq<char>, at: int) -> bool {
    &&& 0 <= at < text.len()
    &&& text[at] == ':'
    &&& colon_free(text.take(at))
}

/// The place of the first colon of a text that has one.
pub open spec fn first_colon(text: Seq<char>) -> int {
    choose|at: int| is_first_colon(text, at)
}

/// The time of day that `text` configures: hours alone, or hours and
/// minutes around one colon. A component that spells no number counts as
/// 0, and a text with more than one colon is midnight.
pub open spec fn post_time_of(text: Seq<char>) -> PostTime {
    if colon_free(text) {
        PostTime { hours: number_or_zero(text), minutes: 0, seconds: 0 }
    } else {
        let at: int = first_colon(text);
        let rest = text.skip(at + 1);
        if colon_free(rest) {
            PostTime {
                hours: number_or_zero(text.take(at)),
                minutes: number_or_zero(rest),
                seconds: 0,
            }
        } else {
            PostTime { hours: 0, minutes: 0, seconds: 0 }
        }
    }
}

/// A text has at most one first colon.
proof fn first_colon_is_unique(text: Seq<char>, at: int)
    requires
        is_first_colon(text, at),
    ensures
        first_colon(text) == at,
        !colon_free(text),
{
    let other: int = first_colon(text);
    if other < at {
        assert(text.take(at)[other] == ':');
    }
    if at < other {
        assert(text.take(other)[at] == ':');
    }
}

/// A text without a colon is read as the hours.
pub proof fn hours_alone(hours: Seq<char>)
    requires
        colon_free(hours),
    ensures
        post_time_of(hours) == (PostTime { hours: number_or_zero(hours), minutes: 0, seconds: 0 }),
{
}

/// Two texts without a colon, put around one, are read as hours and
/// minutes.
pub proof fn hours_and_minutes(hours: Seq<char>, minutes: Seq<char>)
    requires
        colon_free(hours),
        colon_free(minutes),
    ensures
        post_time_of(hours + seq![':'] + minutes) == (PostTime {
            hours: number_or_zero(hours),
            minutes: number_or_zero(minutes),
            seconds: 0,
        }),
{
    let text = hours + seq![':'] + minutes;
    let at: int = hours.len() as int;
    assert(text.take(at) =~= hours);
    assert(text.skip(at + 1) =~= minutes);
    first_colon_is_unique(text, at);
}

/// A text with more than one colon is read as midnight.
pub proof fn more_colons_are_midnight(front: Seq<char>, rest: Seq<char>)
    requires
        colon_free(front),
        !colon_free(rest),
    ensures
        post_time_of(front + seq![':'] + rest) == (PostTime { hours: 0, minutes: 0, seconds: 0 }),
{
    let text = front + seq![':'] + rest;
    let at: int = front.len() as int;
    assert(text.skip(at + 1) =~= rest);
    first_colon_is_unique(text, at);
}

/// A longer text of digits spells no smaller number than its front part.
proof fn decimal_grows(digits: Seq<char>, front: int)
    requires
        0 <= front <= digits.len(),
    ensures
        decimal(digits.take(front)) <= decimal(digits),
    decreases digits.len(),
{
    if front == digits.len() {
        assert(digits.take(front) =~= digits);
    } else {
        decimal_grows(digits.drop_last(), front);
        assert(digits.drop_last().take(front) =~= digits.take(front));
    }
}

/// The place of the first colon of `chars` at or after `from`; the length
/// of `chars` where there is none.
fn find_colon(chars: &Vec<char>, from: usize) -> (at: usize)
    requires
        from <= chars.len(),
    ensures
        from <= at <= chars.len(),
        at < chars.len() ==> chars@[at as int] == ':',
        forall|i: int| from <= i < at ==> chars@[i] != ':',
{
    let mut at: usize = from;
    while at < chars.len() && chars[at] != ':'
        invariant
            from <= at <= chars.len(),
            forall|i: int| from <= i < at ==> chars@[i] != ':',
        decreases chars.len() - at,
    {
        at += 1;
    }
    at
}

/// The number that the characters from `from` up to `to` spell.
fn parse_number(chars: &Vec<char>, from: usize, to: usize) -> (value: Option<u32>)
    requires
        from <= to <= chars.len(),
    ensures
        value == number(chars@.subrange(from as int, to as int)),
{
    let ghost text = chars@.subrange(from as int, to as int);
    let start: usize = if from < to && chars[from] == '+' {
        from + 1
    } else {
        from
    };
    let ghost digits = unsigned_part(text);
    if start == to {
        return None;
    }
    let mut value: u32 = 0;
    let mut i: usize = start;
    while i < to
        invariant
            from <= start <= i <= to <= chars.len(),
            start < to,
            digits == chars@.subrange(start as int, to as int),
            digits == unsigned_part(chars@.subrange(from as int, to as int)),
            all_digits(digits.take(i - start)),
            value == decimal(digits.take(i - start)),
        decreases to - i,
    {
        let c: char = chars[i];
        if !('0' <= c && c <= '9') {
            assert(!is_digit(digits[i - start]));
            return None;
        }
        let digit: u32 = c as u32 - '0' as u32;
        let ghost next = digits.take(i - start + 1);
        assert(next.drop_last() =~= digits.take(i - start));
        proof {
            decimal_grows(digits, i - start + 1);
        }
        if value > (u32::MAX - digit) / 10 {
            return None;
        }
        value = value * 10 + digit;
        i += 1;
    }
    assert(digits.take(to - start) =~= digits);
    Some(value)
}

/// The number that the characters from `from` up to `to` spell, 0 where
/// they spell none.
fn parse_number_or_zero(chars: &Vec<char>, from: usize, to: usize) -> (value: u32)
    requires
        from <= to <= chars.len(),
    ensures
        value == number_or_zero(chars@.subrange(from as int, to as int)),
{
    match parse_number(chars, from, to) {
        Some(value) => value,
        None => 0,
    }
}

/// Reads the configured time of day.
///
/// `HH:MM` gives hours and minutes, `HH` alone the hours. A component that
/// spells no number counts as 0, and a text of any other shape is midnight.
/// No input is refused.
pub fn parse_post_time(text: &str) -> (time: PostTime)
    ensures
        time == post_time_of(text@),
{
    let chars = chars_of(text);
    let end: usize = chars.len();
    let first: usize = find_colon(&chars, 0);
    if first == end {
        assert(chars@.subrange(0, end as int) =~= text@);
        return PostTime { hours: parse_number_or_zero(&chars, 0, end), minutes: 0, seconds: 0 };
    }
    proof {
        first_colon_is_unique(text@, first as int);
    }
    let second: usize = find_colon(&chars, first + 1);
    if second == end {
        PostTime {
            hours: parse_number_or_zero(&chars, 0, first),
            minutes: parse_number_or_zero(&chars, first + 1, end),
            seconds: 0,
        }
    } else {
        assert(text@.skip(first + 1)[second - first - 1] == ':');
        PostTime { hours: 0, minutes: 0, seconds: 0 }
    }
}

impl PostTime {
    /// The time names a moment of a day.
    pub open spec fn is_valid(self) -> bool {
        self.hours < 24 && self.minutes < 60 && self.seconds < 60
    }

    /// Whether the time names a moment of a day.
    pub fn valid(&self) -> (valid: bool)
        ensures
            valid == self.is_valid(),
    {
        self.hours < 24 && self.minutes < 60 && self.seconds < 60
    }
}

/// The day of the first tick, counted from today, when today's post time
/// lies `until_today` milliseconds ahead: today, and tomorrow where that
/// time is already past.
pub open spec fn first_tick_day(until_today: int) -> int {
    if until_today < 0 {
        1
    } else {
        0
    }
}

/// The day of the first tick, counted from today: 0 for today, 1 for
/// tomorrow. It is tomorrow exactly when today's post time is already past.
pub fn day_offset(until_today: i64) -> (days: i64)
    ensures
        days == first_tick_day(until_today as int),
{
    if until_today < 0 {
        1
    } else {
        0
    }
}

/// The wait before the first tick, in milliseconds, when the tick lies
/// `until_tick` milliseconds ahead: a tick that is already past is due at
/// once.
pub fn start_delay(until_tick: i64) -> (millis: u64)
    ensures
        millis == if until_tick < 0 {
            0
        } else {
            until_tick as int
        },
{
    if until_tick < 0 {
        0
    } else {
        until_tick as u64
    }
}

/// What the clock said at the start, and what follows from it for the
/// first tick.
#[derive(Clone, Copy, Debug, PartialEq, Eq, Structural)]
pub struct FirstTick {
    /// The milliseconds from the start until today's post time; negative
    /// where that time was already past.
    pub until_today: i64,
    /// The day of the first tick, counted from today.
    pub day: i64,
    /// The wait before the first tick, in milliseconds.
    pub delay: u64,
}

/// The first tick when today's post time lies `until_today` milliseconds
/// ahead and tomorrow's `until_tomorrow`; `None` stands for a day on which
/// the local calendar has no single moment for the post time.
///
/// A post time that is still to come today is the first tick. One that is
/// already past moves the first tick to tomorrow's post time.
pub open spec fn planned(until_today: Option<i64>, until_tomorrow: Option<i64>) -> Option<
    FirstTick,
> {
    match until_today {
        Some(today) => if today >= 0 {
            Some(FirstTick { until_today: today, day: 0, delay: today as u64 })
        } else {
            match until_tomorrow {
                Some(tomorrow) => Some(
                    FirstTick {
                        until_today: today,
                        day: 1,
                        delay: if tomorrow < 0 {
                            0
                        } else {
                            tomorrow as u64
                        },
                    },
                ),
                None => None,
            }
        },
        None => None,
    }
}

/// Plans the first tick from what the clock said of today's post time and
/// of tomorrow's. Tomorrow's is looked at only where today's is past.
pub fn plan_first_tick(until_today: Option<i64>, until_tomorrow: Option<i64>) -> (tick: Option<
    FirstTick,
>)
    ensures
        tick == planned(until_today, until_tomorrow),
{
    let today: i64 = match until_today {
        Some(millis) => millis,
        None => return None,
    };
    let day: i64 = day_offset(today);
    if day == 0 {
        return Some(FirstTick { until_today: today, day, delay: start_delay(today) });
    }
    match until_tomorrow {
        Some(tomorrow) => Some(FirstTick { until_today: today, day, delay: start_delay(tomorrow) }),
        None => None,
    }
}

/// Reads the clock and plans the first tick: at the post time of today or,
/// where that is already past, of tomorrow.
///
/// `None` where the clock is out of range, or where the local calendar has
/// no single moment for the post time on the day of the tick. What the
/// clock says is not known beforehand, so the contract states the plan for
/// whatever it said: see [`planned`].
pub fn first_tick(post_time: PostTime) -> (tick: Option<FirstTick>)
    requires
        post_time.is_valid(),
    ensures
        tick matches Some(first) ==> exists|until_tomorrow: Option<i64>|
            tick == #[trigger] planned(Some(first.until_today), until_tomorrow),
{
    let now: i64 = now_millis();
    if now < EARLIEST_MILLIS || now > LATEST_MILLIS {
        return None;
    }
    let until_today: Option<i64> = until_post_time(now, 0, post_time);
    let until_tomorrow: Option<i64> = match until_today {
        Some(millis) => if day_offset(millis) == 1 {
            until_post_time(now, 1, post_time)
        } else {
            None
        },
        None => None,
    };
    let tick = plan_first_tick(until_today, until_tomorrow);
    assert(tick matches Some(first) ==> tick == planned(Some(first.until_today), until_tomorrow));
    tick
}

} // verus!
