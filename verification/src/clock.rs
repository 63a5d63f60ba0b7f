//! Local dates and times of day.

use vstd::prelude::*;
use vstd::string::*;

use chrono::Datelike;
use chrono::Offset;
use chrono::TimeZone;
use chrono::Timelike;

use crate::text;

verus! {

/// Days are counted from the first day of the year 1, which is day 1. This is the
/// first day that the calendar holds, in the year -262143.
pub const FIRST_DAY: i32 = -95746129;

/// The last day that the calendar holds, in the year 262142.
pub const LAST_DAY: i32 = 95745399;

/// The day of the epoch, the first of January 1970.
pub const EPOCH_DAY: i32 = 719163;

/// Milliseconds of a day.
pub const DAY_MS: i64 = 86400000;

/// A time of day on some day.
#[derive(Debug, Clone, Copy, PartialEq, Eq, Structural)]
pub struct LocalTime {
    pub day: i32,
    pub hour: u32,
    pub minute: u32,
}

/// The calendar holds the day.
pub open spec fn is_day(day: int) -> bool {
    FIRST_DAY <= day <= LAST_DAY
}

impl LocalTime {
    pub open spec fn wf(self) -> bool {
        is_day(self.day as int) && self.hour < 24 && self.minute < 60
    }

    /// Minutes since midnight of the epoch's day.
    pub open spec fn minutes(self) -> int {
        (self.day - EPOCH_DAY) * 1440 + self.hour * 60 + self.minute
    }
}

/// `ms` milliseconds after the epoch, the calendar holds the day in Greenwich.
pub open spec fn in_calendar(ms: int) -> bool {
    is_day(ms / DAY_MS as int + EPOCH_DAY)
}

/// `t` is the local time `ms` milliseconds after the epoch, in some time zone less
/// than a day off Greenwich. It is unknown where the calendar does not hold it.
pub open spec fn is_local_time(t: Option<LocalTime>, ms: int) -> bool {
    match t {
        Some(local) => {
            &&& local.wf()
            &&& in_calendar(ms)
            &&& ms / 60000 - 1440 <= local.minutes() <= ms / 60000 + 1440
        },
        None => !in_calendar(ms - DAY_MS) || !in_calendar(ms + DAY_MS),
    }
}

/// Trusted: `chrono::Local.timestamp_millis_opt`. The local time so many
/// milliseconds after the epoch, as day, hour and minute. It rests on the machine's
/// time zone, which `chrono` keeps within a day of Greenwich; beyond the calendar,
/// in Greenwich or in that zone, there is none. Which zone it is stays unsaid.
#[verifier::external_body]
fn local_clock(ms: i64) -> (r: Option<LocalTime>)
    ensures
        is_local_time(r, ms as int),
{
    let utc = chrono::Local.timestamp_millis_opt(ms).single()?;
    let local = utc.naive_utc().checked_add_offset(utc.offset().fix())?;
    Some(
        LocalTime {
            day: local.date().num_days_from_ce(),
            hour: local.hour(),
            minute: local.minute(),
        },
    )
}

/// The local time of an event, from its timestamp in milliseconds since the epoch.
pub fn local_time(timestamp_ms: u64) -> (r: Option<LocalTime>)
    ensures
        is_local_time(r, timestamp_ms as i64 as int),
{
    local_clock(#[verifier::truncate] (timestamp_ms as i64))
}

/// Trusted: `chrono::Local::now`. The day it is on this machine; the calendar
/// holds it. Which day it is depends on the clock and stays unsaid.
#[verifier::external_body]
pub(crate) fn today() -> (r: i32)
    ensures
        is_day(r as int),
{
    chrono::Local::now().date_naive().num_days_from_ce()
}

/// A date in words, such as "Saturday, 1 August 2026".
pub uninterp spec fn date_text(day: int) -> Seq<char>;

/// Trusted: `chrono::NaiveDate::format` with `%A, %-d %B %Y`. The text depends on
/// the day alone and is named [`date_text`].
#[verifier::external_body]
fn format_date(day: i32) -> (r: String)
    requires
        is_day(day as int),
    ensures
        r@ == date_text(day as int),
{
    chrono::NaiveDate::from_num_days_from_ce_opt(day).unwrap().format("%A, %-d %B %Y").to_string()
}

/// The label of a day, seen from today.
pub open spec fn day_text(day: int, today: int) -> Seq<char> {
    if day == today {
        "Today"@
    } else if day == today - 1 {
        "Yesterday"@
    } else {
        date_text(day)
    }
}

/// The label of a day, seen from today.
pub fn day_label(day: i32, today: i32) -> (r: String)
    requires
        is_day(day as int),
        is_day(today as int),
    ensures
        r@ == day_text(day as int, today as int),
{
    if day == today {
        "Today".to_owned()
    } else if day == today - 1 {
        "Yesterday".to_owned()
    } else {
        format_date(day)
    }
}

/// A number below a hundred as two digits.
pub open spec fn two_digits(n: nat) -> Seq<char> {
    seq![text::digit_char(n / 10), text::digit_char(n % 10)]
}

/// A time of day such as "07:30".
pub open spec fn clock_text(t: LocalTime) -> Seq<char> {
    two_digits(t.hour as nat) + ":"@ + two_digits(t.minute as nat)
}

fn padded(n: u32) -> (r: String)
    requires
        n < 100,
    ensures
        r@ == two_digits(n as nat),
{
    let r = text::concat2(
        text::decimal((n / 10) as u64).as_str(),
        text::decimal((n % 10) as u64).as_str(),
    );
    assert(r@ =~= two_digits(n as nat));
    r
}

/// A time of day as hours and minutes.
pub fn clock_label(t: LocalTime) -> (r: String)
    requires
        t.wf(),
    ensures
        r@ == clock_text(t),
{
    text::concat3(padded(t.hour).as_str(), ":", padded(t.minute).as_str())
}

// ---------------------------------------------------------------------------
// Laws

/// The day of reading is called today and the day before it yesterday. Every other day
/// is called by its date, whatever day it is read on.
pub proof fn days_are_named_from_today(day: int, today: int)
    ensures
        day_text(today, today) == "Today"@,
        day_text(today - 1, today) == "Yesterday"@,
        day != today && day + 1 != today ==> day_text(day, today) == date_text(day),
{
}

/// A time of day reads back: hours and minutes with two digits each and a colon between
/// them. So different times have different texts.
pub proof fn a_time_of_day_reads_back(t: LocalTime)
    requires
        t.hour < 24 && t.minute < 60,
    ensures
        clock_text(t).len() == 5,
        text::number(clock_text(t).take(2)) == t.hour,
        clock_text(t)[2] == ':',
        text::number(clock_text(t).skip(3)) == t.minute,
{
    reveal_strlit(":");
    lemma_two_digits(t.hour as nat);
    lemma_two_digits(t.minute as nat);
    assert(clock_text(t).take(2) =~= two_digits(t.hour as nat));
    assert(clock_text(t).skip(3) =~= two_digits(t.minute as nat));
}

proof fn lemma_two_digits(n: nat)
    requires
        n < 100,
    ensures
        text::number(two_digits(n)) == n,
{
    let both = two_digits(n);
    let first = both.drop_last();
    assert(first =~= seq![text::digit_char(n / 10)]);
    assert(first.drop_last() =~= Seq::empty());
    assert(first.last() == text::digit_char(n / 10));
    assert(both.last() == text::digit_char(n % 10));
    assert(text::number(first.drop_last()) == 0);
    assert(text::number(first) == n / 10);
}

/// Times are counted in minutes: a later day, hour or minute is later by as much.
pub proof fn later_times_have_more_minutes(a: LocalTime, b: LocalTime)
    requires
        a.wf(),
        b.wf(),
    ensures
        a.minutes() < b.minutes() <==> a.day < b.day || (a.day == b.day && (a.hour < b.hour
            || (a.hour == b.hour && a.minute < b.minute))),
        a.hour == b.hour && a.minute == b.minute ==> b.minutes() - a.minutes() == (b.day - a.day)
            * 24 * 60,
        a.day == EPOCH_DAY ==> a.minutes() == a.hour * 60 + a.minute,
{
}

} // verus!
