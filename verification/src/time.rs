//! Calendar time: reading the timestamps of a forecast, the clock of this
//! machine, and the labels that show a time or a day.
//!
//! The calendar itself is chrono's. What it reads out of a text, and what the
//! clock shows, comes back as plain numbers.

use vstd::prelude::*;
use chrono::{Datelike, Local, NaiveDate, NaiveDateTime, TimeZone, Timelike};
use crate::text::{nat_digits, push_nat, push_two_digits, two_digits};

verus! {

/// A day of the calendar. `weekday` counts from Monday, which is 0.
#[derive(Debug, Clone, Copy, PartialEq, Eq)]
pub struct Date {
    pub year: i32,
    pub month: u32,
    pub day: u32,
    pub weekday: u32,
}

impl Date {
    /// The month, the day of the month and the weekday are within their ranges.
    pub open spec fn well_formed(self) -> bool {
        &&& 1 <= self.month <= 12
        &&& 1 <= self.day <= 31
        &&& self.weekday < 7
    }

    /// Whether two dates are the same day.
    pub open spec fn same_day(self, other: Date) -> bool {
        self.year == other.year && self.month == other.month && self.day == other.day
    }

    /// Whether two dates are the same day.
    pub fn is_same_day(&self, other: &Date) -> (r: bool)
        ensures
            r == self.same_day(*other),
    {
        self.year == other.year && self.month == other.month && self.day == other.day
    }
}

/// A day and a time of day, with no zone: what a forecast timestamp says.
#[derive(Debug, Clone, Copy, PartialEq, Eq)]
pub struct HourStamp {
    pub date: Date,
    pub hour: u32,
    pub minute: u32,
}

impl HourStamp {
    /// The date and the time of day are within their ranges.
    pub open spec fn well_formed(self) -> bool {
        &&& self.date.well_formed()
        &&& self.hour < 24
        &&& self.minute < 60
    }
}

/// A reading of this machine's clock: the instant, in seconds since the epoch
/// and the nanoseconds past that second, and what the local calendar shows.
#[derive(Debug, Clone, Copy, PartialEq, Eq)]
pub struct Clock {
    pub epoch_seconds: i64,
    pub subsec_nanos: u32,
    pub local: HourStamp,
}

impl Clock {
    /// What the local calendar shows is a date and time of day.
    pub open spec fn well_formed(self) -> bool {
        self.local.well_formed()
    }
}

/// What chrono reads out of a timestamp written as `%Y-%m-%dT%H:%M`, or `None`
/// where it does not accept the text.
pub uninterp spec fn parsed_hour_stamp(text: Seq<char>) -> Option<HourStamp>;

/// What chrono reads out of a date written as `%Y-%m-%d`, or `None` where it
/// does not accept the text.
pub uninterp spec fn parsed_date(text: Seq<char>) -> Option<Date>;

/// `NaiveDateTime::parse_from_str` with the format `%Y-%m-%dT%H:%M`, read out
/// by the accessors of `Datelike` and `Timelike`: the result depends on the
/// text alone, and the fields of a date and time that chrono accepts are
/// within the ranges that those accessors document.
#[verifier::external_body]
fn parse_hour_stamp(text: &str) -> (r: Option<HourStamp>)
    ensures
        r == parsed_hour_stamp(text@),
        r matches Some(stamp) ==> stamp.well_formed(),
{
    match NaiveDateTime::parse_from_str(text, "%Y-%m-%dT%H:%M") {
        Ok(t) => Some(
            HourStamp {
                date: Date {
                    year: t.year(),
                    month: t.month(),
                    day: t.day(),
                    weekday: t.weekday().num_days_from_monday(),
                },
                hour: t.hour(),
                minute: t.minute(),
            },
        ),
        Err(_) => None,
    }
}

/// `NaiveDate::parse_from_str` with the format `%Y-%m-%d`, read out by the
/// accessors of `Datelike`: the result depends on the text alone, and the
/// fields of a date that chrono accepts are within the ranges that those
/// accessors document.
#[verifier::external_body]
fn parse_date(text: &str) -> (r: Option<Date>)
    ensures
        r == parsed_date(text@),
        r matches Some(date) ==> date.well_formed(),
{
    match NaiveDate::parse_from_str(text, "%Y-%m-%d") {
        Ok(d) => Some(
            Date {
                year: d.year(),
                month: d.month(),
                day: d.day(),
                weekday: d.weekday().num_days_from_monday(),
            },
        ),
        Err(_) => None,
    }
}

/// `TimeZone::from_local_datetime` of `Local`, then `single` and `timestamp`,
/// on the date and time that `NaiveDate::from_ymd_opt` and `and_hms_opt` make
/// of the fields: the instant at which this machine's local clock shows
/// `stamp`, in seconds since the epoch; `None` where it shows it never or
/// twice, or where the fields are no date and time. The answer depends on the
/// machine's time zone, so nothing is claimed of it.
#[verifier::external_body]
fn local_epoch_seconds(stamp: &HourStamp) -> (r: Option<i64>) {
    let day = NaiveDate::from_ymd_opt(stamp.date.year, stamp.date.month, stamp.date.day)?;
    let naive = day.and_hms_opt(stamp.hour, stamp.minute, 0)?;
    Local.from_local_datetime(&naive).single().map(|t| t.timestamp())
}

/// `Local::now`, read out by `timestamp`, `timestamp_subsec_nanos` and the
/// accessors of `Datelike` and `Timelike`: the reading of the clock. Its
/// calendar fields are within the ranges that those accessors document.
#[verifier::external_body]
fn local_now() -> (r: Clock)
    ensures
        r.well_formed(),
{
    let t = Local::now();
    Clock {
        epoch_seconds: t.timestamp(),
        subsec_nanos: t.timestamp_subsec_nanos(),
        local: HourStamp {
            date: Date {
                year: t.year(),
                month: t.month(),
                day: t.day(),
                weekday: t.weekday().num_days_from_monday(),
            },
            hour: t.hour(),
            minute: t.minute(),
        },
    }
}

/// A forecast timestamp as far as it could be resolved: what it says, and the
/// instant at which the local clock shows that.
#[derive(Debug, Clone, Copy, PartialEq, Eq)]
pub struct ResolvedTime {
    pub stamp: Option<HourStamp>,
    pub epoch_seconds: Option<i64>,
}

impl ResolvedTime {
    /// An instant is known only of a timestamp that could be read, and what
    /// was read is a date and time of the calendar.
    pub open spec fn well_formed(self) -> bool {
        &&& self.stamp is None ==> self.epoch_seconds is None
        &&& self.stamp matches Some(stamp) ==> stamp.well_formed()
    }

    /// Whether the instant lies no more than an hour before `now`, or after it.
    pub open spec fn is_upcoming(self, now: Clock) -> bool {
        self.epoch_seconds matches Some(seconds) && not_before_last_hour(seconds as int, now)
    }

    /// Whether the timestamp names the day that `now` shows.
    pub open spec fn is_on_day_of(self, now: Clock) -> bool {
        self.stamp matches Some(stamp) && stamp.date.same_day(now.local.date)
    }

    /// Whether the instant lies no more than an hour before `now`, or after it.
    pub fn upcoming(&self, now: &Clock) -> (r: bool)
        ensures
            r == self.is_upcoming(*now),
    {
        match self.epoch_seconds {
            Some(seconds) => {
                let limit: i128 = now.epoch_seconds as i128 - 3600;
                (seconds as i128) > limit || (seconds as i128 == limit && now.subsec_nanos == 0)
            },
            None => false,
        }
    }

    /// Whether the timestamp names the day that `now` shows.
    pub fn on_day_of(&self, now: &Clock) -> (r: bool)
        ensures
            r == self.is_on_day_of(*now),
    {
        match &self.stamp {
            Some(stamp) => stamp.date.is_same_day(&now.local.date),
            None => false,
        }
    }
}

/// Whether a whole second lies at or after the instant one hour before `now`.
pub open spec fn not_before_last_hour(seconds: int, now: Clock) -> bool {
    seconds > now.epoch_seconds - 3600 || (seconds == now.epoch_seconds - 3600
        && now.subsec_nanos == 0)
}

/// The reading of this machine's clock.
pub fn now() -> (r: Clock)
    ensures
        r.well_formed(),
{
    local_now()
}

/// Reads a forecast timestamp and finds its instant on the local clock. What
/// is read depends on the text alone; the instant on the machine's time zone.
pub fn resolve_time(text: &str) -> (r: ResolvedTime)
    ensures
        r.stamp == parsed_hour_stamp(text@),
        r.well_formed(),
{
    match parse_hour_stamp(text) {
        Some(stamp) => ResolvedTime {
            stamp: Some(stamp),
            epoch_seconds: local_epoch_seconds(&stamp),
        },
        None => ResolvedTime { stamp: None, epoch_seconds: None },
    }
}

/// Reads a forecast date.
pub fn resolve_date(text: &str) -> (r: Option<Date>)
    ensures
        r == parsed_date(text@),
        r matches Some(date) ==> date.well_formed(),
{
    parse_date(text)
}

/// The three letters of a weekday, Monday being 0.
pub open spec fn weekday_text(weekday: nat) -> Seq<char> {
    if weekday == 0 {
        "Mon"@
    } else if weekday == 1 {
        "Tue"@
    } else if weekday == 2 {
        "Wed"@
    } else if weekday == 3 {
        "Thu"@
    } else if weekday == 4 {
        "Fri"@
    } else if weekday == 5 {
        "Sat"@
    } else {
        "Sun"@
    }
}

/// A day as `Mon 01/31`: weekday, month and day of the month.
pub open spec fn day_text(date: Date) -> Seq<char> {
    weekday_text(date.weekday as nat) + seq![' '] + two_digits(date.month as nat) + seq!['/']
        + two_digits(date.day as nat)
}

/// The hour on a twelve-hour dial: 12 for midnight and noon.
pub open spec fn dial_hour(hour: nat) -> nat {
    if hour % 12 == 0 {
        12
    } else {
        hour % 12
    }
}

/// `AM` before noon, `PM` from noon on.
pub open spec fn meridiem_text(hour: nat) -> Seq<char> {
    if hour < 12 {
        "AM"@
    } else {
        "PM"@
    }
}

/// An hour as `3PM` or `12AM`.
pub open spec fn hour_text(hour: nat) -> Seq<char> {
    nat_digits(dial_hour(hour)) + meridiem_text(hour)
}

/// A time of day as ` 3:05 PM`: the hour of the dial in two columns.
pub open spec fn clock_text(hour: nat, minute: nat) -> Seq<char> {
    (if dial_hour(hour) < 10 {
        seq![' ']
    } else {
        Seq::<char>::empty()
    }) + nat_digits(dial_hour(hour)) + seq![':'] + two_digits(minute) + seq![' ']
        + meridiem_text(hour)
}

/// The three letters of a weekday, Monday being 0.
pub fn weekday_name(weekday: u32) -> (r: &'static str)
    ensures
        r@ == weekday_text(weekday as nat),
{
    if weekday == 0 {
        "Mon"
    } else if weekday == 1 {
        "Tue"
    } else if weekday == 2 {
        "Wed"
    } else if weekday == 3 {
        "Thu"
    } else if weekday == 4 {
        "Fri"
    } else if weekday == 5 {
        "Sat"
    } else {
        "Sun"
    }
}

/// A day as `Mon 01/31`.
pub fn day_label(date: &Date) -> (r: String)
    requires
        date.well_formed(),
    ensures
        r@ == day_text(*date),
{
    let mut r = String::from_str(weekday_name(date.weekday));
    r.push(' ');
    push_two_digits(&mut r, date.month);
    r.push('/');
    push_two_digits(&mut r, date.day);
    r
}

fn hour_on_dial(hour: u32) -> (r: u32)
    ensures
        r == dial_hour(hour as nat),
        1 <= r <= 12,
{
    if hour % 12 == 0 {
        12
    } else {
        hour % 12
    }
}

fn meridiem(hour: u32) -> (r: &'static str)
    ensures
        r@ == meridiem_text(hour as nat),
{
    if hour < 12 {
        "AM"
    } else {
        "PM"
    }
}

/// An hour as `3PM` or `12AM`.
pub fn hour_label(hour: u32) -> (r: String)
    ensures
        r@ == hour_text(hour as nat),
{
    let mut r = String::new();
    push_nat(&mut r, hour_on_dial(hour) as u128);
    r.append(meridiem(hour));
    r
}

/// A time of day as ` 3:05 PM`.
pub fn clock_label(hour: u32, minute: u32) -> (r: String)
    requires
        minute < 60,
    ensures
        r@ == clock_text(hour as nat, minute as nat),
{
    let mut r = String::new();
    let dial = hour_on_dial(hour);
    if dial < 10 {
        r.push(' ');
    }
    push_nat(&mut r, dial as u128);
    r.push(':');
    push_two_digits(&mut r, minute);
    r.push(' ');
    r.append(meridiem(hour));
    r
}

} // verus!
