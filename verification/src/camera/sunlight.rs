use crate::utils::error::{Error, ErrorKind, error_message};
use chrono::{Datelike, Timelike};
use vstd::prelude::*;
use vstd::string::*;

verus! {

// ===============================================================================================
//
// Date and solar time of the sun light.
//
// The sun light of a picture is set at a local date and solar time, given
// either as such or as text ("2025-03-20", "12:00:00", "2025-03-20 12:00:00"),
// which chrono parses; a time may also be given as a number of hours, which
// the caller has turned into a number of seconds since midnight. A date is
// held as its year, month and day; a time as its number of seconds since
// midnight and its nanoseconds (past one billion during a leap second), as
// chrono does.
//
// ===============================================================================================

/// A calendar date.
#[derive(Clone, Copy, Debug, PartialEq, Eq, Structural)]
pub struct Date {
    pub year: i32,
    pub month: u32,
    pub day: u32,
}

/// A time of day.
#[derive(Clone, Copy, Debug, PartialEq, Eq, Structural)]
pub struct Time {
    /// Seconds since midnight.
    pub seconds: u32,
    /// Nanoseconds since the whole second.
    pub nanosecond: u32,
}

/// A date and a time of day.
#[derive(Clone, Copy, Debug, PartialEq, Eq, Structural)]
pub struct DateTime {
    pub date: Date,
    pub time: Time,
}

/// A date, given as such or as text.
pub enum DateArg {
    Date(Date),
    String(String),
}

/// A date and time, given as such or as text.
pub enum DateTimeArg {
    DateTime(DateTime),
    String(String),
}

/// A time of day, given as such, as a number of hours (turned into whole
/// seconds since midnight, and shown as it was written), or as text.
pub enum TimeArg {
    Time(Time),
    Number { seconds: u32, shown: String },
    String(String),
}

/// The format of dates given as text.
pub open spec fn date_format() -> Seq<char> {
    "%Y-%m-%d"@
}

/// The format of dates and times given as text.
pub open spec fn datetime_format() -> Seq<char> {
    "%Y-%m-%d %H:%M:%S"@
}

/// The format of times given as text.
pub open spec fn time_format() -> Seq<char> {
    "%H:%M:%S"@
}

/// An outcome, with the message of its error as text.
pub open spec fn outcome<T>(r: Result<T, String>) -> Result<T, Seq<char>> {
    match r {
        Ok(v) => Ok(v),
        Err(e) => Err(e@),
    }
}

/// What chrono's `NaiveDate::parse_from_str` makes of `text` in `format`:
/// the year, month and day of the date, or the message of the error.
pub uninterp spec fn parsed_date(text: Seq<char>, format: Seq<char>) -> Result<(i32, u32, u32), Seq<char>>;

/// What chrono's `NaiveDateTime::parse_from_str` makes of `text` in
/// `format`: the year, month and day, the hour, minute and second, and the
/// nanoseconds, or the message of the error.
pub uninterp spec fn parsed_datetime(text: Seq<char>, format: Seq<char>) -> Result<(i32, u32, u32, u32, u32, u32, u32), Seq<char>>;

/// What chrono's `NaiveTime::parse_from_str` makes of `text` in `format`:
/// the hour, minute and second, and the nanoseconds, or the message of the
/// error.
pub uninterp spec fn parsed_time(text: Seq<char>, format: Seq<char>) -> Result<(u32, u32, u32, u32), Seq<char>>;

/// Whether an hour, a minute and a second are those of a clock: below 24,
/// 60 and 60.
pub open spec fn clock_fields(hour: u32, minute: u32, second: u32) -> bool {
    hour < 24 && minute < 60 && second < 60
}

/// Calls chrono's `NaiveDate::parse_from_str`; the result is named
/// `parsed_date`, of which nothing more is claimed. The date is read back
/// with `Datelike::{year, month, day}` and the error as its `Display` text.
#[verifier::external_body]
fn parse_date(text: &str, format: &str) -> (res: Result<(i32, u32, u32), String>)
    ensures
        outcome(res) == parsed_date(text@, format@),
{
    match chrono::NaiveDate::parse_from_str(text, format) {
        Ok(date) => Ok((date.year(), date.month(), date.day())),
        Err(err) => Err(format!("{}", err)),
    }
}

/// Calls chrono's `NaiveDateTime::parse_from_str`; the result is named
/// `parsed_datetime`. The date and time are read back with
/// `Datelike::{year, month, day}` and `Timelike::{hour, minute, second,
/// nanosecond}` (which chrono documents as within 0..24, 0..60 and 0..60,
/// a leap second showing as second 59 with a billion nanoseconds more), and
/// the error as its `Display` text. Nothing more is claimed.
#[verifier::external_body]
fn parse_datetime(text: &str, format: &str) -> (res: Result<(i32, u32, u32, u32, u32, u32, u32), String>)
    ensures
        outcome(res) == parsed_datetime(text@, format@),
        res matches Ok((_y, _mo, _d, h, mi, s, _ns)) ==> clock_fields(h, mi, s),
{
    match chrono::NaiveDateTime::parse_from_str(text, format) {
        Ok(dt) => Ok((dt.year(), dt.month(), dt.day(), dt.hour(), dt.minute(), dt.second(), dt.nanosecond())),
        Err(err) => Err(format!("{}", err)),
    }
}

/// Calls chrono's `NaiveTime::parse_from_str`; the result is named
/// `parsed_time`. The time is read back with `Timelike::{hour, minute,
/// second, nanosecond}` (which chrono documents as within 0..24, 0..60 and
/// 0..60) and the error as its `Display` text. Nothing more is claimed.
#[verifier::external_body]
fn parse_time(text: &str, format: &str) -> (res: Result<(u32, u32, u32, u32), String>)
    ensures
        outcome(res) == parsed_time(text@, format@),
        res matches Ok((h, mi, s, _ns)) ==> clock_fields(h, mi, s),
{
    match chrono::NaiveTime::parse_from_str(text, format) {
        Ok(time) => Ok((time.hour(), time.minute(), time.second(), time.nanosecond())),
        Err(err) => Err(format!("{}", err)),
    }
}

/// The seconds since midnight of a clock time.
pub open spec fn day_seconds(hour: u32, minute: u32, second: u32) -> u32 {
    (3600 * hour + 60 * minute + second) as u32
}

/// The seconds since midnight of a clock time.
pub fn clock_seconds(hour: u32, minute: u32, second: u32) -> (res: u32)
    requires
        clock_fields(hour, minute, second),
    ensures
        res == day_seconds(hour, minute, second),
        res < 86_400,
        res / 3600 == hour,
        (res / 60) % 60 == minute,
        res % 60 == second,
{
    proof {
        law_clock_seconds(hour, minute, second);
    }
    3600 * hour + 60 * minute + second
}

/// A time of day holds the seconds of its clock time: the hour, minute and
/// second read back from the seconds since midnight are those of the clock.
pub proof fn law_clock_seconds(hour: u32, minute: u32, second: u32)
    requires
        clock_fields(hour, minute, second),
    ensures
        3600 * hour + 60 * minute + second < 86_400,
        day_seconds(hour, minute, second) / 3600 == hour,
        (day_seconds(hour, minute, second) / 60) % 60 == minute,
        day_seconds(hour, minute, second) % 60 == second,
{
    let t = 3600 * hour + 60 * minute + second;
    assert(t < 86_400) by (nonlinear_arith)
        requires
            hour < 24,
            minute < 60,
            second < 60,
            t == 3600 * hour + 60 * minute + second,
    ;
    assert(t / 3600 == hour && (t / 60) % 60 == minute && t % 60 == second) by (nonlinear_arith)
        requires
            hour < 24,
            minute < 60,
            second < 60,
            t == 3600 * hour + 60 * minute + second,
    ;
}

/// A parsed date and time, with its clock time as seconds since midnight.
pub open spec fn with_day_seconds(parsed: Result<(i32, u32, u32, u32, u32, u32, u32), Seq<char>>) -> Result<
    (i32, u32, u32, u32, u32),
    Seq<char>,
> {
    match parsed {
        Ok((y, mo, d, h, mi, s, ns)) => Ok((y, mo, d, day_seconds(h, mi, s), ns)),
        Err(why) => Err(why),
    }
}

/// A parsed time, with its clock time as seconds since midnight.
pub open spec fn time_with_day_seconds(parsed: Result<(u32, u32, u32, u32), Seq<char>>) -> Result<
    (u32, u32),
    Seq<char>,
> {
    match parsed {
        Ok((h, mi, s, ns)) => Ok((day_seconds(h, mi, s), ns)),
        Err(why) => Err(why),
    }
}

/// Whether a date and time holds the clock time of a parse: its seconds
/// since midnight read back as the parsed hour, minute and second.
pub open spec fn holds_parsed_clock(
    res: Result<DateTime, (ErrorKind, String)>,
    parsed: Result<(i32, u32, u32, u32, u32, u32, u32), Seq<char>>,
) -> bool {
    match parsed {
        Ok((y, mo, d, h, mi, s, ns)) => res matches Ok(dt) && dt.date == (Date { year: y, month: mo, day: d })
            && dt.time.seconds / 3600 == h && (dt.time.seconds / 60) % 60 == mi && dt.time.seconds % 60
            == s && dt.time.nanosecond == ns,
        Err(_) => res is Err,
    }
}

/// Whether a time holds the clock time of a parse (see `holds_parsed_clock`).
pub open spec fn holds_parsed_time(
    res: Result<Time, (ErrorKind, String)>,
    parsed: Result<(u32, u32, u32, u32), Seq<char>>,
) -> bool {
    match parsed {
        Ok((h, mi, s, ns)) => res matches Ok(t) && t.seconds / 3600 == h && (t.seconds / 60) % 60 == mi
            && t.seconds % 60 == s && t.nanosecond == ns,
        Err(_) => res is Err,
    }
}

/// Parses a date and time, with its clock time as seconds since midnight.
fn parse_datetime_seconds(text: &str, format: &str) -> (res: Result<(i32, u32, u32, u32, u32), String>)
    ensures
        outcome(res) == with_day_seconds(parsed_datetime(text@, format@)),
        parsed_datetime(text@, format@) matches Ok((_y, _mo, _d, h, mi, s, _ns)) ==> clock_fields(h, mi, s),
{
    match parse_datetime(text, format) {
        Ok((y, mo, d, h, mi, s, ns)) => Ok((y, mo, d, clock_seconds(h, mi, s), ns)),
        Err(why) => Err(why),
    }
}

/// Parses a time, with its clock time as seconds since midnight.
fn parse_time_seconds(text: &str, format: &str) -> (res: Result<(u32, u32), String>)
    ensures
        outcome(res) == time_with_day_seconds(parsed_time(text@, format@)),
        parsed_time(text@, format@) matches Ok((h, mi, s, _ns)) ==> clock_fields(h, mi, s),
{
    match parse_time(text, format) {
        Ok((h, mi, s, ns)) => Ok((clock_seconds(h, mi, s), ns)),
        Err(why) => Err(why),
    }
}

/// Calls chrono's `NaiveTime::from_num_seconds_from_midnight_opt` with no
/// nanoseconds. As chrono's source shows, the time exists exactly below
/// 86,400 seconds, and then holds those seconds (read back with
/// `Timelike::{num_seconds_from_midnight, nanosecond}`) and no nanoseconds.
#[verifier::external_body]
fn time_from_seconds(seconds: u32) -> (res: Option<(u32, u32)>)
    ensures
        seconds < 86_400 ==> res == Some((seconds, 0u32)),
        seconds >= 86_400 ==> res is None,
{
    chrono::NaiveTime::from_num_seconds_from_midnight_opt(seconds, 0)
        .map(|time| (time.num_seconds_from_midnight(), time.nanosecond()))
}

/// The error about `what` (a date, a time, ...), because of `why`.
pub open spec fn value_error(what: Seq<char>, why: Seq<char>) -> (ErrorKind, Seq<char>) {
    (ErrorKind::ValueError, error_message(Some(what), Some(why)))
}

/// The view of an outcome whose error is an error kind and a message.
pub open spec fn checked<T>(r: Result<T, (ErrorKind, String)>) -> Result<T, (ErrorKind, Seq<char>)> {
    match r {
        Ok(v) => Ok(v),
        Err((kind, msg)) => Err((kind, msg@)),
    }
}

/// The date that a parse gave, or the error about the date.
pub open spec fn date_outcome(parsed: Result<(i32, u32, u32), Seq<char>>) -> Result<
    Date,
    (ErrorKind, Seq<char>),
> {
    match parsed {
        Ok((year, month, day)) => Ok(Date { year, month, day }),
        Err(why) => Err(value_error("date"@, why)),
    }
}

/// The date and time that a parse gave, or the error about the datetime.
pub open spec fn datetime_outcome(parsed: Result<(i32, u32, u32, u32, u32), Seq<char>>) -> Result<
    DateTime,
    (ErrorKind, Seq<char>),
> {
    match parsed {
        Ok((year, month, day, seconds, nanosecond)) => Ok(
            DateTime { date: Date { year, month, day }, time: Time { seconds, nanosecond } },
        ),
        Err(why) => Err(value_error("datetime"@, why)),
    }
}

/// The time that a parse gave, or the error about the time.
pub open spec fn time_outcome(parsed: Result<(u32, u32), Seq<char>>) -> Result<Time, (ErrorKind, Seq<char>)> {
    match parsed {
        Ok((seconds, nanosecond)) => Ok(Time { seconds, nanosecond }),
        Err(why) => Err(value_error("time"@, why)),
    }
}

/// Why a number of hours is not a time of day.
pub open spec fn hours_why(shown: Seq<char>) -> Seq<char> {
    "expected a value in [0, 24), found "@ + shown
}

/// The error about `what`, because of `why`.
fn value_error_exec(what: &str, why: &str) -> (res: (ErrorKind, String))
    ensures
        res.0 == value_error(what@, why@).0,
        res.1@ == value_error(what@, why@).1,
{
    let err = Error::new(ErrorKind::ValueError).what(what).why(why);
    (ErrorKind::ValueError, err.to_string())
}

/// The date that a parse gave, or the error about the date.
pub fn date_from_parse(parsed: Result<(i32, u32, u32), String>) -> (res: Result<Date, (ErrorKind, String)>)
    ensures
        checked(res) == date_outcome(outcome(parsed)),
{
    match parsed {
        Ok((year, month, day)) => Ok(Date { year, month, day }),
        Err(why) => {
            proof {
                reveal_strlit("date");
            }
            Err(value_error_exec("date", why.as_str()))
        },
    }
}

/// The date and time that a parse gave, or the error about the datetime.
pub fn datetime_from_parse(parsed: Result<(i32, u32, u32, u32, u32), String>) -> (res: Result<
    DateTime,
    (ErrorKind, String),
>)
    ensures
        checked(res) == datetime_outcome(outcome(parsed)),
{
    match parsed {
        Ok((year, month, day, seconds, nanosecond)) => Ok(
            DateTime { date: Date { year, month, day }, time: Time { seconds, nanosecond } },
        ),
        Err(why) => {
            proof {
                reveal_strlit("datetime");
            }
            Err(value_error_exec("datetime", why.as_str()))
        },
    }
}

/// The time that a parse gave, or the error about the time.
pub fn time_from_parse(parsed: Result<(u32, u32), String>) -> (res: Result<Time, (ErrorKind, String)>)
    ensures
        checked(res) == time_outcome(outcome(parsed)),
{
    match parsed {
        Ok((seconds, nanosecond)) => Ok(Time { seconds, nanosecond }),
        Err(why) => {
            proof {
                reveal_strlit("time");
            }
            Err(value_error_exec("time", why.as_str()))
        },
    }
}

/// The time of day that a number of hours makes, as its whole number of
/// seconds since midnight: that many seconds within a day, else an error
/// that shows the hours as they were written.
pub open spec fn hours_outcome(seconds: u32, shown: Seq<char>) -> Result<Time, (ErrorKind, Seq<char>)> {
    if seconds < 86_400 {
        Ok(Time { seconds, nanosecond: 0 })
    } else {
        Err(value_error("time"@, hours_why(shown)))
    }
}

/// The time of day that a number of hours makes (see `hours_outcome`).
pub fn time_from_hours(seconds: u32, shown: &str) -> (res: Result<Time, (ErrorKind, String)>)
    ensures
        checked(res) == hours_outcome(seconds, shown@),
{
    match time_from_seconds(seconds) {
        Some((seconds, nanosecond)) => Ok(Time { seconds, nanosecond }),
        None => {
            proof {
                reveal_strlit("time");
                reveal_strlit("expected a value in [0, 24), found ");
            }
            let mut why = String::from_str("expected a value in [0, 24), found ");
            why.append(shown);
            Err(value_error_exec("time", why.as_str()))
        },
    }
}

impl DateArg {
    /// The date, parsed from its text if so given.
    pub fn into_date(self) -> (res: Result<Date, (ErrorKind, String)>)
        ensures
            match self {
                DateArg::Date(date) => res == Ok::<Date, (ErrorKind, String)>(date),
                DateArg::String(text) => checked(res) == date_outcome(parsed_date(text@, date_format())),
            },
    {
        match self {
            DateArg::Date(date) => Ok(date),
            DateArg::String(text) => date_from_parse(parse_date(text.as_str(), "%Y-%m-%d")),
        }
    }
}

impl DateTimeArg {
    /// The date and time, parsed from their text if so given.
    pub fn into_datetime(self) -> (res: Result<DateTime, (ErrorKind, String)>)
        ensures
            match self {
                DateTimeArg::DateTime(datetime) => res == Ok::<DateTime, (ErrorKind, String)>(datetime),
                DateTimeArg::String(text) => checked(res) == datetime_outcome(
                    with_day_seconds(parsed_datetime(text@, datetime_format())),
                ) && holds_parsed_clock(res, parsed_datetime(text@, datetime_format())),
            },
    {
        match self {
            DateTimeArg::DateTime(datetime) => Ok(datetime),
            DateTimeArg::String(text) => {
                let res = datetime_from_parse(
                    parse_datetime_seconds(text.as_str(), "%Y-%m-%d %H:%M:%S"),
                );
                proof {
                    if let Ok((h, mi, s)) = match parsed_datetime(text@, datetime_format()) {
                        Ok((_y, _mo, _d, h, mi, s, _ns)) => Ok::<(u32, u32, u32), ()>((h, mi, s)),
                        Err(_) => Err(()),
                    } {
                        law_clock_seconds(h, mi, s);
                    }
                }
                res
            },
        }
    }
}

impl TimeArg {
    /// The time of day, made from a number of hours or parsed from its text
    /// if so given.
    pub fn into_time(self) -> (res: Result<Time, (ErrorKind, String)>)
        ensures
            match self {
                TimeArg::Time(time) => res == Ok::<Time, (ErrorKind, String)>(time),
                TimeArg::Number { seconds, shown } => checked(res) == hours_outcome(seconds, shown@),
                TimeArg::String(text) => checked(res) == time_outcome(
                    time_with_day_seconds(parsed_time(text@, time_format())),
                ) && holds_parsed_time(res, parsed_time(text@, time_format())),
            },
    {
        match self {
            TimeArg::Time(time) => Ok(time),
            TimeArg::Number { seconds, shown } => time_from_hours(seconds, shown.as_str()),
            TimeArg::String(text) => {
                let res = time_from_parse(parse_time_seconds(text.as_str(), "%H:%M:%S"));
                proof {
                    if let Ok((h, mi, s, _ns)) = parsed_time(text@, time_format()) {
                        law_clock_seconds(h, mi, s);
                    }
                }
                res
            },
        }
    }
}

/// The date and solar time of a sun light when none is given: noon at the
/// March equinox of 2025.
pub open spec fn default_sun_datetime() -> DateTime {
    DateTime { date: Date { year: 2025, month: 3, day: 20 }, time: Time { seconds: 43_200, nanosecond: 0 } }
}

/// The date and solar time of a sun light: the given one, or noon at the
/// March equinox of 2025.
pub fn sun_datetime(datetime: Option<DateTimeArg>) -> (res: Result<DateTime, (ErrorKind, String)>)
    ensures
        match datetime {
            None => res == Ok::<DateTime, (ErrorKind, String)>(default_sun_datetime()),
            Some(DateTimeArg::DateTime(datetime)) => res == Ok::<DateTime, (ErrorKind, String)>(datetime),
            Some(DateTimeArg::String(text)) => checked(res) == datetime_outcome(
                with_day_seconds(parsed_datetime(text@, datetime_format())),
            ) && holds_parsed_clock(res, parsed_datetime(text@, datetime_format())),
        },
{
    match datetime {
        None => Ok(
            DateTime {
                date: Date { year: 2025, month: 3, day: 20 },
                time: Time { seconds: 43_200, nanosecond: 0 },
            },
        ),
        Some(datetime) => datetime.into_datetime(),
    }
}

} // verus!
