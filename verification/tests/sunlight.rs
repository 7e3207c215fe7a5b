use mulder::camera::sunlight::{
    date_from_parse, datetime_from_parse, sun_datetime, time_from_hours, time_from_parse, Date,
    DateArg, DateTime, DateTimeArg, Time, TimeArg,
};
use mulder::utils::error::ErrorKind;

fn bad(what: &str, why: &str) -> (ErrorKind, String) {
    (ErrorKind::ValueError, format!("bad {} ({})", what, why))
}

#[test]
fn dates_from_text() {
    let date = DateArg::String("2025-03-20".to_string()).into_date();
    assert_eq!(date, Ok(Date { year: 2025, month: 3, day: 20 }));
    let given = Date { year: 1999, month: 12, day: 31 };
    assert_eq!(DateArg::Date(given).into_date(), Ok(given));
}

#[test]
fn dates_refused() {
    assert_eq!(
        DateArg::String("2025-13-01".to_string()).into_date(),
        Err(bad("date", "input is out of range")),
    );
    assert_eq!(
        DateArg::String("2025-03-20x".to_string()).into_date(),
        Err(bad("date", "trailing input")),
    );
    assert_eq!(
        DateArg::String("abc".to_string()).into_date(),
        Err(bad("date", "input contains invalid characters")),
    );
}

#[test]
fn datetimes_from_text() {
    let datetime = DateTimeArg::String("2025-03-20 12:30:15".to_string()).into_datetime();
    assert_eq!(
        datetime,
        Ok(DateTime {
            date: Date { year: 2025, month: 3, day: 20 },
            time: Time { seconds: 45_015, nanosecond: 0 },
        }),
    );
    assert_eq!(
        DateTimeArg::String("2025-03-20".to_string()).into_datetime(),
        Err(bad("datetime", "premature end of input")),
    );
}

#[test]
fn times_from_text() {
    assert_eq!(
        TimeArg::String("12:00:00".to_string()).into_time(),
        Ok(Time { seconds: 43_200, nanosecond: 0 }),
    );
    assert_eq!(
        TimeArg::String("23:59:60".to_string()).into_time(),
        Ok(Time { seconds: 86_399, nanosecond: 1_000_000_000 }),
    );
    assert_eq!(
        TimeArg::String("25:00:00".to_string()).into_time(),
        Err(bad("time", "input is out of range")),
    );
    let given = Time { seconds: 60, nanosecond: 5 };
    assert_eq!(TimeArg::Time(given).into_time(), Ok(given));
}

#[test]
fn times_from_hours() {
    let time = TimeArg::Number { seconds: 5_400, shown: "1.5".to_string() }.into_time();
    assert_eq!(time, Ok(Time { seconds: 5_400, nanosecond: 0 }));
    assert_eq!(time_from_hours(86_399, "23.9999"), Ok(Time { seconds: 86_399, nanosecond: 0 }));
    assert_eq!(
        TimeArg::Number { seconds: 86_400, shown: "24".to_string() }.into_time(),
        Err(bad("time", "expected a value in [0, 24), found 24")),
    );
}

#[test]
fn parse_outcomes() {
    assert_eq!(date_from_parse(Ok((2020, 2, 29))), Ok(Date { year: 2020, month: 2, day: 29 }));
    assert_eq!(date_from_parse(Err("oops".to_string())), Err(bad("date", "oops")));
    assert_eq!(
        datetime_from_parse(Ok((2020, 2, 29, 1, 2))),
        Ok(DateTime {
            date: Date { year: 2020, month: 2, day: 29 },
            time: Time { seconds: 1, nanosecond: 2 },
        }),
    );
    assert_eq!(datetime_from_parse(Err("oops".to_string())), Err(bad("datetime", "oops")));
    assert_eq!(time_from_parse(Ok((7, 8))), Ok(Time { seconds: 7, nanosecond: 8 }));
    assert_eq!(time_from_parse(Err("oops".to_string())), Err(bad("time", "oops")));
}

#[test]
fn sun_datetimes() {
    assert_eq!(
        sun_datetime(None),
        Ok(DateTime {
            date: Date { year: 2025, month: 3, day: 20 },
            time: Time { seconds: 43_200, nanosecond: 0 },
        }),
    );
    assert_eq!(
        sun_datetime(Some(DateTimeArg::String("2024-06-21 06:00:00".to_string()))),
        Ok(DateTime {
            date: Date { year: 2024, month: 6, day: 21 },
            time: Time { seconds: 21_600, nanosecond: 0 },
        }),
    );
    assert_eq!(
        sun_datetime(Some(DateTimeArg::String("noon".to_string()))),
        Err(bad("datetime", "input contains invalid characters")),
    );
}
