use weather_report::datetime::{clock_of, is_date_shaped, is_datetime_shaped, weekday_of};
use weather_report::error::FormatError;

fn weekday(date: &str) -> String {
    weekday_of(date).unwrap().1
}

#[test]
fn weekday_of_a_saturday() {
    assert_eq!(weekday_of("2021-08-14"), Ok(("2021-08-14".to_string(), "SATURDAY".to_string())));
}

#[test]
fn weekday_of_a_friday() {
    assert_eq!(weekday_of("2021-08-13"), Ok(("2021-08-13".to_string(), "FRIDAY".to_string())));
}

#[test]
fn weekday_of_each_day_of_a_week() {
    assert_eq!(weekday("2021-08-09"), "MONDAY");
    assert_eq!(weekday("2021-08-10"), "TUESDAY");
    assert_eq!(weekday("2021-08-11"), "WEDNESDAY");
    assert_eq!(weekday("2021-08-12"), "THURSDAY");
    assert_eq!(weekday("2021-08-13"), "FRIDAY");
    assert_eq!(weekday("2021-08-14"), "SATURDAY");
    assert_eq!(weekday("2021-08-15"), "SUNDAY");
}

#[test]
fn weekday_at_the_ends_of_the_range() {
    assert_eq!(weekday("0000-01-01"), "SATURDAY");
    assert_eq!(weekday("0001-01-01"), "MONDAY");
    assert_eq!(weekday("1970-01-01"), "THURSDAY");
    assert_eq!(weekday("2000-02-29"), "TUESDAY");
    assert_eq!(weekday("9999-12-31"), "FRIDAY");
}

#[test]
fn malformed_date_is_refused() {
    assert_eq!(weekday_of("14-08-2021"), Err(FormatError::MalformedDate));
}

#[test]
fn dates_of_another_form_are_refused() {
    for date in [
        "",
        "2021",
        "2021-8-14",
        "2021-08-1",
        "2021/08/14",
        "2021-08-14 ",
        " 2021-08-14",
        "+2021-08-14",
        "21-08-14",
        "2021-08-14T00:00",
        "2021-08-1४",
        "２０２１-08-14",
        "abcd-ef-gh",
    ] {
        assert_eq!(weekday_of(date), Err(FormatError::MalformedDate), "{date:?}");
        assert!(!is_date_shaped(date), "{date:?}");
    }
}

#[test]
fn days_that_the_calendar_lacks_are_refused() {
    for date in [
        "2021-00-10",
        "2021-13-01",
        "2021-01-00",
        "2021-01-32",
        "2021-04-31",
        "2021-02-29",
        "1900-02-29",
        "2100-02-29",
        "2021-02-30",
    ] {
        assert!(is_date_shaped(date), "{date:?}");
        assert_eq!(weekday_of(date), Err(FormatError::MalformedDate), "{date:?}");
    }
}

#[test]
fn leap_days_are_accepted() {
    assert_eq!(weekday("2020-02-29"), "SATURDAY");
    assert_eq!(weekday("2024-02-29"), "THURSDAY");
    assert_eq!(weekday("2000-02-29"), "TUESDAY");
    assert_eq!(weekday("0000-02-29"), "TUESDAY");
}

fn leap(year: i64) -> bool {
    year % 4 == 0 && (year % 100 != 0 || year % 400 == 0)
}

fn days_in(year: i64, month: i64) -> i64 {
    match month {
        2 => {
            if leap(year) {
                29
            } else {
                28
            }
        }
        4 | 6 | 9 | 11 => 30,
        _ => 31,
    }
}

fn name_by_day_number(year: i64, month: i64, day: i64) -> &'static str {
    let a = (14 - month) / 12;
    let y = year + 4800 - a;
    let m = month + 12 * a - 3;
    let number = day + (153 * m + 2) / 5 + 365 * y + y / 4 - y / 100 + y / 400 - 32045;
    ["MONDAY", "TUESDAY", "WEDNESDAY", "THURSDAY", "FRIDAY", "SATURDAY", "SUNDAY"]
        [(number % 7) as usize]
}

#[test]
fn weekday_follows_the_day_number_on_every_day_of_some_decades() {
    for year in 1990..2040i64 {
        for month in 1..=12i64 {
            for day in 1..=31i64 {
                let date = format!("{year:04}-{month:02}-{day:02}");
                let out = weekday_of(&date);
                if day <= days_in(year, month) {
                    let expected = name_by_day_number(year, month, day).to_string();
                    assert_eq!(out, Ok((date.clone(), expected)), "{date}");
                } else {
                    assert_eq!(out, Err(FormatError::MalformedDate), "{date}");
                }
            }
        }
    }
}

#[test]
fn weekday_follows_the_day_number_in_every_year() {
    for year in 0..10000i64 {
        for (month, day) in [(1i64, 1i64), (2, 28), (2, 29), (3, 1), (12, 31)] {
            let date = format!("{year:04}-{month:02}-{day:02}");
            let out = weekday_of(&date);
            if day <= days_in(year, month) {
                let expected = name_by_day_number(year, month, day).to_string();
                assert_eq!(out, Ok((date.clone(), expected)), "{date}");
            } else {
                assert_eq!(out, Err(FormatError::MalformedDate), "{date}");
            }
        }
    }
}

#[test]
fn clock_of_an_evening() {
    assert_eq!(clock_of("2021-08-13 21:00"), Ok("21:00".to_string()));
}

#[test]
fn clock_at_the_ends_of_the_day() {
    assert_eq!(clock_of("2021-08-13 00:00"), Ok("00:00".to_string()));
    assert_eq!(clock_of("2021-08-13 09:05"), Ok("09:05".to_string()));
    assert_eq!(clock_of("2021-08-13 23:59"), Ok("23:59".to_string()));
}

#[test]
fn clock_is_the_end_of_the_time_stamp_on_every_minute() {
    for hour in 0..24 {
        for minute in 0..60 {
            let clock = format!("{hour:02}:{minute:02}");
            assert_eq!(clock_of(&format!("2024-02-29 {clock}")), Ok(clock));
        }
    }
}

#[test]
fn time_stamps_of_another_form_are_refused() {
    for time in [
        "",
        "21:00",
        "2021-08-13",
        "2021-08-13 21:00:00",
        "2021-08-13T21:00",
        "2021-08-13  21:00",
        "2021-08-13 9:00",
        "2021-08-13 21.00",
        "2021-8-13 21:00",
        " 2021-08-13 21:00",
        "2021-08-13 21:00 ",
        "2021-08-13 2१:00",
    ] {
        assert_eq!(clock_of(time), Err(FormatError::MalformedDateTime), "{time:?}");
        assert!(!is_datetime_shaped(time), "{time:?}");
    }
}

#[test]
fn minutes_that_the_calendar_lacks_are_refused() {
    for time in [
        "2021-08-13 24:00",
        "2021-08-13 21:60",
        "2021-08-13 99:99",
        "2021-02-29 12:00",
        "2021-13-01 12:00",
        "2021-00-10 12:00",
        "2021-04-31 12:00",
    ] {
        assert!(is_datetime_shaped(time), "{time:?}");
        assert_eq!(clock_of(time), Err(FormatError::MalformedDateTime), "{time:?}");
    }
}

#[test]
fn shapes_are_told_apart() {
    assert!(is_date_shaped("2021-08-14"));
    assert!(is_date_shaped("0000-00-00"));
    assert!(!is_date_shaped("2021-08-14 21:00"));
    assert!(is_datetime_shaped("2021-08-14 21:00"));
    assert!(is_datetime_shaped("9999-99-99 99:99"));
    assert!(!is_datetime_shaped("2021-08-14"));
}
