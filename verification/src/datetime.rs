//! The two time formats of a record: `YYYY-MM-DD`, of which the report shows
//! the weekday, and `YYYY-MM-DD HH:MM`, of which it shows the clock.

use vstd::prelude::*;
use vstd::string::*;
use crate::error::FormatError;
use crate::text::ascii_upper;

verus! {

/// Whether `c` is one of the digits `0` to `9`.
pub open spec fn is_digit(c: char) -> bool {
    '0' <= c && c <= '9'
}

/// The number that the digit `c` stands for.
pub open spec fn digit_value(c: char) -> int {
    c as int - '0' as int
}

/// The number written by the two digits of `s` at `at`.
pub open spec fn two_digits(s: Seq<char>, at: int) -> int {
    digit_value(s[at]) * 10 + digit_value(s[at + 1])
}

/// The number written by the four digits of `s` at `at`.
pub open spec fn four_digits(s: Seq<char>, at: int) -> int {
    two_digits(s, at) * 100 + two_digits(s, at + 2)
}

/// Whether `s` has the form `YYYY-MM-DD`: ten characters, digits but for
/// the two hyphens.
pub open spec fn date_shaped(s: Seq<char>) -> bool {
    &&& s.len() == 10
    &&& is_digit(s[0])
    &&& is_digit(s[1])
    &&& is_digit(s[2])
    &&& is_digit(s[3])
    &&& s[4] == '-'
    &&& is_digit(s[5])
    &&& is_digit(s[6])
    &&& s[7] == '-'
    &&& is_digit(s[8])
    &&& is_digit(s[9])
}

/// Whether `s` has the form `YYYY-MM-DD HH:MM`: a date, one space, and two
/// pairs of digits around a colon.
pub open spec fn datetime_shaped(s: Seq<char>) -> bool {
    &&& s.len() == 16
    &&& date_shaped(s.subrange(0, 10))
    &&& s[10] == ' '
    &&& is_digit(s[11])
    &&& is_digit(s[12])
    &&& s[13] == ':'
    &&& is_digit(s[14])
    &&& is_digit(s[15])
}

/// The year that a text of either form names.
pub open spec fn year_of(s: Seq<char>) -> int {
    four_digits(s, 0)
}

/// The month that a text of either form names.
pub open spec fn month_of(s: Seq<char>) -> int {
    two_digits(s, 5)
}

/// The day of the month that a text of either form names.
pub open spec fn day_of(s: Seq<char>) -> int {
    two_digits(s, 8)
}

/// The hour that a time stamp names.
pub open spec fn hour_of(s: Seq<char>) -> int {
    two_digits(s, 11)
}

/// The minute that a time stamp names.
pub open spec fn minute_of(s: Seq<char>) -> int {
    two_digits(s, 14)
}

/// Whether `year` is a leap year of the Gregorian calendar.
pub open spec fn leap_year(year: int) -> bool {
    year % 4 == 0 && (year % 100 != 0 || year % 400 == 0)
}

/// The number of days of `month` in `year`.
pub open spec fn days_in_month(year: int, month: int) -> int {
    if month == 2 {
        if leap_year(year) {
            29
        } else {
            28
        }
    } else if month == 4 || month == 6 || month == 9 || month == 11 {
        30
    } else {
        31
    }
}

/// Whether the Gregorian calendar has the day `day` of `month` in `year`.
pub open spec fn valid_date(year: int, month: int, day: int) -> bool {
    1 <= month <= 12 && 1 <= day <= days_in_month(year, month)
}

/// Whether `s` is a date that the report accepts: of the form `YYYY-MM-DD`
/// and a day of the calendar.
pub open spec fn date_ok(s: Seq<char>) -> bool {
    date_shaped(s) && valid_date(year_of(s), month_of(s), day_of(s))
}

/// Whether `s` is a time stamp that the report accepts: of the form
/// `YYYY-MM-DD HH:MM`, a day of the calendar and a minute of the day.
pub open spec fn datetime_ok(s: Seq<char>) -> bool {
    &&& datetime_shaped(s)
    &&& valid_date(year_of(s), month_of(s), day_of(s))
    &&& hour_of(s) <= 23
    &&& minute_of(s) <= 59
}

/// The number of days of `year`.
pub open spec fn days_in_year(year: int) -> int {
    if leap_year(year) {
        366
    } else {
        365
    }
}

/// The number of days of the years from 0 up to `year`, without `year`.
pub open spec fn days_before_year(year: int) -> int
    decreases year,
{
    if year <= 0 {
        0
    } else {
        days_before_year(year - 1) + days_in_year(year - 1)
    }
}

/// The number of days of the months of `year` before `month`.
pub open spec fn days_before_month(year: int, month: int) -> int
    decreases month,
{
    if month <= 1 {
        0
    } else {
        days_before_month(year, month - 1) + days_in_month(year, month - 1)
    }
}

/// The number of a day of the Gregorian calendar, counted day by day from 1
/// January of the year 0 as day 1.
pub open spec fn day_number(year: int, month: int, day: int) -> int {
    days_before_year(year) + days_before_month(year, month) + day
}

/// The day of the week of a day of the Gregorian calendar: 0 for Monday up to
/// 6 for Sunday. The weekdays follow each other day by day, and 8 September
/// 2015 is a Tuesday.
pub open spec fn weekday_index(year: int, month: int, day: int) -> int {
    (day_number(year, month, day) - day_number(2015, 9, 8) + 1) % 7
}

/// The Julian day number of a day of the Gregorian calendar, for years from
/// 0: the number of the day in closed form, up to a constant.
pub open spec fn julian_day(year: int, month: int, day: int) -> int {
    let a = (14 - month) / 12;
    let y = year + 4800 - a;
    let m = month + 12 * a - 3;
    day + (153 * m + 2) / 5 + 365 * y + y / 4 - y / 100 + y / 400 - 32045
}

/// The number of days of a common year before `month`.
pub open spec fn common_days_before(month: int) -> int {
    if month <= 1 {
        0
    } else if month == 2 {
        31
    } else if month == 3 {
        59
    } else if month == 4 {
        90
    } else if month == 5 {
        120
    } else if month == 6 {
        151
    } else if month == 7 {
        181
    } else if month == 8 {
        212
    } else if month == 9 {
        243
    } else if month == 10 {
        273
    } else if month == 11 {
        304
    } else {
        334
    }
}

/// The number of days of a year before each of its months: those of a
/// common year, and one more from March on in a leap year.
pub proof fn lemma_days_before_month(year: int, month: int)
    requires
        1 <= month <= 12,
    ensures
        days_before_month(year, month) == common_days_before(month) + (if month > 2 && leap_year(
            year,
        ) {
            1int
        } else {
            0int
        }),
    decreases month,
{
    if month > 1 {
        lemma_days_before_month(year, month - 1);
    }
}

/// The number of days before a year: 365 for each year, and one more for
/// each leap year among them.
pub proof fn lemma_days_before_year(year: int)
    requires
        0 <= year,
    ensures
        days_before_year(year) == 365 * year + (year + 3) / 4 - (year + 99) / 100 + (year + 399)
            / 400,
    decreases year,
{
    if year > 0 {
        lemma_days_before_year(year - 1);
    }
}

/// The number of a day in closed form: it is the Julian day number less that
/// of the last day before the year 0.
pub proof fn lemma_day_number(year: int, month: int, day: int)
    requires
        0 <= year,
        1 <= month <= 12,
    ensures
        day_number(year, month, day) == julian_day(year, month, day) - 1721059,
{
    lemma_days_before_month(year, month);
    lemma_days_before_year(year);
    if month <= 2 {
        let y = year + 4799;
        let m = month + 9;
        assert(julian_day(year, month, day) == day + (153 * m + 2) / 5 + 365 * y + y / 4 - y / 100
            + y / 400 - 32045);
        assert(y / 4 == (year + 3) / 4 + 1199);
        assert(y / 100 == (year + 99) / 100 + 47);
        assert(y / 400 == (year + 399) / 400 + 11);
    } else {
        let y = year + 4800;
        let m = month - 3;
        assert(julian_day(year, month, day) == day + (153 * m + 2) / 5 + 365 * y + y / 4 - y / 100
            + y / 400 - 32045);
        assert(y / 4 == year / 4 + 1200);
        assert(y / 100 == year / 100 + 48);
        assert(y / 400 == year / 400 + 12);
        assert((year + 3) / 4 - (year + 99) / 100 + (year + 399) / 400 + (if leap_year(year) {
            1int
        } else {
            0int
        }) == year / 4 - year / 100 + year / 400 + 1);
    }
}

/// The day of the week in closed form: the Julian day number counts the days
/// from a Monday.
pub proof fn lemma_weekday_index(year: int, month: int, day: int)
    requires
        0 <= year,
        1 <= month <= 12,
    ensures
        weekday_index(year, month, day) == julian_day(year, month, day) % 7,
        0 <= weekday_index(year, month, day) < 7,
{
    lemma_day_number(year, month, day);
    lemma_day_number(2015, 9, 8);
}

/// The English name of the day of the week with index `index`.
pub open spec fn weekday_name(index: int) -> Seq<char> {
    if index == 0 {
        "Monday"@
    } else if index == 1 {
        "Tuesday"@
    } else if index == 2 {
        "Wednesday"@
    } else if index == 3 {
        "Thursday"@
    } else if index == 4 {
        "Friday"@
    } else if index == 5 {
        "Saturday"@
    } else {
        "Sunday"@
    }
}

/// The name of the day of the week in upper case, as the report shows it.
pub open spec fn weekday_upper(index: int) -> Seq<char> {
    if index == 0 {
        "MONDAY"@
    } else if index == 1 {
        "TUESDAY"@
    } else if index == 2 {
        "WEDNESDAY"@
    } else if index == 3 {
        "THURSDAY"@
    } else if index == 4 {
        "FRIDAY"@
    } else if index == 5 {
        "SATURDAY"@
    } else {
        "SUNDAY"@
    }
}

/// The weekday, in upper case, of the date that `s` names.
pub open spec fn weekday_text(s: Seq<char>) -> Seq<char> {
    weekday_upper(weekday_index(year_of(s), month_of(s), day_of(s)))
}

/// The clock of a time stamp: its last five characters, `HH:MM`.
pub open spec fn clock_text(s: Seq<char>) -> Seq<char> {
    s.subrange(11, 16)
}

/// The upper case of each weekday name is the name that the report shows.
pub proof fn lemma_weekday_upper(index: int)
    ensures
        ascii_upper(weekday_name(index)) == weekday_upper(index),
{
    reveal_strlit("Monday");
    reveal_strlit("Tuesday");
    reveal_strlit("Wednesday");
    reveal_strlit("Thursday");
    reveal_strlit("Friday");
    reveal_strlit("Saturday");
    reveal_strlit("Sunday");
    reveal_strlit("MONDAY");
    reveal_strlit("TUESDAY");
    reveal_strlit("WEDNESDAY");
    reveal_strlit("THURSDAY");
    reveal_strlit("FRIDAY");
    reveal_strlit("SATURDAY");
    reveal_strlit("SUNDAY");
    assert(ascii_upper(weekday_name(index)) =~= weekday_upper(index));
}

/// chrono's `NaiveDate::parse_from_str` under the format `%Y-%m-%d`, and
/// `NaiveDate::format` with `%A` on the date that it gave. For a text of the
/// form `YYYY-MM-DD` the parse reads the three numbers and succeeds exactly
/// when they name a day of the Gregorian calendar, and `%A` writes the
/// English name of that day's weekday.
#[verifier::external_body]
fn weekday_by_chrono(date: &str) -> (name: Option<String>)
    requires
        date_shaped(date@),
    ensures
        name is Some <==> valid_date(year_of(date@), month_of(date@), day_of(date@)),
        name matches Some(n) ==> n@ == weekday_name(
            weekday_index(year_of(date@), month_of(date@), day_of(date@)),
        ),
{
    match chrono::NaiveDate::parse_from_str(date, "%Y-%m-%d") {
        Ok(day) => Some(day.format("%A").to_string()),
        Err(_) => None,
    }
}

/// chrono's `NaiveDateTime::parse_from_str` under the format
/// `%Y-%m-%d %H:%M`, and `NaiveDateTime::format` with `%H:%M` on the time
/// that it gave. For a text of the form `YYYY-MM-DD HH:MM` the parse succeeds
/// exactly when the text names a day of the Gregorian calendar, an hour up to
/// 23 and a minute up to 59, and `%H:%M` writes hour and minute with two
/// digits each, which are the digits that were read.
#[verifier::external_body]
fn clock_by_chrono(time: &str) -> (clock: Option<String>)
    requires
        datetime_shaped(time@),
    ensures
        clock is Some <==> datetime_ok(time@),
        clock matches Some(c) ==> c@ == clock_text(time@),
{
    match chrono::NaiveDateTime::parse_from_str(time, "%Y-%m-%d %H:%M") {
        Ok(minute) => Some(minute.format("%H:%M").to_string()),
        Err(_) => None,
    }
}

/// Whether the character of `s` at `at` is a digit.
fn digit_at(s: &str, at: usize) -> (yes: bool)
    requires
        at < s@.len(),
    ensures
        yes == is_digit(s@[at as int]),
{
    let c = s.get_char(at);
    '0' <= c && c <= '9'
}

/// Whether `s` has the form `YYYY-MM-DD`.
pub fn is_date_shaped(s: &str) -> (yes: bool)
    ensures
        yes == date_shaped(s@),
{
    s.unicode_len() == 10 && digit_at(s, 0) && digit_at(s, 1) && digit_at(s, 2) && digit_at(s, 3)
        && s.get_char(4) == '-' && digit_at(s, 5) && digit_at(s, 6) && s.get_char(7) == '-'
        && digit_at(s, 8) && digit_at(s, 9)
}

/// Whether `s` has the form `YYYY-MM-DD HH:MM`.
pub fn is_datetime_shaped(s: &str) -> (yes: bool)
    ensures
        yes == datetime_shaped(s@),
{
    if s.unicode_len() != 16 {
        return false;
    }
    let ghost head = s@.subrange(0, 10);
    assert(forall|i: int| 0 <= i < 10 ==> head[i] == s@[i]);
    digit_at(s, 0) && digit_at(s, 1) && digit_at(s, 2) && digit_at(s, 3) && s.get_char(4) == '-'
        && digit_at(s, 5) && digit_at(s, 6) && s.get_char(7) == '-' && digit_at(s, 8) && digit_at(
        s,
        9,
    ) && s.get_char(10) == ' ' && digit_at(s, 11) && digit_at(s, 12) && s.get_char(13) == ':'
        && digit_at(s, 14) && digit_at(s, 15)
}

/// The date as it was given, and its weekday in upper case. A text that is
/// not of the form `YYYY-MM-DD`, or that names no day of the calendar, is
/// refused.
pub fn weekday_of(date: &str) -> (out: Result<(String, String), FormatError>)
    ensures
        match out {
            Ok((day, weekday)) => date_ok(date@) && day@ == date@ && weekday@ == weekday_text(
                date@,
            ),
            Err(e) => !date_ok(date@) && e == FormatError::MalformedDate,
        },
{
    if !is_date_shaped(date) {
        return Err(FormatError::MalformedDate);
    }
    match weekday_by_chrono(date) {
        Some(name) => {
            proof {
                lemma_weekday_upper(weekday_index(year_of(date@), month_of(date@), day_of(date@)));
            }
            Ok((String::from_str(date), name.as_str().to_ascii_uppercase()))
        },
        None => Err(FormatError::MalformedDate),
    }
}

/// The clock `HH:MM` of a time stamp. A text that is not of the form
/// `YYYY-MM-DD HH:MM`, or that names no minute of the calendar, is refused.
pub fn clock_of(time: &str) -> (out: Result<String, FormatError>)
    ensures
        match out {
            Ok(clock) => datetime_ok(time@) && clock@ == clock_text(time@),
            Err(e) => !datetime_ok(time@) && e == FormatError::MalformedDateTime,
        },
{
    if !is_datetime_shaped(time) {
        return Err(FormatError::MalformedDateTime);
    }
    match clock_by_chrono(time) {
        Some(clock) => Ok(clock),
        None => Err(FormatError::MalformedDateTime),
    }
}

} // verus!
