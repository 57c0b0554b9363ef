//! The rows of a forecast day: its title, the summary of the day, and its
//! hours in groups, each group a row of clocks above a row of readings.

use vstd::prelude::*;
use vstd::string::*;
use crate::datetime::{clock_of, clock_text, date_ok, datetime_ok, weekday_of, weekday_text};
use crate::error::FormatError;
use crate::grid::{
    appended, cells_view, centered, datum, full_width, keep_rows, label, one_row, push_row,
    rows_view, run, Cell, CellView, Row, Segment, Style,
};
use crate::grouper::{
    group, grouped, lemma_group_covers, lemma_group_member, slice_views, HOURS_PER_ROW,
};
use crate::text::{decimal, decimal_string, push_decimal};
use crate::units::{select, selected, Unit};
use crate::weather::{ForecastDay, Hour, Weather};

verus! {

/// `upper` above `lower` in one cell.
pub open spec fn two_lines(upper: Seq<char>, lower: Seq<char>) -> Seq<char> {
    upper + "\n"@ + lower
}

/// The title row of a day: its date and the weekday of that date.
pub open spec fn forecast_title(fd: ForecastDay) -> Result<Seq<CellView>, FormatError> {
    if date_ok(fd.date@) {
        Ok(seq![full_width(seq![run(fd.date@ + ", "@ + weekday_text(fd.date@), Style::Stamp)])])
    } else {
        Err(FormatError::MalformedDate)
    }
}

/// The header row of a day's summary.
pub open spec fn forecast_header() -> Seq<CellView> {
    seq![
        centered(
            seq![
                run("MAX TEMP"@, Style::Label),
                run("\n"@, Style::Plain),
                run("MIN TEMP"@, Style::Label),
            ],
        ),
        centered(
            seq![
                run("SUNRISE"@, Style::Label),
                run("\n"@, Style::Plain),
                run("SUNSET"@, Style::Label),
            ],
        ),
        label("CONDITION"@),
        label("RAIN (%)"@),
        label("SNOW (%)"@),
        label("UV"@),
    ]
}

/// The data row of a day's summary: highest above lowest temperature in the
/// chosen unit, sunrise above sunset, the condition, the chances of rain and
/// of snow, and the UV index.
pub open spec fn forecast_data(fd: ForecastDay, unit: Unit) -> Seq<CellView> {
    seq![
        datum(
            two_lines(
                selected(unit, fd.day.maxtemp_c@, fd.day.maxtemp_f@),
                selected(unit, fd.day.mintemp_c@, fd.day.mintemp_f@),
            ),
        ),
        datum(two_lines(fd.astro.sunrise@, fd.astro.sunset@)),
        datum(fd.day.condition.text@),
        datum(decimal(fd.day.daily_chance_of_rain as nat)),
        datum(decimal(fd.day.daily_chance_of_snow as nat)),
        datum(fd.day.uv@),
    ]
}

/// Whether every hour of `hours` carries a time stamp that the report
/// accepts.
pub open spec fn hours_ok(hours: Seq<Hour>) -> bool {
    forall|i: int| 0 <= i < hours.len() ==> datetime_ok(#[trigger] hours[i].time@)
}

/// The clocks of `hours`, one label each.
pub open spec fn hour_labels(hours: Seq<Hour>) -> Seq<CellView> {
    Seq::new(hours.len(), |i: int| label(clock_text(hours[i].time@)))
}

/// The header row of a group of hours: their clocks.
pub open spec fn forecast_hour_header(hours: Seq<Hour>) -> Result<Seq<CellView>, FormatError> {
    if hours_ok(hours) {
        Ok(hour_labels(hours))
    } else {
        Err(FormatError::MalformedDateTime)
    }
}

/// What an hour's cell says below its temperature.
pub open spec fn hour_details(hour: Hour) -> Seq<char> {
    "\nRAIN: "@ + decimal(hour.chance_of_rain as nat) + "\nSNOW: "@ + decimal(
        hour.chance_of_snow as nat,
    ) + "\nUV: "@ + hour.uv@
}

/// The cell of an hour: its temperature in the chosen unit, set off as a
/// reading, and below it the chances of rain and of snow and the UV index.
pub open spec fn hour_cell(hour: Hour, unit: Unit) -> CellView {
    centered(
        seq![
            run("TEMP: "@, Style::Plain),
            run(selected(unit, hour.temp_c@, hour.temp_f@), Style::Reading),
            run(hour_details(hour), Style::Plain),
        ],
    )
}

/// The data row of a group of hours.
pub open spec fn forecast_hour_data(hours: Seq<Hour>, unit: Unit) -> Seq<CellView> {
    Seq::new(hours.len(), |i: int| hour_cell(hours[i], unit))
}

/// The rows of the groups `chunks`: for each group its clocks, then its
/// readings.
pub open spec fn hour_rows(chunks: Seq<Seq<Hour>>, unit: Unit) -> Seq<Seq<CellView>> {
    Seq::new(
        2 * chunks.len(),
        |r: int|
            if r % 2 == 0 {
                hour_labels(chunks[r / 2])
            } else {
                forecast_hour_data(chunks[r / 2], unit)
            },
    )
}

/// The rows of a day's hours, in groups of [`HOURS_PER_ROW`].
pub open spec fn forecast_hour(hours: Seq<Hour>, unit: Unit) -> Result<
    Seq<Seq<CellView>>,
    FormatError,
> {
    if hours_ok(hours) {
        Ok(hour_rows(grouped(hours, HOURS_PER_ROW as nat), unit))
    } else {
        Err(FormatError::MalformedDateTime)
    }
}

/// The rows of one day: title, header, data, then the hours. A malformed
/// date is found before a malformed time stamp.
pub open spec fn day_rows(fd: ForecastDay, unit: Unit) -> Result<Seq<Seq<CellView>>, FormatError> {
    match forecast_title(fd) {
        Err(e) => Err(e),
        Ok(title) => match forecast_hour(fd.hour@, unit) {
            Err(e) => Err(e),
            Ok(hours) => Ok(seq![title, forecast_header(), forecast_data(fd, unit)] + hours),
        },
    }
}

/// The rows of `days`, day after day. The first day that is refused decides
/// the error.
pub open spec fn days_rows(days: Seq<ForecastDay>, unit: Unit) -> Result<
    Seq<Seq<CellView>>,
    FormatError,
>
    decreases days.len(),
{
    if days.len() == 0 {
        Ok(Seq::empty())
    } else {
        match days_rows(days.drop_last(), unit) {
            Err(e) => Err(e),
            Ok(before) => match day_rows(days.last(), unit) {
                Err(e) => Err(e),
                Ok(rows) => Ok(before + rows),
            },
        }
    }
}

/// The banner above the upcoming days, which says how many there are.
pub open spec fn banner(upcoming: nat) -> Seq<CellView> {
    seq![
        full_width(
            seq![
                run(
                    "WEATHER FORECAST FOR THE NEXT "@ + decimal(upcoming) + " DAYS"@,
                    Style::Banner,
                ),
            ],
        ),
    ]
}

/// The block of the upcoming days of a forecast of `days`: nothing where
/// today is the only day, else the banner and the rows of each day after
/// today.
pub open spec fn upcoming_rows(days: Seq<ForecastDay>, unit: Unit) -> Result<
    Seq<Seq<CellView>>,
    FormatError,
> {
    if days.len() <= 1 {
        Ok(Seq::empty())
    } else {
        match days_rows(days.skip(1), unit) {
            Err(e) => Err(e),
            Ok(rows) => Ok(seq![banner((days.len() - 1) as nat)] + rows),
        }
    }
}

/// A cell of two labels, one above the other.
fn label_pair(upper: &str, lower: &str) -> (cell: Cell)
    ensures
        cell@ == centered(
            seq![
                run(upper@, Style::Label),
                run("\n"@, Style::Plain),
                run(lower@, Style::Label),
            ],
        ),
{
    let cell = Cell::centered(
        vec![
            Segment::new(String::from_str(upper), Style::Label),
            Segment::new(String::from_str("\n"), Style::Plain),
            Segment::new(String::from_str(lower), Style::Label),
        ],
    );
    assert(cell@.content =~= seq![
        run(upper@, Style::Label),
        run("\n"@, Style::Plain),
        run(lower@, Style::Label),
    ]);
    cell
}

/// `upper` above `lower` as one text.
fn stacked(upper: &str, lower: &str) -> (text: String)
    ensures
        text@ == two_lines(upper@, lower@),
{
    let mut text = String::from_str(upper);
    text.append("\n");
    text.append(lower);
    text
}

impl Weather {
    /// Appends the data row of the summary of `fd`.
    pub fn set_forecast_data(&self, fd: &ForecastDay, rows: &mut Vec<Row>)
        ensures
            rows_view(final(rows)@) == rows_view(old(rows)@).push(
                forecast_data(*fd, self.unit()),
            ),
    {
        let unit = Unit::from_flag(self.cels);
        let max = select(unit, &fd.day.maxtemp_c, &fd.day.maxtemp_f);
        let min = select(unit, &fd.day.mintemp_c, &fd.day.mintemp_f);
        let data = vec![
            Cell::datum(stacked(max.as_str(), min.as_str())),
            Cell::datum(stacked(fd.astro.sunrise.as_str(), fd.astro.sunset.as_str())),
            Cell::datum(fd.day.condition.text.clone()),
            Cell::datum(decimal_string(fd.day.daily_chance_of_rain as usize)),
            Cell::datum(decimal_string(fd.day.daily_chance_of_snow as usize)),
            Cell::datum(fd.day.uv.clone()),
        ];
        assert(cells_view(data@) =~= forecast_data(*fd, self.unit()));
        push_row(rows, data);
    }

    /// Appends the data row of the group of hours `hr`.
    pub fn set_forecast_hour_data(&self, hr: &[Hour], rows: &mut Vec<Row>)
        ensures
            rows_view(final(rows)@) == rows_view(old(rows)@).push(
                forecast_hour_data(hr@, self.unit()),
            ),
    {
        let unit = Unit::from_flag(self.cels);
        let mut data: Vec<Cell> = Vec::new();
        let mut i: usize = 0;
        while i < hr.len()
            invariant
                i <= hr.len(),
                unit == self.unit(),
                data@.len() == i,
                forall|j: int| 0 <= j < i ==> (#[trigger] data@[j])@ == hour_cell(hr@[j], unit),
            decreases hr.len() - i,
        {
            let hour = &hr[i];
            let temp = select(unit, &hour.temp_c, &hour.temp_f);
            let mut details = String::from_str("\nRAIN: ");
            push_decimal(&mut details, hour.chance_of_rain as usize);
            details.append("\nSNOW: ");
            push_decimal(&mut details, hour.chance_of_snow as usize);
            details.append("\nUV: ");
            details.append(hour.uv.as_str());
            assert(details@ =~= hour_details(*hour));
            let cell = Cell::centered(
                vec![
                    Segment::new(String::from_str("TEMP: "), Style::Plain),
                    Segment::new(temp.clone(), Style::Reading),
                    Segment::new(details, Style::Plain),
                ],
            );
            assert(cell@.content =~= hour_cell(*hour, unit).content);
            data.push(cell);
            i = i + 1;
        }
        assert(cells_view(data@) =~= forecast_hour_data(hr@, self.unit()));
        push_row(rows, data);
    }
}

/// A day that is refused among the first days is refused among all of them,
/// with the same error.
pub proof fn lemma_days_rows_refused(days: Seq<ForecastDay>, n: int, unit: Unit)
    requires
        0 <= n <= days.len(),
        days_rows(days.take(n), unit) is Err,
    ensures
        days_rows(days, unit) == days_rows(days.take(n), unit),
    decreases days.len(),
{
    if n == days.len() {
        assert(days.take(n) =~= days);
    } else {
        assert(days.drop_last().take(n) =~= days.take(n));
        lemma_days_rows_refused(days.drop_last(), n, unit);
    }
}

impl Weather {
    /// Appends the title row of `fd`: its date and the weekday of that date.
    pub fn set_forecast_title(&self, fd: &ForecastDay, rows: &mut Vec<Row>) -> (done: Result<
        (),
        FormatError,
    >)
        ensures
            appended(old(rows)@, final(rows)@, done, one_row(forecast_title(*fd))),
    {
        match weekday_of(fd.date.as_str()) {
            Err(e) => Err(e),
            Ok((date, weekday)) => {
                let mut title = date;
                title.append(", ");
                title.append(weekday.as_str());
                let cell = Cell::full_width(vec![Segment::new(title, Style::Stamp)]);
                assert(cell@.content =~= seq![
                    run(fd.date@ + ", "@ + weekday_text(fd.date@), Style::Stamp),
                ]);
                let cells = vec![cell];
                assert(cells_view(cells@) =~= forecast_title(*fd)->Ok_0);
                push_row(rows, cells);
                assert(rows_view(rows@) =~= rows_view(old(rows)@) + seq![forecast_title(*fd)->Ok_0]);
                Ok(())
            },
        }
    }

    /// Appends the header row of a day's summary.
    pub fn set_forecast_header(&self, rows: &mut Vec<Row>)
        ensures
            rows_view(final(rows)@) == rows_view(old(rows)@).push(forecast_header()),
    {
        let header = vec![
            label_pair("MAX TEMP", "MIN TEMP"),
            label_pair("SUNRISE", "SUNSET"),
            Cell::label("CONDITION"),
            Cell::label("RAIN (%)"),
            Cell::label("SNOW (%)"),
            Cell::label("UV"),
        ];
        assert(cells_view(header@) =~= forecast_header());
        push_row(rows, header);
    }

    /// Appends the header row of the group of hours `hr`: the clock of each
    /// hour.
    pub fn set_forecast_hour_header(&self, hr: &[Hour], rows: &mut Vec<Row>) -> (done: Result<
        (),
        FormatError,
    >)
        ensures
            appended(old(rows)@, final(rows)@, done, one_row(forecast_hour_header(hr@))),
    {
        let mut header: Vec<Cell> = Vec::new();
        let mut i: usize = 0;
        while i < hr.len()
            invariant
                i <= hr.len(),
                header@.len() == i,
                forall|j: int| 0 <= j < i ==> datetime_ok(#[trigger] hr@[j].time@),
                forall|j: int|
                    0 <= j < i ==> (#[trigger] header@[j])@ == label(clock_text(hr@[j].time@)),
            decreases hr.len() - i,
        {
            match clock_of(hr[i].time.as_str()) {
                Err(e) => {
                    assert(!datetime_ok(hr@[i as int].time@));
                    return Err(e);
                },
                Ok(clock) => {
                    header.push(Cell::label(clock.as_str()));
                },
            }
            i = i + 1;
        }
        assert(cells_view(header@) =~= hour_labels(hr@));
        push_row(rows, header);
        assert(rows_view(rows@) =~= rows_view(old(rows)@) + seq![hour_labels(hr@)]);
        Ok(())
    }

    /// Appends the rows of the hours `hrs`: in groups of [`HOURS_PER_ROW`],
    /// for each group its clocks, then its readings.
    pub fn set_forecast_hour(&self, hrs: &[Hour], rows: &mut Vec<Row>) -> (done: Result<
        (),
        FormatError,
    >)
        ensures
            appended(old(rows)@, final(rows)@, done, forecast_hour(hrs@, self.unit())),
    {
        let start = rows.len();
        let chunks = group(hrs, HOURS_PER_ROW);
        let ghost groups = grouped(hrs@, HOURS_PER_ROW as nat);
        let mut k: usize = 0;
        assert(rows_view(rows@) =~= rows_view(old(rows)@) + hour_rows(
            groups.take(0),
            self.unit(),
        ));
        while k < chunks.len()
            invariant
                k <= chunks.len(),
                start == old(rows)@.len(),
                groups == grouped(hrs@, HOURS_PER_ROW as nat),
                slice_views(chunks@) == groups,
                forall|j: int| 0 <= j < k ==> hours_ok(#[trigger] groups[j]),
                rows_view(rows@) == rows_view(old(rows)@) + hour_rows(
                    groups.take(k as int),
                    self.unit(),
                ),
            decreases chunks.len() - k,
        {
            let chunk = chunks[k];
            assert(chunk@ == groups[k as int]) by {
                assert(slice_views(chunks@)[k as int] == chunks@[k as int]@);
            }
            let ghost before = rows_view(rows@);
            match self.set_forecast_hour_header(chunk, rows) {
                Err(e) => {
                    proof {
                        let i = choose|i: int|
                            0 <= i < chunk@.len() && !datetime_ok(#[trigger] chunk@[i].time@);
                        lemma_group_member(hrs@, HOURS_PER_ROW as nat, k as int, i);
                        assert(!datetime_ok(hrs@[k * HOURS_PER_ROW + i].time@));
                        assert(rows_view(rows@).len() == rows@.len());
                    }
                    keep_rows(rows, start);
                    assert(rows_view(rows@) =~= rows_view(old(rows)@));
                    return Err(e);
                },
                Ok(()) => {},
            }
            self.set_forecast_hour_data(chunk, rows);
            proof {
                let grown = hour_rows(groups.take(k as int + 1), self.unit());
                let so_far = hour_rows(groups.take(k as int), self.unit());
                assert(grown =~= so_far + seq![
                    hour_labels(chunk@),
                    forecast_hour_data(chunk@, self.unit()),
                ]);
                assert(rows_view(rows@) =~= rows_view(old(rows)@) + grown);
            }
            k = k + 1;
        }
        proof {
            assert(groups.take(k as int) =~= groups);
            assert forall|j: int| 0 <= j < hrs@.len() implies datetime_ok(
                #[trigger] hrs@[j].time@,
            ) by {
                lemma_group_covers(hrs@, HOURS_PER_ROW as nat, j);
                let at = j / (HOURS_PER_ROW as int);
                assert(hours_ok(groups[at]));
            }
        }
        Ok(())
    }

    /// Appends the rows of the day `fd`: title, header, data and hours. This
    /// is the block of today and of each upcoming day alike.
    pub fn format_day(&self, fd: &ForecastDay, rows: &mut Vec<Row>) -> (done: Result<
        (),
        FormatError,
    >)
        ensures
            appended(old(rows)@, final(rows)@, done, day_rows(*fd, self.unit())),
    {
        let start = rows.len();
        match self.set_forecast_title(fd, rows) {
            Err(e) => {
                return Err(e);
            },
            Ok(()) => {},
        }
        self.set_forecast_header(rows);
        self.set_forecast_data(fd, rows);
        let ghost head = rows_view(rows@);
        assert(head =~= rows_view(old(rows)@) + seq![
            forecast_title(*fd)->Ok_0,
            forecast_header(),
            forecast_data(*fd, self.unit()),
        ]);
        match self.set_forecast_hour(fd.hour.as_slice(), rows) {
            Err(e) => {
                keep_rows(rows, start);
                assert(rows_view(rows@) =~= rows_view(old(rows)@));
                Err(e)
            },
            Ok(()) => {
                assert(rows_view(rows@) =~= rows_view(old(rows)@) + day_rows(
                    *fd,
                    self.unit(),
                )->Ok_0);
                Ok(())
            },
        }
    }

    /// Appends the block of today, the first day of the forecast.
    pub fn format_todays_forecast(&self, rows: &mut Vec<Row>) -> (done: Result<(), FormatError>)
        ensures
            appended(
                old(rows)@,
                final(rows)@,
                done,
                day_rows(self.forecast.days()[0], self.unit()),
            ),
    {
        let days = self.forecast.forecastday();
        self.format_day(&days[0], rows)
    }

    /// Appends the block of the upcoming days: where the forecast holds more
    /// than today, a banner with the number of days after today, and the
    /// block of each of them in their order.
    pub fn set_forecast(&self, rows: &mut Vec<Row>) -> (done: Result<(), FormatError>)
        ensures
            appended(
                old(rows)@,
                final(rows)@,
                done,
                upcoming_rows(self.forecast.days(), self.unit()),
            ),
    {
        let days = self.forecast.forecastday();
        if days.len() <= 1 {
            assert(rows_view(rows@) =~= rows_view(old(rows)@) + Seq::<Seq<CellView>>::empty());
            return Ok(());
        }
        let start = rows.len();
        let upcoming = days.len() - 1;
        let mut text = String::from_str("WEATHER FORECAST FOR THE NEXT ");
        push_decimal(&mut text, upcoming);
        text.append(" DAYS");
        let cell = Cell::full_width(vec![Segment::new(text, Style::Banner)]);
        assert(cell@.content =~= banner(upcoming as nat)[0].content);
        let cells = vec![cell];
        assert(cells_view(cells@) =~= banner(upcoming as nat));
        push_row(rows, cells);
        let ghost rest = days@.skip(1);
        let mut i: usize = 1;
        assert(rest.take(0) =~= Seq::<ForecastDay>::empty());
        assert(rows_view(rows@) =~= rows_view(old(rows)@) + seq![banner(upcoming as nat)]
            + days_rows(rest.take(0), self.unit())->Ok_0);
        while i < days.len()
            invariant
                1 <= i <= days.len(),
                start == old(rows)@.len(),
                upcoming == days.len() - 1,
                rest == days@.skip(1),
                days@ == self.forecast.days(),
                days_rows(rest.take(i - 1), self.unit()) is Ok,
                rows_view(rows@) == rows_view(old(rows)@) + seq![banner(upcoming as nat)]
                    + days_rows(rest.take(i - 1), self.unit())->Ok_0,
            decreases days.len() - i,
        {
            let ghost seen = rest.take(i as int);
            assert(seen.drop_last() =~= rest.take(i - 1));
            assert(seen.last() == days@[i as int]);
            match self.format_day(&days[i], rows) {
                Err(e) => {
                    proof {
                        assert(days_rows(seen, self.unit()) == Err::<
                            Seq<Seq<CellView>>,
                            FormatError,
                        >(e));
                        lemma_days_rows_refused(rest, i as int, self.unit());
                        assert(rows_view(rows@).len() == rows@.len());
                    }
                    keep_rows(rows, start);
                    assert(rows_view(rows@) =~= rows_view(old(rows)@));
                    return Err(e);
                },
                Ok(()) => {
                    assert(rows_view(rows@) =~= rows_view(old(rows)@) + seq![
                        banner(upcoming as nat),
                    ] + days_rows(seen, self.unit())->Ok_0);
                },
            }
            i = i + 1;
        }
        assert(rest.take(i - 1) =~= rest);
        assert(rows_view(rows@) =~= rows_view(old(rows)@) + upcoming_rows(
            self.forecast.days(),
            self.unit(),
        )->Ok_0);
        Ok(())
    }

    /// Appends the block of the upcoming days; see [`Weather::set_forecast`].
    pub fn format_forecast(&self, rows: &mut Vec<Row>) -> (done: Result<(), FormatError>)
        ensures
            appended(
                old(rows)@,
                final(rows)@,
                done,
                upcoming_rows(self.forecast.days(), self.unit()),
            ),
    {
        self.set_forecast(rows)
    }
}

} // verus!
