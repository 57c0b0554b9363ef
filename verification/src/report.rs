//! The whole report: the rows of a record in their fixed order, and the text
//! of the grid that shows them.

use vstd::prelude::*;
use vstd::string::*;
use crate::current::{
    aqi_cells, current_rows, location_row, weather_data_1, weather_data_2, weather_header_1,
    weather_header_2, weather_title,
};
use crate::error::FormatError;
use crate::forecast::{
    banner, day_rows, days_rows, forecast_data, forecast_header, forecast_hour,
    forecast_hour_data, forecast_title, hour_cell, hour_labels, hour_rows, two_lines,
    upcoming_rows,
};
use crate::grid::{datum, label, rows_view, run, CellView, Row, Style, FULL_WIDTH};
use crate::grouper::{chunk_count, grouped, lemma_chunk_count, lemma_group_shape, HOURS_PER_ROW};
use crate::render::{
    column_count, grid_text, layable, lemma_column_count, painted_rows, render, spans_of,
    total_span,
};
use crate::text::decimal;
use crate::units::Unit;
use crate::weather::{Current, ForecastDay, Hour, Weather};

verus! {

/// The width beyond which the text of a cell is wrapped.
pub const MAX_CELL_WIDTH: usize = 42;

/// Whether a row fits the report: every cell spans at least one column and
/// together they span no more than the full width.
pub open spec fn narrow(row: Seq<CellView>) -> bool {
    &&& forall|c: int| 0 <= c < row.len() ==> (#[trigger] row[c]).span >= 1
    &&& total_span(spans_of(row)) <= FULL_WIDTH
}

/// Whether every row of `rows` fits the report.
pub open spec fn all_narrow(rows: Seq<Seq<CellView>>) -> bool {
    forall|r: int| 0 <= r < rows.len() ==> narrow(#[trigger] rows[r])
}

impl Weather {
    /// The rows of the report in their order: the location row, the block of
    /// current conditions, the block of today, and the block of the upcoming
    /// days. A missing air-quality reading is found before a malformed date
    /// or time stamp, and an earlier day's before a later day's.
    pub open spec fn report_rows(&self) -> Result<Seq<Seq<CellView>>, FormatError> {
        match current_rows(self.current, self.unit()) {
            Err(e) => Err(e),
            Ok(current) => match day_rows(self.forecast.days()[0], self.unit()) {
                Err(e) => Err(e),
                Ok(today) => match upcoming_rows(self.forecast.days(), self.unit()) {
                    Err(e) => Err(e),
                    Ok(upcoming) => Ok(
                        seq![location_row(self.location, self.current)] + current + today
                            + upcoming,
                    ),
                },
            },
        }
    }

    /// The text of the report: its rows laid out as a grid whose cells wrap
    /// at [`MAX_CELL_WIDTH`].
    pub open spec fn report_text(&self) -> Result<Seq<char>, FormatError> {
        match self.report_rows() {
            Err(e) => Err(e),
            Ok(rows) => Ok(grid_text(painted_rows(rows), MAX_CELL_WIDTH as nat)),
        }
    }

    /// Whether `out` is what showing this record gives: the text of the
    /// report, or the reason for which the record is refused.
    pub open spec fn shown_as(&self, out: Result<String, FormatError>) -> bool {
        match out {
            Ok(text) => self.report_text() == Ok::<Seq<char>, FormatError>(text@),
            Err(e) => self.report_text() == Err::<Seq<char>, FormatError>(e),
        }
    }
}

/// A row of one-column cells spans as many columns as it has cells.
pub proof fn lemma_unit_spans(row: Seq<CellView>)
    requires
        forall|c: int| 0 <= c < row.len() ==> (#[trigger] row[c]).span == 1,
    ensures
        total_span(spans_of(row)) == row.len(),
    decreases row.len(),
{
    if row.len() > 0 {
        assert(spans_of(row).drop_last() =~= spans_of(row.drop_last()));
        lemma_unit_spans(row.drop_last());
    }
}

/// A row of one cell spans what the cell spans.
pub proof fn lemma_single_span(row: Seq<CellView>)
    requires
        row.len() == 1,
    ensures
        total_span(spans_of(row)) == row[0].span,
{
    assert(spans_of(row).drop_last() =~= Seq::<nat>::empty());
    assert(total_span(spans_of(row).drop_last()) == 0);
}

/// Rows that fit, followed by rows that fit, fit.
pub proof fn lemma_all_narrow_concat(first: Seq<Seq<CellView>>, second: Seq<Seq<CellView>>)
    requires
        all_narrow(first),
        all_narrow(second),
    ensures
        all_narrow(first + second),
{
    assert forall|r: int| 0 <= r < (first + second).len() implies narrow(
        #[trigger] (first + second)[r],
    ) by {
        if r < first.len() {
            assert((first + second)[r] == first[r]);
        } else {
            assert((first + second)[r] == second[r - first.len()]);
        }
    }
}

/// The rows of the hours of a day fit the report: no group holds more hours
/// than the report has columns.
pub proof fn lemma_hour_rows_narrow(hours: Seq<Hour>, unit: Unit)
    ensures
        all_narrow(hour_rows(grouped(hours, HOURS_PER_ROW as nat), unit)),
{
    let groups = grouped(hours, HOURS_PER_ROW as nat);
    let rows = hour_rows(groups, unit);
    lemma_group_shape(hours, HOURS_PER_ROW as nat);
    assert forall|r: int| 0 <= r < rows.len() implies narrow(#[trigger] rows[r]) by {
        let k = r / 2;
        assert(0 <= k < groups.len());
        assert(groups[k].len() <= HOURS_PER_ROW) by {
            if k < groups.len() - 1 {
            } else {
                assert(groups[k] == groups.last());
                assert(hours.len() % (HOURS_PER_ROW as nat) < HOURS_PER_ROW);
            }
        }
        assert(rows[r].len() == groups[k].len());
        lemma_unit_spans(rows[r]);
    }
}

/// The rows of a day fit the report.
pub proof fn lemma_day_rows_narrow(fd: ForecastDay, unit: Unit)
    requires
        day_rows(fd, unit) is Ok,
    ensures
        all_narrow(day_rows(fd, unit)->Ok_0),
{
    let title = forecast_title(fd)->Ok_0;
    let head = seq![title, forecast_header(), forecast_data(fd, unit)];
    lemma_single_span(title);
    lemma_unit_spans(forecast_header());
    lemma_unit_spans(forecast_data(fd, unit));
    assert(all_narrow(head));
    lemma_hour_rows_narrow(fd.hour@, unit);
    lemma_all_narrow_concat(head, forecast_hour(fd.hour@, unit)->Ok_0);
}

/// The rows of a run of days fit the report.
pub proof fn lemma_days_rows_narrow(days: Seq<ForecastDay>, unit: Unit)
    requires
        days_rows(days, unit) is Ok,
    ensures
        all_narrow(days_rows(days, unit)->Ok_0),
    decreases days.len(),
{
    if days.len() > 0 {
        lemma_days_rows_narrow(days.drop_last(), unit);
        lemma_day_rows_narrow(days.last(), unit);
        lemma_all_narrow_concat(
            days_rows(days.drop_last(), unit)->Ok_0,
            day_rows(days.last(), unit)->Ok_0,
        );
    }
}

/// Every row of a report fits the report: no row spans more than the full
/// width, so the grid of a report has no more than [`FULL_WIDTH`] columns.
pub proof fn lemma_report_narrow(weather: Weather)
    requires
        weather.report_rows() is Ok,
    ensures
        all_narrow(weather.report_rows()->Ok_0),
        layable(weather.report_rows()->Ok_0),
{
    let unit = weather.unit();
    let days = weather.forecast.days();
    let first = seq![location_row(weather.location, weather.current)];
    let current = current_rows(weather.current, unit)->Ok_0;
    let today = day_rows(days[0], unit)->Ok_0;
    let upcoming = upcoming_rows(days, unit)->Ok_0;
    lemma_single_span(first[0]);
    assert(all_narrow(first));
    lemma_single_span(weather_title());
    lemma_unit_spans(weather_header_1(unit));
    lemma_unit_spans(weather_data_1(weather.current, unit));
    lemma_unit_spans(weather_header_2());
    lemma_unit_spans(weather_data_2(weather.current)->Ok_0);
    assert(all_narrow(current));
    lemma_day_rows_narrow(days[0], unit);
    if days.len() > 1 {
        let rest = days_rows(days.skip(1), unit)->Ok_0;
        lemma_days_rows_narrow(days.skip(1), unit);
        lemma_single_span(banner((days.len() - 1) as nat));
        assert(all_narrow(seq![banner((days.len() - 1) as nat)]));
        lemma_all_narrow_concat(seq![banner((days.len() - 1) as nat)], rest);
    }
    assert(all_narrow(upcoming));
    lemma_all_narrow_concat(first, current);
    lemma_all_narrow_concat(first + current, today);
    lemma_all_narrow_concat(first + current + today, upcoming);
    let rows = weather.report_rows()->Ok_0;
    assert forall|r: int, c: int| 0 <= r < rows.len() && 0 <= c < rows[r].len() implies (
    #[trigger] rows[r][c]).span >= 1 by {
        assert(narrow(rows[r]));
    }
    assert forall|r: int| 0 <= r < rows.len() implies total_span(spans_of(#[trigger] rows[r]))
        <= usize::MAX by {
        assert(narrow(rows[r]));
    }
}

/// Unit selection: under Fahrenheit every paired reading shows its
/// Fahrenheit value and under Celsius its Celsius value. This holds of the
/// current temperature and felt temperature, of a day's highest and lowest
/// temperature and of an hour's temperature, and the first header names the
/// unit. Wind and precipitation have one unit and are the same under both.
pub proof fn lemma_unit_selection(current: Current, fd: ForecastDay, hour: Hour)
    ensures
        weather_header_1(Unit::Fahrenheit)[0] == label("TEMP (F)"@),
        weather_header_1(Unit::Celsius)[0] == label("TEMP (C)"@),
        weather_data_1(current, Unit::Fahrenheit)[0] == datum(current.temp_f@),
        weather_data_1(current, Unit::Celsius)[0] == datum(current.temp_c@),
        weather_data_1(current, Unit::Fahrenheit)[1] == datum(current.feelslike_f@),
        weather_data_1(current, Unit::Celsius)[1] == datum(current.feelslike_c@),
        forecast_data(fd, Unit::Fahrenheit)[0] == datum(
            two_lines(fd.day.maxtemp_f@, fd.day.mintemp_f@),
        ),
        forecast_data(fd, Unit::Celsius)[0] == datum(
            two_lines(fd.day.maxtemp_c@, fd.day.mintemp_c@),
        ),
        hour_cell(hour, Unit::Fahrenheit).content[1] == run(hour.temp_f@, Style::Reading),
        hour_cell(hour, Unit::Celsius).content[1] == run(hour.temp_c@, Style::Reading),
        weather_data_1(current, Unit::Fahrenheit)[3] == weather_data_1(current, Unit::Celsius)[3],
        weather_data_1(current, Unit::Fahrenheit)[4] == weather_data_1(current, Unit::Celsius)[4],
{
}

/// Air-quality columns: without an air-quality block the second data row of
/// the current conditions has exactly two cells, cloud cover and UV index.
/// With a block that holds all four readings it has exactly six: cloud
/// cover, UV index, US EPA index, PM2.5, PM10 and ozone, in this order. A
/// block that lacks a reading is refused.
pub proof fn lemma_aqi_columns(current: Current)
    ensures
        current.air_quality is None ==> weather_data_2(current) == Ok::<
            Seq<CellView>,
            FormatError,
        >(seq![datum(decimal(current.cloud as nat)), datum(current.uv@)]),
        current.air_quality matches Some(aqi) ==> {
            let index = aqi.reading("us-epa-index"@);
            let pm2_5 = aqi.reading("pm2_5"@);
            let pm10 = aqi.reading("pm10"@);
            let o3 = aqi.reading("o3"@);
            if index is Some && pm2_5 is Some && pm10 is Some && o3 is Some {
                weather_data_2(current) == Ok::<Seq<CellView>, FormatError>(
                    seq![
                        datum(decimal(current.cloud as nat)),
                        datum(current.uv@),
                        datum(index->0.plain@),
                        datum(pm2_5->0.rounded@),
                        datum(pm10->0.rounded@),
                        datum(o3->0.rounded@),
                    ],
                )
            } else {
                weather_data_2(current) == Err::<Seq<CellView>, FormatError>(
                    FormatError::MissingAirQualityKey,
                )
            }
        },
{
    if let Some(aqi) = current.air_quality {
        if weather_data_2(current) is Ok {
            assert(weather_data_2(current)->Ok_0 =~= seq![
                datum(decimal(current.cloud as nat)),
                datum(current.uv@),
            ] + aqi_cells(aqi)->Ok_0);
            assert(weather_data_2(current)->Ok_0 =~= seq![
                datum(decimal(current.cloud as nat)),
                datum(current.uv@),
                datum(aqi.reading("us-epa-index"@)->0.plain@),
                datum(aqi.reading("pm2_5"@)->0.rounded@),
                datum(aqi.reading("pm10"@)->0.rounded@),
                datum(aqi.reading("o3"@)->0.rounded@),
            ]);
        }
    }
}

/// The rows of a day: title, header and data, then for each group of hours
/// a row of clocks and a row of readings. A day of 24 hours has four such
/// pairs and eleven rows in all.
pub proof fn lemma_day_rows_shape(fd: ForecastDay, unit: Unit)
    requires
        day_rows(fd, unit) is Ok,
    ensures
        day_rows(fd, unit)->Ok_0.len() == 3 + 2 * chunk_count(fd.hour@.len(), HOURS_PER_ROW as nat),
        fd.hour@.len() == 24 ==> day_rows(fd, unit)->Ok_0.len() == 11,
        day_rows(fd, unit)->Ok_0[0] == forecast_title(fd)->Ok_0,
        day_rows(fd, unit)->Ok_0[1] == forecast_header(),
        day_rows(fd, unit)->Ok_0[2] == forecast_data(fd, unit),
        forall|k: int|
            0 <= k < chunk_count(fd.hour@.len(), HOURS_PER_ROW as nat) ==> {
                let group = #[trigger] grouped(fd.hour@, HOURS_PER_ROW as nat)[k];
                &&& day_rows(fd, unit)->Ok_0[3 + 2 * k] == hour_labels(group)
                &&& day_rows(fd, unit)->Ok_0[4 + 2 * k] == forecast_hour_data(group, unit)
            },
{
    if fd.hour@.len() == 24 {
        lemma_chunk_count(24, HOURS_PER_ROW as nat, 4);
    }
    let groups = grouped(fd.hour@, HOURS_PER_ROW as nat);
    let rows = day_rows(fd, unit)->Ok_0;
    assert forall|k: int| 0 <= k < chunk_count(fd.hour@.len(), HOURS_PER_ROW as nat) implies {
        let group = #[trigger] grouped(fd.hour@, HOURS_PER_ROW as nat)[k];
        &&& rows[3 + 2 * k] == hour_labels(group)
        &&& rows[4 + 2 * k] == forecast_hour_data(group, unit)
    } by {
        assert(rows[3 + 2 * k] == hour_rows(groups, unit)[2 * k]);
        assert(rows[4 + 2 * k] == hour_rows(groups, unit)[2 * k + 1]);
    }
}

/// The head of a report: the location row, then the title of the current
/// conditions and its two pairs of header and data row, then the block of
/// today; where the forecast holds more than today, the banner follows that
/// block.
pub proof fn lemma_report_shape(weather: Weather)
    requires
        weather.report_rows() is Ok,
    ensures
        ({
            let rows = weather.report_rows()->Ok_0;
            let days = weather.forecast.days();
            let today = day_rows(days[0], weather.unit())->Ok_0;
            &&& rows[0] == location_row(weather.location, weather.current)
            &&& rows[1] == weather_title()
            &&& rows[2] == weather_header_1(weather.unit())
            &&& rows[3] == weather_data_1(weather.current, weather.unit())
            &&& rows[4] == weather_header_2()
            &&& rows[5] == weather_data_2(weather.current)->Ok_0
            &&& rows.subrange(6, 6 + today.len() as int) == today
            &&& days.len() <= 1 ==> rows.len() == 6 + today.len()
            &&& days.len() > 1 ==> rows.len() > 6 + today.len() && rows[6 + today.len() as int]
                == banner((days.len() - 1) as nat)
        }),
{
    let rows = weather.report_rows()->Ok_0;
    let days = weather.forecast.days();
    let today = day_rows(days[0], weather.unit())->Ok_0;
    assert(rows.subrange(6, 6 + today.len() as int) =~= today);
}

/// Determinism: showing the same record twice gives the same outcome, the
/// same text character for character or the same refusal.
pub proof fn lemma_report_deterministic(
    weather: Weather,
    first: Result<String, FormatError>,
    second: Result<String, FormatError>,
)
    requires
        weather.shown_as(first),
        weather.shown_as(second),
    ensures
        first is Ok <==> second is Ok,
        first is Ok ==> first->Ok_0@ == second->Ok_0@,
        first is Err ==> first->Err_0 == second->Err_0,
{
}

/// The grid of a report has exactly [`FULL_WIDTH`] columns: its first row
/// spans them all and no row spans more.
pub proof fn lemma_report_columns(weather: Weather)
    requires
        weather.report_rows() is Ok,
    ensures
        column_count(weather.report_rows()->Ok_0) == FULL_WIDTH,
{
    let rows = weather.report_rows()->Ok_0;
    lemma_report_narrow(weather);
    lemma_column_count(rows);
    assert(rows[0] == location_row(weather.location, weather.current));
    lemma_single_span(rows[0]);
    assert(narrow(rows[0]));
    let widest = choose|r: int|
        0 <= r < rows.len() && total_span(spans_of(#[trigger] rows[r])) == column_count(rows);
    assert(narrow(rows[widest]));
}

impl Weather {
    /// The rows of the report, or the first reason for which the record is
    /// refused.
    pub fn rows(&self) -> (out: Result<Vec<Row>, FormatError>)
        ensures
            match out {
                Ok(rows) => self.report_rows() == Ok::<Seq<Seq<CellView>>, FormatError>(
                    rows_view(rows@),
                ),
                Err(e) => self.report_rows() == Err::<Seq<Seq<CellView>>, FormatError>(e),
            },
    {
        let mut rows: Vec<Row> = Vec::new();
        self.format_location(&mut rows);
        match self.format_current_weather(&mut rows) {
            Err(e) => {
                return Err(e);
            },
            Ok(()) => {},
        }
        match self.format_todays_forecast(&mut rows) {
            Err(e) => {
                return Err(e);
            },
            Ok(()) => {},
        }
        match self.format_forecast(&mut rows) {
            Err(e) => {
                return Err(e);
            },
            Ok(()) => {},
        }
        assert(rows_view(rows@) =~= self.report_rows()->Ok_0);
        Ok(rows)
    }

    /// The text of the report: the rows of the record laid out as a grid
    /// whose cells wrap at [`MAX_CELL_WIDTH`]. A record that is refused gives
    /// the reason and no text.
    pub fn create_table_format(&self) -> (out: Result<String, FormatError>)
        ensures
            self.shown_as(out),
    {
        match self.rows() {
            Err(e) => Err(e),
            Ok(rows) => {
                proof {
                    lemma_report_narrow(*self);
                }
                Ok(render(&rows, MAX_CELL_WIDTH))
            },
        }
    }
}

} // verus!
