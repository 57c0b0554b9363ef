//! The first rows of the report: the location row and the block of current
//! conditions.

use vstd::prelude::*;
use vstd::string::*;
use crate::error::FormatError;
use crate::grid::{
    appended, cells_view, datum, full_width, keep_rows, label, one_row, push_row, rows_view, run,
    Cell, CellView, Row, Segment, Style,
};
use crate::text::{ascii_upper, decimal, decimal_string};
use crate::units::{select, selected, Unit};
use crate::weather::{AirQuality, Current, Location, Weather};

verus! {

/// The cells that the air-quality block adds to the second data row: the US
/// EPA index as it was given, then PM2.5, PM10 and ozone with two decimal
/// places. All four readings must be there.
pub open spec fn aqi_cells(aqi: AirQuality) -> Result<Seq<CellView>, FormatError> {
    let index = aqi.reading("us-epa-index"@);
    let pm2_5 = aqi.reading("pm2_5"@);
    let pm10 = aqi.reading("pm10"@);
    let o3 = aqi.reading("o3"@);
    if index is Some && pm2_5 is Some && pm10 is Some && o3 is Some {
        Ok(
            seq![
                datum(index->0.plain@),
                datum(pm2_5->0.rounded@),
                datum(pm10->0.rounded@),
                datum(o3->0.rounded@),
            ],
        )
    } else {
        Err(FormatError::MissingAirQualityKey)
    }
}

/// The second data row of the current conditions: cloud cover and UV index,
/// followed by the four air-quality cells where the record holds an
/// air-quality block. Without the block the row has two cells and no more.
pub open spec fn weather_data_2(current: Current) -> Result<Seq<CellView>, FormatError> {
    let first = seq![datum(decimal(current.cloud as nat)), datum(current.uv@)];
    match current.air_quality {
        None => Ok(first),
        Some(aqi) => match aqi_cells(aqi) {
            Ok(cells) => Ok(first + cells),
            Err(e) => Err(e),
        },
    }
}

/// The place of a record as the report names it: name and region in upper
/// case, then the local time.
pub open spec fn location_text(location: Location) -> Seq<char> {
    ascii_upper(location.name@) + ", "@ + ascii_upper(location.region@) + ", "@
        + location.localtime@
}

/// The note that says when the current conditions were measured.
pub open spec fn last_updated_text(current: Current) -> Seq<char> {
    "LAST UPDATED: "@ + current.last_updated@
}

/// The first row of the report: one cell across the full width with the
/// place, a bar, and the time of the last update.
pub open spec fn location_row(location: Location, current: Current) -> Seq<CellView> {
    seq![
        full_width(
            seq![
                run(location_text(location), Style::Label),
                run(" | "@, Style::Plain),
                run(last_updated_text(current), Style::Stamp),
            ],
        ),
    ]
}

/// The title row of the current conditions.
pub open spec fn weather_title() -> Seq<CellView> {
    seq![full_width(seq![run("CURRENT WEATHER INFO"@, Style::Title)])]
}

/// The first header row of the current conditions; its first label names
/// the unit of temperature.
pub open spec fn weather_header_1(unit: Unit) -> Seq<CellView> {
    seq![
        label(selected(unit, "TEMP (C)"@, "TEMP (F)"@)),
        label("FEELS LIKE"@),
        label("CONDITION"@),
        label("WIND (KPH)"@),
        label("PRECIP (MM)"@),
        label("HUMIDITY (%)"@),
    ]
}

/// The first data row of the current conditions: temperature and felt
/// temperature in the chosen unit, then condition, wind in kilometres per
/// hour, precipitation in millimetres and humidity, which have one unit only.
pub open spec fn weather_data_1(current: Current, unit: Unit) -> Seq<CellView> {
    seq![
        datum(selected(unit, current.temp_c@, current.temp_f@)),
        datum(selected(unit, current.feelslike_c@, current.feelslike_f@)),
        datum(current.condition.text@),
        datum(current.wind_kph@),
        datum(current.precip_mm@),
        datum(decimal(current.humidity as nat)),
    ]
}

/// The second header row of the current conditions. It always names all six
/// columns.
pub open spec fn weather_header_2() -> Seq<CellView> {
    seq![
        label("CLOUD (%)"@),
        label("UV"@),
        label("US EPA IDX"@),
        label("PM 2.5"@),
        label("PM 10"@),
        label("OZONE"@),
    ]
}

/// The block of the current conditions: title, two pairs of header and data
/// row.
pub open spec fn current_rows(current: Current, unit: Unit) -> Result<
    Seq<Seq<CellView>>,
    FormatError,
> {
    match weather_data_2(current) {
        Err(e) => Err(e),
        Ok(last) => Ok(
            seq![
                weather_title(),
                weather_header_1(unit),
                weather_data_1(current, unit),
                weather_header_2(),
                last,
            ],
        ),
    }
}

impl Weather {
    /// The unit system in which this record is shown.
    pub open spec fn unit(&self) -> Unit {
        Unit::of_flag(self.cels)
    }

    /// The place of the record: name and region in upper case, then the
    /// local time.
    pub fn get_location(&self) -> (text: String)
        ensures
            text@ == location_text(self.location),
    {
        let mut text = self.location.name.as_str().to_ascii_uppercase();
        text.append(", ");
        text.append(self.location.region.as_str().to_ascii_uppercase().as_str());
        text.append(", ");
        text.append(self.location.localtime.as_str());
        text
    }

    /// The note that says when the current conditions were measured.
    pub fn get_last_updated(&self) -> (text: String)
        ensures
            text@ == last_updated_text(self.current),
    {
        let mut text = String::from_str("LAST UPDATED: ");
        text.append(self.current.last_updated.as_str());
        text
    }

    /// Appends the location row.
    pub fn format_location(&self, rows: &mut Vec<Row>)
        ensures
            rows_view(final(rows)@) == rows_view(old(rows)@).push(
                location_row(self.location, self.current),
            ),
    {
        let location = self.get_location();
        let last_updated = self.get_last_updated();
        let cell = Cell::full_width(
            vec![
                Segment::new(location, Style::Label),
                Segment::new(String::from_str(" | "), Style::Plain),
                Segment::new(last_updated, Style::Stamp),
            ],
        );
        assert(cell@.content =~= location_row(self.location, self.current)[0].content);
        let cells = vec![cell];
        assert(cells_view(cells@) =~= location_row(self.location, self.current));
        push_row(rows, cells);
    }

    /// Appends the title row of the current conditions.
    pub fn set_weather_title(&self, rows: &mut Vec<Row>)
        ensures
            rows_view(final(rows)@) == rows_view(old(rows)@).push(weather_title()),
    {
        let cell = Cell::full_width(
            vec![Segment::new(String::from_str("CURRENT WEATHER INFO"), Style::Title)],
        );
        assert(cell@.content =~= weather_title()[0].content);
        let cells = vec![cell];
        assert(cells_view(cells@) =~= weather_title());
        push_row(rows, cells);
    }

    /// Appends the first header row of the current conditions.
    pub fn set_weather_header_1(&self, rows: &mut Vec<Row>)
        ensures
            rows_view(final(rows)@) == rows_view(old(rows)@).push(weather_header_1(self.unit())),
    {
        let temp_unit = select(Unit::from_flag(self.cels), "TEMP (C)", "TEMP (F)");
        let header = vec![
            Cell::label(temp_unit),
            Cell::label("FEELS LIKE"),
            Cell::label("CONDITION"),
            Cell::label("WIND (KPH)"),
            Cell::label("PRECIP (MM)"),
            Cell::label("HUMIDITY (%)"),
        ];
        assert(cells_view(header@) =~= weather_header_1(self.unit()));
        push_row(rows, header);
    }

    /// Appends the first data row of the current conditions.
    pub fn set_weather_data_1(&self, rows: &mut Vec<Row>)
        ensures
            rows_view(final(rows)@) == rows_view(old(rows)@).push(
                weather_data_1(self.current, self.unit()),
            ),
    {
        let unit = Unit::from_flag(self.cels);
        let temp = select(unit, &self.current.temp_c, &self.current.temp_f);
        let feelslike = select(unit, &self.current.feelslike_c, &self.current.feelslike_f);
        let data = vec![
            Cell::datum(temp.clone()),
            Cell::datum(feelslike.clone()),
            Cell::datum(self.current.condition.text.clone()),
            Cell::datum(self.current.wind_kph.clone()),
            Cell::datum(self.current.precip_mm.clone()),
            Cell::datum(decimal_string(self.current.humidity as usize)),
        ];
        assert(cells_view(data@) =~= weather_data_1(self.current, self.unit()));
        push_row(rows, data);
    }

    /// Appends the second header row of the current conditions.
    pub fn set_weather_header_2(&self, rows: &mut Vec<Row>)
        ensures
            rows_view(final(rows)@) == rows_view(old(rows)@).push(weather_header_2()),
    {
        let header = vec![
            Cell::label("CLOUD (%)"),
            Cell::label("UV"),
            Cell::label("US EPA IDX"),
            Cell::label("PM 2.5"),
            Cell::label("PM 10"),
            Cell::label("OZONE"),
        ];
        assert(cells_view(header@) =~= weather_header_2());
        push_row(rows, header);
    }

    /// Appends the block of the current conditions: the title and two pairs
    /// of header and data row.
    pub fn format_current_weather(&self, rows: &mut Vec<Row>) -> (done: Result<(), FormatError>)
        ensures
            appended(old(rows)@, final(rows)@, done, current_rows(self.current, self.unit())),
    {
        let start = rows.len();
        self.set_weather_title(rows);
        self.set_weather_header_1(rows);
        self.set_weather_data_1(rows);
        self.set_weather_header_2(rows);
        match self.set_weather_data_2(rows) {
            Err(e) => {
                assert(rows_view(rows@).len() == rows@.len());
                keep_rows(rows, start);
                assert(rows_view(rows@) =~= rows_view(old(rows)@));
                Err(e)
            },
            Ok(()) => {
                assert(rows_view(rows@) =~= rows_view(old(rows)@) + current_rows(
                    self.current,
                    self.unit(),
                )->Ok_0);
                Ok(())
            },
        }
    }

    /// Appends the second data row of the current conditions. Where the
    /// air-quality block lacks a reading, `rows` stays as it was.
    pub fn set_weather_data_2(&self, rows: &mut Vec<Row>) -> (done: Result<(), FormatError>)
        ensures
            appended(old(rows)@, final(rows)@, done, one_row(weather_data_2(self.current))),
    {
        let mut data = vec![
            Cell::datum(decimal_string(self.current.cloud as usize)),
            Cell::datum(self.current.uv.clone()),
        ];
        assert(cells_view(data@) =~= seq![
            datum(decimal(self.current.cloud as nat)),
            datum(self.current.uv@),
        ]);
        if let Some(aqi) = &self.current.air_quality {
            let index = aqi.get("us-epa-index");
            let pm2_5 = aqi.get("pm2_5");
            let pm10 = aqi.get("pm10");
            let o3 = aqi.get("o3");
            match (index, pm2_5, pm10, o3) {
                (Some(index), Some(pm2_5), Some(pm10), Some(o3)) => {
                    let ghost first = cells_view(data@);
                    data.push(Cell::datum(index.plain.clone()));
                    data.push(Cell::datum(pm2_5.rounded.clone()));
                    data.push(Cell::datum(pm10.rounded.clone()));
                    data.push(Cell::datum(o3.rounded.clone()));
                    assert(cells_view(data@) =~= first + aqi_cells(*aqi)->Ok_0);
                },
                _ => {
                    return Err(FormatError::MissingAirQualityKey);
                },
            }
        }
        push_row(rows, data);
        assert(rows_view(rows@) =~= rows_view(old(rows)@) + seq![
            weather_data_2(self.current)->Ok_0,
        ]);
        Ok(())
    }
}

} // verus!
