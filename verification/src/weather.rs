//! The weather record: a location, the current conditions and a forecast of
//! one or more days with their hours.
//!
//! Readings that are not whole numbers are held as decimal text, in the form
//! in which they are shown.

use vstd::prelude::*;
use vstd::string::*;
use crate::error::EmptyForecast;

verus! {

/// Where the record was measured.
#[derive(Clone, Debug, PartialEq, Eq)]
pub struct Location {
    pub name: String,
    pub region: String,
    pub country: String,
    pub localtime: String,
}

/// A weather condition in words.
#[derive(Clone, Debug, PartialEq, Eq)]
pub struct Condition {
    pub text: String,
}

/// One reading of the air-quality block, under its key, in the two forms in
/// which a reading is shown: as it was given, and with two decimal places.
#[derive(Clone, Debug, PartialEq, Eq)]
pub struct AqiEntry {
    pub key: String,
    pub plain: String,
    pub rounded: String,
}

/// The air-quality readings of a record, by key. Of two entries with the
/// same key the first counts.
#[derive(Clone, Debug, PartialEq, Eq)]
pub struct AirQuality {
    pub entries: Vec<AqiEntry>,
}

impl AirQuality {
    /// The first of `entries` under `key`, if there is one.
    pub open spec fn lookup(entries: Seq<AqiEntry>, key: Seq<char>) -> Option<AqiEntry>
        decreases entries.len(),
    {
        if entries.len() == 0 {
            None
        } else if entries[0].key@ == key {
            Some(entries[0])
        } else {
            Self::lookup(entries.drop_first(), key)
        }
    }

    /// The reading under `key`, if the block holds one.
    pub open spec fn reading(self, key: Seq<char>) -> Option<AqiEntry> {
        Self::lookup(self.entries@, key)
    }

    /// The reading under `key`, if the block holds one.
    pub fn get(&self, key: &str) -> (found: Option<&AqiEntry>)
        ensures
            match found {
                Some(entry) => self.reading(key@) == Some(*entry),
                None => self.reading(key@) is None,
            },
    {
        let wanted = String::from_str(key);
        let mut i: usize = 0;
        assert(self.entries@.skip(0) =~= self.entries@);
        while i < self.entries.len()
            invariant
                i <= self.entries.len(),
                wanted@ == key@,
                self.reading(key@) == Self::lookup(self.entries@.skip(i as int), key@),
            decreases self.entries.len() - i,
        {
            let ghost rest = self.entries@.skip(i as int);
            assert(rest[0] == self.entries@[i as int]);
            assert(rest.drop_first() =~= self.entries@.skip(i as int + 1));
            if self.entries[i].key == wanted {
                return Some(&self.entries[i]);
            }
            i = i + 1;
        }
        None
    }
}

/// One hour of a forecast day.
#[derive(Clone, Debug, PartialEq, Eq)]
pub struct Hour {
    pub time: String,
    pub temp_c: String,
    pub temp_f: String,
    pub chance_of_rain: u8,
    pub chance_of_snow: u8,
    pub uv: String,
}

/// The conditions at the time of the last update.
#[derive(Clone, Debug, PartialEq, Eq)]
pub struct Current {
    pub last_updated: String,
    pub temp_c: String,
    pub temp_f: String,
    pub condition: Condition,
    pub wind_mph: String,
    pub wind_kph: String,
    pub precip_mm: String,
    pub precip_in: String,
    pub humidity: u8,
    pub cloud: u8,
    pub feelslike_c: String,
    pub feelslike_f: String,
    pub uv: String,
    pub air_quality: Option<AirQuality>,
}

/// The summary of a forecast day.
#[derive(Clone, Debug, PartialEq, Eq)]
pub struct WeatherSummary {
    pub maxtemp_c: String,
    pub maxtemp_f: String,
    pub mintemp_c: String,
    pub mintemp_f: String,
    pub avghumidity: String,
    pub daily_chance_of_rain: u8,
    pub daily_chance_of_snow: u8,
    pub condition: Condition,
    pub uv: String,
}

/// Sunrise and sunset of a forecast day.
#[derive(Clone, Debug, PartialEq, Eq)]
pub struct Astro {
    pub sunrise: String,
    pub sunset: String,
}

/// One day of the forecast with its hours in chronological order.
#[derive(Clone, Debug, PartialEq, Eq)]
pub struct ForecastDay {
    pub date: String,
    pub day: WeatherSummary,
    pub astro: Astro,
    pub hour: Vec<Hour>,
}

/// The forecast: today first, then the upcoming days. It always holds at
/// least one day.
#[derive(Debug, PartialEq, Eq)]
pub struct Forecast {
    forecastday: Vec<ForecastDay>,
}

impl Forecast {
    #[verifier::type_invariant]
    spec fn inv(self) -> bool {
        self.forecastday@.len() >= 1
    }

    /// The days of the forecast, today first.
    pub closed spec fn days(self) -> Seq<ForecastDay> {
        self.forecastday@
    }

    /// A forecast of `days`, today first. No days make no forecast.
    pub fn new(days: Vec<ForecastDay>) -> (forecast: Result<Forecast, EmptyForecast>)
        ensures
            days@.len() == 0 <==> forecast is Err,
            forecast matches Ok(f) ==> f.days() == days@,
    {
        if days.len() == 0 {
            Err(EmptyForecast)
        } else {
            Ok(Forecast { forecastday: days })
        }
    }

    /// The days of the forecast, today first; there is at least one.
    pub fn forecastday(&self) -> (days: &Vec<ForecastDay>)
        ensures
            days@ == self.days(),
            days@.len() >= 1,
    {
        proof {
            use_type_invariant(self);
        }
        &self.forecastday
    }
}

/// A decoded record before the display preference is known.
#[derive(Debug, PartialEq, Eq)]
pub struct WeatherBuilder {
    pub location: Location,
    pub current: Current,
    pub forecast: Forecast,
}

/// A record together with the unit preference under which it is shown.
#[derive(Debug, PartialEq, Eq)]
pub struct Weather {
    pub location: Location,
    pub current: Current,
    pub forecast: Forecast,
    pub cels: bool,
}

impl WeatherBuilder {
    /// The record with its unit preference: Celsius where `cels` holds,
    /// Fahrenheit otherwise.
    pub fn build(self, cels: bool) -> (weather: Weather)
        ensures
            weather.location == self.location,
            weather.current == self.current,
            weather.forecast == self.forecast,
            weather.cels == cels,
    {
        Weather { location: self.location, current: self.current, forecast: self.forecast, cels }
    }
}

} // verus!
