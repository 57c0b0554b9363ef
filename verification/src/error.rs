//! The ways in which a record can fail to be made or shown.

use vstd::prelude::*;
use vstd::string::*;

verus! {

/// Why a record was refused. A refusal is final: nothing of the report is
/// produced.
#[derive(Clone, Copy, Debug, PartialEq, Eq, Structural)]
pub enum FormatError {
    /// A date is not of the form `YYYY-MM-DD`, or names no day of the calendar.
    MalformedDate,
    /// A time stamp is not of the form `YYYY-MM-DD HH:MM`, or names no minute
    /// of the calendar.
    MalformedDateTime,
    /// The air-quality block is present but lacks one of its four readings.
    MissingAirQualityKey,
}

/// A forecast was to be made of no day at all.
#[derive(Clone, Copy, Debug, PartialEq, Eq, Structural)]
pub struct EmptyForecast;

impl EmptyForecast {
    /// The words in which the error is described.
    pub open spec fn description(self) -> Seq<char> {
        "forecast holds no day"@
    }

    /// The error in words.
    pub fn message(&self) -> (text: String)
        ensures
            text@ == self.description(),
    {
        String::from_str("forecast holds no day")
    }
}

impl FormatError {
    /// The words in which the error is described.
    pub open spec fn description(self) -> Seq<char> {
        match self {
            FormatError::MalformedDate => "date is not YYYY-MM-DD"@,
            FormatError::MalformedDateTime => "time stamp is not YYYY-MM-DD HH:MM"@,
            FormatError::MissingAirQualityKey => "air quality reading is missing"@,
        }
    }

    /// The error in words.
    pub fn message(&self) -> (text: String)
        ensures
            text@ == self.description(),
    {
        match self {
            FormatError::MalformedDate => String::from_str("date is not YYYY-MM-DD"),
            FormatError::MalformedDateTime => String::from_str(
                "time stamp is not YYYY-MM-DD HH:MM",
            ),
            FormatError::MissingAirQualityKey => String::from_str("air quality reading is missing"),
        }
    }
}

} // verus!
