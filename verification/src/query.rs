//! What is asked of the weather service.

use vstd::prelude::*;
use crate::text::{decimal, decimal_string};

verus! {

/// A request: for how many days, for which place, with or without air
/// quality, and in which unit the answer is shown.
#[derive(Debug)]
pub struct QueryParams {
    pub days: String,
    pub location: String,
    pub aqi: bool,
    pub cels: bool,
}

impl QueryParams {
    /// The request for `days` days at `location`; the number of days is held
    /// as its decimal numeral.
    pub fn new(days: u8, location: String, aqi: bool, cels: bool) -> (query: QueryParams)
        ensures
            query.days@ == decimal(days as nat),
            query.location == location,
            query.aqi == aqi,
            query.cels == cels,
    {
        QueryParams { days: decimal_string(days as usize), location, aqi, cels }
    }
}

} // verus!
