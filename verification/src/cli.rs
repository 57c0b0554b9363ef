//! The arguments of the command line, once they are parsed.

use vstd::prelude::*;
use crate::query::QueryParams;
use crate::text::{decimal, join, joined, texts};

verus! {

/// The parsed arguments: the words of the place, the number of days, and the
/// two switches.
#[derive(Debug)]
pub struct Cli {
    pub location: Vec<String>,
    pub days: u8,
    pub aqi: bool,
    pub cels: bool,
}

/// The fewest days that can be asked for.
pub const MIN_DAYS: u8 = 1;

/// The most days that can be asked for.
pub const MAX_DAYS: u8 = 3;

/// The number of days that is asked for where `days` was given: `days`
/// itself from [`MIN_DAYS`] to [`MAX_DAYS`], the nearer bound otherwise.
pub open spec fn clamped_days(days: u8) -> u8 {
    if days > MAX_DAYS {
        MAX_DAYS
    } else if days < MIN_DAYS {
        MIN_DAYS
    } else {
        days
    }
}

/// The request that the arguments stand for: the days clamped to the range
/// from [`MIN_DAYS`] to [`MAX_DAYS`], the words of the place joined by single
/// spaces, and the switches as they are.
pub fn extract_args(args: Cli) -> (query: QueryParams)
    ensures
        query.days@ == decimal(clamped_days(args.days) as nat),
        query.location@ == joined(texts(args.location@), " "@),
        query.aqi == args.aqi,
        query.cels == args.cels,
{
    let days = if args.days > MAX_DAYS {
        MAX_DAYS
    } else if args.days < MIN_DAYS {
        MIN_DAYS
    } else {
        args.days
    };
    let location = join(&args.location, " ");
    QueryParams::new(days, location, args.aqi, args.cels)
}

} // verus!
