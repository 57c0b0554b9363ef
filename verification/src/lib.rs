//! Weather report assembly: a typed weather record is turned into an ordered
//! sequence of grid rows, and the rows are laid out as a bordered text grid.

pub mod cli;
pub mod current;
pub mod datetime;
pub mod error;
pub mod forecast;
pub mod grid;
pub mod grouper;
pub mod processor;
pub mod query;
pub mod render;
pub mod report;
pub mod text;
pub mod units;
pub mod weather;
