//! Unit selection between the metric and the imperial value of a paired reading.

use vstd::prelude::*;

verus! {

/// The unit system in which paired readings are shown.
#[derive(Clone, Copy, Debug, PartialEq, Eq, Structural)]
pub enum Unit {
    Celsius,
    Fahrenheit,
}

impl Unit {
    /// The unit system chosen by the "show Celsius" flag of a request.
    pub open spec fn of_flag(cels: bool) -> Unit {
        if cels {
            Unit::Celsius
        } else {
            Unit::Fahrenheit
        }
    }

    /// Executable form of [`Unit::of_flag`].
    pub fn from_flag(cels: bool) -> (unit: Unit)
        ensures
            unit == Unit::of_flag(cels),
    {
        if cels {
            Unit::Celsius
        } else {
            Unit::Fahrenheit
        }
    }
}

/// The value of a paired reading that `unit` selects.
pub open spec fn selected<T>(unit: Unit, celsius: T, fahrenheit: T) -> T {
    match unit {
        Unit::Celsius => celsius,
        Unit::Fahrenheit => fahrenheit,
    }
}

/// Picks the Celsius value under `Unit::Celsius` and the Fahrenheit value
/// under `Unit::Fahrenheit`.
pub fn select<T>(unit: Unit, celsius: T, fahrenheit: T) -> (value: T)
    ensures
        value == selected(unit, celsius, fahrenheit),
        unit == Unit::Celsius ==> value == celsius,
        unit == Unit::Fahrenheit ==> value == fahrenheit,
{
    match unit {
        Unit::Celsius => celsius,
        Unit::Fahrenheit => fahrenheit,
    }
}

} // verus!
