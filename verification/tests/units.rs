use weather_report::units::{select, Unit};

#[test]
fn select_picks_fahrenheit_under_fahrenheit() {
    assert_eq!(select(Unit::Fahrenheit, "20.0", "68.0"), "68.0");
}

#[test]
fn select_picks_celsius_under_celsius() {
    assert_eq!(select(Unit::Celsius, "20.0", "68.0"), "20.0");
}

#[test]
fn unit_follows_the_celsius_flag() {
    assert_eq!(Unit::from_flag(true), Unit::Celsius);
    assert_eq!(Unit::from_flag(false), Unit::Fahrenheit);
}
