use weather_report::cli::{extract_args, Cli};
use weather_report::processor::create_url;
use weather_report::query::QueryParams;

fn args(words: &[&str], days: u8) -> Cli {
    Cli { location: words.iter().map(|w| w.to_string()).collect(), days, aqi: false, cels: true }
}

#[test]
fn query_holds_the_days_as_a_numeral() {
    let query = QueryParams::new(3, "Oslo".to_string(), true, false);
    assert_eq!(query.days, "3");
    assert_eq!(query.location, "Oslo");
    assert!(query.aqi);
    assert!(!query.cels);
    assert_eq!(QueryParams::new(0, String::new(), false, false).days, "0");
    assert_eq!(QueryParams::new(255, String::new(), false, false).days, "255");
}

#[test]
fn days_within_the_range_are_kept() {
    assert_eq!(extract_args(args(&["Oslo"], 1)).days, "1");
    assert_eq!(extract_args(args(&["Oslo"], 2)).days, "2");
    assert_eq!(extract_args(args(&["Oslo"], 3)).days, "3");
}

#[test]
fn days_above_the_range_become_three() {
    assert_eq!(extract_args(args(&["Oslo"], 4)).days, "3");
    assert_eq!(extract_args(args(&["Oslo"], 255)).days, "3");
}

#[test]
fn no_days_become_one() {
    assert_eq!(extract_args(args(&["Oslo"], 0)).days, "1");
}

#[test]
fn the_words_of_the_place_are_joined_by_spaces() {
    assert_eq!(extract_args(args(&["New", "York", "City"], 1)).location, "New York City");
    assert_eq!(extract_args(args(&["Oslo"], 1)).location, "Oslo");
    assert_eq!(extract_args(args(&[], 1)).location, "");
}

#[test]
fn the_switches_are_handed_on() {
    let mut given = args(&["Oslo"], 1);
    given.aqi = true;
    given.cels = false;
    let query = extract_args(given);
    assert!(query.aqi);
    assert!(!query.cels);
    let query = extract_args(args(&["Oslo"], 1));
    assert!(!query.aqi);
    assert!(query.cels);
}

#[test]
fn url_of_a_plain_request() {
    let query = QueryParams::new(3, "London".to_string(), true, true);
    assert_eq!(
        create_url("https://api.weatherapi.com/v1", "k-123", &query),
        "https://api.weatherapi.com/v1/forecast.json?key=k-123&q=London&days=3&aqi=yes&alerts=no"
    );
}

#[test]
fn url_without_air_quality_says_no() {
    let query = QueryParams::new(1, "London".to_string(), false, true);
    assert_eq!(
        create_url("http://host", "k", &query),
        "http://host/forecast.json?key=k&q=London&days=1&aqi=no&alerts=no"
    );
}

#[test]
fn url_encodes_spaces_as_plus() {
    let query = extract_args(args(&["New", "York"], 2));
    assert_eq!(
        create_url("http://host", "k", &query),
        "http://host/forecast.json?key=k&q=New+York&days=2&aqi=no&alerts=no"
    );
}

#[test]
fn url_encodes_what_is_not_kept() {
    let query = QueryParams::new(1, "São Paulo, BR~".to_string(), false, true);
    assert_eq!(
        create_url("http://host", "a&b=c%+", &query),
        "http://host/forecast.json?key=a%26b%3Dc%25%2B&q=S%C3%A3o+Paulo%2C+BR%7E&days=1&aqi=no&alerts=no"
    );
}

#[test]
fn url_keeps_letters_digits_and_four_marks() {
    let query = QueryParams::new(1, "Az09*-._".to_string(), false, true);
    assert_eq!(
        create_url("", "", &query),
        "/forecast.json?key=&q=Az09*-._&days=1&aqi=no&alerts=no"
    );
}

#[test]
fn url_encodes_low_and_high_bytes_with_two_upper_case_digits() {
    let query = QueryParams::new(1, "\n\u{7f}€".to_string(), false, true);
    assert_eq!(
        create_url("", "", &query),
        "/forecast.json?key=&q=%0A%7F%E2%82%AC&days=1&aqi=no&alerts=no"
    );
}
