use weather_report::text::{decimal_string, join, push_decimal};

#[test]
fn decimal_of_zero() {
    assert_eq!(decimal_string(0), "0");
}

#[test]
fn decimal_of_single_digits() {
    assert_eq!(decimal_string(7), "7");
    assert_eq!(decimal_string(9), "9");
}

#[test]
fn decimal_of_larger_numbers() {
    assert_eq!(decimal_string(10), "10");
    assert_eq!(decimal_string(100), "100");
    assert_eq!(decimal_string(255), "255");
    assert_eq!(decimal_string(1234567890), "1234567890");
}

#[test]
fn decimal_agrees_with_the_standard_rendering() {
    for n in 0..2000usize {
        assert_eq!(decimal_string(n), n.to_string());
    }
    assert_eq!(decimal_string(usize::MAX), usize::MAX.to_string());
}

#[test]
fn push_decimal_appends() {
    let mut out = String::from("n = ");
    push_decimal(&mut out, 42);
    assert_eq!(out, "n = 42");
}

#[test]
fn join_of_nothing_is_empty() {
    assert_eq!(join(&Vec::new(), " "), "");
}

#[test]
fn join_of_one_word_is_the_word() {
    assert_eq!(join(&vec!["London".to_string()], " "), "London");
}

#[test]
fn join_puts_the_separator_between_words() {
    let words = vec!["New".to_string(), "York".to_string(), "City".to_string()];
    assert_eq!(join(&words, " "), "New York City");
    assert_eq!(join(&words, ", "), "New, York, City");
}

#[test]
fn join_keeps_empty_words() {
    let words = vec!["".to_string(), "a".to_string(), "".to_string()];
    assert_eq!(join(&words, "-"), "-a-");
}
