use plotr::text::{f_int, f_len};

#[test]
fn decimal_places_of_plain_decimals() {
    assert_eq!(f_len("12.345"), 3);
    assert_eq!(f_len("-0.5"), 1);
    assert_eq!(f_len("0.1"), 1);
}

#[test]
fn no_point_means_no_decimal_places() {
    assert_eq!(f_len("100"), 0);
    assert_eq!(f_len("-7"), 0);
    assert_eq!(f_len(""), 0);
    assert_eq!(f_len("inf"), 0);
}

#[test]
fn decimal_places_read_the_second_piece_only() {
    assert_eq!(f_len("1.2.34"), 1);
    assert_eq!(f_len("."), 0);
    assert_eq!(f_len("5."), 0);
    assert_eq!(f_len(".25"), 2);
}

#[test]
fn decimal_places_of_float_text() {
    assert_eq!(f_len(&(0.25f64).to_string()), 2);
    assert_eq!(f_len(&(20.0f64).to_string()), 0);
    assert_eq!(f_len(&(-1.125f64).to_string()), 3);
}

#[test]
fn digits_without_the_point() {
    assert_eq!(f_int("12.5"), "125");
    assert_eq!(f_int("-0.25"), "-025");
    assert_eq!(f_int("7"), "7");
    assert_eq!(f_int(""), "");
}

#[test]
fn every_point_is_removed() {
    assert_eq!(f_int("1.2.3"), "123");
    assert_eq!(f_int("..."), "");
    assert_eq!(f_int(".5"), "5");
}

#[test]
fn digits_parse_back_to_the_scaled_value() {
    let text = (2.5f64).to_string();
    let scaled: f64 = f_int(&text).parse().unwrap();
    assert_eq!(scaled, 25.0);
    assert_eq!(f_len(&text), 1);
}
