use confargs::{parse_bool_arg, parse_string_arg};
use confargs::text::integer_text;

#[test]
fn string_arg_is_key_and_value() {
    assert_eq!(parse_string_arg("key", "value"), "--key=value");
    assert_eq!(parse_string_arg("key", ""), "--key=");
    assert_eq!(parse_string_arg("", "v"), "--=v");
    assert_eq!(parse_string_arg("k", "a=b"), "--k=a=b");
}

#[test]
fn bool_arg_is_flag_or_nothing() {
    assert_eq!(parse_bool_arg("verbose", true), Some("--verbose".to_string()));
    assert_eq!(parse_bool_arg("verbose", false), None);
}

#[test]
fn integer_text_is_decimal() {
    assert_eq!(integer_text(0), "0");
    assert_eq!(integer_text(7), "7");
    assert_eq!(integer_text(10), "10");
    assert_eq!(integer_text(42), "42");
    assert_eq!(integer_text(-1), "-1");
    assert_eq!(integer_text(-120), "-120");
    assert_eq!(integer_text(i64::MAX), "9223372036854775807");
    assert_eq!(integer_text(i64::MIN), "-9223372036854775808");
}

#[test]
fn integer_text_agrees_with_display() {
    for v in [-1000i64, -999, -11, -10, -9, 9, 10, 11, 99, 100, 101, 123456789] {
        assert_eq!(integer_text(v), v.to_string());
    }
}

#[test]
fn token_reads_back_as_the_value() {
    let token = parse_string_arg("key", &integer_text(-42));
    let value = token.strip_prefix("--key=").unwrap();
    assert_eq!(value.parse::<i64>().unwrap(), -42);

    let token = parse_string_arg("key", &(42.2f64).to_string());
    let value = token.strip_prefix("--key=").unwrap();
    assert_eq!(value.parse::<f64>().unwrap(), 42.2);

    let token = parse_string_arg("key", "some text");
    assert_eq!(token.strip_prefix("--key="), Some("some text"));
}
