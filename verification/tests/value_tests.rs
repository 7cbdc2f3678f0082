//! The value coercion chain: order, exclusivity, and the exact acceptance
//! rules of the integer and float readers.

use edgar_parser::text::{float_text, parse_bool_word, parse_i32, parse_i64, trim_spaces};
use edgar_parser::value::{parse_value, Value};

#[test]
fn coerces_integer_text() {
    assert_eq!(parse_value("42".to_string()), Value::Int(42));
    assert_eq!(parse_value("+5".to_string()), Value::Int(5));
    assert_eq!(parse_value("-17".to_string()), Value::Int(-17));
    assert_eq!(parse_value("0".to_string()), Value::Int(0));
}

#[test]
fn coerces_float_text() {
    match parse_value("42.5".to_string()) {
        Value::Float(s) => {
            assert_eq!(s, "42.5");
            assert_eq!(s.parse::<f64>().unwrap(), 42.5);
        }
        other => panic!("expected a float, got {:?}", other),
    }
}

#[test]
fn coerces_boolean_literals() {
    assert_eq!(parse_value("true".to_string()), Value::Bool(true));
    assert_eq!(parse_value("false".to_string()), Value::Bool(false));
}

#[test]
fn coerces_plain_text_verbatim() {
    assert_eq!(parse_value("42x".to_string()), Value::Text("42x".to_string()));
    assert_eq!(parse_value("".to_string()), Value::Text("".to_string()));
    assert_eq!(parse_value(" 42".to_string()), Value::Text(" 42".to_string()));
    assert_eq!(parse_value("True".to_string()), Value::Text("True".to_string()));
    assert_eq!(parse_value("TRUE".to_string()), Value::Text("TRUE".to_string()));
}

#[test]
fn integer_wins_over_boolean_and_float() {
    assert_eq!(parse_value("1".to_string()), Value::Int(1));
    assert_eq!(parse_value("1.0".to_string()), Value::Float("1.0".to_string()));
}

#[test]
fn float_accepts_exponents_and_specials() {
    assert_eq!(parse_value("1e5".to_string()), Value::Float("1e5".to_string()));
    assert_eq!(parse_value("-2.5E-3".to_string()), Value::Float("-2.5E-3".to_string()));
    assert_eq!(parse_value("NaN".to_string()), Value::Float("NaN".to_string()));
    assert_eq!(parse_value("Infinity".to_string()), Value::Float("Infinity".to_string()));
    assert_eq!(parse_value("inf".to_string()), Value::Float("inf".to_string()));
    assert_eq!(parse_value("3.".to_string()), Value::Float("3.".to_string()));
    assert_eq!(parse_value(".5".to_string()), Value::Float(".5".to_string()));
}

#[test]
fn float_rejects_what_rust_rejects() {
    assert_eq!(parse_value(".".to_string()), Value::Text(".".to_string()));
    assert_eq!(parse_value("1e".to_string()), Value::Text("1e".to_string()));
    assert_eq!(parse_value("1e+".to_string()), Value::Text("1e+".to_string()));
    assert_eq!(parse_value("1.2.3".to_string()), Value::Text("1.2.3".to_string()));
    assert_eq!(parse_value("infx".to_string()), Value::Text("infx".to_string()));
}

#[test]
fn integer_overflow_falls_through_to_float() {
    assert_eq!(parse_value("9223372036854775807".to_string()), Value::Int(i64::MAX));
    assert_eq!(parse_value("-9223372036854775808".to_string()), Value::Int(i64::MIN));
    assert_eq!(
        parse_value("9223372036854775808".to_string()),
        Value::Float("9223372036854775808".to_string())
    );
}

#[test]
fn parse_i64_matches_std() {
    for s in [
        "0", "42", "-42", "+42", "9223372036854775807", "-9223372036854775808",
        "9223372036854775808", "-9223372036854775809", "", "+", "-", "4 2", " 42", "42 ", "4.2",
        "0x10", "007", "-0",
    ] {
        assert_eq!(parse_i64(s), s.parse::<i64>().ok(), "on {:?}", s);
    }
}

#[test]
fn parse_i32_matches_std() {
    for s in ["2147483647", "-2147483648", "2147483648", "-2147483649", "12", "x"] {
        assert_eq!(parse_i32(s), s.parse::<i32>().ok(), "on {:?}", s);
    }
}

#[test]
fn float_text_matches_std() {
    for s in [
        "1", "1.5", "-1.5e3", "+.5", "3.", "inf", "INFINITY", "nan", "NaN", "-inf", "1e", "e5",
        ".", "", "abc", "1.2e3.4", "0.000001", "1E10", "  1.0", "1.0  ",
    ] {
        assert_eq!(float_text(s), s.parse::<f64>().is_ok(), "on {:?}", s);
    }
}

#[test]
fn bool_words_accept_both_letter_cases() {
    assert_eq!(parse_bool_word("1"), Some(true));
    assert_eq!(parse_bool_word("0"), Some(false));
    assert_eq!(parse_bool_word("Y"), Some(true));
    assert_eq!(parse_bool_word("n"), Some(false));
    assert_eq!(parse_bool_word("true"), Some(true));
    assert_eq!(parse_bool_word("TRUE"), Some(true));
    assert_eq!(parse_bool_word("tRuE"), Some(true));
    assert_eq!(parse_bool_word("FALSE"), Some(false));
    assert_eq!(parse_bool_word("false"), Some(false));
    assert_eq!(parse_bool_word("2"), None);
    assert_eq!(parse_bool_word("yes"), None);
    assert_eq!(parse_bool_word(""), None);
}

#[test]
fn trim_matches_std_on_ascii() {
    for s in ["  a  ", "a", "", "   ", "\t x\n", "x y", " 42 "] {
        assert_eq!(trim_spaces(s), s.trim(), "on {:?}", s);
    }
}
