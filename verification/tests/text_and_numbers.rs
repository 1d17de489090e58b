use wot_test::json::{JsonNumber, JsonValue};
use wot_test::number::Binary64;
use wot_test::td::{CowStr, NameMap};
use wot_test::tester::request_url;
use wot_test::text::{
    begins_with, decimal_text, join, same_opt_text, same_text, signed_decimal_text, trim_leading,
};

#[test]
fn texts_are_compared_by_their_characters() {
    assert!(same_text("", ""));
    assert!(same_text("brightness", "brightness"));
    assert!(!same_text("brightness", "brightnes"));
    assert!(!same_text("brightness", "Brightness"));
    assert!(same_text("é€😀", "é€😀"));
    assert!(!same_text("é", "e\u{301}"));
}

#[test]
fn missing_texts_are_only_the_same_as_missing_ones() {
    let some = |text: &str| Some(text.to_string());
    assert!(same_opt_text(&None, &None));
    assert!(same_opt_text(&some("a"), &some("a")));
    assert!(!same_opt_text(&some("a"), &some("b")));
    assert!(!same_opt_text(&some(""), &None));
}

#[test]
fn the_beginning_of_a_text_is_found() {
    assert!(begins_with("/actions/fade/1", "/actions/fade/"));
    assert!(begins_with("/actions/fade/", "/actions/fade/"));
    assert!(!begins_with("/actions/fade", "/actions/fade/"));
    assert!(!begins_with("/actions/fadé/1", "/actions/fade/"));
    assert!(begins_with("é", ""));
}

#[test]
fn leading_characters_are_trimmed() {
    assert_eq!(trim_leading("///a/b/", '/'), "a/b/");
    assert_eq!(trim_leading("a", '/'), "a");
    assert_eq!(trim_leading("//", '/'), "");
    assert_eq!(trim_leading("", '/'), "");
    assert_eq!(trim_leading("/é", '/'), "é");
}

#[test]
fn numbers_are_written_in_decimal() {
    assert_eq!(decimal_text(0), "0");
    assert_eq!(decimal_text(9), "9");
    assert_eq!(decimal_text(10), "10");
    assert_eq!(decimal_text(1234567890), "1234567890");
    assert_eq!(decimal_text(u64::MAX), u64::MAX.to_string());
    assert_eq!(signed_decimal_text(0), "0");
    assert_eq!(signed_decimal_text(-7), "-7");
    assert_eq!(signed_decimal_text(i64::MAX), i64::MAX.to_string());
    assert_eq!(signed_decimal_text(i64::MIN), i64::MIN.to_string());
}

#[test]
fn texts_are_joined() {
    assert_eq!(join("a", "é"), "aé");
    assert_eq!(join("", ""), "");
}

#[test]
fn a_url_names_the_host_the_port_and_the_endpoint() {
    assert_eq!(
        request_url("localhost", Some(8080), "properties/on"),
        "http://localhost:8080/properties/on"
    );
    assert_eq!(request_url("lamp.local", None, "events"), "http://lamp.local/events");
    assert_eq!(request_url("localhost", Some(0), ""), "http://localhost:0/");
    assert_eq!(request_url("localhost", Some(65535), "a"), "http://localhost:65535/a");
}

#[test]
fn leading_slashes_make_no_difference_to_a_url() {
    let expected = "http://localhost:80/actions/fade/1";
    assert_eq!(request_url("localhost", Some(80), "actions/fade/1"), expected);
    assert_eq!(request_url("localhost", Some(80), "/actions/fade/1"), expected);
    assert_eq!(request_url("localhost", Some(80), "///actions/fade/1"), expected);
}

fn binary(x: f64) -> Binary64 {
    Binary64 { bits: x.to_bits() }
}

fn samples() -> Vec<f64> {
    vec![
        f64::NAN,
        -f64::NAN,
        f64::NEG_INFINITY,
        f64::MIN,
        -100.5,
        -1.0,
        -f64::MIN_POSITIVE,
        -5e-324,
        -0.0,
        0.0,
        5e-324,
        f64::MIN_POSITIVE,
        0.1,
        25.0,
        100.0,
        100.00000000000001,
        f64::MAX,
        f64::INFINITY,
    ]
}

#[test]
fn numbers_are_compared_as_floating_point_numbers() {
    for x in samples() {
        assert_eq!(binary(x).not_a_number(), x.is_nan());
        for y in samples() {
            assert_eq!(binary(x) == binary(y), x == y, "{} == {}", x, y);
            assert_eq!(binary(x).is_at_most(&binary(y)), x <= y, "{} <= {}", x, y);
        }
    }
}

#[test]
fn small_integers_have_the_bits_of_floating_point_numbers() {
    for n in 0..=u8::MAX {
        assert_eq!(Binary64::from(n).bits, f64::from(n).to_bits());
    }
}

#[test]
fn small_integers_keep_their_order_as_numbers() {
    for m in 0..=u8::MAX {
        for n in 0..=u8::MAX {
            let (x, y) = (Binary64::from(m), Binary64::from(n));
            assert_eq!(x.is_at_most(&y), m <= n);
            assert_eq!(x == y, m == n);
        }
    }
}

fn object(fields: Vec<(&'static str, JsonValue)>) -> JsonValue {
    let mut map = NameMap::new();
    for (name, value) in fields {
        map.insert(CowStr::from(name), value);
    }
    JsonValue::Object(map)
}

fn value() -> JsonValue {
    object(vec![
        ("a", JsonValue::Number(JsonNumber::PosInt(1))),
        (
            "b",
            JsonValue::Array(vec![JsonValue::Null, JsonValue::Bool(true)]),
        ),
        ("c", JsonValue::Text("x".to_string())),
    ])
}

#[test]
fn json_values_are_the_same_as_themselves() {
    assert!(value().is_same(&value()));
}

#[test]
fn json_objects_are_compared_by_name() {
    let other = object(vec![
        ("c", JsonValue::Text("x".to_string())),
        (
            "b",
            JsonValue::Array(vec![JsonValue::Null, JsonValue::Bool(true)]),
        ),
        ("a", JsonValue::Number(JsonNumber::PosInt(1))),
    ]);
    assert!(value().is_same(&other));
    assert!(other.is_same(&value()));
}

#[test]
fn json_arrays_are_compared_in_order() {
    let ab = || JsonValue::Array(vec![JsonValue::Bool(true), JsonValue::Bool(false)]);
    let ba = || JsonValue::Array(vec![JsonValue::Bool(false), JsonValue::Bool(true)]);
    assert!(ab().is_same(&ab()));
    assert!(!ab().is_same(&ba()));
    assert!(!ab().is_same(&JsonValue::Array(vec![JsonValue::Bool(true)])));
}

#[test]
fn json_values_that_differ_are_told_apart() {
    let values = || {
        vec![
            JsonValue::Null,
            JsonValue::Bool(false),
            JsonValue::Bool(true),
            JsonValue::Number(JsonNumber::PosInt(1)),
            JsonValue::Number(JsonNumber::PosInt(2)),
            JsonValue::Number(JsonNumber::NegInt(-1)),
            JsonValue::Number(JsonNumber::Float(binary(1.0))),
            JsonValue::Text("1".to_string()),
            JsonValue::Array(vec![]),
            JsonValue::Array(vec![JsonValue::Null]),
            object(vec![]),
            object(vec![("a", JsonValue::Null)]),
            object(vec![("b", JsonValue::Null)]),
            object(vec![("a", JsonValue::Bool(true))]),
        ]
    };
    for (i, a) in values().iter().enumerate() {
        for (j, b) in values().iter().enumerate() {
            assert_eq!(a.is_same(b), i == j, "{:?} and {:?}", a, b);
        }
    }
}

#[test]
fn json_sameness_carries_over() {
    let a = value();
    let b = value();
    let c = value();
    assert!(a.is_same(&b) && b.is_same(&c) && a.is_same(&c));
    let nan = JsonValue::Number(JsonNumber::Float(binary(f64::NAN)));
    assert!(!nan.is_same(&nan));
}
