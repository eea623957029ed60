//! Tests of the validation rule catalog.

use travailleur::definition::common::NonNegativeNumber;
use travailleur::definition::events::EventKind;
use travailleur::validation::{
    if_not_used_for_compensation_then_must_have_transition_or_end, mandatory_for_consumed_events,
    must_be, must_be_a_number, must_be_multiple_of, must_be_optional_multiple_of,
    must_be_zero_or_greater, one_must_be_set, one_of_three_must_be_set, unique_values,
};

#[test]
fn multiple_of_accepts_number() {
    assert!(must_be_multiple_of(5, &NonNegativeNumber::Number(10)).is_ok());
}

#[test]
fn multiple_of_accepts_numeric_string() {
    assert!(must_be_multiple_of(5, &NonNegativeNumber::Text("10".to_string())).is_ok());
}

#[test]
fn multiple_of_rejects_non_multiple() {
    let r = must_be_multiple_of(5, &NonNegativeNumber::Number(7));
    assert_eq!(r.unwrap_err(), "expected 7 to be a multiple of 5");
}

#[test]
fn multiple_of_rejects_non_numeric_string() {
    let r = must_be_multiple_of(5, &NonNegativeNumber::Text("ten".to_string()));
    assert_eq!(
        r.unwrap_err(),
        "expected valid number, got 'ten': invalid number: ten"
    );
}

#[test]
fn optional_multiple_of_accepts_absent_value() {
    assert!(must_be_optional_multiple_of(5, &None::<NonNegativeNumber>).is_ok());
    let r = must_be_optional_multiple_of(3, &Some(NonNegativeNumber::Number(7)));
    assert!(r.is_err());
}

#[test]
fn one_must_be_set_rejects_both_absent() {
    let r = one_must_be_set::<String, String>("a", "b", &None, &None);
    assert_eq!(r.unwrap_err(), "at least one of `a` or `b` must be set");
}

#[test]
fn one_must_be_set_accepts_either_present() {
    let some = Some("x".to_string());
    assert!(one_must_be_set::<String, String>("a", "b", &some, &None).is_ok());
    assert!(one_must_be_set::<String, String>("a", "b", &None, &some).is_ok());
    assert!(one_must_be_set::<String, String>("a", "b", &some, &some).is_ok());
}

#[test]
fn one_of_three_must_be_set_rejects_all_absent() {
    let r = one_of_three_must_be_set::<u8, u8, u8>("a", "b", "c", &None, &None, &None);
    assert_eq!(r.unwrap_err(), "at least one of `a`, `b` or `c` must be set");
    assert!(one_of_three_must_be_set::<u8, u8, u8>("a", "b", "c", &None, &Some(1), &None).is_ok());
}

#[test]
fn unique_values_reports_first_duplicate_once() {
    let values = vec!["x".to_string(), "y".to_string(), "x".to_string()];
    let r = unique_values(&values);
    assert_eq!(
        r.unwrap_err(),
        "values must be unique, but found duplicate item `x`"
    );
}

#[test]
fn unique_values_accepts_distinct_values() {
    let values = vec!["x".to_string(), "y".to_string(), "z".to_string()];
    assert!(unique_values(&values).is_ok());
}

#[test]
fn unique_values_reports_earliest_duplicate() {
    // `b` duplicates before `a` does, so `b` is reported.
    let values = vec![
        "a".to_string(),
        "b".to_string(),
        "b".to_string(),
        "a".to_string(),
    ];
    let r = unique_values(&values);
    assert_eq!(
        r.unwrap_err(),
        "values must be unique, but found duplicate item `b`"
    );
}

#[test]
fn must_be_a_number_treats_empty_as_zero() {
    assert!(must_be_a_number("").is_ok());
}

#[test]
fn must_be_a_number_accepts_integers() {
    assert!(must_be_a_number("42").is_ok());
    assert!(must_be_a_number("-7").is_ok());
    assert!(must_be_a_number("+3").is_ok());
}

#[test]
fn must_be_a_number_echoes_invalid_string() {
    let r = must_be_a_number("4x");
    assert_eq!(r.unwrap_err(), "expected a number, found '4x'");
}

#[test]
fn must_be_zero_or_greater_echoes_value() {
    assert!(must_be_zero_or_greater(&0).is_ok());
    assert!(must_be_zero_or_greater(&17).is_ok());
    let r = must_be_zero_or_greater(&-3);
    assert_eq!(r.unwrap_err(), "expected number zero or above, got -3");
}

#[test]
fn must_be_pins_the_expected_literal() {
    assert!(must_be(true, &true).is_ok());
    let r = must_be(true, &false);
    assert_eq!(r.unwrap_err(), "expected 'true', got 'false'");
}

#[test]
fn compensation_rule_requires_transition_or_end() {
    let t = Some("next".to_string());
    let e = Some(true);
    assert!(
        if_not_used_for_compensation_then_must_have_transition_or_end(&t, &None::<bool>, false)
            .is_ok()
    );
    assert!(
        if_not_used_for_compensation_then_must_have_transition_or_end(&None::<String>, &e, false)
            .is_ok()
    );
    assert!(if_not_used_for_compensation_then_must_have_transition_or_end(
        &None::<String>,
        &None::<bool>,
        true
    )
    .is_ok());
    let r = if_not_used_for_compensation_then_must_have_transition_or_end(
        &None::<String>,
        &None::<bool>,
        false,
    );
    assert_eq!(r.unwrap_err(), "");
}

#[test]
fn source_mandatory_for_consumed_events() {
    let r = mandatory_for_consumed_events(EventKind::Consumed, &None);
    assert_eq!(
        r.unwrap_err(),
        "event source is mandatory for consumed events"
    );
    assert!(mandatory_for_consumed_events(EventKind::Produced, &None).is_ok());
    assert!(mandatory_for_consumed_events(EventKind::Consumed, &Some("s".to_string())).is_ok());
}

#[test]
fn non_negative_number_value_parses_text() {
    assert_eq!(NonNegativeNumber::Number(9).value().unwrap(), 9);
    assert_eq!(NonNegativeNumber::Text("12".to_string()).value().unwrap(), 12);
    let err = NonNegativeNumber::Text("nope".to_string()).value().unwrap_err();
    assert!(matches!(err, travailleur::error::Error::InvalidInt { .. }));
}
