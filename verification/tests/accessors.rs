//! Tests of the document accessor methods.

use travailleur::definition::common::ValidatedNonNegativeNumber;
use travailleur::definition::{
    CronDef, Identifier, Schedule, SleepState, StartDef, State, WorkflowDefinition,
};
use travailleur::error::Error;

fn sleep_state(name: &str) -> State {
    State::Sleep(SleepState {
        id: None,
        name: name.to_string(),
        end: Some(travailleur::definition::End::Simple(true)),
        state_data_filter: None,
        duration: "PT1S".to_string(),
        timeouts: None,
        on_errors: None,
        transition: None,
        compensated_by: None,
        used_for_compensation: false,
        metadata: None,
    })
}

fn minimal_workflow(id: Option<&str>, key: Option<&str>, start: Option<StartDef>) -> WorkflowDefinition {
    WorkflowDefinition {
        identifier: Identifier {
            id: id.map(|s| s.to_string()),
            key: key.map(|s| s.to_string()),
        },
        description: None,
        version: None,
        annotations: None,
        data_input_schema: None,
        secrets: None,
        constants: None,
        start,
        spec_version: "0.8".to_string(),
        expression_lang: "jq".to_string(),
        timeouts: None,
        errors: None,
        keep_active: false,
        metadata: None,
        events: None,
        functions: None,
        auto_retries: false,
        retries: None,
        auth: None,
        states: vec![sleep_state("first"), sleep_state("second")],
    }
}

#[test]
fn identifier_prefers_id_over_key() {
    let both = Identifier { id: Some("a".to_string()), key: Some("b".to_string()) };
    assert_eq!(both.id().unwrap(), "a");
    let key_only = Identifier { id: None, key: Some("b".to_string()) };
    assert_eq!(key_only.id().unwrap(), "b");
    let neither = Identifier { id: None, key: None };
    assert!(matches!(neither.id().unwrap_err(), Error::MissingIdentifier));
}

#[test]
fn start_state_name_falls_back_to_the_first_state() {
    let explicit = minimal_workflow(Some("w"), None, Some(StartDef::ByName("second".to_string())));
    assert_eq!(explicit.start_state_name(), Some("second"));
    let implicit = minimal_workflow(Some("w"), None, None);
    assert_eq!(implicit.start_state_name(), Some("first"));
    let mut empty = minimal_workflow(Some("w"), None, None);
    empty.states = Vec::new();
    assert_eq!(empty.start_state_name(), None);
}

#[test]
fn start_def_exposes_name_and_schedule() {
    let by_name = StartDef::ByName("s".to_string());
    assert_eq!(by_name.state_name(), "s");
    assert!(by_name.schedule().is_none());

    let complex = StartDef::Complex {
        state_name: "s".to_string(),
        schedule: Schedule::TimeInterval("R/PT2H".to_string()),
    };
    assert_eq!(complex.state_name(), "s");
    let schedule = complex.schedule().unwrap();
    assert_eq!(schedule.interval().unwrap(), "R/PT2H");
}

#[test]
fn schedule_interval_reads_both_shapes() {
    let simple = Schedule::TimeInterval("R/PT1H".to_string());
    assert_eq!(simple.interval().unwrap(), "R/PT1H");

    let with_cron = Schedule::Complex {
        interval: None,
        cron: Some(CronDef::Expr("0 * * * *".to_string())),
        timezone: None,
    };
    assert!(with_cron.interval().is_none());

    let with_interval = Schedule::Complex {
        interval: Some("R/P1D".to_string()),
        cron: None,
        timezone: Some("UTC".to_string()),
    };
    assert_eq!(with_interval.interval().unwrap(), "R/P1D");
}

#[test]
fn state_name_covers_every_state_kind() {
    assert_eq!(sleep_state("n").name(), "n");
}

#[test]
fn validated_number_wrapper_exposes_its_value() {
    let v: ValidatedNonNegativeNumber<i64> = ValidatedNonNegativeNumber(14);
    assert_eq!(v.value(), 14);
    assert_eq!(v.0, 14);
}
