//! Tests of whole-document validation and of the document accessors.

use std::collections::HashMap;

use travailleur::cache::DefinitionCache;
use travailleur::definition::common::NonNegativeNumber;
use travailleur::error::Error;
use travailleur::loader::FetchBytes;

/// An in-memory byte source, keyed by local path.
struct FileMap {
    files: HashMap<String, Vec<u8>>,
}

impl FetchBytes for FileMap {
    fn fetch_local(&mut self, path: &str) -> Result<Vec<u8>, String> {
        match self.files.get(path) {
            Some(bytes) => Ok(bytes.clone()),
            None => Err(format!("no such file: {}", path)),
        }
    }

    fn fetch_remote(&mut self, _uri: &str) -> Result<Vec<u8>, String> {
        panic!("remote fetch is not wired into tests");
    }
}

fn file_map(path: &str, content: &str) -> FileMap {
    let mut files = HashMap::new();
    files.insert(path.to_string(), content.as_bytes().to_vec());
    FileMap { files }
}

#[test]
fn three_independent_violations_give_three_entries() {
    // Empty version, empty spec version and an empty state list violate
    // three independent rules.
    let content = r#"{
        "id": "broken",
        "version": "",
        "specVersion": "",
        "states": []
    }"#;
    let mut fetcher = file_map("/defs/broken.json", content);
    let mut cache = DefinitionCache::new();
    let err = cache
        .get_or_insert_workflow(&mut fetcher, "file:///defs/broken.json")
        .unwrap_err();
    match err {
        Error::ValidationFailed { report } => {
            assert_eq!(report.entries.len(), 3);
            let paths: Vec<&str> = report.entries.iter().map(|v| v.path.as_str()).collect();
            assert!(paths.contains(&"version"));
            assert!(paths.contains(&"spec_version"));
            assert!(paths.contains(&"states"));
            assert_eq!(report.entries[0].message, "length must be >= 1");
        },
        other => panic!("expected ValidationFailed, got {:?}", other),
    }
}

#[test]
fn missing_identifier_is_allowed_by_decode_but_flagged_by_validation() {
    let content = r#"{
        "specVersion": "0.8",
        "states": [
            {"type": "sleep", "name": "rest", "duration": "PT1S", "end": true}
        ]
    }"#;
    let mut fetcher = file_map("/defs/anon.json", content);
    let mut cache = DefinitionCache::new();
    let err = cache
        .get_or_insert_workflow(&mut fetcher, "file:///defs/anon.json")
        .unwrap_err();
    match err {
        Error::ValidationFailed { report } => {
            assert_eq!(report.entries.len(), 1);
            assert_eq!(report.entries[0].path, "identifier.id");
            assert_eq!(
                report.entries[0].message,
                "at least one of `id` or `key` must be set"
            );
        },
        other => panic!("expected ValidationFailed, got {:?}", other),
    }
}

#[test]
fn identifier_key_substitutes_for_id() {
    let content = r#"{
        "key": "keyed-flow",
        "specVersion": "0.8",
        "states": [
            {"type": "sleep", "name": "rest", "duration": "PT1S", "end": true}
        ]
    }"#;
    let mut fetcher = file_map("/defs/keyed.json", content);
    let mut cache = DefinitionCache::new();
    let doc = cache
        .get_or_insert_workflow(&mut fetcher, "file:///defs/keyed.json")
        .unwrap();
    assert_eq!(doc.identifier.id().unwrap(), "keyed-flow");
}

#[test]
fn simple_end_is_only_valid_as_true() {
    let content = r#"{
        "id": "badend",
        "specVersion": "0.8",
        "states": [
            {"type": "sleep", "name": "rest", "duration": "PT1S", "end": false}
        ]
    }"#;
    let mut fetcher = file_map("/defs/badend.json", content);
    let mut cache = DefinitionCache::new();
    let err = cache
        .get_or_insert_workflow(&mut fetcher, "file:///defs/badend.json")
        .unwrap_err();
    match err {
        Error::ValidationFailed { report } => {
            assert_eq!(report.entries.len(), 1);
            assert_eq!(report.entries[0].path, "states[0].end");
            assert_eq!(report.entries[0].message, "expected 'true', got 'false'");
        },
        other => panic!("expected ValidationFailed, got {:?}", other),
    }
}

#[test]
fn state_without_transition_or_end_is_flagged() {
    let content = r#"{
        "id": "dangling",
        "specVersion": "0.8",
        "states": [
            {"type": "sleep", "name": "rest", "duration": "PT1S"}
        ]
    }"#;
    let mut fetcher = file_map("/defs/dangling.json", content);
    let mut cache = DefinitionCache::new();
    let err = cache
        .get_or_insert_workflow(&mut fetcher, "file:///defs/dangling.json")
        .unwrap_err();
    match err {
        Error::ValidationFailed { report } => {
            assert_eq!(report.entries.len(), 1);
            assert_eq!(report.entries[0].path, "states[0].used_for_compensation");
        },
        other => panic!("expected ValidationFailed, got {:?}", other),
    }
}

#[test]
fn duplicate_event_refs_are_flagged_once() {
    let content = r#"{
        "id": "dup",
        "specVersion": "0.8",
        "states": [
            {
                "type": "event",
                "name": "wait",
                "end": true,
                "onEvents": [
                    {"eventRefs": ["x", "y", "x"]}
                ]
            }
        ]
    }"#;
    let mut fetcher = file_map("/defs/dup.json", content);
    let mut cache = DefinitionCache::new();
    let err = cache
        .get_or_insert_workflow(&mut fetcher, "file:///defs/dup.json")
        .unwrap_err();
    match err {
        Error::ValidationFailed { report } => {
            assert_eq!(report.entries.len(), 1);
            assert_eq!(report.entries[0].path, "states[0].on_events[0].event_refs");
            assert_eq!(
                report.entries[0].message,
                "values must be unique, but found duplicate item `x`"
            );
        },
        other => panic!("expected ValidationFailed, got {:?}", other),
    }
}

#[test]
fn start_state_name_prefers_the_start_definition() {
    let content = r#"{
        "id": "started",
        "specVersion": "0.8",
        "start": "second",
        "states": [
            {"type": "sleep", "name": "first", "duration": "PT1S", "transition": "second"},
            {"type": "sleep", "name": "second", "duration": "PT1S", "end": true}
        ]
    }"#;
    let mut fetcher = file_map("/defs/started.json", content);
    let mut cache = DefinitionCache::new();
    let doc = cache
        .get_or_insert_workflow(&mut fetcher, "file:///defs/started.json")
        .unwrap();
    assert_eq!(doc.start_state_name(), Some("second"));
    assert_eq!(doc.states[0].name(), "first");
    assert_eq!(doc.states[1].name(), "second");
}

#[test]
fn validated_number_fields_reject_negatives() {
    let content = r#"{
        "id": "neg",
        "specVersion": "0.8",
        "states": [
            {
                "type": "foreach",
                "name": "loop",
                "inputCollection": "${ .items }",
                "batchSize": -2,
                "actions": [],
                "end": true
            }
        ]
    }"#;
    let mut fetcher = file_map("/defs/neg.json", content);
    let mut cache = DefinitionCache::new();
    let err = cache
        .get_or_insert_workflow(&mut fetcher, "file:///defs/neg.json")
        .unwrap_err();
    match err {
        Error::ValidationFailed { report } => {
            assert_eq!(report.entries.len(), 1);
            assert_eq!(report.entries[0].path, "states[0].batch_size");
            assert_eq!(
                report.entries[0].message,
                "expected number zero or above, got -2"
            );
        },
        other => panic!("expected ValidationFailed, got {:?}", other),
    }
}

#[test]
fn non_negative_number_text_is_validated_as_a_number() {
    let _ = NonNegativeNumber::Text("15".to_string());
    let content = r#"{
        "id": "texty",
        "specVersion": "0.8",
        "states": [
            {
                "type": "foreach",
                "name": "loop",
                "inputCollection": "${ .items }",
                "batchSize": "four",
                "actions": [],
                "end": true
            }
        ]
    }"#;
    let mut fetcher = file_map("/defs/texty.json", content);
    let mut cache = DefinitionCache::new();
    let err = cache
        .get_or_insert_workflow(&mut fetcher, "file:///defs/texty.json")
        .unwrap_err();
    match err {
        Error::ValidationFailed { report } => {
            assert_eq!(report.entries.len(), 1);
            assert_eq!(report.entries[0].path, "states[0].batch_size");
            assert_eq!(report.entries[0].message, "expected a number, found 'four'");
        },
        other => panic!("expected ValidationFailed, got {:?}", other),
    }
}

#[test]
fn stray_field_in_a_state_is_a_decode_error() {
    let content = r#"{
        "id": "strays",
        "specVersion": "0.8",
        "states": [
            {"type": "sleep", "name": "rest", "duration": "PT1S", "end": true, "extra": 1}
        ]
    }"#;
    let mut fetcher = file_map("/defs/strays.json", content);
    let mut cache = DefinitionCache::new();
    let err = cache
        .get_or_insert_workflow(&mut fetcher, "file:///defs/strays.json")
        .unwrap_err();
    match err {
        Error::JsonConversionFailed { message } => {
            assert_eq!(message, "unknown field in sleep state definition");
        },
        other => panic!("expected JsonConversionFailed, got {:?}", other),
    }
}

#[test]
fn retry_definitions_are_validated() {
    let content = r#"{
        "id": "retrying",
        "specVersion": "0.8",
        "retries": [
            {"name": "", "maxAttempts": -1, "multiplier": 1.5}
        ],
        "states": [
            {"type": "sleep", "name": "rest", "duration": "PT1S", "end": true}
        ]
    }"#;
    let mut fetcher = file_map("/defs/retrying.json", content);
    let mut cache = DefinitionCache::new();
    let err = cache
        .get_or_insert_workflow(&mut fetcher, "file:///defs/retrying.json")
        .unwrap_err();
    match err {
        Error::ValidationFailed { report } => {
            assert_eq!(report.entries.len(), 2);
            assert_eq!(report.entries[0].path, "retries[0].name");
            assert_eq!(report.entries[0].message, "length must be >= 1");
            assert_eq!(report.entries[1].path, "retries[0].max_attempts");
            assert_eq!(
                report.entries[1].message,
                "expected number zero or above, got -1"
            );
        },
        other => panic!("expected ValidationFailed, got {:?}", other),
    }
}

#[test]
fn valid_retry_definitions_are_accepted() {
    let content = r#"{
        "id": "retrying-ok",
        "specVersion": "0.8",
        "retries": [
            {"name": "steady", "delay": "PT2S", "maxAttempts": 4}
        ],
        "states": [
            {"type": "sleep", "name": "rest", "duration": "PT1S", "end": true}
        ]
    }"#;
    let mut fetcher = file_map("/defs/retrying_ok.json", content);
    let mut cache = DefinitionCache::new();
    let doc = cache
        .get_or_insert_workflow(&mut fetcher, "file:///defs/retrying_ok.json")
        .unwrap();
    match doc.retries.as_ref().unwrap() {
        travailleur::definition::retries::Retries::Inline(defs) => {
            assert_eq!(defs.len(), 1);
            assert_eq!(defs[0].name, "steady");
        },
        other => panic!("expected inline retries, got {:?}", other),
    }
}
