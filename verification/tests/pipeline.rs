//! End-to-end tests of the load, decode, validate and cache pipeline.

use std::collections::HashMap;
use std::rc::Rc;

use travailleur::cache::DefinitionCache;
use travailleur::error::Error;
use travailleur::loader::{DefinitionLoader, DocumentKind, FetchBytes};
use travailleur::uri::Uri;

/// An in-memory byte source, keyed by local path.
struct MemFetcher {
    files: HashMap<String, Vec<u8>>,
    fetches: u32,
}

impl MemFetcher {
    fn new() -> MemFetcher {
        MemFetcher { files: HashMap::new(), fetches: 0 }
    }

    fn put(&mut self, path: &str, content: &str) {
        self.files.insert(path.to_string(), content.as_bytes().to_vec());
    }
}

impl FetchBytes for MemFetcher {
    fn fetch_local(&mut self, path: &str) -> Result<Vec<u8>, String> {
        self.fetches += 1;
        match self.files.get(path) {
            Some(bytes) => Ok(bytes.clone()),
            None => Err(format!("no such file: {}", path)),
        }
    }

    fn fetch_remote(&mut self, _uri: &str) -> Result<Vec<u8>, String> {
        panic!("remote fetch is not wired into tests");
    }
}

const MINIMAL_WORKFLOW: &str = r#"{
    "id": "helloworld",
    "specVersion": "0.8",
    "states": [
        {"type": "sleep", "name": "rest", "duration": "PT1S", "end": true}
    ]
}"#;

const FUNCTIONS_DOC: &str = r#"{
    "functions": [
        {"name": "greet", "operation": "file://fns.json#greet"}
    ]
}"#;

#[test]
fn end_to_end_loads_a_minimal_json_document() {
    let mut fetcher = MemFetcher::new();
    fetcher.put("/defs/wf.json", MINIMAL_WORKFLOW);
    let mut cache = DefinitionCache::new();
    let doc = cache
        .get_or_insert_workflow(&mut fetcher, "file:///defs/wf.json")
        .expect("minimal workflow should load");
    assert_eq!(doc.identifier.id().unwrap(), "helloworld");
    assert_eq!(doc.start_state_name(), Some("rest"));
    assert_eq!(doc.spec_version, "0.8");
    // Defaults applied during decoding.
    assert_eq!(doc.expression_lang, "jq");
    assert!(!doc.keep_active);
    assert!(!doc.auto_retries);
}

#[test]
fn unsupported_scheme_is_rejected_with_the_literal_scheme() {
    let mut fetcher = MemFetcher::new();
    fetcher.put("/defs/wf.json", MINIMAL_WORKFLOW);
    let mut cache = DefinitionCache::new();
    let err = cache
        .get_or_insert_workflow(&mut fetcher, "ftp://host/defs/wf.json")
        .unwrap_err();
    match err {
        Error::UnsupportedUriScheme { scheme } => assert_eq!(scheme, "ftp"),
        other => panic!("expected UnsupportedUriScheme, got {:?}", other),
    }
}

#[test]
fn at_most_once_load_for_one_uri() {
    let mut fetcher = MemFetcher::new();
    fetcher.put("/defs/wf.json", MINIMAL_WORKFLOW);
    let mut cache = DefinitionCache::new();
    let first = cache
        .get_or_insert_workflow(&mut fetcher, "file:///defs/wf.json")
        .unwrap();
    let second = cache
        .get_or_insert_workflow(&mut fetcher, "file:///defs/wf.json")
        .unwrap();
    assert_eq!(cache.load_count(), 1);
    assert_eq!(fetcher.fetches, 1);
    assert!(Rc::ptr_eq(&first, &second));
}

#[test]
fn type_mismatch_on_reuse_is_an_error() {
    let mut fetcher = MemFetcher::new();
    fetcher.put("/defs/wf.json", MINIMAL_WORKFLOW);
    let mut cache = DefinitionCache::new();
    cache
        .get_or_insert_workflow(&mut fetcher, "file:///defs/wf.json")
        .unwrap();
    let err = cache
        .get_or_insert_functions(&mut fetcher, "file:///defs/wf.json")
        .unwrap_err();
    match err {
        Error::InvalidCachedObjectType { expected_type, actual_type } => {
            assert_eq!(expected_type, "FunctionsDocument");
            assert_eq!(actual_type, "WorkflowDefinition");
        },
        other => panic!("expected InvalidCachedObjectType, got {:?}", other),
    }
}

#[test]
fn no_negative_caching_after_a_failed_load() {
    let mut fetcher = MemFetcher::new();
    fetcher.put("/defs/wf.json", "{ this is not json");
    let mut cache = DefinitionCache::new();
    let err = cache
        .get_or_insert_workflow(&mut fetcher, "file:///defs/wf.json")
        .unwrap_err();
    assert!(matches!(err, Error::JsonConversionFailed { .. }));
    // The resource is corrected; the retry performs the full load.
    fetcher.put("/defs/wf.json", MINIMAL_WORKFLOW);
    let doc = cache
        .get_or_insert_workflow(&mut fetcher, "file:///defs/wf.json")
        .expect("retry after a corrected resource should succeed");
    assert_eq!(doc.identifier.id().unwrap(), "helloworld");
    assert_eq!(cache.load_count(), 2);
}

#[test]
fn functions_document_loads_under_its_own_kind() {
    let mut fetcher = MemFetcher::new();
    fetcher.put("/defs/fns.json", FUNCTIONS_DOC);
    let mut cache = DefinitionCache::new();
    let doc = cache
        .get_or_insert_functions(&mut fetcher, "file:///defs/fns.json")
        .unwrap();
    assert_eq!(doc.functions.len(), 1);
    assert_eq!(doc.functions[0].name, "greet");
}

#[test]
fn json_extension_selects_the_json_decoder() {
    let mut fetcher = MemFetcher::new();
    // YAML that is not JSON: the JSON decoder must reject it.
    fetcher.put("/defs/wf.json", "id: helloworld");
    let mut cache = DefinitionCache::new();
    let err = cache
        .get_or_insert_workflow(&mut fetcher, "file:///defs/wf.json")
        .unwrap_err();
    assert!(matches!(err, Error::JsonConversionFailed { .. }));
}

#[test]
fn yaml_extension_selects_the_yaml_decoder() {
    let mut fetcher = MemFetcher::new();
    fetcher.put(
        "/defs/wf.yaml",
        "id: helloworld\nspecVersion: '0.8'\nstates:\n- type: sleep\n  name: rest\n  duration: PT1S\n  end: true\n",
    );
    let mut cache = DefinitionCache::new();
    let doc = cache
        .get_or_insert_workflow(&mut fetcher, "file:///defs/wf.yaml")
        .expect("yaml workflow should load");
    assert_eq!(doc.identifier.id().unwrap(), "helloworld");
}

#[test]
fn yml_extension_selects_the_yaml_decoder_too() {
    let mut fetcher = MemFetcher::new();
    fetcher.put("/defs/wf.yml", "not: [valid");
    let mut cache = DefinitionCache::new();
    let err = cache
        .get_or_insert_workflow(&mut fetcher, "file:///defs/wf.yml")
        .unwrap_err();
    assert!(matches!(err, Error::YamlConversionFailed { .. }));
}

#[test]
fn disabled_yaml_support_fails_with_feature_disabled() {
    let mut fetcher = MemFetcher::new();
    fetcher.put("/defs/wf.yaml", "id: helloworld");
    let mut cache = DefinitionCache::new();
    cache.loader.yaml_supported = false;
    let err = cache
        .get_or_insert_workflow(&mut fetcher, "file:///defs/wf.yaml")
        .unwrap_err();
    match err {
        Error::FeatureDisabled { required_feature } => assert_eq!(required_feature, "yaml"),
        other => panic!("expected FeatureDisabled, got {:?}", other),
    }
}

#[test]
fn disabled_validation_fails_instead_of_skipping() {
    let mut fetcher = MemFetcher::new();
    fetcher.put("/defs/wf.json", MINIMAL_WORKFLOW);
    let mut cache = DefinitionCache::new();
    cache.loader.validation_supported = false;
    let err = cache
        .get_or_insert_workflow(&mut fetcher, "file:///defs/wf.json")
        .unwrap_err();
    match err {
        Error::FeatureDisabled { required_feature } => assert_eq!(required_feature, "validate"),
        other => panic!("expected FeatureDisabled, got {:?}", other),
    }
}

#[test]
fn root_fields_and_sections_survive_the_load() {
    let mut fetcher = MemFetcher::new();
    fetcher.put(
        "/defs/full.json",
        r#"{
            "id": "full",
            "specVersion": "0.8",
            "description": "a documented workflow",
            "version": "1.2.3",
            "annotations": ["billing", "audited"],
            "metadata": {"owner": "ops", "team": "core"},
            "functions": [
                {"name": "greet", "operation": "file://fns.json#greet"}
            ],
            "states": [
                {"type": "sleep", "name": "rest", "duration": "PT1S", "end": true}
            ]
        }"#,
    );
    let mut cache = DefinitionCache::new();
    let doc = cache
        .get_or_insert_workflow(&mut fetcher, "file:///defs/full.json")
        .expect("the documented workflow should load");
    assert_eq!(doc.description.as_deref(), Some("a documented workflow"));
    assert_eq!(doc.version.as_deref(), Some("1.2.3"));
    assert_eq!(
        doc.annotations.as_deref(),
        Some(&["billing".to_string(), "audited".to_string()][..])
    );
    let meta = doc.metadata.as_ref().expect("metadata should be kept");
    let pairs: Vec<(&str, &str)> = meta
        .meta
        .iter()
        .map(|(k, v)| (k.as_str(), v.as_str()))
        .collect();
    assert_eq!(pairs, vec![("owner", "ops"), ("team", "core")]);
    match doc.functions.as_ref().expect("functions should be kept") {
        travailleur::definition::functions::Functions::Inline(fns) => {
            assert_eq!(fns.len(), 1);
            assert_eq!(fns[0].name, "greet");
            assert_eq!(fns[0].operation, "file://fns.json#greet");
        },
        other => panic!("expected inline functions, got {:?}", other),
    }
    assert!(doc.data_input_schema.is_none());
    assert!(doc.start.is_none());
    assert!(doc.timeouts.is_none());
}

#[test]
fn non_object_workflow_document_is_a_conversion_error() {
    let mut fetcher = MemFetcher::new();
    fetcher.put("/defs/wf.json", "[1, 2]");
    let mut cache = DefinitionCache::new();
    let err = cache
        .get_or_insert_workflow(&mut fetcher, "file:///defs/wf.json")
        .unwrap_err();
    match err {
        Error::JsonConversionFailed { message } => {
            assert_eq!(message, "a workflow definition must be an object");
        },
        other => panic!("expected JsonConversionFailed, got {:?}", other),
    }
}

#[test]
fn unknown_extension_is_rejected_with_the_literal_extension() {
    let mut fetcher = MemFetcher::new();
    fetcher.put("/defs/wf.xyz", MINIMAL_WORKFLOW);
    let mut cache = DefinitionCache::new();
    let err = cache
        .get_or_insert_workflow(&mut fetcher, "file:///defs/wf.xyz")
        .unwrap_err();
    match err {
        Error::UnsupportedFileFormat { file_ext } => assert_eq!(file_ext, "xyz"),
        other => panic!("expected UnsupportedFileFormat, got {:?}", other),
    }
}

#[test]
fn missing_extension_is_rejected_with_an_empty_extension() {
    let mut fetcher = MemFetcher::new();
    fetcher.put("/defs/wf", MINIMAL_WORKFLOW);
    let mut cache = DefinitionCache::new();
    let err = cache
        .get_or_insert_workflow(&mut fetcher, "file:///defs/wf")
        .unwrap_err();
    match err {
        Error::UnsupportedFileFormat { file_ext } => assert_eq!(file_ext, ""),
        other => panic!("expected UnsupportedFileFormat, got {:?}", other),
    }
}

#[test]
fn invalid_uri_input_is_rejected() {
    let mut fetcher = MemFetcher::new();
    let mut cache = DefinitionCache::new();
    let err = cache
        .get_or_insert_workflow(&mut fetcher, "not a uri at all")
        .unwrap_err();
    assert!(matches!(err, Error::InvalidUrl { .. }));
}

#[test]
fn a_uri_value_converts_infallibly() {
    let mut fetcher = MemFetcher::new();
    fetcher.put("/defs/wf.json", MINIMAL_WORKFLOW);
    let mut cache = DefinitionCache::new();
    let uri = Uri::parse("file:///defs/wf.json").unwrap();
    let doc = cache.get_or_insert_workflow(&mut fetcher, uri).unwrap();
    assert_eq!(doc.identifier.id().unwrap(), "helloworld");
}

#[test]
fn missing_file_is_a_file_io_error() {
    let mut fetcher = MemFetcher::new();
    let mut cache = DefinitionCache::new();
    let err = cache
        .get_or_insert_workflow(&mut fetcher, "file:///defs/absent.json")
        .unwrap_err();
    assert!(matches!(err, Error::FileIo { .. }));
}

#[test]
fn load_from_bytes_needs_no_fetcher() {
    let loader = DefinitionLoader::new();
    let uri = Uri::parse("file:///defs/wf.json").unwrap();
    let handle = loader
        .load_from_bytes(&uri, &MINIMAL_WORKFLOW.as_bytes().to_vec(), DocumentKind::Workflow)
        .unwrap();
    match handle {
        travailleur::loader::DocumentHandle::Workflow(doc) => {
            assert_eq!(doc.identifier.id().unwrap(), "helloworld");
        },
        other => panic!("expected a workflow handle, got {:?}", other),
    }
}

#[test]
fn stray_field_in_a_function_is_a_decode_error() {
    let mut fetcher = MemFetcher::new();
    fetcher.put(
        "/defs/fns.json",
        r#"{"functions": [{"name": "greet", "operation": "op", "surprise": true}]}"#,
    );
    let mut cache = DefinitionCache::new();
    let err = cache
        .get_or_insert_functions(&mut fetcher, "file:///defs/fns.json")
        .unwrap_err();
    match err {
        Error::JsonConversionFailed { message } => {
            assert_eq!(message, "unknown field in function definition");
        },
        other => panic!("expected JsonConversionFailed, got {:?}", other),
    }
}
