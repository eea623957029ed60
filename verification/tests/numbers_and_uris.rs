//! Tests of decimal parsing and rendering and of URI handling.

use travailleur::numbers::{parse_i64, render_bool, render_i64, render_usize};
use travailleur::uri::Uri;

#[test]
fn parse_i64_reads_signed_decimals() {
    assert_eq!(parse_i64("0"), Some(0));
    assert_eq!(parse_i64("42"), Some(42));
    assert_eq!(parse_i64("-42"), Some(-42));
    assert_eq!(parse_i64("+7"), Some(7));
    assert_eq!(parse_i64("9223372036854775807"), Some(i64::MAX));
    assert_eq!(parse_i64("-9223372036854775808"), Some(i64::MIN));
}

#[test]
fn parse_i64_rejects_malformed_input() {
    assert_eq!(parse_i64(""), None);
    assert_eq!(parse_i64("-"), None);
    assert_eq!(parse_i64("+"), None);
    assert_eq!(parse_i64("1 2"), None);
    assert_eq!(parse_i64("12a"), None);
    assert_eq!(parse_i64("9223372036854775808"), None);
    assert_eq!(parse_i64("-9223372036854775809"), None);
}

#[test]
fn render_i64_writes_signed_decimals() {
    assert_eq!(render_i64(0), "0");
    assert_eq!(render_i64(305), "305");
    assert_eq!(render_i64(-12), "-12");
    assert_eq!(render_i64(i64::MIN), "-9223372036854775808");
    assert_eq!(render_usize(10), "10");
    assert_eq!(render_bool(true), "true");
    assert_eq!(render_bool(false), "false");
}

#[test]
fn uri_parse_extracts_scheme_and_path() {
    let u = Uri::parse("file:///defs/wf.json").unwrap();
    assert_eq!(u.scheme(), "file");
    assert_eq!(u.path(), "/defs/wf.json");
    assert_eq!(u.as_str(), "file:///defs/wf.json");
}

#[test]
fn uri_parse_rejects_malformed_input() {
    let e = Uri::parse("not a uri").unwrap_err();
    assert!(matches!(e, travailleur::error::Error::InvalidUrl { .. }));
}

#[test]
fn file_extension_is_lower_cased() {
    let u = Uri::parse("file:///defs/Flow.JSON").unwrap();
    assert_eq!(u.file_extension(), "json");
}

#[test]
fn file_extension_of_extensionless_path_is_empty() {
    let u = Uri::parse("file:///defs/flow").unwrap();
    assert_eq!(u.file_extension(), "");
    let dotfile = Uri::parse("file:///defs/.hidden").unwrap();
    assert_eq!(dotfile.file_extension(), "");
}

#[test]
fn file_uri_translates_to_local_path() {
    let u = Uri::parse("file:///tmp/defs/wf.json").unwrap();
    assert_eq!(u.to_local_path().unwrap(), "/tmp/defs/wf.json");
}

#[test]
fn file_uri_with_remote_host_has_no_local_path() {
    let u = Uri::parse("file://elsewhere/defs/wf.json").unwrap();
    assert!(u.to_local_path().is_none());
}

#[test]
fn non_file_scheme_has_no_local_path() {
    let u = Uri::parse("http://localhost/defs/wf.json").unwrap();
    assert!(u.to_local_path().is_none());
}

#[test]
fn uris_are_equal_iff_normalized_forms_are() {
    let a = Uri::parse("HTTP://Example.COM/a.json").unwrap();
    let b = Uri::parse("http://example.com/a.json").unwrap();
    assert_eq!(a.as_str(), b.as_str());
}
