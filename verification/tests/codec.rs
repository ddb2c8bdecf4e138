//! The configuration codec: path splitting, positional-suffix stripping, and
//! the translation of real structural-decoder failures.

use std::collections::BTreeMap;

use synapse_module_bridge::config::{config_from_decode, Config, ConfigError, DecodeFailure};
use synapse_module_bridge::text::{find_first, split_on_char, truncate_at_first};

#[test]
fn splits_single_segment() {
    assert_eq!(split_on_char("path", '.'), vec!["path".to_string()]);
}

#[test]
fn splits_nested_path() {
    let segs = split_on_char("listeners.port", '.');
    assert_eq!(segs, vec!["listeners".to_string(), "port".to_string()]);
}

#[test]
fn splits_deeply_nested_path() {
    let segs = split_on_char("a.b.c", '.');
    assert_eq!(segs, vec!["a".to_string(), "b".to_string(), "c".to_string()]);
}

#[test]
fn split_keeps_empty_segments() {
    assert_eq!(
        split_on_char("a..b", '.'),
        vec!["a".to_string(), String::new(), "b".to_string()]
    );
    assert_eq!(split_on_char("a.", '.'), vec!["a".to_string(), String::new()]);
    assert_eq!(split_on_char("", '.'), vec![String::new()]);
}

#[test]
fn find_first_locates_earliest_occurrence() {
    assert_eq!(find_first("abcabc", "bc"), Some(1));
    assert_eq!(find_first("abcabc", "zz"), None);
    assert_eq!(find_first("abc", ""), Some(0));
}

#[test]
fn strips_positional_suffix() {
    let m = truncate_at_first("missing field `path` at line 1 column 2", " at line ");
    assert_eq!(m, "missing field `path`");
}

#[test]
fn strip_leaves_clean_message_unchanged() {
    let m = truncate_at_first("missing field `path`", " at line ");
    assert_eq!(m, "missing field `path`");
}

#[test]
fn strip_leaves_no_marker_even_when_repeated() {
    let m = truncate_at_first("oops at line 1 column 2 at line 3 column 4", " at line ");
    assert_eq!(m, "oops");
    assert!(!m.contains(" at line "));
}

#[test]
fn missing_field_yields_field_path() {
    // What the decoder reports for the configuration `{}` when `path` is
    // required: the failure sits at the field path `path`.
    let failure = DecodeFailure {
        path_text: "path".to_string(),
        raw_message: "missing field `path` at line 1 column 2".to_string(),
    };
    let e = ConfigError::from_decode_failure(&failure);
    assert_eq!(e.path, vec!["path".to_string()]);
    assert_eq!(e.message, "missing field `path`");
}

#[test]
fn top_level_failure_yields_empty_path() {
    let de = &mut serde_json::Deserializer::from_str("42");
    let r: Result<BTreeMap<String, String>, _> = serde_path_to_error::deserialize(de);
    let err = r.unwrap_err();
    assert_eq!(err.path().to_string(), ".");
    let failure = DecodeFailure {
        path_text: err.path().to_string(),
        raw_message: err.into_inner().to_string(),
    };
    let e = ConfigError::from_decode_failure(&failure);
    assert_eq!(e.path, Vec::<String>::new());
    assert!(!e.message.contains(" at line "));
}

#[test]
fn type_mismatch_reports_field_path() {
    let de = &mut serde_json::Deserializer::from_str("{\"path\": 42}");
    let r: Result<BTreeMap<String, String>, _> = serde_path_to_error::deserialize(de);
    let err = r.unwrap_err();
    assert_eq!(err.path().to_string(), "path");
    let failure = DecodeFailure {
        path_text: err.path().to_string(),
        raw_message: err.into_inner().to_string(),
    };
    let e = ConfigError::from_decode_failure(&failure);
    assert_eq!(e.path, vec!["path".to_string()]);
    assert_eq!(e.message, "invalid type: integer `42`, expected a string");
    assert!(!e.message.contains(" at line "));
}

#[test]
fn nested_mismatch_reports_nested_path() {
    let de = &mut serde_json::Deserializer::from_str("{\"outer\": {\"inner\": 3}}");
    let r: Result<BTreeMap<String, BTreeMap<String, String>>, _> =
        serde_path_to_error::deserialize(de);
    let err = r.unwrap_err();
    let failure = DecodeFailure {
        path_text: err.path().to_string(),
        raw_message: err.into_inner().to_string(),
    };
    let e = ConfigError::from_decode_failure(&failure);
    assert_eq!(e.path, vec!["outer".to_string(), "inner".to_string()]);
    assert!(!e.message.contains(" at line "));
}

#[test]
fn round_trip_preserves_configuration() {
    // Encode a known configuration into canonical text, decode it back, and
    // compare: the decoded value equals what was encoded.
    let mut m: BTreeMap<String, String> = BTreeMap::new();
    m.insert("path".to_string(), "/demo".to_string());
    let canonical = serde_json::to_string(&m).unwrap();
    let de = &mut serde_json::Deserializer::from_str(&canonical);
    let decoded: BTreeMap<String, String> = serde_path_to_error::deserialize(de).unwrap();
    assert_eq!(decoded, m);
    let cfg = config_from_decode(Ok(Config {
        path: decoded.get("path").unwrap().clone(),
    }))
    .unwrap();
    assert_eq!(cfg.path, "/demo");
}

#[test]
fn decode_failure_becomes_config_error() {
    let failure = DecodeFailure {
        path_text: "path".to_string(),
        raw_message: "invalid type: integer `7`, expected a string at line 1 column 10"
            .to_string(),
    };
    let e = config_from_decode(Err(failure)).unwrap_err();
    assert_eq!(e.path, vec!["path".to_string()]);
    assert_eq!(e.message, "invalid type: integer `7`, expected a string");
}

#[test]
fn dotted_field_name_splits_into_segments() {
    // Known limitation of the rendered-path format: a field name that itself
    // contains the separator is indistinguishable from nesting, so it splits.
    let failure = DecodeFailure {
        path_text: "m.example.com".to_string(),
        raw_message: "unknown variant".to_string(),
    };
    let e = ConfigError::from_decode_failure(&failure);
    assert_eq!(
        e.path,
        vec!["m".to_string(), "example".to_string(), "com".to_string()]
    );
}
