use polyglot::dialect::Dialect;
use polyglot::errors::{host_class, map_polyglot_error, EngineErrorKind, EngineFailure, ErrorKind, HostClass};
use polyglot::ops::{
    deserialization_error, dialects, engine_result, format_outcome, join_statements,
    serialization_error, transpile_dialects, version,
};

fn failure(kind: EngineErrorKind, message: &str) -> EngineFailure {
    EngineFailure { kind, message: message.to_string() }
}

#[test]
fn format_joins_two_statements() {
    let out = format_outcome(vec![Ok("SELECT\n  1".to_string()), Ok("SELECT\n  2".to_string())]).unwrap();
    assert_eq!(out, "SELECT\n  1; \nSELECT\n  2");
    assert!(!out.ends_with("; \n"));
    assert_eq!(out.matches("; \n").count(), 1);
}

#[test]
fn format_of_one_statement_has_no_separator() {
    assert_eq!(format_outcome(vec![Ok("SELECT 1".to_string())]).unwrap(), "SELECT 1");
}

#[test]
fn format_of_no_statements_is_empty() {
    assert_eq!(format_outcome(Vec::new()).unwrap(), "");
}

#[test]
fn format_stops_at_first_failure() {
    let err = format_outcome(vec![
        Ok("SELECT 1".to_string()),
        Err(failure(EngineErrorKind::Generate, "Generation error: first")),
        Err(failure(EngineErrorKind::Unsupported, "second")),
    ])
    .unwrap_err();
    assert_eq!(err.kind, ErrorKind::Generate);
    assert_eq!(err.message, "Generation error: first");
}

#[test]
fn join_statements_three() {
    let parts = vec!["a".to_string(), "b".to_string(), "c".to_string()];
    assert_eq!(join_statements(&parts), "a; \nb; \nc");
}

#[test]
fn engine_errors_map_to_classes() {
    let cases = [
        (EngineErrorKind::Tokenize, ErrorKind::Parse),
        (EngineErrorKind::Parse, ErrorKind::Parse),
        (EngineErrorKind::Syntax, ErrorKind::Parse),
        (EngineErrorKind::Generate, ErrorKind::Generate),
        (EngineErrorKind::Unsupported, ErrorKind::Unsupported),
        (EngineErrorKind::InvalidInput, ErrorKind::Base),
        (EngineErrorKind::ColumnResolution, ErrorKind::Base),
        (EngineErrorKind::Internal, ErrorKind::Base),
    ];
    for (engine, host) in cases {
        let e = map_polyglot_error(failure(engine, "Parse error at line 1, column 8: x"));
        assert_eq!(e.kind, host);
        assert_eq!(e.message, "Parse error at line 1, column 8: x");
    }
}

#[test]
fn engine_result_passes_success_through() {
    let r: Result<Vec<String>, EngineFailure> = Ok(vec!["SELECT 1".to_string()]);
    assert_eq!(engine_result(r).unwrap(), vec!["SELECT 1".to_string()]);
}

#[test]
fn engine_result_maps_failure() {
    let r: Result<String, EngineFailure> = Err(failure(EngineErrorKind::Syntax, "bad"));
    let e = engine_result(r).unwrap_err();
    assert_eq!(e.kind, ErrorKind::Parse);
    assert_eq!(e.message, "bad");
}

#[test]
fn malformed_payload_is_a_base_error() {
    let e = deserialization_error("key must be a string at line 1 column 2");
    assert_eq!(e.kind, ErrorKind::Base);
    assert_ne!(e.kind, ErrorKind::Parse);
    assert_eq!(e.message, "JSON deserialization error: key must be a string at line 1 column 2");
}

#[test]
fn serialization_failure_is_a_base_error() {
    let e = serialization_error("recursion limit exceeded");
    assert_eq!(e.kind, ErrorKind::Base);
    assert_eq!(e.message, "JSON serialization error: recursion limit exceeded");
}

#[test]
fn transpile_resolves_both_dialects() {
    assert_eq!(
        transpile_dialects("Postgres", "big_query").unwrap(),
        (Dialect::PostgreSQL, Dialect::BigQuery)
    );
}

#[test]
fn transpile_reports_source_dialect_first() {
    let e = transpile_dialects("nope", "also_nope").unwrap_err();
    assert_eq!(e.kind, ErrorKind::UnknownDialect);
    assert!(e.message.contains("'nope'"));
    let e = transpile_dialects("generic", "also_nope").unwrap_err();
    assert!(e.message.contains("'also_nope'"));
}

#[test]
fn unknown_dialect_name_is_rejected() {
    let e = polyglot::dialect::dialect_from_name("not_a_real_dialect").unwrap_err();
    assert_eq!(e.kind, ErrorKind::UnknownDialect);
}

#[test]
fn dialects_lists_every_name() {
    let names = dialects();
    assert_eq!(names.len(), 33);
    assert!(names.contains(&"generic".to_string()));
    assert!(names.contains(&"postgres".to_string()));
}

#[test]
fn version_is_semver() {
    assert_eq!(version(), "0.13.3");
    assert_eq!(version().split('.').count(), 3);
}

#[test]
fn errors_before_registration_fall_back_to_runtime_error() {
    for kind in [ErrorKind::Base, ErrorKind::Parse, ErrorKind::Generate, ErrorKind::Unsupported] {
        assert_eq!(host_class(kind, false), HostClass::RuntimeError);
    }
    assert_eq!(host_class(ErrorKind::UnknownDialect, false), HostClass::ArgumentError);
}

#[test]
fn errors_after_registration_use_their_classes() {
    assert_eq!(host_class(ErrorKind::Base, true), HostClass::Base);
    assert_eq!(host_class(ErrorKind::Parse, true), HostClass::Parse);
    assert_eq!(host_class(ErrorKind::Generate, true), HostClass::Generate);
    assert_eq!(host_class(ErrorKind::Unsupported, true), HostClass::Unsupported);
    assert_eq!(host_class(ErrorKind::UnknownDialect, true), HostClass::ArgumentError);
}

#[test]
fn mapped_engine_failure_before_registration_keeps_message() {
    let e = map_polyglot_error(failure(EngineErrorKind::Tokenize, "Tokenization error at line 1, column 1: x"));
    assert_eq!(host_class(e.kind, false), HostClass::RuntimeError);
    assert_eq!(e.message, "Tokenization error at line 1, column 1: x");
}
