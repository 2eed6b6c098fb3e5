use std::ops::Range;

use federation_rs::build::error::BuildError;
use federation_rs::build::hint::{BuildErrorNode, BuildHint};
use federation_rs::build_plugin::build_message::{BuildMessageLevel, BuildMessageLocation, BuildMessagePoint};
use federation_rs::composition::{
    convert_subraph_error_to_issues, maybe_prepend_subgraph, Issue, LineColumn, Severity, SubgraphLocation,
};
use federation_rs::composition::issues_to_messages;
use federation_rs::hybrid::{
    composed_plugin_result, connector_validation_outcome, hint_issue, internal_error_issue,
    is_override_directive, override_issues, sanitize_all, sanitize_connectors_issue,
    satisfiability_result_to_issues, OverrideUse,
};

fn named(name: &str) -> SubgraphLocation {
    SubgraphLocation { subgraph: Some(name.to_string()), range: None }
}

#[test]
fn test_maybe_prepend_subgraph() {
    assert_eq!(maybe_prepend_subgraph("hello", &vec![]), "hello");
    assert_eq!(maybe_prepend_subgraph("hello", &vec![named("subgraph")]), "[subgraph] hello");
    assert_eq!(maybe_prepend_subgraph("[other] hello", &vec![named("subgraph")]), "[other] hello");
    assert_eq!(
        maybe_prepend_subgraph("hello", &vec![named("subgraph"), named("other")]),
        "hello"
    );
}

#[test]
fn the_same_subgraph_twice_is_one_subgraph() {
    assert_eq!(
        maybe_prepend_subgraph("hello", &vec![named("a"), SubgraphLocation { subgraph: None, range: None }, named("a")]),
        "[a] hello"
    );
}

#[test]
fn severities_become_levels() {
    assert!(Severity::Error.level() == BuildMessageLevel::Error);
    assert!(Severity::Warning.level() == BuildMessageLevel::Warn);
}

#[test]
fn locations_survive_the_round_trip() {
    let l = SubgraphLocation {
        subgraph: Some("s".to_string()),
        range: Some(Range { start: LineColumn { line: 1, column: 2 }, end: LineColumn { line: 3, column: 4 } }),
    };
    let m = l.into_message_location();
    assert_eq!(m.subgraph.as_deref(), Some("s"));
    assert_eq!(m.start.as_ref().unwrap().line, Some(1));
    assert_eq!(m.end.as_ref().unwrap().column, Some(4));
    let back = SubgraphLocation::from_message_location(m);
    assert_eq!(back.subgraph.as_deref(), Some("s"));
    let r = back.range.unwrap();
    assert_eq!((r.start.line, r.start.column, r.end.line, r.end.column), (1, 2, 3, 4));
}

#[test]
fn a_message_location_without_lines_has_no_range() {
    let m = BuildMessageLocation {
        subgraph: None,
        source: None,
        start: Some(BuildMessagePoint { start: None, end: None, column: Some(1), line: None }),
        end: Some(BuildMessagePoint { start: None, end: None, column: Some(1), line: Some(2) }),
        other: String::new(),
    };
    assert!(SubgraphLocation::from_message_location(m).range.is_none());
}

#[test]
fn issues_become_build_messages() {
    let issue = Issue {
        code: "CODE".to_string(),
        message: "broken".to_string(),
        locations: vec![named("films")],
        severity: Severity::Warning,
    };
    let m = issue.into_build_message();
    assert!(m.level == BuildMessageLevel::Warn);
    assert_eq!(m.message, "[films] broken");
    assert_eq!(m.code.as_deref(), Some("CODE"));
    assert_eq!(m.locations.len(), 1);
    assert_eq!(m.locations[0].subgraph.as_deref(), Some("films"));
}

#[test]
fn hints_and_failures_become_issues() {
    let i = Issue::from_hint(BuildHint::new("m".to_string(), "c".to_string(), None));
    assert!(i.severity == Severity::Warning);
    assert_eq!(i.code, "c");
    let i = Issue::from_failure(None, "boom".to_string());
    assert_eq!(i.code, "UNKNOWN_ERROR_CODE");
    assert!(i.severity == Severity::Error);
    let issues = convert_subraph_error_to_issues(vec![("A".to_string(), "a".to_string()), ("B".to_string(), "b".to_string())]);
    assert_eq!(issues.len(), 2);
    assert_eq!(issues[1].code, "B");
    assert_eq!(issues[1].message, "b");
}

fn issue(code: &str, severity: Severity) -> Issue {
    Issue { code: code.to_string(), message: String::new(), locations: vec![], severity }
}

#[test]
fn connector_validation_splits_errors_from_hints() {
    let r = connector_validation_outcome(vec![issue("W", Severity::Warning), issue("E", Severity::Error)]);
    let errors = r.err().unwrap();
    assert_eq!(errors.len(), 1);
    assert_eq!(errors[0].code, "E");
    let r = connector_validation_outcome(vec![issue("W1", Severity::Warning), issue("W2", Severity::Warning)]);
    let hints = r.ok().unwrap();
    assert_eq!(hints.len(), 2);
    assert_eq!(hints[1].code, "W2");
}

#[test]
fn overrides_of_connector_subgraphs_are_errors() {
    assert!(is_override_directive("override"));
    assert!(is_override_directive("federation__override"));
    assert!(!is_override_directive("key"));
    let uses = vec![
        OverrideUse { field: "T.f".to_string(), subgraph: "a".to_string(), from: Some("b".to_string()), location: named("b") },
        OverrideUse { field: "T.g".to_string(), subgraph: "a".to_string(), from: Some("c".to_string()), location: named("c") },
        OverrideUse { field: "T.h".to_string(), subgraph: "a".to_string(), from: None, location: named("b") },
    ];
    let issues = override_issues(uses, &vec!["b".to_string()]);
    assert_eq!(issues.len(), 1);
    assert_eq!(issues[0].code, "OVERRIDE_ON_CONNECTOR");
    assert_eq!(issues[0].message, "Field \"T.f\" on subgraph \"a\" is trying to override connector-enabled subgraph \"b\", which is not yet supported. See https://go.apollo.dev/connectors/limitations#override-is-partially-unsupported");
    assert_eq!(issues[0].locations[0].subgraph.as_deref(), Some("b"));
}

#[test]
fn connector_service_names_are_sanitized() {
    let mut i = Issue { code: "C".to_string(), message: "in svc_1 and svc_1".to_string(), locations: vec![], severity: Severity::Error };
    sanitize_connectors_issue(&mut i, &vec![("svc_1".to_string(), "products".to_string())]);
    assert_eq!(i.message, "in products and products");
}

#[test]
fn small_issue_builders() {
    let i = internal_error_issue("oops");
    assert_eq!(i.code, "INTERNAL_ERROR");
    assert_eq!(i.message, "Composition failed due to an internal error, please report this: oops");
    let h = hint_issue("c".to_string(), "m".to_string());
    assert!(h.severity == Severity::Warning);
    assert_eq!(satisfiability_result_to_issues(Err(vec![issue("E", Severity::Error)])).len(), 1);
    assert_eq!(satisfiability_result_to_issues(Ok(vec![])).len(), 0);
}

#[test]
fn build_errors_and_hint_nodes_become_issues() {
    let i = Issue::from_build_error(&BuildError::composition_error(Some("X".to_string()), None));
    assert_eq!(i.code, "X");
    assert_eq!(i.message, "Unknown error");
    assert!(i.severity == Severity::Error);
    let i = Issue::from_build_error(&BuildError::config_error(None, Some("m".to_string())));
    assert_eq!(i.code, "UNKNOWN_ERROR_CODE");
    assert_eq!(i.message, "m");
    let node = BuildErrorNode {
        subgraph: Some("films".to_string()),
        source: None,
        start: Some(BuildMessagePoint { start: None, end: None, column: Some(1), line: Some(2) }),
        end: Some(BuildMessagePoint { start: None, end: None, column: Some(3), line: Some(4) }),
    };
    let i = Issue::from_hint(BuildHint::new("m".to_string(), "c".to_string(), Some(vec![node])));
    assert_eq!(i.locations.len(), 1);
    assert_eq!(i.locations[0].subgraph.as_deref(), Some("films"));
    let r = i.locations[0].range.as_ref().unwrap();
    assert_eq!((r.start.line, r.start.column, r.end.line, r.end.column), (2, 1, 4, 3));
}

#[test]
fn prepending_twice_is_prepending_once() {
    let locations = vec![named("films")];
    let once = maybe_prepend_subgraph("broken", &locations);
    assert_eq!(maybe_prepend_subgraph(&once, &locations), once);
}

#[test]
fn composed_results_carry_all_hints() {
    let names = vec![("svc".to_string(), "products".to_string())];
    let connector = vec![Issue { code: "C".to_string(), message: "from svc".to_string(), locations: vec![named("a")], severity: Severity::Warning }];
    let composition = vec![Issue { code: "H".to_string(), message: "see svc".to_string(), locations: vec![], severity: Severity::Warning }];
    let r = composed_plugin_result("sdl".to_string(), connector, composition, &names);
    assert_eq!(r.result.as_ref().unwrap(), "sdl");
    assert_eq!(r.build_messages.len(), 2);
    assert_eq!(r.build_messages[0].message, "[a] from svc");
    assert_eq!(r.build_messages[1].message, "see products");
    let sanitized = sanitize_all(vec![issue("E", Severity::Error)], &names);
    assert_eq!(sanitized.len(), 1);
    let messages = issues_to_messages(vec![issue("E", Severity::Error), issue("W", Severity::Warning)]);
    assert!(messages[1].level == BuildMessageLevel::Warn);
}
