use federation_rs::router_bridge::planner::{
    Location, PlanErrorExtensions, PlannerError, WorkerError, WorkerGraphQLError,
};

#[test]
fn error_on_core_in_v0_1_display() {
    let expected = r#"one or more checks failed
caused by
the `for:` argument is unsupported by version v0.1 of the core spec. Please upgrade to at least @core v0.2 (https://specs.apollo.dev/core/v0.2).
feature https://specs.apollo.dev/something-unsupported/v0.1 is for: SECURITY but is unsupported"#;

    let error_to_display: PlannerError = WorkerGraphQLError {
        name: "CheckFailed".to_string(),
        message: "one or more checks failed".to_string(),
        locations: Default::default(),
        extensions: Some(PlanErrorExtensions {
            code: "CheckFailed".to_string(),
            exception: None,
        }),
        original_error: None,
        causes: vec![
            Box::new(WorkerError {
                message: Some("the `for:` argument is unsupported by version v0.1 of the core spec. Please upgrade to at least @core v0.2 (https://specs.apollo.dev/core/v0.2).".to_string()),
                name: None,
                stack: None,
                extensions: Some(PlanErrorExtensions { code: "ForUnsupported".to_string(), exception: None }),
                locations: vec![Location { line: 2, column: 1 }, Location { line: 3, column: 1 }, Location { line: 4, column: 1 }],
            }),
            Box::new(WorkerError {
                message: Some("feature https://specs.apollo.dev/something-unsupported/v0.1 is for: SECURITY but is unsupported".to_string()),
                name: None,
                stack: None,
                extensions: Some(PlanErrorExtensions { code: "UnsupportedFeature".to_string(), exception: None }),
                locations: vec![Location { line: 4, column: 1 }],
            }),
        ],
    }
    .into();

    assert_eq!(expected.to_string(), error_to_display.to_text());
}

#[test]
fn unsupported_feature_for_execution_display() {
    let expected = r#"one or more checks failed
caused by
feature https://specs.apollo.dev/unsupported-feature/v0.1 is for: EXECUTION but is unsupported"#;

    let error_to_display: PlannerError = WorkerGraphQLError {
        name: "CheckFailed".to_string(),
        message: "one or more checks failed".to_string(),
        locations: Default::default(),
        extensions: Some(PlanErrorExtensions {
            code: "CheckFailed".to_string(),
            exception: None,
        }),
        original_error: None,
        causes: vec![Box::new(WorkerError {
            message: Some("feature https://specs.apollo.dev/unsupported-feature/v0.1 is for: EXECUTION but is unsupported".to_string()),
            name: None,
            stack: None,
            extensions: Some(PlanErrorExtensions { code: "UnsupportedFeature".to_string(), exception: None }),
            locations: vec![Location { line: 4, column: 9 }],
        })],
    }
    .into();

    assert_eq!(expected.to_string(), error_to_display.to_text());
}

#[test]
fn unsupported_feature_for_security_display() {
    let expected = r#"one or more checks failed
caused by
feature https://specs.apollo.dev/unsupported-feature/v0.1 is for: SECURITY but is unsupported"#;

    let error_to_display: PlannerError = WorkerGraphQLError {
        name: "CheckFailed".into(),
        message: "one or more checks failed".to_string(),
        locations: vec![],
        extensions: Some(PlanErrorExtensions {
            code: "CheckFailed".to_string(),
            exception: None,
        }),
        original_error: None,
        causes: vec![Box::new(WorkerError {
            message: Some("feature https://specs.apollo.dev/unsupported-feature/v0.1 is for: SECURITY but is unsupported".to_string()),
            extensions: Some(PlanErrorExtensions {
                code: "UnsupportedFeature".to_string(),
                exception: None,
            }),
            name: None,
            stack: None,
            locations: vec![Location { line: 4, column: 9 }],
        })],
    }
    .into();

    assert_eq!(expected.to_string(), error_to_display.to_text());
}
