use federation_rs::build::build_output::BuildOutput as TextHintOutput;
use federation_rs::build::error::{BuildError, BuildErrors};
use federation_rs::build::hint::BuildHint;
use federation_rs::build::output::BuildOutput;
use federation_rs::build::from_plugin::build_result_of;
use federation_rs::build_plugin::build_message::{BuildMessage, BuildMessageLevel, BuildMessageLocation};
use federation_rs::build_plugin::plugin_result::{PluginFailureReason, PluginResult};
use federation_rs::config::config_error::ConfigError;

#[test]
fn error_without_code_or_message_is_unknown() {
    let e = BuildError::composition_error(None, None);
    assert_eq!(e.get_message().unwrap(), "An unknown error occurred during the build.");
    assert!(e.get_code().is_none());
    assert!(!e.is_config());
    assert_eq!(e.to_text(), "UNKNOWN: An unknown error occurred during the build.");
}

#[test]
fn error_text_has_code_and_message() {
    let e = BuildError::config_error(Some("CODE".to_string()), Some("broken".to_string()));
    assert!(e.is_config());
    assert_eq!(e.to_text(), "CODE: broken");
    let e = BuildError::composition_error(Some("CODE".to_string()), None);
    assert_eq!(e.to_text(), "CODE");
    assert!(e.get_message().is_none());
}

#[test]
fn errors_count_and_describe_themselves() {
    let mut errors = BuildErrors::new();
    assert!(errors.is_empty());
    assert_eq!(errors.len(), 0);
    errors.push(BuildError::composition_error(Some("A".to_string()), Some("one".to_string())));
    assert_eq!(errors.length_string(), "1 build error");
    errors.push(BuildError::composition_error(Some("B".to_string()), Some("two".to_string())));
    assert_eq!(errors.len(), 2);
    assert_eq!(errors.length_string(), "2 build errors");
    assert!(!errors.is_empty());
}

#[test]
fn a_config_error_marks_the_errors() {
    let mut errors = BuildErrors::new();
    errors.push(BuildError::composition_error(None, Some("x".to_string())));
    errors.push(BuildError::config_error(None, Some("y".to_string())));
    let collected = BuildErrors::from_errors(vec![
        BuildError::composition_error(None, Some("x".to_string())),
        BuildError::config_error(None, Some("y".to_string())),
    ]);
    assert_eq!(collected.len(), 2);
    assert_eq!(errors.to_text(), collected.to_text());
    assert!(errors.is_config());
    assert_eq!(errors.is_config(), collected.is_config());
    assert!(!BuildErrors::from_errors(vec![BuildError::composition_error(None, None)]).is_config());
}

#[test]
fn config_error_becomes_one_build_error() {
    let errors = BuildErrors::from_config_error(ConfigError::NoSubgraphsFound);
    assert_eq!(errors.len(), 1);
    assert_eq!(errors.length_string(), "1 build error");
}

#[test]
fn outputs_hold_schema_and_hints() {
    let o = BuildOutput::new("type Query".to_string());
    assert_eq!(o.supergraph_sdl, "type Query");
    assert!(o.hints.is_empty());
    let o = BuildOutput::new_with_hints(
        "s".to_string(),
        vec![BuildHint::new("m".to_string(), "c".to_string(), None)],
    );
    assert_eq!(o.hints.len(), 1);
    assert_eq!(o.hints[0].code, "c");
    let t = TextHintOutput::new_with_hints("s", &["a", "b"]);
    assert_eq!(t.hints, vec!["a".to_string(), "b".to_string()]);
    assert!(TextHintOutput::new("s").hints.is_empty());
}

#[test]
fn error_messages_are_errors() {
    let m = BuildMessage::new_error("bad".to_string(), Some("STEP".to_string()), None);
    assert!(m.level == BuildMessageLevel::Error);
    assert_eq!(m.message, "bad");
    assert!(m.locations.is_empty());
}

#[test]
fn plugin_results() {
    let r = PluginResult::success_from_schema("schema".to_string());
    assert_eq!(r.result.as_ref().unwrap(), "schema");
    assert!(r.build_messages.is_empty());
    let r = PluginResult::new_failure(vec![], PluginFailureReason::Config);
    assert!(r.result == Err(PluginFailureReason::Config));
    let r = PluginResult::unreadable_json("eof");
    assert!(r.result == Err(PluginFailureReason::InternalFailure));
    assert_eq!(r.build_messages[0].message, "Could not parse JSON from Rust. Received error eof");
    let r = PluginResult::from_config_error(&ConfigError::NoSubgraphsFound);
    assert!(r.result == Err(PluginFailureReason::Config));
    assert_eq!(r.build_messages[0].step.as_deref(), Some("PLUGIN_CONFIGURATION"));
}

#[test]
fn errors_from_a_list_are_marked_by_their_kind() {
    let composition = BuildErrors::from(vec![BuildError::composition_error(None, Some("a".to_string()))]);
    assert_eq!(composition.len(), 1);
    assert!(!composition.is_config());
    let mixed = BuildErrors::from(vec![
        BuildError::composition_error(None, Some("a".to_string())),
        BuildError::config_error(None, Some("b".to_string())),
    ]);
    assert_eq!(mixed.len(), 2);
    assert!(mixed.is_config());
    assert!(BuildErrors::from(Vec::new()).is_empty());
}

fn hint_message(text: &str, code: Option<&str>) -> BuildMessage {
    BuildMessage {
        level: BuildMessageLevel::Warn,
        message: text.to_string(),
        step: None,
        code: code.map(|c| c.to_string()),
        locations: vec![BuildMessageLocation {
            subgraph: Some("films".to_string()),
            source: None,
            start: None,
            end: None,
            other: String::new(),
        }],
        schema_coordinate: None,
        other: String::new(),
    }
}

#[test]
fn plugin_results_become_build_results() {
    let ok = build_result_of(PluginResult::new(
        Ok("schema".to_string()),
        vec![
            hint_message("careful", Some("HINT")),
            BuildMessage::new_error("broken".to_string(), None, Some("E".to_string())),
            hint_message("again", None),
        ],
    ))
    .ok()
    .unwrap();
    assert_eq!(ok.supergraph_sdl, "schema");
    assert_eq!(ok.hints.len(), 2);
    assert_eq!(ok.hints[0].message, "careful");
    assert_eq!(ok.hints[0].code, "HINT");
    assert_eq!(ok.hints[0].nodes.as_ref().unwrap()[0].subgraph.as_deref(), Some("films"));
    assert_eq!(ok.hints[1].message, "again");
    assert_eq!(ok.hints[1].code, "");

    let failed = build_result_of(PluginResult::new(
        Err(PluginFailureReason::Config),
        vec![
            hint_message("careful", None),
            BuildMessage::new_error("broken".to_string(), None, Some("E".to_string())),
        ],
    ))
    .err()
    .unwrap();
    assert_eq!(failed.len(), 1);
    assert!(failed.is_config());
    assert_eq!(failed.build_errors()[0].get_message().unwrap(), "broken");
    assert_eq!(failed.build_errors()[0].get_code().unwrap(), "E");
    assert!(!failed.build_errors()[0].is_config());

    let build_failure = build_result_of(PluginResult::new(Err(PluginFailureReason::Build), vec![]))
        .err()
        .unwrap();
    assert!(build_failure.is_empty());
    assert!(!build_failure.is_config());
}
