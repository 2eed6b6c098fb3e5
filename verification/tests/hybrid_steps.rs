use federation_rs::composition::{Issue, Severity};
use federation_rs::hybrid_steps::{compose_begin, compose_step, ComposeAction, ComposeEvent, ComposeStage};

fn issue(code: &str, message: &str, severity: Severity) -> Issue {
    Issue { code: code.to_string(), message: message.to_string(), locations: vec![], severity }
}

#[test]
fn composition_with_connectors_runs_every_stage() {
    let (stage, actions) = compose_begin();
    assert!(matches!(stage, ComposeStage::ValidatingConnectors));
    assert!(matches!(actions[..], [ComposeAction::ValidateConnectors]));

    let (stage, actions) = compose_step(
        stage,
        ComposeEvent::ConnectorsValidated(Ok(vec![issue("H", "hint", Severity::Warning)])),
    );
    assert!(matches!(stage, ComposeStage::Composing));
    assert_eq!(actions.len(), 2);
    assert!(matches!(&actions[0], ComposeAction::AddIssues(v) if v.len() == 1 && v[0].code == "H"));
    assert!(matches!(actions[1], ComposeAction::ComposeWithoutSatisfiability));

    let (stage, actions) = compose_step(stage, ComposeEvent::Composed(true));
    assert!(matches!(stage, ComposeStage::CheckingOverrides));
    assert!(matches!(actions[..], [ComposeAction::CheckOverrides]));

    let (stage, actions) = compose_step(stage, ComposeEvent::OverridesChecked(vec![]));
    assert!(matches!(stage, ComposeStage::Expanding));
    assert!(matches!(actions[..], [ComposeAction::ExpandConnectors]));

    let (stage, actions) = compose_step(
        stage,
        ComposeEvent::Expanded {
            raw_sdl: "expanded".to_string(),
            names: vec![("films_Query_x_0".to_string(), "films".to_string())],
        },
    );
    assert!(matches!(&stage, ComposeStage::Satisfying { restore: true, .. }));
    assert!(matches!(&actions[0], ComposeAction::UpdateSupergraphSdl(s) if s == "expanded"));
    assert!(matches!(actions[1], ComposeAction::ValidateSatisfiability));

    let (stage, actions) = compose_step(
        stage,
        ComposeEvent::SatisfiabilityChecked(Err(vec![issue(
            "SAT",
            "cannot reach films_Query_x_0",
            Severity::Error,
        )])),
    );
    assert!(matches!(stage, ComposeStage::Done));
    assert_eq!(actions.len(), 2);
    assert!(matches!(&actions[0], ComposeAction::AddIssues(v) if v[0].message == "cannot reach films"));
    assert!(matches!(actions[1], ComposeAction::RestoreSupergraphSdl));
}

#[test]
fn composition_stops_at_the_first_failure() {
    let (stage, _) = compose_begin();
    let (stage, actions) = compose_step(
        stage,
        ComposeEvent::ConnectorsValidated(Err(vec![issue("E", "bad", Severity::Error)])),
    );
    assert!(matches!(stage, ComposeStage::Done));
    assert!(matches!(&actions[..], [ComposeAction::AddIssues(v)] if v[0].code == "E"));

    let (stage, actions) = compose_step(ComposeStage::Composing, ComposeEvent::Composed(false));
    assert!(matches!(stage, ComposeStage::Done));
    assert!(actions.is_empty());

    let (stage, actions) = compose_step(
        ComposeStage::CheckingOverrides,
        ComposeEvent::OverridesChecked(vec![issue("OVERRIDE", "no", Severity::Error)]),
    );
    assert!(matches!(stage, ComposeStage::Done));
    assert!(matches!(&actions[..], [ComposeAction::AddIssues(v)] if v[0].code == "OVERRIDE"));

    let (stage, actions) =
        compose_step(ComposeStage::Expanding, ComposeEvent::ExpansionFailed("boom".to_string()));
    assert!(matches!(stage, ComposeStage::Done));
    assert!(matches!(&actions[..], [ComposeAction::AddIssues(v)]
        if v[0].code == "INTERNAL_ERROR"
            && v[0].message == "Composition failed due to an internal error, please report this: boom"));
}

#[test]
fn composition_without_connectors_keeps_its_supergraph() {
    let (stage, actions) = compose_step(ComposeStage::Expanding, ComposeEvent::Unchanged);
    assert!(matches!(&stage, ComposeStage::Satisfying { restore: false, names } if names.is_empty()));
    assert!(matches!(actions[..], [ComposeAction::ValidateSatisfiability]));
    let (stage, actions) = compose_step(
        stage,
        ComposeEvent::SatisfiabilityChecked(Ok(vec![issue("HINT", "fine", Severity::Warning)])),
    );
    assert!(matches!(stage, ComposeStage::Done));
    assert!(matches!(&actions[..], [ComposeAction::AddIssues(v)] if v[0].message == "fine"));
}

use federation_rs::build_plugin::build_message::BuildMessageLevel;
use federation_rs::hybrid_steps::{phase_step, phases_begin, PhaseAction, PhaseEvent, PhaseStage, PhaseStep};
use federation_rs::javascript::SubgraphDefinition;

fn defs(sdl: &str) -> Vec<SubgraphDefinition> {
    vec![SubgraphDefinition::new("films", "http://films", sdl)]
}

fn next(step: PhaseStep) -> (PhaseStage, PhaseAction) {
    match step {
        PhaseStep::Next(stage, action) => (stage, action),
        PhaseStep::Finished(_) => panic!("finished too early"),
    }
}

#[test]
fn phases_pass_the_transformed_subgraphs_along() {
    let (stage, action) = next(phases_begin(defs("original")));
    assert!(matches!(&action, PhaseAction::UpgradeSubgraphs(d) if d[0].sdl == "original"));
    let (stage, action) = next(phase_step(stage, PhaseEvent::Upgraded(Ok(defs("upgraded")))));
    assert!(matches!(&action, PhaseAction::ValidateSubgraphs(d) if d[0].sdl == "upgraded"));
    let (stage, action) = next(phase_step(stage, PhaseEvent::SubgraphsValidated(Ok(defs("validated")))));
    assert!(matches!(&action, PhaseAction::ValidateConnectors(d) if d[0].sdl == "validated"));
    let (stage, action) = next(phase_step(
        stage,
        PhaseEvent::ConnectorsValidated(Ok((
            defs("connected"),
            vec![issue("CONNECTOR_HINT", "c", Severity::Warning)],
        ))),
    ));
    assert!(matches!(action, PhaseAction::CheckOverrides));
    let (stage, action) = next(phase_step(stage, PhaseEvent::OverridesChecked(vec![])));
    assert!(matches!(&action, PhaseAction::MergeSubgraphs(d) if d[0].sdl == "connected"));
    let (stage, action) = next(phase_step(
        stage,
        PhaseEvent::Merged(Ok(("merged".to_string(), vec![issue("MERGE_HINT", "about svc_0", Severity::Warning)]))),
    ));
    assert!(matches!(&action, PhaseAction::ExpandConnectors(s) if s == "merged"));
    let (stage, action) = next(phase_step(
        stage,
        PhaseEvent::Expanded {
            raw_sdl: "expanded".to_string(),
            names: vec![("svc_0".to_string(), "films".to_string())],
        },
    ));
    assert!(matches!(&action, PhaseAction::ValidateSatisfiability(s) if s == "expanded"));
    match phase_step(stage, PhaseEvent::SatisfiabilityChecked(Ok(vec![]))) {
        PhaseStep::Finished(Ok(result)) => {
            assert_eq!(result.result.as_deref().ok(), Some("merged"));
            assert_eq!(result.build_messages.len(), 2);
            assert_eq!(result.build_messages[0].code.as_deref(), Some("CONNECTOR_HINT"));
            assert_eq!(result.build_messages[1].message, "about films");
            assert!(matches!(result.build_messages[1].level, BuildMessageLevel::Warn));
        }
        _ => panic!("composition should pass"),
    }
}

#[test]
fn phases_stop_at_the_first_failure() {
    let (stage, _) = next(phases_begin(defs("x")));
    match phase_step(stage, PhaseEvent::Upgraded(Err(vec![issue("BAD", "b", Severity::Error)]))) {
        PhaseStep::Finished(Err(issues)) => assert_eq!(issues[0].code, "BAD"),
        _ => panic!("should fail"),
    }
    let stage = PhaseStage::CheckingOverrides { connected: defs("x"), connector_hints: vec![] };
    match phase_step(stage, PhaseEvent::OverridesChecked(vec![issue("OVERRIDE", "o", Severity::Error)])) {
        PhaseStep::Finished(Err(issues)) => assert_eq!(issues[0].code, "OVERRIDE"),
        _ => panic!("should fail"),
    }
    let stage = PhaseStage::Satisfying {
        supergraph_sdl: "s".to_string(),
        connector_hints: vec![issue("CONNECTOR_HINT", "c", Severity::Warning)],
        merge_hints: vec![],
        names: None,
    };
    match phase_step(stage, PhaseEvent::SatisfiabilityChecked(Ok(vec![issue("SAT_HINT", "h", Severity::Warning)]))) {
        PhaseStep::Finished(Ok(result)) => {
            assert_eq!(result.build_messages.len(), 1);
            assert_eq!(result.build_messages[0].code.as_deref(), Some("SAT_HINT"));
        }
        _ => panic!("should pass"),
    }
}
