//! The order of hybrid composition: which piece of outside work comes next
//! (connector validation, JavaScript composition, the override check,
//! connector expansion, satisfiability) and what is reported between them.
//! The embedder performs each action and hands back what came of it.
use vstd::prelude::*;

use crate::build_plugin::plugin_result::{PluginFailureReason, PluginResult};
use crate::composition::{is_message_of_issue, Issue};
use crate::hybrid::{
    composed_plugin_result, internal_error_issue, is_message_of_sanitized, is_sanitized_issue,
    sanitize_all,
};
use crate::javascript::SubgraphDefinition;

verus! {

/// Where a hybrid composition stands, between two pieces of outside work.
#[derive(Debug)]
pub enum ComposeStage {
    /// Waiting for the connectors of the subgraphs to be validated.
    ValidatingConnectors,
    /// Waiting for JavaScript to compose, without satisfiability.
    Composing,
    /// Waiting for the uses of `@override` to be checked.
    CheckingOverrides,
    /// Waiting for the connectors of the supergraph to be expanded.
    Expanding,
    /// Waiting for satisfiability: the names of connector services to
    /// replace in its issues, and whether the composed supergraph is to be
    /// put back afterwards.
    Satisfying { names: Vec<(String, String)>, restore: bool },
    /// Composition is over.
    Done,
}

/// What came of a piece of outside work.
#[derive(Debug)]
pub enum ComposeEvent {
    /// Connector validation gave its hints, or its errors.
    ConnectorsValidated(Result<Vec<Issue>, Vec<Issue>>),
    /// JavaScript composition gave a supergraph, or did not.
    Composed(bool),
    /// The override check found these errors.
    OverridesChecked(Vec<Issue>),
    /// Expanding connectors failed with this message.
    ExpansionFailed(String),
    /// Connectors were expanded: the expanded supergraph, and the names of
    /// the connector services with the subgraphs they belong to.
    Expanded { raw_sdl: String, names: Vec<(String, String)> },
    /// There were no connectors to expand.
    Unchanged,
    /// Satisfiability gave its hints, or its errors.
    SatisfiabilityChecked(Result<Vec<Issue>, Vec<Issue>>),
}

/// What the embedder is to do next.
#[derive(Debug)]
pub enum ComposeAction {
    /// Validate the connectors of the subgraphs.
    ValidateConnectors,
    /// Report these issues.
    AddIssues(Vec<Issue>),
    /// Compose with JavaScript, without satisfiability, the subgraphs as
    /// connector validation left them.
    ComposeWithoutSatisfiability,
    /// Check the uses of `@override` in the parsed subgraphs.
    CheckOverrides,
    /// Expand the connectors of the composed supergraph.
    ExpandConnectors,
    /// Make this the stored supergraph.
    UpdateSupergraphSdl(String),
    /// Put the composed supergraph back as the stored one.
    RestoreSupergraphSdl,
    /// Check the satisfiability of the stored supergraph.
    ValidateSatisfiability,
}

/// The order of the stages: each step moves to a later one.
pub open spec fn stage_rank(s: ComposeStage) -> int {
    match s {
        ComposeStage::ValidatingConnectors => 0,
        ComposeStage::Composing => 1,
        ComposeStage::CheckingOverrides => 2,
        ComposeStage::Expanding => 3,
        ComposeStage::Satisfying { .. } => 4,
        ComposeStage::Done => 5,
    }
}

/// Whether an event is what the stage waits for.
pub open spec fn expects(stage: ComposeStage, event: ComposeEvent) -> bool {
    match stage {
        ComposeStage::ValidatingConnectors => event is ConnectorsValidated,
        ComposeStage::Composing => event is Composed,
        ComposeStage::CheckingOverrides => event is OverridesChecked,
        ComposeStage::Expanding => event is ExpansionFailed || event is Expanded
            || event is Unchanged,
        ComposeStage::Satisfying { .. } => event is SatisfiabilityChecked,
        ComposeStage::Done => false,
    }
}

/// Whether an action reports exactly these issues.
pub open spec fn reports(a: ComposeAction, issues: Seq<Issue>) -> bool {
    a matches ComposeAction::AddIssues(v) && v@ == issues
}

/// The names of connector services with their subgraphs, as plain texts.
pub open spec fn name_pairs(names: Seq<(String, String)>) -> Seq<(Seq<char>, Seq<char>)> {
    names.map_values(|p: (String, String)| (p.0@, p.1@))
}

/// The first step of a composition: validate the connectors.
pub fn compose_begin() -> (r: (ComposeStage, Vec<ComposeAction>))
    ensures
        r.0 is ValidatingConnectors,
        r.1@.len() == 1,
        r.1@[0] is ValidateConnectors,
{
    let mut actions: Vec<ComposeAction> = Vec::new();
    actions.push(ComposeAction::ValidateConnectors);
    (ComposeStage::ValidatingConnectors, actions)
}

/// The next step of a composition: from the stage and what came of the
/// work it waited for, the next stage and the actions, in order.
///
/// Connector errors end composition; its hints are reported and JavaScript
/// composes. Without a supergraph composition ends. Override errors end it;
/// otherwise connectors are expanded. An expansion failure is reported as an
/// internal error; an expanded supergraph is stored for satisfiability, and
/// the composed one put back afterwards. The issues of satisfiability are
/// reported with connector service names replaced by subgraph names.
pub fn compose_step(stage: ComposeStage, event: ComposeEvent) -> (r: (ComposeStage, Vec<ComposeAction>))
    requires
        expects(stage, event),
    ensures
        stage_rank(r.0) > stage_rank(stage),
        match event {
            ComposeEvent::ConnectorsValidated(Err(errors)) => r.0 is Done && r.1@.len() == 1
                && reports(r.1@[0], errors@),
            ComposeEvent::ConnectorsValidated(Ok(hints)) => r.0 is Composing && r.1@.len() == 2
                && reports(r.1@[0], hints@) && r.1@[1] is ComposeWithoutSatisfiability,
            ComposeEvent::Composed(composed) => if composed {
                r.0 is CheckingOverrides && r.1@.len() == 1 && r.1@[0] is CheckOverrides
            } else {
                r.0 is Done && r.1@.len() == 0
            },
            ComposeEvent::OverridesChecked(errors) => if errors@.len() > 0 {
                r.0 is Done && r.1@.len() == 1 && reports(r.1@[0], errors@)
            } else {
                r.0 is Expanding && r.1@.len() == 1 && r.1@[0] is ExpandConnectors
            },
            ComposeEvent::ExpansionFailed(message) => r.0 is Done && r.1@.len() == 1 && (r.1@[0] matches ComposeAction::AddIssues(v) && v@.len() == 1
                && v@[0].code@ == "INTERNAL_ERROR"@ && v@[0].message@
                == "Composition failed due to an internal error, please report this: "@ + message@
                && v@[0].locations@.len() == 0 && v@[0].severity == crate::composition::Severity::Error),
            ComposeEvent::Expanded { raw_sdl, names } => (r.0 matches ComposeStage::Satisfying {
                names: n,
                restore,
            } && n@ == names@ && restore) && r.1@.len() == 2 && (r.1@[0] matches ComposeAction::UpdateSupergraphSdl(s) && s
                == raw_sdl) && r.1@[1] is ValidateSatisfiability,
            ComposeEvent::Unchanged => (r.0 matches ComposeStage::Satisfying { names: n, restore } && n@.len()
                == 0 && !restore) && r.1@.len() == 1 && r.1@[0] is ValidateSatisfiability,
            ComposeEvent::SatisfiabilityChecked(result) => {
                let issues = match result {
                    Ok(h) => h@,
                    Err(e) => e@,
                };
                let names = stage->names;
                &&& r.0 is Done
                &&& r.1@.len() == (if stage->restore { 2int } else { 1int })
                &&& r.1@[0] matches ComposeAction::AddIssues(v) && v@.len() == issues.len() && forall|i: int|
                    0 <= i < issues.len() ==> is_sanitized_issue(
                        issues[i],
                        #[trigger] v@[i],
                        name_pairs(names@),
                    )
                &&& stage->restore ==> r.1@[1] is RestoreSupergraphSdl
            },
        },
{
    let mut actions: Vec<ComposeAction> = Vec::new();
    match event {
        ComposeEvent::ConnectorsValidated(Err(errors)) => {
            actions.push(ComposeAction::AddIssues(errors));
            (ComposeStage::Done, actions)
        },
        ComposeEvent::ConnectorsValidated(Ok(hints)) => {
            actions.push(ComposeAction::AddIssues(hints));
            actions.push(ComposeAction::ComposeWithoutSatisfiability);
            (ComposeStage::Composing, actions)
        },
        ComposeEvent::Composed(composed) => {
            if composed {
                actions.push(ComposeAction::CheckOverrides);
                (ComposeStage::CheckingOverrides, actions)
            } else {
                (ComposeStage::Done, actions)
            }
        },
        ComposeEvent::OverridesChecked(errors) => {
            if errors.len() > 0 {
                actions.push(ComposeAction::AddIssues(errors));
                (ComposeStage::Done, actions)
            } else {
                actions.push(ComposeAction::ExpandConnectors);
                (ComposeStage::Expanding, actions)
            }
        },
        ComposeEvent::ExpansionFailed(message) => {
            let mut issues: Vec<Issue> = Vec::new();
            issues.push(internal_error_issue(message.as_str()));
            actions.push(ComposeAction::AddIssues(issues));
            (ComposeStage::Done, actions)
        },
        ComposeEvent::Expanded { raw_sdl, names } => {
            actions.push(ComposeAction::UpdateSupergraphSdl(raw_sdl));
            actions.push(ComposeAction::ValidateSatisfiability);
            (ComposeStage::Satisfying { names, restore: true }, actions)
        },
        ComposeEvent::Unchanged => {
            actions.push(ComposeAction::ValidateSatisfiability);
            (ComposeStage::Satisfying { names: Vec::new(), restore: false }, actions)
        },
        ComposeEvent::SatisfiabilityChecked(result) => {
            let (names, restore) = match stage {
                ComposeStage::Satisfying { names, restore } => (names, restore),
                _ => (Vec::new(), false),
            };
            let issues = match result {
                Ok(h) => h,
                Err(e) => e,
            };
            let sanitized = sanitize_all(issues, &names);
            actions.push(ComposeAction::AddIssues(sanitized));
            if restore {
                actions.push(ComposeAction::RestoreSupergraphSdl);
            }
            (ComposeStage::Done, actions)
        },
    }
}

/// Where a composition in granular phases stands, with what it keeps for
/// the phases to come.
#[derive(Debug)]
pub enum PhaseStage {
    /// Waiting for the subgraphs to be upgraded.
    Upgrading,
    /// Waiting for the upgraded subgraphs to be validated.
    ValidatingSubgraphs,
    /// Waiting for the connectors of the validated subgraphs to be
    /// validated.
    ValidatingConnectors,
    /// Waiting for the uses of `@override` to be checked; the subgraphs as
    /// connector validation left them, and its hints.
    CheckingOverrides { connected: Vec<SubgraphDefinition>, connector_hints: Vec<Issue> },
    /// Waiting for the subgraphs to be merged.
    Merging { connector_hints: Vec<Issue> },
    /// Waiting for the connectors of the merged supergraph to be expanded.
    Expanding { supergraph_sdl: String, connector_hints: Vec<Issue>, merge_hints: Vec<Issue> },
    /// Waiting for satisfiability; the names of connector services when
    /// connectors were expanded.
    Satisfying {
        supergraph_sdl: String,
        connector_hints: Vec<Issue>,
        merge_hints: Vec<Issue>,
        names: Option<Vec<(String, String)>>,
    },
}

/// What came of a phase.
#[derive(Debug)]
pub enum PhaseEvent {
    /// The subgraphs, upgraded, or the issues that stopped it.
    Upgraded(Result<Vec<SubgraphDefinition>, Vec<Issue>>),
    /// The subgraphs, validated, or the issues that stopped it.
    SubgraphsValidated(Result<Vec<SubgraphDefinition>, Vec<Issue>>),
    /// The subgraphs as connector validation left them with its hints, or
    /// its errors.
    ConnectorsValidated(Result<(Vec<SubgraphDefinition>, Vec<Issue>), Vec<Issue>>),
    /// The override check found these errors.
    OverridesChecked(Vec<Issue>),
    /// The merged supergraph with the hints of merging, or the issues that
    /// stopped it.
    Merged(Result<(String, Vec<Issue>), Vec<Issue>>),
    /// Expanding connectors failed with this issue.
    ExpansionFailed(Issue),
    /// Connectors were expanded: the expanded supergraph, and the names of
    /// the connector services with the subgraphs they belong to.
    Expanded { raw_sdl: String, names: Vec<(String, String)> },
    /// There were no connectors to expand.
    Unchanged,
    /// Satisfiability gave its hints, or its errors.
    SatisfiabilityChecked(Result<Vec<Issue>, Vec<Issue>>),
}

/// The phase to run next, with what it works on.
#[derive(Debug)]
pub enum PhaseAction {
    UpgradeSubgraphs(Vec<SubgraphDefinition>),
    ValidateSubgraphs(Vec<SubgraphDefinition>),
    ValidateConnectors(Vec<SubgraphDefinition>),
    CheckOverrides,
    MergeSubgraphs(Vec<SubgraphDefinition>),
    ExpandConnectors(String),
    ValidateSatisfiability(String),
}

/// The next phase, or the result of the whole composition.
#[derive(Debug)]
pub enum PhaseStep {
    Next(PhaseStage, PhaseAction),
    Finished(Result<PluginResult, Vec<Issue>>),
}

/// Whether an event is what the stage waits for.
pub open spec fn phase_expects(stage: PhaseStage, event: PhaseEvent) -> bool {
    match stage {
        PhaseStage::Upgrading => event is Upgraded,
        PhaseStage::ValidatingSubgraphs => event is SubgraphsValidated,
        PhaseStage::ValidatingConnectors => event is ConnectorsValidated,
        PhaseStage::CheckingOverrides { .. } => event is OverridesChecked,
        PhaseStage::Merging { .. } => event is Merged,
        PhaseStage::Expanding { .. } => event is ExpansionFailed || event is Expanded
            || event is Unchanged,
        PhaseStage::Satisfying { .. } => event is SatisfiabilityChecked,
    }
}

/// The order of the phases: each step moves to a later one or finishes.
pub open spec fn phase_rank(s: PhaseStage) -> int {
    match s {
        PhaseStage::Upgrading => 0,
        PhaseStage::ValidatingSubgraphs => 1,
        PhaseStage::ValidatingConnectors => 2,
        PhaseStage::CheckingOverrides { .. } => 3,
        PhaseStage::Merging { .. } => 4,
        PhaseStage::Expanding { .. } => 5,
        PhaseStage::Satisfying { .. } => 6,
    }
}

/// Whether a step finishes with exactly these issues as the failure.
pub open spec fn fails_with(r: PhaseStep, issues: Seq<Issue>) -> bool {
    r matches PhaseStep::Finished(Err(v)) && v@ == issues
}

/// Whether `pr` is the result of a composition that passed: the schema,
/// the connector hints as messages, then the other hints with connector
/// service names replaced, as messages.
pub open spec fn is_composed(
    pr: PluginResult,
    supergraph_sdl: String,
    connector_hints: Seq<Issue>,
    hints: Seq<Issue>,
    names: Seq<(Seq<char>, Seq<char>)>,
) -> bool {
    &&& pr.result_of() == Ok::<String, PluginFailureReason>(supergraph_sdl)
    &&& pr.messages_of().len() == connector_hints.len() + hints.len()
    &&& forall|i: int|
        0 <= i < connector_hints.len() ==> is_message_of_issue(
            connector_hints[i],
            #[trigger] pr.messages_of()[i],
        )
    &&& forall|i: int|
        0 <= i < hints.len() ==> is_message_of_sanitized(
            hints[i],
            #[trigger] pr.messages_of()[connector_hints.len() + i],
            names,
        )
}

/// The first phase of a composition in granular phases: upgrade the
/// subgraphs.
pub fn phases_begin(subgraph_definitions: Vec<SubgraphDefinition>) -> (r: PhaseStep)
    ensures
        r matches PhaseStep::Next(PhaseStage::Upgrading, PhaseAction::UpgradeSubgraphs(defs))
            && defs@ == subgraph_definitions@,
{
    PhaseStep::Next(PhaseStage::Upgrading, PhaseAction::UpgradeSubgraphs(subgraph_definitions))
}

/// The next phase of a composition in granular phases, from the stage and
/// what came of the phase it waited for. The first phase that fails gives
/// the result: its issues. Upgraded subgraphs are validated, validated ones
/// have their connectors validated, and the subgraphs as that left them are
/// merged once no override errs. The merged supergraph has its connectors
/// expanded; satisfiability is checked on the expanded supergraph, or on
/// the merged one when there was nothing to expand. When it passes, the
/// result is the merged supergraph with the connector hints (only when
/// connectors were expanded), then the hints of merging and satisfiability,
/// with connector service names replaced; when it fails, its errors with
/// those names replaced.
pub fn phase_step(stage: PhaseStage, event: PhaseEvent) -> (r: PhaseStep)
    requires
        phase_expects(stage, event),
    ensures
        r matches PhaseStep::Next(next, _) ==> phase_rank(next) > phase_rank(stage),
        match event {
            PhaseEvent::Upgraded(Err(issues)) => fails_with(r, issues@),
            PhaseEvent::Upgraded(Ok(defs)) => r matches PhaseStep::Next(
                PhaseStage::ValidatingSubgraphs,
                PhaseAction::ValidateSubgraphs(d),
            ) && d@ == defs@,
            PhaseEvent::SubgraphsValidated(Err(issues)) => fails_with(r, issues@),
            PhaseEvent::SubgraphsValidated(Ok(defs)) => r matches PhaseStep::Next(
                PhaseStage::ValidatingConnectors,
                PhaseAction::ValidateConnectors(d),
            ) && d@ == defs@,
            PhaseEvent::ConnectorsValidated(Err(issues)) => fails_with(r, issues@),
            PhaseEvent::ConnectorsValidated(Ok((defs, hints))) => r matches PhaseStep::Next(
                PhaseStage::CheckingOverrides { connected, connector_hints },
                PhaseAction::CheckOverrides,
            ) && connected@ == defs@ && connector_hints@ == hints@,
            PhaseEvent::OverridesChecked(errors) => if errors@.len() > 0 {
                fails_with(r, errors@)
            } else {
                r matches PhaseStep::Next(
                    PhaseStage::Merging { connector_hints },
                    PhaseAction::MergeSubgraphs(d),
                ) && d@ == stage->connected@ && connector_hints@ == stage->CheckingOverrides_connector_hints@
            },
            PhaseEvent::Merged(Err(issues)) => fails_with(r, issues@),
            PhaseEvent::Merged(Ok((sdl, hints))) => r matches PhaseStep::Next(
                PhaseStage::Expanding { supergraph_sdl, connector_hints, merge_hints },
                PhaseAction::ExpandConnectors(e),
            ) && supergraph_sdl == sdl && e == sdl && merge_hints@ == hints@ && connector_hints@
                == stage->Merging_connector_hints@,
            PhaseEvent::ExpansionFailed(issue) => fails_with(r, seq![issue]),
            PhaseEvent::Expanded { raw_sdl, names } => r matches PhaseStep::Next(
                PhaseStage::Satisfying { supergraph_sdl, connector_hints, merge_hints, names: n },
                PhaseAction::ValidateSatisfiability(checked),
            ) && checked == raw_sdl && supergraph_sdl == stage->Expanding_supergraph_sdl
                && connector_hints@ == stage->Expanding_connector_hints@ && merge_hints@
                == stage->Expanding_merge_hints@ && (n matches Some(v) && v@ == names@),
            PhaseEvent::Unchanged => r matches PhaseStep::Next(
                PhaseStage::Satisfying { supergraph_sdl, connector_hints, merge_hints, names: n },
                PhaseAction::ValidateSatisfiability(checked),
            ) && checked == stage->Expanding_supergraph_sdl && supergraph_sdl
                == stage->Expanding_supergraph_sdl && connector_hints@
                == stage->Expanding_connector_hints@ && merge_hints@ == stage->Expanding_merge_hints@
                && n is None,
            PhaseEvent::SatisfiabilityChecked(Ok(found)) => r matches PhaseStep::Finished(Ok(pr))
                && match stage->names {
                Some(n) => is_composed(
                    pr,
                    stage->Satisfying_supergraph_sdl,
                    stage->Satisfying_connector_hints@,
                    stage->Satisfying_merge_hints@ + found@,
                    name_pairs(n@),
                ),
                None => is_composed(
                    pr,
                    stage->Satisfying_supergraph_sdl,
                    Seq::empty(),
                    stage->Satisfying_merge_hints@ + found@,
                    Seq::empty(),
                ),
            },
            PhaseEvent::SatisfiabilityChecked(Err(errors)) => match stage->names {
                Some(n) => r matches PhaseStep::Finished(Err(v)) && v@.len() == errors@.len()
                    && forall|i: int|
                    0 <= i < errors@.len() ==> is_sanitized_issue(
                        errors@[i],
                        #[trigger] v@[i],
                        name_pairs(n@),
                    ),
                None => fails_with(r, errors@),
            },
        },
{
    match event {
        PhaseEvent::Upgraded(Err(issues)) => PhaseStep::Finished(Err(issues)),
        PhaseEvent::Upgraded(Ok(defs)) => PhaseStep::Next(
            PhaseStage::ValidatingSubgraphs,
            PhaseAction::ValidateSubgraphs(defs),
        ),
        PhaseEvent::SubgraphsValidated(Err(issues)) => PhaseStep::Finished(Err(issues)),
        PhaseEvent::SubgraphsValidated(Ok(defs)) => PhaseStep::Next(
            PhaseStage::ValidatingConnectors,
            PhaseAction::ValidateConnectors(defs),
        ),
        PhaseEvent::ConnectorsValidated(Err(issues)) => PhaseStep::Finished(Err(issues)),
        PhaseEvent::ConnectorsValidated(Ok((connected, connector_hints))) => PhaseStep::Next(
            PhaseStage::CheckingOverrides { connected, connector_hints },
            PhaseAction::CheckOverrides,
        ),
        PhaseEvent::OverridesChecked(errors) => {
            if errors.len() > 0 {
                PhaseStep::Finished(Err(errors))
            } else {
                match stage {
                    PhaseStage::CheckingOverrides { connected, connector_hints } => PhaseStep::Next(
                        PhaseStage::Merging { connector_hints },
                        PhaseAction::MergeSubgraphs(connected),
                    ),
                    _ => PhaseStep::Finished(Err(errors)),
                }
            }
        },
        PhaseEvent::Merged(Err(issues)) => PhaseStep::Finished(Err(issues)),
        PhaseEvent::Merged(Ok((supergraph_sdl, merge_hints))) => match stage {
            PhaseStage::Merging { connector_hints } => {
                let e = supergraph_sdl.clone();
                PhaseStep::Next(
                    PhaseStage::Expanding { supergraph_sdl, connector_hints, merge_hints },
                    PhaseAction::ExpandConnectors(e),
                )
            },
            _ => PhaseStep::Finished(Err(merge_hints)),
        },
        PhaseEvent::ExpansionFailed(issue) => {
            let mut issues: Vec<Issue> = Vec::new();
            issues.push(issue);
            PhaseStep::Finished(Err(issues))
        },
        PhaseEvent::Expanded { raw_sdl, names } => match stage {
            PhaseStage::Expanding { supergraph_sdl, connector_hints, merge_hints } => PhaseStep::Next(
                PhaseStage::Satisfying {
                    supergraph_sdl,
                    connector_hints,
                    merge_hints,
                    names: Some(names),
                },
                PhaseAction::ValidateSatisfiability(raw_sdl),
            ),
            _ => PhaseStep::Finished(Err(Vec::new())),
        },
        PhaseEvent::Unchanged => match stage {
            PhaseStage::Expanding { supergraph_sdl, connector_hints, merge_hints } => {
                let checked = supergraph_sdl.clone();
                PhaseStep::Next(
                    PhaseStage::Satisfying { supergraph_sdl, connector_hints, merge_hints, names: None },
                    PhaseAction::ValidateSatisfiability(checked),
                )
            },
            _ => PhaseStep::Finished(Err(Vec::new())),
        },
        PhaseEvent::SatisfiabilityChecked(result) => match stage {
            PhaseStage::Satisfying { supergraph_sdl, connector_hints, merge_hints, names } => {
                match result {
                    Ok(found) => {
                        let mut hints = merge_hints;
                        let mut found = found;
                        hints.append(&mut found);
                        match names {
                            Some(n) => PhaseStep::Finished(
                                Ok(composed_plugin_result(supergraph_sdl, connector_hints, hints, &n)),
                            ),
                            None => {
                                let no_names: Vec<(String, String)> = Vec::new();
                                assert(name_pairs(no_names@) =~= Seq::<(Seq<char>, Seq<char>)>::empty());
                                PhaseStep::Finished(
                                    Ok(composed_plugin_result(supergraph_sdl, Vec::new(), hints, &no_names)),
                                )
                            },
                        }
                    },
                    Err(errors) => match names {
                        Some(n) => PhaseStep::Finished(Err(sanitize_all(errors, &n))),
                        None => PhaseStep::Finished(Err(errors)),
                    },
                }
            },
            _ => PhaseStep::Finished(Err(Vec::new())),
        },
    }
}

} // verus!
