//! The decisions of hybrid composition, in which JavaScript composes and
//! this side validates connectors and overrides around it.
use vstd::prelude::*;

use crate::build_plugin::build_message::BuildMessage;
use crate::build_plugin::plugin_result::{PluginFailureReason, PluginResult};
use crate::composition::{is_message_of_issue, issues_to_messages, Issue, Severity, SubgraphLocation};
use crate::text::{owned, replace_seq, replace_text, same_text};

verus! {

/// The errors among issues, in order.
pub open spec fn errors_of(issues: Seq<Issue>) -> Seq<Issue> {
    issues.filter(|i: Issue| i.severity == Severity::Error)
}

/// The warnings among issues, in order.
pub open spec fn warnings_of(issues: Seq<Issue>) -> Seq<Issue> {
    issues.filter(|i: Issue| i.severity == Severity::Warning)
}

/// Every issue is either an error or a warning: splitting issues by
/// severity loses none and duplicates none.
pub proof fn law_issues_split_by_severity(issues: Seq<Issue>)
    ensures
        errors_of(issues).len() + warnings_of(issues).len() == issues.len(),
    decreases issues.len(),
{
    reveal(Seq::filter);
    if issues.len() > 0 {
        law_issues_split_by_severity(issues.drop_last());
    }
}

/// What the validation of connector subgraphs answers: its errors when it
/// found any, else its warnings as hints.
pub fn connector_validation_outcome(issues: Vec<Issue>) -> (r: Result<Vec<Issue>, Vec<Issue>>)
    ensures
        errors_of(issues@).len() > 0 ==> (r matches Err(e) && e@ == errors_of(issues@)),
        errors_of(issues@).len() == 0 ==> (r matches Ok(h) && h@ == warnings_of(issues@)),
{
    let ghost all = issues@;
    let mut rest = crate::keyed::reversed(issues);
    let mut errors: Vec<Issue> = Vec::new();
    let mut hints: Vec<Issue> = Vec::new();
    while rest.len() > 0
        invariant
            rest@.len() <= all.len(),
            forall|k: int| 0 <= k < rest@.len() ==> rest@[k] == all[all.len() - 1 - k],
            errors@ == errors_of(all.subrange(0, all.len() - rest@.len())),
            hints@ == warnings_of(all.subrange(0, all.len() - rest@.len())),
        decreases rest.len(),
    {
        let ghost done = (all.len() - rest@.len()) as int;
        let issue = rest.pop().unwrap();
        proof {
            assert(all.subrange(0, done + 1).drop_last() =~= all.subrange(0, done));
            assert(issue == all[done]);
            reveal(Seq::filter);
        }
        match issue.severity {
            Severity::Error => {
                errors.push(issue);
            },
            Severity::Warning => {
                hints.push(issue);
            },
        }
    }
    assert(all.subrange(0, all.len() as int) =~= all);
    if errors.len() > 0 {
        Err(errors)
    } else {
        Ok(hints)
    }
}

/// Whether a directive is the override directive, under its plain or its
/// namespaced name.
pub fn is_override_directive(name: &str) -> (r: bool)
    ensures
        r == (name@ == "override"@ || name@ == "federation__override"@),
{
    same_text(name, "override") || same_text(name, "federation__override")
}

/// The message of an override of a connector-enabled subgraph.
pub open spec fn override_message(field: Seq<char>, subgraph: Seq<char>, overridden: Seq<char>) -> Seq<
    char,
> {
    "Field \""@ + field + "\" on subgraph \""@ + subgraph
        + "\" is trying to override connector-enabled subgraph \""@ + overridden
        + "\", which is not yet supported. See https://go.apollo.dev/connectors/limitations#override-is-partially-unsupported"@
}

/// A field that carries an override directive: the field (`Type.field`),
/// its subgraph, the subgraph it overrides (when the directive names one)
/// and where the directive stands.
#[derive(Debug)]
pub struct OverrideUse {
    pub field: String,
    pub subgraph: String,
    pub from: Option<String>,
    pub location: SubgraphLocation,
}

/// Whether an override takes a field from a connector-enabled subgraph.
pub open spec fn overrides_connector(u: OverrideUse, connector_subgraphs: Seq<Seq<char>>) -> bool {
    u.from matches Some(f) && connector_subgraphs.contains(f@)
}

/// Whether an issue is the error reported for an override of a
/// connector-enabled subgraph.
pub open spec fn is_override_issue(issue: Issue, u: OverrideUse) -> bool {
    &&& issue.severity == Severity::Error
    &&& issue.code@ == "OVERRIDE_ON_CONNECTOR"@
    &&& issue.message@ == override_message(u.field@, u.subgraph@, u.from.unwrap()@)
    &&& issue.locations@.len() == 1
    &&& issue.locations@[0].subgraph == u.from
    &&& issue.locations@[0].range == u.location.range
}

/// The error for fields that override a connector-enabled subgraph: one
/// for each such field, in order, with the overridden subgraph as its
/// location; overrides that name no subgraph are left to later checks.
pub fn override_issues(uses: Vec<OverrideUse>, connector_subgraphs: &Vec<String>) -> (r: Vec<Issue>)
    ensures
        r@.len() == uses@.filter(
            |u: OverrideUse| overrides_connector(u, crate::text::views(connector_subgraphs@)),
        ).len(),
        forall|k: int|
            0 <= k < r@.len() ==> is_override_issue(
                #[trigger] r@[k],
                uses@.filter(
                    |u: OverrideUse| overrides_connector(u, crate::text::views(connector_subgraphs@)),
                )[k],
            ),
{
    let ghost names = crate::text::views(connector_subgraphs@);
    let ghost all = uses@;
    let mut rest = crate::keyed::reversed(uses);
    let mut r: Vec<Issue> = Vec::new();
    while rest.len() > 0
        invariant
            rest@.len() <= all.len(),
            names == crate::text::views(connector_subgraphs@),
            forall|k: int| 0 <= k < rest@.len() ==> rest@[k] == all[all.len() - 1 - k],
            r@.len() == all.subrange(0, all.len() - rest@.len()).filter(
                |u: OverrideUse| overrides_connector(u, names),
            ).len(),
            forall|k: int|
                0 <= k < r@.len() ==> is_override_issue(
                    #[trigger] r@[k],
                    all.subrange(0, all.len() - rest@.len()).filter(
                        |u: OverrideUse| overrides_connector(u, names),
                    )[k],
                ),
        decreases rest.len(),
    {
        let ghost done = (all.len() - rest@.len()) as int;
        let u = rest.pop().unwrap();
        proof {
            assert(all.subrange(0, done + 1).drop_last() =~= all.subrange(0, done));
            assert(u == all[done]);
            reveal(Seq::filter);
        }
        let hit = match &u.from {
            Some(f) => crate::xtask::packages::is_listed(connector_subgraphs, f.as_str()),
            None => false,
        };
        proof {
            if u.from is Some {
                let f = u.from.unwrap()@;
                if hit {
                    let i = choose|i: int| 0 <= i < names.len() && names[i] == f;
                    assert(names.contains(f));
                } else {
                    if names.contains(f) {
                        let i = choose|i: int| 0 <= i < names.len() && names[i] == f;
                        assert(crate::xtask::packages::listed(names, f));
                    }
                }
            }
        }
        if hit {
            let ghost used = u;
            let from = match u.from {
                Some(f) => f,
                None => String::new(),
            };
            let mut message = owned("Field \"");
            message.append(u.field.as_str());
            message.append("\" on subgraph \"");
            message.append(u.subgraph.as_str());
            message.append("\" is trying to override connector-enabled subgraph \"");
            message.append(from.as_str());
            message.append(
                "\", which is not yet supported. See https://go.apollo.dev/connectors/limitations#override-is-partially-unsupported",
            );
            let mut locations: Vec<SubgraphLocation> = Vec::new();
            locations.push(SubgraphLocation { subgraph: Some(from), range: u.location.range });
            let issue = Issue {
                code: owned("OVERRIDE_ON_CONNECTOR"),
                message,
                locations,
                severity: Severity::Error,
            };
            assert(is_override_issue(issue, used));
            r.push(issue);
        }
    }
    assert(all.subrange(0, all.len() as int) =~= all);
    r
}

/// The number of errors that `override_issues` reports for a list of
/// override uses.
pub open spec fn override_issue_count(uses: Seq<OverrideUse>, connector_subgraphs: Seq<Seq<char>>) -> nat {
    uses.filter(|u: OverrideUse| overrides_connector(u, connector_subgraphs)).len()
}

/// One use gives one error when it overrides a connector-enabled
/// subgraph, none otherwise.
proof fn lemma_single_override_count(u: OverrideUse, connector_subgraphs: Seq<Seq<char>>)
    ensures
        override_issue_count(seq![u], connector_subgraphs) == if overrides_connector(
            u,
            connector_subgraphs,
        ) {
            1nat
        } else {
            0nat
        },
{
    reveal(Seq::filter);
    let s = seq![u];
    assert(s.drop_last() =~= Seq::<OverrideUse>::empty());
    assert(s.last() == u);
    assert(Seq::<OverrideUse>::empty().filter(
        |v: OverrideUse| overrides_connector(v, connector_subgraphs),
    ).len() == 0);
}

/// Only overriding a field from a connector-enabled subgraph is refused. A
/// use that names the subgraph it overrides gives one error exactly when
/// that subgraph is connector-enabled, and a use that names none gives no
/// error. Whether the overriding subgraph has connectors, or what it is
/// called, makes no difference.
pub proof fn law_override_refused_only_from_connectors(
    u: OverrideUse,
    connector_subgraphs: Seq<Seq<char>>,
    other: String,
)
    ensures
        u.from is None ==> override_issue_count(seq![u], connector_subgraphs) == 0,
        u.from matches Some(f) ==> (override_issue_count(seq![u], connector_subgraphs) == 1
            <==> connector_subgraphs.contains(f@)),
        u.from matches Some(f) ==> (!connector_subgraphs.contains(f@) ==> override_issue_count(
            seq![u],
            connector_subgraphs.push(u.subgraph@),
        ) == 0 || f@ == u.subgraph@),
        override_issue_count(seq![u], connector_subgraphs) == override_issue_count(
            seq![OverrideUse { field: u.field, subgraph: other, from: u.from, location: u.location }],
            connector_subgraphs,
        ),
{
    let w = OverrideUse { field: u.field, subgraph: other, from: u.from, location: u.location };
    lemma_single_override_count(u, connector_subgraphs);
    lemma_single_override_count(w, connector_subgraphs);
    lemma_single_override_count(u, connector_subgraphs.push(u.subgraph@));
    if u.from is Some {
        let f = u.from.unwrap();
        let more = connector_subgraphs.push(u.subgraph@);
        if !connector_subgraphs.contains(f@) && f@ != u.subgraph@ {
            if more.contains(f@) {
                let i = choose|i: int| 0 <= i < more.len() && more[i] == f@;
                if i < connector_subgraphs.len() {
                    assert(connector_subgraphs[i] == f@);
                }
            }
        }
    }
}

/// The issue reported when connectors cannot be expanded.
pub fn internal_error_issue(error: &str) -> (r: Issue)
    ensures
        r.code@ == "INTERNAL_ERROR"@,
        r.message@ == "Composition failed due to an internal error, please report this: "@ + error@,
        r.locations@.len() == 0,
        r.severity == Severity::Error,
{
    let mut message = owned("Composition failed due to an internal error, please report this: ");
    message.append(error);
    Issue {
        code: owned("INTERNAL_ERROR"),
        message,
        locations: Vec::new(),
        severity: Severity::Error,
    }
}

/// A message with the names that connectors gave their services replaced,
/// one pair after the other, by the names of the subgraphs they belong to.
pub open spec fn sanitized(message: Seq<char>, names: Seq<(Seq<char>, Seq<char>)>) -> Seq<char>
    decreases names.len(),
{
    if names.len() == 0 {
        message
    } else {
        replace_seq(sanitized(message, names.drop_last()), names.last().0, names.last().1)
    }
}

/// Replaces, in an issue's message, the names of connector services by the
/// names of their subgraphs.
pub fn sanitize_connectors_issue(issue: &mut Issue, names: &Vec<(String, String)>)
    ensures
        final(issue).message@ == sanitized(
            old(issue).message@,
            names@.map_values(|p: (String, String)| (p.0@, p.1@)),
        ),
        final(issue).code == old(issue).code,
        final(issue).locations == old(issue).locations,
        final(issue).severity == old(issue).severity,
{
    let ghost pairs = names@.map_values(|p: (String, String)| (p.0@, p.1@));
    let ghost start = issue.message@;
    let mut i: usize = 0;
    while i < names.len()
        invariant
            i <= names.len(),
            pairs == names@.map_values(|p: (String, String)| (p.0@, p.1@)),
            issue.message@ == sanitized(start, pairs.subrange(0, i as int)),
            issue.code == old(issue).code,
            issue.locations == old(issue).locations,
            issue.severity == old(issue).severity,
        decreases names.len() - i,
    {
        let replaced = replace_text(issue.message.as_str(), names[i].0.as_str(), names[i].1.as_str());
        issue.message = replaced;
        assert(pairs.subrange(0, i + 1).drop_last() =~= pairs.subrange(0, i as int));
        i = i + 1;
    }
    assert(pairs.subrange(0, names.len() as int) =~= pairs);
}

/// Whether `after` is `before` with its message sanitized.
pub open spec fn is_sanitized_issue(
    before: Issue,
    after: Issue,
    names: Seq<(Seq<char>, Seq<char>)>,
) -> bool {
    &&& after.message@ == sanitized(before.message@, names)
    &&& after.code == before.code
    &&& after.locations == before.locations
    &&& after.severity == before.severity
}

/// The issues with the names of connector services replaced in each
/// message, in order.
pub fn sanitize_all(issues: Vec<Issue>, names: &Vec<(String, String)>) -> (r: Vec<Issue>)
    ensures
        r@.len() == issues@.len(),
        forall|i: int|
            0 <= i < issues@.len() ==> is_sanitized_issue(
                issues@[i],
                #[trigger] r@[i],
                names@.map_values(|p: (String, String)| (p.0@, p.1@)),
            ),
{
    let ghost pairs = names@.map_values(|p: (String, String)| (p.0@, p.1@));
    let ghost all = issues@;
    let mut rest = crate::keyed::reversed(issues);
    let mut r: Vec<Issue> = Vec::new();
    while rest.len() > 0
        invariant
            pairs == names@.map_values(|p: (String, String)| (p.0@, p.1@)),
            rest@.len() <= all.len(),
            forall|k: int| 0 <= k < rest@.len() ==> rest@[k] == all[all.len() - 1 - k],
            r@.len() == all.len() - rest@.len(),
            forall|k: int| 0 <= k < r@.len() ==> is_sanitized_issue(all[k], #[trigger] r@[k], pairs),
        decreases rest.len(),
    {
        let mut issue = rest.pop().unwrap();
        sanitize_connectors_issue(&mut issue, names);
        r.push(issue);
    }
    r
}

/// Whether `m` is the build message of `issue` once its message is
/// sanitized.
pub open spec fn is_message_of_sanitized(
    issue: Issue,
    m: BuildMessage,
    names: Seq<(Seq<char>, Seq<char>)>,
) -> bool {
    &&& m.level == crate::composition::severity_level(issue.severity)
    &&& m.message@ == crate::composition::prepended_message(
        sanitized(issue.message@, names),
        issue.locations@,
    )
    &&& m.code matches Some(c) && c@ == issue.code@
    &&& m.locations@.len() == issue.locations@.len()
    &&& forall|i: int|
        0 <= i < issue.locations@.len() ==> crate::composition::is_message_location_of(
            issue.locations@[i],
            #[trigger] m.locations@[i],
        )
    &&& m.schema_coordinate.is_none()
    &&& m.step.is_none()
    &&& m.other@.len() == 0
}

/// The result of a composition that passed: the composed schema, with the
/// hints of connector validation as messages, then the hints of merging and
/// satisfiability, sanitized, as messages.
pub fn composed_plugin_result(
    supergraph_sdl: String,
    connector_hints: Vec<Issue>,
    composition_hints: Vec<Issue>,
    names: &Vec<(String, String)>,
) -> (r: PluginResult)
    ensures
        r.result_of() == Ok::<String, PluginFailureReason>(supergraph_sdl),
        r.messages_of().len() == connector_hints@.len() + composition_hints@.len(),
        forall|i: int|
            0 <= i < connector_hints@.len() ==> is_message_of_issue(
                connector_hints@[i],
                #[trigger] r.messages_of()[i],
            ),
        forall|i: int|
            0 <= i < composition_hints@.len() ==> is_message_of_sanitized(
                composition_hints@[i],
                #[trigger] r.messages_of()[connector_hints@.len() + i],
                names@.map_values(|p: (String, String)| (p.0@, p.1@)),
            ),
        r.other_of()@.len() == 0,
{
    let first = issues_to_messages(connector_hints);
    let sanitized_hints = sanitize_all(composition_hints, names);
    let ghost s = sanitized_hints@;
    let second = issues_to_messages(sanitized_hints);
    let mut messages = first;
    let ghost n = messages@.len();
    let mut rest = crate::keyed::reversed(second);
    let ghost rev = rest@;
    while rest.len() > 0
        invariant
            rest@.len() <= rev.len(),
            forall|k: int| 0 <= k < rest@.len() ==> rest@[k] == rev[k],
            messages@.len() == n + rev.len() - rest@.len(),
            forall|k: int| 0 <= k < n ==> messages@[k] == first@[k],
            forall|k: int| 0 <= k < rev.len() - rest@.len() ==> messages@[n + k] == second@[k],
            rev.len() == second@.len(),
            forall|k: int| 0 <= k < rev.len() ==> rev[k] == second@[second@.len() - 1 - k],
            n == first@.len(),
        decreases rest.len(),
    {
        let ghost before_len = rest@.len();
        let m = rest.pop().unwrap();
        assert(m == rev[before_len - 1]);
        assert(m == second@[second@.len() - before_len]);
        messages.push(m);
    }
    proof {
        assert forall|i: int| 0 <= i < composition_hints@.len() implies is_message_of_sanitized(
            composition_hints@[i],
            #[trigger] messages@[first@.len() + i],
            names@.map_values(|p: (String, String)| (p.0@, p.1@)),
        ) by {
            assert(is_sanitized_issue(
                composition_hints@[i],
                s[i],
                names@.map_values(|p: (String, String)| (p.0@, p.1@)),
            ));
            assert(messages@[first@.len() + i] == second@[i]);
            assert(is_message_of_issue(s[i], second@[i]));
        }
    }
    PluginResult::new(Ok(supergraph_sdl), messages)
}

/// The issues of a satisfiability check: its hints when it passed, its
/// errors otherwise.
pub fn satisfiability_result_to_issues(result: Result<Vec<Issue>, Vec<Issue>>) -> (r: Vec<Issue>)
    ensures
        r@ == match result {
            Ok(h) => h@,
            Err(e) => e@,
        },
{
    match result {
        Ok(hints) => hints,
        Err(errors) => errors,
    }
}

/// The issue of a hint that merging or satisfiability gave: a warning with
/// its code and message, and no locations.
pub fn hint_issue(code: String, message: String) -> (r: Issue)
    ensures
        r.code == code,
        r.message == message,
        r.severity == Severity::Warning,
        r.locations@.len() == 0,
{
    Issue { code, message, locations: Vec::new(), severity: Severity::Warning }
}

/// A successfully composed supergraph, with the issues that should be
/// addressed.
#[derive(Debug)]
pub struct PartialSuccess {
    pub supergraph_sdl: String,
    pub issues: Vec<Issue>,
}

} // verus!
