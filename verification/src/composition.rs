//! Issues that composition reports, and how they become build messages.
use vstd::prelude::*;

use std::ops::Range;

use crate::build::error::BuildError;
use crate::build::hint::{BuildErrorNode, BuildHint};
use crate::build_plugin::build_message::{
    BuildMessage, BuildMessageLevel, BuildMessageLocation, BuildMessagePoint,
};
use crate::keyed::reversed;
use crate::text::{owned, same_text};

verus! {

/// How serious an issue is: errors block composition, warnings do not.
#[derive(Debug, PartialEq, Eq, Structural)]
pub enum Severity {
    Error,
    Warning,
}

/// The level of the build message that an issue of a severity becomes.
pub open spec fn severity_level(severity: Severity) -> BuildMessageLevel {
    match severity {
        Severity::Error => BuildMessageLevel::Error,
        Severity::Warning => BuildMessageLevel::Warn,
    }
}

impl Severity {
    /// The level of the build message that an issue of this severity
    /// becomes: errors stay errors, warnings become warnings.
    pub fn level(&self) -> (r: BuildMessageLevel)
        ensures
            r == severity_level(*self),
    {
        match self {
            Severity::Error => BuildMessageLevel::Error,
            Severity::Warning => BuildMessageLevel::Warn,
        }
    }
}

/// A line and a column in a schema document.
#[derive(Debug)]
pub struct LineColumn {
    pub line: usize,
    pub column: usize,
}

/// A place in a subgraph's schema.
#[derive(Debug)]
pub struct SubgraphLocation {
    /// The subgraph's name; older composition errors do not give it.
    pub subgraph: Option<String>,
    /// Where in the subgraph's schema, when known.
    pub range: Option<Range<LineColumn>>,
}

/// Some issue the user should address.
#[derive(Debug)]
pub struct Issue {
    pub code: String,
    pub message: String,
    pub locations: Vec<SubgraphLocation>,
    pub severity: Severity,
}

/// Whether a location names the subgraph `n`.
pub open spec fn names_subgraph(location: SubgraphLocation, n: Seq<char>) -> bool {
    location.subgraph matches Some(s) && s@ == n
}

/// Whether a location names a subgraph other than `n`.
pub open spec fn names_other_subgraph(location: SubgraphLocation, n: Seq<char>) -> bool {
    location.subgraph matches Some(s) && s@ != n
}

/// The names of the subgraphs that the locations name, each once.
pub open spec fn subgraph_names(locations: Seq<SubgraphLocation>) -> Set<Seq<char>> {
    Set::new(
        |n: Seq<char>| exists|i: int| 0 <= i < locations.len() && #[trigger] names_subgraph(locations[i], n),
    )
}

/// Whether the locations name exactly one subgraph (perhaps more than once).
pub open spec fn names_one_subgraph(locations: Seq<SubgraphLocation>) -> bool {
    exists|n: Seq<char>| subgraph_names(locations) == set![n]
}

/// The one subgraph that the locations name, when they name exactly one.
pub open spec fn the_subgraph(locations: Seq<SubgraphLocation>) -> Seq<char> {
    choose|n: Seq<char>| subgraph_names(locations) == set![n]
}

/// A message as it is reported: one that does not start with `[` and
/// whose locations name exactly one subgraph gets `[name] ` in front;
/// any other stays as it is.
pub open spec fn prepended_message(message: Seq<char>, locations: Seq<SubgraphLocation>) -> Seq<
    char,
> {
    if message.len() > 0 && message[0] == '[' {
        message
    } else if names_one_subgraph(locations) {
        "["@ + the_subgraph(locations) + "] "@ + message
    } else {
        message
    }
}

/// Puts `[subgraph] ` in front of a message when its locations name
/// exactly one subgraph and the message does not already start with `[`.
pub fn maybe_prepend_subgraph(message: &str, locations: &Vec<SubgraphLocation>) -> (r: String)
    ensures
        r@ == prepended_message(message@, locations@),
{
    let chars = crate::text::chars_of(message);
    if chars.len() > 0 && chars[0] == '[' {
        return owned(message);
    }
    let mut first: Option<&String> = None;
    let mut several = false;
    let mut i: usize = 0;
    while i < locations.len()
        invariant
            i <= locations.len(),
            first.is_none() ==> forall|j: int| 0 <= j < i ==> (#[trigger] locations@[j]).subgraph.is_none(),
            first matches Some(f) ==> exists|j: int| 0 <= j < i && #[trigger] names_subgraph(locations@[j], f@),
            first.is_none() ==> !several,
            first matches Some(f) ==> (several <==> exists|j: int|
                0 <= j < i && #[trigger] names_other_subgraph(locations@[j], f@)),
        decreases locations.len() - i,
    {
        let ghost was = first;
        let ghost witness: int = if first is Some {
            choose|j: int| 0 <= j < i && #[trigger] names_subgraph(locations@[j], first.unwrap()@)
        } else {
            0
        };
        match &locations[i].subgraph {
            Some(s) => {
                match first {
                    None => {
                        first = Some(s);
                        proof {
                            assert(names_subgraph(locations@[i as int], s@));
                            assert forall|j: int| 0 <= j < i + 1 implies !#[trigger] names_other_subgraph(
                                locations@[j],
                                s@,
                            ) by {
                                if j < i {
                                    assert(locations@[j].subgraph.is_none());
                                }
                            }
                        }
                    },
                    Some(f) => {
                        if !same_text(f.as_str(), s.as_str()) {
                            several = true;
                            proof {
                                assert(names_other_subgraph(locations@[i as int], f@));
                            }
                        } else {
                            proof {
                                assert(!names_other_subgraph(locations@[i as int], f@));
                            }
                        }
                    },
                }
            },
            None => {
                proof {
                    if first is Some {
                        assert(!names_other_subgraph(locations@[i as int], first.unwrap()@));
                    }
                }
            },
        }
        proof {
            if first is Some {
                let j0: int = if was is Some {
                    witness
                } else {
                    i as int
                };
                assert(0 <= j0 < i + 1);
                assert(names_subgraph(locations@[j0], first.unwrap()@));
                assert(exists|j: int| 0 <= j < i + 1 && #[trigger] names_subgraph(locations@[j], first.unwrap()@));
            }
        }
        i = i + 1;
    }
    let ghost names = subgraph_names(locations@);
    match first {
        Some(f) => {
            if !several {
                proof {
                    let w = choose|j: int| 0 <= j < i && #[trigger] names_subgraph(locations@[j], f@);
                    assert(names.contains(f@));
                    assert forall|n: Seq<char>| names.contains(n) implies n == f@ by {
                        let j = choose|j: int| 0 <= j < locations@.len() && #[trigger] names_subgraph(locations@[j], n);
                        if n != f@ {
                            assert(names_other_subgraph(locations@[j], f@));
                        }
                    }
                    assert(names =~= set![f@]);
                }
                let mut r = owned("[");
                r.append(f.as_str());
                r.append("] ");
                r.append(message);
                proof {
                    assert(names_one_subgraph(locations@));
                    assert(set![the_subgraph(locations@)] == set![f@]);
                    assert(set![the_subgraph(locations@)].contains(the_subgraph(locations@)));
                }
                r
            } else {
                proof {
                    let j = choose|j: int| 0 <= j < i && #[trigger] names_other_subgraph(locations@[j], f@);
                    let other = locations@[j].subgraph.unwrap()@;
                    assert(names_subgraph(locations@[j], other));
                    assert(names.contains(other));
                    let w = choose|j: int| 0 <= j < i && #[trigger] names_subgraph(locations@[j], f@);
                    assert(names.contains(f@));
                    if names_one_subgraph(locations@) {
                        let n = choose|n: Seq<char>| subgraph_names(locations@) == set![n];
                        assert(set![n].contains(other));
                        assert(set![n].contains(f@));
                    }
                }
                owned(message)
            }
        },
        None => {
            proof {
                if names_one_subgraph(locations@) {
                    let n = choose|n: Seq<char>| subgraph_names(locations@) == set![n];
                    assert(set![n].contains(n));
                    assert(names.contains(n));
                }
            }
            owned(message)
        },
    }
}

/// Putting the subgraph in front of a message twice is the same as doing it
/// once: a message that already starts with `[` is left as it is.
pub proof fn law_prepend_subgraph_idempotent(message: Seq<char>, locations: Seq<SubgraphLocation>)
    ensures
        prepended_message(prepended_message(message, locations), locations) == prepended_message(
            message,
            locations,
        ),
{
    reveal_strlit("[");
    let once = prepended_message(message, locations);
    if !(message.len() > 0 && message[0] == '[') && names_one_subgraph(locations) {
        assert(once[0] == '[');
    }
}

/// The point of a build message at a line and column.
pub open spec fn point_at(p: BuildMessagePoint, at: LineColumn) -> bool {
    p.line == Some(at.line) && p.column == Some(at.column) && p.start.is_none() && p.end.is_none()
}

/// Whether `m` is the build message location that `l` becomes: the same
/// subgraph, the range's two ends as its start and end points, and nothing
/// else.
pub open spec fn is_message_location_of(l: SubgraphLocation, m: BuildMessageLocation) -> bool {
    &&& m.subgraph == l.subgraph
    &&& m.source.is_none()
    &&& m.other@.len() == 0
    &&& match l.range {
        Some(range) => (m.start matches Some(s) && point_at(s, range.start)) && (m.end matches Some(
            e,
        ) && point_at(e, range.end)),
        None => m.start.is_none() && m.end.is_none(),
    }
}

/// Whether `l` is the location that a build message location `m` refers
/// to: the same subgraph, and a range when both points give a line and a
/// column.
pub open spec fn is_location_of(m: BuildMessageLocation, l: SubgraphLocation) -> bool {
    &&& l.subgraph == m.subgraph
    &&& match (m.start, m.end) {
        (Some(s), Some(e)) => match (s.line, s.column, e.line, e.column) {
            (Some(sl), Some(sc), Some(el), Some(ec)) => l.range == Some(
                Range { start: LineColumn { line: sl, column: sc }, end: LineColumn { line: el, column: ec } },
            ),
            _ => l.range.is_none(),
        },
        _ => l.range.is_none(),
    }
}

/// A location that is turned into a build message location and back is
/// the same: the same subgraph and the same range.
pub proof fn law_location_roundtrip(
    l: SubgraphLocation,
    m: BuildMessageLocation,
    back: SubgraphLocation,
)
    requires
        is_message_location_of(l, m),
        is_location_of(m, back),
    ensures
        back.subgraph == l.subgraph,
        back.range == l.range,
{
}

impl SubgraphLocation {
    /// The location as a build message location: the same subgraph, and
    /// the range's two ends as its start and end points.
    pub fn into_message_location(self) -> (r: BuildMessageLocation)
        ensures
            is_message_location_of(self, r),
    {
        let (start, end) = match &self.range {
            Some(range) => (
                Some(
                    BuildMessagePoint {
                        line: Some(range.start.line),
                        column: Some(range.start.column),
                        start: None,
                        end: None,
                    },
                ),
                Some(
                    BuildMessagePoint {
                        line: Some(range.end.line),
                        column: Some(range.end.column),
                        start: None,
                        end: None,
                    },
                ),
            ),
            None => (None, None),
        };
        BuildMessageLocation {
            subgraph: self.subgraph,
            start,
            end,
            source: None,
            other: String::new(),
        }
    }

    /// The location that a build message location refers to: the same
    /// subgraph, and a range when both points give a line and a column.
    pub fn from_message_location(location: BuildMessageLocation) -> (r: SubgraphLocation)
        ensures
            is_location_of(location, r),
    {
        let range = match (&location.start, &location.end) {
            (Some(s), Some(e)) => match (s.line, s.column, e.line, e.column) {
                (Some(sl), Some(sc), Some(el), Some(ec)) => Some(
                    Range {
                        start: LineColumn { line: sl, column: sc },
                        end: LineColumn { line: el, column: ec },
                    },
                ),
                _ => None,
            },
            _ => None,
        };
        SubgraphLocation { subgraph: location.subgraph, range }
    }
}

/// Whether `l` is the place a hint's node refers to: the same subgraph, and
/// a range when both ends give a line and a column.
pub open spec fn is_node_location(node: BuildErrorNode, l: SubgraphLocation) -> bool {
    &&& l.subgraph == node.subgraph
    &&& match (node.start, node.end) {
        (Some(s), Some(e)) => match (s.line, s.column, e.line, e.column) {
            (Some(sl), Some(sc), Some(el), Some(ec)) => l.range == Some(
                Range { start: LineColumn { line: sl, column: sc }, end: LineColumn { line: el, column: ec } },
            ),
            _ => l.range.is_none(),
        },
        _ => l.range.is_none(),
    }
}

/// The places the nodes of a hint refer to, in order.
fn node_locations(nodes: Vec<BuildErrorNode>) -> (r: Vec<SubgraphLocation>)
    ensures
        r@.len() == nodes@.len(),
        forall|i: int| 0 <= i < nodes@.len() ==> is_node_location(nodes@[i], #[trigger] r@[i]),
{
    let ghost all = nodes@;
    let mut rest = reversed(nodes);
    let mut r: Vec<SubgraphLocation> = Vec::new();
    while rest.len() > 0
        invariant
            rest@.len() <= all.len(),
            forall|k: int| 0 <= k < rest@.len() ==> rest@[k] == all[all.len() - 1 - k],
            r@.len() == all.len() - rest@.len(),
            forall|k: int| 0 <= k < r@.len() ==> is_node_location(all[k], #[trigger] r@[k]),
        decreases rest.len(),
    {
        let node = rest.pop().unwrap();
        let range = match (&node.start, &node.end) {
            (Some(s), Some(e)) => match (s.line, s.column, e.line, e.column) {
                (Some(sl), Some(sc), Some(el), Some(ec)) => Some(
                    Range {
                        start: LineColumn { line: sl, column: sc },
                        end: LineColumn { line: el, column: ec },
                    },
                ),
                _ => None,
            },
            _ => None,
        };
        r.push(SubgraphLocation { subgraph: node.subgraph, range });
    }
    r
}

/// The code given to an error that has none.
pub open spec fn unknown_error_code() -> Seq<char> {
    "UNKNOWN_ERROR_CODE"@
}

/// Whether `m` is the build message that `issue` becomes: its level from
/// the severity, its message with the subgraph put in front, its code, its
/// locations, and nothing else.
pub open spec fn is_message_of_issue(issue: Issue, m: BuildMessage) -> bool {
    &&& m.level == severity_level(issue.severity)
    &&& m.message@ == prepended_message(issue.message@, issue.locations@)
    &&& m.code matches Some(c) && c@ == issue.code@
    &&& m.locations@.len() == issue.locations@.len()
    &&& forall|i: int|
        0 <= i < issue.locations@.len() ==> is_message_location_of(
            issue.locations@[i],
            #[trigger] m.locations@[i],
        )
    &&& m.schema_coordinate.is_none()
    &&& m.step.is_none()
    &&& m.other@.len() == 0
}

/// The build messages that issues become, in order.
pub fn issues_to_messages(issues: Vec<Issue>) -> (r: Vec<BuildMessage>)
    ensures
        r@.len() == issues@.len(),
        forall|i: int| 0 <= i < issues@.len() ==> is_message_of_issue(issues@[i], #[trigger] r@[i]),
{
    let ghost all = issues@;
    let mut rest = reversed(issues);
    let mut r: Vec<BuildMessage> = Vec::new();
    while rest.len() > 0
        invariant
            rest@.len() <= all.len(),
            forall|k: int| 0 <= k < rest@.len() ==> rest@[k] == all[all.len() - 1 - k],
            r@.len() == all.len() - rest@.len(),
            forall|k: int| 0 <= k < r@.len() ==> is_message_of_issue(all[k], #[trigger] r@[k]),
        decreases rest.len(),
    {
        let issue = rest.pop().unwrap();
        r.push(issue.into_build_message());
    }
    r
}

impl Issue {
    /// The issue as a build message: its level from the severity, its
    /// message with the subgraph put in front, its code, and its locations.
    pub fn into_build_message(self) -> (r: BuildMessage)
        ensures
            is_message_of_issue(self, r),
    {
        let level = self.severity.level();
        let message = maybe_prepend_subgraph(self.message.as_str(), &self.locations);
        let ghost old_locations = self.locations@;
        let mut locations: Vec<BuildMessageLocation> = Vec::new();
        let mut rest = reversed(self.locations);
        let ghost reversed = rest@;
        while rest.len() > 0
            invariant
                reversed.len() == old_locations.len(),
                forall|k: int| 0 <= k < old_locations.len() ==> reversed[k] == old_locations[old_locations.len() - 1 - k],
                rest@ == reversed.subrange(0, rest.len() as int),
                rest.len() <= reversed.len(),
                locations@.len() == reversed.len() - rest.len(),
                forall|k: int|
                    0 <= k < locations@.len() ==> is_message_location_of(
                        old_locations[k],
                        #[trigger] locations@[k],
                    ),
            decreases rest.len(),
        {
            let location = rest.pop().unwrap();
            let converted = location.into_message_location();
            locations.push(converted);
        }
        BuildMessage {
            level,
            message,
            code: Some(self.code),
            locations,
            schema_coordinate: None,
            step: None,
            other: String::new(),
        }
    }

    /// The issue that a build hint is: a warning with the hint's code and
    /// message, located where its nodes are.
    pub fn from_hint(hint: BuildHint) -> (r: Issue)
        ensures
            r.code == hint.code,
            r.message == hint.message,
            r.severity == Severity::Warning,
            r.locations@.len() == match hint.nodes {
                Some(n) => n@.len(),
                None => 0,
            },
            hint.nodes matches Some(n) ==> forall|i: int|
                0 <= i < n@.len() ==> is_node_location(n@[i], #[trigger] r.locations@[i]),
    {
        let locations = match hint.nodes {
            Some(nodes) => node_locations(nodes),
            None => Vec::new(),
        };
        Issue { code: hint.code, message: hint.message, locations, severity: Severity::Warning }
    }

    /// The issue that a build error is: an error with its code, else
    /// `UNKNOWN_ERROR_CODE`, and its message, else `Unknown error`.
    pub fn from_build_error(error: &BuildError) -> (r: Issue)
        ensures
            match error.code_of() {
                Some(c) => r.code == c,
                None => r.code@ == unknown_error_code(),
            },
            match error.message_of() {
                Some(m) => r.message == m,
                None => r.message@ == "Unknown error"@,
            },
            r.severity == Severity::Error,
            r.locations@.len() == 0,
    {
        let code = match error.get_code() {
            Some(c) => c,
            None => owned("UNKNOWN_ERROR_CODE"),
        };
        let message = match error.get_message() {
            Some(m) => m,
            None => owned("Unknown error"),
        };
        Issue { code, message, locations: Vec::new(), severity: Severity::Error }
    }

    /// The issue of an error that composition failed with: its code, else
    /// `UNKNOWN_ERROR_CODE`, its message, and no locations.
    pub fn from_failure(code: Option<String>, message: String) -> (r: Issue)
        ensures
            match code {
                Some(c) => r.code == c,
                None => r.code@ == unknown_error_code(),
            },
            r.message == message,
            r.severity == Severity::Error,
            r.locations@.len() == 0,
    {
        let code = match code {
            Some(c) => c,
            None => owned("UNKNOWN_ERROR_CODE"),
        };
        Issue { code, message, locations: Vec::new(), severity: Severity::Error }
    }
}

/// The issues of a subgraph that failed validation, one error for each of
/// its code and message pairs, in order.
pub fn convert_subraph_error_to_issues(errors: Vec<(String, String)>) -> (r: Vec<Issue>)
    ensures
        r@.len() == errors@.len(),
        forall|i: int|
            0 <= i < errors@.len() ==> (#[trigger] r@[i]).code == errors@[i].0 && r@[i].message
                == errors@[i].1 && r@[i].severity == Severity::Error && r@[i].locations@.len() == 0,
{
    let ghost all = errors@;
    let mut rest = reversed(errors);
    let ghost reversed = rest@;
    let mut r: Vec<Issue> = Vec::new();
    while rest.len() > 0
        invariant
            reversed.len() == all.len(),
            forall|k: int| 0 <= k < all.len() ==> reversed[k] == all[all.len() - 1 - k],
            rest@ == reversed.subrange(0, rest.len() as int),
            rest.len() <= reversed.len(),
            r@.len() == reversed.len() - rest.len(),
            forall|k: int|
                0 <= k < r@.len() ==> (#[trigger] r@[k]).code == all[k].0 && r@[k].message
                    == all[k].1 && r@[k].severity == Severity::Error && r@[k].locations@.len() == 0,
        decreases rest.len(),
    {
        let (code, message) = rest.pop().unwrap();
        r.push(Issue { code, message, locations: Vec::new(), severity: Severity::Error });
    }
    r
}

} // verus!
