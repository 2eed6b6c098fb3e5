//! A build plugin's result read as the result of a supergraph build: the
//! error messages become the errors, the others the hints.
use vstd::prelude::*;

use crate::build::error::{BuildError, BuildErrors};
use crate::build::hint::{BuildErrorNode, BuildHint};
use crate::build::output::BuildOutput;
use crate::build::BuildResult;
use crate::build_plugin::build_message::{BuildMessage, BuildMessageLevel, BuildMessageLocation};
use crate::build_plugin::plugin_result::{PluginFailureReason, PluginResult};
use crate::keyed::reversed;

verus! {

/// Whether a message reports an error.
pub open spec fn is_error_message(m: BuildMessage) -> bool {
    m.level == BuildMessageLevel::Error
}

/// The place in a schema that a message's location stands for.
pub open spec fn location_node(l: BuildMessageLocation) -> BuildErrorNode {
    BuildErrorNode { subgraph: l.subgraph, source: l.source, start: l.start, end: l.end }
}

/// A hint's code for a message's code: the code, or the empty text when the
/// message has none.
pub open spec fn code_text(code: Option<String>) -> Seq<char> {
    match code {
        Some(c) => c@,
        None => Seq::empty(),
    }
}

/// Whether `e` is the error an error message becomes: a composition error
/// with the message's code and text.
pub open spec fn is_message_error(e: BuildError, m: BuildMessage) -> bool {
    &&& e.type_of() is Composition
    &&& e.code_of() == m.code
    &&& e.message_of() == Some(m.message)
}

/// Whether `h` is the hint a message becomes: the message's text and code,
/// and the places its locations stand for.
pub open spec fn is_message_hint(h: BuildHint, m: BuildMessage) -> bool {
    &&& h.message == m.message
    &&& h.code@ == code_text(m.code)
    &&& h.nodes matches Some(ns) && ns@ == m.locations@.map_values(
        |l: BuildMessageLocation| location_node(l),
    )
    &&& h.other@.len() == 0
}

/// The places that a message's locations stand for, in order.
fn nodes_of(locations: Vec<BuildMessageLocation>) -> (r: Vec<BuildErrorNode>)
    ensures
        r@ == locations@.map_values(|l: BuildMessageLocation| location_node(l)),
{
    let ghost all = locations@;
    let mut rest = reversed(locations);
    let mut r: Vec<BuildErrorNode> = Vec::new();
    while rest.len() > 0
        invariant
            r@.len() + rest@.len() == all.len(),
            forall|k: int| 0 <= k < rest@.len() ==> rest@[k] == all[all.len() - 1 - k],
            forall|k: int| 0 <= k < r@.len() ==> r@[k] == location_node(all[k]),
        decreases rest.len(),
    {
        let l = rest.pop().unwrap();
        r.push(BuildErrorNode { subgraph: l.subgraph, source: l.source, start: l.start, end: l.end });
    }
    assert(r@ =~= all.map_values(|l: BuildMessageLocation| location_node(l)));
    r
}

/// The error messages of a list, in order.
pub open spec fn error_messages(ms: Seq<BuildMessage>) -> Seq<BuildMessage> {
    ms.filter(|m: BuildMessage| is_error_message(m))
}

/// The other messages of a list, in order.
pub open spec fn other_messages(ms: Seq<BuildMessage>) -> Seq<BuildMessage> {
    ms.filter(|m: BuildMessage| !is_error_message(m))
}

/// A plugin's result as the result of a supergraph build. Its error
/// messages, in order, become composition errors and its other messages
/// hints. A schema gives the output with those hints; a failure gives the
/// errors, marked as from configuration exactly when the plugin failed
/// because of its configuration.
pub fn build_result_of(value: PluginResult) -> (r: BuildResult)
    ensures
        match value.result_of() {
            Ok(sdl) => r matches Ok(o) && o.supergraph_sdl == sdl && o.other@.len() == 0
                && o.hints@.len() == other_messages(value.messages_of()).len() && forall|i: int|
                0 <= i < o.hints@.len() ==> is_message_hint(
                    #[trigger] o.hints@[i],
                    other_messages(value.messages_of())[i],
                ),
            Err(reason) => r matches Err(e) && e.config_flag() == (reason
                == PluginFailureReason::Config) && e.errors().len() == error_messages(
                value.messages_of(),
            ).len() && forall|i: int|
                0 <= i < e.errors().len() ==> is_message_error(
                    #[trigger] e.errors()[i],
                    error_messages(value.messages_of())[i],
                ),
        },
{
    let ghost all = value.messages_of();
    let (result, messages) = value.into_parts();
    assert(all.len() == messages.len());
    let mut rest = reversed(messages);
    let mut errors: Vec<BuildError> = Vec::new();
    let mut hints: Vec<BuildHint> = Vec::new();
    let mut i: usize = 0;
    while rest.len() > 0
        invariant
            i + rest@.len() == all.len(),
            all.len() <= usize::MAX,
            forall|k: int| 0 <= k < rest@.len() ==> rest@[k] == all[all.len() - 1 - k],
            errors@.len() == error_messages(all.subrange(0, i as int)).len(),
            forall|k: int|
                0 <= k < errors@.len() ==> is_message_error(
                    #[trigger] errors@[k],
                    error_messages(all.subrange(0, i as int))[k],
                ),
            hints@.len() == other_messages(all.subrange(0, i as int)).len(),
            forall|k: int|
                0 <= k < hints@.len() ==> is_message_hint(
                    #[trigger] hints@[k],
                    other_messages(all.subrange(0, i as int))[k],
                ),
        decreases rest.len(),
    {
        let m = rest.pop().unwrap();
        let ghost gm = m;
        let ghost prefix = all.subrange(0, i as int);
        let ghost next = all.subrange(0, i + 1);
        proof {
            assert(gm == all[i as int]);
            assert(next.drop_last() =~= prefix);
            assert(next.last() == gm);
            reveal(Seq::filter);
        }
        match m.level {
            BuildMessageLevel::Error => {
                errors.push(BuildError::composition_error(m.code, Some(m.message)));
                proof {
                    assert(error_messages(next) =~= error_messages(prefix).push(gm));
                    assert(other_messages(next) =~= other_messages(prefix));
                }
            },
            _ => {
                let code = match m.code {
                    Some(c) => c,
                    None => String::new(),
                };
                let nodes = nodes_of(m.locations);
                hints.push(BuildHint::new(m.message, code, Some(nodes)));
                proof {
                    assert(other_messages(next) =~= other_messages(prefix).push(gm));
                    assert(error_messages(next) =~= error_messages(prefix));
                }
            },
        }
        i = i + 1;
    }
    assert(all.subrange(0, all.len() as int) =~= all);
    match result {
        Ok(supergraph_sdl) => Ok(BuildOutput::new_with_hints(supergraph_sdl, hints)),
        Err(reason) => {
            let is_config = match reason {
                PluginFailureReason::Config => true,
                _ => false,
            };
            Err(BuildErrors::marked(errors, is_config))
        },
    }
}

} // verus!
