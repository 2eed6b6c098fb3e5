//! Composition in the JavaScript runtime: the settings of the engine, the
//! statements that hand it the subgraphs, and what its answer becomes.
use vstd::prelude::*;

use crate::build::error::{BuildError, BuildErrors};
use crate::build::output::BuildOutput;
use crate::build::BuildResult;
use crate::javascript::SubgraphDefinition;
use crate::router_bridge::js::{json_string, json_string_text};
use crate::text::{decimal, join_seq, owned, to_decimal, views};

verus! {

/// The initial heap size, in megabytes, when none is configured.
pub open spec fn default_initial_heap_size() -> Seq<char> {
    "256"@
}

/// The maximal heap size, in megabytes, when none is configured.
pub open spec fn default_max_heap_size() -> Seq<char> {
    "1400"@
}

/// The initial heap size: the configured one, else 256 megabytes.
pub fn initial_heap_size(configured: Option<String>) -> (r: String)
    ensures
        match configured {
            Some(v) => r@ == v@,
            None => r@ == default_initial_heap_size(),
        },
{
    match configured {
        Some(v) => v,
        None => owned("256"),
    }
}

/// The maximal heap size: the configured one, else 1400 megabytes.
pub fn max_heap_size(configured: Option<String>) -> (r: String)
    ensures
        match configured {
            Some(v) => r@ == v@,
            None => r@ == default_max_heap_size(),
        },
{
    match configured {
        Some(v) => v,
        None => owned("1400"),
    }
}

/// Whether the heap is grown each time it comes near its limit: only when
/// no maximal heap size was configured.
pub fn grows_heap(max_configured: bool) -> (r: bool)
    ensures
        r == !max_configured,
{
    !max_configured
}

/// The flags handed to the V8 engine for composition: a placeholder for
/// the program's name, then the initial and the maximal heap size.
pub fn composition_v8_flags(initial: String, max: String) -> (r: Vec<String>)
    ensures
        views(r@) == seq![
            "--ignored"@,
            "--initial_heap_size"@,
            initial@,
            "--max-heap-size"@,
            max@,
        ],
{
    let mut r: Vec<String> = Vec::new();
    r.push(owned("--ignored"));
    r.push(owned("--initial_heap_size"));
    r.push(initial);
    r.push(owned("--max-heap-size"));
    r.push(max);
    assert(views(r@) =~= seq![
        "--ignored"@,
        "--initial_heap_size"@,
        initial@,
        "--max-heap-size"@,
        max@,
    ]);
    r
}

/// The JSON object of a subgraph definition: its name, URL and schema, in
/// that order.
pub open spec fn definition_json(d: SubgraphDefinition) -> Seq<char> {
    "{\"name\":"@ + json_string_text(d.name@) + ",\"url\":"@ + json_string_text(d.url@)
        + ",\"sdl\":"@ + json_string_text(d.sdl@) + "}"@
}

/// The JSON array of the subgraph definitions.
pub open spec fn service_list_json(defs: Seq<SubgraphDefinition>) -> Seq<char> {
    "["@ + join_seq(defs.map_values(|d: SubgraphDefinition| definition_json(d)), ","@) + "]"@
}

/// The JSON text of one subgraph definition.
fn definition_to_json(d: &SubgraphDefinition) -> (r: String)
    ensures
        r@ == definition_json(*d),
{
    let name = json_string(d.name.as_str()).unwrap();
    let url = json_string(d.url.as_str()).unwrap();
    let sdl = json_string(d.sdl.as_str()).unwrap();
    let mut r = owned("{\"name\":");
    r.append(name.as_str());
    r.append(",\"url\":");
    r.append(url.as_str());
    r.append(",\"sdl\":");
    r.append(sdl.as_str());
    r.append("}");
    r
}

/// The statement that hands the subgraphs to the runtime:
/// `serviceList = ` and their JSON array. Serialising the definitions cannot
/// fail, so the result is always `Ok`.
pub fn service_list_script(defs: &Vec<SubgraphDefinition>) -> (r: Result<String, String>)
    ensures
        r is Ok,
        r.unwrap()@ == "serviceList = "@ + service_list_json(defs@),
{
    let mut texts: Vec<String> = Vec::new();
    let mut i: usize = 0;
    while i < defs.len()
        invariant
            i <= defs.len(),
            views(texts@) =~= defs@.subrange(0, i as int).map_values(
                |d: SubgraphDefinition| definition_json(d),
            ),
        decreases defs.len() - i,
    {
        let t = definition_to_json(&defs[i]);
        let ghost before = texts@;
        texts.push(t);
        proof {
            assert(views(texts@) =~= views(before).push(t@));
            assert(defs@.subrange(0, i + 1).map_values(|d: SubgraphDefinition| definition_json(d))
                =~= defs@.subrange(0, i as int).map_values(
                |d: SubgraphDefinition| definition_json(d),
            ).push(definition_json(defs@[i as int])));
        }
        i = i + 1;
    }
    assert(defs@.subrange(0, defs.len() as int) =~= defs@);
    let joined = crate::text::join_texts(&texts, ",");
    let mut r = owned("serviceList = [");
    r.append(joined.as_str());
    r.append("]");
    proof {
        assert(r@ =~= "serviceList = "@ + service_list_json(defs@)) by {
            reveal_strlit("serviceList = [");
            reveal_strlit("serviceList = ");
            reveal_strlit("[");
        }
    }
    Ok(r)
}

/// The statement that sets the limit of schema nodes: `nodesLimit = ` and
/// the limit, or `null` when there is none.
pub fn nodes_limit_script(limit: Option<u32>) -> (r: String)
    ensures
        r@ == "nodesLimit = "@ + match limit {
            Some(n) => decimal(n as nat),
            None => "null"@,
        },
{
    let mut r = owned("nodesLimit = ");
    match limit {
        Some(n) => {
            let d = to_decimal(n as u64);
            r.append(d.as_str());
        },
        None => {
            r.append("null");
        },
    }
    r
}

/// The prefix of the message given when the runtime's answer cannot be
/// read.
pub open spec fn unreadable_result_prefix() -> Seq<char> {
    "Unable to deserialize composition result: "@
}

/// The prefix of the message given when composition cannot be invoked.
pub open spec fn invocation_failure_prefix() -> Seq<char> {
    "Error invoking composition in JavaScript runtime: "@
}

/// Whether the errors are exactly one composition error with no code and
/// the given message.
pub open spec fn is_single_composition_error(errors: BuildErrors, message: Seq<char>) -> bool {
    &&& errors.errors().len() == 1
    &&& errors.errors()[0].type_of() is Composition
    &&& errors.errors()[0].code_of().is_none()
    &&& errors.errors()[0].message_of() matches Some(m) && m@ == message
}

/// The build result that stands for a single composition error with the
/// given message.
fn single_composition_error(message: String) -> (r: BuildErrors)
    ensures
        is_single_composition_error(r, message@),
        r.wf(),
{
    let mut errors: Vec<BuildError> = Vec::new();
    errors.push(BuildError::composition_error(None, Some(message)));
    BuildErrors::from_errors(errors)
}

/// What composition's answer becomes: the output when it composed, its
/// errors when it did not, and one error saying that the answer could not
/// be read when it could not (with the reader's message).
pub fn composition_outcome(answer: Result<Result<BuildOutput, Vec<BuildError>>, String>) -> (r:
    BuildResult)
    ensures
        match answer {
            Ok(Ok(output)) => r == Ok::<BuildOutput, BuildErrors>(output),
            Ok(Err(errors)) => r matches Err(e) && e.errors() == errors@ && e.wf(),
            Err(message) => r matches Err(e) && is_single_composition_error(
                e,
                unreadable_result_prefix() + message@,
            ),
        },
{
    match answer {
        Ok(Ok(output)) => Ok(output),
        Ok(Err(errors)) => Err(BuildErrors::from_errors(errors)),
        Err(message) => {
            let mut m = owned("Unable to deserialize composition result: ");
            m.append(message.as_str());
            Err(single_composition_error(m))
        },
    }
}

/// The prefix of the message given when the answer that the composition
/// script reports through its result operation cannot be read.
pub open spec fn bug_prefix() -> Seq<char> {
    "Something went wrong, this is a bug: "@
}

/// What the answer that the composition script reports through its result
/// operation becomes: the output when it composed, its errors when it did
/// not, and one error saying that this is a bug when the answer could not be
/// read (with the reader's message).
pub fn reported_outcome(answer: Result<Result<BuildOutput, Vec<BuildError>>, String>) -> (r:
    BuildResult)
    ensures
        match answer {
            Ok(Ok(output)) => r == Ok::<BuildOutput, BuildErrors>(output),
            Ok(Err(errors)) => r matches Err(e) && e.errors() == errors@ && e.wf(),
            Err(message) => r matches Err(e) && is_single_composition_error(
                e,
                bug_prefix() + message@,
            ),
        },
{
    match answer {
        Ok(Ok(output)) => Ok(output),
        Ok(Err(errors)) => Err(BuildErrors::from_errors(errors)),
        Err(message) => {
            let mut m = owned("Something went wrong, this is a bug: ");
            m.append(message.as_str());
            Err(single_composition_error(m))
        },
    }
}

/// What a failure to invoke composition becomes: one error with the
/// runtime's message.
pub fn invocation_failure(message: &str) -> (r: BuildResult)
    ensures
        r matches Err(e) && is_single_composition_error(e, invocation_failure_prefix() + message@),
{
    let mut m = owned("Error invoking composition in JavaScript runtime: ");
    m.append(message);
    Err(single_composition_error(m))
}

/// What the answer of federation 1 composition becomes: output holding
/// the composed schema, or its errors.
pub fn fed_one_outcome(answer: Result<String, Vec<BuildError>>) -> (r: BuildResult)
    ensures
        match answer {
            Ok(sdl) => r matches Ok(o) && o.supergraph_sdl == sdl && o.hints@.len() == 0
                && o.other@.len() == 0,
            Err(errors) => r matches Err(e) && e.errors() == errors@ && e.wf(),
        },
{
    match answer {
        Ok(sdl) => Ok(BuildOutput::new(sdl)),
        Err(errors) => Err(BuildErrors::from_errors(errors)),
    }
}

} // verus!
