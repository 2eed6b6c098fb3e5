//! Hints that a supergraph build gives along with its schema.
use vstd::prelude::*;

use crate::build_plugin::build_message::BuildMessagePoint;
use crate::UncaughtJson;

verus! {

/// A place in a subgraph's schema that a hint or error refers to.
#[derive(Debug)]
pub struct BuildErrorNode {
    pub subgraph: Option<String>,
    pub source: Option<String>,
    pub start: Option<BuildMessagePoint>,
    pub end: Option<BuildMessagePoint>,
}

/// Helpful information about a build.
#[derive(Debug)]
pub struct BuildHint {
    /// The hint's message.
    pub message: String,
    /// The hint's code.
    pub code: String,
    /// The places the hint refers to.
    pub nodes: Option<Vec<BuildErrorNode>>,
    /// Untyped JSON carried along with the hint.
    pub other: UncaughtJson,
}

impl BuildHint {
    /// A hint with its message, code and places, and nothing else.
    pub fn new(message: String, code: String, nodes: Option<Vec<BuildErrorNode>>) -> (r: BuildHint)
        ensures
            r.message == message,
            r.code == code,
            r.nodes == nodes,
            r.other@.len() == 0,
    {
        BuildHint { message, code, nodes, other: String::new() }
    }
}

} // verus!
