//! What a successful supergraph build produces.
use vstd::prelude::*;

use crate::build::hint::BuildHint;
use crate::UncaughtJson;

verus! {

/// The composed supergraph and the hints about it.
#[derive(Debug)]
pub struct BuildOutput {
    /// The supergraph schema, which a gateway can be started with.
    pub supergraph_sdl: String,
    /// Hints about the composition, to be shown.
    pub hints: Vec<BuildHint>,
    /// Untyped JSON carried along with the output.
    pub other: UncaughtJson,
}

impl BuildOutput {
    /// Output holding only a supergraph schema.
    pub fn new(supergraph_sdl: String) -> (r: BuildOutput)
        ensures
            r.supergraph_sdl == supergraph_sdl,
            r.hints@.len() == 0,
            r.other@.len() == 0,
    {
        BuildOutput::new_with_hints(supergraph_sdl, Vec::new())
    }

    /// Output holding a supergraph schema and hints.
    pub fn new_with_hints(supergraph_sdl: String, hints: Vec<BuildHint>) -> (r: BuildOutput)
        ensures
            r.supergraph_sdl == supergraph_sdl,
            r.hints@ == hints@,
            r.other@.len() == 0,
    {
        BuildOutput { supergraph_sdl, hints, other: String::new() }
    }
}

} // verus!
