//! The subgraph definitions that composition works on.
use vstd::prelude::*;

use crate::text::owned;

verus! {

/// Everything composition needs to know about one subgraph.
#[derive(Debug)]
pub struct SubgraphDefinition {
    /// The subgraph's name.
    pub name: String,
    /// The URL the router sends this subgraph's requests to.
    pub url: String,
    /// The subgraph's schema text.
    pub sdl: String,
}

impl SubgraphDefinition {
    /// A definition from its three texts.
    pub fn new(name: &str, url: &str, sdl: &str) -> (r: SubgraphDefinition)
        ensures
            r.name@ == name@,
            r.url@ == url@,
            r.sdl@ == sdl@,
    {
        SubgraphDefinition { name: owned(name), url: owned(url), sdl: owned(sdl) }
    }
}

} // verus!
