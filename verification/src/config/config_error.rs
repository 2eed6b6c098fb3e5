//! Errors that come up while reading a supergraph configuration.
use vstd::prelude::*;

use crate::text::owned;

verus! {

/// Why a supergraph configuration could not be used.
#[derive(Debug)]
pub enum ConfigError {
    InvalidConfiguration { message: String },
    MissingFile { file_path: String, message: String },
    SubgraphsNotResolved { subgraph_names: String },
    NoSubgraphsFound,
}

/// The message given when the subgraphs listed in `subgraph_names` lack a
/// name, a routing URL or a schema.
pub open spec fn not_resolved_text(subgraph_names: Seq<char>) -> Seq<char> {
    "Config for subgraph(s) "@ + subgraph_names
        + " are not fully resolved. name, routing_url, and sdl must be present."@
}

/// The message that describes a configuration error.
pub open spec fn config_error_text(e: ConfigError) -> Seq<char> {
    match e {
        ConfigError::InvalidConfiguration { message } => "Could not parse supergraph config: "@
            + message@ + "."@,
        ConfigError::MissingFile { file_path, message } => "File \""@ + file_path@
            + "\" not found: "@ + message@ + "."@,
        ConfigError::SubgraphsNotResolved { subgraph_names } => not_resolved_text(
            subgraph_names@,
        ),
        ConfigError::NoSubgraphsFound => "No subgraphs were found in the supergraph config."@,
    }
}

impl ConfigError {
    /// The human-readable description of the error.
    pub fn message(&self) -> (r: String)
        ensures
            r@ == config_error_text(*self),
    {
        match self {
            ConfigError::InvalidConfiguration { message } => {
                let mut r = owned("Could not parse supergraph config: ");
                r.append(message.as_str());
                r.append(".");
                r
            },
            ConfigError::MissingFile { file_path, message } => {
                let mut r = owned("File \"");
                r.append(file_path.as_str());
                r.append("\" not found: ");
                r.append(message.as_str());
                r.append(".");
                r
            },
            ConfigError::SubgraphsNotResolved { subgraph_names } => {
                let mut r = owned("Config for subgraph(s) ");
                r.append(subgraph_names.as_str());
                r.append(" are not fully resolved. name, routing_url, and sdl must be present.");
                r
            },
            ConfigError::NoSubgraphsFound => owned(
                "No subgraphs were found in the supergraph config.",
            ),
        }
    }

    /// The error's code: configuration errors carry none.
    pub fn code(&self) -> (r: Option<String>)
        ensures
            r.is_none(),
    {
        None
    }
}

} // verus!
