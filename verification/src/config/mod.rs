//! Supergraph configuration: subgraph sources, federation versions and the
//! errors that reading a configuration can produce.
pub mod config_error;
pub mod project;
pub mod subgraph;
pub mod supergraph;
pub mod version;

pub use config_error::ConfigError;
pub use version::{FederationVersion, PluginVersion, RouterVersion, SemVer};
pub use subgraph::{SchemaSource, SubgraphConfig};
pub use supergraph::SupergraphConfig;
