//! The release tooling of the workspace: build targets, package groups and
//! their tags, and the commands that are run to build, tag and publish.
pub mod packages;
pub mod release;
pub mod target;
pub mod tools;
