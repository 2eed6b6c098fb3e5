//! The outcome of a supergraph build: the composed schema with hints, or
//! the errors that stopped it.
use vstd::prelude::*;

pub mod build_output;
pub mod error;
pub mod from_plugin;
pub mod hint;
pub mod output;

pub use error::{BuildError, BuildErrorType, BuildErrors};
pub use hint::{BuildErrorNode, BuildHint};
pub use output::BuildOutput;

verus! {

/// The result of a supergraph build.
pub type BuildResult = Result<output::BuildOutput, error::BuildErrors>;

} // verus!
