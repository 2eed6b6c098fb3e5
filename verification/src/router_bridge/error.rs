//! Errors of the bridge to the JavaScript runtime.
use vstd::prelude::*;

verus! {

/// Why a call into the JavaScript runtime failed.
#[derive(Debug)]
pub enum Error {
    /// A parameter could not be written as JSON.
    ParameterSerialization { name: String, message: String },
    /// A response could not be read from JSON.
    ParameterDeserialization { message: String, id: String },
    /// The runtime itself failed.
    DenoRuntime(String),
    /// Something went wrong on this side.
    Internal(String),
}

} // verus!
