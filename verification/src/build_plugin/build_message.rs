//! The log output of a build.
use vstd::prelude::*;

use crate::UncaughtJson;

verus! {

/// How serious a build message is.
#[derive(Debug, PartialEq, Eq, Structural)]
pub enum BuildMessageLevel {
    Debug,
    Info,
    Warn,
    Error,
}

/// A point in a schema document.
#[derive(Debug)]
pub struct BuildMessagePoint {
    pub start: Option<usize>,
    pub end: Option<usize>,
    pub column: Option<usize>,
    pub line: Option<usize>,
}

/// Where in a schema document a build message applies.
#[derive(Debug)]
pub struct BuildMessageLocation {
    pub subgraph: Option<String>,
    pub source: Option<String>,
    pub start: Option<BuildMessagePoint>,
    pub end: Option<BuildMessagePoint>,
    /// Untyped JSON carried along with the location.
    pub other: UncaughtJson,
}

/// One message of a build's log.
#[derive(Debug)]
pub struct BuildMessage {
    pub level: BuildMessageLevel,
    pub message: String,
    pub step: Option<String>,
    pub code: Option<String>,
    pub locations: Vec<BuildMessageLocation>,
    pub schema_coordinate: Option<String>,
    /// Untyped JSON carried along with the message.
    pub other: UncaughtJson,
}

impl BuildMessage {
    /// An error message with its step and code, and no locations.
    pub fn new_error(error_message: String, step: Option<String>, code: Option<String>) -> (r: BuildMessage)
        ensures
            r.level == BuildMessageLevel::Error,
            r.message == error_message,
            r.step == step,
            r.code == code,
            r.locations@.len() == 0,
            r.schema_coordinate.is_none(),
            r.other@.len() == 0,
    {
        BuildMessage {
            level: BuildMessageLevel::Error,
            message: error_message,
            step,
            code,
            locations: Vec::new(),
            schema_coordinate: None,
            other: String::new(),
        }
    }
}

} // verus!
