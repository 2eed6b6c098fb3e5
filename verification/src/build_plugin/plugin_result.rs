//! The output of a build plugin's run.
use vstd::prelude::*;

use crate::build_plugin::build_message::{BuildMessage, BuildMessageLevel};
use crate::config::config_error::{config_error_text, ConfigError};
use crate::text::owned;
use crate::UncaughtJson;

verus! {

/// Why a plugin failed.
#[derive(Debug, PartialEq, Eq, Structural)]
pub enum PluginFailureReason {
    /// The user's inputs cannot be built.
    Build,
    /// The configuration given to the plugin is invalid.
    Config,
    /// The plugin failed for some internal reason.
    InternalFailure,
}

/// The output of a plugin's run.
#[derive(Debug)]
pub struct PluginResult {
    pub result: Result<String, PluginFailureReason>,
    pub build_messages: Vec<BuildMessage>,
    /// Untyped JSON carried along with the result.
    other: UncaughtJson,
}

impl PluginResult {
    /// The untyped JSON carried along.
    pub closed spec fn other_of(self) -> UncaughtJson {
        self.other
    }

    /// The schema or the reason for failure.
    pub closed spec fn result_of(self) -> Result<String, PluginFailureReason> {
        self.result
    }

    /// The log messages.
    pub closed spec fn messages_of(self) -> Seq<BuildMessage> {
        self.build_messages@
    }

    /// The schema or the reason for failure, and the log messages.
    pub fn into_parts(self) -> (r: (Result<String, PluginFailureReason>, Vec<BuildMessage>))
        ensures
            r.0 == self.result_of(),
            r.1@ == self.messages_of(),
    {
        (self.result, self.build_messages)
    }

    /// The untyped JSON carried along.
    pub fn other_text(&self) -> (r: &str)
        ensures
            r@ == self.other_of()@,
    {
        self.other.as_str()
    }

    /// The result carrying the given untyped JSON instead.
    pub fn with_other(self, other: UncaughtJson) -> (r: PluginResult)
        ensures
            r.result_of() == self.result_of(),
            r.messages_of() == self.messages_of(),
            r.other_of() == other,
    {
        PluginResult { result: self.result, build_messages: self.build_messages, other }
    }

    /// A result with its messages.
    pub fn new(result: Result<String, PluginFailureReason>, build_messages: Vec<BuildMessage>) -> (r: PluginResult)
        ensures
            r.result_of() == result,
            r.messages_of() == build_messages@,
            r.other_of()@.len() == 0,
    {
        PluginResult { result, build_messages, other: String::new() }
    }

    /// A failure for the given reason, with its messages.
    pub fn new_failure(build_messages: Vec<BuildMessage>, execution_failure: PluginFailureReason) -> (r: PluginResult)
        ensures
            r.result_of() == Err::<String, PluginFailureReason>(execution_failure),
            r.messages_of() == build_messages@,
            r.other_of()@.len() == 0,
    {
        PluginResult { result: Err(execution_failure), build_messages, other: String::new() }
    }

    /// A success holding a schema, with no messages.
    pub fn success_from_schema(schema: String) -> (r: PluginResult)
        ensures
            r.result_of() == Ok::<String, PluginFailureReason>(schema),
            r.messages_of().len() == 0,
            r.other_of()@.len() == 0,
    {
        PluginResult { result: Ok(schema), build_messages: Vec::new(), other: String::new() }
    }

    /// The internal failure reported where the JSON a plugin gave back could
    /// not be read; `json_error` says why.
    pub fn unreadable_json(json_error: &str) -> (r: PluginResult)
        ensures
            r.result_of() == Err::<String, PluginFailureReason>(PluginFailureReason::InternalFailure),
            r.messages_of().len() == 1,
            r.messages_of()[0].level == BuildMessageLevel::Error,
            r.messages_of()[0].message@ == "Could not parse JSON from Rust. Received error "@
                + json_error@,
            r.messages_of()[0].step matches Some(s) && s@ == "PLUGIN_EXECUTION"@,
            r.messages_of()[0].code matches Some(c) && c@ == "PLUGIN_EXECUTION"@,
    {
        let mut message = owned("Could not parse JSON from Rust. Received error ");
        message.append(json_error);
        let mut messages: Vec<BuildMessage> = Vec::new();
        messages.push(
            BuildMessage::new_error(
                message,
                Some(owned("PLUGIN_EXECUTION")),
                Some(owned("PLUGIN_EXECUTION")),
            ),
        );
        PluginResult::new_failure(messages, PluginFailureReason::InternalFailure)
    }

    /// The failure that stands for a configuration error: one error message
    /// at the configuration step with the error's text and code.
    pub fn from_config_error(config_error: &ConfigError) -> (r: PluginResult)
        ensures
            r.result_of() == Err::<String, PluginFailureReason>(PluginFailureReason::Config),
            r.messages_of().len() == 1,
            r.messages_of()[0].level == BuildMessageLevel::Error,
            r.messages_of()[0].message@ == config_error_text(*config_error),
            r.messages_of()[0].step matches Some(s) && s@ == "PLUGIN_CONFIGURATION"@,
            r.messages_of()[0].code.is_none(),
    {
        let mut messages: Vec<BuildMessage> = Vec::new();
        messages.push(
            BuildMessage::new_error(
                config_error.message(),
                Some(owned("PLUGIN_CONFIGURATION")),
                config_error.code(),
            ),
        );
        PluginResult::new_failure(messages, PluginFailureReason::Config)
    }
}

} // verus!
