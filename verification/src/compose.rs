//! The `supergraph compose` command: the checks made on a configuration
//! before composition, and what the command answers and exits with.
use vstd::prelude::*;

use crate::build::error::BuildErrors;
use crate::build::hint::BuildHint;
use crate::build::output::BuildOutput;
use crate::build::BuildResult;
use crate::config::config_error::{config_error_text, not_resolved_text, ConfigError};
use crate::config::supergraph::{debug_text_list, is_definition_list, unresolved_names, SupergraphConfig};
use crate::config::version::{federation_version_text, FederationVersion, PluginVersion};
use crate::javascript::SubgraphDefinition;
use crate::text::owned;

verus! {

/// The major federation version of a version: 0 for federation 1, 2 for
/// federation 2.
pub open spec fn major_of(v: FederationVersion) -> u64 {
    match v {
        FederationVersion::LatestFedOne => 0,
        FederationVersion::ExactFedOne(_) => 0,
        FederationVersion::LatestFedTwo => 2,
        FederationVersion::ExactFedTwo(_) => 2,
    }
}

/// The message given when a configuration file asks for a federation
/// version that this binary does not compose.
pub open spec fn mismatch_message(config_file: Seq<char>, version: Seq<char>) -> Seq<char> {
    "It looks like '"@ + config_file + "' resolved to 'federation_version: "@ + version
        + "', which doesn't match the current supergraph binary."@
}

/// The message given when a configuration read from standard input asks
/// for a federation version that this binary does not compose.
pub open spec fn provided_mismatch_message(version: Seq<char>) -> Seq<char> {
    "Provided yaml resolved to 'federation_version: "@ + version
        + "', which doesn't match the current supergraph binary."@
}

/// Whether a configuration asks for a federation version other than 2.
pub open spec fn asks_other_major(config: SupergraphConfig) -> bool {
    config.version() matches Some(v) && major_of(v) != 2
}

/// Checks that a configuration read from `config_file` asks for no
/// federation version, or one of federation 2.
pub fn check_federation_version(config_file: &str, config: &SupergraphConfig) -> (r: Result<
    (),
    ConfigError,
>)
    ensures
        match config.version() {
            Some(v) => if major_of(v) != 2 {
                r matches Err(ConfigError::InvalidConfiguration { message }) && message@
                    == mismatch_message(config_file@, federation_version_text(v@))
            } else {
                r is Ok
            },
            None => r is Ok,
        },
{
    match config.get_federation_version() {
        Some(v) => {
            if v.get_major_version() != 2 {
                let mut message = owned("It looks like '");
                message.append(config_file);
                message.append("' resolved to 'federation_version: ");
                let t = v.to_text();
                message.append(t.as_str());
                message.append("', which doesn't match the current supergraph binary.");
                Err(ConfigError::InvalidConfiguration { message })
            } else {
                Ok(())
            }
        },
        None => Ok(()),
    }
}

/// Checks that a configuration read from standard input asks for no
/// federation version, or one of federation 2.
pub fn check_provided_federation_version(config: &SupergraphConfig) -> (r: Result<(), ConfigError>)
    ensures
        match config.version() {
            Some(v) => if major_of(v) != 2 {
                r matches Err(ConfigError::InvalidConfiguration { message }) && message@
                    == provided_mismatch_message(federation_version_text(v@))
            } else {
                r is Ok
            },
            None => r is Ok,
        },
{
    match config.get_federation_version() {
        Some(v) => {
            if v.get_major_version() != 2 {
                let mut message = owned("Provided yaml resolved to 'federation_version: ");
                let t = v.to_text();
                message.append(t.as_str());
                message.append("', which doesn't match the current supergraph binary.");
                Err(ConfigError::InvalidConfiguration { message })
            } else {
                Ok(())
            }
        },
        None => Ok(()),
    }
}

/// The subgraphs to compose from a configuration read from `config_file`:
/// an error when it asks for another federation version than 2 or cannot
/// give the definitions of its subgraphs, the definitions otherwise.
pub fn prepare_composition(config_file: &str, config: &SupergraphConfig) -> (r: Result<
    Vec<SubgraphDefinition>,
    BuildErrors,
>)
    ensures
        asks_other_major(*config) ==> (r matches Err(e) && e.errors().len() == 1
            && e.errors()[0].message_of() is Some && e.errors()[0].message_of().unwrap()@ == "Could not parse supergraph config: "@
            + mismatch_message(config_file@, federation_version_text(config.version().unwrap()@))
            + "."@),
        !asks_other_major(*config) && unresolved_names(config.entries()).len() == 0
            && config.entries().len() > 0 ==> (r matches Ok(defs) && is_definition_list(
            config.entries(),
            defs@,
        )),
        !asks_other_major(*config) && unresolved_names(config.entries()).len() > 0 ==> (r matches Err(
            e,
        ) && e.errors().len() == 1 && e.errors()[0].message_of() is Some
            && e.errors()[0].message_of().unwrap()@ == not_resolved_text(
            debug_text_list(unresolved_names(config.entries())),
        )),
        !asks_other_major(*config) && unresolved_names(config.entries()).len() == 0
            && config.entries().len() == 0 ==> (r matches Err(e) && e.errors().len() == 1
            && e.errors()[0].message_of() is Some && e.errors()[0].message_of().unwrap()@
            == config_error_text(ConfigError::NoSubgraphsFound)),
        r matches Err(e) ==> e.errors().len() == 1 && e.config_flag() && e.errors()[0].type_of() is Config,
{
    match check_federation_version(config_file, config) {
        Err(e) => {
            return Err(BuildErrors::from_config_error(e));
        },
        Ok(()) => {},
    }
    match config.get_subgraph_definitions() {
        Ok(defs) => Ok(defs),
        Err(e) => Err(BuildErrors::from_config_error(e)),
    }
}

/// What composition gives back becomes the command's result: the schema
/// with its hints when there is one and no error, the errors otherwise.
pub fn compose_outcome(supergraph_sdl: Option<String>, errors: BuildErrors, hints: Vec<BuildHint>) -> (r:
    BuildResult)
    ensures
        match supergraph_sdl {
            Some(sdl) => if errors.errors().len() == 0 {
                r matches Ok(o) && o.supergraph_sdl == sdl && o.hints@ == hints@ && o.other@.len()
                    == 0
            } else {
                r == Err::<BuildOutput, BuildErrors>(errors)
            },
            None => r == Err::<BuildOutput, BuildErrors>(errors),
        },
{
    match supergraph_sdl {
        Some(sdl) => {
            if errors.is_empty() {
                Ok(BuildOutput::new_with_hints(sdl, hints))
            } else {
                Err(errors)
            }
        },
        None => Err(errors),
    }
}

/// The error given when the configuration file is not there.
pub fn missing_config_file(config_path: &str) -> (r: ConfigError)
    ensures
        r matches ConfigError::MissingFile { file_path, message } && file_path@ == config_path@
            && message@ == "Unable to find supergraph.yaml file"@,
{
    ConfigError::MissingFile {
        file_path: owned(config_path),
        message: owned("Unable to find supergraph.yaml file"),
    }
}

/// The code the command exits with: 0 when it composed, 1 otherwise.
pub fn exit_code(result: &BuildResult) -> (r: i32)
    ensures
        r == (if result is Ok {
            0i32
        } else {
            1i32
        }),
{
    if result.is_ok() {
        0
    } else {
        1
    }
}

} // verus!
