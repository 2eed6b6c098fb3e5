//! A project: named supergraph configurations, the one used by default,
//! and the platform version.
use vstd::prelude::*;

use crate::config::config_error::ConfigError;
use crate::config::supergraph::{SupergraphConfig, SupergraphConfigView};
use crate::keyed::{reversed, seq_model, KeyedMap};
use crate::text::{owned, same_text};

verus! {

/// The configuration used when none is named.
#[derive(Debug)]
pub struct ProjectDefault {
    pub supergraph: String,
}

/// The version of the platform a project is written for.
#[derive(Debug, PartialEq, Eq, Structural)]
pub enum PlatformVersion {
    Alpha,
}

/// The message given for a platform version that is not supported.
pub open spec fn unsupported_platform_message(version: Seq<char>) -> Seq<char> {
    "Specified version `"@ + version + "` is not supported"@
}

impl PlatformVersion {
    /// Reads a platform version: only `alpha` is supported.
    pub fn from_str(version: &str) -> (r: Result<PlatformVersion, ConfigError>)
        ensures
            version@ == "alpha"@ ==> r == Ok::<PlatformVersion, ConfigError>(PlatformVersion::Alpha),
            version@ != "alpha"@ ==> (r matches Err(ConfigError::InvalidConfiguration { message })
                && message@ == unsupported_platform_message(version@)),
    {
        if same_text(version, "alpha") {
            Ok(PlatformVersion::Alpha)
        } else {
            let mut message = owned("Specified version `");
            message.append(version);
            message.append("` is not supported");
            Err(ConfigError::InvalidConfiguration { message })
        }
    }
}

/// The configuration of a project.
#[derive(Debug)]
pub struct ProjectConfig {
    supergraphs: KeyedMap<SupergraphConfig>,
    default: Option<ProjectDefault>,
    version: Option<PlatformVersion>,
}

/// The names and views of named supergraph configurations.
pub open spec fn named_views(s: Seq<(String, SupergraphConfig)>) -> Seq<(Seq<char>, SupergraphConfigView)> {
    s.map_values(|p: (String, SupergraphConfig)| (p.0@, p.1@))
}

impl ProjectConfig {
    /// The supergraph configurations, by name.
    pub closed spec fn supergraphs_of(self) -> KeyedMap<SupergraphConfig> {
        self.supergraphs
    }

    /// The default configuration.
    pub closed spec fn default_of(self) -> Option<ProjectDefault> {
        self.default
    }

    /// The platform version.
    pub closed spec fn version_of(self) -> Option<PlatformVersion> {
        self.version
    }

    /// A project from named supergraph configurations; a later entry for a
    /// name replaces an earlier one.
    pub fn new(
        input: Vec<(String, SupergraphConfig)>,
        version: Option<PlatformVersion>,
        default: Option<ProjectDefault>,
    ) -> (r: ProjectConfig)
        ensures
            r.supergraphs_of().wf(),
            r.supergraphs_of().model() == seq_model(named_views(input@)),
            r.version_of() == version,
            r.default_of() == default,
    {
        let ghost all = input@;
        let mut rest = reversed(input);
        let mut supergraphs: KeyedMap<SupergraphConfig> = KeyedMap::new();
        assert(named_views(all.subrange(0, 0)) =~= Seq::<(Seq<char>, SupergraphConfigView)>::empty());
        while rest.len() > 0
            invariant
                rest@.len() <= all.len(),
                forall|k: int| 0 <= k < rest@.len() ==> rest@[k] == all[all.len() - 1 - k],
                supergraphs.wf(),
                supergraphs.model() == seq_model(named_views(all.subrange(0, all.len() - rest@.len()))),
            decreases rest.len(),
        {
            let ghost done = (all.len() - rest@.len()) as int;
            let (name, config) = rest.pop().unwrap();
            assert(named_views(all.subrange(0, done + 1)).drop_last() =~= named_views(
                all.subrange(0, done),
            ));
            assert(all[done] == (name, config));
            supergraphs.insert(name, config);
        }
        assert(all.subrange(0, all.len() as int) =~= all);
        ProjectConfig { supergraphs, default, version }
    }
}

} // verus!
