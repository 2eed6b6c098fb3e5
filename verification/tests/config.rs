use federation_rs::config::config_error::ConfigError;
use federation_rs::config::project::{PlatformVersion, ProjectConfig, ProjectDefault};
use federation_rs::config::subgraph::{SchemaSource, SubgraphConfig};
use federation_rs::config::supergraph::SupergraphConfig;
use federation_rs::config::version::{FederationVersion, PluginVersion, RouterVersion, SemVer};
use federation_rs::javascript::SubgraphDefinition;

fn file_config(url: Option<&str>, file: &str) -> SubgraphConfig {
    SubgraphConfig {
        routing_url: url.map(|u| u.to_string()),
        schema: SchemaSource::File { file: file.to_string() },
    }
}

fn is_file_config(c: &SubgraphConfig, url: Option<&str>, file: &str) -> bool {
    let same_url = c.routing_url.as_deref() == url;
    let same_file = match &c.schema {
        SchemaSource::File { file: f } => f == file,
        _ => false,
    };
    same_url && same_file
}

fn is_fed_two(v: &Option<FederationVersion>) -> bool {
    matches!(v, Some(FederationVersion::LatestFedTwo))
}

#[test]
fn test_merge_subgraphs() {
    let mut base_config = SupergraphConfig::from_pairs(vec![
        ("films".to_string(), file_config(Some("https://films.example.com"), "./good-films.graphql")),
        ("people".to_string(), file_config(Some("https://people.example.com"), "./good-people.graphql")),
        ("robots".to_string(), file_config(Some("https://robots.example.com"), "./good-robots.graphql")),
    ]);
    base_config.set_federation_version(FederationVersion::LatestFedTwo);

    let mut override_config = SupergraphConfig::from_pairs(vec![
        ("films".to_string(), file_config(Some("https://films.example.com/graphql"), "./good-films.graphql")),
        ("books".to_string(), file_config(Some("https://books.example.com"), "./good-books.graphql")),
        ("robots".to_string(), file_config(None, "./better-robots.graphql")),
    ]);
    override_config.set_federation_version(FederationVersion::LatestFedOne);

    base_config.merge_subgraphs(&override_config);

    assert!(is_fed_two(&base_config.get_federation_version()));

    let subgraphs = base_config.into_subgraphs();
    assert_eq!(subgraphs.len(), 4);
    assert_eq!(subgraphs[0].0, "books");
    assert!(is_file_config(&subgraphs[0].1, Some("https://books.example.com"), "./good-books.graphql"));
    assert_eq!(subgraphs[1].0, "films");
    assert!(is_file_config(&subgraphs[1].1, Some("https://films.example.com/graphql"), "./good-films.graphql"));
    assert_eq!(subgraphs[2].0, "people");
    assert!(is_file_config(&subgraphs[2].1, Some("https://people.example.com"), "./good-people.graphql"));
    assert_eq!(subgraphs[3].0, "robots");
    assert!(is_file_config(&subgraphs[3].1, Some("https://robots.example.com"), "./better-robots.graphql"));
}

#[test]
fn test_supergraph_config_from_iterator() {
    let s = SupergraphConfig::from_pairs(vec![(
        "subgraph_tmp".to_string(),
        SubgraphConfig {
            routing_url: Some("url".to_string()),
            schema: SchemaSource::Sdl { sdl: "subgraph_tmp".to_string() },
        },
    )]);
    assert!(s.get_federation_version().is_none());
    assert!(s.get_subgraph_definitions().is_ok());
    assert_eq!(1, s.get_subgraph_definitions().unwrap().len());
}

fn version(text: &str) -> SemVer {
    SemVer::parse(text).unwrap()
}

fn same_semver(a: &SemVer, b: &SemVer) -> bool {
    a.major == b.major && a.minor == b.minor && a.patch == b.patch && a.pre == b.pre && a.build == b.build
}

fn is_exact_fed_two(v: &FederationVersion, text: &str) -> bool {
    match v {
        FederationVersion::ExactFedTwo(x) => same_semver(x, &version(text)),
        _ => false,
    }
}

fn is_exact_fed_one(v: &FederationVersion, text: &str) -> bool {
    match v {
        FederationVersion::ExactFedOne(x) => same_semver(x, &version(text)),
        _ => false,
    }
}

#[test]
fn test_deserialization() {
    assert!(matches!(FederationVersion::from_text("2"), Ok(FederationVersion::LatestFedTwo)));
    assert!(matches!(FederationVersion::from_number(2), Ok(FederationVersion::LatestFedTwo)));
    assert!(matches!(FederationVersion::from_text("latest-2"), Ok(FederationVersion::LatestFedTwo)));
    assert!(matches!(FederationVersion::from_number(1), Ok(FederationVersion::LatestFedOne)));
    assert!(matches!(FederationVersion::from_text("1"), Ok(FederationVersion::LatestFedOne)));
    assert!(matches!(FederationVersion::from_text("latest-1"), Ok(FederationVersion::LatestFedOne)));
    assert!(matches!(FederationVersion::from_text("latest-0"), Ok(FederationVersion::LatestFedOne)));
    assert!(is_exact_fed_two(&FederationVersion::from_text("=2.3.4").unwrap(), "2.3.4"));
    assert!(is_exact_fed_two(&FederationVersion::from_text("v2.3.4").unwrap(), "2.3.4"));
    assert!(is_exact_fed_one(&FederationVersion::from_text("=0.37.8").unwrap(), "0.37.8"));
    assert!(is_exact_fed_one(&FederationVersion::from_text("v0.37.8").unwrap(), "0.37.8"));
}

#[test]
fn federation_number_above_two_is_refused() {
    assert_eq!(FederationVersion::from_number(3).err().unwrap(), "specified version `3` is not supported");
}

#[test]
fn federation_version_text_reads_back() {
    for text in ["0", "2", "=2.3.4", "=0.37.8"] {
        let v = FederationVersion::from_str(text).ok().unwrap();
        assert_eq!(v.to_text(), text);
    }
}

#[test]
fn supports_arm_linux_cases() {
    assert!(FederationVersion::LatestFedOne.supports_arm_linux());
    assert!(FederationVersion::ExactFedOne(version("0.37.2")).supports_arm_linux());
    assert!(FederationVersion::ExactFedOne(version("0.37.1")).supports_arm_linux());
    assert!(!FederationVersion::ExactFedOne(version("0.25.0")).supports_arm_linux());
    assert!(FederationVersion::LatestFedTwo.supports_arm_linux());
    assert!(FederationVersion::ExactFedTwo(version("2.4.5")).supports_arm_linux());
    assert!(FederationVersion::ExactFedTwo(version("2.1.0")).supports_arm_linux());
    assert!(!FederationVersion::ExactFedTwo(version("2.0.1")).supports_arm_linux());
}

#[test]
fn supports_arm_macos_cases() {
    assert!(!FederationVersion::LatestFedOne.supports_arm_macos());
    assert!(!FederationVersion::ExactFedOne(version("0.37.2")).supports_arm_macos());
    assert!(FederationVersion::LatestFedTwo.supports_arm_macos());
    assert!(FederationVersion::ExactFedTwo(version("2.8.1")).supports_arm_macos());
    assert!(FederationVersion::ExactFedTwo(version("2.7.3")).supports_arm_macos());
    assert!(!FederationVersion::ExactFedTwo(version("2.6.5")).supports_arm_macos());
}

#[test]
fn federation_tarball_versions() {
    assert_eq!(FederationVersion::LatestFedOne.get_tarball_version(), "latest-0");
    assert_eq!(FederationVersion::LatestFedTwo.get_tarball_version(), "latest-2");
    assert_eq!(FederationVersion::ExactFedTwo(version("2.3.4")).get_tarball_version(), "v2.3.4");
    assert_eq!(FederationVersion::ExactFedOne(version("0.37.8")).get_major_version(), 0);
    assert_eq!(FederationVersion::LatestFedTwo.get_major_version(), 2);
}

#[test]
fn router_versions() {
    assert!(matches!(RouterVersion::from_str("1"), Ok(RouterVersion::Latest)));
    assert!(matches!(RouterVersion::from_str("latest"), Ok(RouterVersion::Latest)));
    let exact = RouterVersion::from_str("=1.2.3").ok().unwrap();
    assert_eq!(exact.to_text(), "=1.2.3");
    assert_eq!(exact.get_tarball_version(), "v1.2.3");
    assert_eq!(exact.get_major_version(), 1);
    assert_eq!(RouterVersion::Latest.get_tarball_version(), "latest-plugin");
    assert!(RouterVersion::from_str("=2.0.0").is_err());
    assert!(RouterVersion::from_str("3").is_err());
}

#[test]
fn config_error_messages() {
    let e = ConfigError::InvalidConfiguration { message: "bad".to_string() };
    assert_eq!(e.message(), "Could not parse supergraph config: bad.");
    assert!(e.code().is_none());
    let e = ConfigError::MissingFile { file_path: "a.yaml".to_string(), message: "gone".to_string() };
    assert_eq!(e.message(), "File \"a.yaml\" not found: gone.");
    let e = ConfigError::SubgraphsNotResolved { subgraph_names: "[\"a\"]".to_string() };
    assert_eq!(e.message(), "Config for subgraph(s) [\"a\"] are not fully resolved. name, routing_url, and sdl must be present.");
    assert_eq!(ConfigError::NoSubgraphsFound.message(), "No subgraphs were found in the supergraph config.");
}

#[test]
fn unresolved_subgraphs_are_named() {
    let s = SupergraphConfig::from_pairs(vec![
        ("a".to_string(), file_config(Some("u"), "./a.graphql")),
        ("b".to_string(), SubgraphConfig { routing_url: None, schema: SchemaSource::Sdl { sdl: "type Query".to_string() } }),
    ]);
    match s.get_subgraph_definitions() {
        Err(ConfigError::SubgraphsNotResolved { subgraph_names }) => assert_eq!(subgraph_names, "[\"a\", \"b\"]"),
        _ => panic!("expected unresolved subgraphs"),
    }
}

#[test]
fn no_subgraphs_found() {
    let s = SupergraphConfig::from_pairs(vec![]);
    assert!(matches!(s.get_subgraph_definitions(), Err(ConfigError::NoSubgraphsFound)));
}

#[test]
fn merging_with_itself_keeps_subgraphs() {
    let mut a = SupergraphConfig::from_pairs(vec![("x".to_string(), file_config(Some("u"), "./x.graphql"))]);
    let b = SupergraphConfig::from_pairs(vec![("x".to_string(), file_config(Some("u"), "./x.graphql"))]);
    a.merge_subgraphs(&b);
    let subgraphs = a.into_subgraphs();
    assert_eq!(subgraphs.len(), 1);
    assert!(is_file_config(&subgraphs[0].1, Some("u"), "./x.graphql"));
}

#[test]
fn platform_versions() {
    assert!(matches!(PlatformVersion::from_str("alpha"), Ok(PlatformVersion::Alpha)));
    match PlatformVersion::from_str("beta") {
        Err(ConfigError::InvalidConfiguration { message }) => {
            assert_eq!(message, "Specified version `beta` is not supported")
        }
        _ => panic!("expected an error"),
    }
}

#[test]
fn project_config_keeps_the_last_entry_of_a_name() {
    let first = SupergraphConfig::from_pairs(vec![]);
    let second = SupergraphConfig::from_pairs(vec![("x".to_string(), file_config(Some("u"), "./x.graphql"))]);
    let _project = ProjectConfig::new(
        vec![("g".to_string(), first), ("g".to_string(), second)],
        Some(PlatformVersion::Alpha),
        Some(ProjectDefault { supergraph: "g".to_string() }),
    );
}

#[test]
fn definitions_become_a_configuration() {
    let c = SupergraphConfig::from_definitions(vec![
        SubgraphDefinition::new("b", "http://b", "type B"),
        SubgraphDefinition::new("a", "http://a", "type A"),
        SubgraphDefinition::new("b", "http://b2", "type B2"),
    ]);
    let defs = c.get_subgraph_definitions().unwrap();
    assert_eq!(defs.len(), 2);
    assert_eq!((defs[0].name.as_str(), defs[0].url.as_str(), defs[0].sdl.as_str()), ("a", "http://a", "type A"));
    assert_eq!((defs[1].name.as_str(), defs[1].url.as_str(), defs[1].sdl.as_str()), ("b", "http://b2", "type B2"));
    assert!(matches!(FederationVersion::default(), FederationVersion::LatestFedOne));
}

#[test]
fn router_version_text_reads_back() {
    for text in ["1", "=1.2.3", "=1.0.0-rc.1"] {
        let v = RouterVersion::from_str(text).ok().unwrap();
        assert_eq!(v.to_text(), text);
    }
}

#[test]
fn lookup_after_insert() {
    let mut m: federation_rs::keyed::KeyedMap<SemVer> = federation_rs::keyed::KeyedMap::new();
    m.insert("b".to_string(), SemVer::new(1, 0, 0));
    m.insert("a".to_string(), SemVer::new(2, 0, 0));
    m.insert("b".to_string(), SemVer::new(3, 0, 0));
    assert_eq!(m.len(), 2);
    assert_eq!(m.get("b").unwrap().major, 3);
    assert_eq!(m.get("a").unwrap().major, 2);
    assert!(m.get("c").is_none());
    assert_eq!(m.key_at(0), "a");
}
