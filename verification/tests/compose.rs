use federation_rs::build::error::{BuildError, BuildErrors};
use federation_rs::build::hint::BuildHint;
use federation_rs::compose::{
    check_federation_version, check_provided_federation_version, compose_outcome, exit_code,
    missing_config_file, prepare_composition,
};
use federation_rs::config::config_error::ConfigError;
use federation_rs::config::subgraph::{SchemaSource, SubgraphConfig};
use federation_rs::config::supergraph::SupergraphConfig;
use federation_rs::config::version::FederationVersion;

fn config(version: Option<FederationVersion>) -> SupergraphConfig {
    let mut c = SupergraphConfig::from_pairs(vec![(
        "films".to_string(),
        SubgraphConfig {
            routing_url: Some("https://films.example.com".to_string()),
            schema: SchemaSource::Sdl { sdl: "type Query { a: Int }".to_string() },
        },
    )]);
    if let Some(v) = version {
        c.set_federation_version(v);
    }
    c
}

#[test]
fn federation_one_is_refused() {
    match check_federation_version("supergraph.yaml", &config(Some(FederationVersion::LatestFedOne))) {
        Err(ConfigError::InvalidConfiguration { message }) => assert_eq!(
            message,
            "It looks like 'supergraph.yaml' resolved to 'federation_version: 0', which doesn't match the current supergraph binary."
        ),
        _ => panic!("expected an error"),
    }
    match check_provided_federation_version(&config(Some(FederationVersion::LatestFedOne))) {
        Err(ConfigError::InvalidConfiguration { message }) => assert_eq!(
            message,
            "Provided yaml resolved to 'federation_version: 0', which doesn't match the current supergraph binary."
        ),
        _ => panic!("expected an error"),
    }
    assert!(check_federation_version("s.yaml", &config(Some(FederationVersion::LatestFedTwo))).is_ok());
    assert!(check_federation_version("s.yaml", &config(None)).is_ok());
}

#[test]
fn preparation_gives_definitions() {
    let defs = prepare_composition("s.yaml", &config(None)).ok().unwrap();
    assert_eq!(defs.len(), 1);
    assert_eq!(defs[0].name, "films");
    let errors = prepare_composition("s.yaml", &config(Some(FederationVersion::LatestFedOne))).err().unwrap();
    assert_eq!(errors.len(), 1);
}

#[test]
fn unresolved_and_empty_configurations_are_refused() {
    let unresolved = SupergraphConfig::from_pairs(vec![(
        "films".to_string(),
        SubgraphConfig {
            routing_url: None,
            schema: SchemaSource::Sdl { sdl: "type Query { a: Int }".to_string() },
        },
    )]);
    let errors = prepare_composition("s.yaml", &unresolved).err().unwrap();
    assert_eq!(errors.len(), 1);
    assert!(errors.is_config());
    assert_eq!(
        errors.build_errors()[0].get_message().unwrap(),
        "Config for subgraph(s) [\"films\"] are not fully resolved. name, routing_url, and sdl must be present."
    );
    let empty = SupergraphConfig::from_pairs(vec![]);
    let errors = prepare_composition("s.yaml", &empty).err().unwrap();
    assert_eq!(
        errors.build_errors()[0].get_message().unwrap(),
        "No subgraphs were found in the supergraph config."
    );
}

#[test]
fn outcomes_and_exit_codes() {
    let ok = compose_outcome(Some("sdl".to_string()), BuildErrors::new(), vec![BuildHint::new("m".to_string(), "c".to_string(), None)]);
    assert_eq!(exit_code(&ok), 0);
    assert_eq!(ok.unwrap().hints.len(), 1);
    let mut errors = BuildErrors::new();
    errors.push(BuildError::composition_error(None, Some("x".to_string())));
    let failed = compose_outcome(Some("sdl".to_string()), errors, vec![]);
    assert_eq!(exit_code(&failed), 1);
    assert!(compose_outcome(None, BuildErrors::new(), vec![]).is_err());
    match missing_config_file("./supergraph.yaml") {
        ConfigError::MissingFile { file_path, message } => {
            assert_eq!(file_path, "./supergraph.yaml");
            assert_eq!(message, "Unable to find supergraph.yaml file");
        }
        _ => panic!("expected a missing file"),
    }
}
