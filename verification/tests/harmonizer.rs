use federation_rs::build::error::BuildError;
use federation_rs::build::output::BuildOutput;
use federation_rs::harmonizer::{
    composition_outcome, composition_v8_flags, fed_one_outcome, grows_heap, initial_heap_size,
    invocation_failure, max_heap_size, nodes_limit_script, reported_outcome, service_list_script,
};
use federation_rs::javascript::SubgraphDefinition;
use federation_rs::manifest::publish::{
    harmonizer_manifests, harmonizer_npm_package, npm_dependency_version, supergraph_manifests,
    workspace_publish_manifest,
};
use federation_rs::manifest::{
    npm_package_for, prepend_autogen_warning, same_version, supergraph_version_of,
};
use federation_rs::config::version::SemVer;

#[test]
fn heap_settings() {
    assert_eq!(initial_heap_size(None), "256");
    assert_eq!(max_heap_size(None), "1400");
    assert_eq!(max_heap_size(Some("2000".to_string())), "2000");
    assert!(grows_heap(false));
    assert!(!grows_heap(true));
    assert_eq!(
        composition_v8_flags("256".to_string(), "1400".to_string()),
        vec!["--ignored", "--initial_heap_size", "256", "--max-heap-size", "1400"]
    );
}

#[test]
fn service_list_is_json() {
    let defs = vec![
        SubgraphDefinition::new("users", "undefined", "type Query"),
        SubgraphDefinition::new("movies", "http://m", "type \"M\""),
    ];
    assert_eq!(
        service_list_script(&defs).unwrap(),
        "serviceList = [{\"name\":\"users\",\"url\":\"undefined\",\"sdl\":\"type Query\"},{\"name\":\"movies\",\"url\":\"http://m\",\"sdl\":\"type \\\"M\\\"\"}]"
    );
    assert_eq!(service_list_script(&vec![]).unwrap(), "serviceList = []");
}

#[test]
fn nodes_limit() {
    assert_eq!(nodes_limit_script(Some(42)), "nodesLimit = 42");
    assert_eq!(nodes_limit_script(None), "nodesLimit = null");
}

#[test]
fn composition_outcomes() {
    let ok = composition_outcome(Ok(Ok(BuildOutput::new("sdl".to_string()))));
    assert_eq!(ok.unwrap().supergraph_sdl, "sdl");
    let errs = composition_outcome(Ok(Err(vec![BuildError::composition_error(None, Some("x".to_string()))])));
    assert_eq!(errs.err().unwrap().len(), 1);
    let bad = composition_outcome(Err("eof".to_string())).err().unwrap();
    assert_eq!(bad.to_text().contains("Unable to deserialize composition result: eof"), true);
    let failed = invocation_failure("boom").err().unwrap();
    assert_eq!(failed.len(), 1);
    assert!(failed.to_text().contains("Error invoking composition in JavaScript runtime: boom"));
    assert_eq!(fed_one_outcome(Ok("s".to_string())).unwrap().supergraph_sdl, "s");
}

#[test]
fn manifests_for_publishing() {
    assert_eq!(npm_package_for("harmonizer-0").as_deref(), Some("@apollo/federation"));
    assert_eq!(npm_package_for("harmonizer-2").as_deref(), Some("@apollo/composition"));
    assert!(npm_package_for("router-bridge").is_none());
    assert_eq!(
        prepend_autogen_warning("[package]"),
        "#### ⚠️ DO NOT EDIT THIS FILE ⚠️ ####\n## it is autogenerated in build_harmonizer.rs ##\n[package]\n"
    );
    assert_eq!(supergraph_version_of("harmonizer-2").as_deref(), Some("2"));
    assert!(supergraph_version_of("harmonizer").is_none());
    assert!(same_version(&SemVer::new(2, 3, 4), &SemVer::parse("2.3.4").unwrap()));
    assert!(!same_version(&SemVer::new(2, 3, 4), &SemVer::parse("2.3.4-beta").unwrap()));
}

const WARNING: &str =
    "#### ⚠️ DO NOT EDIT THIS FILE ⚠️ ####\n## it is autogenerated in build_harmonizer.rs ##\n";

#[test]
fn workspace_manifest_for_publishing() {
    let build = "[workspace]\nmembers = [\"xtask\", \"harmonizer-0\", \"supergraph-2\", \"apollo-federation-types\"]\n";
    let published = workspace_publish_manifest(build).unwrap();
    assert!(published.starts_with(WARNING));
    assert!(published.contains(
        "members = [\"xtask\", \"apollo-federation-types\", \"harmonizer\", \"supergraph\"]"
    ));
    assert_eq!(
        workspace_publish_manifest("[workspace]\nmembers = \"xtask\"\n").unwrap_err(),
        "`workspace.members` is not an array in Cargo.toml"
    );
    assert_eq!(
        workspace_publish_manifest("[workspace]\nmembers = [\"xtask\", 3]\n").unwrap_err(),
        "`workspace.members` in Cargo.toml contains values that are not strings"
    );
    assert_eq!(
        workspace_publish_manifest("[workspace").unwrap_err(),
        "Cargo.toml is not valid TOML"
    );
}

#[test]
fn harmonizer_manifest_for_publishing() {
    let build = "[package]\nname = \"harmonizer-2\"\nversion = \"2.0.0\"\nbuild = \"build.rs\"\n";
    assert_eq!(harmonizer_npm_package(build).unwrap(), "@apollo/composition");
    assert_eq!(
        harmonizer_npm_package("[package]\nname = \"router-bridge\"\n").unwrap_err(),
        "attempting to build unknown crate"
    );
    assert_eq!(
        harmonizer_npm_package("[package]\nname = 2\n").unwrap_err(),
        "`package.name` in Cargo.toml is not a string"
    );
    let (updated, publish) = harmonizer_manifests(build, &SemVer::new(2, 1, 0)).unwrap();
    let updated = updated.unwrap();
    assert!(updated.contains("version = \"2.1.0\""));
    assert!(updated.contains("name = \"harmonizer-2\""));
    assert!(publish.starts_with(WARNING));
    assert!(publish.contains("name = \"harmonizer\""));
    assert!(publish.contains("version = \"2.1.0\""));
    assert!(publish.contains("publish = true"));
    assert!(!publish.contains("build.rs"));
    let (same, _) = harmonizer_manifests(build, &SemVer::new(2, 0, 0)).unwrap();
    assert!(same.is_none());
    assert_eq!(
        harmonizer_manifests("[package]\nname = \"harmonizer-2\"\nversion = \"2.0.0\"\n", &SemVer::new(2, 0, 0))
            .unwrap_err(),
        "Could not remove `package.build` from Cargo.toml"
    );
    assert_eq!(
        harmonizer_manifests("[package]\nversion = \"two\"\n", &SemVer::new(2, 0, 0)).unwrap_err(),
        "Crate version is not valid semver"
    );
}

#[test]
fn supergraph_manifest_for_publishing() {
    let build = "[package]\nname = \"supergraph-2\"\nversion = \"2.0.0\"\n\n[dependencies]\nharmonizer = { path = \"../harmonizer-2\" }\n";
    let (updated, publish) = supergraph_manifests(build, &SemVer::new(2, 3, 1)).unwrap();
    assert!(updated.contains("version = \"2.3.1\""));
    assert!(updated.contains("name = \"supergraph-2\""));
    assert!(publish.starts_with(WARNING));
    assert!(publish.contains("name = \"supergraph\""));
    assert!(publish.contains("path = \"../harmonizer\""));
    assert!(publish.contains("package = \"harmonizer\""));
}

#[test]
fn npm_dependency_versions() {
    let package_json = "{\"name\": \"harmonizer\", \"dependencies\": {\"@apollo/composition\": \"2.3.1\"}}";
    let (version, updated) = npm_dependency_version(package_json, "@apollo/composition").unwrap();
    assert!(same_version(&version, &SemVer::new(2, 3, 1)));
    let reread: serde_json::Value = serde_json::from_str(&updated).unwrap();
    assert_eq!(reread["version"], "2.3.1");
    assert_eq!(reread["dependencies"]["@apollo/composition"], "2.3.1");
    assert_eq!(
        npm_dependency_version(package_json, "@apollo/federation").unwrap_err(),
        "`.dependencies.@apollo/federation` is not a string"
    );
    assert_eq!(
        npm_dependency_version("{\"dependencies\": {\"x\": \"latest\"}}", "x").unwrap_err(),
        "version for `x`, `latest`, is not valid semver"
    );
    assert_eq!(
        npm_dependency_version("{", "x").unwrap_err(),
        "package.json is not valid JSON"
    );
}

#[test]
fn unreadable_reports_are_bugs() {
    let failed = reported_outcome(Err("bad json".to_string())).err().unwrap();
    assert_eq!(failed.len(), 1);
    assert_eq!(
        failed.build_errors()[0].get_message().unwrap(),
        "Something went wrong, this is a bug: bad json"
    );
    assert_eq!(reported_outcome(Ok(Ok(BuildOutput::new("s".to_string())))).unwrap().supergraph_sdl, "s");
}
