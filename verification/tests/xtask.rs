use federation_rs::config::version::SemVer;
use federation_rs::xtask::packages::{
    cargo_toml_problems, check_artifacts, validate_manifest, get_required_artifact_files, ArtifactEntry, LibraryCrate,
    PackageGroup, PackageTag,
};
use federation_rs::xtask::release::{
    binary_name, package_archive_name, publish_plan, staged_harmonizer, HarmonizerVersion,
};
use federation_rs::xtask::target::{possible_targets, Target};
use federation_rs::xtask::tools::{
    build_command, can_tag, command_line, head_tags, lint_commands, notarize_command,
    npm_lint_commands, publish_command, redact_password, release_tag_commands, select_package_tag,
    test_command, test_verdict,
};

#[test]
fn targets_read_and_print() {
    for t in possible_targets() {
        assert_eq!(Target::from_str(&t).to_text(), t);
    }
    assert!(Target::from_str("riscv64gc-unknown-linux-gnu").is_other());
    assert_eq!(Target::Other.to_text(), "unknown-target");
    assert!(Target::from_str("x86_64-pc-windows-msvc").is_windows());
    assert!(Target::LinuxAarch64.is_linux());
    assert!(Target::MacOSAmd64.is_macos());
}

#[test]
fn target_arguments_and_environment() {
    assert!(Target::Other.get_cargo_args().is_empty());
    assert_eq!(Target::LinuxUnknownGnu.get_cargo_args(), vec!["--target", "x86_64-unknown-linux-gnu"]);
    let env = Target::WindowsMsvc.get_env();
    assert_eq!(env, vec![("RUSTFLAGS".to_string(), "-Ctarget-feature=+crt-static".to_string())]);
    assert!(Target::MacOSAmd64.get_env().is_empty());
}

#[test]
fn platform_targets() {
    assert!(Target::for_platform("linux", "x86_64", "gnu") == Target::LinuxUnknownGnu);
    assert!(Target::for_platform("linux", "aarch64", "gnu") == Target::LinuxAarch64);
    assert!(Target::for_platform("linux", "x86_64", "musl") == Target::Other);
    assert!(Target::for_platform("windows", "x86_64", "msvc") == Target::WindowsMsvc);
    assert!(Target::for_platform("macos", "aarch64", "") == Target::MacOSAmd64);
    assert!(Target::for_platform("freebsd", "x86_64", "") == Target::Other);
}

#[test]
fn package_groups() {
    assert!(PackageGroup::from_str("composition").unwrap() == PackageGroup::Composition);
    assert_eq!(
        PackageGroup::from_str("harmonizer").err().unwrap(),
        "harmonizer is not a valid package group. you probably want the 'composition' prefix instead."
    );
    assert_eq!(PackageGroup::from_str("nope").err().unwrap(), "nope is not a valid package group");
    assert_eq!(PackageGroup::Composition.get_tag_prefixes(), vec!["composition", "harmonizer", "supergraph"]);
    assert!(PackageGroup::RouterBridge.get_library() == LibraryCrate::RouterBridge);
    assert_eq!(LibraryCrate::Harmonizer.to_text(), "harmonizer");
    assert_eq!(PackageGroup::Composition.crates_to_validate(), vec!["harmonizer", "composition"]);
}

#[test]
fn package_tags() {
    let tag = PackageTag::parse("  composition@v2.3.4\n").ok().unwrap();
    assert!(tag.package_group == PackageGroup::Composition);
    assert_eq!(tag.to_text(), "composition@v2.3.4");
    assert_eq!(
        tag.all_tags(),
        vec!["composition@v2.3.4", "harmonizer@v2.3.4", "supergraph@v2.3.4"]
    );
    assert_eq!(
        PackageTag::parse("composition-2.3.4").err().unwrap(),
        "package tag must be in format '{package_group}@v{package_version}"
    );
    assert!(PackageTag::parse("composition@v2@v3").is_err());
    assert!(PackageTag::parse("harmonizer@v2.3.4").is_err());
    assert!(PackageTag::parse("router-bridge@vnot.a.version").is_err());
}

#[test]
fn required_artifacts() {
    let files = get_required_artifact_files(&SemVer::new(2, 3, 4));
    assert_eq!(files.len(), 8);
    assert_eq!(files[0], "supergraph-v2.3.4-x86_64-unknown-linux-gnu.tar.gz");
    assert_eq!(files[3], "supergraph-v2.3.4-x86_64-apple-darwin.tar.gz");
    assert_eq!(&files[4..], &["LICENSE", "sha1sums.txt", "sha256sums.txt", "md5sums.txt"]);
}

fn entry(name: &str, is_file: bool, is_dir: bool) -> ArtifactEntry {
    ArtifactEntry { name: name.to_string(), is_file, is_dir }
}

#[test]
fn artifact_checks() {
    let required = get_required_artifact_files(&SemVer::new(2, 3, 4));
    let all: Vec<ArtifactEntry> = required.iter().map(|n| entry(n, true, false)).collect();
    assert!(check_artifacts(&all, &required).is_ok());
    assert_eq!(
        check_artifacts(&vec![entry("LICENSE", true, false)], &required).err().unwrap(),
        "Could not find all required artifact files."
    );
    assert!(check_artifacts(&vec![], &required).is_err());
    assert_eq!(
        check_artifacts(&vec![entry("extra.txt", true, false)], &required).err().unwrap(),
        "Could not find all required artifact files."
    );
    assert_eq!(
        check_artifacts(&vec![entry("LICENSE", true, false), entry("sub", false, true), entry("other", false, true)], &required)
            .err()
            .unwrap(),
        "Encountered unexpected dir sub. Please remove it before re-running this command."
    );
}

#[test]
fn manifest_problems() {
    assert!(cargo_toml_problems("harmonizer", "2.3.4", "harmonizer", "2.3.4").is_empty());
    assert_eq!(
        cargo_toml_problems("harmonizer-2", "2.3.3", "harmonizer", "2.3.4"),
        vec!["name harmonizer-2 != harmonizer", "version 2.3.3 != 2.3.4"]
    );
}

#[test]
fn cargo_invocations() {
    let c = build_command(&Target::LinuxUnknownGnu, true);
    assert_eq!(c.args, vec!["build", "--release", "--locked", "--target", "x86_64-unknown-linux-gnu"]);
    assert_eq!(c.env.unwrap().len(), 0);
    let c = build_command(&Target::Other, false);
    assert_eq!(c.args, vec!["build"]);
    assert_eq!(test_command().args, vec!["test", "--locked"]);
    let (fmt, clippy) = lint_commands();
    assert_eq!(fmt.args, vec!["fmt", "--all", "--", "--check"]);
    assert_eq!(clippy.args, vec!["clippy", "--", "-D", "warnings"]);
    assert_eq!(publish_command(&LibraryCrate::ApolloFederationTypes).args, vec!["publish", "-p", "apollo-federation-types"]);
    assert_eq!(publish_command(&LibraryCrate::RouterBridge).args, vec!["publish", "-p", "router-bridge", "--allow-dirty"]);
    assert_eq!(test_verdict(false).err().unwrap(), "Tests failed");
    assert!(test_verdict(true).is_ok());
    assert_eq!(command_line("cargo", &vec!["build".to_string(), "--release".to_string()]), "cargo build --release");
}

#[test]
fn git_decisions() {
    assert!(can_tag("On branch main\nnothing to commit").is_ok());
    assert_eq!(
        can_tag("Changes not staged for commit:\n  modified: x").err().unwrap(),
        "Your working tree is dirty, please fix this before releasing."
    );
    assert_eq!(
        can_tag("Your branch is out of date with 'origin/main'").err().unwrap(),
        "Your local `main` is out of date with the remote"
    );
    assert_eq!(head_tags("a\n\nb\r\n"), vec!["a", "b"]);
    let (create, push) = release_tag_commands("composition@v2.3.4");
    assert_eq!(create, vec!["tag", "-a", "composition@v2.3.4", "-m", "composition@v2.3.4"]);
    assert_eq!(push, vec!["push", "origin", "refs/tags/composition@v2.3.4", "--no-verify"]);
}

#[test]
fn package_tag_selection() {
    let tags: Vec<String> = vec!["composition@v2.3.4", "harmonizer@v2.3.4", "supergraph@v2.3.4"]
        .into_iter()
        .map(String::from)
        .collect();
    let tag = select_package_tag(&tags, &vec![true, false, false]).ok().unwrap();
    assert!(tag.package_group == PackageGroup::Composition);
    let partial: Vec<String> = vec!["composition@v2.3.4".to_string()];
    assert_eq!(
        select_package_tag(&partial, &vec![true]).err().unwrap(),
        "The tag(s) pointing to HEAD are invalid. current current_git_tags: [\"composition@v2.3.4\"]"
    );
    assert_eq!(
        select_package_tag(&vec![], &vec![]).err().unwrap(),
        "It doesn't look like there are any current_git_tags pointing to HEAD."
    );
    let router: Vec<String> = vec!["router-bridge@v0.1.0".to_string()];
    assert!(select_package_tag(&router, &vec![true]).is_ok());
    assert!(select_package_tag(&router, &vec![false]).is_err());
}

#[test]
fn npm_and_xcrun() {
    let (install, lint) = npm_lint_commands();
    assert_eq!(install, vec!["install", "--prefix=harmonizer"]);
    assert_eq!(lint, vec!["run", "--prefix=harmonizer", "lint"]);
    let (args, hidden) = notarize_command("dist.zip", "me@x", "TEAM", "secret");
    assert_eq!(args, vec!["notarytool", "submit", "dist.zip", "--apple-id", "me@x", "--team-id", "TEAM", "--wait", "--timeout", "20m"]);
    assert_eq!(hidden, vec!["--password", "secret"]);
    assert_eq!(redact_password("failed with secret and secret", "secret"), "failed with xxxx-xxxx-xxxx-xxxx and xxxx-xxxx-xxxx-xxxx");
}

#[test]
fn release_decisions() {
    assert!(HarmonizerVersion::from_str("2").unwrap() == HarmonizerVersion::Two);
    assert_eq!(HarmonizerVersion::from_str("1").err().unwrap(), "Invalid harmonizer version.");
    let two = HarmonizerVersion::Two;
    assert_eq!(two.get_name(), "harmonizer-2");
    assert_eq!(two.get_other_name(), "harmonizer-0");
    assert_eq!(two.supergraph_name(), "supergraph-2");
    assert_eq!(two.other_supergraph_name(), "supergraph-0");
    let tag = PackageTag::parse("composition@v2.3.4").ok().unwrap();
    assert!(staged_harmonizer(&tag).unwrap().unwrap() == HarmonizerVersion::Two);
    let tag1 = PackageTag::parse("composition@v1.0.0").ok().unwrap();
    assert!(staged_harmonizer(&tag1).unwrap().is_err());
    let router = PackageTag::parse("router-bridge@v0.1.0").ok().unwrap();
    assert!(staged_harmonizer(&router).is_none());
    assert_eq!(
        package_archive_name(&tag, &Target::MacOSAmd64).unwrap(),
        "supergraph-v2.3.4-x86_64-apple-darwin.tar.gz"
    );
    assert_eq!(
        package_archive_name(&router, &Target::MacOSAmd64).err().unwrap(),
        "Only the `composition` package group can be packaged"
    );
    assert_eq!(binary_name(".exe"), "supergraph.exe");
    let (check, library) = publish_plan(&tag);
    assert!(check);
    assert!(library == LibraryCrate::Harmonizer);
    assert!(!publish_plan(&router).0);
}

#[test]
fn package_tags_read_back_from_their_text() {
    for text in ["composition@v2.3.4", "router-bridge@v0.5.1-beta.2", "apollo-federation-types@v1.0.0+build.7"] {
        let tag = PackageTag::parse(text).ok().unwrap();
        assert_eq!(tag.to_text(), text);
        let again = PackageTag::parse(&tag.to_text()).ok().unwrap();
        assert!(again.package_group == tag.package_group);
        assert_eq!(again.version.text(), tag.version.text());
        assert_eq!(tag.all_tags()[0], tag.to_text());
    }
}

#[test]
fn the_other_harmonizer_of_the_other_is_the_first() {
    for v in [HarmonizerVersion::Zero, HarmonizerVersion::Two] {
        assert_ne!(v.get_name(), v.get_other_name());
        let other = HarmonizerVersion::from_str(if v == HarmonizerVersion::Zero { "2" } else { "0" }).unwrap();
        assert_eq!(other.get_other_name(), v.get_name());
    }
}

#[test]
fn manifests_are_validated() {
    let good = "[package]\nname = \"supergraph\"\nversion = \"2.3.1\"\n";
    assert!(validate_manifest(good, "supergraph", "2.3.1").is_ok());
    assert_eq!(
        validate_manifest(good, "harmonizer", "2.4.0").unwrap_err(),
        vec!["name supergraph != harmonizer", "version 2.3.1 != 2.4.0"]
    );
    assert_eq!(
        validate_manifest("[package", "supergraph", "2.3.1").unwrap_err(),
        vec!["Cargo.toml is invalid"]
    );
    assert_eq!(
        validate_manifest("[package]\nname = \"supergraph\"\nversion = \"two\"\n", "supergraph", "2.3.1")
            .unwrap_err(),
        vec!["version in Cargo.toml is not valid semver"]
    );
}

#[test]
fn windows_builds_link_the_c_runtime_statically() {
    let c = build_command(&Target::WindowsMsvc, true);
    let env = c.env.unwrap();
    assert_eq!(env.len(), 1);
    assert_eq!(env[0].0, "RUSTFLAGS");
    assert_eq!(env[0].1, "-Ctarget-feature=+crt-static");
}
