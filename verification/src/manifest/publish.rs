//! Rewriting the manifests of a harmonizer build: the crate's version
//! follows the npm package it bundles, and publishing manifests are written
//! beside the building ones. Each step is the edit that the step before
//! printed; the first failing step gives the whole rewrite's error.
use vstd::prelude::*;

use crate::config::version::{semver_parse, semver_text, SemVer, SemVerView};
use crate::manifest::documents::{
    assign_json_text, assign_nested_toml_text, assign_toml_flag, assign_toml_text,
    json_text_assigned, json_text_at, keep_toml_members, push_toml_text, read_json_text,
    read_toml_array, read_toml_text, remove_toml_key, toml_array_items, toml_array_kept,
    toml_array_pushed, toml_flag_assigned, kept_item, toml_key_removed, toml_nested_text_assigned,
    toml_text_assigned, toml_text_at,
};
use crate::manifest::{autogen_warning, npm_package_for, npm_package_of, prepend_autogen_warning, same_version};
use crate::text::owned;

verus! {

/// The message given for a manifest that is no TOML document.
pub open spec fn invalid_toml_message() -> Seq<char> {
    "Cargo.toml is not valid TOML"@
}

/// The message given where `toml_edit`'s indexing finds no place for a key.
pub open spec fn missing_index_message() -> Seq<char> {
    "index not found"@
}

/// A generated manifest's text: the warning, the contents, a final newline.
pub open spec fn generated(contents: Seq<char>) -> Seq<char> {
    autogen_warning() + contents + "\n"@
}

/// A step that sets a value: its result, or the message of its failure.
pub open spec fn assigned(step: Option<Option<Seq<char>>>) -> Result<Seq<char>, Seq<char>> {
    match step {
        None => Err(invalid_toml_message()),
        Some(None) => Err(missing_index_message()),
        Some(Some(t)) => Ok(t),
    }
}

/// A result of texts, as plain characters.
pub open spec fn text_result(r: Result<String, String>) -> Result<Seq<char>, Seq<char>> {
    match r {
        Ok(t) => Ok(t@),
        Err(m) => Err(m@),
    }
}

/// The npm package that the harmonizer crate described by `build` takes
/// its version from, or why there is none.
pub open spec fn npm_package_outcome(build: Seq<char>) -> Result<Seq<char>, Seq<char>> {
    match toml_text_at(build, "package"@, "name"@) {
        None => Err(invalid_toml_message()),
        Some(None) => Err("`package.name` in Cargo.toml is not a string"@),
        Some(Some(name)) => match npm_package_of(name) {
            Some(p) => Ok(p),
            None => Err("attempting to build unknown crate"@),
        },
    }
}

/// The npm package that the harmonizer crate described by the manifest
/// `build` takes its version from. A manifest with no text at
/// `package.name` is refused as one whose name is not a text.
pub fn harmonizer_npm_package(build: &str) -> (r: Result<String, String>)
    ensures
        text_result(r) == npm_package_outcome(build@),
{
    match read_toml_text(build, "package", "name") {
        None => Err(owned("Cargo.toml is not valid TOML")),
        Some(None) => Err(owned("`package.name` in Cargo.toml is not a string")),
        Some(Some(name)) => match npm_package_for(name.as_str()) {
            Some(p) => Ok(p),
            None => Err(owned("attempting to build unknown crate")),
        },
    }
}

/// The version of the npm dependency `dep` in the npm manifest
/// `package_json`, with the npm manifest that carries that version as its
/// own, or why there is none.
pub open spec fn npm_version_outcome(package_json: Seq<char>, dep: Seq<char>) -> Result<
    (SemVerView, Seq<char>),
    Seq<char>,
> {
    match json_text_at(package_json, "dependencies"@, dep) {
        None => Err("package.json is not valid JSON"@),
        Some(None) => Err("`.dependencies."@ + dep + "` is not a string"@),
        Some(Some(v)) => match semver_parse(v) {
            None => Err("version for `"@ + dep + "`, `"@ + v + "`, is not valid semver"@),
            Some(version) => Ok((version, json_text_assigned(package_json, "version"@, v))),
        },
    }
}

/// The version of the npm dependency `dep` named in the npm manifest
/// `package_json`, and the npm manifest rewritten to carry that version as
/// its own.
pub fn npm_dependency_version(package_json: &str, dep: &str) -> (r: Result<(SemVer, String), String>)
    ensures
        match r {
            Ok((v, updated)) => npm_version_outcome(package_json@, dep@) == Ok::<
                (SemVerView, Seq<char>),
                Seq<char>,
            >((v@, updated@)),
            Err(m) => npm_version_outcome(package_json@, dep@) == Err::<
                (SemVerView, Seq<char>),
                Seq<char>,
            >(m@),
        },
{
    match read_json_text(package_json, "dependencies", dep) {
        None => Err(owned("package.json is not valid JSON")),
        Some(None) => {
            let mut m = owned("`.dependencies.");
            m.append(dep);
            m.append("` is not a string");
            Err(m)
        },
        Some(Some(v)) => match SemVer::parse(v.as_str()) {
            None => {
                let mut m = owned("version for `");
                m.append(dep);
                m.append("`, `");
                m.append(v.as_str());
                m.append("`, is not valid semver");
                Err(m)
            },
            Some(version) => {
                let updated = assign_json_text(package_json, "version", v.as_str());
                Ok((version, updated))
            },
        },
    }
}

/// The publishing manifest made from a building manifest `t` whose version
/// is already right: published, named `harmonizer`, without a build script.
pub open spec fn harmonizer_publish_outcome(t: Seq<char>) -> Result<Seq<char>, Seq<char>> {
    match assigned(toml_flag_assigned(t, "package"@, "publish"@, true)) {
        Err(m) => Err(m),
        Ok(t1) => match assigned(toml_text_assigned(t1, "package"@, "name"@, "harmonizer"@)) {
            Err(m) => Err(m),
            Ok(t2) => match toml_key_removed(t2, "package"@, "build"@) {
                None => Err("`package` is not a table in Cargo.toml"@),
                Some(None) => Err("Could not remove `package.build` from Cargo.toml"@),
                Some(Some(t3)) => Ok(generated(t3)),
            },
        },
    }
}

/// What becomes of the harmonizer crate's manifest `build` when the npm
/// package it bundles is at `npm_version`: the building manifest rewritten
/// to that version where its own differs (`None` where it is the same), and
/// the publishing manifest.
pub open spec fn harmonizer_outcome(build: Seq<char>, npm_version: SemVerView) -> Result<
    (Option<Seq<char>>, Seq<char>),
    Seq<char>,
> {
    match toml_text_at(build, "package"@, "version"@) {
        None => Err(invalid_toml_message()),
        Some(None) => Err("`package.version` in Cargo.toml is not a string"@),
        Some(Some(v)) => match semver_parse(v) {
            None => Err("Crate version is not valid semver"@),
            Some(crate_version) => if crate_version == npm_version {
                match harmonizer_publish_outcome(build) {
                    Err(m) => Err(m),
                    Ok(p) => Ok((None, p)),
                }
            } else {
                match assigned(
                    toml_text_assigned(build, "package"@, "version"@, semver_text(npm_version)),
                ) {
                    Err(m) => Err(m),
                    Ok(t) => match harmonizer_publish_outcome(t) {
                        Err(m) => Err(m),
                        Ok(p) => Ok((Some(t), p)),
                    },
                }
            },
        },
    }
}

/// A step that sets a value, run: its result, or the message of its
/// failure.
fn run_assignment(step: Option<Option<String>>) -> (r: Result<String, String>)
    ensures
        text_result(r) == assigned(crate::manifest::documents::nested_view(step)),
{
    match step {
        None => Err(owned("Cargo.toml is not valid TOML")),
        Some(None) => Err(owned("index not found")),
        Some(Some(t)) => Ok(t),
    }
}

/// The publishing manifest made from a building manifest whose version is
/// already right.
fn harmonizer_publish_manifest(t: &str) -> (r: Result<String, String>)
    ensures
        text_result(r) == harmonizer_publish_outcome(t@),
{
    let t1 = match run_assignment(assign_toml_flag(t, "package", "publish", true)) {
        Ok(t) => t,
        Err(m) => {
            return Err(m);
        },
    };
    let t2 = match run_assignment(assign_toml_text(t1.as_str(), "package", "name", "harmonizer")) {
        Ok(t) => t,
        Err(m) => {
            return Err(m);
        },
    };
    match remove_toml_key(t2.as_str(), "package", "build") {
        None => Err(owned("`package` is not a table in Cargo.toml")),
        Some(None) => Err(owned("Could not remove `package.build` from Cargo.toml")),
        Some(Some(t3)) => Ok(prepend_autogen_warning(t3.as_str())),
    }
}

/// The harmonizer crate's manifests once the npm package it bundles is at
/// `npm_version`: the building manifest rewritten to that version where its
/// own differs (`None` where it is the same), and the publishing manifest.
/// A manifest with no text at `package.version` is refused as one whose
/// version is not a text.
pub fn harmonizer_manifests(build: &str, npm_version: &SemVer) -> (r: Result<
    (Option<String>, String),
    String,
>)
    ensures
        match r {
            Ok((updated, publish)) => harmonizer_outcome(build@, npm_version@) == Ok::<
                (Option<Seq<char>>, Seq<char>),
                Seq<char>,
            >((crate::manifest::documents::opt_view(updated), publish@)),
            Err(m) => harmonizer_outcome(build@, npm_version@) == Err::<
                (Option<Seq<char>>, Seq<char>),
                Seq<char>,
            >(m@),
        },
{
    let v = match read_toml_text(build, "package", "version") {
        None => {
            return Err(owned("Cargo.toml is not valid TOML"));
        },
        Some(None) => {
            return Err(owned("`package.version` in Cargo.toml is not a string"));
        },
        Some(Some(v)) => v,
    };
    let crate_version = match SemVer::parse(v.as_str()) {
        None => {
            return Err(owned("Crate version is not valid semver"));
        },
        Some(c) => c,
    };
    if same_version(npm_version, &crate_version) {
        let p = match harmonizer_publish_manifest(build) {
            Ok(t) => t,
            Err(m) => {
                return Err(m);
            },
        };
        Ok((None, p))
    } else {
        let text = npm_version.text();
        let t = match run_assignment(assign_toml_text(build, "package", "version", text.as_str())) {
            Ok(t) => t,
            Err(m) => {
                return Err(m);
            },
        };
        let p = match harmonizer_publish_manifest(t.as_str()) {
            Ok(t) => t,
            Err(m) => {
                return Err(m);
            },
        };
        Ok((Some(t), p))
    }
}

/// The publishing manifest of the workspace described by `text`: its
/// members, all texts, without the harmonizers and supergraphs, then
/// `harmonizer` and `supergraph`; or why it cannot be made.
pub open spec fn workspace_outcome(text: Seq<char>) -> Result<Seq<char>, Seq<char>> {
    let not_array = "`workspace.members` is not an array in Cargo.toml"@;
    match toml_array_items(text, "workspace"@, "members"@) {
        None => Err(invalid_toml_message()),
        Some(None) => Err(not_array),
        Some(Some(items)) => if exists|i: int| 0 <= i < items.len() && (#[trigger] items[i]) is None {
            Err("`workspace.members` in Cargo.toml contains values that are not strings"@)
        } else {
            match toml_array_kept(text, "workspace"@, "members"@) {
                None => Err(not_array),
                Some(t1) => match toml_array_pushed(t1, "workspace"@, "members"@, "harmonizer"@) {
                    None => Err(not_array),
                    Some(t2) => match toml_array_pushed(
                        t2,
                        "workspace"@,
                        "members"@,
                        "supergraph"@,
                    ) {
                        None => Err(not_array),
                        Some(t3) => Ok(generated(t3)),
                    },
                },
            }
        },
    }
}

/// The members of the published workspace: the members that `keeps_member`
/// keeps, in order, then `harmonizer` and `supergraph`.
pub open spec fn published_items(items: Seq<Option<Seq<char>>>) -> Seq<Option<Seq<char>>> {
    items.filter(|i: Option<Seq<char>>| kept_item(i)).push(Some("harmonizer"@)).push(
        Some("supergraph"@),
    )
}

/// The publishing manifest of the workspace described by the manifest
/// `text`. When it is made, it is a generated manifest whose members are the
/// published ones.
pub fn workspace_publish_manifest(text: &str) -> (r: Result<String, String>)
    ensures
        text_result(r) == workspace_outcome(text@),
        r is Ok ==> (toml_array_items(text@, "workspace"@, "members"@) matches Some(Some(items))
            && exists|body: Seq<char>|
            r->Ok_0@ == generated(body) && toml_array_items(body, "workspace"@, "members"@)
                == Some(Some(published_items(items)))),
{
    let items = match read_toml_array(text, "workspace", "members") {
        None => {
            return Err(owned("Cargo.toml is not valid TOML"));
        },
        Some(None) => {
            return Err(owned("`workspace.members` is not an array in Cargo.toml"));
        },
        Some(Some(items)) => items,
    };
    let ghost seen = items@.map_values(|i: Option<String>| crate::manifest::documents::opt_view(i));
    assert(toml_array_items(text@, "workspace"@, "members"@) == Some(Some(seen)));
    let mut i: usize = 0;
    while i < items.len()
        invariant
            i <= items.len(),
            seen == items@.map_values(|i: Option<String>| crate::manifest::documents::opt_view(i)),
            toml_array_items(text@, "workspace"@, "members"@) == Some(Some(seen)),
            forall|j: int| 0 <= j < i ==> (#[trigger] seen[j]) is Some,
        decreases items.len() - i,
    {
        if items[i].is_none() {
            assert(seen[i as int] is None);
            assert(0 <= i < seen.len());
            return Err(owned("`workspace.members` in Cargo.toml contains values that are not strings"));
        }
        i = i + 1;
    }
    let t1 = match keep_toml_members(text, "workspace", "members") {
        None => {
            return Err(owned("`workspace.members` is not an array in Cargo.toml"));
        },
        Some(t) => t,
    };
    let t2 = match push_toml_text(t1.as_str(), "workspace", "members", "harmonizer") {
        None => {
            return Err(owned("`workspace.members` is not an array in Cargo.toml"));
        },
        Some(t) => t,
    };
    match push_toml_text(t2.as_str(), "workspace", "members", "supergraph") {
        None => Err(owned("`workspace.members` is not an array in Cargo.toml")),
        Some(t3) => {
            let r = prepend_autogen_warning(t3.as_str());
            assert(toml_array_items(t3@, "workspace"@, "members"@) == Some(Some(published_items(seen))));
            Ok(r)
        },
    }
}

/// What becomes of the supergraph crate's manifest `text` when the
/// harmonizer is at `version`: the building manifest at that version, and
/// the publishing manifest, named `supergraph` and taking the harmonizer
/// from `../harmonizer` under its published name.
pub open spec fn supergraph_outcome(text: Seq<char>, version: SemVerView) -> Result<
    (Seq<char>, Seq<char>),
    Seq<char>,
> {
    match assigned(toml_text_assigned(text, "package"@, "version"@, semver_text(version))) {
        Err(m) => Err(m),
        Ok(t1) => match assigned(toml_text_assigned(t1, "package"@, "name"@, "supergraph"@)) {
            Err(m) => Err(m),
            Ok(t2) => match assigned(
                toml_nested_text_assigned(
                    t2,
                    "dependencies"@,
                    "harmonizer"@,
                    "path"@,
                    "../harmonizer"@,
                ),
            ) {
                Err(m) => Err(m),
                Ok(t3) => match assigned(
                    toml_nested_text_assigned(
                        t3,
                        "dependencies"@,
                        "harmonizer"@,
                        "package"@,
                        "harmonizer"@,
                    ),
                ) {
                    Err(m) => Err(m),
                    Ok(t4) => Ok((t1, generated(t4))),
                },
            },
        },
    }
}

/// The supergraph crate's manifests once the harmonizer is at `version`:
/// the building manifest, then the publishing manifest.
pub fn supergraph_manifests(text: &str, version: &SemVer) -> (r: Result<(String, String), String>)
    ensures
        match r {
            Ok((build, publish)) => supergraph_outcome(text@, version@) == Ok::<
                (Seq<char>, Seq<char>),
                Seq<char>,
            >((build@, publish@)),
            Err(m) => supergraph_outcome(text@, version@) == Err::<(Seq<char>, Seq<char>), Seq<char>>(
                m@,
            ),
        },
{
    let v = version.text();
    let t1 = match run_assignment(assign_toml_text(text, "package", "version", v.as_str())) {
        Ok(t) => t,
        Err(m) => {
            return Err(m);
        },
    };
    let t2 = match run_assignment(assign_toml_text(t1.as_str(), "package", "name", "supergraph")) {
        Ok(t) => t,
        Err(m) => {
            return Err(m);
        },
    };
    let t3 = match run_assignment(
        assign_nested_toml_text(t2.as_str(), "dependencies", "harmonizer", "path", "../harmonizer"),
    ) {
        Ok(t) => t,
        Err(m) => {
            return Err(m);
        },
    };
    let t4 = match run_assignment(
        assign_nested_toml_text(t3.as_str(), "dependencies", "harmonizer", "package", "harmonizer"),
    ) {
        Ok(t) => t,
        Err(m) => {
            return Err(m);
        },
    };
    let p = prepend_autogen_warning(t4.as_str());
    Ok((t1, p))
}

} // verus!
