//! The decisions of the release commands: which harmonizer a composition
//! release stages, what a release archive is called, and what a publish
//! checks before it publishes.
use vstd::prelude::*;

use crate::config::version::{semver_text, SemVer};
use crate::text::{decimal, owned, replace_seq, replace_text, same_text, to_decimal};
use crate::xtask::packages::{library_of, LibraryCrate, PackageGroup, PackageTag};
use crate::xtask::target::{target_text, Target};

verus! {

/// The harmonizer that a composition release is staged with.
#[derive(Debug, PartialEq, Eq, Structural)]
pub enum HarmonizerVersion {
    Zero,
    Two,
}

/// The directory name of a harmonizer.
pub open spec fn harmonizer_name(v: HarmonizerVersion) -> Seq<char> {
    match v {
        HarmonizerVersion::Zero => "harmonizer-0"@,
        HarmonizerVersion::Two => "harmonizer-2"@,
    }
}

/// The other harmonizer.
pub open spec fn other_harmonizer(v: HarmonizerVersion) -> HarmonizerVersion {
    match v {
        HarmonizerVersion::Zero => HarmonizerVersion::Two,
        HarmonizerVersion::Two => HarmonizerVersion::Zero,
    }
}

/// The message given for a harmonizer version that does not exist.
pub open spec fn invalid_harmonizer_message() -> Seq<char> {
    "Invalid harmonizer version."@
}

impl HarmonizerVersion {
    /// Reads a harmonizer version: `0` or `2`.
    pub fn from_str(input: &str) -> (r: Result<HarmonizerVersion, String>)
        ensures
            input@ == "0"@ ==> r == Ok::<HarmonizerVersion, String>(HarmonizerVersion::Zero),
            input@ == "2"@ ==> r == Ok::<HarmonizerVersion, String>(HarmonizerVersion::Two),
            input@ != "0"@ && input@ != "2"@ ==> (r matches Err(m) && m@
                == invalid_harmonizer_message()),
    {
        proof {
            reveal_strlit("0");
            reveal_strlit("2");
            assert("0"@[0] != "2"@[0]);
        }
        if same_text(input, "0") {
            Ok(HarmonizerVersion::Zero)
        } else if same_text(input, "2") {
            Ok(HarmonizerVersion::Two)
        } else {
            Err(owned("Invalid harmonizer version."))
        }
    }

    /// The directory name of the harmonizer.
    pub fn get_name(&self) -> (r: String)
        ensures
            r@ == harmonizer_name(*self),
    {
        match self {
            HarmonizerVersion::Zero => owned("harmonizer-0"),
            HarmonizerVersion::Two => owned("harmonizer-2"),
        }
    }

    /// The directory name of the other harmonizer.
    pub fn get_other_name(&self) -> (r: String)
        ensures
            r@ == harmonizer_name(other_harmonizer(*self)),
    {
        match self {
            HarmonizerVersion::Two => HarmonizerVersion::Zero,
            HarmonizerVersion::Zero => HarmonizerVersion::Two,
        }.get_name()
    }

    /// The directory name of the supergraph that goes with the harmonizer.
    pub fn supergraph_name(&self) -> (r: String)
        ensures
            r@ == replace_seq(harmonizer_name(*self), "harmonizer"@, "supergraph"@),
    {
        let n = self.get_name();
        replace_text(n.as_str(), "harmonizer", "supergraph")
    }

    /// The directory name of the supergraph that goes with the other
    /// harmonizer.
    pub fn other_supergraph_name(&self) -> (r: String)
        ensures
            r@ == replace_seq(harmonizer_name(other_harmonizer(*self)), "harmonizer"@, "supergraph"@),
    {
        let n = self.get_other_name();
        replace_text(n.as_str(), "harmonizer", "supergraph")
    }
}

/// The other harmonizer of the other harmonizer is the first one, and the
/// two have different names.
pub proof fn law_other_harmonizer(v: HarmonizerVersion)
    ensures
        other_harmonizer(other_harmonizer(v)) == v,
        harmonizer_name(other_harmonizer(v)) != harmonizer_name(v),
{
    reveal_strlit("harmonizer-0");
    reveal_strlit("harmonizer-2");
    assert("harmonizer-0"@[11] != "harmonizer-2"@[11]);
}

/// What the staging of a release decides: nothing to stage for a group
/// other than composition; else the harmonizer named by the major version,
/// or the error when there is none of that number.
pub fn staged_harmonizer(tag: &PackageTag) -> (r: Option<Result<HarmonizerVersion, String>>)
    ensures
        tag.package_group != PackageGroup::Composition ==> r is None,
        tag.package_group == PackageGroup::Composition ==> (r matches Some(x) && (x is Ok <==> (
        tag.version.major == 0 || tag.version.major == 2)) && (tag.version.major == 0 ==> x
            == Ok::<HarmonizerVersion, String>(HarmonizerVersion::Zero)) && (tag.version.major == 2
            ==> x == Ok::<HarmonizerVersion, String>(HarmonizerVersion::Two))),
{
    if tag.package_group == PackageGroup::Composition {
        let major = to_decimal(tag.version.major);
        proof {
            reveal_strlit("0");
            reveal_strlit("2");
            crate::text::lemma_decimal_small(tag.version.major as nat);
        }
        Some(HarmonizerVersion::from_str(major.as_str()))
    } else {
        None
    }
}

/// The message given when another group than composition is packaged.
pub open spec fn only_composition_message() -> Seq<char> {
    "Only the `composition` package group can be packaged"@
}

/// The name of the archive a release of the supergraph binary is packed
/// in, for a version and a target.
pub open spec fn archive_name(version: SemVer, target: Target) -> Seq<char> {
    "supergraph-v"@ + semver_text(version@) + "-"@ + target_text(target) + ".tar.gz"@
}

/// The archive to pack the supergraph binary in: only a composition
/// release is packaged.
pub fn package_archive_name(tag: &PackageTag, target: &Target) -> (r: Result<String, String>)
    ensures
        tag.package_group == PackageGroup::Composition ==> (r matches Ok(n) && n@ == archive_name(
            tag.version,
            *target,
        )),
        tag.package_group != PackageGroup::Composition ==> (r matches Err(m) && m@
            == only_composition_message()),
{
    if tag.package_group != PackageGroup::Composition {
        return Err(owned("Only the `composition` package group can be packaged"));
    }
    let mut r = owned("supergraph-v");
    let v = tag.version.text();
    r.append(v.as_str());
    r.append("-");
    let t = target.to_text();
    r.append(t.as_str());
    r.append(".tar.gz");
    Ok(r)
}

/// The name of the supergraph binary with the platform's suffix for
/// executables.
pub fn binary_name(exe_suffix: &str) -> (r: String)
    ensures
        r@ == "supergraph"@ + exe_suffix@,
{
    let mut r = owned("supergraph");
    r.append(exe_suffix);
    r
}

/// What a publish does, once it knows the release: a composition release
/// checks its artifacts first; every release publishes its group's crate.
pub fn publish_plan(tag: &PackageTag) -> (r: (bool, LibraryCrate))
    ensures
        r.0 == (tag.package_group == PackageGroup::Composition),
        r.1 == library_of(tag.package_group),
{
    (tag.package_group == PackageGroup::Composition, tag.package_group.get_library())
}

} // verus!
