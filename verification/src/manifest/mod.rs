//! The harmonizer's manifests, prepared for publishing: which npm package
//! sets the version, how the crate's, the workspace's and the supergraph's
//! manifests are rewritten, and the warning put in front of a generated
//! manifest.
use vstd::prelude::*;

pub mod documents;
pub mod publish;

use crate::config::version::SemVer;
use crate::text::{contains_seq, owned, same_text};

verus! {

/// The npm package whose version a harmonizer crate takes: the federation
/// package for `harmonizer-0`, the composition package for `harmonizer-2`,
/// and none for any other crate.
pub open spec fn npm_package_of(crate_name: Seq<char>) -> Option<Seq<char>> {
    if crate_name == "harmonizer-0"@ {
        Some("@apollo/federation"@)
    } else if crate_name == "harmonizer-2"@ {
        Some("@apollo/composition"@)
    } else {
        None
    }
}

/// The npm package whose version a harmonizer crate takes; none for a crate
/// that is not a harmonizer.
pub fn npm_package_for(crate_name: &str) -> (r: Option<String>)
    ensures
        match npm_package_of(crate_name@) {
            Some(p) => r matches Some(s) && s@ == p,
            None => r.is_none(),
        },
{
    if same_text(crate_name, "harmonizer-0") {
        Some(owned("@apollo/federation"))
    } else if same_text(crate_name, "harmonizer-2") {
        Some(owned("@apollo/composition"))
    } else {
        None
    }
}

/// Whether two versions are the same, build metadata included.
pub fn same_version(a: &SemVer, b: &SemVer) -> (r: bool)
    ensures
        r == (a@ == b@),
{
    a.major == b.major && a.minor == b.minor && a.patch == b.patch && same_text(
        a.pre.as_str(),
        b.pre.as_str(),
    ) && same_text(a.build.as_str(), b.build.as_str())
}

/// Whether a workspace member is one of the crates that are published
/// under a fixed name instead: a harmonizer or a supergraph.
pub open spec fn is_versioned_member(member: Seq<char>) -> bool {
    contains_seq(member, "harmonizer"@) || contains_seq(member, "supergraph"@)
}

/// The warning put in front of a generated manifest.
pub open spec fn autogen_warning() -> Seq<char> {
    "#### ⚠️ DO NOT EDIT THIS FILE ⚠️ ####\n## it is autogenerated in build_harmonizer.rs ##\n"@
}

/// A generated manifest: the warning, the contents, and a final newline.
pub fn prepend_autogen_warning(manifest_contents: &str) -> (r: String)
    ensures
        r@ == autogen_warning() + manifest_contents@ + "\n"@,
{
    let mut r = owned(
        "#### ⚠️ DO NOT EDIT THIS FILE ⚠️ ####\n## it is autogenerated in build_harmonizer.rs ##\n",
    );
    r.append(manifest_contents);
    r.append("\n");
    r
}

/// The second of the pieces of a text separated by `-`, when there are at
/// least two.
pub open spec fn second_piece(s: Seq<char>) -> Option<Seq<char>> {
    let pieces = crate::text::split_on(s, '-');
    if pieces.len() >= 2 {
        Some(pieces[1])
    } else {
        None
    }
}

/// The version that a harmonizer's directory name carries: the second of
/// its pieces separated by `-` (`2` of `harmonizer-2`); none when the name
/// has no `-`.
pub fn supergraph_version_of(dir_name: &str) -> (r: Option<String>)
    ensures
        match second_piece(dir_name@) {
            Some(p) => r matches Some(v) && v@ == p,
            None => r.is_none(),
        },
{
    let pieces = crate::text::split_text(dir_name, '-');
    if pieces.len() >= 2 {
        Some(pieces[1].clone())
    } else {
        None
    }
}

} // verus!
