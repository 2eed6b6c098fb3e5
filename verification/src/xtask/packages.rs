//! Package groups, the tags that release them, and the artifacts a release
//! of the composition group must hold.
use vstd::prelude::*;

use crate::config::supergraph::debug_list;
use crate::config::version::{semver_parse, semver_text, SemVer};
use crate::manifest::documents::{read_package_fields, toml_package_fields};
use crate::text::{owned, same_text, trim_seq, trim_text, views};
use crate::xtask::target::{possible_target_triples, possible_targets};

verus! {

/// A group of packages that are released together.
#[derive(Debug, PartialEq, Eq, Structural)]
pub enum PackageGroup {
    Composition,
    ApolloFederationTypes,
    RouterBridge,
}

/// A crate that is published to the registry.
#[derive(Debug, PartialEq, Eq, Structural)]
pub enum LibraryCrate {
    Harmonizer,
    ApolloFederationTypes,
    RouterBridge,
}

/// The name of a package group.
pub open spec fn group_text(g: PackageGroup) -> Seq<char> {
    match g {
        PackageGroup::Composition => "composition"@,
        PackageGroup::ApolloFederationTypes => "apollo-federation-types"@,
        PackageGroup::RouterBridge => "router-bridge"@,
    }
}

/// The prefixes of the tags that release a package group.
pub open spec fn tag_prefixes(g: PackageGroup) -> Seq<Seq<char>> {
    match g {
        PackageGroup::Composition => seq!["composition"@, "harmonizer"@, "supergraph"@],
        PackageGroup::ApolloFederationTypes => seq!["apollo-federation-types"@],
        PackageGroup::RouterBridge => seq!["router-bridge"@],
    }
}

/// The crate that a package group publishes.
pub open spec fn library_of(g: PackageGroup) -> LibraryCrate {
    match g {
        PackageGroup::Composition => LibraryCrate::Harmonizer,
        PackageGroup::ApolloFederationTypes => LibraryCrate::ApolloFederationTypes,
        PackageGroup::RouterBridge => LibraryCrate::RouterBridge,
    }
}

/// The name of a published crate.
pub open spec fn library_text(l: LibraryCrate) -> Seq<char> {
    match l {
        LibraryCrate::Harmonizer => "harmonizer"@,
        LibraryCrate::RouterBridge => "router-bridge"@,
        LibraryCrate::ApolloFederationTypes => "apollo-federation-types"@,
    }
}

/// What a group name reads as: a group, or the message saying why it is
/// none.
pub open spec fn group_from_text(s: Seq<char>) -> Result<PackageGroup, Seq<char>> {
    if s == "composition"@ {
        Ok(PackageGroup::Composition)
    } else if s == "apollo-federation-types"@ {
        Ok(PackageGroup::ApolloFederationTypes)
    } else if s == "router-bridge"@ {
        Ok(PackageGroup::RouterBridge)
    } else if s == "harmonizer"@ || s == "supergraph"@ {
        Err(s + " is not a valid package group. you probably want the 'composition' prefix instead."@)
    } else {
        Err(s + " is not a valid package group"@)
    }
}

impl LibraryCrate {
    /// The crate's name.
    pub fn to_text(&self) -> (r: String)
        ensures
            r@ == library_text(*self),
    {
        match self {
            LibraryCrate::Harmonizer => owned("harmonizer"),
            LibraryCrate::RouterBridge => owned("router-bridge"),
            LibraryCrate::ApolloFederationTypes => owned("apollo-federation-types"),
        }
    }
}

impl PackageGroup {
    /// The group's name.
    pub fn to_text(&self) -> (r: String)
        ensures
            r@ == group_text(*self),
    {
        match self {
            PackageGroup::Composition => owned("composition"),
            PackageGroup::ApolloFederationTypes => owned("apollo-federation-types"),
            PackageGroup::RouterBridge => owned("router-bridge"),
        }
    }

    /// A copy of the group.
    pub fn duplicate(&self) -> (r: PackageGroup)
        ensures
            r == *self,
    {
        match self {
            PackageGroup::Composition => PackageGroup::Composition,
            PackageGroup::ApolloFederationTypes => PackageGroup::ApolloFederationTypes,
            PackageGroup::RouterBridge => PackageGroup::RouterBridge,
        }
    }

    /// The prefixes of the tags that release the group.
    pub fn get_tag_prefixes(&self) -> (r: Vec<String>)
        ensures
            views(r@) == tag_prefixes(*self),
    {
        let mut r: Vec<String> = Vec::new();
        match self {
            PackageGroup::Composition => {
                r.push(owned("composition"));
                r.push(owned("harmonizer"));
                r.push(owned("supergraph"));
            },
            PackageGroup::ApolloFederationTypes => {
                r.push(owned("apollo-federation-types"));
            },
            PackageGroup::RouterBridge => {
                r.push(owned("router-bridge"));
            },
        }
        assert(views(r@) =~= tag_prefixes(*self));
        r
    }

    /// The crate that the group publishes.
    pub fn get_library(&self) -> (r: LibraryCrate)
        ensures
            r == library_of(*self),
    {
        match self {
            PackageGroup::Composition => LibraryCrate::Harmonizer,
            PackageGroup::ApolloFederationTypes => LibraryCrate::ApolloFederationTypes,
            PackageGroup::RouterBridge => LibraryCrate::RouterBridge,
        }
    }

    /// Reads a group name; `harmonizer` and `supergraph` are refused with a
    /// hint to use `composition`.
    pub fn from_str(s: &str) -> (r: Result<PackageGroup, String>)
        ensures
            match group_from_text(s@) {
                Ok(g) => r == Ok::<PackageGroup, String>(g),
                Err(m) => r matches Err(e) && e@ == m,
            },
    {
        if same_text(s, "composition") {
            Ok(PackageGroup::Composition)
        } else if same_text(s, "apollo-federation-types") {
            Ok(PackageGroup::ApolloFederationTypes)
        } else if same_text(s, "router-bridge") {
            Ok(PackageGroup::RouterBridge)
        } else if same_text(s, "harmonizer") || same_text(s, "supergraph") {
            let mut m = owned(s);
            m.append(
                " is not a valid package group. you probably want the 'composition' prefix instead.",
            );
            Err(m)
        } else {
            let mut m = owned(s);
            m.append(" is not a valid package group");
            Err(m)
        }
    }

    /// The names of the crates whose manifests must carry the released
    /// version: the group's crate, and `composition` too for the
    /// composition group.
    pub fn crates_to_validate(&self) -> (r: Vec<String>)
        ensures
            views(r@) == if *self == PackageGroup::Composition {
                seq![library_text(library_of(*self)), "composition"@]
            } else {
                seq![library_text(library_of(*self))]
            },
    {
        let mut r: Vec<String> = Vec::new();
        r.push(self.get_library().to_text());
        if *self == PackageGroup::Composition {
            r.push(owned("composition"));
        }
        proof {
            if *self == PackageGroup::Composition {
                assert(views(r@) =~= seq![library_text(library_of(*self)), "composition"@]);
            } else {
                assert(views(r@) =~= seq![library_text(library_of(*self))]);
            }
        }
        r
    }
}

/// A package group and the version it is released at.
#[derive(Debug)]
pub struct PackageTag {
    pub package_group: PackageGroup,
    pub version: SemVer,
}

/// A tag: a prefix, `@v` and a version.
pub open spec fn tag_text(prefix: Seq<char>, version: SemVer) -> Seq<char> {
    prefix + "@v"@ + semver_text(version@)
}

/// Whether `@v` starts at position `i` of `t`.
pub open spec fn at_v(t: Seq<char>, i: int) -> bool {
    0 <= i && i + 1 < t.len() && t[i] == '@' && t[i + 1] == 'v'
}

/// The two sides of the one `@v` of a text, when it has exactly one.
pub open spec fn tag_parts(t: Seq<char>) -> Option<(Seq<char>, Seq<char>)> {
    if exists|i: int| at_v(t, i) && forall|j: int| #[trigger] at_v(t, j) ==> j == i {
        let i = choose|i: int| at_v(t, i) && forall|j: int| #[trigger] at_v(t, j) ==> j == i;
        Some((t.subrange(0, i), t.subrange(i + 2, t.len() as int)))
    } else {
        None
    }
}

/// The message given for a tag that is not a group and a version.
pub open spec fn tag_format_message() -> Seq<char> {
    "package tag must be in format '{package_group}@v{package_version}"@
}

/// Finds the one `@v` of a text: its position when there is exactly one.
fn find_single_at_v(t: &Vec<char>) -> (r: Option<usize>)
    ensures
        match r {
            Some(i) => at_v(t@, i as int) && forall|j: int| #[trigger] at_v(t@, j) ==> j == i,
            None => !(exists|i: int| at_v(t@, i) && forall|j: int| #[trigger] at_v(t@, j) ==> j == i),
        },
{
    let n = t.len();
    let mut first: Option<usize> = None;
    let mut several = false;
    let mut k: usize = 0;
    while k < n
        invariant
            k <= n,
            n == t@.len(),
            first.is_none() ==> forall|j: int| 0 <= j < k ==> !#[trigger] at_v(t@, j),
            first matches Some(p) ==> p < k && at_v(t@, p as int) && forall|j: int|
                0 <= j < p ==> !#[trigger] at_v(t@, j),
            first.is_none() ==> !several,
            first matches Some(p) ==> (several <==> exists|j: int|
                0 <= j < k && j != p && #[trigger] at_v(t@, j)),
        decreases n - k,
    {
        if k + 1 < n && t[k] == '@' && t[k + 1] == 'v' {
            assert(at_v(t@, k as int));
            match first {
                None => {
                    first = Some(k);
                },
                Some(p) => {
                    several = true;
                },
            }
        } else {
            assert(!at_v(t@, k as int));
        }
        k = k + 1;
    }
    match first {
        Some(p) => {
            if several {
                proof {
                    let j = choose|j: int| 0 <= j < k && j != p && #[trigger] at_v(t@, j);
                    if exists|i: int| at_v(t@, i) && forall|j: int| #[trigger] at_v(t@, j) ==> j == i {
                        let i = choose|i: int|
                            at_v(t@, i) && forall|j: int| #[trigger] at_v(t@, j) ==> j == i;
                        assert(at_v(t@, p as int));
                    }
                }
                None
            } else {
                proof {
                    assert forall|j: int| #[trigger] at_v(t@, j) implies j == p by {
                        if j != p {
                            assert(0 <= j < k);
                        }
                    }
                }
                Some(p)
            }
        },
        None => None,
    }
}

/// The characters of `t` from `from` to `to`, as a text.
fn text_between(t: &Vec<char>, from: usize, to: usize) -> (r: String)
    requires
        from <= to <= t@.len(),
    ensures
        r@ == t@.subrange(from as int, to as int),
{
    let mut r = String::new();
    let mut k: usize = from;
    while k < to
        invariant
            from <= k <= to <= t@.len(),
            r@ == t@.subrange(from as int, k as int),
        decreases to - k,
    {
        crate::text::push_char(&mut r, t[k]);
        assert(t@.subrange(from as int, k + 1) =~= t@.subrange(from as int, k as int).push(
            t@[k as int],
        ));
        k = k + 1;
    }
    r
}

impl PackageTag {
    /// The tags that release the group at the version: each prefix, `@v`
    /// and the version.
    pub fn all_tags(&self) -> (r: Vec<String>)
        ensures
            views(r@) == tag_prefixes(self.package_group).map_values(
                |p: Seq<char>| tag_text(p, self.version),
            ),
    {
        let prefixes = self.package_group.get_tag_prefixes();
        let version = self.version.text();
        let mut r: Vec<String> = Vec::new();
        let mut i: usize = 0;
        while i < prefixes.len()
            invariant
                i <= prefixes.len(),
                views(prefixes@) == tag_prefixes(self.package_group),
                version@ == semver_text(self.version@),
                views(r@) =~= views(prefixes@).subrange(0, i as int).map_values(
                    |p: Seq<char>| tag_text(p, self.version),
                ),
            decreases prefixes.len() - i,
        {
            let mut t = prefixes[i].clone();
            t.append("@v");
            t.append(version.as_str());
            let ghost before = r@;
            r.push(t);
            proof {
                assert(views(r@) =~= views(before).push(t@));
                assert(views(prefixes@).subrange(0, i + 1).map_values(
                    |p: Seq<char>| tag_text(p, self.version),
                ) =~= views(prefixes@).subrange(0, i as int).map_values(
                    |p: Seq<char>| tag_text(p, self.version),
                ).push(tag_text(prefixes@[i as int]@, self.version)));
            }
            i = i + 1;
        }
        assert(views(prefixes@).subrange(0, prefixes.len() as int) =~= views(prefixes@));
        r
    }

    /// The tag as text: the group's name, `@v` and the version.
    pub fn to_text(&self) -> (r: String)
        ensures
            r@ == tag_text(group_text(self.package_group), self.version),
    {
        let mut r = self.package_group.to_text();
        r.append("@v");
        let v = self.version.text();
        r.append(v.as_str());
        r
    }

    /// Reads a tag, `group@vversion` with white space around it allowed;
    /// the manifests of the group are not looked at here.
    pub fn parse(s: &str) -> (r: Result<PackageTag, String>)
        ensures
            tag_parts(trim_seq(s@)) is None ==> (r matches Err(m) && m@ == tag_format_message()),
            match tag_parts(trim_seq(s@)) {
                Some((g, v)) => match group_from_text(g) {
                    Err(m) => r matches Err(e) && e@ == m,
                    Ok(group) => match semver_parse(v) {
                        None => r is Err,
                        Some(version) => r matches Ok(tag) && tag.package_group == group
                            && tag.version@ == version,
                    },
                },
                None => true,
            },
    {
        let trimmed = trim_text(s);
        let chars = crate::text::chars_of(trimmed.as_str());
        match find_single_at_v(&chars) {
            None => Err(owned("package tag must be in format '{package_group}@v{package_version}")),
            Some(i) => {
                assert(at_v(chars@, i as int));
                assert(i + 2 <= chars.len());
                let group_name = text_between(&chars, 0, i);
                let version_text = text_between(&chars, i + 2, chars.len());
                proof {
                    let j = choose|j: int|
                        at_v(chars@, j) && forall|k: int| #[trigger] at_v(chars@, k) ==> k == j;
                    assert(j == i);
                }
                let package_group = PackageGroup::from_str(group_name.as_str())?;
                let version = SemVer::try_parse(version_text.as_str())?;
                Ok(PackageTag { package_group, version })
            },
        }
    }

    /// A copy of the tag.
    pub fn duplicate(&self) -> (r: PackageTag)
        ensures
            r == *self,
    {
        PackageTag { package_group: self.package_group.duplicate(), version: self.version.duplicate() }
    }
}

/// The name of the archive of the supergraph binary for a target triple.
pub open spec fn tarball_name(version: SemVer, triple: Seq<char>) -> Seq<char> {
    "supergraph-v"@ + semver_text(version@) + "-"@ + triple + ".tar.gz"@
}

/// The files a release of the composition group must hold: an archive for
/// each target, the license and the three checksum files.
pub open spec fn required_artifacts(version: SemVer) -> Seq<Seq<char>> {
    possible_target_triples().map_values(|t: Seq<char>| tarball_name(version, t)) + seq![
        "LICENSE"@,
        "sha1sums.txt"@,
        "sha256sums.txt"@,
        "md5sums.txt"@,
    ]
}

/// The files a release of the composition group must hold.
pub fn get_required_artifact_files(version: &SemVer) -> (r: Vec<String>)
    ensures
        views(r@) == required_artifacts(*version),
{
    let triples = possible_targets();
    let v = version.text();
    let mut r: Vec<String> = Vec::new();
    let mut i: usize = 0;
    while i < triples.len()
        invariant
            i <= triples.len(),
            views(triples@) == possible_target_triples(),
            v@ == semver_text(version@),
            views(r@) =~= views(triples@).subrange(0, i as int).map_values(
                |t: Seq<char>| tarball_name(*version, t),
            ),
        decreases triples.len() - i,
    {
        let mut name = owned("supergraph-v");
        name.append(v.as_str());
        name.append("-");
        name.append(triples[i].as_str());
        name.append(".tar.gz");
        let ghost before = r@;
        r.push(name);
        proof {
            assert(views(r@) =~= views(before).push(name@));
            assert(views(triples@).subrange(0, i + 1).map_values(
                |t: Seq<char>| tarball_name(*version, t),
            ) =~= views(triples@).subrange(0, i as int).map_values(
                |t: Seq<char>| tarball_name(*version, t),
            ).push(tarball_name(*version, triples@[i as int]@)));
        }
        i = i + 1;
    }
    assert(views(triples@).subrange(0, triples.len() as int) =~= views(triples@));
    let ghost archives = r@;
    r.push(owned("LICENSE"));
    r.push(owned("sha1sums.txt"));
    r.push(owned("sha256sums.txt"));
    r.push(owned("md5sums.txt"));
    assert(views(r@) =~= views(archives) + seq![
        "LICENSE"@,
        "sha1sums.txt"@,
        "sha256sums.txt"@,
        "md5sums.txt"@,
    ]);
    r
}

/// One entry of the artifacts directory: its name, and whether it is a
/// file or a directory.
#[derive(Debug)]
pub struct ArtifactEntry {
    pub name: String,
    pub is_file: bool,
    pub is_dir: bool,
}

/// Whether an entry is taken as a directory: not a file, and a directory.
pub open spec fn taken_as_dir(e: ArtifactEntry) -> bool {
    !e.is_file && e.is_dir
}

/// The message given for a directory found among the artifacts.
pub open spec fn unexpected_dir_message(name: Seq<char>) -> Seq<char> {
    "Encountered unexpected dir "@ + name + ". Please remove it before re-running this command."@
}

/// The message given when the files among the artifacts are not exactly
/// the required ones.
pub open spec fn not_all_required_message() -> Seq<char> {
    "Could not find all required artifact files."@
}

/// Whether a text is one of the texts.
pub open spec fn listed(texts: Seq<Seq<char>>, t: Seq<char>) -> bool {
    exists|i: int| 0 <= i < texts.len() && texts[i] == t
}

/// Whether one of the entries is a file with the given name.
pub open spec fn has_file(entries: Seq<ArtifactEntry>, name: Seq<char>) -> bool {
    exists|i: int| 0 <= i < entries.len() && (#[trigger] entries[i]).is_file && entries[i].name@ == name
}

/// What the check of the artifacts directory answers: the first directory
/// in it is refused; else the names of its files must be exactly the
/// required ones: every file required, every required file there.
pub open spec fn artifacts_verdict(entries: Seq<ArtifactEntry>, required: Seq<Seq<char>>) -> Result<
    (),
    Seq<char>,
> {
    if exists|i: int| 0 <= i < entries.len() && taken_as_dir(#[trigger] entries[i]) {
        let i = choose|i: int|
            0 <= i < entries.len() && taken_as_dir(#[trigger] entries[i]) && forall|j: int|
                0 <= j < i ==> !taken_as_dir(#[trigger] entries[j]);
        Err(unexpected_dir_message(entries[i].name@))
    } else if (forall|i: int|
        0 <= i < entries.len() && (#[trigger] entries[i]).is_file ==> listed(required, entries[i].name@))
        && (forall|k: int| 0 <= k < required.len() ==> has_file(entries, #[trigger] required[k])) {
        Ok(())
    } else {
        Err(not_all_required_message())
    }
}

/// Whether a text is one of the texts.
pub(crate) fn is_listed(texts: &Vec<String>, t: &str) -> (r: bool)
    ensures
        r == listed(views(texts@), t@),
{
    let mut i: usize = 0;
    while i < texts.len()
        invariant
            i <= texts.len(),
            forall|j: int| 0 <= j < i ==> views(texts@)[j] != t@,
        decreases texts.len() - i,
    {
        if same_text(texts[i].as_str(), t) {
            assert(views(texts@)[i as int] == t@);
            return true;
        }
        i = i + 1;
    }
    false
}

/// Whether one of the entries is a file with the given name.
fn file_present(entries: &Vec<ArtifactEntry>, name: &str) -> (r: bool)
    ensures
        r == has_file(entries@, name@),
{
    let mut i: usize = 0;
    while i < entries.len()
        invariant
            i <= entries.len(),
            forall|j: int| 0 <= j < i ==> !(entries@[j].is_file && entries@[j].name@ == name@),
        decreases entries.len() - i,
    {
        if entries[i].is_file && same_text(entries[i].name.as_str(), name) {
            return true;
        }
        i = i + 1;
    }
    false
}

/// Checks the entries of the artifacts directory against the required
/// files: a directory among them is refused; the files must be exactly the
/// required ones.
pub fn check_artifacts(entries: &Vec<ArtifactEntry>, required: &Vec<String>) -> (r: Result<(), String>)
    ensures
        match artifacts_verdict(entries@, views(required@)) {
            Ok(()) => r is Ok,
            Err(m) => r matches Err(e) && e@ == m,
        },
{
    let mut i: usize = 0;
    while i < entries.len()
        invariant
            i <= entries.len(),
            forall|j: int| 0 <= j < i ==> !taken_as_dir(#[trigger] entries@[j]),
        decreases entries.len() - i,
    {
        if !entries[i].is_file && entries[i].is_dir {
            proof {
                assert(taken_as_dir(entries@[i as int]));
                let k = choose|k: int|
                    0 <= k < entries@.len() && taken_as_dir(#[trigger] entries@[k]) && forall|j: int|
                        0 <= j < k ==> !taken_as_dir(#[trigger] entries@[j]);
                if k < i {
                } else if k > i {
                    assert(!taken_as_dir(entries@[i as int]));
                }
                assert(k == i);
            }
            let mut m = owned("Encountered unexpected dir ");
            m.append(entries[i].name.as_str());
            m.append(". Please remove it before re-running this command.");
            return Err(m);
        }
        i = i + 1;
    }
    let mut k: usize = 0;
    while k < entries.len()
        invariant
            k <= entries.len(),
            forall|j: int| 0 <= j < entries@.len() ==> !taken_as_dir(#[trigger] entries@[j]),
            forall|j: int|
                0 <= j < k && (#[trigger] entries@[j]).is_file ==> listed(views(required@), entries@[j].name@),
        decreases entries.len() - k,
    {
        if entries[k].is_file && !is_listed(required, entries[k].name.as_str()) {
            return Err(owned("Could not find all required artifact files."));
        }
        k = k + 1;
    }
    let mut q: usize = 0;
    while q < required.len()
        invariant
            q <= required.len(),
            forall|j: int| 0 <= j < entries@.len() ==> !taken_as_dir(#[trigger] entries@[j]),
            forall|j: int|
                0 <= j < entries@.len() && (#[trigger] entries@[j]).is_file ==> listed(views(required@), entries@[j].name@),
            forall|j: int| 0 <= j < q ==> has_file(entries@, #[trigger] views(required@)[j]),
        decreases required.len() - q,
    {
        assert(views(required@)[q as int] == required@[q as int]@);
        if !file_present(entries, required[q].as_str()) {
            return Err(owned("Could not find all required artifact files."));
        }
        q = q + 1;
    }
    Ok(())
}

/// The message given when the artifacts directory is missing: it must
/// exist and hold the required files.
pub fn missing_artifacts_message(dir: &str, required: &Vec<String>) -> (r: String)
    ensures
        r@ == dir@ + " must exist. it must contain these files "@
            + crate::config::supergraph::debug_text_list(views(required@)),
{
    let mut r = owned(dir);
    r.append(" must exist. it must contain these files ");
    let listed = debug_list(required);
    r.append(listed.as_str());
    r
}

/// The problems of a manifest that should name `expected_name` at
/// `expected_version`: a line for a wrong name, then one for a wrong
/// version.
pub open spec fn manifest_problems(
    real_name: Seq<char>,
    real_version: Seq<char>,
    expected_name: Seq<char>,
    expected_version: Seq<char>,
) -> Seq<Seq<char>> {
    (if real_name != expected_name {
        seq!["name "@ + real_name + " != "@ + expected_name]
    } else {
        Seq::empty()
    }) + (if real_version != expected_version {
        seq!["version "@ + real_version + " != "@ + expected_version]
    } else {
        Seq::empty()
    })
}

/// The problems of a manifest that should name `expected_name` at
/// `expected_version`.
pub fn cargo_toml_problems(
    real_name: &str,
    real_version: &str,
    expected_name: &str,
    expected_version: &str,
) -> (r: Vec<String>)
    ensures
        views(r@) == manifest_problems(real_name@, real_version@, expected_name@, expected_version@),
{
    let mut r: Vec<String> = Vec::new();
    let name_differs = !same_text(real_name, expected_name);
    if name_differs {
        let mut m = owned("name ");
        m.append(real_name);
        m.append(" != ");
        m.append(expected_name);
        r.push(m);
    }
    let ghost after_name = r@;
    if !same_text(real_version, expected_version) {
        let mut m = owned("version ");
        m.append(real_version);
        m.append(" != ");
        m.append(expected_version);
        r.push(m);
    }
    proof {
        let a: Seq<Seq<char>> = if real_name@ != expected_name@ {
            seq!["name "@ + real_name@ + " != "@ + expected_name@]
        } else {
            Seq::empty()
        };
        assert(views(after_name) =~= a);
        assert(views(r@) =~= manifest_problems(
            real_name@,
            real_version@,
            expected_name@,
            expected_version@,
        ));
    }
    r
}

/// What the check of a crate's manifest finds: that it reads (`None` when
/// it is no TOML document or its `package.name` or `package.version` is not
/// a text), that its version is a version, then the problems with its name
/// and version.
pub open spec fn manifest_verdict(
    contents: Seq<char>,
    expected_name: Seq<char>,
    expected_version: Seq<char>,
) -> Result<(), Seq<Seq<char>>> {
    match toml_package_fields(contents) {
        None => Err(seq!["Cargo.toml is invalid"@]),
        Some((name, version)) => match semver_parse(version) {
            None => Err(seq!["version in Cargo.toml is not valid semver"@]),
            Some(v) => {
                let problems = manifest_problems(name, semver_text(v), expected_name, expected_version);
                if problems.len() == 0 {
                    Ok(())
                } else {
                    Err(problems)
                }
            },
        },
    }
}

/// Checks a crate's manifest `contents` against the name and version it
/// should carry: `Ok` when both agree, the lines that say what is wrong
/// otherwise. A manifest whose `package.name` or `package.version` is not a
/// text is refused as invalid.
pub fn validate_manifest(contents: &str, expected_name: &str, expected_version: &str) -> (r: Result<
    (),
    Vec<String>,
>)
    ensures
        match manifest_verdict(contents@, expected_name@, expected_version@) {
            Ok(()) => r is Ok,
            Err(lines) => r matches Err(v) && views(v@) == lines,
        },
{
    match read_package_fields(contents) {
        None => {
            let mut v: Vec<String> = Vec::new();
            v.push(owned("Cargo.toml is invalid"));
            assert(views(v@) =~= seq!["Cargo.toml is invalid"@]);
            Err(v)
        },
        Some((name, version)) => match SemVer::parse(version.as_str()) {
            None => {
                let mut v: Vec<String> = Vec::new();
                v.push(owned("version in Cargo.toml is not valid semver"));
                assert(views(v@) =~= seq!["version in Cargo.toml is not valid semver"@]);
                Err(v)
            },
            Some(parsed) => {
                let real_text = parsed.text();
                let problems = cargo_toml_problems(
                    name.as_str(),
                    real_text.as_str(),
                    expected_name,
                    expected_version,
                );
                if problems.len() == 0 {
                    Ok(())
                } else {
                    Err(problems)
                }
            },
        },
    }
}

} // verus!
