//! The commands run by the release tooling: their arguments and
//! environment, and what their output is taken to mean.
use vstd::prelude::*;

use crate::config::version::{semver_parse, semver_text, SemVerView};
use crate::text::{
    contains_seq, decimal, digit_char, is_white_space, join_seq, nonempty_lines,
    nonempty_lines_of, owned, replace_seq, replace_text, text_contains, trim_end_seq,
    trim_seq, trim_start_seq, trim_text, views,
};
use crate::xtask::packages::{
    at_v, group_from_text, group_text, is_listed, library_text, listed, tag_parts, tag_prefixes,
    LibraryCrate, PackageGroup, PackageTag,
};
use crate::xtask::target::{target_text, Target};

verus! {

/// The line that announces a command: the program, then its arguments
/// separated by spaces.
pub fn command_line(bin: &str, args: &Vec<String>) -> (r: String)
    ensures
        r@ == bin@ + " "@ + join_seq(views(args@), " "@),
{
    let mut r = owned(bin);
    r.append(" ");
    let joined = crate::text::join_texts(args, " ");
    r.append(joined.as_str());
    r
}

/// The arguments that select a target for cargo, if one is given.
pub open spec fn target_args(target: Option<Target>) -> Seq<Seq<char>> {
    match target {
        Some(t) => if t == Target::Other {
            Seq::empty()
        } else {
            seq!["--target"@, target_text(t)]
        },
        None => Seq::empty(),
    }
}

/// The arguments of a cargo invocation: the command's own arguments, then
/// `--` and the extra arguments when there are any, then the target's.
pub open spec fn cargo_invocation(
    cargo_args: Seq<Seq<char>>,
    extra_args: Seq<Seq<char>>,
    target: Option<Target>,
) -> Seq<Seq<char>> {
    cargo_args + (if extra_args.len() > 0 {
        seq!["--"@] + extra_args
    } else {
        Seq::empty()
    }) + target_args(target)
}

/// A cargo invocation: its arguments, and the environment it runs with
/// when it builds for a target.
#[derive(Debug)]
pub struct CargoCommand {
    pub args: Vec<String>,
    pub env: Option<Vec<(String, String)>>,
}

/// Appends the texts to a list.
fn append_all(r: &mut Vec<String>, more: Vec<String>)
    ensures
        views(final(r)@) == views(old(r)@) + views(more@),
{
    let ghost start = r@;
    let mut i: usize = 0;
    while i < more.len()
        invariant
            i <= more.len(),
            views(r@) == views(start) + views(more@.subrange(0, i as int)),
        decreases more.len() - i,
    {
        let ghost before = r@;
        r.push(more[i].clone());
        assert(views(r@) =~= views(before).push(more@[i as int]@));
        assert(views(more@.subrange(0, i + 1)) =~= views(more@.subrange(0, i as int)).push(
            more@[i as int]@,
        ));
        i = i + 1;
    }
    assert(more@.subrange(0, more.len() as int) =~= more@);
}

/// The cargo invocation with the given arguments, extra arguments after
/// `--`, and target.
pub fn cargo_command(cargo_args: Vec<String>, extra_args: Vec<String>, target: Option<&Target>) -> (r:
    CargoCommand)
    ensures
        views(r.args@) == cargo_invocation(
            views(cargo_args@),
            views(extra_args@),
            match target {
                Some(t) => Some(*t),
                None => None,
            },
        ),
        target.is_none() <==> r.env.is_none(),
        r.env matches Some(e) ==> (e@.len() == 1) == (*target.unwrap() == Target::WindowsMsvc),
        r.env matches Some(e) ==> e@.len() <= 1,
        r.env matches Some(e) ==> (e@.len() == 1 ==> e@[0].0@ == "RUSTFLAGS"@ && e@[0].1@
            == "-Ctarget-feature=+crt-static"@),
{
    let mut args = cargo_args;
    let ghost first = args@;
    let had_extra = extra_args.len() > 0;
    if had_extra {
        args.push(owned("--"));
        append_all(&mut args, extra_args);
    }
    let ghost middle = args@;
    assert(views(middle) =~= views(first) + (if extra_args@.len() > 0 {
        seq!["--"@] + views(extra_args@)
    } else {
        Seq::empty()
    }));
    let env = match target {
        Some(t) => {
            append_all(&mut args, t.get_cargo_args());
            Some(t.get_env())
        },
        None => None,
    };
    CargoCommand { args, env }
}

/// Texts as a list.
fn texts(items: &Vec<&str>) -> (r: Vec<String>)
    ensures
        views(r@) == items@.map_values(|s: &str| s@),
{
    let mut r: Vec<String> = Vec::new();
    let mut i: usize = 0;
    while i < items.len()
        invariant
            i <= items.len(),
            views(r@) == items@.subrange(0, i as int).map_values(|s: &str| s@),
        decreases items.len() - i,
    {
        let ghost before = r@;
        r.push(owned(items[i]));
        assert(views(r@) =~= views(before).push(items@[i as int]@));
        assert(items@.subrange(0, i + 1).map_values(|s: &str| s@) =~= items@.subrange(
            0,
            i as int,
        ).map_values(|s: &str| s@).push(items@[i as int]@));
        i = i + 1;
    }
    assert(items@.subrange(0, items.len() as int) =~= items@);
    r
}

/// The arguments of a build: `build`, with `--release --locked` for a
/// release build.
pub open spec fn build_arguments(release: bool) -> Seq<Seq<char>> {
    if release {
        seq!["build"@, "--release"@, "--locked"@]
    } else {
        seq!["build"@]
    }
}

/// The cargo invocation that builds for a target.
pub fn build_command(target: &Target, release: bool) -> (r: CargoCommand)
    ensures
        views(r.args@) == build_arguments(release) + target_args(Some(*target)),
        r.env is Some,
{
    let mut cargo_args: Vec<String> = Vec::new();
    cargo_args.push(owned("build"));
    if release {
        cargo_args.push(owned("--release"));
        cargo_args.push(owned("--locked"));
    }
    assert(views(cargo_args@) =~= build_arguments(release));
    let none: Vec<String> = Vec::new();
    assert(views(none@) =~= Seq::<Seq<char>>::empty());
    cargo_command(cargo_args, none, Some(target))
}

/// The cargo invocation that runs the tests: `test --locked`.
pub fn test_command() -> (r: CargoCommand)
    ensures
        views(r.args@) == seq!["test"@, "--locked"@],
        r.env is None,
{
    let mut v: Vec<&str> = Vec::new();
    v.push("test");
    v.push("--locked");
    let args = texts(&v);
    assert(v@.map_values(|s: &str| s@) =~= seq!["test"@, "--locked"@]);
    let none: Vec<String> = Vec::new();
    assert(views(none@) =~= Seq::<Seq<char>>::empty());
    cargo_command(args, none, None)
}

/// The cargo invocations that lint: a format check, then clippy with
/// warnings denied.
pub fn lint_commands() -> (r: (CargoCommand, CargoCommand))
    ensures
        views(r.0.args@) == seq!["fmt"@, "--all"@, "--"@, "--check"@],
        views(r.1.args@) == seq!["clippy"@, "--"@, "-D"@, "warnings"@],
        r.0.env is None && r.1.env is None,
{
    let mut fmt_args: Vec<&str> = Vec::new();
    fmt_args.push("fmt");
    fmt_args.push("--all");
    let mut fmt_extra: Vec<&str> = Vec::new();
    fmt_extra.push("--check");
    let mut clippy_args: Vec<&str> = Vec::new();
    clippy_args.push("clippy");
    let mut clippy_extra: Vec<&str> = Vec::new();
    clippy_extra.push("-D");
    clippy_extra.push("warnings");
    let a = texts(&fmt_args);
    let b = texts(&fmt_extra);
    let c = texts(&clippy_args);
    let d = texts(&clippy_extra);
    let fmt = cargo_command(a, b, None);
    let clippy = cargo_command(c, d, None);
    proof {
        assert(fmt_args@.map_values(|s: &str| s@) =~= seq!["fmt"@, "--all"@]);
        assert(fmt_extra@.map_values(|s: &str| s@) =~= seq!["--check"@]);
        assert(clippy_args@.map_values(|s: &str| s@) =~= seq!["clippy"@]);
        assert(clippy_extra@.map_values(|s: &str| s@) =~= seq!["-D"@, "warnings"@]);
        assert(views(fmt.args@) =~= seq!["fmt"@, "--all"@, "--"@, "--check"@]);
        assert(views(clippy.args@) =~= seq!["clippy"@, "--"@, "-D"@, "warnings"@]);
    }
    (fmt, clippy)
}

/// The message given when the tests fail.
pub open spec fn tests_failed_message() -> Seq<char> {
    "Tests failed"@
}

/// What the test run is taken to mean: success when the command succeeded.
pub fn test_verdict(succeeded: bool) -> (r: Result<(), String>)
    ensures
        succeeded ==> r is Ok,
        !succeeded ==> (r matches Err(m) && m@ == tests_failed_message()),
{
    if succeeded {
        Ok(())
    } else {
        Err(owned("Tests failed"))
    }
}

/// The arguments that publish a crate: `publish -p` and its name, with
/// `--allow-dirty` for the crates that carry generated JavaScript.
pub open spec fn publish_arguments(library: LibraryCrate) -> Seq<Seq<char>> {
    match library {
        LibraryCrate::ApolloFederationTypes => seq!["publish"@, "-p"@, library_text(library)],
        _ => seq!["publish"@, "-p"@, library_text(library), "--allow-dirty"@],
    }
}

/// The cargo invocation that publishes a crate.
pub fn publish_command(library: &LibraryCrate) -> (r: CargoCommand)
    ensures
        views(r.args@) == publish_arguments(*library),
        r.env is None,
{
    let mut args: Vec<String> = Vec::new();
    args.push(owned("publish"));
    args.push(owned("-p"));
    args.push(library.to_text());
    match library {
        LibraryCrate::ApolloFederationTypes => {},
        _ => {
            args.push(owned("--allow-dirty"));
        },
    }
    assert(views(args@) =~= publish_arguments(*library));
    let none: Vec<String> = Vec::new();
    assert(views(none@) =~= Seq::<Seq<char>>::empty());
    cargo_command(args, none, None)
}

/// The message given when the working tree has changes.
pub open spec fn dirty_tree_message() -> Seq<char> {
    "Your working tree is dirty, please fix this before releasing."@
}

/// The message given when the branch is behind its remote.
pub open spec fn out_of_date_message() -> Seq<char> {
    "Your local `main` is out of date with the remote"@
}

/// Whether a release can be tagged, from what `git status -uno` printed:
/// not with unstaged changes, not when the branch is out of date.
pub open spec fn tag_verdict(status: Seq<char>) -> Result<(), Seq<char>> {
    let s = trim_seq(status);
    if contains_seq(s, "Changes not staged for commit"@) {
        Err(dirty_tree_message())
    } else if contains_seq(s, "out of date"@) {
        Err(out_of_date_message())
    } else {
        Ok(())
    }
}

/// Whether a release can be tagged, from what `git status -uno` printed.
pub fn can_tag(status: &str) -> (r: Result<(), String>)
    ensures
        match tag_verdict(status@) {
            Ok(()) => r is Ok,
            Err(m) => r matches Err(e) && e@ == m,
        },
{
    let s = trim_text(status);
    if text_contains(s.as_str(), "Changes not staged for commit") {
        Err(owned("Your working tree is dirty, please fix this before releasing."))
    } else if text_contains(s.as_str(), "out of date") {
        Err(owned("Your local `main` is out of date with the remote"))
    } else {
        Ok(())
    }
}

/// The tags pointing to HEAD, from what `git tag --points-at HEAD`
/// printed: its lines that are not empty.
pub fn head_tags(output: &str) -> (r: Vec<String>)
    ensures
        views(r@) == nonempty_lines(output@),
{
    nonempty_lines_of(output)
}

/// The group and version that a tag reads as, when it reads as one.
pub open spec fn parsed_tag(s: Seq<char>) -> Option<(PackageGroup, SemVerView)> {
    match tag_parts(trim_seq(s)) {
        Some((g, v)) => match group_from_text(g) {
            Ok(group) => match semver_parse(v) {
                Some(version) => Some((group, version)),
                None => None,
            },
            Err(_) => None,
        },
        None => None,
    }
}

/// Whether a text holds neither `@` nor white space.
pub open spec fn plain_tag_text(s: Seq<char>) -> bool {
    forall|i: int| 0 <= i < s.len() ==> (#[trigger] s[i]) != '@' && !is_white_space(s[i])
}

/// The decimal rendering of a number holds neither `@` nor white space.
proof fn lemma_decimal_plain(n: nat)
    ensures
        plain_tag_text(decimal(n)),
    decreases n,
{
    if n >= 10 {
        lemma_decimal_plain(n / 10);
        let d = decimal(n);
        assert forall|i: int| 0 <= i < d.len() implies (#[trigger] d[i]) != '@' && !is_white_space(
            d[i],
        ) by {
            if i < d.len() - 1 {
                assert(d[i] == decimal(n / 10)[i]);
            } else {
                assert(d[i] == digit_char(n % 10));
            }
        }
    }
}

/// The text of a version whose pre-release and build metadata hold
/// neither `@` nor white space holds neither either, and is not empty.
proof fn lemma_version_text_plain(v: SemVerView)
    requires
        plain_tag_text(v.3),
        plain_tag_text(v.4),
    ensures
        plain_tag_text(semver_text(v)),
        semver_text(v).len() > 0,
{
    reveal_strlit(".");
    reveal_strlit("-");
    reveal_strlit("+");
    lemma_decimal_plain(v.0 as nat);
    lemma_decimal_plain(v.1 as nat);
    lemma_decimal_plain(v.2 as nat);
    crate::text::lemma_decimal_nonempty(v.0 as nat);
    let pre: Seq<char> = if v.3.len() > 0 {
        "-"@ + v.3
    } else {
        Seq::empty()
    };
    let build: Seq<char> = if v.4.len() > 0 {
        "+"@ + v.4
    } else {
        Seq::empty()
    };
    assert(plain_tag_text(pre));
    assert(plain_tag_text(build));
    let t = decimal(v.0 as nat) + "."@ + decimal(v.1 as nat) + "."@ + decimal(v.2 as nat) + pre
        + build;
    assert(t == semver_text(v));
    assert(plain_tag_text(decimal(v.0 as nat) + "."@));
    assert(plain_tag_text(decimal(v.0 as nat) + "."@ + decimal(v.1 as nat)));
    assert(plain_tag_text(decimal(v.0 as nat) + "."@ + decimal(v.1 as nat) + "."@));
    assert(plain_tag_text(decimal(v.0 as nat) + "."@ + decimal(v.1 as nat) + "."@ + decimal(
        v.2 as nat,
    )));
    assert(plain_tag_text(decimal(v.0 as nat) + "."@ + decimal(v.1 as nat) + "."@ + decimal(
        v.2 as nat,
    ) + pre));
}

/// The name of a group holds neither `@` nor white space, and reads back
/// as the group.
proof fn lemma_group_text_plain(group: PackageGroup)
    ensures
        plain_tag_text(group_text(group)),
        group_text(group).len() > 0,
        group_from_text(group_text(group)) == Ok::<PackageGroup, Seq<char>>(group),
{
    reveal_strlit("composition");
    reveal_strlit("apollo-federation-types");
    reveal_strlit("router-bridge");
    let c = "composition"@;
    let a = "apollo-federation-types"@;
    let r = "router-bridge"@;
    assert(a[0] != c[0]);
    assert(r[0] != c[0]);
    assert(r[0] != a[0]);
}

/// A text made of two plain texts joined by `@v` is already trimmed and
/// splits at that `@v` into them.
#[verifier::rlimit(30)]
proof fn lemma_tag_split(g: Seq<char>, sv: Seq<char>)
    requires
        plain_tag_text(g),
        plain_tag_text(sv),
        g.len() > 0,
        sv.len() > 0,
    ensures
        tag_parts(trim_seq(g + "@v"@ + sv)) == Some((g, sv)),
{
    reveal_strlit("@v");
    let t = g + "@v"@ + sv;
    let i = g.len() as int;
    assert(t[i] == '@' && t[i + 1] == 'v');
    assert(at_v(t, i));
    assert forall|j: int| #[trigger] at_v(t, j) implies j == i by {
        if j < i {
            assert(t[j] == g[j]);
        } else if j > i + 1 {
            assert(t[j] == sv[j - i - 2]);
        }
    }
    assert(t[0] == g[0]);
    assert(t.last() == sv[sv.len() - 1]);
    assert(trim_start_seq(t) == t);
    assert(trim_end_seq(t) == t);
    let k = choose|k: int| at_v(t, k) && forall|j: int| #[trigger] at_v(t, j) ==> j == k;
    assert(k == i);
    assert(t.subrange(0, i) =~= g);
    assert(t.subrange(i + 2, t.len() as int) =~= sv);
}

/// A tag printed from a group and a version reads back as them, when the
/// version's pre-release and build metadata hold neither `@` nor white
/// space and the version reads back from its own text.
pub proof fn law_package_tag_text_roundtrip(group: PackageGroup, version: SemVerView)
    requires
        plain_tag_text(version.3),
        plain_tag_text(version.4),
        semver_parse(semver_text(version)) == Some(version),
    ensures
        parsed_tag(group_text(group) + "@v"@ + semver_text(version)) == Some((group, version)),
{
    lemma_version_text_plain(version);
    lemma_group_text_plain(group);
    lemma_tag_split(group_text(group), semver_text(version));
}

/// The tags that release a group at a version.
pub open spec fn release_tags(group: PackageGroup, version: SemVerView) -> Seq<Seq<char>> {
    tag_prefixes(group).map_values(|p: Seq<char>| p + "@v"@ + semver_text(version))
}

/// The first of the tags that release a group at a version is the tag
/// that names the group itself.
pub proof fn law_release_tags_start_with_group_tag(group: PackageGroup, version: SemVerView)
    ensures
        release_tags(group, version).len() >= 1,
        release_tags(group, version)[0] == group_text(group) + "@v"@ + semver_text(version),
{
}

/// Whether the tag at position `i` is the release to publish: it reads as
/// a group and version whose manifests agree (`manifests_agree[i]`), and
/// every tag that releases them points to HEAD too.
pub open spec fn tag_accepted(tags: Seq<Seq<char>>, manifests_agree: Seq<bool>, i: int) -> bool {
    &&& parsed_tag(tags[i]) is Some
    &&& manifests_agree[i]
    &&& forall|k: int|
        0 <= k < release_tags(parsed_tag(tags[i]).unwrap().0, parsed_tag(tags[i]).unwrap().1).len()
            ==> listed(
            tags,
            #[trigger] release_tags(parsed_tag(tags[i]).unwrap().0, parsed_tag(tags[i]).unwrap().1)[k],
        )
}

/// The message given when no tag points to HEAD.
pub open spec fn no_tags_message() -> Seq<char> {
    "It doesn't look like there are any current_git_tags pointing to HEAD."@
}

/// The prefix of the message given when the tags pointing to HEAD release
/// nothing.
pub open spec fn invalid_tags_prefix() -> Seq<char> {
    "The tag(s) pointing to HEAD are invalid. current current_git_tags: "@
}

/// The release to publish, from the tags pointing to HEAD: the first tag
/// that is accepted; else an error saying that there are no tags, or that
/// they are invalid. `manifests_agree[i]` tells whether the manifests of
/// what tag `i` releases carry its version.
pub fn select_package_tag(tags: &Vec<String>, manifests_agree: &Vec<bool>) -> (r: Result<
    PackageTag,
    String,
>)
    requires
        manifests_agree@.len() == tags@.len(),
    ensures
        match r {
            Ok(tag) => exists|i: int|
                0 <= i < tags@.len() && tag_accepted(views(tags@), manifests_agree@, i) && (forall|j: int|
                    0 <= j < i ==> !tag_accepted(views(tags@), manifests_agree@, j)) && parsed_tag(
                    tags@[i]@,
                ) == Some((tag.package_group, tag.version@)),
            Err(m) => (forall|i: int|
                0 <= i < tags@.len() ==> !tag_accepted(views(tags@), manifests_agree@, i)) && (
            tags@.len() == 0 ==> m@ == no_tags_message()) && (tags@.len() > 0 ==> m@
                == invalid_tags_prefix() + crate::config::supergraph::debug_text_list(
                views(tags@),
            )),
        },
{
    let mut i: usize = 0;
    while i < tags.len()
        invariant
            i <= tags.len(),
            manifests_agree@.len() == tags@.len(),
            forall|j: int| 0 <= j < i ==> !tag_accepted(views(tags@), manifests_agree@, j),
        decreases tags.len() - i,
    {
        assert(views(tags@)[i as int] == tags@[i as int]@);
        match PackageTag::parse(tags[i].as_str()) {
            Ok(tag) => {
                assert(parsed_tag(tags@[i as int]@) == Some((tag.package_group, tag.version@)));
                if manifests_agree[i] {
                    let wanted = tag.all_tags();
                    proof {
                        assert(views(wanted@) =~= release_tags(tag.package_group, tag.version@));
                    }
                    let mut all_there = true;
                    let mut k: usize = 0;
                    while k < wanted.len()
                        invariant
                            k <= wanted.len(),
                            all_there <==> forall|q: int|
                                0 <= q < k ==> listed(views(tags@), #[trigger] views(wanted@)[q]),
                        decreases wanted.len() - k,
                    {
                        let found = is_listed(tags, wanted[k].as_str());
                        assert(views(wanted@)[k as int] == wanted@[k as int]@);
                        if !found {
                            all_there = false;
                        }
                        proof {
                            if all_there {
                                assert forall|q: int| 0 <= q < k + 1 implies listed(
                                    views(tags@),
                                    #[trigger] views(wanted@)[q],
                                ) by {
                                    if q < k {
                                    }
                                }
                            }
                        }
                        k = k + 1;
                    }
                    if all_there {
                        assert(tag_accepted(views(tags@), manifests_agree@, i as int));
                        return Ok(tag);
                    }
                    proof {
                        let q = choose|q: int|
                            !(0 <= q < wanted@.len() ==> listed(views(tags@), #[trigger] views(wanted@)[q]));
                        let rt = release_tags(
                            parsed_tag(views(tags@)[i as int]).unwrap().0,
                            parsed_tag(views(tags@)[i as int]).unwrap().1,
                        );
                        assert(rt == views(wanted@));
                        assert(!listed(views(tags@), rt[q]));
                        assert(!tag_accepted(views(tags@), manifests_agree@, i as int));
                    }
                }
            },
            Err(_) => {
                assert(parsed_tag(tags@[i as int]@) is None);
            },
        }
        i = i + 1;
    }
    if tags.len() == 0 {
        Err(owned("It doesn't look like there are any current_git_tags pointing to HEAD."))
    } else {
        let mut m = owned("The tag(s) pointing to HEAD are invalid. current current_git_tags: ");
        let listed_tags = crate::config::supergraph::debug_list(tags);
        m.append(listed_tags.as_str());
        Err(m)
    }
}

/// The git invocations that create and push one release tag: an annotated
/// tag, then a push of exactly that tag.
pub fn release_tag_commands(tag: &str) -> (r: (Vec<String>, Vec<String>))
    ensures
        views(r.0@) == seq!["tag"@, "-a"@, tag@, "-m"@, tag@],
        views(r.1@) == seq!["push"@, "origin"@, "refs/tags/"@ + tag@, "--no-verify"@],
{
    let mut create: Vec<String> = Vec::new();
    create.push(owned("tag"));
    create.push(owned("-a"));
    create.push(owned(tag));
    create.push(owned("-m"));
    create.push(owned(tag));
    let mut refs = owned("refs/tags/");
    refs.append(tag);
    let mut push: Vec<String> = Vec::new();
    push.push(owned("push"));
    push.push(owned("origin"));
    push.push(refs);
    push.push(owned("--no-verify"));
    assert(views(create@) =~= seq!["tag"@, "-a"@, tag@, "-m"@, tag@]);
    assert(views(push@) =~= seq!["push"@, "origin"@, "refs/tags/"@ + tag@, "--no-verify"@]);
    (create, push)
}

/// The npm invocations that lint the JavaScript: install, then lint.
pub fn npm_lint_commands() -> (r: (Vec<String>, Vec<String>))
    ensures
        views(r.0@) == seq!["install"@, "--prefix=harmonizer"@],
        views(r.1@) == seq!["run"@, "--prefix=harmonizer"@, "lint"@],
{
    let mut install: Vec<String> = Vec::new();
    install.push(owned("install"));
    install.push(owned("--prefix=harmonizer"));
    let mut lint: Vec<String> = Vec::new();
    lint.push(owned("run"));
    lint.push(owned("--prefix=harmonizer"));
    lint.push(owned("lint"));
    assert(views(install@) =~= seq!["install"@, "--prefix=harmonizer"@]);
    assert(views(lint@) =~= seq!["run"@, "--prefix=harmonizer"@, "lint"@]);
    (install, lint)
}

/// The arguments of a notarization: they are logged; the password is
/// passed apart, after them.
pub open spec fn notarize_arguments(dist_zip: Seq<char>, username: Seq<char>, team_id: Seq<char>) -> Seq<
    Seq<char>,
> {
    seq![
        "notarytool"@,
        "submit"@,
        dist_zip,
        "--apple-id"@,
        username,
        "--team-id"@,
        team_id,
        "--wait"@,
        "--timeout"@,
        "20m"@,
    ]
}

/// The xcrun invocation that notarizes an archive: the logged arguments,
/// and the password arguments that are not logged.
pub fn notarize_command(dist_zip: &str, username: &str, team_id: &str, password: &str) -> (r: (
    Vec<String>,
    Vec<String>,
))
    ensures
        views(r.0@) == notarize_arguments(dist_zip@, username@, team_id@),
        views(r.1@) == seq!["--password"@, password@],
{
    let mut args: Vec<String> = Vec::new();
    args.push(owned("notarytool"));
    args.push(owned("submit"));
    args.push(owned(dist_zip));
    args.push(owned("--apple-id"));
    args.push(owned(username));
    args.push(owned("--team-id"));
    args.push(owned(team_id));
    args.push(owned("--wait"));
    args.push(owned("--timeout"));
    args.push(owned("20m"));
    let mut hidden: Vec<String> = Vec::new();
    hidden.push(owned("--password"));
    hidden.push(owned(password));
    assert(views(args@) =~= notarize_arguments(dist_zip@, username@, team_id@));
    assert(views(hidden@) =~= seq!["--password"@, password@]);
    (args, hidden)
}

/// The text that stands in the place of a password in a message.
pub open spec fn password_mask() -> Seq<char> {
    "xxxx-xxxx-xxxx-xxxx"@
}

/// A failure message of notarization with every occurrence of the password
/// masked.
pub fn redact_password(message: &str, password: &str) -> (r: String)
    ensures
        r@ == replace_seq(message@, password@, password_mask()),
{
    replace_text(message, password, "xxxx-xxxx-xxxx-xxxx")
}

} // verus!
