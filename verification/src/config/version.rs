//! Federation and router versions as they are written in a configuration.
use vstd::prelude::*;

use crate::config::config_error::{config_error_text, ConfigError};
use crate::text::{lemma_decimal_nonempty, decimal, is_prefix, owned, same_text, text_starts_with, to_decimal};

verus! {

/// A semantic version: numeric core, pre-release and build metadata.
#[derive(Debug)]
pub struct SemVer {
    pub major: u64,
    pub minor: u64,
    pub patch: u64,
    pub pre: String,
    pub build: String,
}

/// A semantic version as plain values.
pub type SemVerView = (u64, u64, u64, Seq<char>, Seq<char>);

impl View for SemVer {
    type V = SemVerView;

    open spec fn view(&self) -> SemVerView {
        (self.major, self.minor, self.patch, self.pre@, self.build@)
    }
}

/// The text of a version: `major.minor.patch`, then `-pre` and `+build`
/// where those are not empty.
pub open spec fn semver_text(v: SemVerView) -> Seq<char> {
    decimal(v.0 as nat) + "."@ + decimal(v.1 as nat) + "."@ + decimal(v.2 as nat) + (if v.3.len()
        > 0 {
        "-"@ + v.3
    } else {
        Seq::empty()
    }) + (if v.4.len() > 0 {
        "+"@ + v.4
    } else {
        Seq::empty()
    })
}

/// What `semver::Version::parse` makes of a text, as plain values.
pub uninterp spec fn semver_parse(text: Seq<char>) -> Option<SemVerView>;

/// Whether the version that `a` spells is at least the one that `b` spells,
/// by `semver`'s ordering; `None` where either text is no version.
pub uninterp spec fn semver_text_ge(a: Seq<char>, b: Seq<char>) -> Option<bool>;

/// The text of a plain `major.minor.patch` version.
pub open spec fn plain_version_text(a: u64, b: u64, c: u64) -> Seq<char> {
    decimal(a as nat) + "."@ + decimal(b as nat) + "."@ + decimal(c as nat)
}

/// The numeric core of `a` is greater than that of `b`.
pub open spec fn core_gt(a: SemVerView, b: SemVerView) -> bool {
    a.0 > b.0 || (a.0 == b.0 && a.1 > b.1) || (a.0 == b.0 && a.1 == b.1 && a.2 > b.2)
}

/// Parses a semantic version (`semver::Version::parse`), with the parser's
/// message when the text is no version.
///
/// Stated of the outside parser: the result is its parse of `text`; a parsed
/// version prints as a text that parses back to it; a plain
/// `major.minor.patch` text with no leading zeros parses to those numbers.
/// Which other texts it accepts is left to the named result, and the
/// wording of its message is not stated.
#[verifier::external_body]
fn parse_semver(text: &str) -> (r: Result<SemVer, String>)
    ensures
        r.is_ok() == semver_parse(text@).is_some(),
        r matches Ok(v) ==> semver_parse(text@) == Some(v@),
        r matches Ok(v) ==> semver_parse(semver_text(v@)) == Some(v@),
        forall|a: u64, b: u64, c: u64|
            text@ == #[trigger] plain_version_text(a, b, c) ==> r.is_ok() && r.unwrap()@ == (
                a,
                b,
                c,
                Seq::<char>::empty(),
                Seq::<char>::empty(),
            ),
{
    match semver::Version::parse(text) {
        Ok(v) => Ok(
            SemVer {
                major: v.major,
                minor: v.minor,
                patch: v.patch,
                pre: v.pre.as_str().to_string(),
                build: v.build.as_str().to_string(),
            },
        ),
        Err(e) => Err(e.to_string()),
    }
}

/// The version a text spells, if it spells one.
fn parsed_semver(text: &str) -> (r: Option<SemVer>)
    ensures
        r.is_some() == semver_parse(text@).is_some(),
        r matches Some(v) ==> semver_parse(text@) == Some(v@),
        r matches Some(v) ==> semver_parse(semver_text(v@)) == Some(v@),
        forall|a: u64, b: u64, c: u64|
            text@ == #[trigger] plain_version_text(a, b, c) ==> r.is_some() && r.unwrap()@ == (
                a,
                b,
                c,
                Seq::<char>::empty(),
                Seq::<char>::empty(),
            ),
{
    match parse_semver(text) {
        Ok(v) => Some(v),
        Err(_) => None,
    }
}

/// The numeric cores of two versions are equal.
pub open spec fn same_core(a: SemVerView, b: SemVerView) -> bool {
    a.0 == b.0 && a.1 == b.1 && a.2 == b.2
}

/// Whether a version is at least the release `x.y.z`: a greater core, or
/// the same core and no pre-release.
pub open spec fn at_least_release(v: SemVerView, x: u64, y: u64, z: u64) -> bool {
    core_gt(v, (x, y, z, Seq::empty(), Seq::empty())) || (v.0 == x && v.1 == y && v.2 == z
        && v.3.len() == 0)
}

/// The view of the lowest federation 2 version that can be asked for
/// exactly, `2.0.0-preview.9`.
pub open spec fn fed_two_floor_view() -> SemVerView {
    (2, 0, 0, "preview.9"@, Seq::empty())
}

/// Compares two version texts by `semver`'s ordering (`>=` on
/// `semver::Version`, whose derived order compares the core, then the
/// pre-release, then the build metadata).
///
/// Stated of the outside ordering: there is an answer exactly when both texts
/// parse; a greater numeric core wins; a version is at least itself; with
/// equal cores a release is above a pre-release, and a release is at least
/// the same release without build metadata. Against a plain `x.y.z` text,
/// which `semver` parses to those numbers, the answer is whether the version
/// has a greater core, or that core and no pre-release; against
/// `2.0.0-preview.9`, a greater core, or core 2.0.0 without pre-release, is
/// at least it and a smaller core is not. The order of two pre-releases of
/// one core is left to the named result.
#[verifier::external_body]
fn semver_at_least(a: &str, b: &str) -> (r: Option<bool>)
    ensures
        r == semver_text_ge(a@, b@),
        r.is_some() == (semver_parse(a@).is_some() && semver_parse(b@).is_some()),
        r matches Some(x) ==> (core_gt(semver_parse(a@).unwrap(), semver_parse(b@).unwrap())
            ==> x),
        r matches Some(x) ==> (core_gt(semver_parse(b@).unwrap(), semver_parse(a@).unwrap())
            ==> !x),
        r matches Some(x) ==> (semver_parse(a@) == semver_parse(b@) ==> x),
        r matches Some(x) ==> (same_core(semver_parse(a@).unwrap(), semver_parse(b@).unwrap())
            && semver_parse(a@).unwrap().3.len() == 0 && semver_parse(b@).unwrap().3.len() > 0
            ==> x),
        r matches Some(x) ==> (same_core(semver_parse(a@).unwrap(), semver_parse(b@).unwrap())
            && semver_parse(a@).unwrap().3.len() > 0 && semver_parse(b@).unwrap().3.len() == 0
            ==> !x),
        r matches Some(x) ==> (same_core(semver_parse(a@).unwrap(), semver_parse(b@).unwrap())
            && semver_parse(a@).unwrap().3.len() == 0 && semver_parse(b@).unwrap().3.len() == 0
            && semver_parse(b@).unwrap().4.len() == 0 ==> x),
        forall|x: u64, y: u64, z: u64|
            b@ == #[trigger] plain_version_text(x, y, z) ==> r == (if semver_parse(a@).is_some() {
                Some(at_least_release(semver_parse(a@).unwrap(), x, y, z))
            } else {
                None
            }),
        b@ == fed_two_floor() && semver_parse(a@).is_some() && (core_gt(
            semver_parse(a@).unwrap(),
            fed_two_floor_view(),
        ) || (same_core(semver_parse(a@).unwrap(), fed_two_floor_view())
            && semver_parse(a@).unwrap().3.len() == 0)) ==> r == Some(true),
        b@ == fed_two_floor() && semver_parse(a@).is_some() && core_gt(
            fed_two_floor_view(),
            semver_parse(a@).unwrap(),
        ) ==> r == Some(false),
{
    match (semver::Version::parse(a), semver::Version::parse(b)) {
        (Ok(x), Ok(y)) => Some(x >= y),
        _ => None,
    }
}

impl SemVer {
    /// A version with the given numbers and no pre-release or build metadata.
    pub fn new(major: u64, minor: u64, patch: u64) -> (r: SemVer)
        ensures
            r@ == (major, minor, patch, Seq::<char>::empty(), Seq::<char>::empty()),
    {
        SemVer { major, minor, patch, pre: String::new(), build: String::new() }
    }

    /// Parses a semantic version.
    pub fn parse(text: &str) -> (r: Option<SemVer>)
        ensures
            r.is_some() == semver_parse(text@).is_some(),
            r matches Some(v) ==> semver_parse(text@) == Some(v@),
            r matches Some(v) ==> semver_parse(semver_text(v@)) == Some(v@),
            forall|a: u64, b: u64, c: u64|
                text@ == #[trigger] plain_version_text(a, b, c) ==> r.is_some() && r.unwrap()@ == (
                    a,
                    b,
                    c,
                    Seq::<char>::empty(),
                    Seq::<char>::empty(),
                ),
    {
        parsed_semver(text)
    }

    /// Parses a semantic version, with the parser's message when the text
    /// is no version.
    pub fn try_parse(text: &str) -> (r: Result<SemVer, String>)
        ensures
            r.is_ok() == semver_parse(text@).is_some(),
            r matches Ok(v) ==> semver_parse(text@) == Some(v@),
            r matches Ok(v) ==> semver_parse(semver_text(v@)) == Some(v@),
            forall|a: u64, b: u64, c: u64|
                text@ == #[trigger] plain_version_text(a, b, c) ==> r.is_ok() && r.unwrap()@ == (
                    a,
                    b,
                    c,
                    Seq::<char>::empty(),
                    Seq::<char>::empty(),
                ),
    {
        parse_semver(text)
    }

    /// The version's text (`Display` of `semver::Version`).
    pub fn text(&self) -> (r: String)
        ensures
            r@ == semver_text(self@),
    {
        let mut r = to_decimal(self.major);
        r.append(".");
        let minor = to_decimal(self.minor);
        r.append(minor.as_str());
        r.append(".");
        let patch = to_decimal(self.patch);
        r.append(patch.as_str());
        let ghost core = r@;
        if self.pre.unicode_len() > 0 {
            r.append("-");
            r.append(self.pre.as_str());
        }
        let ghost with_pre = r@;
        if self.build.unicode_len() > 0 {
            r.append("+");
            r.append(self.build.as_str());
        }
        proof {
            let p: Seq<char> = if self.pre@.len() > 0 {
                "-"@ + self.pre@
            } else {
                Seq::empty()
            };
            let b: Seq<char> = if self.build@.len() > 0 {
                "+"@ + self.build@
            } else {
                Seq::empty()
            };
            assert(with_pre =~= core + p);
            assert(r@ =~= core + p + b);
        }
        r
    }

    /// A copy of the version.
    pub fn duplicate(&self) -> (r: SemVer)
        ensures
            r == *self,
    {
        SemVer {
            major: self.major,
            minor: self.minor,
            patch: self.patch,
            pre: self.pre.clone(),
            build: self.build.clone(),
        }
    }
}

/// The numbers and text of a plugin's version.
pub trait PluginVersion {
    fn get_major_version(&self) -> u64;

    fn get_tarball_version(&self) -> String;
}

/// The router version a configuration asks for.
#[derive(Debug)]
pub enum RouterVersion {
    Exact(SemVer),
    Latest,
}

/// The federation version a configuration asks for.
#[derive(Debug)]
pub enum FederationVersion {
    LatestFedOne,
    LatestFedTwo,
    ExactFedOne(SemVer),
    ExactFedTwo(SemVer),
}

/// A federation version as plain values.
pub enum FederationVersionView {
    LatestFedOne,
    LatestFedTwo,
    ExactFedOne(SemVerView),
    ExactFedTwo(SemVerView),
}

impl View for FederationVersion {
    type V = FederationVersionView;

    open spec fn view(&self) -> FederationVersionView {
        match self {
            FederationVersion::LatestFedOne => FederationVersionView::LatestFedOne,
            FederationVersion::LatestFedTwo => FederationVersionView::LatestFedTwo,
            FederationVersion::ExactFedOne(v) => FederationVersionView::ExactFedOne(v@),
            FederationVersion::ExactFedTwo(v) => FederationVersionView::ExactFedTwo(v@),
        }
    }
}

/// A router version as plain values.
pub enum RouterVersionView {
    Exact(SemVerView),
    Latest,
}

impl View for RouterVersion {
    type V = RouterVersionView;

    open spec fn view(&self) -> RouterVersionView {
        match self {
            RouterVersion::Exact(v) => RouterVersionView::Exact(v@),
            RouterVersion::Latest => RouterVersionView::Latest,
        }
    }
}

/// The text after the first character of a version text.
pub open spec fn after_prefix(input: Seq<char>) -> Seq<char> {
    input.subrange(1, input.len() as int)
}

/// The text starts with `=` or `v` and has more after it.
pub open spec fn is_exact_spelling(input: Seq<char>) -> bool {
    input.len() > 1 && (is_prefix("="@, input) || is_prefix("v"@, input))
}

/// The message for a federation version that is not supported at all.
pub open spec fn fed_invalid_message(input: Seq<char>) -> Seq<char> {
    "Specified version `"@ + input
        + "` is not supported. You can either specify '1', '2', or a fully qualified version prefixed with an '=', like: =2.0.0"@
}

/// The message for a federation 1 version below the earliest supported one.
pub open spec fn fed_one_too_old_message(input: Seq<char>) -> Seq<char> {
    "Specified version `"@ + input
        + "` is not supported. The earliest version you can specify for federation 1 is '=0.36.0'"@
}

/// The message for a federation 2 version below the earliest supported one.
pub open spec fn fed_two_too_old_message(input: Seq<char>) -> Seq<char> {
    "Specified version `"@ + input
        + "` is not supported. The earliest version you can specify for federation 2 is '=2.0.0-preview.9'"@
}

/// The earliest federation 2 version that can be asked for exactly.
pub open spec fn fed_two_floor() -> Seq<char> {
    "2.0.0-preview.9"@
}

/// What reading a federation version from a text gives, where the parse of
/// the text after its prefix and the comparison with the federation 2 floor
/// are given.
pub open spec fn federation_version_decision(
    input: Seq<char>,
    parsed: Option<SemVerView>,
    at_least_fed_two_floor: Option<bool>,
) -> Result<FederationVersionView, Seq<char>> {
    if is_exact_spelling(input) {
        match parsed {
            Some(v) => if v.0 == 0 {
                if v.1 >= 36 {
                    Ok(FederationVersionView::ExactFedOne(v))
                } else {
                    Err(fed_one_too_old_message(input))
                }
            } else if v.0 == 2 {
                if at_least_fed_two_floor == Some(true) {
                    Ok(FederationVersionView::ExactFedTwo(v))
                } else {
                    Err(fed_two_too_old_message(input))
                }
            } else {
                Err(fed_invalid_message(input))
            },
            None => Err(fed_invalid_message(input)),
        }
    } else if input == "0"@ || input == "1"@ || input == "latest-0"@ || input == "latest-1"@ {
        Ok(FederationVersionView::LatestFedOne)
    } else if input == "2"@ || input == "latest-2"@ {
        Ok(FederationVersionView::LatestFedTwo)
    } else {
        Err(fed_invalid_message(input))
    }
}

/// What reading a federation version from a text gives.
pub open spec fn federation_version_from_text(input: Seq<char>) -> Result<
    FederationVersionView,
    Seq<char>,
> {
    let parsed = semver_parse(after_prefix(input));
    let floor_ok = match parsed {
        Some(v) => semver_text_ge(semver_text(v), fed_two_floor()),
        None => None,
    };
    federation_version_decision(input, parsed, floor_ok)
}

/// What reading `=x.y.z` gives: an exact federation 1 version from 0.36.0,
/// any exact federation 2 version (each release is above the federation 2
/// floor), and nothing for the other majors.
pub open spec fn plain_exact_reading(x: u64, y: u64, z: u64) -> Option<FederationVersionView> {
    let v = (x, y, z, Seq::<char>::empty(), Seq::<char>::empty());
    if x == 0 && y >= 36 {
        Some(FederationVersionView::ExactFedOne(v))
    } else if x == 2 {
        Some(FederationVersionView::ExactFedTwo(v))
    } else {
        None
    }
}

/// The text that a federation version is written as.
pub open spec fn federation_version_text(v: FederationVersionView) -> Seq<char> {
    match v {
        FederationVersionView::LatestFedOne => "0"@,
        FederationVersionView::LatestFedTwo => "2"@,
        FederationVersionView::ExactFedOne(s) => "="@ + semver_text(s),
        FederationVersionView::ExactFedTwo(s) => "="@ + semver_text(s),
    }
}

/// The message for a router version that is not supported.
pub open spec fn router_invalid_message(input: Seq<char>) -> Seq<char> {
    "Specified version `"@ + input
        + "` is not supported. You can either specify '1', 'latest', or a fully qualified version prefixed with an '=', like: =1.0.0"@
}

/// What reading a router version from a text gives.
pub open spec fn router_version_from_text(input: Seq<char>) -> Result<RouterVersionView, Seq<char>> {
    if is_exact_spelling(input) {
        match semver_parse(after_prefix(input)) {
            Some(v) => if v.0 == 1 {
                Ok(RouterVersionView::Exact(v))
            } else {
                Err(router_invalid_message(input))
            },
            None => Err(router_invalid_message(input)),
        }
    } else if input == "1"@ || input == "latest"@ {
        Ok(RouterVersionView::Latest)
    } else {
        Err(router_invalid_message(input))
    }
}

/// The text that a router version is written as.
pub open spec fn router_version_text(v: RouterVersionView) -> Seq<char> {
    match v {
        RouterVersionView::Latest => "1"@,
        RouterVersionView::Exact(s) => "="@ + semver_text(s),
    }
}

/// Writing a router version and reading the text back gives the same
/// version, for the latest one and for an exact version 1 that `semver`
/// reads back from its text.
pub proof fn law_router_version_text_roundtrip(v: RouterVersionView)
    requires
        v matches RouterVersionView::Exact(s) ==> s.0 == 1 && semver_parse(semver_text(s)) == Some(s),
    ensures
        router_version_from_text(router_version_text(v)) == Ok::<RouterVersionView, Seq<char>>(v),
{
    reveal_strlit("=");
    reveal_strlit("v");
    reveal_strlit("1");
    reveal_strlit(".");
    match v {
        RouterVersionView::Exact(s) => {
            let t = router_version_text(v);
            assert(decimal(s.0 as nat).len() > 0);
            assert(semver_text(s).len() > 0);
            assert(t.subrange(0, 1) =~= "="@);
            assert(after_prefix(t) =~= semver_text(s));
        },
        RouterVersionView::Latest => {
            assert(!is_exact_spelling("1"@));
        },
    }
}

/// An exact version may be written after `v` as after `=`: the two
/// spellings read the same, for router and for federation versions.
pub proof fn law_v_and_equals_spellings_agree(t: Seq<char>)
    requires
        t.len() > 0,
    ensures
        router_version_from_text("v"@ + t) is Ok <==> router_version_from_text("="@ + t) is Ok,
        router_version_from_text("v"@ + t) is Ok ==> router_version_from_text("v"@ + t)
            == router_version_from_text("="@ + t),
        federation_version_from_text("v"@ + t) is Ok <==> federation_version_from_text("="@ + t) is Ok,
        federation_version_from_text("v"@ + t) is Ok ==> federation_version_from_text("v"@ + t)
            == federation_version_from_text("="@ + t),
{
    reveal_strlit("=");
    reveal_strlit("v");
    let a = "v"@ + t;
    let b = "="@ + t;
    assert(a.subrange(0, 1) =~= "v"@);
    assert(b.subrange(0, 1) =~= "="@);
    assert(is_exact_spelling(a));
    assert(is_exact_spelling(b));
    assert(after_prefix(a) =~= t);
    assert(after_prefix(b) =~= t);
}

/// The view of a configuration error result, keeping only the message of an
/// invalid configuration.
pub open spec fn invalid_configuration_message<T>(r: Result<T, ConfigError>) -> Option<Seq<char>> {
    match r {
        Err(ConfigError::InvalidConfiguration { message }) => Some(message@),
        _ => None,
    }
}

/// Whether the text starts with `=` or `v` and has more after it.
fn exact_spelling(input: &str) -> (r: bool)
    ensures
        r == is_exact_spelling(input@),
{
    input.unicode_len() > 1 && (text_starts_with(input, "=") || text_starts_with(input, "v"))
}

/// An invalid-configuration error carrying the given text pieces.
fn invalid_version_error(head: &str, input: &str, tail: &str) -> (r: ConfigError)
    ensures
        r matches ConfigError::InvalidConfiguration { message } && message@ == head@ + input@
            + tail@,
{
    let mut message = owned(head);
    message.append(input);
    message.append(tail);
    ConfigError::InvalidConfiguration { message }
}

impl FederationVersion {
    /// Reads a federation version, given what `semver` made of the text after
    /// the `=` or `v` prefix and whether that version is at least the
    /// earliest federation 2 version that can be asked for.
    pub fn decide_from_text(
        input: &str,
        parsed: Option<SemVer>,
        at_least_fed_two_floor: Option<bool>,
    ) -> (r: Result<FederationVersion, ConfigError>)
        ensures
            match federation_version_decision(
                input@,
                match parsed {
                    Some(v) => Some(v@),
                    None => None,
                },
                at_least_fed_two_floor,
            ) {
                Ok(v) => r matches Ok(x) && x@ == v,
                Err(m) => invalid_configuration_message(r) == Some(m),
            },
    {
        let head = "Specified version `";
        if exact_spelling(input) {
            match parsed {
                Some(v) => {
                    if v.major == 0 {
                        if v.minor >= 36 {
                            Ok(FederationVersion::ExactFedOne(v))
                        } else {
                            Err(
                                invalid_version_error(
                                    head,
                                    input,
                                    "` is not supported. The earliest version you can specify for federation 1 is '=0.36.0'",
                                ),
                            )
                        }
                    } else if v.major == 2 {
                        if at_least_fed_two_floor == Some(true) {
                            Ok(FederationVersion::ExactFedTwo(v))
                        } else {
                            Err(
                                invalid_version_error(
                                    head,
                                    input,
                                    "` is not supported. The earliest version you can specify for federation 2 is '=2.0.0-preview.9'",
                                ),
                            )
                        }
                    } else {
                        Err(
                            invalid_version_error(
                                head,
                                input,
                                "` is not supported. You can either specify '1', '2', or a fully qualified version prefixed with an '=', like: =2.0.0",
                            ),
                        )
                    }
                },
                None => Err(
                    invalid_version_error(
                        head,
                        input,
                        "` is not supported. You can either specify '1', '2', or a fully qualified version prefixed with an '=', like: =2.0.0",
                    ),
                ),
            }
        } else if same_text(input, "0") || same_text(input, "1") || same_text(input, "latest-0")
            || same_text(input, "latest-1") {
            Ok(FederationVersion::LatestFedOne)
        } else if same_text(input, "2") || same_text(input, "latest-2") {
            Ok(FederationVersion::LatestFedTwo)
        } else {
            Err(
                invalid_version_error(
                    head,
                    input,
                    "` is not supported. You can either specify '1', '2', or a fully qualified version prefixed with an '=', like: =2.0.0",
                ),
            )
        }
    }

    /// Reads a federation version: `0`, `1`, `latest-0`, `latest-1`, `2`,
    /// `latest-2`, or an exact version after `=` or `v` (federation 1 from
    /// 0.36.0, federation 2 from 2.0.0-preview.9).
    pub fn from_str(input: &str) -> (r: Result<FederationVersion, ConfigError>)
        ensures
            match federation_version_from_text(input@) {
                Ok(v) => r matches Ok(x) && x@ == v,
                Err(m) => invalid_configuration_message(r) == Some(m),
            },
            r matches Ok(x) ==> federation_version_acceptable(x@),
            forall|x: u64, y: u64, z: u64|
                input@ == "="@ + #[trigger] plain_version_text(x, y, z) ==> match plain_exact_reading(
                    x,
                    y,
                    z,
                ) {
                    Some(v) => r matches Ok(w) && w@ == v,
                    None => r is Err,
                },
    {
        let n = input.unicode_len();
        let (parsed, floor_ok) = if n >= 1 {
            let rest = input.substring_char(1, n);
            let parsed = parsed_semver(rest);
            let floor_ok = match &parsed {
                Some(v) => {
                    let t = v.text();
                    semver_at_least(t.as_str(), "2.0.0-preview.9")
                },
                None => None,
            };
            proof {
                assert forall|x: u64, y: u64, z: u64|
                    input@ == "="@ + #[trigger] plain_version_text(x, y, z) implies parsed matches Some(
                        v,
                    ) && v@ == (x, y, z, Seq::<char>::empty(), Seq::<char>::empty()) && (x == 2
                        ==> floor_ok == Some(true)) by {
                    reveal_strlit("=");
                    assert(rest@ =~= input@.subrange(1, n as int));
                    assert(rest@ =~= plain_version_text(x, y, z));
                }
            }
            (parsed, floor_ok)
        } else {
            (None, None)
        };
        proof {
            if !is_exact_spelling(input@) {
            } else {
                assert(n >= 1);
            }
            assert forall|x: u64, y: u64, z: u64|
                input@ == "="@ + #[trigger] plain_version_text(x, y, z) implies is_exact_spelling(
                    input@,
                ) by {
                reveal_strlit("=");
                lemma_decimal_nonempty(x as nat);
                assert(input@.subrange(0, 1) =~= "="@);
            }
        }
        Self::decide_from_text(input, parsed, floor_ok)
    }

    /// The exact version asked for, if any.
    pub fn get_exact(&self) -> (r: Option<&SemVer>)
        ensures
            match self {
                FederationVersion::ExactFedOne(v) => r == Some(v),
                FederationVersion::ExactFedTwo(v) => r == Some(v),
                _ => r.is_none(),
            },
    {
        match self {
            FederationVersion::ExactFedOne(version) | FederationVersion::ExactFedTwo(version) => Some(
                version,
            ),
            _ => None,
        }
    }

    /// Whether the latest version of a line is asked for.
    pub fn is_latest(&self) -> (r: bool)
        ensures
            r == (self is LatestFedOne || self is LatestFedTwo),
    {
        matches!(self, FederationVersion::LatestFedOne) || matches!(
            self,
            FederationVersion::LatestFedTwo
        )
    }

    /// Whether a federation 1 version is asked for.
    pub fn is_fed_one(&self) -> (r: bool)
        ensures
            r == (self is LatestFedOne || self is ExactFedOne),
    {
        matches!(self, FederationVersion::LatestFedOne) || matches!(
            self,
            FederationVersion::ExactFedOne(_)
        )
    }

    /// Whether a federation 2 version is asked for.
    pub fn is_fed_two(&self) -> (r: bool)
        ensures
            r == (self is LatestFedTwo || self is ExactFedTwo),
    {
        matches!(self, FederationVersion::LatestFedTwo) || matches!(
            self,
            FederationVersion::ExactFedTwo(_)
        )
    }

    /// Whether the version is published for ARM Linux: every latest version,
    /// federation 1 from 0.37 and federation 2 from 2.1.
    pub fn supports_arm_linux(&self) -> (r: bool)
        ensures
            r == match self {
                FederationVersion::LatestFedOne => true,
                FederationVersion::LatestFedTwo => true,
                FederationVersion::ExactFedOne(v) => v.minor >= 37,
                FederationVersion::ExactFedTwo(v) => v.minor >= 1,
            },
    {
        let mut supports_arm = false;
        if self.is_latest() {
            supports_arm = true;
        } else if let Some(exact) = self.get_exact() {
            if self.is_fed_one() {
                supports_arm = exact.minor >= 37;
            } else if self.is_fed_two() {
                supports_arm = exact.minor >= 1;
            }
        }
        supports_arm
    }

    /// Whether the version is published for ARM macOS: federation 2 only,
    /// the latest or an exact version from 2.7.3.
    pub fn supports_arm_macos(&self) -> (r: bool)
        ensures
            r == match self {
                FederationVersion::LatestFedOne => false,
                FederationVersion::ExactFedOne(_) => false,
                FederationVersion::LatestFedTwo => true,
                FederationVersion::ExactFedTwo(v) => semver_text_ge(semver_text(v@), "2.7.3"@)
                    == Some(true),
            },
            self matches FederationVersion::ExactFedTwo(v) ==> (semver_parse(semver_text(v@))
                == Some(v@) ==> r == at_least_release(v@, 2, 7, 3)),
    {
        proof {
            reveal_strlit("2.7.3");
            reveal_strlit(".");
            assert(decimal(2) =~= seq!['2']);
            assert(decimal(7) =~= seq!['7']);
            assert(decimal(3) =~= seq!['3']);
            assert("2.7.3"@ =~= plain_version_text(2, 7, 3));
        }
        let mut supports_arm = false;
        if self.is_fed_two() {
            if self.is_latest() {
                supports_arm = true;
            } else if let Some(exact) = self.get_exact() {
                let t = exact.text();
                supports_arm = semver_at_least(t.as_str(), "2.7.3") == Some(true);
            }
        }
        supports_arm
    }

    /// The text the version is written as: `0`, `2`, or `=` and the exact
    /// version.
    pub fn to_text(&self) -> (r: String)
        ensures
            r@ == federation_version_text(self@),
    {
        match self {
            FederationVersion::LatestFedOne => owned("0"),
            FederationVersion::LatestFedTwo => owned("2"),
            FederationVersion::ExactFedOne(version) | FederationVersion::ExactFedTwo(version) => {
                let mut r = owned("=");
                let t = version.text();
                r.append(t.as_str());
                r
            },
        }
    }

    /// A copy of the version.
    pub fn duplicate(&self) -> (r: FederationVersion)
        ensures
            r == *self,
    {
        match self {
            FederationVersion::LatestFedOne => FederationVersion::LatestFedOne,
            FederationVersion::LatestFedTwo => FederationVersion::LatestFedTwo,
            FederationVersion::ExactFedOne(v) => FederationVersion::ExactFedOne(v.duplicate()),
            FederationVersion::ExactFedTwo(v) => FederationVersion::ExactFedTwo(v.duplicate()),
        }
    }

    /// The federation version of a bare number in a configuration: 0 and 1
    /// are federation 1, 2 is federation 2.
    pub fn from_number(num: u64) -> (r: Result<FederationVersion, String>)
        ensures
            num == 0 || num == 1 ==> r matches Ok(FederationVersion::LatestFedOne),
            num == 2 ==> r matches Ok(FederationVersion::LatestFedTwo),
            num > 2 ==> (r matches Err(m) && m@ == "specified version `"@ + decimal(num as nat)
                + "` is not supported"@),
    {
        if num == 0 || num == 1 {
            Ok(FederationVersion::LatestFedOne)
        } else if num == 2 {
            Ok(FederationVersion::LatestFedTwo)
        } else {
            let mut m = owned("specified version `");
            let d = to_decimal(num);
            m.append(d.as_str());
            m.append("` is not supported");
            Err(m)
        }
    }

    /// The federation version of a text in a configuration, or the message
    /// of why it is not one.
    pub fn from_text(id: &str) -> (r: Result<FederationVersion, String>)
        ensures
            match federation_version_from_text(id@) {
                Ok(v) => r matches Ok(x) && x@ == v,
                Err(m) => r matches Err(t) && t@ == "Could not parse supergraph config: "@ + m
                    + "."@,
            },
    {
        match Self::from_str(id) {
            Ok(v) => Ok(v),
            Err(e) => Err(e.message()),
        }
    }
}

impl Default for FederationVersion {
    /// The latest version of federation 1.
    fn default() -> (r: Self)
        ensures
            r == FederationVersion::LatestFedOne,
    {
        FederationVersion::LatestFedOne
    }
}

impl PluginVersion for FederationVersion {
    /// 0 for federation 1, 2 for federation 2.
    fn get_major_version(&self) -> (r: u64)
        ensures
            r == (if self is LatestFedOne || self is ExactFedOne {
                0u64
            } else {
                2u64
            }),
    {
        match self {
            FederationVersion::LatestFedOne | FederationVersion::ExactFedOne(_) => 0,
            FederationVersion::LatestFedTwo | FederationVersion::ExactFedTwo(_) => 2,
        }
    }

    /// `latest-0`, `latest-2`, or `v` and the exact version.
    fn get_tarball_version(&self) -> (r: String)
        ensures
            r@ == match self@ {
                FederationVersionView::LatestFedOne => "latest-0"@,
                FederationVersionView::LatestFedTwo => "latest-2"@,
                FederationVersionView::ExactFedOne(v) => "v"@ + semver_text(v),
                FederationVersionView::ExactFedTwo(v) => "v"@ + semver_text(v),
            },
    {
        match self {
            FederationVersion::LatestFedOne => owned("latest-0"),
            FederationVersion::LatestFedTwo => owned("latest-2"),
            FederationVersion::ExactFedOne(v) | FederationVersion::ExactFedTwo(v) => {
                let mut r = owned("v");
                let t = v.text();
                r.append(t.as_str());
                r
            },
        }
    }
}

impl RouterVersion {
    /// Reads a router version: `1`, `latest`, or an exact 1.x version after
    /// `=` or `v`.
    pub fn from_str(input: &str) -> (r: Result<RouterVersion, ConfigError>)
        ensures
            match router_version_from_text(input@) {
                Ok(v) => r matches Ok(x) && x@ == v,
                Err(m) => invalid_configuration_message(r) == Some(m),
            },
            r matches Ok(x) ==> (x@ matches RouterVersionView::Exact(s) ==> semver_parse(
                semver_text(s),
            ) == Some(s)),
            forall|x: u64, y: u64, z: u64|
                (input@ == "="@ + #[trigger] plain_version_text(x, y, z) || input@ == "v"@
                    + plain_version_text(x, y, z)) ==> if x == 1 {
                    r matches Ok(RouterVersion::Exact(v)) && v@ == (
                        x,
                        y,
                        z,
                        Seq::<char>::empty(),
                        Seq::<char>::empty(),
                    )
                } else {
                    r is Err
                },
    {
        proof {
            assert forall|x: u64, y: u64, z: u64|
                (input@ == "="@ + #[trigger] plain_version_text(x, y, z) || input@ == "v"@
                    + plain_version_text(x, y, z)) implies is_exact_spelling(input@) by {
                reveal_strlit("=");
                reveal_strlit("v");
                lemma_decimal_nonempty(x as nat);
                if input@ == "="@ + plain_version_text(x, y, z) {
                    assert(input@.subrange(0, 1) =~= "="@);
                } else {
                    assert(input@.subrange(0, 1) =~= "v"@);
                }
            }
        }
        let head = "Specified version `";
        let tail = "` is not supported. You can either specify '1', 'latest', or a fully qualified version prefixed with an '=', like: =1.0.0";
        if exact_spelling(input) {
            let n = input.unicode_len();
            let rest = input.substring_char(1, n);
            proof {
                assert forall|x: u64, y: u64, z: u64|
                    (input@ == "="@ + #[trigger] plain_version_text(x, y, z) || input@ == "v"@
                        + plain_version_text(x, y, z)) implies rest@ == plain_version_text(
                        x,
                        y,
                        z,
                    ) by {
                    reveal_strlit("=");
                    reveal_strlit("v");
                    assert(rest@ =~= input@.subrange(1, n as int));
                    assert(rest@ =~= plain_version_text(x, y, z));
                }
            }
            match parsed_semver(rest) {
                Some(version) => {
                    if version.major == 1 {
                        Ok(RouterVersion::Exact(version))
                    } else {
                        Err(invalid_version_error(head, input, tail))
                    }
                },
                None => Err(invalid_version_error(head, input, tail)),
            }
        } else if same_text(input, "1") || same_text(input, "latest") {
            Ok(RouterVersion::Latest)
        } else {
            Err(invalid_version_error(head, input, tail))
        }
    }

    /// The text the version is written as: `1`, or `=` and the exact version.
    pub fn to_text(&self) -> (r: String)
        ensures
            r@ == router_version_text(self@),
    {
        match self {
            RouterVersion::Latest => owned("1"),
            RouterVersion::Exact(version) => {
                let mut r = owned("=");
                let t = version.text();
                r.append(t.as_str());
                r
            },
        }
    }
}

impl PluginVersion for RouterVersion {
    /// 1 for the latest version, the major number of an exact one.
    fn get_major_version(&self) -> (r: u64)
        ensures
            r == match self {
                RouterVersion::Latest => 1u64,
                RouterVersion::Exact(v) => v.major,
            },
    {
        match self {
            RouterVersion::Latest => 1,
            RouterVersion::Exact(v) => v.major,
        }
    }

    /// `v` and the exact version, or `latest-plugin`.
    fn get_tarball_version(&self) -> (r: String)
        ensures
            r@ == match self@ {
                RouterVersionView::Latest => "latest-plugin"@,
                RouterVersionView::Exact(v) => "v"@ + semver_text(v),
            },
    {
        match self {
            RouterVersion::Exact(v) => {
                let mut r = owned("v");
                let t = v.text();
                r.append(t.as_str());
                r
            },
            RouterVersion::Latest => owned("latest-plugin"),
        }
    }
}

/// A federation version that reading its own text gives back: a latest
/// version, or an exact one that `semver` reads back from its text and that
/// is in the supported range of its line.
pub open spec fn federation_version_acceptable(v: FederationVersionView) -> bool {
    match v {
        FederationVersionView::LatestFedOne => true,
        FederationVersionView::LatestFedTwo => true,
        FederationVersionView::ExactFedOne(s) => s.0 == 0 && s.1 >= 36 && semver_parse(
            semver_text(s),
        ) == Some(s),
        FederationVersionView::ExactFedTwo(s) => s.0 == 2 && semver_parse(semver_text(s)) == Some(
            s,
        ) && semver_text_ge(semver_text(s), fed_two_floor()) == Some(true),
    }
}

/// Writing a federation version and reading the text back gives the same
/// version, for every version that reading can produce.
pub proof fn law_federation_version_text_roundtrip(v: FederationVersionView)
    requires
        federation_version_acceptable(v),
    ensures
        federation_version_from_text(federation_version_text(v)) == Ok::<
            FederationVersionView,
            Seq<char>,
        >(v),
{
    reveal_strlit("=");
    reveal_strlit("v");
    reveal_strlit("0");
    reveal_strlit("2");
    reveal_strlit("1");
    reveal_strlit("latest-0");
    reveal_strlit("latest-1");
    reveal_strlit("latest-2");
    reveal_strlit(".");
    match v {
        FederationVersionView::ExactFedOne(s) => {
            let t = federation_version_text(v);
            assert(decimal(s.0 as nat).len() > 0);
            assert(semver_text(s).len() > 0);
            assert(t.subrange(0, 1) =~= "="@);
            assert(after_prefix(t) =~= semver_text(s));
        },
        FederationVersionView::ExactFedTwo(s) => {
            let t = federation_version_text(v);
            assert(decimal(s.0 as nat).len() > 0);
            assert(semver_text(s).len() > 0);
            assert(t.subrange(0, 1) =~= "="@);
            assert(after_prefix(t) =~= semver_text(s));
        },
        FederationVersionView::LatestFedOne => {
            assert(!is_exact_spelling("0"@));
        },
        FederationVersionView::LatestFedTwo => {
            assert(!is_exact_spelling("2"@));
            assert("2"@[0] != "0"@[0] && "2"@[0] != "1"@[0]);
            assert("2"@.len() != "latest-0"@.len() && "2"@.len() != "latest-1"@.len());
        },
    }
}

} // verus!
