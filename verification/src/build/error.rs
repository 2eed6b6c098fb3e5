//! Errors of a supergraph build.
use vstd::prelude::*;

use crate::config::config_error::{config_error_text, ConfigError};
use crate::config::subgraph::duplicate_text;
use crate::text::{decimal, owned, to_decimal};
use crate::UncaughtJson;

verus! {

/// What kind of step a build error came from.
#[derive(Debug)]
pub enum BuildErrorType {
    Composition,
    Config,
}

/// One error of a supergraph build.
#[derive(Debug)]
pub struct BuildError {
    message: Option<String>,
    code: Option<String>,
    error_type: BuildErrorType,
    other: UncaughtJson,
}

/// The message given to a build error that has neither code nor message.
pub open spec fn unknown_build_error_message() -> Seq<char> {
    "An unknown error occurred during the build."@
}

/// The text of a build error: its code (or `UNKNOWN`), then `: ` and its
/// message when it has one.
pub open spec fn build_error_text(code: Option<String>, message: Option<String>) -> Seq<char> {
    (match code {
        Some(c) => c@,
        None => "UNKNOWN"@,
    }) + match message {
        Some(m) => ": "@ + m@,
        None => Seq::empty(),
    }
}

impl BuildError {
    /// The error's message.
    pub closed spec fn message_of(self) -> Option<String> {
        self.message
    }

    /// The error's code.
    pub closed spec fn code_of(self) -> Option<String> {
        self.code
    }

    /// The kind of step the error came from.
    pub closed spec fn type_of(self) -> BuildErrorType {
        self.error_type
    }

    /// The untyped fields the error carries beyond the known ones.
    pub closed spec fn other_of(self) -> UncaughtJson {
        self.other
    }

    /// An error of composition.
    pub fn composition_error(code: Option<String>, message: Option<String>) -> (r: BuildError)
        ensures
            r.type_of() is Composition,
            r.code_of() == code,
            code.is_none() && message.is_none() ==> (r.message_of() matches Some(m) && m@
                == unknown_build_error_message()),
            !(code.is_none() && message.is_none()) ==> r.message_of() == message,
            r.other_of()@.len() == 0,
    {
        BuildError::new(code, message, BuildErrorType::Composition)
    }

    /// An error of configuration.
    pub fn config_error(code: Option<String>, message: Option<String>) -> (r: BuildError)
        ensures
            r.type_of() is Config,
            r.code_of() == code,
            code.is_none() && message.is_none() ==> (r.message_of() matches Some(m) && m@
                == unknown_build_error_message()),
            !(code.is_none() && message.is_none()) ==> r.message_of() == message,
            r.other_of()@.len() == 0,
    {
        BuildError::new(code, message, BuildErrorType::Config)
    }

    /// An error of the given kind; one with neither code nor message gets
    /// the message that the error is unknown.
    fn new(code: Option<String>, message: Option<String>, error_type: BuildErrorType) -> (r: BuildError)
        ensures
            r.type_of() == error_type,
            r.code_of() == code,
            code.is_none() && message.is_none() ==> (r.message_of() matches Some(m) && m@
                == unknown_build_error_message()),
            !(code.is_none() && message.is_none()) ==> r.message_of() == message,
            r.other_of()@.len() == 0,
    {
        let real_message = if code.is_none() && message.is_none() {
            Some(owned("An unknown error occurred during the build."))
        } else {
            message
        };
        BuildError { code, message: real_message, error_type, other: String::new() }
    }

    /// An error with all its parts, the untyped JSON it carries included.
    pub fn from_parts(
        code: Option<String>,
        message: Option<String>,
        error_type: BuildErrorType,
        other: UncaughtJson,
    ) -> (r: BuildError)
        ensures
            r.code_of() == code,
            r.message_of() == message,
            r.type_of() == error_type,
            r.other_of() == other,
    {
        BuildError { message, code, error_type, other }
    }

    /// The untyped JSON the error carries.
    pub fn other_text(&self) -> (r: &str)
        ensures
            r@ == self.other_of()@,
    {
        self.other.as_str()
    }

    /// The error's message.
    pub fn get_message(&self) -> (r: Option<String>)
        ensures
            r == self.message_of(),
    {
        duplicate_text(&self.message)
    }

    /// The error's code.
    pub fn get_code(&self) -> (r: Option<String>)
        ensures
            r == self.code_of(),
    {
        duplicate_text(&self.code)
    }

    /// Whether the error came from configuration.
    pub fn is_config(&self) -> (r: bool)
        ensures
            r == (self.type_of() is Config),
    {
        matches!(self.error_type, BuildErrorType::Config)
    }

    /// The error as text: its code (or `UNKNOWN`), then `: ` and its message.
    pub fn to_text(&self) -> (r: String)
        ensures
            r@ == build_error_text(self.code_of(), self.message_of()),
    {
        let mut r = match &self.code {
            Some(c) => c.clone(),
            None => owned("UNKNOWN"),
        };
        if let Some(message) = &self.message {
            r.append(": ");
            r.append(message.as_str());
        }
        r
    }
}

/// Whether some error in the list came from configuration.
pub open spec fn has_config_error(errors: Seq<BuildError>) -> bool {
    exists|i: int| 0 <= i < errors.len() && (#[trigger] errors[i]).type_of() is Config
}

/// Whether some error in the list came from configuration.
pub fn includes_config_error(build_errors: &Vec<BuildError>) -> (r: bool)
    ensures
        r == has_config_error(build_errors@),
{
    let mut is_config = false;
    let mut i: usize = 0;
    while i < build_errors.len()
        invariant
            i <= build_errors.len(),
            is_config == has_config_error(build_errors@.subrange(0, i as int)),
        decreases build_errors.len() - i,
    {
        let ghost prefix = build_errors@.subrange(0, i as int);
        let ghost next = build_errors@.subrange(0, i + 1);
        if build_errors[i].is_config() {
            is_config = true;
            assert(next[i as int] == build_errors@[i as int]);
        }
        proof {
            if has_config_error(next) {
                let j = choose|j: int| 0 <= j < next.len() && (#[trigger] next[j]).type_of() is Config;
                if j < i {
                    assert(prefix[j] == next[j]);
                }
            }
            if has_config_error(prefix) {
                let j = choose|j: int| 0 <= j < prefix.len() && (#[trigger] prefix[j]).type_of() is Config;
                assert(next[j] == prefix[j]);
            }
        }
        i = i + 1;
    }
    assert(build_errors@.subrange(0, build_errors.len() as int) =~= build_errors@);
    is_config
}

/// The errors of a supergraph build.
#[derive(Debug)]
pub struct BuildErrors {
    build_errors: Vec<BuildError>,
    /// Whether the build failed because of its configuration.
    pub is_config: bool,
}

/// The text of a number of build errors, as in `2 build errors`.
pub open spec fn length_text(n: nat) -> Seq<char> {
    if n == 1 {
        "1 build error"@
    } else {
        decimal(n) + " build errors"@
    }
}

/// The lines of the errors' texts, each ended by a line break.
pub open spec fn error_lines(errors: Seq<BuildError>) -> Seq<char>
    decreases errors.len(),
{
    if errors.len() == 0 {
        Seq::empty()
    } else {
        error_lines(errors.drop_last()) + build_error_text(
            errors.last().code_of(),
            errors.last().message_of(),
        ) + "\n"@
    }
}

/// The line shown where no error says what went wrong.
pub open spec fn nothing_recorded_line() -> Seq<char> {
    "Something went wrong! No build errors were recorded, but we also were unable to build a valid supergraph.\n"@
}

/// The text of a list of build errors.
pub open spec fn build_errors_text(errors: Seq<BuildError>) -> Seq<char> {
    if errors.len() == 0 || (errors.len() == 1 && errors[0].code_of().is_none()
        && errors[0].message_of().is_none()) {
        nothing_recorded_line()
    } else {
        error_lines(errors)
    }
}

impl BuildErrors {
    /// The errors, in order.
    pub fn build_errors(&self) -> (r: &Vec<BuildError>)
        ensures
            r@ == self.errors(),
    {
        &self.build_errors
    }

    /// Whether the errors are marked as from configuration.
    pub fn is_config(&self) -> (r: bool)
        ensures
            r == self.config_flag(),
    {
        self.is_config
    }

    /// The errors, in the order they were added.
    pub closed spec fn errors(self) -> Seq<BuildError> {
        self.build_errors@
    }

    /// Whether the errors are marked as from configuration.
    pub closed spec fn config_flag(self) -> bool {
        self.is_config
    }

    /// The errors of the list, marked as from configuration exactly when one
    /// of them is: what `from` gives.
    pub closed spec fn gathered(v: Vec<BuildError>) -> BuildErrors {
        BuildErrors { build_errors: v, is_config: has_config_error(v@) }
    }

    /// The flag agrees with the errors: set exactly when one came from
    /// configuration.
    pub open spec fn wf(self) -> bool {
        self.config_flag() == has_config_error(self.errors())
    }

    /// No errors.
    pub fn new() -> (r: BuildErrors)
        ensures
            r.errors().len() == 0,
            !r.config_flag(),
            r.wf(),
    {
        BuildErrors { build_errors: Vec::new(), is_config: false }
    }

    /// The number of errors.
    pub fn len(&self) -> (r: usize)
        ensures
            r == self.errors().len(),
    {
        self.build_errors.len()
    }

    /// The number of errors as text, as in `2 build errors`; there must be
    /// at least one.
    pub fn length_string(&self) -> (r: String)
        requires
            self.errors().len() > 0,
        ensures
            r@ == length_text(self.errors().len()),
    {
        let num_failures = self.build_errors.len();
        if num_failures == 1 {
            owned("1 build error")
        } else {
            let mut r = to_decimal(num_failures as u64);
            r.append(" build errors");
            r
        }
    }

    /// Adds an error; one from configuration marks the errors as such.
    pub fn push(&mut self, error: BuildError)
        ensures
            final(self).errors() == old(self).errors().push(error),
            final(self).config_flag() == (old(self).config_flag() || error.type_of() is Config),
    {
        if error.is_config() {
            self.is_config = true;
        }
        self.build_errors.push(error);
    }

    /// Whether there are no errors.
    pub fn is_empty(&self) -> (r: bool)
        ensures
            r == (self.errors().len() == 0),
    {
        self.build_errors.len() == 0
    }

    /// The errors as text: one line for each, or a line saying that nothing
    /// was recorded where no error says what went wrong.
    pub fn to_text(&self) -> (r: String)
        ensures
            r@ == build_errors_text(self.errors()),
    {
        let num_failures = self.build_errors.len();
        if num_failures == 0 || (num_failures == 1 && self.build_errors[0].code.is_none()
            && self.build_errors[0].message.is_none()) {
            return owned(
                "Something went wrong! No build errors were recorded, but we also were unable to build a valid supergraph.\n",
            );
        }
        let mut r = String::new();
        let mut i: usize = 0;
        while i < num_failures
            invariant
                num_failures == self.errors().len(),
                i <= num_failures,
                r@ == error_lines(self.errors().subrange(0, i as int)),
            decreases num_failures - i,
        {
            let line = self.build_errors[i].to_text();
            r.append(line.as_str());
            r.append("\n");
            assert(self.errors().subrange(0, i + 1).drop_last() =~= self.errors().subrange(
                0,
                i as int,
            ));
            i = i + 1;
        }
        assert(self.errors().subrange(0, num_failures as int) =~= self.errors());
        r
    }

    /// The errors of the list, marked as from configuration when one of them
    /// is.
    pub fn from_errors(build_errors: Vec<BuildError>) -> (r: BuildErrors)
        ensures
            r.errors() == build_errors@,
            r.wf(),
    {
        let is_config = includes_config_error(&build_errors);
        BuildErrors { build_errors, is_config }
    }

    /// The errors of the list with the flag as given, whether or not one of
    /// them came from configuration.
    pub fn marked(build_errors: Vec<BuildError>, is_config: bool) -> (r: BuildErrors)
        ensures
            r.errors() == build_errors@,
            r.config_flag() == is_config,
    {
        BuildErrors { build_errors, is_config }
    }

    /// The errors that stand for a configuration error: one error from
    /// configuration with its code and message.
    pub fn from_config_error(config_error: ConfigError) -> (r: BuildErrors)
        ensures
            r.errors().len() == 1,
            r.errors()[0].type_of() is Config,
            r.errors()[0].code_of().is_none(),
            r.errors()[0].message_of() matches Some(m) && m@ == config_error_text(config_error),
            r.config_flag(),
            r.wf(),
    {
        let e = BuildError::config_error(config_error.code(), Some(config_error.message()));
        let mut build_errors: Vec<BuildError> = Vec::new();
        build_errors.push(e);
        let r = BuildErrors { build_errors, is_config: true };
        assert(r.errors()[0].type_of() is Config);
        r
    }

    /// The errors collected one by one, as by `push`.
    pub fn collect(errors: Vec<BuildError>) -> (r: BuildErrors)
        ensures
            r.errors() == errors@,
            r.wf(),
    {
        let mut c = BuildErrors::new();
        let mut i: usize = 0;
        while i < errors.len()
            invariant
                i <= errors.len(),
                c.errors().len() == i,
                forall|j: int| 0 <= j < i ==> c.errors()[j] == errors@[j],
                c.wf(),
            decreases errors.len() - i,
        {
            proof {
                lemma_push_keeps_wf(c, errors@[i as int]);
            }
            c.push(clone_build_error(&errors[i]));
            i = i + 1;
        }
        assert(c.errors() =~= errors@);
        c
    }
}

impl From<Vec<BuildError>> for BuildErrors {
    /// The errors of the list, marked as from configuration when one of them
    /// is.
    fn from(build_errors: Vec<BuildError>) -> (r: Self) {
        let is_config = includes_config_error(&build_errors);
        BuildErrors { build_errors, is_config }
    }
}

impl vstd::std_specs::convert::FromSpecImpl<Vec<BuildError>> for BuildErrors {
    open spec fn obeys_from_spec() -> bool {
        true
    }

    open spec fn from_spec(v: Vec<BuildError>) -> BuildErrors {
        BuildErrors::gathered(v)
    }
}

impl Default for BuildErrors {
    /// No errors, not marked as from configuration.
    fn default() -> (r: Self)
        ensures
            r.errors().len() == 0,
            !r.config_flag(),
    {
        BuildErrors::new()
    }
}

/// A copy of a build error.
pub fn clone_build_error(e: &BuildError) -> (r: BuildError)
    ensures
        r == *e,
{
    BuildError {
        message: duplicate_text(&e.message),
        code: duplicate_text(&e.code),
        error_type: match e.error_type {
            BuildErrorType::Composition => BuildErrorType::Composition,
            BuildErrorType::Config => BuildErrorType::Config,
        },
        other: e.other.clone(),
    }
}

/// Adding an error keeps the flag in agreement with the errors.
pub proof fn lemma_push_keeps_wf(errs: BuildErrors, error: BuildError)
    requires
        errs.wf(),
    ensures
        (errs.config_flag() || error.type_of() is Config) == has_config_error(errs.errors().push(error)),
{
    let s = errs.errors().push(error);
    if has_config_error(s) {
        let j = choose|j: int| 0 <= j < s.len() && (#[trigger] s[j]).type_of() is Config;
        if j < errs.errors().len() {
            assert(errs.errors()[j] == s[j]);
        }
    }
    if errs.config_flag() {
        let j = choose|j: int| 0 <= j < errs.errors().len() && (#[trigger] errs.errors()[j]).type_of() is Config;
        assert(s[j] == errs.errors()[j]);
    }
    if error.type_of() is Config {
        assert(s[s.len() - 1] == error);
    }
}

/// Adding an error to well-formed errors keeps them well formed: the flag
/// stays set exactly when some error came from configuration.
pub proof fn law_push_keeps_config_flag(errs: BuildErrors, error: BuildError, after: BuildErrors)
    requires
        errs.wf(),
        after.errors() == errs.errors().push(error),
        after.config_flag() == (errs.config_flag() || error.type_of() is Config),
    ensures
        after.wf(),
{
    lemma_push_keeps_wf(errs, error);
}

/// Errors gathered from a list and errors pushed one by one agree: with
/// the same errors, they are marked as from configuration alike.
pub proof fn law_gathered_errors_agree(a: BuildErrors, b: BuildErrors)
    requires
        a.wf(),
        b.wf(),
        a.errors() == b.errors(),
    ensures
        a.config_flag() == b.config_flag(),
{
}

/// Errors made from a list hold the list's errors in order and are marked
/// as from configuration exactly when one of them is; so they agree with the
/// same errors collected one by one.
pub proof fn law_from_list(v: Vec<BuildError>, collected: BuildErrors)
    requires
        collected.wf(),
        collected.errors() == v@,
    ensures
        BuildErrors::gathered(v).errors() == v@,
        BuildErrors::gathered(v).wf(),
        BuildErrors::gathered(v).config_flag() == collected.config_flag(),
{
}

} // verus!
