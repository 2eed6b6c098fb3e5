//! Query planning: the options handed to the planner, the results and errors
//! it gives back, and the decisions taken on them.
use vstd::prelude::*;

use std::sync::Arc;

use crate::keyed::KeyedMap;
use crate::text::{join_seq, join_texts, owned, views};

verus! {

/// Options for the query plan.
#[derive(Debug)]
pub struct QueryPlanOptions {
    /// Use auto fragmentation.
    pub auto_fragmentization: bool,
}

impl Default for QueryPlanOptions {
    /// Auto fragmentation is off.
    fn default() -> (r: Self)
        ensures
            !r.auto_fragmentization,
    {
        QueryPlanOptions { auto_fragmentization: false }
    }
}

/// All the information to plan a query against a schema.
#[derive(Debug)]
pub struct OperationalContext {
    /// The GraphQL schema.
    pub schema: String,
    /// The GraphQL query.
    pub query: String,
    /// The operation name.
    pub operation_name: String,
}

/// The stacktrace in the extensions of an error.
#[derive(Debug)]
pub struct ExtensionsException {
    /// The stacktrace generated in JavaScript.
    pub stacktrace: String,
}

/// The code of an error, with its stacktrace when there is one.
#[derive(Debug)]
pub struct PlanErrorExtensions {
    /// The error code.
    pub code: String,
    /// The stacktrace, if we have one.
    pub exception: Option<ExtensionsException>,
}

/// An error that occurred during planning in JavaScript, shaped like a
/// `GraphQLError` of `graphql-js`.
#[derive(Debug)]
pub struct PlanError {
    /// A human-readable description of the error that prevented planning.
    pub message: Option<String>,
    /// The error's code, if it has one.
    pub extensions: Option<PlanErrorExtensions>,
}

/// The code of a planning error: that of its extensions, else `UNKNOWN`.
pub open spec fn plan_error_code(e: PlanError) -> Seq<char> {
    match e.extensions {
        Some(ext) => ext.code@,
        None => "UNKNOWN"@,
    }
}

/// A planning error as text: its code, then `: ` and its message when it
/// has one.
pub open spec fn plan_error_text(e: PlanError) -> Seq<char> {
    match e.message {
        Some(m) => plan_error_code(e) + ": "@ + m@,
        None => plan_error_code(e),
    }
}

impl PlanError {
    /// The error code received with the error, or `UNKNOWN`.
    pub fn code(&self) -> (r: &str)
        ensures
            r@ == plan_error_code(*self),
    {
        match &self.extensions {
            Some(ext) => ext.code.as_str(),
            None => "UNKNOWN",
        }
    }

    /// The error as text: `code: message`, or the code alone.
    pub fn to_text(&self) -> (r: String)
        ensures
            r@ == plan_error_text(*self),
    {
        let mut r = owned(self.code());
        match &self.message {
            Some(m) => {
                r.append(": ");
                r.append(m.as_str());
            },
            None => {},
        }
        r
    }
}

/// The result of setting up the bridge.
#[derive(Debug)]
pub struct BridgeSetupResult<T> {
    /// The data if setup happened successfully.
    pub data: Option<T>,
    /// The errors if setup failed.
    pub errors: Option<Vec<PlannerError>>,
}

/// A place in a GraphQL document.
#[derive(Debug, PartialEq, Eq, Structural)]
pub struct Location {
    /// The line number.
    pub line: u32,
    /// The column number.
    pub column: u32,
}

/// An error of the JavaScript runtime that is not a GraphQL error.
#[derive(Debug)]
pub struct WorkerError {
    /// The error message.
    pub message: Option<String>,
    /// The error kind.
    pub name: Option<String>,
    /// A stacktrace, if applicable.
    pub stack: Option<String>,
    /// The error's code, if it has one.
    pub extensions: Option<PlanErrorExtensions>,
    /// The places in the requested document that the error is about.
    pub locations: Vec<Location>,
}

/// A worker error as text: its message, or `unknown error`.
pub open spec fn worker_error_text(e: WorkerError) -> Seq<char> {
    match e.message {
        Some(m) => m@,
        None => "unknown error"@,
    }
}

impl WorkerError {
    /// The error as text: its message, or `unknown error`.
    pub fn to_text(&self) -> (r: String)
        ensures
            r@ == worker_error_text(*self),
    {
        match &self.message {
            Some(m) => m.clone(),
            None => owned("unknown error"),
        }
    }
}

/// A GraphQL error of the JavaScript runtime.
#[derive(Debug)]
pub struct WorkerGraphQLError {
    /// The error kind.
    pub name: String,
    /// A short, human-readable summary of the problem.
    pub message: String,
    /// The places in the requested document that the error is about.
    pub locations: Vec<Location>,
    /// The error's code, if it has one.
    pub extensions: Option<PlanErrorExtensions>,
    /// The original error thrown from a field resolver during execution.
    pub original_error: Option<Box<WorkerError>>,
    /// The reasons why the error was triggered.
    pub causes: Vec<Box<WorkerError>>,
}

/// The texts of the causes of an error, in order.
pub open spec fn cause_texts(causes: Seq<Box<WorkerError>>) -> Seq<Seq<char>> {
    causes.map_values(|c: Box<WorkerError>| worker_error_text(*c))
}

/// A GraphQL error as text: its message, the line `caused by`, then the
/// text of each cause on a line of its own.
pub open spec fn graphql_error_text(e: WorkerGraphQLError) -> Seq<char> {
    e.message@ + "\ncaused by\n"@ + join_seq(cause_texts(e.causes@), "\n"@)
}

impl WorkerGraphQLError {
    /// The error as text: its message, `caused by`, and its causes one per
    /// line.
    pub fn to_text(&self) -> (r: String)
        ensures
            r@ == graphql_error_text(*self),
    {
        let mut texts: Vec<String> = Vec::new();
        let mut i: usize = 0;
        while i < self.causes.len()
            invariant
                i <= self.causes.len(),
                views(texts@) =~= cause_texts(self.causes@.subrange(0, i as int)),
            decreases self.causes.len() - i,
        {
            let t = self.causes[i].to_text();
            let ghost before = texts@;
            texts.push(t);
            proof {
                assert(views(texts@) =~= views(before).push(t@));
                assert(cause_texts(self.causes@.subrange(0, i + 1)) =~= cause_texts(
                    self.causes@.subrange(0, i as int),
                ).push(worker_error_text(*self.causes@[i as int])));
            }
            i = i + 1;
        }
        assert(self.causes@.subrange(0, self.causes.len() as int) =~= self.causes@);
        let joined = join_texts(&texts, "\n");
        let mut r = self.message.clone();
        r.append("\ncaused by\n");
        r.append(joined.as_str());
        r
    }
}

/// An error that the JavaScript runtime can throw.
#[derive(Debug)]
pub enum PlannerError {
    /// A GraphQL error.
    WorkerGraphQLError(WorkerGraphQLError),
    /// Any other error.
    WorkerError(WorkerError),
}

/// A planner error as text: that of the error it holds.
pub open spec fn planner_error_text(e: PlannerError) -> Seq<char> {
    match e {
        PlannerError::WorkerGraphQLError(g) => graphql_error_text(g),
        PlannerError::WorkerError(w) => worker_error_text(w),
    }
}

impl PlannerError {
    /// The error as text: that of the error it holds.
    pub fn to_text(&self) -> (r: String)
        ensures
            r@ == planner_error_text(*self),
    {
        match self {
            PlannerError::WorkerGraphQLError(g) => g.to_text(),
            PlannerError::WorkerError(w) => w.to_text(),
        }
    }
}

impl From<WorkerGraphQLError> for PlannerError {
    fn from(e: WorkerGraphQLError) -> (r: Self) {
        PlannerError::WorkerGraphQLError(e)
    }
}

impl vstd::std_specs::convert::FromSpecImpl<WorkerGraphQLError> for PlannerError {
    open spec fn obeys_from_spec() -> bool {
        true
    }

    open spec fn from_spec(v: WorkerGraphQLError) -> PlannerError {
        PlannerError::WorkerGraphQLError(v)
    }
}

impl From<WorkerError> for PlannerError {
    fn from(e: WorkerError) -> (r: Self) {
        PlannerError::WorkerError(e)
    }
}

impl vstd::std_specs::convert::FromSpecImpl<WorkerError> for PlannerError {
    open spec fn obeys_from_spec() -> bool {
        true
    }

    open spec fn from_spec(v: WorkerError) -> PlannerError {
        PlannerError::WorkerError(v)
    }
}

/// The fields that a query resolves on one type.
#[derive(Debug)]
pub struct ReferencedFieldsForType {
    /// The names of the fields queried.
    pub field_names: Vec<String>,
    /// Whether the type is an interface.
    pub is_interface: bool,
}

impl View for ReferencedFieldsForType {
    type V = (Seq<Seq<char>>, bool);

    open spec fn view(&self) -> (Seq<Seq<char>>, bool) {
        (views(self.field_names@), self.is_interface)
    }
}

/// What is reported of a planned operation: its signature and the fields it
/// references, by type name.
#[derive(Debug)]
pub struct UsageReporting {
    /// The key by which statistics of the operation are grouped.
    pub stats_report_key: String,
    /// The fields referenced by the query, by the name of their type.
    pub referenced_fields_by_type: KeyedMap<ReferencedFieldsForType>,
}

/// The result of planning a query.
#[derive(Debug)]
pub struct PlanResult<T> {
    /// The plan, if the query could be planned.
    pub data: Option<T>,
    /// What is reported of the operation.
    pub usage_reporting: UsageReporting,
    /// The errors, if the query could not be planned.
    pub errors: Option<Vec<PlanError>>,
}

/// A query that was planned.
#[derive(Debug)]
pub struct PlanSuccess<T> {
    /// The plan.
    pub data: T,
    /// What is reported of the operation.
    pub usage_reporting: UsageReporting,
}

/// The API schema that the planner derived from its schema.
#[derive(Debug)]
pub struct ApiSchema {
    /// The schema.
    pub schema: String,
}

/// A query that could not be planned.
#[derive(Debug)]
pub struct PlanErrors {
    /// The errors that planning failed with.
    pub errors: Arc<Vec<PlanError>>,
    /// What is reported of the operation.
    pub usage_reporting: UsageReporting,
}

/// The message with which a plan result that holds neither a plan nor
/// errors fails.
pub open spec fn unknown_plan_error_message() -> Seq<char> {
    "an unknown error occured"@
}

/// The message of a planning error as listed among others, or a placeholder
/// when it has none.
pub open spec fn listed_message(e: PlanError) -> Seq<char> {
    match e.message {
        Some(m) => m@,
        None => "UNKNWON ERROR"@,
    }
}

/// The planning errors as text: `query validation errors: ` and their
/// messages, separated by `, `.
pub open spec fn plan_errors_text(errors: Seq<PlanError>) -> Seq<char> {
    "query validation errors: "@ + join_seq(
        errors.map_values(|e: PlanError| listed_message(e)),
        ", "@,
    )
}

impl PlanErrors {
    /// The errors as text: `query validation errors: ` and their messages,
    /// separated by `, `.
    pub fn to_text(&self) -> (r: String)
        ensures
            r@ == plan_errors_text(self.errors@),
    {
        let errors: &Vec<PlanError> = &self.errors;
        let mut texts: Vec<String> = Vec::new();
        let mut i: usize = 0;
        while i < errors.len()
            invariant
                i <= errors.len(),
                views(texts@) =~= errors@.subrange(0, i as int).map_values(
                    |e: PlanError| listed_message(e),
                ),
            decreases errors.len() - i,
        {
            let t = match &errors[i].message {
                Some(m) => m.clone(),
                None => owned("UNKNWON ERROR"),
            };
            let ghost before = texts@;
            texts.push(t);
            proof {
                assert(views(texts@) =~= views(before).push(t@));
                assert(errors@.subrange(0, i + 1).map_values(|e: PlanError| listed_message(e))
                    =~= errors@.subrange(0, i as int).map_values(|e: PlanError| listed_message(e)).push(
                    listed_message(errors@[i as int]),
                ));
            }
            i = i + 1;
        }
        assert(errors@.subrange(0, errors.len() as int) =~= errors@);
        let joined = join_texts(&texts, ", ");
        let mut r = owned("query validation errors: ");
        r.append(joined.as_str());
        r
    }
}

impl<T> PlanResult<T> {
    /// The plan when there is one; else the errors, or one error saying
    /// that the error is unknown when there are none.
    pub fn into_result(self) -> (r: Result<PlanSuccess<T>, PlanErrors>)
        ensures
            match r {
                Ok(success) => self.data == Some(success.data) && success.usage_reporting
                    == self.usage_reporting,
                Err(failure) => {
                    &&& self.data.is_none()
                    &&& failure.usage_reporting == self.usage_reporting
                    &&& match self.errors {
                        Some(errors) => failure.errors@ == errors@,
                        None => {
                            &&& failure.errors@.len() == 1
                            &&& failure.errors@[0].extensions.is_none()
                            &&& failure.errors@[0].message matches Some(m) && m@
                                == unknown_plan_error_message()
                        },
                    }
                },
            },
    {
        let usage_reporting = self.usage_reporting;
        match self.data {
            Some(data) => Ok(PlanSuccess { data, usage_reporting }),
            None => {
                let errors = match self.errors {
                    Some(errors) => errors,
                    None => {
                        let mut v: Vec<PlanError> = Vec::new();
                        v.push(
                            PlanError {
                                message: Some(owned("an unknown error occured")),
                                extensions: None,
                            },
                        );
                        v
                    },
                };
                Err(PlanErrors { errors: Arc::new(errors), usage_reporting })
            },
        }
    }
}

/// Support of incremental delivery (`@defer`).
#[derive(Debug)]
pub struct IncrementalDeliverySupport {
    /// Whether the planner plans `@defer`; none means that it does not.
    pub enable_defer: Option<bool>,
}

/// The configuration of the query planner.
#[derive(Debug)]
pub struct QueryPlannerConfig {
    /// Support of `@defer`.
    pub incremental_delivery: Option<IncrementalDeliverySupport>,
}

impl Default for QueryPlannerConfig {
    /// Incremental delivery is configured, with `@defer` off.
    fn default() -> (r: Self)
        ensures
            r.incremental_delivery matches Some(s) && s.enable_defer == Some(false),
    {
        QueryPlannerConfig {
            incremental_delivery: Some(IncrementalDeliverySupport { enable_defer: Some(false) }),
        }
    }
}

/// The name given to the error that a failed setup request is reported as.
pub open spec fn setup_error_name() -> Seq<char> {
    "planner setup error"@
}

/// Whether an error is the one that a failed setup request with the given
/// error message is reported as: a worker error named `planner setup error`
/// with that message, and nothing else.
pub open spec fn is_setup_error(e: PlannerError, message: String) -> bool {
    match e {
        PlannerError::WorkerError(w) => match w.name {
            Some(n) => {
                &&& n@ == setup_error_name()
                &&& w.message == Some(message)
                &&& w.stack.is_none()
                &&& w.extensions.is_none()
                &&& w.locations@.len() == 0
            },
            None => false,
        },
        PlannerError::WorkerGraphQLError(_) => false,
    }
}

/// The error that a request to set up the planner that failed is reported
/// as: a worker error named `planner setup error` with the request's error
/// as its message.
pub fn setup_error(message: String) -> (r: PlannerError)
    ensures
        is_setup_error(r, message),
{
    PlannerError::WorkerError(
        WorkerError {
            name: Some(owned("planner setup error")),
            message: Some(message),
            stack: None,
            extensions: None,
            locations: Vec::new(),
        },
    )
}

/// Whether the planner was set up, from the answer to the setup request:
/// the request's own error when it failed, the errors that the answer
/// holds when it holds any, and success otherwise.
pub fn setup_outcome<V>(answer: Result<BridgeSetupResult<V>, String>) -> (r: Result<
    (),
    Vec<PlannerError>,
>)
    ensures
        match answer {
            Err(message) => r matches Err(errors) && errors@.len() == 1 && is_setup_error(
                errors@[0],
                message,
            ),
            Ok(setup) => match setup.errors {
                Some(errors) => r matches Err(e) && e@ == errors@,
                None => r is Ok,
            },
        },
{
    match answer {
        Err(message) => {
            let mut errors: Vec<PlannerError> = Vec::new();
            errors.push(setup_error(message));
            Err(errors)
        },
        Ok(setup) => match setup.errors {
            Some(errors) => Err(errors),
            None => Ok(()),
        },
    }
}

} // verus!
