//! Validating a query against a schema in the JavaScript runtime.
use vstd::prelude::*;

use crate::router_bridge::api_schema::message_or_unknown;
use crate::router_bridge::error::Error;
use crate::router_bridge::js::{json_string_text, Js};
use crate::text::owned;

verus! {

/// An error that occurred while a query was validated in JavaScript.
#[derive(Debug)]
pub struct ValidationError {
    /// A human-readable description of the error.
    pub message: Option<String>,
}

impl ValidationError {
    /// The error as text: its message, or `UNKNOWN`.
    pub fn to_text(&self) -> (r: String)
        ensures
            r@ == message_or_unknown(self.message),
    {
        match &self.message {
            Some(m) => m.clone(),
            None => owned("UNKNOWN"),
        }
    }
}

/// The name of the script that validates a query.
pub open spec fn validate_script_name() -> Seq<char> {
    "validate"@
}

/// The script that validates `query` against `schema`: the script
/// `validate`, with the parameters `schema` and then `query`. Serialising
/// the texts cannot fail, so the result is always `Ok`.
pub fn validate(schema: &str, query: &str) -> (r: Result<Js, Error>)
    ensures
        r is Ok,
        r.unwrap().name_of() == validate_script_name(),
        r.unwrap().parameters_of() == seq![
            ("schema"@, "schema"@ + " = "@ + json_string_text(schema@)),
            ("query"@, "query"@ + " = "@ + json_string_text(query@)),
        ],
{
    let js = Js::new(owned("validate"));
    let js = js.with_parameter("schema", schema)?;
    let r = js.with_parameter("query", query);
    proof {
        assert(r->Ok_0.parameters_of() =~= seq![
            ("schema"@, "schema"@ + " = "@ + json_string_text(schema@)),
            ("query"@, "query"@ + " = "@ + json_string_text(query@)),
        ]);
    }
    r
}

} // verus!
