//! Deriving the API schema of an SDL in the JavaScript runtime.
use vstd::prelude::*;

use crate::router_bridge::error::Error;
use crate::router_bridge::js::{json_string_text, Js};
use crate::text::owned;

verus! {

/// An error that occurred while the API schema was derived in JavaScript.
#[derive(Debug)]
pub struct ApiSchemaError {
    /// A human-readable description of the error.
    pub message: Option<String>,
}

/// An error's message, or `UNKNOWN` when it has none.
pub open spec fn message_or_unknown(message: Option<String>) -> Seq<char> {
    match message {
        Some(m) => m@,
        None => "UNKNOWN"@,
    }
}

impl ApiSchemaError {
    /// The error as text: its message, or `UNKNOWN`.
    pub fn to_text(&self) -> (r: String)
        ensures
            r@ == message_or_unknown(self.message),
    {
        match &self.message {
            Some(m) => m.clone(),
            None => owned("UNKNOWN"),
        }
    }
}

/// What the derivation answers: the API schema, or the errors.
pub type ApiSchemaResult = Result<String, Vec<ApiSchemaError>>;

/// The name of the script that derives an API schema.
pub open spec fn api_schema_script_name() -> Seq<char> {
    "api_schema"@
}

/// The script that derives the API schema of `sdl`: the script
/// `api_schema`, with the SDL as its parameter `sdl`. Serialising the SDL
/// cannot fail, so the result is always `Ok`.
pub fn api_schema(sdl: &str) -> (r: Result<Js, Error>)
    ensures
        r is Ok,
        r.unwrap().name_of() == api_schema_script_name(),
        r.unwrap().parameters_of() == seq![
            ("sdl"@, "sdl"@ + " = "@ + json_string_text(sdl@)),
        ],
{
    let js = Js::new(owned("api_schema"));
    proof {
        assert(js.parameters_of().push(("sdl"@, "sdl"@ + " = "@ + json_string_text(sdl@)))
            =~= seq![("sdl"@, "sdl"@ + " = "@ + json_string_text(sdl@))]);
    }
    js.with_parameter("sdl", sdl)
}

} // verus!
