//! A script run in the JavaScript runtime, with the parameters it is given.
use vstd::prelude::*;

use crate::router_bridge::error::Error;
use crate::text::{owned, views};

verus! {

/// The JSON text that a text serializes to (`serde_json::to_string` on a
/// string).
pub uninterp spec fn json_string_text(s: Seq<char>) -> Seq<char>;

/// A character that JSON writes as itself inside a string.
pub open spec fn json_plain_char(c: char) -> bool {
    (c as u32) >= 0x20 && c != '"' && c != '\\'
}

/// A text that JSON writes as itself between double quotes.
pub open spec fn json_plain_text(s: Seq<char>) -> bool {
    forall|i: int| 0 <= i < s.len() ==> json_plain_char(#[trigger] s[i])
}

/// Writes a text as a JSON string (`serde_json::to_string`).
///
/// Stated of `serde_json`: writing a `str` into a `Vec` never fails, and the
/// result is its JSON text for the string; a text with no quote, backslash or
/// control character is written between double quotes as it is. How other
/// characters are escaped is left to the named result.
#[verifier::external_body]
pub(crate) fn json_string(s: &str) -> (r: Result<String, String>)
    ensures
        r is Ok,
        r.unwrap()@ == json_string_text(s@),
        json_plain_text(s@) ==> r.unwrap()@
            == "\""@ + s@ + "\""@,
{
    serde_json::to_string(s).map_err(|e| e.to_string())
}

/// A named script together with the statements that set its parameters.
#[derive(Debug)]
pub struct Js {
    name: String,
    parameters: Vec<(&'static str, String)>,
}

impl Js {
    /// The script's name.
    pub closed spec fn name_of(self) -> Seq<char> {
        self.name@
    }

    /// The parameter names and their assignment statements, in order.
    pub closed spec fn parameters_of(self) -> Seq<(Seq<char>, Seq<char>)> {
        self.parameters@.map_values(|p: (&'static str, String)| (p.0@, p.1@))
    }

    /// A script with no parameters yet.
    pub fn new(name: String) -> (r: Js)
        ensures
            r.name_of() == name@,
            r.parameters_of().len() == 0,
    {
        let r = Js { name, parameters: Vec::new() };
        assert(r.parameters_of() =~= Seq::<(Seq<char>, Seq<char>)>::empty());
        r
    }

    /// The script's name.
    pub fn name(&self) -> (r: &str)
        ensures
            r@ == self.name_of(),
    {
        self.name.as_str()
    }

    /// The number of parameters.
    pub fn parameter_count(&self) -> (r: usize)
        ensures
            r == self.parameters_of().len(),
    {
        self.parameters.len()
    }

    /// The name of parameter `i` and the statement that sets it.
    pub fn parameter_at(&self, i: usize) -> (r: (&'static str, &str))
        requires
            i < self.parameters_of().len(),
        ensures
            (r.0@, r.1@) == self.parameters_of()[i as int],
    {
        let p = &self.parameters[i];
        (p.0, p.1.as_str())
    }

    /// Adds a text parameter: the statement `name = <param as JSON>`.
    ///
    /// Serialising a text cannot fail, so the result is always `Ok`.
    pub fn with_parameter(self, name: &'static str, param: &str) -> (r: Result<Js, Error>)
        ensures
            r is Ok,
            r.unwrap().name_of() == self.name_of(),
            r.unwrap().parameters_of() == self.parameters_of().push(
                (name@, name@ + " = "@ + json_string_text(param@)),
            ),
            json_plain_text(param@) ==> (
            r matches Ok(js) && js.parameters_of() == self.parameters_of().push(
                (name@, name@ + " = \""@ + param@ + "\""@),
            )),
    {
        match json_string(param) {
            Ok(json) => {
                let mut serialized = owned(name);
                serialized.append(" = ");
                serialized.append(json.as_str());
                let mut js = self;
                let ghost before = js.parameters_of();
                js.parameters.push((name, serialized));
                proof {
                    assert(js.parameters_of() =~= before.push((name@, serialized@)));
                    assert(("\""@ + param@ + "\""@) =~= "\""@ + param@ + "\""@);
                    assert(name@ + " = "@ + ("\""@ + param@ + "\""@) =~= name@ + " = \""@ + param@
                        + "\""@) by {
                        reveal_strlit(" = ");
                        reveal_strlit(" = \"");
                        reveal_strlit("\"");
                    }
                }
                Ok(js)
            },
            Err(message) => Err(Error::ParameterSerialization { name: owned(name), message }),
        }
    }
}

/// The initial heap size of the runtime, in megabytes, when none is
/// configured.
pub open spec fn default_heap_size() -> Seq<char> {
    "256"@
}

/// The initial heap size of the runtime: the configured one, else the
/// default of 256 megabytes.
pub fn heap_size_setting(configured: Option<String>) -> (r: String)
    ensures
        match configured {
            Some(v) => r@ == v@,
            None => r@ == default_heap_size(),
        },
{
    match configured {
        Some(v) => v,
        None => owned("256"),
    }
}

/// The flag that stands in the place of the program's name.
pub open spec fn ignored_flag() -> Seq<char> {
    "--ignored"@
}

/// The flags handed to the V8 engine: a placeholder for the program's name,
/// then the maximal heap size.
pub fn v8_flags(heap_size: String) -> (r: Vec<String>)
    ensures
        views(r@) == seq![ignored_flag(), "--max-heap-size"@, heap_size@],
{
    let mut r: Vec<String> = Vec::new();
    r.push(owned("--ignored"));
    r.push(owned("--max-heap-size"));
    r.push(heap_size);
    assert(views(r@) =~= seq![ignored_flag(), "--max-heap-size"@, heap_size@]);
    r
}

/// Whether a flag that the engine gave back is worth a warning: all but
/// the placeholder for the program's name.
pub open spec fn is_reported_flag(flag: Seq<char>) -> bool {
    flag != ignored_flag()
}

/// The flags that the engine did not recognise and that are worth a
/// warning, in order.
pub fn unrecognised_flags(returned: Vec<String>) -> (r: Vec<String>)
    ensures
        views(r@) == views(returned@).filter(|f: Seq<char>| is_reported_flag(f)),
{
    let mut r: Vec<String> = Vec::new();
    let mut i: usize = 0;
    while i < returned.len()
        invariant
            i <= returned.len(),
            views(r@) == views(returned@.subrange(0, i as int)).filter(
                |f: Seq<char>| is_reported_flag(f),
            ),
        decreases returned.len() - i,
    {
        let ghost before = r@;
        let ghost prefix = views(returned@.subrange(0, i as int));
        let ghost next = views(returned@.subrange(0, i + 1));
        proof {
            assert(next.drop_last() =~= prefix);
            assert(next.last() == returned@[i as int]@);
            reveal(Seq::filter);
        }
        if !crate::text::same_text(returned[i].as_str(), "--ignored") {
            r.push(returned[i].clone());
            proof {
                assert(views(r@) =~= views(before).push(returned@[i as int]@));
            }
        }
        i = i + 1;
    }
    assert(returned@.subrange(0, returned.len() as int) =~= returned@);
    r
}

/// The heap limit that the runtime grows to when it comes near `current`:
/// a quarter more.
pub fn expanded_heap_limit(current: usize) -> (r: usize)
    requires
        current * 5 <= usize::MAX,
    ensures
        r == current * 5 / 4,
{
    current * 5 / 4
}

/// The name under which the statement that sets a parameter is run: the
/// parameter's name in angle brackets.
pub fn parameter_script_name(name: &str) -> (r: String)
    ensures
        r@ == "<"@ + name@ + ">"@,
{
    let mut r = owned("<");
    r.append(name);
    r.append(">");
    r
}

/// The message of the error given when the script `name` cannot be run.
pub fn runtime_error_message(name: &str, error: &str) -> (r: String)
    ensures
        r@ == "unable to invoke `"@ + name@ + "` in JavaScript runtime \n error: \n "@ + error@,
{
    let mut r = owned("unable to invoke `");
    r.append(name);
    r.append("` in JavaScript runtime \n error: \n ");
    r.append(error);
    r
}

} // verus!
