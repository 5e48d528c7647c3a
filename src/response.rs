use vstd::prelude::*;
use crate::json::{JsonValue, field, get_field};
use crate::text::{decimal, decimal_of, is_word, join3};
use vstd::string::StringSliceAdditionalSpecFns;

verus! {

/// What a response body calls for.
#[derive(Debug)]
pub enum Outcome {
    /// The assistant's reply text.
    Reply(String),
    /// The service refused the API key.
    AuthFailure,
    /// Anything else: the body is dumped for the user to read.
    Diagnostic,
}

/// The reply text: the `message.content` string of the first element of the
/// `choices` array, when there is one.
pub open spec fn reply_of(v: JsonValue) -> Option<Seq<char>> {
    match field(v, "choices"@) {
        Some(JsonValue::Array(items)) => if items@.len() > 0 {
            match field(items@[0], "message"@) {
                Some(m) => match field(m, "content"@) {
                    Some(JsonValue::Str(s)) => Some(s@),
                    _ => None,
                },
                None => None,
            }
        } else {
            None
        },
        _ => None,
    }
}

/// Whether the body is an error object whose `code` is the string `401`.
pub open spec fn is_auth_failure(v: JsonValue) -> bool {
    match field(v, "error"@) {
        Some(e) => match field(e, "code"@) {
            Some(JsonValue::Str(c)) => c@ == "401"@,
            _ => false,
        },
        None => false,
    }
}

/// Whether `o` is what the body `v` calls for: a reply takes precedence over
/// an authentication failure, and everything else is a diagnostic.
pub open spec fn outcome_of(v: JsonValue, o: Outcome) -> bool {
    match o {
        Outcome::Reply(s) => reply_of(v) == Some(s@),
        Outcome::AuthFailure => reply_of(v) is None && is_auth_failure(v),
        Outcome::Diagnostic => reply_of(v) is None && !is_auth_failure(v),
    }
}

fn reply_text(v: &JsonValue) -> (r: Option<String>)
    ensures
        r is Some <==> reply_of(*v) is Some,
        r is Some ==> reply_of(*v) == Some(r.unwrap()@),
{
    if let Some(JsonValue::Array(items)) = get_field(v, "choices") {
        if items.len() > 0 {
            if let Some(m) = get_field(&items[0], "message") {
                if let Some(JsonValue::Str(s)) = get_field(m, "content") {
                    return Some(s.clone());
                }
            }
        }
    }
    None
}

fn auth_failed(v: &JsonValue) -> (r: bool)
    ensures
        r == is_auth_failure(*v),
{
    if let Some(e) = get_field(v, "error") {
        if let Some(JsonValue::Str(c)) = get_field(e, "code") {
            return is_word(c, "401");
        }
    }
    false
}

/// Decides what a response body calls for.
pub fn classify_response(v: &JsonValue) -> (r: Outcome)
    ensures
        outcome_of(*v, r),
{
    match reply_text(v) {
        Some(s) => Outcome::Reply(s),
        None => if auth_failed(v) {
            Outcome::AuthFailure
        } else {
            Outcome::Diagnostic
        },
    }
}

/// The rough number of tokens in `input`: a quarter of its length in UTF-8
/// bytes, rounded down. (The byte length of a string in memory always fits
/// in `usize`.)
pub open spec fn spec_approx_tokens(input: &str) -> nat {
    (input.spec_bytes().len() as usize) as nat / 4
}

/// The rough number of tokens that `input` amounts to.
pub fn approx_tokens(input: &str) -> (r: usize)
    ensures
        r == spec_approx_tokens(input),
{
    input.len() / 4
}

/// The line that reports the rough size of what was sent.
pub open spec fn token_line_spec(input: &str) -> Seq<char> {
    "Sent approximately "@ + decimal_of(spec_approx_tokens(input)) + " tokens"@
}

/// The two lines printed after the stored API key was refused and cleared.
pub open spec fn auth_failure_spec() -> Seq<Seq<char>> {
    seq![
        "Authentication failed. API key has been cleared."@,
        "Please run the tool again to enter a new API key."@,
    ]
}

/// The heading printed above the raw response body.
pub open spec fn raw_heading() -> Seq<char> {
    "\nRaw API Response:\n"@
}

/// What the tool does once the response body is in.
#[derive(Debug)]
pub struct Verdict {
    /// The lines for standard output, in order.
    pub lines: Vec<String>,
    /// Whether the stored API key must be removed before the lines are printed.
    pub clear_api_key: bool,
    /// The process's exit status.
    pub exit_code: i32,
}

/// Whether `r` is the verdict on body `v`, for the request whose user text
/// was `input`, given the indented rendering `pretty` of the body.
pub open spec fn verdict_for(v: JsonValue, input: &str, pretty: Seq<char>, r: Verdict) -> bool {
    let lines = r.lines@.map_values(|s: String| s@);
    if reply_of(v) is Some {
        &&& lines == seq![reply_of(v).unwrap()]
        &&& !r.clear_api_key
        &&& r.exit_code == 0
    } else if is_auth_failure(v) {
        &&& lines == auth_failure_spec()
        &&& r.clear_api_key
        &&& r.exit_code == 1
    } else {
        &&& lines == seq![token_line_spec(input), raw_heading(), pretty]
        &&& !r.clear_api_key
        &&& r.exit_code == 0
    }
}

/// Turns a response body into the lines to print, whether the stored API key
/// is to be cleared, and the exit status. `pretty` is the indented rendering
/// of the body, printed in full on the diagnostic path.
pub fn respond(v: &JsonValue, input: &str, pretty: String) -> (r: Verdict)
    ensures
        verdict_for(*v, input, pretty@, r),
{
    let mut lines: Vec<String> = Vec::new();
    match classify_response(v) {
        Outcome::Reply(s) => {
            lines.push(s);
            assert(lines@.map_values(|s: String| s@) =~= seq![reply_of(*v).unwrap()]);
            Verdict { lines, clear_api_key: false, exit_code: 0 }
        },
        Outcome::AuthFailure => {
            lines.push(String::from_str("Authentication failed. API key has been cleared."));
            lines.push(String::from_str("Please run the tool again to enter a new API key."));
            assert(lines@.map_values(|s: String| s@) =~= auth_failure_spec());
            Verdict { lines, clear_api_key: true, exit_code: 1 }
        },
        Outcome::Diagnostic => {
            let n = decimal(approx_tokens(input));
            lines.push(join3("Sent approximately ", n.as_str(), " tokens"));
            lines.push(String::from_str("\nRaw API Response:\n"));
            let ghost p = pretty@;
            lines.push(pretty);
            assert(lines@.map_values(|s: String| s@) =~= seq![token_line_spec(input), raw_heading(), p]);
            Verdict { lines, clear_api_key: false, exit_code: 0 }
        },
    }
}

#[verifier::external_type_specification]
#[verifier::external_body]
pub struct ExJsonBody(serde_json::Value);

#[verifier::external_type_specification]
#[verifier::external_body]
pub struct ExJsonError(serde_json::Error);

/// Relies on `serde_json::to_string_pretty`: the body rendered as indented
/// JSON text. On a `Value` it does not fail: every object key is a string and
/// the text is written to memory.
#[verifier::external_body]
fn render_pretty(body: &serde_json::Value) -> (r: Result<String, serde_json::Error>)
    ensures
        r is Ok,
{
    serde_json::to_string_pretty(body)
}

/// The rendered body that a diagnostic verdict ends with; empty for the
/// other verdicts.
pub open spec fn dumped_text(r: Verdict) -> Seq<char> {
    if r.lines@.len() == 3 {
        r.lines@[2]@
    } else {
        Seq::empty()
    }
}

/// Handles a response: `v` is the body as read, `body` the same body as
/// received, rendered in full on the diagnostic path. It always succeeds.
pub fn handle_response(v: &JsonValue, body: &serde_json::Value, input: &str) -> (r: Result<
    Verdict,
    serde_json::Error,
>)
    ensures
        r is Ok,
        reply_of(*v) is Some || is_auth_failure(*v) ==> r is Ok && verdict_for(
            *v,
            input,
            Seq::empty(),
            r->Ok_0,
        ),
        r is Ok ==> verdict_for(*v, input, dumped_text(r->Ok_0), r->Ok_0),
        !(reply_of(*v) is Some || is_auth_failure(*v)) ==> r is Ok && r->Ok_0.lines@.len() == 3,
{
    if reply_text(v).is_some() || auth_failed(v) {
        let r = respond(v, input, String::new());
        assert(verdict_for(*v, input, Seq::empty(), r));
        assert(r.lines@.map_values(|s: String| s@).len() == r.lines@.len());
        Ok(r)
    } else {
        let pretty = match render_pretty(body) {
            Ok(t) => t,
            Err(e) => return Err(e),
        };
        let ghost p = pretty@;
        let r = respond(v, input, pretty);
        assert(verdict_for(*v, input, p, r));
        assert(r.lines@.map_values(|s: String| s@).len() == r.lines@.len());
        assert(r.lines@.map_values(|s: String| s@)[2] == r.lines@[2]@);
        Ok(r)
    }
}

} // verus!
