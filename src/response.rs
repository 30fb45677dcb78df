use vstd::prelude::*;
use crate::error::{is_status_error, ClientError, Result};

verus! {

/// A name for what `serde_json::from_str::<Value>` makes of a text: the
/// document where the text is valid JSON, else nothing.
pub uninterp spec fn parsed_json(text: Seq<char>) -> Option<serde_json::Value>;

/// A name for the string member `key` of the top-level object of a JSON
/// text: nothing where the text is not JSON, not an object, has no such
/// member, or the member is not a string.
pub uninterp spec fn json_string_member(text: Seq<char>, key: Seq<char>) -> Option<Seq<char>>;

/// Relies on `serde_json::from_str::<serde_json::Value>`: it fails exactly
/// where the text is not valid JSON, and depends on the text alone.
#[verifier::external_body]
fn parse_json(text: &str) -> (r: core::result::Result<serde_json::Value, serde_json::Error>)
    ensures
        match r {
            Ok(v) => parsed_json(text@) == Some(v),
            Err(_) => parsed_json(text@) is None,
        },
{
    serde_json::from_str::<serde_json::Value>(text)
}

/// Relies on `serde_json::from_str::<serde_json::Value>`, then
/// `Value::get` and `Value::as_str`, which give nothing rather than panic
/// where the document is no object, lacks the key, or holds no string there.
#[verifier::external_body]
fn string_member(text: &str, key: &str) -> (r: Option<String>)
    ensures
        match r {
            Some(s) => json_string_member(text@, key@) == Some(s@),
            None => json_string_member(text@, key@) is None,
        },
{
    serde_json::from_str::<serde_json::Value>(text).ok()
        .and_then(|v| v.get(key).and_then(|m| m.as_str()).map(|m| m.to_string()))
}

/// Whether an HTTP status reports success (2xx).
pub open spec fn is_success_status(status: u16) -> bool {
    200 <= status < 300
}

/// The message of a failed call: the body's `error` string where the body is
/// a JSON object that has one, else the raw body.
pub open spec fn failure_message(body: Seq<char>) -> Seq<char> {
    match json_string_member(body, "error"@) {
        Some(m) => m,
        None => body,
    }
}

/// The message of a failed call, taken from its body.
pub fn error_message(body: &str) -> (r: String)
    ensures
        r@ == failure_message(body@),
{
    match string_member(body, "error") {
        Some(m) => m,
        None => String::from_str(body),
    }
}

/// What a response means for the caller, from its status and its body text:
/// for a 2xx status the decoded JSON document, or `Json` where the body is not
/// JSON; for any other status the typed error of that status.
pub fn handle_response(status: u16, body: &str) -> (r: Result<serde_json::Value>)
    ensures
        is_success_status(status) ==> match r {
            Ok(v) => parsed_json(body@) == Some(v),
            Err(e) => parsed_json(body@) is None && e is Json,
        },
        !is_success_status(status) ==> match r {
            Ok(_) => false,
            Err(e) => is_status_error(e, status, failure_message(body@)),
        },
{
    if 200 <= status && status < 300 {
        match parse_json(body) {
            Ok(v) => Ok(v),
            Err(e) => Err(ClientError::Json(e)),
        }
    } else {
        Err(ClientError::from_status_code(status, error_message(body)))
    }
}

} // verus!
