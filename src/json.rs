use vstd::prelude::*;
use crate::error::ToolError;
use crate::text::has_prefix;

verus! {

#[verifier::external_type_specification]
#[verifier::external_body]
pub struct ExValue(serde_json::Value);

#[verifier::external_type_specification]
#[verifier::external_body]
pub struct ExJsonError(serde_json::Error);

/// The lowercase hexadecimal digit of `n`, for `0 <= n < 16`.
pub open spec fn hex_digit(n: int) -> char {
    seq!['0', '1', '2', '3', '4', '5', '6', '7', '8', '9', 'a', 'b', 'c', 'd', 'e', 'f'][n]
}

/// How a character stands inside a JSON string: quote and backslash behind a
/// backslash; backspace, tab, line feed, form feed and carriage return by
/// their letter; other controls below U+0020 as `\u00xx`; all else as is.
pub open spec fn escape_char(c: char) -> Seq<char> {
    if c == '"' {
        seq!['\\', '"']
    } else if c == '\\' {
        seq!['\\', '\\']
    } else if c == '\u{8}' {
        seq!['\\', 'b']
    } else if c == '\t' {
        seq!['\\', 't']
    } else if c == '\n' {
        seq!['\\', 'n']
    } else if c == '\u{c}' {
        seq!['\\', 'f']
    } else if c == '\r' {
        seq!['\\', 'r']
    } else if (c as int) < 0x20 {
        seq!['\\', 'u', '0', '0', hex_digit(c as int / 16), hex_digit(c as int % 16)]
    } else {
        seq![c]
    }
}

/// The characters of `s`, each escaped.
pub open spec fn escape_all(s: Seq<char>) -> Seq<char>
    decreases s.len(),
{
    if s.len() == 0 {
        seq![]
    } else {
        escape_all(s.drop_last()) + escape_char(s.last())
    }
}

/// The JSON string literal of `s`: its escaped characters between quotes.
pub open spec fn json_string_literal(s: Seq<char>) -> Seq<char> {
    seq!['"'] + escape_all(s) + seq!['"']
}

/// Whether serde_json reads `b` as one JSON document.
pub uninterp spec fn is_json_document(b: Seq<u8>) -> bool;

/// Relies on `serde_json::to_string` for a `str`: the JSON string literal of
/// `s`, escaped as its `format_escaped_str` and `ESCAPE` table do. It writes through `Serializer::serialize_str` into a `Vec<u8>`, whose
/// writes do not fail, so the result is always `Ok`.
#[verifier::external_body]
fn to_json_string(s: &str) -> (r: Result<String, serde_json::Error>)
    ensures
        r is Ok,
        r->Ok_0@ == json_string_literal(s@),
{
    serde_json::to_string(s)
}

/// Relies on `serde_json::from_slice`: reads `b` as a JSON value, or fails.
#[verifier::external_body]
fn parse_json(b: &[u8]) -> (r: Result<serde_json::Value, serde_json::Error>)
    ensures
        r is Ok <==> is_json_document(b@),
{
    serde_json::from_slice(b)
}

/// Relies on the `Display` impl of `serde_json::Error`: its message.
#[verifier::external_body]
fn json_error_text(e: &serde_json::Error) -> (r: String) {
    e.to_string()
}

/// The JSON string literal for `s`.
pub fn quote_json(s: &str) -> (r: String)
    ensures
        r@ == json_string_literal(s@),
{
    to_json_string(s).unwrap()
}

/// The JSON body of a new issue: `{"body":<body>,"title":<title>}`.
pub open spec fn issue_body(title: Seq<char>, body: Seq<char>) -> Seq<char> {
    "{\"body\":"@ + json_string_literal(body) + ",\"title\":"@ + json_string_literal(title) + "}"@
}

/// Serialises the JSON body of a new issue.
pub fn encode_issue(title: &str, body: &str) -> (r: String)
    ensures
        r@ == issue_body(title@, body@),
{
    let mut r = String::from_str("{\"body\":");
    let b = quote_json(body);
    r.append(b.as_str());
    r.append(",\"title\":");
    let t = quote_json(title);
    r.append(t.as_str());
    r.append("}");
    r
}

/// Reads a response body as JSON; a body that is not JSON becomes an error.
pub fn decode_response(body: &[u8]) -> (r: Result<serde_json::Value, ToolError>)
    ensures
        r is Ok <==> is_json_document(body@),
        r is Err ==> r->Err_0 is InvalidJson,
        r is Err ==> has_prefix(r->Err_0->InvalidJson_0@, "JSON parse error: "@),
{
    match parse_json(body) {
        Ok(v) => Ok(v),
        Err(e) => {
            let mut m = String::from_str("JSON parse error: ");
            let ghost p = m@;
            let t = json_error_text(&e);
            m.append(t.as_str());
            assert(m@.subrange(0, p.len() as int) =~= p);
            Err(ToolError::InvalidJson(m))
        },
    }
}

/// The outcome of one HTTP exchange, as the host sees it: the transport's
/// failure, or the body read as JSON.
pub fn finish(response: Result<Vec<u8>, String>) -> (r: Result<serde_json::Value, ToolError>)
    ensures
        response matches Err(m) ==> r == Err::<serde_json::Value, ToolError>(ToolError::Transport(m)),
        response matches Ok(b) ==> (r is Ok <==> is_json_document(b@)),
        response is Ok && r is Err ==> r->Err_0 is InvalidJson,
{
    match response {
        Err(m) => Err(ToolError::Transport(m)),
        Ok(b) => decode_response(b.as_slice()),
    }
}

} // verus!
