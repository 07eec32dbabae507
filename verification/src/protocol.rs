//! The wire side of the dispense client: request URLs, header names, the
//! JSON bodies of the two outbound calls, and the rendering of HTTP
//! status codes for user-visible messages.

use vstd::prelude::*;
use vstd::string::StringExecFns;
use crate::numfmt::dec_int;

verus! {

/// Lower-case hexadecimal digit.
pub open spec fn hex_char(d: int) -> char {
    if d == 0 {
        '0'
    } else if d == 1 {
        '1'
    } else if d == 2 {
        '2'
    } else if d == 3 {
        '3'
    } else if d == 4 {
        '4'
    } else if d == 5 {
        '5'
    } else if d == 6 {
        '6'
    } else if d == 7 {
        '7'
    } else if d == 8 {
        '8'
    } else if d == 9 {
        '9'
    } else if d == 10 {
        'a'
    } else if d == 11 {
        'b'
    } else if d == 12 {
        'c'
    } else if d == 13 {
        'd'
    } else if d == 14 {
        'e'
    } else {
        'f'
    }
}

/// How one character appears inside a JSON string literal: quote and
/// backslash are escaped, control characters get their short escape or a
/// `\u00xx` escape, and everything else stands as itself.
pub open spec fn json_escape_char(c: char) -> Seq<char> {
    if c == '"' {
        seq!['\\', '"']
    } else if c == '\\' {
        seq!['\\', '\\']
    } else if c == '\u{0008}' {
        seq!['\\', 'b']
    } else if c == '\u{0009}' {
        seq!['\\', 't']
    } else if c == '\u{000A}' {
        seq!['\\', 'n']
    } else if c == '\u{000C}' {
        seq!['\\', 'f']
    } else if c == '\u{000D}' {
        seq!['\\', 'r']
    } else if (c as int) < 0x20 {
        seq!['\\', 'u', '0', '0', hex_char((c as int) / 16), hex_char((c as int) % 16)]
    } else {
        seq![c]
    }
}

/// A character sequence escaped for use inside a JSON string literal.
pub open spec fn json_escape(s: Seq<char>) -> Seq<char>
    decreases s.len(),
{
    if s.len() == 0 {
        Seq::empty()
    } else {
        json_escape_char(s[0]) + json_escape(s.skip(1))
    }
}

/// A JSON string literal: the escaped characters between double quotes.
pub open spec fn json_string(s: Seq<char>) -> Seq<char> {
    seq!['"'] + json_escape(s) + seq!['"']
}

/// The JSON body of a dispense request for a slot of a machine.
pub open spec fn spec_drop_request(machine: Seq<char>, slot: int) -> Seq<char> {
    "{\"machine\":"@ + json_string(machine) + ",\"slot\":"@ + dec_int(slot) + "}"@
}

/// The JSON value of the caller-identity header on a dispense request.
pub open spec fn spec_user_info(uid: Seq<char>) -> Seq<char> {
    "{\"preferred_username\":"@ + json_string(uid) + "}"@
}

/// Relies on serde_json: an object with keys "machine" (a string) and
/// "slot" (an integer) serializes, keys in sorted order, with its string
/// escaped per the serializer's escape table and its integer in decimal.
#[verifier::external_body]
pub(crate) fn encode_drop_request(machine: &str, slot: i64) -> (r: String)
    ensures
        r@ == spec_drop_request(machine@, slot as int),
{
    let mut body = serde_json::Map::new();
    body.insert("machine".to_string(), serde_json::Value::String(machine.to_string()));
    body.insert("slot".to_string(), serde_json::Value::Number(serde_json::Number::from(slot)));
    serde_json::Value::Object(body).to_string()
}

/// Relies on serde_json: an object with the single string key
/// "preferred_username" serializes with its string escaped per the
/// serializer's escape table.
#[verifier::external_body]
pub(crate) fn encode_user_info(uid: &str) -> (r: String)
    ensures
        r@ == spec_user_info(uid@),
{
    let mut obj = serde_json::Map::new();
    obj.insert("preferred_username".to_string(), serde_json::Value::String(uid.to_string()));
    serde_json::Value::Object(obj).to_string()
}

/// How an HTTP status code reads in a diagnostic: reqwest renders the
/// code in decimal, then a space and its canonical reason phrase.
pub uninterp spec fn status_text(code: int) -> Seq<char>;

/// Relies on reqwest's `StatusCode`: `from_u16` accepts exactly the codes
/// 100 through 999, and `ToString` renders a status from its code alone.
#[verifier::external_body]
pub(crate) fn status_line(code: u16) -> (r: Option<String>)
    ensures
        match r {
            Option::Some(s) => 100 <= code <= 999 && s@ == status_text(code as int),
            Option::None => !(100 <= code <= 999),
        },
{
    match reqwest::StatusCode::from_u16(code) {
        Ok(status) => Some(status.to_string()),
        Err(_) => None,
    }
}

/// Name of the shared-secret header that every backend request carries.
pub fn auth_header_name() -> (r: &'static str)
    ensures
        r@ == "X-Auth-Token"@,
{
    "X-Auth-Token"
}

/// Name of the caller-identity header on a dispense request.
pub fn user_info_header_name() -> (r: &'static str)
    ensures
        r@ == "X-User-Info"@,
{
    "X-User-Info"
}

/// The catalog-fetch URL under an endpoint.
pub open spec fn spec_catalog_url(endpoint: Seq<char>) -> Seq<char> {
    endpoint + "/drinks"@
}

/// Build the catalog-fetch URL for an endpoint.
pub fn catalog_url(endpoint: &str) -> (r: String)
    ensures
        r@ == spec_catalog_url(endpoint@),
{
    String::from_str(endpoint).concat("/drinks")
}

/// The dispense-request URL under an endpoint.
pub open spec fn spec_drop_url(endpoint: Seq<char>) -> Seq<char> {
    endpoint + "/drinks/drop"@
}

/// Build the dispense-request URL for an endpoint.
pub fn drop_url(endpoint: &str) -> (r: String)
    ensures
        r@ == spec_drop_url(endpoint@),
{
    String::from_str(endpoint).concat("/drinks/drop")
}

} // verus!
