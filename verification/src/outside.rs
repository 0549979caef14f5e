//! Calls into other crates and into parts of std that carry no specification of
//! their own. Everything here is trusted: each contract is believed, not proved.
use crate::multi_agent::Timestamp;
use crate::text;
use crate::urls;
use crate::urls::{UrlParts, UrlView};
use vstd::prelude::*;

verus! {

/// How std's `Debug` for `str` prints a text: in double quotes, with escapes.
pub uninterp spec fn debug_text(s: Seq<char>) -> Seq<char>;

/// Formats a text with std's `Debug` for `str`. The contract claims only that the
/// output is a function of the text.
#[verifier::external_body]
pub(crate) fn debug_quoted(s: &str) -> (r: String)
    ensures
        r@ == debug_text(s@),
{
    format!("{:?}", s)
}

/// What `url::Url::parse` makes of a text: the scheme, host, port and query pairs of the
/// URL, or nothing where the text is not a URL.
pub uninterp spec fn parsed_url(text: Seq<char>) -> Option<UrlView>;

/// Parses a text with `url::Url::parse` and reads `scheme`, `host_str`, `port` and
/// `query_pairs` of the result. The contract claims that the outcome is a function of
/// the text.
#[verifier::external_body]
pub(crate) fn parse_url(text: &str) -> (r: Option<UrlParts>)
    ensures
        urls::url_view(r) == parsed_url(text@),
{
    let url = url::Url::parse(text).ok()?;
    Some(UrlParts {
        scheme: url.scheme().to_string(),
        host: url.host_str().map(|host| host.to_string()),
        port: url.port(),
        query: url.query_pairs().into_owned().collect(),
    })
}

/// The JSON text that serde_json prints for an object with one member, a string.
pub uninterp spec fn json_of(key: Seq<char>, value: Seq<char>) -> Seq<char>;

/// The string that serde_json finds at `key` of the value that `text` parses to, if there
/// is one.
pub uninterp spec fn json_string_member(text: Seq<char>, key: Seq<char>) -> Option<Seq<char>>;

/// Prints `{key: value}` through `serde_json::Value`'s `Display`. The contract claims
/// that the text is a function of the two strings, and that reading the member back
/// gives the value. Keys that begin with a dollar sign are left out: serde_json reserves
/// some of them, and does not read an object with such a key back as it is.
#[verifier::external_body]
pub(crate) fn json_object(key: &str, value: &str) -> (r: String)
    requires
        key@.len() > 0,
        key@[0] != '$',
    ensures
        r@ == json_of(key@, value@),
        json_string_member(r@, key@) == Some(value@),
{
    let mut members = serde_json::Map::new();
    members.insert(key.to_string(), serde_json::Value::String(value.to_string()));
    serde_json::Value::Object(members).to_string()
}

/// How `http::StatusCode` prints a status code.
pub uninterp spec fn status_display(code: u16) -> Seq<char>;

/// Prints a status code with the `Display` of `http::StatusCode`, which takes the codes
/// from 100 to 999. The contract claims that the text is a function of the code, and that
/// it begins with the code in decimal and a space; the reason phrase that follows is left
/// open.
#[verifier::external_body]
pub(crate) fn status_text(code: u16) -> (r: String)
    requires
        100 <= code <= 999,
    ensures
        r@ == status_display(code),
        text::starts_with(r@, text::decimal(code as nat).push(' ')),
{
    http::StatusCode::from_u16(code).unwrap().to_string()
}

/// Reads the string at `key` of the JSON object `text` through `serde_json::from_str`,
/// `Value::get` and `Value::as_str`. The contract claims that the outcome is a function
/// of the text and the key.
#[verifier::external_body]
pub(crate) fn json_string(text: &str, key: &str) -> (r: Option<String>)
    ensures
        text::opt_text(r) == json_string_member(text@, key@),
{
    let value: serde_json::Value = serde_json::from_str(text).ok()?;
    value.get(key)?.as_str().map(|s| s.to_string())
}

/// A lower-case hexadecimal digit.
pub open spec fn is_hex_digit(c: char) -> bool {
    '0' <= c <= '9' || 'a' <= c <= 'f'
}

/// The text of a random UUID: hyphenated, lower case, version 4.
pub open spec fn is_random_uuid(s: Seq<char>) -> bool {
    &&& s.len() == 36
    &&& forall|i: int|
        0 <= i < 36 ==> if i == 8 || i == 13 || i == 18 || i == 23 {
            s[i] == '-'
        } else {
            is_hex_digit(#[trigger] s[i])
        }
    &&& s[14] == '4'
    &&& s[19] == '8' || s[19] == '9' || s[19] == 'a' || s[19] == 'b'
}

/// Draws a UUID with `uuid::Uuid::new_v4` and prints it. The contract claims the form of
/// the text; which UUID comes is chance, and that no two are alike is not claimed. The
/// call panics on a machine that has no randomness to give.
#[verifier::external_body]
pub(crate) fn fresh_uuid() -> (r: String)
    ensures
        is_random_uuid(r@),
{
    uuid::Uuid::new_v4().to_string()
}

/// Reads the clock and converts it with `prost_types::Timestamp::from`. The contract
/// claims that the nanoseconds are in range; what time it is, is left open.
#[verifier::external_body]
pub(crate) fn current_timestamp() -> (r: Timestamp)
    ensures
        r.normalized(),
{
    let now = prost_types::Timestamp::from(std::time::SystemTime::now());
    Timestamp { seconds: now.seconds, nanos: now.nanos }
}

/// Decodes bytes with `String::from_utf8`, which succeeds exactly on valid UTF-8.
#[verifier::external_body]
pub(crate) fn utf8_text(bytes: Vec<u8>) -> (r: Option<String>)
    ensures
        match r {
            Some(s) => vstd::utf8::valid_utf8(bytes@) && s@ == vstd::utf8::decode_utf8(bytes@),
            None => !vstd::utf8::valid_utf8(bytes@),
        },
{
    String::from_utf8(bytes).ok()
}

/// The characters of URL-safe base64 text, padding included.
pub open spec fn is_base64_char(c: char) -> bool {
    'A' <= c <= 'Z' || 'a' <= c <= 'z' || '0' <= c <= '9' || c == '-' || c == '_' || c == '='
}

/// The URL-safe base64 text, with padding, of some bytes.
pub uninterp spec fn base64_text(bytes: Seq<u8>) -> Seq<char>;

/// Encodes bytes with `base64::prelude::BASE64_URL_SAFE`. The contract claims that the
/// text is a function of the bytes, how long it is and which characters it is made of.
/// The encoder panics where the text would not fit in memory, which the bound rules out.
#[verifier::external_body]
pub(crate) fn base64_url_safe(bytes: &Vec<u8>) -> (r: String)
    requires
        4 * ((bytes@.len() + 2) / 3) <= isize::MAX,
    ensures
        r@ == base64_text(bytes@),
        r@.len() == 4 * ((bytes@.len() + 2) / 3),
        forall|i: int| 0 <= i < r@.len() ==> is_base64_char(#[trigger] r@[i]),
{
    base64::Engine::encode(&base64::prelude::BASE64_URL_SAFE, bytes)
}

} // verus!
