//! What `reqwest` accepts as parts of a request, and how parts of a response read.

use crate::text;
use vstd::prelude::*;
use vstd::string::*;

verus! {

/// Whether a character may stand in a method or in the name of a header.
pub open spec fn token_char(c: char) -> bool {
    match c {
        '!' | '#' | '$' | '%' | '&' | '\'' | '*' | '+' | '-' | '.' | '^' | '_' | '`' | '|' | '~' => true,
        _ => ('0' <= c <= '9') || ('A' <= c <= 'Z') || ('a' <= c <= 'z'),
    }
}

/// Whether a text is not empty and made of such characters alone.
pub open spec fn is_token(s: Seq<char>) -> bool {
    s.len() > 0 && forall|i: int| 0 <= i < s.len() ==> #[trigger] token_char(s[i])
}

/// Whether a text is the name of a header.
pub open spec fn is_header_name(s: Seq<char>) -> bool {
    is_token(s) && s.len() <= 65535
}

/// Whether a text is the value of a header: without control characters other than the tab.
pub open spec fn is_header_value(s: Seq<char>) -> bool {
    forall|i: int| 0 <= i < s.len() ==> (#[trigger] s[i] == '\t' || (s[i] >= ' ' && s[i] != '\u{7f}'))
}

/// Whether bytes are printable ASCII characters and tabs.
pub open spec fn visible(bytes: Seq<u8>) -> bool {
    forall|i: int| 0 <= i < bytes.len() ==> (#[trigger] bytes[i] == 9 || 32 <= bytes[i] < 127)
}

/// ASCII bytes as characters.
pub open spec fn ascii_text(bytes: Seq<u8>) -> Seq<char> {
    bytes.map_values(|b: u8| b as char)
}

/// `reqwest::Method::from_bytes`: the method of that text, which must be a token; else the message
/// of its error.
#[verifier::external_body]
pub(crate) fn method_of(text: &str) -> (r: Result<String, String>)
    ensures
        match r {
            Ok(m) => is_token(text@) && m@ == text@,
            Err(e) => !is_token(text@) && e@ == "invalid HTTP method"@,
        },
{
    reqwest::Method::from_bytes(text.as_bytes())
        .map(|m| m.as_str().to_string())
        .map_err(|e| e.to_string())
}

/// `reqwest::header::HeaderName::from_bytes`: the name in lower case, which must be a token of no
/// more than 65535 characters.
#[verifier::external_body]
pub(crate) fn header_name_of(text: &str) -> (r: Option<String>)
    ensures
        match r {
            Some(name) => is_header_name(text@) && name@ == text::lower_letters(text@),
            None => !is_header_name(text@),
        },
{
    reqwest::header::HeaderName::from_bytes(text.as_bytes()).ok().map(|n| n.as_str().to_string())
}

/// `reqwest::header::HeaderValue::from_str`: whether the text has no control characters other than
/// the tab.
#[verifier::external_body]
pub(crate) fn header_value_fits(text: &str) -> (r: bool)
    ensures
        r == is_header_value(text@),
{
    reqwest::header::HeaderValue::from_str(text).is_ok()
}

/// `reqwest::header::HeaderValue::from_bytes` and its `to_str`: the text of a header's value, where
/// it is printable ASCII and tabs alone.
#[verifier::external_body]
pub(crate) fn header_text(value: &Vec<u8>) -> (r: Option<String>)
    ensures
        match r {
            Some(s) => visible(value@) && s@ == ascii_text(value@),
            None => !visible(value@),
        },
{
    let value: reqwest::header::HeaderValue = reqwest::header::HeaderValue::from_bytes(value).ok()?;
    value.to_str().ok().map(|s| s.to_string())
}

/// A status code with its reason, such as `200 OK`.
pub uninterp spec fn status_shown(code: u16) -> Seq<char>;

/// The `Display` of a `reqwest::StatusCode`. The result is named [`status_shown`]; it is the number,
/// a space and the reason.
#[verifier::external_body]
pub(crate) fn status_text(code: u16) -> (r: String)
    requires
        100 <= code < 1000,
    ensures
        r@ == status_shown(code),
        (text::decimal(code as nat) + " "@).is_prefix_of(r@),
{
    reqwest::StatusCode::from_u16(code).unwrap().to_string()
}

/// A length of time in seconds and nanoseconds, such as `1.5s`.
pub uninterp spec fn duration_shown(secs: u64, nanos: u32) -> Seq<char>;

/// The `Debug` text of a `std::time::Duration`. The result is named [`duration_shown`].
#[verifier::external_body]
pub(crate) fn duration_text(secs: u64, nanos: u32) -> (r: String)
    requires
        nanos < 1_000_000_000,
    ensures
        r@ == duration_shown(secs, nanos),
{
    format!("{:?}", std::time::Duration::new(secs, nanos))
}

/// Bytes as text, with a replacement character for what is no UTF-8.
pub uninterp spec fn utf8_lossy(bytes: Seq<u8>) -> Seq<char>;

/// `String::from_utf8_lossy`. The result is named [`utf8_lossy`]; of valid UTF-8 it is the text.
#[verifier::external_body]
pub(crate) fn lossy_text(bytes: &Vec<u8>) -> (r: String)
    ensures
        r@ == utf8_lossy(bytes@),
        vstd::utf8::valid_utf8(bytes@) ==> r@ == vstd::utf8::decode_utf8(bytes@),
{
    String::from_utf8_lossy(bytes).into_owned()
}

} // verus!
