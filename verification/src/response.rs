//! Responses as they come in.

use crate::http;
use crate::http::header_text;
use crate::rows;
use crate::text::same_text;
use vstd::prelude::*;
use vstd::string::*;

verus! {

/// A response: its status code, how long it took, its headers with their values in bytes, and its
/// body.
pub struct Response {
    pub status: u16,
    pub secs: u64,
    pub nanos: u32,
    pub headers: Vec<(String, Vec<u8>)>,
    pub body: Vec<u8>,
}

impl Response {
    /// Whether the status is one of three digits, and the nanoseconds are less than a second.
    pub open spec fn wf(&self) -> bool {
        100 <= self.status < 1000 && self.nanos < 1_000_000_000
    }

    /// The status code with its reason.
    pub open spec fn status_shown(&self) -> Seq<char> {
        http::status_shown(self.status)
    }

    /// How long it took.
    pub open spec fn duration_shown(&self) -> Seq<char> {
        http::duration_shown(self.secs, self.nanos)
    }

    /// The body as text.
    pub open spec fn body_text(&self) -> Seq<char> {
        http::utf8_lossy(self.body@)
    }
}

/// The value of a header as it is shown.
pub open spec fn value_shown(value: Seq<u8>) -> Seq<char> {
    if http::visible(value) {
        http::ascii_text(value)
    } else {
        "<binary>"@
    }
}

/// Headers as they are shown.
pub open spec fn headers_shown(headers: Seq<(String, Vec<u8>)>) -> Seq<rows::Entry> {
    headers.map_values(|h: (String, Vec<u8>)| (h.0@, value_shown(h.1@)))
}

/// The content type: the first header of that name, where it is readable.
pub open spec fn content_type(headers: Seq<(String, Vec<u8>)>) -> Seq<char>
    decreases headers.len(),
{
    if headers.len() == 0 {
        Seq::empty()
    } else if headers[0].0@ == "content-type"@ {
        if http::visible(headers[0].1@) {
            http::ascii_text(headers[0].1@)
        } else {
            Seq::empty()
        }
    } else {
        content_type(headers.skip(1))
    }
}

/// Headers as they are shown: a value that is no printable ASCII as `<binary>`.
pub fn show_headers(headers: &Vec<(String, Vec<u8>)>) -> (r: Vec<(String, String)>)
    ensures
        rows::entries(r@) == headers_shown(headers@),
{
    let mut out: Vec<(String, String)> = Vec::new();
    for i in 0..headers.len()
        invariant
            rows::entries(out@) == headers_shown(headers@.take(i as int)),
    {
        let ghost done = out@;
        let value: String = match header_text(&headers[i].1) {
            Some(s) => s,
            None => "<binary>".to_string(),
        };
        let ghost shown = value@;
        out.push((headers[i].0.clone(), value));
        assert(rows::entries(out@) =~= rows::entries(done).push((headers@[i as int].0@, shown)));
        assert(headers@.take(i + 1) =~= headers@.take(i as int).push(headers@[i as int]));
        assert(rows::entries(out@) =~= headers_shown(headers@.take(i + 1)));
    }
    assert(headers@.take(headers@.len() as int) == headers@);
    out
}

/// The content type of a response; empty where it has none that is readable.
pub fn content_type_of(headers: &Vec<(String, Vec<u8>)>) -> (r: String)
    ensures
        r@ == content_type(headers@),
{
    assert(headers@.skip(0) == headers@);
    for i in 0..headers.len()
        invariant
            content_type(headers@) == content_type(headers@.skip(i as int)),
    {
        let ghost rest = headers@.skip(i as int);
        assert(rest[0] == headers@[i as int]);
        assert(rest.skip(1) == headers@.skip(i + 1));
        if same_text(headers[i].0.as_str(), "content-type") {
            return match header_text(&headers[i].1) {
                Some(s) => s,
                None => String::new(),
            };
        }
    }
    String::new()
}

} // verus!
