//! The preview of a request.

use crate::formats;
use crate::grid_file::sorted_or_none;
use crate::paths;
use crate::paths::file_name_or;
use crate::request;
use crate::request::{body_or, RequestFile};
use crate::rows;
use crate::text;
use crate::text::{concat2, to_uppercase};
use crate::tui::TuiApp;
use vstd::prelude::*;
use vstd::string::*;

verus! {

/// What is shown of a request: its head, its query parameters and headers as rows, its body and
/// its file.
pub struct PreviewData {
    pub top: String,
    pub query_rows: Vec<(String, String)>,
    pub header_rows: Vec<(String, String)>,
    pub body_text: String,
    pub raw_file: String,
}

/// The model of a [`PreviewData`].
pub ghost struct Preview {
    pub top: Seq<char>,
    pub query_rows: Seq<rows::Entry>,
    pub header_rows: Seq<rows::Entry>,
    pub body_text: Seq<char>,
    pub raw_file: Seq<char>,
}

impl View for PreviewData {
    type V = Preview;

    open spec fn view(&self) -> Preview {
        Preview {
            top: self.top@,
            query_rows: rows::entries(self.query_rows@),
            header_rows: rows::entries(self.header_rows@),
            body_text: self.body_text@,
            raw_file: self.raw_file@,
        }
    }
}

/// A preview of a line of text and a file.
pub open spec fn bare(top: Seq<char>, raw_file: Seq<char>) -> Preview {
    Preview {
        top,
        query_rows: Seq::empty(),
        header_rows: Seq::empty(),
        body_text: Seq::empty(),
        raw_file,
    }
}

/// The head of a request, given its method in upper case.
pub open spec fn head(name: Option<Seq<char>>, method: Seq<char>, url: Seq<char>) -> Seq<char> {
    "* Name: "@ + (match name {
        Some(n) => n,
        None => "(unnamed)"@,
    }) + "\n* Method: "@ + method + "\n* URL: "@ + url
}

/// The head of a request.
pub open spec fn head_of(req: request::RequestModel) -> Seq<char> {
    head(req.name, text::upper(req.method), req.url)
}

/// The preview of a request, given its head, its body as it is shown, and its file.
pub open spec fn preview_of(
    req: request::RequestModel,
    top: Seq<char>,
    body: Seq<char>,
    raw_file: Seq<char>,
) -> Preview {
    Preview {
        top,
        query_rows: rows::sorted(request::entries_or_none(req.query)),
        header_rows: rows::sorted(request::entries_or_none(req.headers)),
        body_text: body,
        raw_file,
    }
}

/// The preview of a buffer, given its text with all variables filled in, or why it cannot be read,
/// and the request that the text is, or why it is none.
pub open spec fn selected_preview(
    path: Option<String>,
    file: Result<String, String>,
    parsed: Result<RequestFile, String>,
) -> Preview {
    match path {
        None => bare("No request selected."@, Seq::empty()),
        Some(p) => match file {
            Err(e) => bare(
                "[Failed to read "@ + paths::base_name_or(p@, "request"@) + ": "@ + e@ + "]"@,
                Seq::empty(),
            ),
            Ok(t) => match parsed {
                Err(e) => bare("[Could not parse as a request: "@ + e@ + "]"@, t@),
                Ok(req) => preview_of(
                    req@,
                    head_of(req@),
                    request::shown_body_or(req@.body, "  None"@),
                    t@,
                ),
            },
        },
    }
}

fn bare_preview(top: String, raw_file: String) -> (r: PreviewData)
    ensures
        r@ == bare(top@, raw_file@),
{
    let r: PreviewData = PreviewData {
        top,
        query_rows: Vec::new(),
        header_rows: Vec::new(),
        body_text: String::new(),
        raw_file,
    };
    assert(rows::entries(r.query_rows@) =~= Seq::empty());
    assert(rows::entries(r.header_rows@) =~= Seq::empty());
    assert(r.body_text@ =~= Seq::empty());
    r
}

/// The head of a request, given its method in upper case.
pub fn head_text(name: &Option<String>, method: &str, url: &str) -> (r: String)
    ensures
        r@ == head(formats::opt_text(*name), method@, url@),
{
    let mut top: String = match name {
        Some(n) => concat2("* Name: ", n.as_str()),
        None => concat2("* Name: ", "(unnamed)"),
    };
    top.append("\n* Method: ");
    top.append(method);
    top.append("\n* URL: ");
    top.append(url);
    top
}

/// The head of a request.
pub fn request_head(req: &RequestFile) -> (r: String)
    ensures
        r@ == head_of(req@),
{
    head_text(&req.name, to_uppercase(req.method.as_str()).as_str(), req.url.as_str())
}

/// The preview of a request, given its head and its body as it is shown.
pub fn preview_request(req: &RequestFile, top: String, body: String, raw_file: String) -> (r:
    PreviewData)
    ensures
        r@ == preview_of(req@, top@, body@, raw_file@),
{
    PreviewData {
        top,
        query_rows: sorted_or_none(&req.query),
        header_rows: sorted_or_none(&req.headers),
        body_text: body,
        raw_file,
    }
}

impl TuiApp {
    /// The preview of the current buffer, given its text with all variables filled in, or why it
    /// cannot be read, and the request that the text is, or why it is none.
    pub fn compute_selected_preview(
        &self,
        file: Result<String, String>,
        parsed: &Result<RequestFile, String>,
    ) -> (r: PreviewData)
        ensures
            r@ == selected_preview(self.current(), file, *parsed),
    {
        match self.current_buffer() {
            None => bare_preview("No request selected.".to_string(), empty_text()),
            Some(path) => match file {
                Err(e) => {
                    let mut top: String = concat2(
                        "[Failed to read ",
                        file_name_or(path.as_str(), "request").as_str(),
                    );
                    top.append(": ");
                    top.append(e.as_str());
                    top.append("]");
                    bare_preview(top, empty_text())
                },
                Ok(text) => match parsed {
                    Err(e) => {
                        let mut top: String = concat2(
                            "[Could not parse as a request: ",
                            e.as_str(),
                        );
                        top.append("]");
                        bare_preview(top, text)
                    },
                    Ok(req) => preview_request(
                        req,
                        request_head(req),
                        body_or(&req.body, "  None"),
                        text,
                    ),
                },
            },
        }
    }
}

fn empty_text() -> (r: String)
    ensures
        r@ == Seq::<char>::empty(),
{
    String::new()
}

/// Query parameters and headers are shown alike whatever order they come in.
pub proof fn law_preview_ignores_order(
    a: request::RequestModel,
    b: request::RequestModel,
    top: Seq<char>,
    body: Seq<char>,
    raw_file: Seq<char>,
)
    requires
        rows::distinct_keys(request::entries_or_none(a.query)),
        rows::distinct_keys(request::entries_or_none(a.headers)),
        request::entries_or_none(a.query).to_multiset() == request::entries_or_none(
            b.query,
        ).to_multiset(),
        request::entries_or_none(a.headers).to_multiset() == request::entries_or_none(
            b.headers,
        ).to_multiset(),
    ensures
        preview_of(a, top, body, raw_file) == preview_of(b, top, body, raw_file),
{
    rows::law_sorted_ignores_order(
        request::entries_or_none(a.query),
        request::entries_or_none(b.query),
    );
    rows::law_sorted_ignores_order(
        request::entries_or_none(a.headers),
        request::entries_or_none(b.headers),
    );
}

} // verus!
