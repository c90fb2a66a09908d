//! Running a request from the command line: what is sent, and what is printed of the response.

use crate::env::EnvManager;
use crate::exports;
use crate::exports::{export_steps, ExportStep};
use crate::formats;
use crate::formats::{json_read_from_yaml, pretty_json};
use crate::http;
use crate::http::{
    duration_text, header_name_of, header_value_fits, lossy_text, method_of, status_text,
};
use crate::request;
use crate::request::{RequestBody, RequestFile};
use crate::response;
use crate::response::{content_type_of, show_headers, Response};
use crate::rows;
use crate::rows::set_entry;
use crate::styled;
use crate::styled::{add_line, add_piece, no_pieces, one_piece, three_pieces, two_pieces, Piece, Tone};
use crate::text;
use crate::text::{concat2, contains, to_uppercase};
use vstd::prelude::*;
use vstd::string::*;

verus! {

// ---------------------------------------------------------------------------------------------
// What is sent
// ---------------------------------------------------------------------------------------------

/// The body of a request that is sent.
pub enum OutgoingBody {
    /// A text, as it is.
    Raw(String),
    /// A JSON text, with its content type.
    Json(String),
}

/// The model of an [`OutgoingBody`].
pub ghost enum SentBody {
    Raw(Seq<char>),
    Json(Seq<char>),
}

impl View for OutgoingBody {
    type V = SentBody;

    open spec fn view(&self) -> SentBody {
        match self {
            OutgoingBody::Raw(s) => SentBody::Raw(s@),
            OutgoingBody::Json(s) => SentBody::Json(s@),
        }
    }
}

/// A request that is sent.
pub struct Outgoing {
    pub method: String,
    pub url: String,
    pub query: Option<Vec<(String, String)>>,
    pub headers: Vec<(String, String)>,
    pub body: Option<OutgoingBody>,
}

/// The model of an [`Outgoing`].
pub ghost struct Sent {
    pub method: Seq<char>,
    pub url: Seq<char>,
    pub query: Option<Seq<rows::Entry>>,
    pub headers: Seq<rows::Entry>,
    pub body: Option<SentBody>,
}

/// The model of an optional body.
pub open spec fn opt_sent(o: Option<OutgoingBody>) -> Option<SentBody> {
    match o {
        Some(b) => Some(b@),
        None => None,
    }
}

impl View for Outgoing {
    type V = Sent;

    open spec fn view(&self) -> Sent {
        Sent {
            method: self.method@,
            url: self.url@,
            query: request::opt_entries(self.query),
            headers: rows::entries(self.headers@),
            body: opt_sent(self.body),
        }
    }
}

/// Why a request cannot be sent.
pub enum RunError {
    InvalidMethod(String),
    InvalidHeaderName(String),
    InvalidHeaderValue(String),
    InvalidBody,
}

/// The model of a [`RunError`].
pub ghost enum RunFault {
    InvalidMethod(Seq<char>),
    InvalidHeaderName(Seq<char>),
    InvalidHeaderValue(Seq<char>),
    InvalidBody,
}

impl View for RunError {
    type V = RunFault;

    open spec fn view(&self) -> RunFault {
        match self {
            RunError::InvalidMethod(s) => RunFault::InvalidMethod(s@),
            RunError::InvalidHeaderName(s) => RunFault::InvalidHeaderName(s@),
            RunError::InvalidHeaderValue(s) => RunFault::InvalidHeaderValue(s@),
            RunError::InvalidBody => RunFault::InvalidBody,
        }
    }
}

/// What is said of a fault.
pub open spec fn fault_text(fault: RunFault) -> Seq<char> {
    match fault {
        RunFault::InvalidMethod(s) => "Invalid HTTP method: "@ + s,
        RunFault::InvalidHeaderName(s) => "Invalid header name: "@ + s,
        RunFault::InvalidHeaderValue(s) => "Invalid header value: "@ + s,
        RunFault::InvalidBody => "Failed to convert request body to JSON"@,
    }
}

impl RunError {
    /// What is said of the error.
    pub fn message(&self) -> (r: String)
        ensures
            r@ == fault_text(self@),
    {
        match self {
            RunError::InvalidMethod(s) => concat2("Invalid HTTP method: ", s.as_str()),
            RunError::InvalidHeaderName(s) => concat2("Invalid header name: ", s.as_str()),
            RunError::InvalidHeaderValue(s) => concat2("Invalid header value: ", s.as_str()),
            RunError::InvalidBody => "Failed to convert request body to JSON".to_string(),
        }
    }
}

/// The fault of one header, if there is one.
pub open spec fn header_fault(header: rows::Entry) -> Option<RunFault> {
    if !http::is_header_name(header.0) {
        Some(RunFault::InvalidHeaderName(header.0))
    } else if !http::is_header_value(header.1) {
        Some(RunFault::InvalidHeaderValue(header.1))
    } else {
        None
    }
}

/// The headers that are sent: each with its name in lower case, and a later one in place of an
/// earlier one of the same name; or the fault of the first that cannot be sent.
pub open spec fn sent_headers(headers: Seq<rows::Entry>) -> Result<Seq<rows::Entry>, RunFault>
    decreases headers.len(),
{
    if headers.len() == 0 {
        Ok(headers)
    } else {
        match sent_headers(headers.drop_last()) {
            Err(e) => Err(e),
            Ok(done) => match header_fault(headers.last()) {
                Some(e) => Err(e),
                None => Ok(
                    rows::with_entry(
                        done,
                        text::lower_letters(headers.last().0),
                        headers.last().1,
                    ),
                ),
            },
        }
    }
}

/// The body that is sent, given the JSON that a YAML body reads as.
pub open spec fn sent_body(
    body: Option<request::BodyModel>,
    json: Option<Seq<char>>,
) -> Result<Option<SentBody>, RunFault> {
    match body {
        None => Ok(None),
        Some(request::BodyModel::Text(s)) => Ok(Some(SentBody::Raw(s))),
        Some(request::BodyModel::Yaml(_)) => match json {
            Some(j) => Ok(Some(SentBody::Json(j))),
            None => Err(RunFault::InvalidBody),
        },
    }
}

/// The JSON that a YAML body reads as; none of any other.
pub open spec fn body_json(body: Option<request::BodyModel>) -> Option<Seq<char>> {
    match body {
        Some(request::BodyModel::Yaml(t)) => formats::yaml_read_as_json(t),
        _ => None,
    }
}

/// What is sent for a request, given its method in upper case and the JSON of its body; or the
/// first fault: of the method, of a header, of the body.
pub open spec fn sent(
    req: request::RequestModel,
    method: Seq<char>,
    json: Option<Seq<char>>,
) -> Result<Sent, RunFault> {
    if !http::is_token(method) {
        Err(RunFault::InvalidMethod(req.method))
    } else {
        match sent_headers(request::entries_or_none(req.headers)) {
            Err(e) => Err(e),
            Ok(headers) => match sent_body(req.body, json) {
                Err(e) => Err(e),
                Ok(body) => Ok(Sent { method, url: req.url, query: req.query, headers, body }),
            },
        }
    }
}

/// The model of a result.
pub open spec fn sent_view(r: Result<Outgoing, RunError>) -> Result<Sent, RunFault> {
    match r {
        Ok(o) => Ok(o@),
        Err(e) => Err(e@),
    }
}

fn headers_to_send(headers: &Vec<(String, String)>) -> (r: Result<Vec<(String, String)>, RunError>)
    ensures
        match r {
            Ok(out) => sent_headers(rows::entries(headers@)) == Ok::<Seq<rows::Entry>, RunFault>(
                rows::entries(out@),
            ),
            Err(e) => sent_headers(rows::entries(headers@)) == Err::<Seq<rows::Entry>, RunFault>(
                e@,
            ),
        },
{
    let ghost all = rows::entries(headers@);
    let mut out: Vec<(String, String)> = Vec::new();
    assert(rows::entries(out@) =~= all.take(0));
    for i in 0..headers.len()
        invariant
            all == rows::entries(headers@),
            sent_headers(all.take(i as int)) == Ok::<Seq<rows::Entry>, RunFault>(
                rows::entries(out@),
            ),
    {
        let ghost part = all.take(i + 1);
        assert(part.drop_last() == all.take(i as int));
        assert(part.last() == all[i as int]);
        let key: &str = headers[i].0.as_str();
        let val: &str = headers[i].1.as_str();
        match header_name_of(key) {
            None => {
                let e: RunError = RunError::InvalidHeaderName(key.to_string());
                proof {
                    lemma_fault_stays(all, i + 1, e@);
                }
                return Err(e);
            },
            Some(name) => {
                if !header_value_fits(val) {
                    let e: RunError = RunError::InvalidHeaderValue(val.to_string());
                    proof {
                        lemma_fault_stays(all, i + 1, e@);
                    }
                    return Err(e);
                }
                set_entry(&mut out, name.as_str(), val);
            },
        }
    }
    assert(all.take(headers@.len() as int) == all);
    Ok(out)
}

proof fn lemma_fault_stays(headers: Seq<rows::Entry>, k: int, e: RunFault)
    requires
        0 <= k <= headers.len(),
        sent_headers(headers.take(k)) == Err::<Seq<rows::Entry>, RunFault>(e),
    ensures
        sent_headers(headers) == Err::<Seq<rows::Entry>, RunFault>(e),
    decreases headers.len() - k,
{
    if k == headers.len() {
        assert(headers.take(k) == headers);
    } else {
        assert(headers.take(k + 1).drop_last() == headers.take(k));
        lemma_fault_stays(headers, k + 1, e);
    }
}

/// No two headers of one name are sent, and each has the value of the last header whose name is
/// the same in lower case.
pub proof fn law_one_header_per_name(headers: Seq<rows::Entry>, name: Seq<char>)
    ensures
        sent_headers(headers) matches Ok(out) ==> rows::distinct_keys(out) && rows::value_of(
            out,
            name,
        ) == rows::value_of(lowered(headers), name),
    decreases headers.len(),
{
    if headers.len() == 0 {
        assert(lowered(headers) =~= headers);
    } else {
        let rest = headers.drop_last();
        let last = headers.last();
        law_one_header_per_name(rest, name);
        assert(lowered(headers).drop_last() =~= lowered(rest));
        if let Ok(done) = sent_headers(rest) {
            rows::law_with_entry(done, text::lower_letters(last.0), last.1, name);
        }
    }
}

/// Headers with their names in lower case.
pub open spec fn lowered(headers: Seq<rows::Entry>) -> Seq<rows::Entry> {
    headers.map_values(|h: rows::Entry| (text::lower_letters(h.0), h.1))
}

// ---------------------------------------------------------------------------------------------
// What is printed
// ---------------------------------------------------------------------------------------------

/// The tone of a status: green for success, blue for a redirection, red for anything else.
pub open spec fn status_tone(status: u16) -> Tone {
    if 200 <= status < 300 {
        Tone::Green
    } else if 300 <= status < 400 {
        Tone::Blue
    } else {
        Tone::Red
    }
}

/// The lines of headers.
pub open spec fn header_lines(headers: Seq<rows::Entry>) -> Seq<styled::LineModel> {
    headers.map_values(|h: rows::Entry| seq![(Tone::Cyan, h.0), (Tone::Plain, ": "@ + h.1)])
}

/// The lines of a response that stand above its body.
pub open spec fn head_lines(
    status: u16,
    status_text: Seq<char>,
    duration: Seq<char>,
    headers: Seq<rows::Entry>,
) -> Seq<styled::LineModel> {
    seq![
        seq![
            (Tone::Plain, "\n"@),
            (Tone::Bold, "Status"@),
            (Tone::Plain, " - "@),
            (status_tone(status), status_text),
            (Tone::Plain, " - "@ + duration),
        ],
        seq![(Tone::BrightBlack, "--- Headers ---"@)],
    ] + header_lines(headers) + seq![
        seq![(Tone::Plain, "\n"@), (Tone::BrightBlack, "--- Body ---"@)],
    ]
}

/// The JSON of a response with indentation, where it says that it is JSON and is.
pub open spec fn json_of(
    content_type: Seq<char>,
    indented: Option<Seq<char>>,
) -> Option<Seq<char>> {
    if text::occurs(content_type, "json"@) {
        indented
    } else {
        None
    }
}

/// The body as it is printed.
pub open spec fn printed_body(json: Option<Seq<char>>, body: Seq<char>) -> Seq<char> {
    match json {
        Some(p) => p,
        None => body,
    }
}

/// What is to be done for the exports of a response, given its JSON.
pub open spec fn printed_exports(
    json: Option<Seq<char>>,
    exports: Option<Seq<rows::Entry>>,
    body: Seq<char>,
) -> Seq<exports::ExportAct> {
    match (json, exports) {
        (Some(_), Some(list)) => exports::export_acts(list, body),
        _ => Seq::empty(),
    }
}

/// The line of an export once it is done.
pub open spec fn export_line(act: exports::ExportAct) -> styled::LineModel {
    match act {
        exports::ExportAct::Store { name, value } => seq![
            (Tone::MagentaBold, "State:"@),
            (Tone::Plain, " Exported "@),
            (Tone::Yellow, name),
            (Tone::Plain, " = "@),
            (Tone::Cyan, value),
        ],
        exports::ExportAct::Missing { name, path } => seq![
            (Tone::YellowBold, "Warning:"@),
            (
                Tone::Plain,
                " Failed to export "@ + name + ": path '"@ + path + "' not found in response"@,
            ),
        ],
        exports::ExportAct::Skipped => Seq::empty(),
    }
}

fn tone_of_status(status: u16) -> (r: Tone)
    ensures
        r == status_tone(status),
{
    if 200 <= status && status < 300 {
        Tone::Green
    } else if 300 <= status && status < 400 {
        Tone::Blue
    } else {
        Tone::Red
    }
}

/// The lines of a response that stand above its body, given its parts as text.
pub fn lines_of_head(
    status: u16,
    status_text: &str,
    duration: &str,
    headers: &Vec<(String, String)>,
) -> (r: Vec<Vec<Piece>>)
    ensures
        styled::lines_of(r@) == head_lines(
            status,
            status_text@,
            duration@,
            rows::entries(headers@),
        ),
{
    let ghost list = rows::entries(headers@);
    let mut lines: Vec<Vec<Piece>> = Vec::new();
    assert(styled::lines_of(lines@) =~= Seq::empty());
    let mut first: Vec<Piece> = three_pieces(Tone::Plain, "\n", Tone::Bold, "Status", Tone::Plain, " - ");
    add_piece(&mut first, tone_of_status(status), status_text);
    add_piece(&mut first, Tone::Plain, concat2(" - ", duration).as_str());
    let ghost head = seq![
        seq![
            (Tone::Plain, "\n"@),
            (Tone::Bold, "Status"@),
            (Tone::Plain, " - "@),
            (status_tone(status), status_text@),
            (Tone::Plain, " - "@ + duration@),
        ],
        seq![(Tone::BrightBlack, "--- Headers ---"@)],
    ];
    assert(styled::pieces_of(first@) =~= head[0]);
    add_line(&mut lines, first);
    add_line(&mut lines, one_piece(Tone::BrightBlack, "--- Headers ---"));
    assert(styled::lines_of(lines@) =~= head + header_lines(list.take(0)));
    for i in 0..headers.len()
        invariant
            list == rows::entries(headers@),
            styled::lines_of(lines@) == head + header_lines(list.take(i as int)),
    {
        let ghost done = styled::lines_of(lines@);
        add_line(
            &mut lines,
            two_pieces(
                Tone::Cyan,
                headers[i].0.as_str(),
                Tone::Plain,
                concat2(": ", headers[i].1.as_str()).as_str(),
            ),
        );
        assert(list.take(i + 1) =~= list.take(i as int).push(list[i as int]));
        assert(styled::lines_of(lines@) =~= head + header_lines(list.take(i + 1)));
    }
    assert(list.take(headers@.len() as int) == list);
    add_line(&mut lines, two_pieces(Tone::Plain, "\n", Tone::BrightBlack, "--- Body ---"));
    assert(styled::lines_of(lines@) =~= head_lines(status, status_text@, duration@, list));
    lines
}

/// The JSON of a response with indentation, given its content type and what its body reads as.
pub fn json_to_print(content_type: &str, indented: Option<String>) -> (r: Option<String>)
    ensures
        formats::opt_text(r) == json_of(content_type@, formats::opt_text(indented)),
        text::occurs(content_type@, "json"@) ==> r == indented,
        !text::occurs(content_type@, "json"@) ==> r is None,
{
    if contains(content_type, "json") {
        indented
    } else {
        None
    }
}

/// The line of an export once it is done; an export that was skipped has none.
pub fn line_of_export(step: &ExportStep) -> (r: Vec<Piece>)
    ensures
        styled::pieces_of(r@) == export_line(step@),
{
    match step {
        ExportStep::Store { name, value } => {
            let mut line: Vec<Piece> = three_pieces(
                Tone::MagentaBold,
                "State:",
                Tone::Plain,
                " Exported ",
                Tone::Yellow,
                name.as_str(),
            );
            add_piece(&mut line, Tone::Plain, " = ");
            add_piece(&mut line, Tone::Cyan, value.as_str());
            assert(styled::pieces_of(line@) =~= export_line(step@));
            line
        },
        ExportStep::Missing { name, path } => {
            let mut note: String = concat2(" Failed to export ", name.as_str());
            note.append(": path '");
            note.append(path.as_str());
            note.append("' not found in response");
            two_pieces(Tone::YellowBold, "Warning:", Tone::Plain, note.as_str())
        },
        ExportStep::Skipped => no_pieces(),
    }
}

/// What is printed of an error that ends the program.
pub fn line_of_error(message: &str) -> (r: Vec<Piece>)
    ensures
        styled::pieces_of(r@) == seq![(Tone::RedBold, "Error:"@), (Tone::Plain, " "@ + message@)],
{
    two_pieces(Tone::RedBold, "Error:", Tone::Plain, concat2(" ", message).as_str())
}

/// The body of a response as it is printed, and what is to be done for its exports.
pub struct ResponseReport {
    pub body: String,
    pub exports: Vec<ExportStep>,
}

/// Runs requests with the variables of its environments.
pub struct RequestRunner {
    pub env_manager: EnvManager,
}

impl RequestRunner {
    /// A runner for these environments.
    pub fn new(env_manager: EnvManager) -> (r: Self)
        ensures
            r.env_manager == env_manager,
    {
        RequestRunner { env_manager }
    }

    /// What is printed before a request is sent.
    pub fn announce(&self, env_profile: &str) -> (r: Vec<Piece>)
        ensures
            styled::pieces_of(r@) == seq![
                (Tone::GreenBold, "Executing"@),
                (Tone::Plain, " using environment: "@),
                (Tone::Cyan, env_profile@),
            ],
    {
        three_pieces(
            Tone::GreenBold,
            "Executing",
            Tone::Plain,
            " using environment: ",
            Tone::Cyan,
            env_profile,
        )
    }

    /// What is sent for a request, given its method in upper case and the JSON that a YAML body
    /// reads as.
    pub fn plan(&self, req_file: RequestFile, method: String, json: Option<String>) -> (r: Result<
        Outgoing,
        RunError,
    >)
        ensures
            sent_view(r) == sent(req_file@, method@, formats::opt_text(json)),
            r matches Ok(o) ==> {
                &&& request::opt_entries(o.query) == req_file@.query
                &&& o.url@ == req_file@.url
                &&& o.method@ == method@
                &&& opt_sent(o.body) == match req_file@.body {
                    None => None,
                    Some(request::BodyModel::Text(s)) => Some(SentBody::Raw(s)),
                    Some(request::BodyModel::Yaml(_)) => match json {
                        Some(j) => Some(SentBody::Json(j@)),
                        None => None,
                    },
                }
            },
    {
        let method: String = match method_of(method.as_str()) {
            Ok(m) => m,
            Err(_) => {
                return Err(RunError::InvalidMethod(req_file.method));
            },
        };
        let headers: Vec<(String, String)> = match &req_file.headers {
            Some(list) => match headers_to_send(list) {
                Ok(out) => out,
                Err(e) => {
                    return Err(e);
                },
            },
            None => {
                let none: Vec<(String, String)> = Vec::new();
                assert(rows::entries(none@) =~= Seq::empty());
                none
            },
        };
        let body: Option<OutgoingBody> = match req_file.body {
            None => None,
            Some(RequestBody::Text(s)) => Some(OutgoingBody::Raw(s)),
            Some(RequestBody::Yaml(_)) => match json {
                Some(j) => Some(OutgoingBody::Json(j)),
                None => {
                    return Err(RunError::InvalidBody);
                },
            },
        };
        Ok(Outgoing { method, url: req_file.url, query: req_file.query, headers, body })
    }

    /// What is sent for a request.
    pub fn run_request(&self, req_file: RequestFile) -> (r: Result<Outgoing, RunError>)
        ensures
            sent_view(r) == sent(
                req_file@,
                text::upper(req_file@.method),
                body_json(req_file@.body),
            ),
            r matches Ok(o) ==> {
                &&& request::opt_entries(o.query) == req_file@.query
                &&& o.url@ == req_file@.url
                &&& o.method@ == text::upper(req_file@.method)
                &&& opt_sent(o.body) == match req_file@.body {
                    None => None,
                    Some(request::BodyModel::Text(s)) => Some(SentBody::Raw(s)),
                    Some(request::BodyModel::Yaml(t)) => match formats::yaml_read_as_json(t) {
                        Some(j) => Some(SentBody::Json(j)),
                        None => None,
                    },
                }
            },
    {
        let method: String = to_uppercase(req_file.method.as_str());
        let json: Option<String> = match &req_file.body {
            Some(RequestBody::Yaml(t)) => json_read_from_yaml(t.as_str()),
            _ => None,
        };
        self.plan(req_file, method, json)
    }

    /// What is printed of a response before its body.
    pub fn print_head(&self, res: &Response) -> (r: Vec<Vec<Piece>>)
        requires
            res.wf(),
        ensures
            styled::lines_of(r@) == head_lines(
                res.status,
                res.status_shown(),
                res.duration_shown(),
                response::headers_shown(res.headers@),
            ),
    {
        lines_of_head(
            res.status,
            status_text(res.status).as_str(),
            duration_text(res.secs, res.nanos).as_str(),
            &show_headers(&res.headers),
        )
    }

    /// What is printed of the body of a response, and what is to be done for its exports.
    pub fn print_response(&self, res: &Response, exports: &Option<Vec<(String, String)>>) -> (r:
        ResponseReport)
        ensures
            ({
                let body = res.body_text();
                let json = json_of(
                    response::content_type(res.headers@),
                    formats::json_indented(body),
                );
                &&& r.body@ == printed_body(json, body)
                &&& exports::acts(r.exports@) == printed_exports(
                    json,
                    request::opt_entries(*exports),
                    body,
                )
            }),
            text::occurs(response::content_type(res.headers@), "json"@) ==> (formats::json_indented(
                res.body_text(),
            ) matches Some(p) ==> {
                &&& r.body@ == p
                &&& request::opt_entries(*exports) matches Some(list) ==> r.exports@.len()
                    == list.len() && forall|i: int|
                    0 <= i < list.len() ==> (#[trigger] r.exports@[i])@ == exports::export_act(
                        list[i].0,
                        list[i].1,
                        exports::resolved(res.body_text(), list[i].1),
                    )
                &&& exports is None ==> r.exports@.len() == 0
            }),
            formats::json_indented(res.body_text()) is None || !text::occurs(
                response::content_type(res.headers@),
                "json"@,
            ) ==> r.body@ == res.body_text() && r.exports@.len() == 0,
    {
        let body: String = lossy_text(&res.body);
        let content_type: String = content_type_of(&res.headers);
        let json: Option<String> = json_to_print(content_type.as_str(), pretty_json(body.as_str()));
        let steps: Vec<ExportStep> = match (&json, exports) {
            (Some(_), Some(list)) => self.handle_exports(body.as_str(), list),
            _ => {
                let none: Vec<ExportStep> = Vec::new();
                assert(exports::acts(none@) =~= Seq::empty());
                none
            },
        };
        let shown: String = match json {
            Some(p) => p,
            None => body,
        };
        proof {
            let done = exports::acts(steps@);
            assert(done.len() == steps@.len());
            assert forall|i: int| 0 <= i < steps@.len() implies (#[trigger] steps@[i])@
                == done[i] by {}
        }
        ResponseReport { body: shown, exports: steps }
    }

    /// What is to be done for the exports of a JSON response: a variable for each path that leads
    /// to a value.
    pub fn handle_exports(&self, json: &str, exports: &Vec<(String, String)>) -> (r: Vec<ExportStep>)
        ensures
            exports::acts(r@) == exports::export_acts(rows::entries(exports@), json@),
    {
        export_steps(json, exports)
    }
}

} // verus!
