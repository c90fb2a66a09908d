//! Running a request from the terminal interface: what is sent, and what is shown of the response.

use crate::exports;
use crate::exports::{all_export_steps, ExportStep};
use crate::formats;
use crate::formats::{json_written_from_yaml, pretty_json};
use crate::http;
use crate::http::{duration_text, lossy_text, method_of, status_text};
use crate::request;
use crate::request::{body_or, clone_opt_rows, RequestBody, RequestFile};
use crate::response;
use crate::response::{show_headers, Response};
use crate::rows;
use crate::rows::{clone_rows, lines_of, sorted_kv_lines};
use crate::runner;
use crate::runner::{Outgoing, OutgoingBody};
use crate::text;
use crate::text::{concat2, concat3, join, to_uppercase};
use vstd::prelude::*;
use vstd::string::*;

verus! {

// ---------------------------------------------------------------------------------------------
// What is sent
// ---------------------------------------------------------------------------------------------

/// The JSON that a YAML body is written as, or why it is not; an empty one of any other body.
pub open spec fn body_json(body: Option<request::BodyModel>) -> Result<Seq<char>, Seq<char>> {
    match body {
        Some(request::BodyModel::Yaml(t)) => formats::yaml_written_as_json(t),
        _ => Ok(Seq::empty()),
    }
}

/// What is sent for a request, given its method in upper case and the JSON of its body; or what is
/// wrong with the method or else with the body. Headers go as they are.
pub open spec fn task_sent(
    req: request::RequestModel,
    method: Seq<char>,
    json: Result<Seq<char>, Seq<char>>,
) -> Result<runner::Sent, Seq<char>> {
    if !http::is_token(method) {
        Err("invalid HTTP method"@)
    } else {
        let head = runner::Sent {
            method,
            url: req.url,
            query: req.query,
            headers: request::entries_or_none(req.headers),
            body: None,
        };
        match req.body {
            None => Ok(head),
            Some(request::BodyModel::Text(s)) => Ok(
                (runner::Sent { body: Some(runner::SentBody::Raw(s)), ..head }),
            ),
            Some(request::BodyModel::Yaml(_)) => match json {
                Ok(j) => Ok((runner::Sent { body: Some(runner::SentBody::Json(j)), ..head })),
                Err(e) => Err(e),
            },
        }
    }
}

/// The model of a result.
pub open spec fn task_view(r: Result<Outgoing, String>) -> Result<runner::Sent, Seq<char>> {
    match r {
        Ok(o) => Ok(o@),
        Err(e) => Err(e@),
    }
}

/// What is sent for a request, given its method in upper case and the JSON that a YAML body is
/// written as.
pub fn plan_task(req_file: &RequestFile, method: &str, json: Result<String, String>) -> (r: Result<
    Outgoing,
    String,
>)
    ensures
        task_view(r) == task_sent(req_file@, method@, formats::result_text(json)),
        r matches Ok(o) ==> {
            &&& request::opt_entries(o.query) == req_file@.query
            &&& o.url@ == req_file@.url
            &&& o.method@ == method@
            &&& rows::entries(o.headers@) == request::entries_or_none(req_file@.headers)
            &&& runner::opt_sent(o.body) == match req_file@.body {
                None => None,
                Some(request::BodyModel::Text(s)) => Some(runner::SentBody::Raw(s)),
                Some(request::BodyModel::Yaml(_)) => match json {
                    Ok(j) => Some(runner::SentBody::Json(j@)),
                    Err(_) => None,
                },
            }
        },
{
    let method: String = match method_of(method) {
        Ok(m) => m,
        Err(e) => {
            return Err(e);
        },
    };
    let body: Option<OutgoingBody> = match &req_file.body {
        None => None,
        Some(RequestBody::Text(s)) => Some(OutgoingBody::Raw(s.clone())),
        Some(RequestBody::Yaml(_)) => match json {
            Ok(j) => Some(OutgoingBody::Json(j)),
            Err(e) => {
                return Err(e);
            },
        },
    };
    let headers: Vec<(String, String)> = match &req_file.headers {
        Some(list) => clone_rows(list),
        None => {
            let none: Vec<(String, String)> = Vec::new();
            assert(rows::entries(none@) =~= Seq::empty());
            none
        },
    };
    Ok(
        Outgoing {
            method,
            url: req_file.url.clone(),
            query: clone_opt_rows(&req_file.query),
            headers,
            body,
        },
    )
}

/// What is sent for a request.
pub fn task_request(req_file: &RequestFile) -> (r: Result<Outgoing, String>)
    ensures
        task_view(r) == task_sent(
            req_file@,
            text::upper(req_file@.method),
            body_json(req_file@.body),
        ),
        r matches Ok(o) ==> {
            &&& request::opt_entries(o.query) == req_file@.query
            &&& o.url@ == req_file@.url
            &&& o.method@ == text::upper(req_file@.method)
            &&& rows::entries(o.headers@) == request::entries_or_none(req_file@.headers)
            &&& runner::opt_sent(o.body) == match req_file@.body {
                None => None,
                Some(request::BodyModel::Text(s)) => Some(runner::SentBody::Raw(s)),
                Some(request::BodyModel::Yaml(t)) => match formats::yaml_written_as_json(t) {
                    Ok(j) => Some(runner::SentBody::Json(j)),
                    Err(_) => None,
                },
            }
        },
{
    let method: String = to_uppercase(req_file.method.as_str());
    let json: Result<String, String> = match &req_file.body {
        Some(RequestBody::Yaml(t)) => json_written_from_yaml(t.as_str()),
        _ => {
            let none: String = String::new();
            assert(none@ =~= Seq::empty());
            Ok(none)
        },
    };
    plan_task(req_file, method.as_str(), json)
}

// ---------------------------------------------------------------------------------------------
// What is shown
// ---------------------------------------------------------------------------------------------

/// The log line of an export, given how storing its variable went.
pub open spec fn export_log(act: exports::ExportAct, outcome: Result<(), Seq<char>>) -> Seq<char> {
    match act {
        exports::ExportAct::Store { name, value } => match outcome {
            Ok(_) => "  Exported "@ + name + " = "@ + value,
            Err(e) => "  Failed to export "@ + name + ": "@ + e,
        },
        exports::ExportAct::Missing { name, path } => "  Failed to export "@ + name + ": path '"@
            + path + "' not found in response"@,
        exports::ExportAct::Skipped => "  Skipped: response body is not valid JSON"@,
    }
}

/// The log line of an export, given how storing its variable went.
pub fn log_of_export(step: &ExportStep, outcome: &Result<(), String>) -> (r: String)
    ensures
        r@ == export_log(
            step@,
            match outcome {
                Ok(_) => Ok(()),
                Err(e) => Err(e@),
            },
        ),
{
    match step {
        ExportStep::Store { name, value } => match outcome {
            Ok(_) => {
                let mut line: String = concat3("  Exported ", name.as_str(), " = ");
                line.append(value.as_str());
                line
            },
            Err(e) => {
                let mut line: String = concat3("  Failed to export ", name.as_str(), ": ");
                line.append(e.as_str());
                line
            },
        },
        ExportStep::Missing { name, path } => {
            let mut line: String = concat3("  Failed to export ", name.as_str(), ": path '");
            line.append(path.as_str());
            line.append("' not found in response");
            line
        },
        ExportStep::Skipped => "  Skipped: response body is not valid JSON".to_string(),
    }
}

/// What is to be done for the exports of a request that was answered.
pub fn task_exports(req: &RequestFile, res: &Response) -> (r: Vec<ExportStep>)
    ensures
        exports::acts(r@) == exports::all_export_acts(req@.exports, res.body_text()),
{
    all_export_steps(lossy_text(&res.body).as_str(), &req.exports)
}

/// The section of the exports; none where the request has none.
pub open spec fn exports_section(
    exports: Option<Seq<rows::Entry>>,
    logs: Seq<Seq<char>>,
) -> Seq<char> {
    match exports {
        Some(_) => "\n\n=== Exports ===\n"@ + if logs.len() == 0 {
            "  None"@
        } else {
            text::joined(logs, "\n"@)
        },
        None => Seq::empty(),
    }
}

/// An optional list as it is shown.
pub open spec fn list_section(list: Option<Seq<rows::Entry>>) -> Seq<char> {
    match list {
        Some(l) => rows::sorted_lines(l),
        None => "  None"@,
    }
}

/// Headers of a response as they are shown.
pub open spec fn headers_section(headers: Seq<rows::Entry>) -> Seq<char> {
    text::joined(rows::entry_lines(headers, ""@, ": "@), "\n"@)
}

/// What is shown of a request.
pub open spec fn request_section(
    req: request::RequestModel,
    method: Seq<char>,
    body: Seq<char>,
) -> Seq<char> {
    "=== Request ===\n* Method: "@ + method + "\n* URL: "@ + req.url + "\n* Query:\n"@
        + list_section(req.query) + "\n* Headers:\n"@ + list_section(req.headers)
        + "\n* Body:\n"@ + body
}

/// What is shown of a response.
pub open spec fn response_section(
    status: Seq<char>,
    duration: Seq<char>,
    headers: Seq<rows::Entry>,
    body: Seq<char>,
) -> Seq<char> {
    "\n\n=== Response ===\n* Status: "@ + status + "\n* Duration: "@ + duration
        + "\n* Headers:\n"@ + headers_section(headers) + "\n* Body:\n"@ + body
}

/// What came of a request: its line in the status bar, its text, and its method and URL for the
/// history.
pub struct TaskReport {
    pub status: String,
    pub response: String,
    pub method: String,
    pub url: String,
}

fn section_of_list(list: &Option<Vec<(String, String)>>) -> (r: String)
    ensures
        r@ == list_section(request::opt_entries(*list)),
{
    match list {
        Some(l) => sorted_kv_lines(l),
        None => "  None".to_string(),
    }
}

fn section_of_exports(list: &Option<Vec<(String, String)>>, logs: &Vec<String>) -> (r: String)
    ensures
        r@ == exports_section(request::opt_entries(*list), text::views(logs@)),
{
    assert(text::views(logs@).len() == logs@.len());
    match list {
        Some(_) => if logs.is_empty() {
            concat2("\n\n=== Exports ===\n", "  None")
        } else {
            concat2("\n\n=== Exports ===\n", join(logs, "\n").as_str())
        },
        None => String::new(),
    }
}

/// The text of a finished request, given its parts as text.
pub fn report_text(
    req: &RequestFile,
    method: &str,
    req_body: &str,
    status: &str,
    duration: &str,
    headers: &Vec<(String, String)>,
    body: &str,
    logs: &Vec<String>,
) -> (r: String)
    ensures
        r@ == request_section(req@, method@, req_body@) + response_section(
            status@,
            duration@,
            rows::entries(headers@),
            body@,
        ) + exports_section(req@.exports, text::views(logs@)),
{
    let mut out: String = concat2("=== Request ===\n* Method: ", method);
    out.append("\n* URL: ");
    out.append(req.url.as_str());
    out.append("\n* Query:\n");
    out.append(section_of_list(&req.query).as_str());
    out.append("\n* Headers:\n");
    out.append(section_of_list(&req.headers).as_str());
    out.append("\n* Body:\n");
    out.append(req_body);
    let ghost first = out@;
    assert(first =~= request_section(req@, method@, req_body@));
    let mut rest: String = concat2("\n\n=== Response ===\n* Status: ", status);
    rest.append("\n* Duration: ");
    rest.append(duration);
    rest.append("\n* Headers:\n");
    rest.append(lines_of(headers, "", ": ").as_str());
    rest.append("\n* Body:\n");
    rest.append(body);
    assert(rest@ =~= response_section(status@, duration@, rows::entries(headers@), body@));
    out.append(rest.as_str());
    out.append(section_of_exports(&req.exports, logs).as_str());
    out
}

/// The body of a response as it is shown, given what it reads as with indentation.
pub fn formatted_body(indented: Option<String>, body: &str) -> (r: String)
    ensures
        r@ == runner::printed_body(formats::opt_text(indented), body@),
{
    match indented {
        Some(p) => p,
        None => body.to_string(),
    }
}

/// What came of a request that was answered, with the log of its exports.
pub fn task_report(req: &RequestFile, res: &Response, logs: &Vec<String>) -> (r: TaskReport)
    requires
        res.wf(),
    ensures
        r.status@ == "Status: "@ + res.status_shown() + " - "@ + res.duration_shown(),
        r.response@ == request_section(
            req@,
            text::upper(req@.method),
            request::shown_body_or(req@.body, "  None"@),
        ) + response_section(
            res.status_shown(),
            res.duration_shown(),
            response::headers_shown(res.headers@),
            runner::printed_body(formats::json_indented(res.body_text()), res.body_text()),
        ) + exports_section(req@.exports, text::views(logs@)),
        r.method@ == text::upper(req@.method),
        r.url@ == req@.url,
{
    let method: String = to_uppercase(req.method.as_str());
    let status: String = status_text(res.status);
    let duration: String = duration_text(res.secs, res.nanos);
    let headers: Vec<(String, String)> = show_headers(&res.headers);
    let body: String = lossy_text(&res.body);
    let response: String = report_text(
        req,
        method.as_str(),
        body_or(&req.body, "  None").as_str(),
        status.as_str(),
        duration.as_str(),
        &headers,
        formatted_body(pretty_json(body.as_str()), body.as_str()).as_str(),
        logs,
    );
    let mut line: String = concat2("Status: ", status.as_str());
    line.append(" - ");
    line.append(duration.as_str());
    TaskReport { status: line, response, method, url: req.url.clone() }
}

/// What came of a request that failed.
pub fn failed_report(error: &str) -> (r: TaskReport)
    ensures
        r.status@ == "Request Failed"@,
        r.response@ == "Error: "@ + error@,
        r.method@ == "?"@,
        r.url@ == "?"@,
{
    TaskReport {
        status: "Request Failed".to_string(),
        response: concat2("Error: ", error),
        method: "?".to_string(),
        url: "?".to_string(),
    }
}

} // verus!
