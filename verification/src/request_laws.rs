//! What holds of requests: what is sent, what is shown and exported of the response, and what the
//! command line gives.

use crate::cli;
use crate::env;
use crate::exports;
use crate::formats;
use crate::grid::{GridCol, GridEditState, GridSection};
use crate::grid_file;
use crate::http;
use crate::preview;
use crate::request;
use crate::request::{RequestBody, RequestFile};
use crate::response;
use crate::rows;
use crate::runner;
use crate::runner::{Outgoing, OutgoingBody};
use crate::styled::Tone;
use crate::task;
use crate::text;
use crate::text_laws;
use crate::undo::Stamp;
use vstd::prelude::*;
use vstd::string::*;

verus! {

// ---------------------------------------------------------------------------------------------
// What is sent
// ---------------------------------------------------------------------------------------------

/// What is sent for a body: none for none, a plain string as it is, any other value as its JSON.
pub open spec fn body_goes(
    body: Option<request::BodyModel>,
    json: Seq<char>,
    out: Option<runner::SentBody>,
) -> bool {
    match body {
        None => out is None,
        Some(request::BodyModel::Text(s)) => out == Some(runner::SentBody::Raw(s)),
        Some(request::BodyModel::Yaml(_)) => out == Some(runner::SentBody::Json(json)),
    }
}

/// What is sent has the URL and exactly the query parameters of the request, with or without a
/// body, the method that was given, and the body.
pub proof fn law_what_is_sent(
    req: request::RequestModel,
    method: Seq<char>,
    json: Option<Seq<char>>,
)
    ensures
        runner::sent(req, method, json) matches Ok(o) ==> {
            &&& o.query == req.query
            &&& o.url == req.url
            &&& o.method == method
            &&& body_goes(
                req.body,
                match json {
                    Some(j) => j,
                    None => Seq::empty(),
                },
                o.body,
            )
        },
{
}

/// What is sent from the interface has the URL, exactly the query parameters and the headers of
/// the request as they are, the method that was given, and the body.
pub proof fn law_what_a_task_sends(
    req: request::RequestModel,
    method: Seq<char>,
    json: Result<Seq<char>, Seq<char>>,
)
    ensures
        task::task_sent(req, method, json) matches Ok(o) ==> {
            &&& o.query == req.query
            &&& o.url == req.url
            &&& o.method == method
            &&& o.headers == request::entries_or_none(req.headers)
            &&& body_goes(
                req.body,
                match json {
                    Ok(j) => j,
                    Err(_) => Seq::empty(),
                },
                o.body,
            )
        },
{
}

/// Both ways of sending agree on the method, the URL, the query parameters and the body.
pub proof fn law_both_ways_agree(
    req: request::RequestModel,
    method: Seq<char>,
    json: Seq<char>,
)
    ensures
        runner::sent(req, method, Some(json)) matches Ok(a) ==> (task::task_sent(
            req,
            method,
            Ok(json),
        ) matches Ok(b) && a.method == b.method && a.url == b.url && a.query == b.query && a.body
            == b.body),
{
}

/// A request can be sent exactly where its method is a token, each of its headers has a name and a
/// value that can be sent, and its body is no value that has no JSON.
pub proof fn law_when_a_request_is_sent(
    req: request::RequestModel,
    method: Seq<char>,
    json: Option<Seq<char>>,
)
    ensures
        runner::sent(req, method, json) is Ok <==> {
            &&& http::is_token(method)
            &&& forall|i: int|
                0 <= i < request::entries_or_none(req.headers).len() ==> sendable(
                    #[trigger] request::entries_or_none(req.headers)[i],
                )
            &&& !(req.body matches Some(request::BodyModel::Yaml(_)) && json is None)
        },
        !http::is_token(method) ==> runner::sent(req, method, json) == Err::<
            runner::Sent,
            runner::RunFault,
        >(runner::RunFault::InvalidMethod(req.method)),
{
    lemma_headers_sent(request::entries_or_none(req.headers));
}

/// Whether a header can be sent.
pub open spec fn sendable(header: rows::Entry) -> bool {
    http::is_header_name(header.0) && http::is_header_value(header.1)
}

proof fn lemma_headers_sent(headers: Seq<rows::Entry>)
    ensures
        runner::sent_headers(headers) is Ok <==> forall|i: int|
            0 <= i < headers.len() ==> sendable(#[trigger] headers[i]),
    decreases headers.len(),
{
    if headers.len() > 0 {
        let rest = headers.drop_last();
        lemma_headers_sent(rest);
        assert(headers[headers.len() - 1] == headers.last());
        if forall|i: int| 0 <= i < headers.len() ==> sendable(#[trigger] headers[i]) {
            assert forall|i: int| 0 <= i < rest.len() implies sendable(#[trigger] rest[i]) by {
                assert(sendable(headers[i]));
            }
        } else if sendable(headers.last()) {
            let i = choose|i: int| 0 <= i < headers.len() && !sendable(#[trigger] headers[i]);
            assert(!sendable(rest[i]));
        }
    }
}

/// The first header that cannot be sent is the one that is named: by its name where that is at
/// fault, else by its value.
pub proof fn law_first_bad_header_is_named(headers: Seq<rows::Entry>, i: int)
    requires
        0 <= i < headers.len(),
        forall|j: int| 0 <= j < i ==> sendable(#[trigger] headers[j]),
        !sendable(headers[i]),
    ensures
        runner::sent_headers(headers) == Err::<Seq<rows::Entry>, runner::RunFault>(
            if !http::is_header_name(headers[i].0) {
                runner::RunFault::InvalidHeaderName(headers[i].0)
            } else {
                runner::RunFault::InvalidHeaderValue(headers[i].1)
            },
        ),
    decreases headers.len(),
{
    let rest = headers.drop_last();
    assert forall|j: int| 0 <= j < i implies sendable(#[trigger] rest[j]) by {
        assert(sendable(headers[j]));
    }
    if i < headers.len() - 1 {
        law_first_bad_header_is_named(rest, i);
    } else {
        lemma_headers_sent(rest);
    }
}

// ---------------------------------------------------------------------------------------------
// What is shown of a response
// ---------------------------------------------------------------------------------------------

/// A response counts as JSON exactly where its content type has the letters `json` anywhere in it,
/// and its body is JSON.
pub proof fn law_json_anywhere_in_the_content_type(
    a: Seq<char>,
    b: Seq<char>,
    content_type: Seq<char>,
    indented: Option<Seq<char>>,
)
    ensures
        runner::json_of(a + "json"@ + b, indented) == indented,
        !text::occurs(content_type, "json"@) ==> runner::json_of(content_type, indented) is None,
        runner::json_of(content_type, None) is None,
{
    let s = a + "json"@ + b;
    let i = a.len() as int;
    assert(s.subrange(i, i + "json"@.len()) =~= "json"@);
    assert(text::stands_at(s, "json"@, i));
}

/// The body is printed with indentation where it is JSON, and else as it came.
pub proof fn law_printed_body(indented: Seq<char>, body: Seq<char>)
    ensures
        runner::printed_body(Some(indented), body) == indented,
        runner::printed_body(None, body) == body,
{
}

/// Where the response counts as JSON, each export comes to one step, in the order of the exports:
/// its variable is set to what its path leads to, or it is missing. Else there is no step.
pub proof fn law_exports_of_a_response(
    indented: Seq<char>,
    list: Seq<rows::Entry>,
    body: Seq<char>,
    i: int,
)
    requires
        0 <= i < list.len(),
    ensures
        ({
            let steps = runner::printed_exports(Some(indented), Some(list), body);
            &&& steps.len() == list.len()
            &&& steps[i] == match exports::resolved(body, list[i].1) {
                Some(v) => exports::ExportAct::Store {
                    name: list[i].0,
                    value: exports::variable_text(v),
                },
                None => exports::ExportAct::Missing { name: list[i].0, path: list[i].1 },
            }
        }),
        runner::printed_exports(None, Some(list), body).len() == 0,
        runner::printed_exports(Some(indented), None, body).len() == 0,
{
}

/// A status of success is green, a redirection blue, and any other red.
pub proof fn law_tones_of_statuses(status: u16)
    ensures
        status / 100 == 2 ==> runner::status_tone(status) == Tone::Green,
        status / 100 == 3 ==> runner::status_tone(status) == Tone::Blue,
        status / 100 != 2 && status / 100 != 3 ==> runner::status_tone(status) == Tone::Red,
{
}

/// Above the body stand the status with the time it took, and each header on a line of its own, in
/// their order.
pub proof fn law_head_of_a_response(
    status: u16,
    status_text: Seq<char>,
    duration: Seq<char>,
    headers: Seq<rows::Entry>,
    i: int,
)
    requires
        0 <= i < headers.len(),
    ensures
        ({
            let lines = runner::head_lines(status, status_text, duration, headers);
            &&& lines.len() == headers.len() + 3
            &&& lines[0].len() == 5
            &&& lines[0][1] == (Tone::Bold, "Status"@)
            &&& lines[0][3] == (runner::status_tone(status), status_text)
            &&& lines[0][4] == (Tone::Plain, " - "@ + duration)
            &&& lines[1] == seq![(Tone::BrightBlack, "--- Headers ---"@)]
            &&& lines[i + 2] == seq![
                (Tone::Cyan, headers[i].0),
                (Tone::Plain, ": "@ + headers[i].1),
            ]
            &&& lines.last()[1] == (Tone::BrightBlack, "--- Body ---"@)
        }),
{
}

/// The headers of a response are shown in their order under their names, each with its value where
/// that is printable ASCII.
pub proof fn law_headers_are_shown(headers: Seq<(String, Vec<u8>)>, i: int, k: int)
    requires
        0 <= i < headers.len(),
    ensures
        response::headers_shown(headers).len() == headers.len(),
        response::headers_shown(headers)[i].0 == headers[i].0@,
        http::visible(headers[i].1@) ==> {
            let shown = response::headers_shown(headers)[i].1;
            &&& shown.len() == headers[i].1@.len()
            &&& 0 <= k < shown.len() ==> shown[k] as int == headers[i].1@[k] as int
        },
        !http::visible(headers[i].1@) ==> response::headers_shown(headers)[i].1 == "<binary>"@,
{
}

/// The content type is the value of the first header of that name, if it is readable; without such
/// a header there is none.
pub proof fn law_first_content_type_counts(headers: Seq<(String, Vec<u8>)>, i: int)
    requires
        0 <= i <= headers.len(),
        forall|j: int| 0 <= j < i ==> (#[trigger] headers[j]).0@ != "content-type"@,
        i < headers.len() ==> headers[i].0@ == "content-type"@,
    ensures
        response::content_type(headers) == if i < headers.len() && http::visible(headers[i].1@) {
            http::ascii_text(headers[i].1@)
        } else {
            Seq::empty()
        },
    decreases headers.len(),
{
    if i > 0 {
        assert(headers[0].0@ != "content-type"@);
        let rest = headers.skip(1);
        assert forall|j: int| 0 <= j < i - 1 implies (#[trigger] rest[j]).0@
            != "content-type"@ by {
            assert(headers[j + 1].0@ != "content-type"@);
        }
        law_first_content_type_counts(rest, i - 1);
    }
}

// ---------------------------------------------------------------------------------------------
// Exports
// ---------------------------------------------------------------------------------------------

/// A path that starts with a slash is a JSON pointer; any other is a list of keys with dots between
/// them.
pub proof fn law_two_kinds_of_paths(body: Seq<char>, path: Seq<char>)
    ensures
        path.len() > 0 && path[0] == '/' ==> exports::resolved(body, path)
            == formats::json_value_at(body, path),
        path.len() == 0 || path[0] != '/' ==> exports::resolved(body, path) == exports::dotted(
            body,
            Seq::empty(),
            text::pieces(path, '.'),
        ),
{
}

/// Keys lead to a value exactly where each of them but the last gives an object and the last gives
/// a value: the one that the pointer of the keys addresses.
pub proof fn law_keys_lead_to_a_value(
    body: Seq<char>,
    pointer: Seq<char>,
    parts: Seq<Seq<char>>,
)
    requires
        forall|k: int|
            0 <= k < parts.len() ==> (formats::json_value_at(
                body,
                #[trigger] (pointer + exports::pointer_of(parts.take(k))),
            ) matches Some(v) && v is Object),
    ensures
        exports::dotted(body, pointer, parts) == formats::json_value_at(
            body,
            pointer + exports::pointer_of(parts),
        ),
    decreases parts.len(),
{
    if parts.len() == 0 {
        assert(pointer + exports::pointer_of(parts) =~= pointer);
    } else {
        assert(parts.take(0) =~= Seq::empty());
        assert(pointer + exports::pointer_of(parts.take(0)) =~= pointer);
        let next = exports::member(pointer, parts[0]);
        let rest = parts.skip(1);
        assert forall|k: int| 0 <= k < rest.len() implies (formats::json_value_at(
            body,
            #[trigger] (next + exports::pointer_of(rest.take(k))),
        ) matches Some(v) && v is Object) by {
            let longer = parts.take(k + 1);
            assert(longer[0] == parts[0]);
            assert(longer.skip(1) =~= rest.take(k));
            assert(next + exports::pointer_of(rest.take(k)) =~= pointer + exports::pointer_of(
                longer,
            ));
        }
        law_keys_lead_to_a_value(body, next, rest);
        assert(next + exports::pointer_of(rest) =~= pointer + exports::pointer_of(parts));
    }
}

/// A key in a value that is no object leads nowhere.
pub proof fn law_only_objects_have_keys(
    body: Seq<char>,
    pointer: Seq<char>,
    parts: Seq<Seq<char>>,
)
    requires
        parts.len() > 0,
        !(formats::json_value_at(body, pointer) matches Some(v) && v is Object),
    ensures
        exports::dotted(body, pointer, parts) is None,
{
}

/// In a pointer, a tilde in a key stands as `~0` and a slash as `~1`, and any other character as
/// itself; keys are escaped character by character.
pub proof fn law_escaping(c: char, rest: Seq<char>)
    ensures
        exports::escaped(seq![c] + rest) == (if c == '~' {
            "~0"@
        } else if c == '/' {
            "~1"@
        } else {
            seq![c]
        }) + exports::escaped(rest),
        exports::escaped(Seq::empty()) == Seq::<char>::empty(),
{
    reveal_strlit("~");
    reveal_strlit("/");
    reveal_strlit("~0");
    reveal_strlit("~1");
    let (p, q) = ("~"@, "/"@);
    let (u, v) = ("~0"@, "~1"@);
    let s = seq![c] + rest;
    assert(p =~= seq!['~'] && q =~= seq!['/']);
    assert(u =~= seq!['~', '0']);
    let inner = text::replaced(rest, p, u);
    lemma_one_sign(c, rest, '~', u);
    if c == '~' {
        assert(text::replaced(s, p, u) =~= seq!['~'] + (seq!['0'] + inner));
        lemma_one_sign('~', seq!['0'] + inner, '/', v);
        lemma_one_sign('0', inner, '/', v);
        assert(seq!['~'] + (seq!['0'] + text::replaced(inner, q, v)) =~= u + text::replaced(
            inner,
            q,
            v,
        ));
    } else {
        lemma_one_sign(c, inner, '/', v);
    }
}

/// Replacing a single sign goes character by character.
proof fn lemma_one_sign(c: char, rest: Seq<char>, sign: char, with: Seq<char>)
    ensures
        text::replaced(seq![c] + rest, seq![sign], with) == (if c == sign {
            with
        } else {
            seq![c]
        }) + text::replaced(rest, seq![sign], with),
{
    let s = seq![c] + rest;
    let p = seq![sign];
    assert(s.skip(1) =~= rest);
    if c == sign {
        assert(s.subrange(0, 1) =~= p);
    } else if text::stands_at(s, p, 0) {
        assert(s.subrange(0, 1)[0] == s[0]);
    }
}

/// The value of a variable is the JSON value: a string without its quotes and escapes, any other as
/// compact JSON.
pub proof fn law_values_of_variables(value: formats::JsonShape)
    ensures
        value matches formats::JsonShape::Text(s) ==> exports::variable_text(value) == s,
        !(value is Text) ==> exports::variable_text(value) == formats::compact(value),
{
}

/// The step of an export names its variable: with the value where its path leads to one, with the
/// path where it does not. No export matters to another.
pub proof fn law_step_of_an_export(list: Seq<rows::Entry>, body: Seq<char>, i: int)
    requires
        0 <= i < list.len(),
    ensures
        exports::export_acts(list, body).len() == list.len(),
        exports::export_acts(list, body)[i] == match exports::resolved(body, list[i].1) {
            Some(v) => exports::ExportAct::Store {
                name: list[i].0,
                value: exports::variable_text(v),
            },
            None => exports::ExportAct::Missing { name: list[i].0, path: list[i].1 },
        },
        exports::export_acts(list, body)[i] == exports::export_acts(seq![list[i]], body)[0],
{
}

/// Without exports there is nothing to do; where the response is no JSON, this is noted once; else
/// each export has its step.
pub proof fn law_all_exports(list: Seq<rows::Entry>, body: Seq<char>)
    ensures
        exports::all_export_acts(None, body).len() == 0,
        formats::json_indented(body) is None ==> exports::all_export_acts(Some(list), body) == seq![
            exports::ExportAct::Skipped,
        ],
        formats::json_indented(body) is Some ==> exports::all_export_acts(Some(list), body)
            == exports::export_acts(list, body),
{
}

/// The last value stored for a variable counts; steps that store nothing change nothing.
pub proof fn law_last_stored_counts(
    acts: Seq<exports::ExportAct>,
    name: Seq<char>,
    value: Seq<char>,
    path: Seq<char>,
    other: Seq<char>,
)
    ensures
        ({
            let more = acts.push(exports::ExportAct::Store { name, value });
            &&& exports::stored(more, name) == Some(value)
            &&& other != name ==> exports::stored(more, other) == exports::stored(acts, other)
        }),
        exports::stored(acts.push(exports::ExportAct::Missing { name, path }), other)
            == exports::stored(acts, other),
        exports::stored(acts.push(exports::ExportAct::Skipped), other) == exports::stored(
            acts,
            other,
        ),
        exports::stored(Seq::empty(), other) is None,
{
    assert(acts.push(exports::ExportAct::Store { name, value }).drop_last() =~= acts);
    assert(acts.push(exports::ExportAct::Missing { name, path }).drop_last() =~= acts);
    assert(acts.push(exports::ExportAct::Skipped).drop_last() =~= acts);
}

/// The environment is updated for each step that stores a variable, with the name and the value of
/// the step, and for no other step.
pub proof fn law_updates_of_steps(
    config_dir: Seq<char>,
    files: env::FilesModel,
    acts: Seq<exports::ExportAct>,
    i: int,
)
    requires
        0 <= i < acts.len(),
    ensures
        exports::update_for(config_dir, files, acts, i) is Some <==> acts[i] is Store,
        acts[i] matches exports::ExportAct::Store { name, value } ==> {
            let before = exports::files_after(config_dir, files, acts.take(i));
            exports::update_for(config_dir, files, acts, i) == Some(
                env::variable_update(config_dir, before.active, before.content, name, value),
            )
        },
{
}

/// What is said of an export once it is done names the variable and its value, or the path that
/// leads nowhere.
pub proof fn law_line_of_an_export(
    name: Seq<char>,
    value: Seq<char>,
    path: Seq<char>,
    error: Seq<char>,
)
    ensures
        ({
            let line = runner::export_line(exports::ExportAct::Store { name, value });
            line.len() == 5 && line[0] == (Tone::MagentaBold, "State:"@) && line[2] == (
                Tone::Yellow,
                name,
            ) && line[4] == (Tone::Cyan, value)
        }),
        ({
            let line = runner::export_line(exports::ExportAct::Missing { name, path });
            line.len() == 2 && line[0] == (Tone::YellowBold, "Warning:"@) && text::occurs(
                line[1].1,
                name,
            ) && text::occurs(line[1].1, path)
        }),
        runner::export_line(exports::ExportAct::Skipped).len() == 0,
        task::export_log(exports::ExportAct::Skipped, Ok(()))
            == "  Skipped: response body is not valid JSON"@,
        task::export_log(exports::ExportAct::Store { name, value }, Ok(())) == "  Exported "@ + name
            + " = "@ + value,
        text::occurs(
            task::export_log(exports::ExportAct::Store { name, value }, Err(error)),
            error,
        ),
        text::occurs(
            task::export_log(exports::ExportAct::Missing { name, path }, Ok(())),
            path,
        ),
{
    let s = " Failed to export "@ + name + ": path '"@ + path + "' not found in response"@;
    lemma_occurs(
        " Failed to export "@,
        name,
        ": path '"@ + path + "' not found in response"@,
    );
    assert(" Failed to export "@ + name + (": path '"@ + path + "' not found in response"@) =~= s);
    lemma_occurs(
        " Failed to export "@ + name + ": path '"@,
        path,
        "' not found in response"@,
    );
    let t = "  Failed to export "@ + name + ": "@ + error;
    lemma_occurs("  Failed to export "@ + name + ": "@, error, Seq::empty());
    assert("  Failed to export "@ + name + ": "@ + error + Seq::<char>::empty() =~= t);
    lemma_occurs(
        "  Failed to export "@ + name + ": path '"@,
        path,
        "' not found in response"@,
    );
}

proof fn lemma_occurs(a: Seq<char>, s: Seq<char>, b: Seq<char>)
    ensures
        text::occurs(a + s + b, s),
{
    let all = a + s + b;
    let i = a.len() as int;
    assert(all.subrange(i, i + s.len()) =~= s);
    assert(text::stands_at(all, s, i));
}

// ---------------------------------------------------------------------------------------------
// The report of a request
// ---------------------------------------------------------------------------------------------

/// The report of a request shows its method, its URL, its query parameters, its headers and its
/// body.
pub proof fn law_report_shows_the_request(
    req: request::RequestModel,
    method: Seq<char>,
    body: Seq<char>,
)
    ensures
        ({
            let shown = task::request_section(req, method, body);
            &&& text::occurs(shown, "* Method: "@ + method + "\n"@)
            &&& text::occurs(shown, "* URL: "@ + req.url + "\n"@)
            &&& text::occurs(shown, "* Query:\n"@ + task::list_section(req.query) + "\n"@)
            &&& text::occurs(shown, "* Headers:\n"@ + task::list_section(req.headers) + "\n"@)
            &&& text::occurs(shown, "* Body:\n"@ + body)
        }),
{
    reveal_strlit("=== Request ===\n* Method: ");
    reveal_strlit("=== Request ===\n");
    reveal_strlit("* Method: ");
    reveal_strlit("\n* URL: ");
    reveal_strlit("* URL: ");
    reveal_strlit("\n* Query:\n");
    reveal_strlit("* Query:\n");
    reveal_strlit("\n* Headers:\n");
    reveal_strlit("* Headers:\n");
    reveal_strlit("\n* Body:\n");
    reveal_strlit("* Body:\n");
    reveal_strlit("\n");
    let nl = "\n"@;
    let start = "=== Request ===\n"@;
    let m = "* Method: "@ + method + nl;
    let u = "* URL: "@ + req.url + nl;
    let q = "* Query:\n"@ + task::list_section(req.query) + nl;
    let h = "* Headers:\n"@ + task::list_section(req.headers) + nl;
    let b = "* Body:\n"@ + body;
    let shown = task::request_section(req, method, body);
    assert("=== Request ===\n* Method: "@ =~= start + "* Method: "@);
    assert("\n* URL: "@ =~= nl + "* URL: "@);
    assert("\n* Query:\n"@ =~= nl + "* Query:\n"@);
    assert("\n* Headers:\n"@ =~= nl + "* Headers:\n"@);
    assert("\n* Body:\n"@ =~= nl + "* Body:\n"@);
    let none = Seq::<char>::empty();
    assert(shown =~= start + m + (u + q + h + b));
    assert(shown =~= (start + m) + u + (q + h + b));
    assert(shown =~= (start + m + u) + q + (h + b));
    assert(shown =~= (start + m + u + q) + h + b);
    assert(shown =~= (start + m + u + q + h) + b + none);
    lemma_occurs(start, m, u + q + h + b);
    lemma_occurs(start + m, u, q + h + b);
    lemma_occurs(start + m + u, q, h + b);
    lemma_occurs(start + m + u + q, h, b);
    lemma_occurs(start + m + u + q + h, b, none);
}

/// The report of a response shows its status, how long it took, its headers and its body.
pub proof fn law_report_shows_the_response(
    status: Seq<char>,
    duration: Seq<char>,
    headers: Seq<rows::Entry>,
    body: Seq<char>,
)
    ensures
        ({
            let shown = task::response_section(status, duration, headers, body);
            &&& text::occurs(shown, "* Status: "@ + status + "\n"@)
            &&& text::occurs(shown, "* Duration: "@ + duration + "\n"@)
            &&& text::occurs(shown, "* Headers:\n"@ + task::headers_section(headers) + "\n"@)
            &&& text::occurs(shown, "* Body:\n"@ + body)
        }),
        task::headers_section(headers) == text::joined(
            headers.map_values(|e: rows::Entry| e.0 + ": "@ + e.1),
            "\n"@,
        ),
{
    reveal_strlit("");
    reveal_strlit("\n\n=== Response ===\n* Status: ");
    reveal_strlit("\n\n=== Response ===\n");
    reveal_strlit("* Status: ");
    reveal_strlit("\n* Duration: ");
    reveal_strlit("* Duration: ");
    reveal_strlit("\n* Headers:\n");
    reveal_strlit("* Headers:\n");
    reveal_strlit("\n* Body:\n");
    reveal_strlit("* Body:\n");
    reveal_strlit("\n");
    let nl = "\n"@;
    let start = "\n\n=== Response ===\n"@;
    let s = "* Status: "@ + status + nl;
    let d = "* Duration: "@ + duration + nl;
    let h = "* Headers:\n"@ + task::headers_section(headers) + nl;
    let b = "* Body:\n"@ + body;
    let shown = task::response_section(status, duration, headers, body);
    assert("\n\n=== Response ===\n* Status: "@ =~= start + "* Status: "@);
    assert("\n* Duration: "@ =~= nl + "* Duration: "@);
    assert("\n* Headers:\n"@ =~= nl + "* Headers:\n"@);
    assert("\n* Body:\n"@ =~= nl + "* Body:\n"@);
    let none = Seq::<char>::empty();
    assert(shown =~= start + s + (d + h + b));
    assert(shown =~= (start + s) + d + (h + b));
    assert(shown =~= (start + s + d) + h + b);
    assert(shown =~= (start + s + d + h) + b + none);
    lemma_occurs(start, s, d + h + b);
    lemma_occurs(start + s, d, h + b);
    lemma_occurs(start + s + d, h, b);
    lemma_occurs(start + s + d + h, b, none);
    let lines = headers.map_values(|e: rows::Entry| e.0 + ": "@ + e.1);
    assert forall|i: int| 0 <= i < headers.len() implies rows::entry_lines(headers, ""@, ": "@)[i]
        == lines[i] by {
        assert(""@ + headers[i].0 =~= headers[i].0);
    }
    assert(rows::entry_lines(headers, ""@, ": "@) =~= lines);
}

/// A list that is there is shown line by line, and one that is not as none; exports have a section
/// exactly where the request has exports, with a line for each of their logs.
pub proof fn law_sections(list: Seq<rows::Entry>, logs: Seq<Seq<char>>)
    ensures
        task::list_section(Some(list)) == rows::sorted_lines(list),
        task::list_section(None) == "  None"@,
        task::exports_section(None, logs).len() == 0,
        logs.len() > 0 ==> task::exports_section(Some(list), logs) == "\n\n=== Exports ===\n"@
            + text::joined(logs, "\n"@),
        logs.len() == 0 ==> task::exports_section(Some(list), logs) == "\n\n=== Exports ===\n"@
            + "  None"@,
{
}

// ---------------------------------------------------------------------------------------------
// Bodies and previews
// ---------------------------------------------------------------------------------------------

/// A value is shown as indented JSON where there is such, else as it is printed for debugging, else
/// as it is; a missing body as what is said for none.
pub proof fn law_shown_bodies(
    pretty: Seq<char>,
    debug: Seq<char>,
    other: Option<Seq<char>>,
    yaml: Seq<char>,
    body: request::BodyModel,
)
    ensures
        request::shown_value(Some(pretty), other, yaml) == pretty,
        request::shown_value(None, Some(debug), yaml) == debug,
        request::shown_value(None, None, yaml) == yaml,
        request::shown_body_or(None, yaml) == yaml,
        request::shown_body_or(Some(body), yaml) == request::shown_body(body),
{
}

/// A YAML text that is a plain string gives this string as the body, any other value itself; what
/// is no YAML gives none, and on the command line the text as it is.
pub proof fn law_bodies_of_texts(data: Seq<char>, s: Seq<char>)
    ensures
        request::body_read(data, Some(Some(s))) == Some(request::BodyModel::Text(s)),
        request::body_read(data, Some(None)) == Some(request::BodyModel::Yaml(data)),
        request::body_read(data, None) is None,
        cli::data_body(data, Some(Some(s))) == request::BodyModel::Text(s),
        cli::data_body(data, Some(None)) == request::BodyModel::Yaml(data),
        cli::data_body(data, None) == request::BodyModel::Text(data),
{
}

/// The preview of a request shows each query parameter and each header once, ordered by key, its
/// body, and its file as it is; above them stand its name, method and URL.
pub proof fn law_preview_shows_the_request(
    path: String,
    file: String,
    req: RequestFile,
)
    ensures
        ({
            let p = preview::selected_preview(Some(path), Ok(file), Ok(req));
            &&& p.query_rows.to_multiset() == request::entries_or_none(req@.query).to_multiset()
            &&& rows::ordered(p.query_rows)
            &&& p.header_rows.to_multiset() == request::entries_or_none(
                req@.headers,
            ).to_multiset()
            &&& rows::ordered(p.header_rows)
            &&& p.body_text == request::shown_body_or(req@.body, "  None"@)
            &&& p.raw_file == file@
            &&& p.top == "* Name: "@ + (match req@.name {
                Some(n) => n,
                None => "(unnamed)"@,
            }) + "\n* Method: "@ + text::upper(req@.method) + "\n* URL: "@ + req@.url
        }),
{
    rows::law_sorted_keeps_rows(request::entries_or_none(req@.query));
    rows::law_sorted_is_ordered(request::entries_or_none(req@.query));
    rows::law_sorted_keeps_rows(request::entries_or_none(req@.headers));
    rows::law_sorted_is_ordered(request::entries_or_none(req@.headers));
}

/// Where there is no request to preview, there are no rows and no body: a file that is no request
/// is still shown, one that cannot be read is not, and the reason is given.
pub proof fn law_preview_without_a_request(
    path: String,
    file: String,
    error: String,
    parsed: Result<RequestFile, String>,
)
    ensures
        ({
            let p = preview::selected_preview(Some(path), Ok(file), Err(error));
            &&& p.raw_file == file@
            &&& text::occurs(p.top, error@)
            &&& p.query_rows.len() == 0 && p.header_rows.len() == 0 && p.body_text.len() == 0
        }),
        ({
            let p = preview::selected_preview(Some(path), Err(error), parsed);
            &&& p.raw_file.len() == 0
            &&& text::occurs(p.top, error@)
            &&& p.query_rows.len() == 0 && p.header_rows.len() == 0 && p.body_text.len() == 0
        }),
        preview::selected_preview(None, Ok(file), parsed).top == "No request selected."@,
{
    lemma_occurs("[Could not parse as a request: "@, error@, "]"@);
    lemma_occurs(
        "[Failed to read "@ + crate::paths::base_name_or(path@, "request"@) + ": "@,
        error@,
        "]"@,
    );
}

// ---------------------------------------------------------------------------------------------
// The command line
// ---------------------------------------------------------------------------------------------

/// One more argument sets its key to its value: what stands before and behind its first sign,
/// without the white space around them. It does not matter to other keys.
pub proof fn law_one_more_pair(
    raw: Seq<Seq<char>>,
    texts: Seq<Seq<char>>,
    given: Seq<char>,
    a: Seq<char>,
    b: Seq<char>,
    c: char,
    other: Seq<char>,
)
    requires
        !a.contains(c),
        raw.len() == texts.len(),
    ensures
        cli::pairs(raw, texts, c) matches Ok(before) ==> {
            &&& cli::pairs(raw.push(given), texts.push(a + seq![c] + b), c) matches Ok(list)
            &&& rows::value_of(list, text::trimmed(a)) == Some(text::trimmed(b))
            &&& other != text::trimmed(a) ==> rows::value_of(list, other) == rows::value_of(
                before,
                other,
            )
        },
        cli::pairs(raw, texts, c) matches Err(e) ==> cli::pairs(
            raw.push(given),
            texts.push(a + seq![c] + b),
            c,
        ) == Err::<Seq<rows::Entry>, Seq<char>>(e),
        cli::pairs(Seq::empty(), Seq::empty(), c) == Ok::<Seq<rows::Entry>, Seq<char>>(
            Seq::empty(),
        ),
{
    let t = a + seq![c] + b;
    assert(raw.push(given).drop_last() =~= raw);
    assert(texts.push(t).drop_last() =~= texts);
    text_laws::law_cut_at_the_first(a, c, b);
    cli::law_pairs_are_distinct(raw, texts, c);
    if let Ok(before) = cli::pairs(raw, texts, c) {
        rows::law_with_entry(before, text::trimmed(a), text::trimmed(b), other);
    }
}

/// An argument without the sign is refused, as it was given, unless an earlier one is.
pub proof fn law_argument_without_the_sign(
    raw: Seq<Seq<char>>,
    texts: Seq<Seq<char>>,
    given: Seq<char>,
    t: Seq<char>,
    c: char,
)
    requires
        !t.contains(c),
        raw.len() == texts.len(),
        cli::pairs(raw, texts, c) is Ok,
    ensures
        cli::pairs(raw.push(given), texts.push(t), c) == Err::<Seq<rows::Entry>, Seq<char>>(given),
{
    assert(raw.push(given).drop_last() =~= raw);
    assert(texts.push(t).drop_last() =~= texts);
    text_laws::law_cut_at_the_first(t, c, Seq::empty());
}

/// A request of the command line has the URL with the variables filled in, the method in upper
/// case, `GET` where none is given, no query parameters, a body exactly where data is given, and the
/// headers and exports of its arguments. Headers have their variables filled in, exports do not.
pub proof fn law_request_of_the_command_line(
    url: Seq<char>,
    method: Option<Seq<char>>,
    headers: Seq<Seq<char>>,
    data: Option<Seq<char>>,
    exports: Seq<Seq<char>>,
    vars: Seq<rows::Entry>,
)
    ensures
        cli::inline_request(url, method, headers, data, exports, vars) matches Ok(req) ==> {
            &&& req.url == env::interpolated(url, vars)
            &&& req.method == match method {
                Some(m) => text::upper(m),
                None => text::upper("GET"@),
            }
            &&& req.name is None && req.query is None
            &&& req.body is Some <==> data is Some
            &&& data matches Some(d) ==> req.body == Some(
                cli::data_body(
                    env::interpolated(d, vars),
                    formats::yaml_string(env::interpolated(d, vars)),
                ),
            )
            &&& req.headers matches Some(list) && cli::pairs(
                headers,
                headers.map_values(|h: Seq<char>| env::interpolated(h, vars)),
                ':',
            ) == Ok::<Seq<rows::Entry>, Seq<char>>(list)
            &&& req.exports matches Some(list) && cli::pairs(exports, exports, '=') == Ok::<
                Seq<rows::Entry>,
                Seq<char>,
            >(list)
        },
        cli::inline_request(url, method, headers, data, exports, vars) is Ok <==> cli::pairs(
            headers,
            headers.map_values(|h: Seq<char>| env::interpolated(h, vars)),
            ':',
        ) is Ok && cli::pairs(exports, exports, '=') is Ok,
{
}

/// The list of environments has a line for each of them, in their order, and a star at the active
/// one alone.
pub proof fn law_list_of_environments(
    names: Seq<Seq<char>>,
    active: Option<Seq<char>>,
    i: int,
)
    requires
        0 <= i < names.len(),
    ensures
        ({
            let lines = cli::env_list(names, active);
            &&& lines.len() == names.len() + 1
            &&& lines[0] == seq![(Tone::Bold, "Available Environments:"@)]
            &&& active == Some(names[i]) ==> lines[i + 1] == seq![
                (Tone::Plain, "* "@),
                (Tone::GreenBold, names[i]),
                (Tone::Plain, " (active)"@),
            ]
            &&& active != Some(names[i]) ==> lines[i + 1] == seq![(Tone::Plain, "  "@ + names[i])]
        }),
{
}

/// Each variable is printed on a line of its own with its value, in their order.
pub proof fn law_list_of_variables(vars: Seq<rows::Entry>, i: int)
    requires
        0 <= i < vars.len(),
    ensures
        cli::variable_rows(vars).len() == vars.len(),
        cli::variable_rows(vars)[i] == seq![
            (Tone::Plain, "  "@),
            (Tone::Cyan, vars[i].0),
            (Tone::Plain, " = "@ + vars[i].1),
        ],
        cli::variable_rows(Seq::empty()) == seq![seq![(Tone::Plain, "No variables defined."@)]],
{
}

// ---------------------------------------------------------------------------------------------
// Requests and their files
// ---------------------------------------------------------------------------------------------

/// The model of a request holds each of its fields, and each list entry by entry.
pub proof fn law_model_of_a_request(req: RequestFile, list: Vec<(String, String)>, i: int)
    requires
        0 <= i < list@.len(),
    ensures
        req@.method == req.method@,
        req@.url == req.url@,
        req.name matches Some(n) ==> req@.name == Some(n@),
        req.name is None ==> req@.name is None,
        req.query == Some(list) ==> (req@.query matches Some(q) && q.len() == list@.len() && q[i]
            == (list@[i].0@, list@[i].1@)),
        req.headers == Some(list) ==> (req@.headers matches Some(q) && q.len() == list@.len()
            && q[i] == (list@[i].0@, list@[i].1@)),
        req.exports == Some(list) ==> (req@.exports matches Some(q) && q.len() == list@.len()
            && q[i] == (list@[i].0@, list@[i].1@)),
        req.query is None <==> req@.query is None,
        req.headers is None <==> req@.headers is None,
        req.exports is None <==> req@.exports is None,
        req.body is None <==> req@.body is None,
        req.body matches Some(RequestBody::Text(s)) ==> req@.body == Some(
            request::BodyModel::Text(s@),
        ),
        req.body matches Some(RequestBody::Yaml(s)) ==> req@.body == Some(
            request::BodyModel::Yaml(s@),
        ),
{
}

/// The model of what is sent holds each of its fields, and each list entry by entry.
pub proof fn law_model_of_what_is_sent(o: Outgoing, list: Vec<(String, String)>, i: int)
    requires
        0 <= i < list@.len(),
    ensures
        o@.method == o.method@,
        o@.url == o.url@,
        o.query == Some(list) ==> (o@.query matches Some(q) && q.len() == list@.len() && q[i] == (
            list@[i].0@,
            list@[i].1@,
        )),
        o.query is None <==> o@.query is None,
        o.headers == list ==> o@.headers.len() == list@.len() && o@.headers[i] == (
            list@[i].0@,
            list@[i].1@,
        ),
        o.body is None <==> o@.body is None,
        o.body matches Some(OutgoingBody::Raw(s)) ==> o@.body == Some(runner::SentBody::Raw(s@)),
        o.body matches Some(OutgoingBody::Json(s)) ==> o@.body == Some(runner::SentBody::Json(s@)),
{
}

/// The editor of a request that was just opened shows each query parameter and each header once,
/// ordered by key, and its body; the cursor is on the first key of the query, and the undo tree
/// holds this one state.
pub proof fn law_opened_editor(
    path: Seq<char>,
    original: request::RequestModel,
    stamp: Stamp,
    e: GridEditState,
)
    requires
        grid_file::opened(path, original, stamp, e),
    ensures
        e.path@ == path,
        e.original@ == original,
        rows::entries(e.query_rows@).to_multiset() == request::entries_or_none(
            original.query,
        ).to_multiset(),
        rows::ordered(rows::entries(e.query_rows@)),
        rows::entries(e.header_rows@).to_multiset() == request::entries_or_none(
            original.headers,
        ).to_multiset(),
        rows::ordered(rows::entries(e.header_rows@)),
        original.body matches Some(b) ==> e.body_text@ == request::shown_body(b),
        original.body is None ==> e.body_text@.len() == 0,
        e.section == GridSection::Query && e.row == 0 && e.col == GridCol::Key,
        e.editing_text is None,
        e.undo_nodes@.len() == 1,
        e.undo_nodes@[0].snapshot@ == e.content(),
        e.undo_nodes@[0].parent is None && e.undo_nodes@[0].children@.len() == 0,
        e.undo_nodes@[0].timestamp == stamp.timestamp,
        e.undo_nodes@[0].created_at == stamp.created_at,
        e.undo_current == 0 && e.undo_tree_selected == 0 && !e.undo_tree_active,
{
    rows::law_sorted_keeps_rows(request::entries_or_none(original.query));
    rows::law_sorted_is_ordered(request::entries_or_none(original.query));
    rows::law_sorted_keeps_rows(request::entries_or_none(original.headers));
    rows::law_sorted_is_ordered(request::entries_or_none(original.headers));
}

/// What is saved has query parameters, and headers, exactly where some row has a key.
pub proof fn law_saved_lists(e: GridEditState, i: int)
    ensures
        0 <= i < e.query_rows@.len() && e.query_rows@[i].0@.len() > 0 ==> grid_file::saved_request(
            e,
        ).query is Some,
        0 <= i < e.header_rows@.len() && e.header_rows@[i].0@.len() > 0
            ==> grid_file::saved_request(e).headers is Some,
        e.query_rows@.len() == 0 ==> grid_file::saved_request(e).query is None,
        e.header_rows@.len() == 0 ==> grid_file::saved_request(e).headers is None,
        grid_file::saved_request(e).query matches Some(q) ==> q.len() > 0,
        grid_file::saved_request(e).headers matches Some(q) ==> q.len() > 0,
{
    if 0 <= i < e.query_rows@.len() && e.query_rows@[i].0@.len() > 0 {
        lemma_row_is_collected(rows::entries(e.query_rows@), i);
    }
    if 0 <= i < e.header_rows@.len() && e.header_rows@[i].0@.len() > 0 {
        lemma_row_is_collected(rows::entries(e.header_rows@), i);
    }
}

proof fn lemma_row_is_collected(list: Seq<rows::Entry>, i: int)
    requires
        0 <= i < list.len(),
        list[i].0.len() > 0,
    ensures
        rows::collected(list).len() > 0,
    decreases list.len(),
{
    if i < list.len() - 1 {
        lemma_row_is_collected(list.drop_last(), i);
    }
}

/// A body that was not typed over is saved as it was. One that was is left out where it is blank;
/// a text that is no JSON is saved as it is, and a JSON text as the value that it is.
pub proof fn law_saved_bodies(original: Option<request::BodyModel>, typed: Seq<char>)
    ensures
        typed == request::shown_body_or(original, Seq::empty()) ==> grid_file::body_after(
            original,
            typed,
        ) == original,
        typed != request::shown_body_or(original, Seq::empty()) ==> {
            let saved = grid_file::body_after(original, typed);
            &&& text::trimmed(typed).len() == 0 ==> saved is None
            &&& text::trimmed(typed).len() > 0 ==> match formats::json_as_yaml(
                text::trimmed(typed),
            ) {
                None => saved == Some(request::BodyModel::Text(typed)),
                Some(yaml) => match formats::yaml_string(yaml) {
                    Some(Some(s)) => saved == Some(request::BodyModel::Text(s)),
                    _ => saved == Some(request::BodyModel::Yaml(yaml)),
                },
            }
        },
{
}

/// A body is shown as indented JSON: a plain string in quotes, any other value as it is written,
/// or for debugging where JSON cannot hold it.
pub proof fn law_body_is_shown(s: Seq<char>)
    ensures
        request::shown_body(request::BodyModel::Text(s)) == formats::json_quoted(s),
        formats::yaml_indented(s) matches Some(p) ==> request::shown_body(
            request::BodyModel::Yaml(s),
        ) == p,
        formats::yaml_indented(s) is None ==> (formats::yaml_debug(s) matches Some(d)
            ==> request::shown_body(request::BodyModel::Yaml(s)) == d),
        formats::yaml_indented(s) is None && formats::yaml_debug(s) is None ==> request::shown_body(
            request::BodyModel::Yaml(s),
        ) == s,
{
}

/// The pointer of keys has a slash before each of them, and names them in their order.
pub proof fn law_pointers_of_keys(parts: Seq<Seq<char>>, part: Seq<char>)
    ensures
        exports::pointer_of(Seq::empty()).len() == 0,
        exports::pointer_of(parts.push(part)) == exports::pointer_of(parts) + seq!['/']
            + exports::escaped(part),
    decreases parts.len(),
{
    reveal_strlit("/");
    assert("/"@ =~= seq!['/']);
    if parts.len() == 0 {
        assert(parts.push(part).skip(1) =~= Seq::<Seq<char>>::empty());
        assert(exports::pointer_of(parts.push(part).skip(1)) =~= Seq::<char>::empty());
        assert(exports::pointer_of(parts.push(part)) =~= exports::pointer_of(parts) + seq!['/']
            + exports::escaped(part));
    } else {
        let rest = parts.skip(1);
        law_pointers_of_keys(rest, part);
        assert(parts.push(part).skip(1) =~= rest.push(part));
        assert(exports::pointer_of(parts.push(part)) =~= exports::pointer_of(parts) + seq!['/']
            + exports::escaped(part));
    }
}

/// Each step that stores a variable updates the files that the steps before it left; other steps
/// leave them.
pub proof fn law_files_follow_the_steps(
    config_dir: Seq<char>,
    files: env::FilesModel,
    acts: Seq<exports::ExportAct>,
    name: Seq<char>,
    value: Seq<char>,
)
    ensures
        exports::files_after(
            config_dir,
            files,
            acts.push(exports::ExportAct::Store { name, value }),
        ) == env::after_update(
            config_dir,
            exports::files_after(config_dir, files, acts),
            name,
            value,
        ),
        exports::files_after(
            config_dir,
            files,
            acts.push(exports::ExportAct::Missing { name, path: value }),
        ) == exports::files_after(config_dir, files, acts),
        exports::files_after(config_dir, files, acts.push(exports::ExportAct::Skipped))
            == exports::files_after(config_dir, files, acts),
        exports::files_after(config_dir, files, Seq::empty()) == files,
{
    assert(acts.push(exports::ExportAct::Store { name, value }).drop_last() =~= acts);
    assert(acts.push(exports::ExportAct::Missing { name, path: value }).drop_last() =~= acts);
    assert(acts.push(exports::ExportAct::Skipped).drop_last() =~= acts);
}

/// Variables that were exported have the value that was stored last, and all others the value that
/// they had.
pub proof fn law_exported_variables(
    had: Seq<rows::Entry>,
    has: Seq<rows::Entry>,
    acts: Seq<exports::ExportAct>,
    key: Seq<char>,
)
    requires
        exports::all_stored(had, Ok(has), acts),
    ensures
        exports::stored(acts, key) matches Some(v) ==> rows::value_of(has, key) == Some(v),
        exports::stored(acts, key) is None ==> rows::value_of(has, key) == rows::value_of(
            had,
            key,
        ),
{
}

/// What is said of a request that cannot be sent, or of an argument that is refused, names what is
/// at fault.
pub proof fn law_faults_are_named(s: Seq<char>)
    ensures
        runner::fault_text(runner::RunFault::InvalidMethod(s)) == "Invalid HTTP method: "@ + s,
        runner::fault_text(runner::RunFault::InvalidHeaderName(s)) == "Invalid header name: "@ + s,
        runner::fault_text(runner::RunFault::InvalidHeaderValue(s)) == "Invalid header value: "@
            + s,
        text::occurs(cli::fault_text(cli::CliFault::InvalidHeader(s)), s),
        text::occurs(cli::fault_text(cli::CliFault::InvalidHeader(s)), "Key: Value"@),
        text::occurs(cli::fault_text(cli::CliFault::InvalidExport(s)), s),
        text::occurs(cli::fault_text(cli::CliFault::InvalidExport(s)), "Key=JsonPath"@),
{
    reveal_strlit("Key: Value");
    reveal_strlit(". Must be Key: Value");
    reveal_strlit("Key=JsonPath");
    reveal_strlit(". Must be Key=JsonPath");
    reveal_strlit(". Must be ");
    let none = Seq::<char>::empty();
    let h = "Invalid header format: "@ + s;
    let e = "Invalid export format: "@ + s;
    assert(h + ". Must be Key: Value"@ =~= (h + ". Must be "@) + "Key: Value"@ + none);
    assert(e + ". Must be Key=JsonPath"@ =~= (e + ". Must be "@) + "Key=JsonPath"@ + none);
    lemma_occurs("Invalid header format: "@, s, ". Must be Key: Value"@);
    lemma_occurs("Invalid export format: "@, s, ". Must be Key=JsonPath"@);
    lemma_occurs(h + ". Must be "@, "Key: Value"@, none);
    lemma_occurs(e + ". Must be "@, "Key=JsonPath"@, none);
}

/// A header that is refused is reported as such; an export is, where all headers are fine.
pub proof fn law_faults_of_arguments(
    url: Seq<char>,
    method: Option<Seq<char>>,
    headers: Seq<Seq<char>>,
    data: Option<Seq<char>>,
    exports: Seq<Seq<char>>,
    vars: Seq<rows::Entry>,
)
    ensures
        cli::pairs(
            headers,
            headers.map_values(|h: Seq<char>| env::interpolated(h, vars)),
            ':',
        ) matches Err(h) ==> cli::inline_request(url, method, headers, data, exports, vars) == Err::<
            request::RequestModel,
            cli::CliFault,
        >(cli::CliFault::InvalidHeader(h)),
        cli::pairs(
            headers,
            headers.map_values(|h: Seq<char>| env::interpolated(h, vars)),
            ':',
        ) is Ok ==> (cli::pairs(exports, exports, '=') matches Err(e) ==> cli::inline_request(
            url,
            method,
            headers,
            data,
            exports,
            vars,
        ) == Err::<request::RequestModel, cli::CliFault>(cli::CliFault::InvalidExport(e))),
{
}

/// The active environment is printed by its name; where there is none, this is said.
pub proof fn law_active_environment_is_printed(name: Seq<char>)
    ensures
        cli::active_row(Some(name)) == seq![
            (Tone::Plain, "Active environment: "@),
            (Tone::GreenBold, name),
        ],
        cli::active_row(None) == seq![
            (
                Tone::Plain,
                "No active environment. Use 'rnm env use <name>' to activate one."@,
            ),
        ],
{
}

} // verus!
