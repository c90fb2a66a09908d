use rnm::cli::{
    active_line, body_of_data, env_profile, list_lines, request_source, set_line, unread_file,
    use_line, variable_lines, CliError, InlineRequest, Source,
};
use rnm::env::{EnvError, EnvFiles, EnvManager};
use rnm::exports::{
    all_export_steps, export_step, export_steps, member_pointer, node_text, resolve_json_path,
    ExportStep,
};
use rnm::formats::JsonNode;
use rnm::request::{RequestBody, RequestFile};
use rnm::response::{content_type_of, show_headers, Response};
use rnm::runner::{
    json_to_print, line_of_error, line_of_export, OutgoingBody, RequestRunner, RunError,
};
use rnm::styled::{Piece, Tone};
use rnm::task::{
    failed_report, formatted_body, log_of_export, plan_task, task_exports, task_report,
    task_request,
};

fn rows(list: &[(&str, &str)]) -> Vec<(String, String)> {
    list.iter().map(|(k, v)| (k.to_string(), v.to_string())).collect()
}

fn texts(list: &[&str]) -> Vec<String> {
    list.iter().map(|s| s.to_string()).collect()
}

fn some(s: &str) -> Option<String> {
    Some(s.to_string())
}

fn pieces(line: &Vec<Piece>) -> Vec<(Tone, &str)> {
    line.iter().map(|p| (p.tone, p.text.as_str())).collect()
}

fn runner() -> RequestRunner {
    RequestRunner::new(EnvManager::new(true, None))
}

fn request(method: &str) -> RequestFile {
    RequestFile {
        name: None,
        method: method.to_string(),
        url: "http://x/y".to_string(),
        headers: None,
        query: None,
        body: None,
        exports: None,
    }
}

fn response(body: &str, content_type: &str) -> Response {
    Response {
        status: 200,
        secs: 0,
        nanos: 1_500_000,
        headers: vec![
            ("x-bin".to_string(), vec![0xff, 0x41]),
            ("content-type".to_string(), content_type.as_bytes().to_vec()),
        ],
        body: body.as_bytes().to_vec(),
    }
}

#[test]
fn methods_are_sent_in_upper_case() {
    let o = runner().run_request(request("get")).ok().unwrap();
    assert_eq!((o.method.as_str(), o.url.as_str()), ("GET", "http://x/y"));
    assert!(o.headers.is_empty() && o.query.is_none() && o.body.is_none());
    let custom = runner().run_request(request("m-search_2")).ok().unwrap();
    assert_eq!(custom.method, "M-SEARCH_2");
}

#[test]
fn invalid_methods_are_refused() {
    for m in ["", "GE T", "GET\n", "M\u{e9}", "a/b"] {
        let e = runner().run_request(request(m)).err().unwrap();
        assert!(matches!(&e, RunError::InvalidMethod(s) if s == m));
        assert_eq!(e.message(), format!("Invalid HTTP method: {m}"));
    }
}

#[test]
fn headers_are_checked_in_their_order() {
    let with = |list: &[(&str, &str)]| RequestFile { headers: Some(rows(list)), ..request("GET") };
    let o = runner().run_request(with(&[("X-Token", "a b\tc"), ("Accept", "\u{e9}")])).ok().unwrap();
    assert_eq!(o.headers, rows(&[("x-token", "a b\tc"), ("accept", "\u{e9}")]));
    let e = runner().run_request(with(&[("ok", "1"), ("b d", "x"), ("c", "\n")])).err().unwrap();
    assert_eq!(e.message(), "Invalid header name: b d");
    let e = runner().run_request(with(&[("ok", "1\r\n2"), ("b d", "x")])).err().unwrap();
    assert_eq!(e.message(), "Invalid header value: 1\r\n2");
    let e = runner().run_request(with(&[("", "x")])).err().unwrap();
    assert!(matches!(e, RunError::InvalidHeaderName(_)));
    let e = runner().run_request(with(&[("a", "\u{7f}")])).err().unwrap();
    assert!(matches!(e, RunError::InvalidHeaderValue(_)));
}

#[test]
fn longest_header_name() {
    let long = "a".repeat(65535);
    let with = |name: &str| RequestFile { headers: Some(rows(&[(name, "v")])), ..request("GET") };
    assert!(runner().run_request(with(&long)).is_ok());
    assert!(runner().run_request(with(&format!("{long}a"))).is_err());
}

#[test]
fn every_character_of_names_and_values() {
    for n in 0..=0x2ffu32 {
        let c = char::from_u32(n).unwrap();
        let token = c.is_ascii_alphanumeric() || "!#$%&'*+-.^_`|~".contains(c);
        let text = format!("a{c}");
        let name = RequestFile { headers: Some(rows(&[(&text, "v")])), ..request("GET") };
        assert_eq!(runner().run_request(name).is_ok(), token, "{n:x}");
        assert_eq!(
            plan_task(&request("x"), &text, Ok(String::new())).is_ok(),
            token,
            "{n:x}"
        );
        let value = RequestFile { headers: Some(rows(&[("k", &text)])), ..request("GET") };
        let fits = c == '\t' || (c >= ' ' && c != '\u{7f}');
        assert_eq!(runner().run_request(value).is_ok(), fits, "{n:x}");
    }
}

#[test]
fn bodies_are_sent_as_text_or_json() {
    let with = |b: RequestBody| RequestFile { body: Some(b), ..request("POST") };
    let o = runner().run_request(with(RequestBody::Text("a=1".to_string()))).ok().unwrap();
    assert!(matches!(o.body, Some(OutgoingBody::Raw(s)) if s == "a=1"));
    let o = runner().run_request(with(RequestBody::Yaml("b: [1, two]\na: null".to_string()))).ok().unwrap();
    assert!(matches!(o.body, Some(OutgoingBody::Json(s)) if s == "{\"a\":null,\"b\":[1,\"two\"]}"));
    let e = runner().run_request(with(RequestBody::Yaml("{".to_string()))).err().unwrap();
    assert!(matches!(e, RunError::InvalidBody));
    assert_eq!(e.message(), "Failed to convert request body to JSON");
}

#[test]
fn plans_follow_from_what_they_are_given() {
    let r = runner();
    let yaml = || RequestFile {
        body: Some(RequestBody::Yaml("x".to_string())),
        query: Some(rows(&[("q", "1")])),
        ..request("any")
    };
    let o = r.plan(yaml(), "PUT".to_string(), some("{}")).ok().unwrap();
    assert_eq!(o.method, "PUT");
    assert_eq!(o.query, Some(rows(&[("q", "1")])));
    assert!(matches!(o.body, Some(OutgoingBody::Json(s)) if s == "{}"));
    assert!(r.plan(yaml(), "PUT".to_string(), None).is_err());
    assert!(matches!(r.plan(yaml(), "P T".to_string(), None), Err(RunError::InvalidMethod(m)) if m == "any"));
}

#[test]
fn announcement() {
    let line = runner().announce("dev");
    assert_eq!(
        pieces(&line),
        [(Tone::GreenBold, "Executing"), (Tone::Plain, " using environment: "), (Tone::Cyan, "dev")]
    );
}

#[test]
fn heads_of_responses_are_printed() {
    let mut res = response("", "text/plain");
    for (status, tone, text) in [
        (200, Tone::Green, "200 OK"),
        (299, Tone::Green, "299 <unknown status code>"),
        (301, Tone::Blue, "301 Moved Permanently"),
        (404, Tone::Red, "404 Not Found"),
        (100, Tone::Red, "100 Continue"),
    ] {
        res.status = status;
        let lines = runner().print_head(&res);
        assert_eq!(
            pieces(&lines[0]),
            [
                (Tone::Plain, "\n"),
                (Tone::Bold, "Status"),
                (Tone::Plain, " - "),
                (tone, text),
                (Tone::Plain, " - 1.5ms"),
            ]
        );
        assert_eq!(pieces(&lines[1]), [(Tone::BrightBlack, "--- Headers ---")]);
        assert_eq!(pieces(&lines[2]), [(Tone::Cyan, "x-bin"), (Tone::Plain, ": <binary>")]);
        assert_eq!(pieces(&lines[3]), [(Tone::Cyan, "content-type"), (Tone::Plain, ": text/plain")]);
        assert_eq!(pieces(&lines[4]), [(Tone::Plain, "\n"), (Tone::BrightBlack, "--- Body ---")]);
        assert_eq!(lines.len(), 5);
    }
}

#[test]
fn header_values_are_shown_where_they_are_printable() {
    for b in 0..=255u8 {
        let shown = show_headers(&vec![("h".to_string(), vec![b'a', b])]);
        let visible = b == 9 || (32..127).contains(&b);
        let expected = if visible { format!("a{}", b as char) } else { "<binary>".to_string() };
        assert_eq!(shown, vec![("h".to_string(), expected)]);
    }
}

#[test]
fn content_type_is_the_first_of_its_name() {
    let h = |n: &str, v: &[u8]| (n.to_string(), v.to_vec());
    assert_eq!(content_type_of(&vec![]), "");
    assert_eq!(content_type_of(&vec![h("x", b"1"), h("content-type", b"a"), h("content-type", b"b")]), "a");
    assert_eq!(content_type_of(&vec![h("content-type", &[200]), h("content-type", b"b")]), "");
}

#[test]
fn json_responses_are_indented_and_exported() {
    let exports = Some(rows(&[("token", "data.token"), ("none", "x")]));
    let r = runner().print_response(
        &response("{\"data\":{\"token\":\"t\"}}", "application/json; charset=utf-8"),
        &exports,
    );
    assert_eq!(r.body, "{\n  \"data\": {\n    \"token\": \"t\"\n  }\n}");
    assert!(matches!(&r.exports[0], ExportStep::Store { name, value } if name == "token" && value == "t"));
    assert!(matches!(&r.exports[1], ExportStep::Missing { name, path } if name == "none" && path == "x"));
    let plain = runner().print_response(&response("{\"a\":1}", "text/plain"), &exports);
    assert_eq!(plain.body, "{\"a\":1}");
    assert!(plain.exports.is_empty());
    let broken = runner().print_response(&response("{", "application/json"), &exports);
    assert_eq!(broken.body, "{");
    assert!(broken.exports.is_empty());
    let none = runner().print_response(&response("[]", "application/json"), &None);
    assert!(none.exports.is_empty());
    assert_eq!(json_to_print("text/json", some("x")), some("x"));
    assert_eq!(json_to_print("text/html", some("x")), None);
}

#[test]
fn bodies_that_are_no_utf8_are_shown_with_replacements() {
    let mut res = response("", "text/plain");
    res.body = vec![b'a', 0xff, b'b'];
    assert_eq!(runner().print_response(&res, &None).body, "a\u{fffd}b");
    res.body = "\u{e9}\u{1f600}".as_bytes().to_vec();
    assert_eq!(runner().print_response(&res, &None).body, "\u{e9}\u{1f600}");
}

#[test]
fn export_lines_are_printed() {
    let store = ExportStep::Store { name: "t".to_string(), value: "v".to_string() };
    let missing = ExportStep::Missing { name: "t".to_string(), path: "a.b".to_string() };
    assert_eq!(
        pieces(&line_of_export(&store)),
        [
            (Tone::MagentaBold, "State:"),
            (Tone::Plain, " Exported "),
            (Tone::Yellow, "t"),
            (Tone::Plain, " = "),
            (Tone::Cyan, "v"),
        ]
    );
    assert_eq!(
        pieces(&line_of_export(&missing)),
        [
            (Tone::YellowBold, "Warning:"),
            (Tone::Plain, " Failed to export t: path 'a.b' not found in response"),
        ]
    );
    assert!(line_of_export(&ExportStep::Skipped).is_empty());
    assert_eq!(pieces(&line_of_error("no")), [(Tone::RedBold, "Error:"), (Tone::Plain, " no")]);
}

const BODY: &str = r#"{"token":"abc","user":{"id":7,"ok":true,"no":null,"tags":["x","y"],"a/b":{"~c":1.50}},"":{"":"e"}}"#;

fn found(path: &str) -> Option<String> {
    resolve_json_path(BODY, path).map(node_text)
}

#[test]
fn paths_lead_to_values() {
    assert_eq!(found("token"), some("abc"));
    assert_eq!(found("/token"), some("abc"));
    assert_eq!(found("user.id"), some("7"));
    assert_eq!(found("/user/id"), some("7"));
    assert_eq!(found("user.ok"), some("true"));
    assert_eq!(found("user.no"), some("null"));
    assert_eq!(found("user.tags"), some("[\"x\",\"y\"]"));
    assert_eq!(found("/user/tags/1"), some("y"));
    assert_eq!(found("user.tags.1"), None);
    assert_eq!(found("user.a/b.~c"), some("1.5"));
    assert_eq!(found("/user/a~1b/~0c"), some("1.5"));
    assert_eq!(found("user.a/b"), some("{\"~c\":1.5}"));
    assert_eq!(found(""), some("{\"\":\"e\"}"));
    assert_eq!(found("."), some("e"));
    assert_eq!(found("user.missing"), None);
    assert_eq!(found("token.x"), None);
    assert_eq!(found("/"), some("{\"\":\"e\"}"));
    assert!(resolve_json_path("no json", "a").is_none());
    assert!(resolve_json_path("[1]", "0").is_none());
    assert!(resolve_json_path("[false]", "/0").is_some_and(|v| node_text(v) == "false"));
}

#[test]
fn members_are_those_of_objects() {
    let object = Some(JsonNode::Object("{}".to_string()));
    assert_eq!(member_pointer("/a", &object, "b~/c"), some("/a/b~0~1c"));
    assert_eq!(member_pointer("/a", &Some(JsonNode::Array("[]".to_string())), "0"), None);
    assert_eq!(member_pointer("/a", &None, "b"), None);
}

#[test]
fn exports_become_steps() {
    let list = rows(&[("a", "token"), ("b", "nope")]);
    let steps = export_steps(BODY, &list);
    assert_eq!(steps.len(), 2);
    assert!(matches!(&steps[0], ExportStep::Store { name, value } if name == "a" && value == "abc"));
    assert!(matches!(&steps[1], ExportStep::Missing { name, path } if name == "b" && path == "nope"));
    assert!(all_export_steps(BODY, &None).is_empty());
    assert!(all_export_steps(BODY, &Some(vec![])).is_empty());
    assert!(matches!(all_export_steps("<html>", &Some(list))[..], [ExportStep::Skipped]));
    let set = export_step("n", "p", Some(JsonNode::Number("5".to_string())));
    assert!(matches!(set, ExportStep::Store { value, .. } if value == "5"));
}

fn store(name: &str, value: &str) -> ExportStep {
    ExportStep::Store { name: name.to_string(), value: value.to_string() }
}

#[test]
fn exported_values_are_stored_in_order() {
    let m = EnvManager::new(true, None);
    let steps = vec![store("a", "1"), ExportStep::Skipped, store("b", "2"), store("a", "3")];
    let (updates, files) = m.store_exports(EnvFiles { active: None, content: None }, &steps);
    assert_eq!(updates.len(), 4);
    assert!(updates[1].is_none());
    assert_eq!(updates[0].as_ref().unwrap().writes.len(), 3);
    assert_eq!(updates[2].as_ref().unwrap().writes.len(), 1);
    assert_eq!(files.active, some("default"));
    assert_eq!(m.load_env(&files.content).ok().unwrap(), rows(&[("a", "3"), ("b", "2")]));
    assert_eq!(updates[3].as_ref().unwrap().writes[0].text, files.content.unwrap());
}

#[test]
fn stored_exports_keep_other_variables() {
    let m = EnvManager::new(true, None);
    let files = EnvFiles { active: some("dev"), content: some("x: y\na: old\n") };
    let (_, after) = m.store_exports(files, &vec![store("a", "new")]);
    assert_eq!(after.active, some("dev"));
    assert_eq!(m.load_env(&after.content).ok().unwrap(), rows(&[("a", "new"), ("x", "y")]));
}

#[test]
fn exports_into_a_broken_file_fail_one_by_one() {
    let m = EnvManager::new(true, None);
    let files = EnvFiles { active: None, content: some("[") };
    let (updates, after) = m.store_exports(files, &vec![store("a", "1"), store("b", "2")]);
    assert!(updates.iter().all(|u| matches!(u.as_ref().unwrap().outcome, Err(EnvError::Parse))));
    assert_eq!(updates[0].as_ref().unwrap().writes.len(), 1);
    assert_eq!(updates[1].as_ref().unwrap().writes.len(), 0);
    assert_eq!((after.active, after.content), (some("default"), some("[")));
}

#[test]
fn a_later_header_replaces_one_of_the_same_name() {
    let req = RequestFile {
        headers: Some(rows(&[("A", "1"), ("b", "2"), ("a", "3")])),
        ..request("GET")
    };
    let o = runner().run_request(req).ok().unwrap();
    assert_eq!(o.headers, rows(&[("a", "3"), ("b", "2")]));
}

#[test]
fn tasks_send_headers_as_they_are() {
    let req = RequestFile {
        headers: Some(rows(&[("X-A b", "v")])),
        body: Some(RequestBody::Yaml("- 1\n- a: b".to_string())),
        ..request("post")
    };
    let o = task_request(&req).ok().unwrap();
    assert_eq!(o.method, "POST");
    assert_eq!(o.headers, rows(&[("X-A b", "v")]));
    assert!(matches!(o.body, Some(OutgoingBody::Json(s)) if s == "[1,{\"a\":\"b\"}]"));
    assert_eq!(task_request(&request("a b")).err().unwrap(), "invalid HTTP method");
    let key = RequestFile { body: Some(RequestBody::Yaml("[1, 2]: x".to_string())), ..request("GET") };
    assert!(task_request(&key).is_err());
    let failed = plan_task(&key, "GET", Err("why".to_string()));
    assert_eq!(failed.err().unwrap(), "why");
    let text = RequestFile { body: Some(RequestBody::Text("t".to_string())), ..request("GET") };
    assert!(matches!(task_request(&text).ok().unwrap().body, Some(OutgoingBody::Raw(s)) if s == "t"));
}

#[test]
fn export_logs() {
    let store = ExportStep::Store { name: "t".to_string(), value: "v".to_string() };
    let missing = ExportStep::Missing { name: "t".to_string(), path: "a.b".to_string() };
    assert_eq!(log_of_export(&store, &Ok(())), "  Exported t = v");
    assert_eq!(log_of_export(&store, &Err("disk".to_string())), "  Failed to export t: disk");
    assert_eq!(
        log_of_export(&missing, &Ok(())),
        "  Failed to export t: path 'a.b' not found in response"
    );
    assert_eq!(
        log_of_export(&ExportStep::Skipped, &Ok(())),
        "  Skipped: response body is not valid JSON"
    );
}

#[test]
fn finished_tasks_are_reported() {
    let req = RequestFile {
        headers: Some(rows(&[("b", "2"), ("a", "1")])),
        exports: Some(rows(&[("t", "x")])),
        body: Some(RequestBody::Text("hi".to_string())),
        ..request("post")
    };
    let res = response("{\"x\":1}", "text/plain");
    assert!(matches!(task_exports(&req, &res)[..], [ExportStep::Store { .. }]));
    let report = task_report(&req, &res, &texts(&["  Exported t = 1", "  more"]));
    assert_eq!(report.status, "Status: 200 OK - 1.5ms");
    assert_eq!((report.method.as_str(), report.url.as_str()), ("POST", "http://x/y"));
    assert_eq!(
        report.response,
        "=== Request ===\n* Method: POST\n* URL: http://x/y\n* Query:\n  None\n* Headers:\n  a: 1\n  b: 2\n* Body:\n\"hi\"\n\n=== Response ===\n* Status: 200 OK\n* Duration: 1.5ms\n* Headers:\nx-bin: <binary>\ncontent-type: text/plain\n* Body:\n{\n  \"x\": 1\n}\n\n=== Exports ===\n  Exported t = 1\n  more"
    );
}

#[test]
fn reports_without_exports_have_no_section() {
    let res = response("text", "text/plain");
    let bare = task_report(&request("get"), &res, &vec![]);
    assert!(bare.response.ends_with("* Body:\ntext"));
    assert!(bare.response.contains("* Body:\n  None\n\n=== Response ==="));
    let empty = RequestFile { exports: Some(vec![]), ..request("get") };
    assert!(task_report(&empty, &res, &vec![]).response.ends_with("\n\n=== Exports ===\n  None"));
    assert!(matches!(task_exports(&empty, &res)[..], [ExportStep::Skipped]));
    assert_eq!(formatted_body(None, "x"), "x");
    assert_eq!(formatted_body(some("y"), "x"), "y");
}

#[test]
fn failed_tasks_are_reported() {
    let r = failed_report("no route");
    assert_eq!(
        (r.status.as_str(), r.response.as_str(), r.method.as_str(), r.url.as_str()),
        ("Request Failed", "Error: no route", "?", "?")
    );
}

fn args() -> InlineRequest {
    InlineRequest {
        url: "http://{{host}}/".to_string(),
        method: None,
        headers: vec![],
        data: None,
        exports: vec![],
    }
}

#[test]
fn arguments_give_a_request() {
    let m = EnvManager::new(true, None);
    let vars = rows(&[("host", "h"), ("t", "x: y")]);
    let req = m
        .inline_request(
            &InlineRequest {
                method: some("patch"),
                headers: texts(&["A: 1", " B :{{t}}", "A:2"]),
                data: some("{\"k\": \"{{host}}\"}"),
                exports: texts(&["tok = data.tok", "u=a=b"]),
                ..args()
            },
            &vars,
        )
        .ok()
        .unwrap();
    assert_eq!((req.method.as_str(), req.url.as_str()), ("PATCH", "http://h/"));
    assert_eq!(req.headers, Some(rows(&[("A", "2"), ("B", "x: y")])));
    assert!(matches!(req.body, Some(RequestBody::Yaml(y)) if y == "{\"k\": \"h\"}"));
    assert_eq!(req.exports, Some(rows(&[("tok", "data.tok"), ("u", "a=b")])));
    assert!(req.name.is_none() && req.query.is_none());
}

#[test]
fn arguments_have_defaults() {
    let m = EnvManager::new(true, None);
    let req = m.inline_request(&args(), &vec![]).ok().unwrap();
    assert_eq!((req.method.as_str(), req.url.as_str()), ("GET", "http://{{host}}/"));
    assert_eq!((req.headers, req.exports), (Some(vec![]), Some(vec![])));
    assert!(req.body.is_none());
}

#[test]
fn data_is_yaml_or_text() {
    let m = EnvManager::new(true, None);
    let body = |d: &str| m.inline_request(&InlineRequest { data: some(d), ..args() }, &vec![]).ok().unwrap().body;
    assert!(matches!(body("hello"), Some(RequestBody::Text(s)) if s == "hello"));
    assert!(matches!(body("a: b: c"), Some(RequestBody::Text(s)) if s == "a: b: c"));
    assert!(matches!(body("[1]"), Some(RequestBody::Yaml(s)) if s == "[1]"));
    assert!(matches!(body_of_data("d".to_string(), None), RequestBody::Text(s) if s == "d"));
    assert!(matches!(body_of_data("d".to_string(), Some(None)), RequestBody::Yaml(s) if s == "d"));
}

#[test]
fn faults_of_arguments() {
    let m = EnvManager::new(true, None);
    let e = m
        .inline_request(
            &InlineRequest { headers: texts(&["ok: 1", "{{bad}}"]), exports: texts(&["x"]), ..args() },
            &rows(&[("bad", "still bad")]),
        )
        .err()
        .unwrap();
    assert_eq!(e.message(), "Invalid header format: {{bad}}. Must be Key: Value");
    let e = m
        .inline_request(&InlineRequest { exports: texts(&["a=b", "x"]), ..args() }, &vec![])
        .err()
        .unwrap();
    assert_eq!(e.message(), "Invalid export format: x. Must be Key=JsonPath");
    assert_eq!(
        CliError::MissingUrl.message(),
        "Missing URL or request file (-f/--file). Run with --help for usage details."
    );
}

#[test]
fn sources_of_requests() {
    assert!(matches!(request_source(&some("f"), &some("u")), Ok(Source::File(f)) if f == "f"));
    assert!(matches!(request_source(&None, &some("u")), Ok(Source::Inline(u)) if u == "u"));
    assert!(matches!(request_source(&None, &None), Err(CliError::MissingUrl)));
    assert_eq!(unread_file("a.yaml"), "Failed to read request file: a.yaml");
    assert_eq!(env_profile(&some("x"), &some("y")), "x");
    assert_eq!(env_profile(&None, &some("y")), "y");
    assert_eq!(env_profile(&None, &None), "default");
}

#[test]
fn environment_commands_print() {
    assert_eq!(
        pieces(&set_line("k", "v", &None)),
        [
            (Tone::Plain, "Set "),
            (Tone::Cyan, "k"),
            (Tone::Plain, " = "),
            (Tone::Cyan, "v"),
            (Tone::Plain, " in environment: "),
            (Tone::Green, "default"),
        ]
    );
    assert_eq!(
        pieces(&use_line("dev")),
        [(Tone::Plain, "Switched to environment: "), (Tone::GreenBold, "dev")]
    );
    let list = list_lines(&texts(&["a", "dev"]), &some("dev"));
    assert_eq!(pieces(&list[0]), [(Tone::Bold, "Available Environments:")]);
    assert_eq!(pieces(&list[1]), [(Tone::Plain, "  a")]);
    assert_eq!(
        pieces(&list[2]),
        [(Tone::Plain, "* "), (Tone::GreenBold, "dev"), (Tone::Plain, " (active)")]
    );
    assert_eq!(
        pieces(&active_line(&some("dev"))),
        [(Tone::Plain, "Active environment: "), (Tone::GreenBold, "dev")]
    );
    assert_eq!(
        pieces(&active_line(&None)),
        [(Tone::Plain, "No active environment. Use 'rnm env use <name>' to activate one.")]
    );
    assert_eq!(pieces(&variable_lines(&vec![])[0]), [(Tone::Plain, "No variables defined.")]);
    let vars = variable_lines(&rows(&[("k", "v")]));
    assert_eq!(pieces(&vars[0]), [(Tone::Plain, "  "), (Tone::Cyan, "k"), (Tone::Plain, " = v")]);
}
