use rnm::calendar::format_unix_timestamp;
use rnm::history::{current_timestamp, now_unix, unix_of_clock, HistoryEntry, HistoryManager};
use rnm::telescope::{Telescope, TelescopeAction, TelescopeItem};

fn entry(name: &str) -> HistoryEntry {
    HistoryManager::new("c").entry_at(0, name, "GET", "u", "s", "r")
}

#[test]
fn history_file_lies_under_the_configuration_directory() {
    assert_eq!(HistoryManager::new("/c").path, "/c/history.jsonl");
}

#[test]
fn entries_hold_what_was_sent_and_received() {
    let m = HistoryManager::new("c");
    let e = m.entry_at(1_700_000_000, "a.yaml", "POST", "http://x", "200 OK", "body");
    assert_eq!(e.timestamp, "2023-11-14 22:13:20");
    assert_eq!((e.request_name.as_str(), e.method.as_str()), ("a.yaml", "POST"));
    assert_eq!((e.url.as_str(), e.status.as_str(), e.response.as_str()), ("http://x", "200 OK", "body"));
    let r = m.record("a.yaml", "POST", "http://x", "200 OK", "body");
    assert_eq!(r.timestamp.len(), 19);
    assert_eq!(r.response, "body");
}

#[test]
fn clock_gives_seconds() {
    assert!(now_unix() > 1_600_000_000);
    assert_eq!(unix_of_clock(None), 0);
    assert_eq!(unix_of_clock(Some(5)), 5);
    assert!(current_timestamp().starts_with("20"));
}

#[test]
fn blank_lines_of_the_log_are_passed_over() {
    let m = HistoryManager::new("c");
    assert_eq!(m.lines_to_parse(&None), Vec::<String>::new());
    assert_eq!(
        m.lines_to_parse(&Some("{a}\r\n\n  \n{b}\n{c}".to_string())),
        ["{a}", "{b}", "{c}"]
    );
}

#[test]
fn an_appended_line_is_read_last() {
    let m = HistoryManager::new("c");
    for before in ["", "{a}\n", "{a}\n\n"] {
        let log = format!("{before}{{new}}\n");
        assert_eq!(m.lines_to_parse(&Some(log)).last().unwrap(), "{new}");
    }
}

/// The entry that a line of the log is.
fn read(line: &String) -> Option<HistoryEntry> {
    let object: serde_json::Value = serde_json::from_str(line).ok()?;
    let field = |name: &str| object.get(name).and_then(|v| v.as_str()).map(|s| s.to_string());
    Some(HistoryEntry {
        timestamp: field("timestamp")?,
        request_name: field("request_name")?,
        method: field("method")?,
        url: field("url")?,
        status: field("status")?,
        response: field("response")?,
    })
}

#[test]
fn an_entry_is_one_line_of_json() {
    let m = HistoryManager::new("c");
    let e = m.entry_at(0, "a \"b\"", "GET", "http://x", "200 OK", "1\n2\r\n\u{e9}");
    assert_eq!(
        m.line_of(&e),
        "{\"timestamp\":\"1970-01-01 00:00:00\",\"request_name\":\"a \\\"b\\\"\",\"method\":\"GET\",\
         \"url\":\"http://x\",\"status\":\"200 OK\",\"response\":\"1\\n2\\r\\n\u{e9}\"}"
    );
}

#[test]
fn a_recorded_entry_is_read_back_last() {
    let m = HistoryManager::new("c");
    let new = m.entry_at(7, "n", "POST", "u", "500", "a\nb\r\n \u{2028}\u{0}\\\"");
    let first = m.line_of(&entry("a"));
    for before in ["".to_string(), format!("{first}\n"), format!("{first}\nno entry\n\n")] {
        let load = |log: &str| {
            let lines = m.lines_to_parse(&Some(log.to_string()));
            m.load_all(lines.iter().map(read).collect())
        };
        let old = load(&before);
        let all = load(&format!("{before}{}\n", m.line_of(&new)));
        assert_eq!(all.len(), old.len() + 1);
        let last = all.last().unwrap();
        assert_eq!(
            [&last.timestamp, &last.request_name, &last.method, &last.url, &last.status],
            [&new.timestamp, &new.request_name, &new.method, &new.url, &new.status]
        );
        assert_eq!(last.response, new.response);
    }
}

#[test]
fn timestamps_are_in_order() {
    let seconds = [0, 1, 59, 60, 3599, 3600, 86399, 86400, 2678399, 951782399, 951782400, 253402300799];
    let texts: Vec<String> = seconds.iter().map(|s| format_unix_timestamp(*s)).collect();
    for pair in texts.windows(2) {
        assert!(pair[0] < pair[1] && pair[1].len() == 19, "{pair:?}");
    }
    assert_eq!(texts[11], "9999-12-31 23:59:59");
    assert_eq!(format_unix_timestamp(253402300800), "10000-01-01 00:00:00");
}

#[test]
fn lines_that_are_no_entries_are_left_out() {
    let m = HistoryManager::new("c");
    let loaded = m.load_all(vec![Some(entry("a")), None, Some(entry("b"))]);
    let names: Vec<&str> = loaded.iter().map(|e| e.request_name.as_str()).collect();
    assert_eq!(names, ["a", "b"]);
}

fn picker(names: &[&str]) -> Telescope {
    let mut t = Telescope::default();
    assert!(!t.active);
    let items = names
        .iter()
        .map(|n| TelescopeItem::new(n.to_string(), TelescopeAction::OpenFile(n.to_string())))
        .collect();
    t.open("Files".to_string(), items);
    t
}

fn shown(t: &Telescope) -> Vec<String> {
    t.filtered().iter().map(|i| i.display.clone()).collect()
}

#[test]
fn picker_opens_with_everything_and_the_first_selected() {
    let t = picker(&["a", "b"]);
    assert!(t.active);
    assert_eq!((t.title.as_str(), t.query.as_str(), t.selected), ("Files", "", 0));
    assert_eq!(shown(&t), ["a", "b"]);
}

#[test]
fn query_filters_without_regard_to_case() {
    let mut t = picker(&["Login.yaml", "users.yaml", "LOGOUT.yaml"]);
    for c in "LoG".chars() {
        t.push_char(c);
    }
    assert_eq!(shown(&t), ["Login.yaml", "LOGOUT.yaml"]);
    t.backspace();
    assert_eq!(t.query, "Lo");
    t.clear_query();
    assert_eq!(shown(&t).len(), 3);
    t.backspace();
    assert_eq!(t.query, "");
}

#[test]
fn the_case_of_a_query_does_not_matter() {
    for query in ["login", "LOGIN", "lOgIn"] {
        let mut t = picker(&["x/Login.yaml", "y"]);
        for c in query.chars() {
            t.push_char(c);
        }
        assert_eq!(shown(&t), ["x/Login.yaml"]);
    }
}

#[test]
fn query_matches_beyond_ascii() {
    let mut t = picker(&["\u{c9}t\u{c9}.yaml", "other.yaml"]);
    t.push_char('\u{e9}');
    assert_eq!(shown(&t), ["\u{c9}t\u{c9}.yaml"]);
}

#[test]
fn selection_stays_on_the_list() {
    let mut t = picker(&["a", "b", "ab"]);
    t.move_up();
    assert_eq!(t.selected, 0);
    t.move_down();
    t.move_down();
    t.move_down();
    assert_eq!(t.selected, 2);
    t.move_up();
    assert_eq!(t.selected, 1);
    t.push_char('a');
    assert_eq!(t.selected, 0);
    t.move_down();
    assert!(matches!(t.confirm(), Some(TelescopeAction::OpenFile(p)) if p == "ab"));
    assert!(!t.active);
}

#[test]
fn nothing_is_picked_where_nothing_matches() {
    let mut t = picker(&["a"]);
    t.push_char('x');
    assert!(t.active);
    assert!(t.confirm().is_none());
    assert!(!t.active);
    assert_eq!(t.query, "x");
}
