use rnm::diff::{diff_rows, DiffKind};
use rnm::grid::{GridCol, GridEditState, GridSection};
use rnm::grid_file::body_to_save;
use rnm::grid_keys::GridOutcome;
use rnm::keys::{Key, KeyCode};
use rnm::request::{body_of_reading, body_of_yaml, RequestBody, RequestFile};
use rnm::undo::{Stamp, UndoNode};
use rnm::undo_graph::{build_undo_tree_graph_lines, relative_time};

fn rows(list: &[(&str, &str)]) -> Vec<(String, String)> {
    list.iter().map(|(k, v)| (k.to_string(), v.to_string())).collect()
}

fn stamp(at: u64) -> Stamp {
    Stamp { timestamp: format!("t{at}"), created_at: at }
}

fn request() -> RequestFile {
    RequestFile {
        name: Some("Login".to_string()),
        method: "post".to_string(),
        url: "http://{{host}}/login".to_string(),
        headers: Some(rows(&[("X-B", "2"), ("Accept", "{{type}}")])),
        query: Some(rows(&[("q", "1")])),
        body: Some(RequestBody::Text("hello".to_string())),
        exports: Some(rows(&[("token", "data.token")])),
    }
}

fn editor() -> GridEditState {
    GridEditState::open("dir/login.yaml".to_string(), request(), stamp(0))
}

fn plain(c: char) -> Key {
    Key { code: KeyCode::Char(c), ctrl: false }
}

fn ctrl(c: char) -> Key {
    Key { code: KeyCode::Char(c), ctrl: true }
}

fn code(code: KeyCode) -> Key {
    Key { code, ctrl: false }
}

fn press(e: &mut GridEditState, key: Key) -> GridOutcome {
    e.handle_key(key, stamp(1))
}

fn type_text(e: &mut GridEditState, text: &str) {
    for c in text.chars() {
        let out = press(e, plain(c));
        assert!(!out.changed && !out.exit);
    }
}

#[test]
fn opening_sorts_the_rows_and_records_the_first_state() {
    let e = editor();
    assert_eq!(e.query_rows, rows(&[("q", "1")]));
    assert_eq!(e.header_rows, rows(&[("Accept", "{{type}}"), ("X-B", "2")]));
    assert_eq!(e.body_text, "\"hello\"");
    assert!(e.section == GridSection::Query && e.col == GridCol::Key && e.row == 0);
    assert_eq!(e.undo_nodes.len(), 1);
    assert_eq!(e.undo_nodes[0].label, "Initial");
    assert_eq!(e.undo_nodes[0].timestamp, "t0");
}

#[test]
fn opening_and_saving_changes_nothing() {
    let file = editor().to_save();
    assert_eq!(file.name.as_deref(), Some("Login"));
    assert_eq!((file.method.as_str(), file.url.as_str()), ("post", "http://{{host}}/login"));
    assert_eq!(file.query, Some(rows(&[("q", "1")])));
    assert_eq!(file.headers, Some(rows(&[("Accept", "{{type}}"), ("X-B", "2")])));
    assert!(matches!(file.body, Some(RequestBody::Text(s)) if s == "hello"));
    assert_eq!(file.exports, Some(rows(&[("token", "data.token")])));
}

#[test]
fn every_short_body_comes_back_from_the_editor() {
    let printable: Vec<char> = (' '..='~').collect();
    let mut texts: Vec<String> = printable.iter().map(|c| c.to_string()).collect();
    texts.push(String::new());
    for a in &printable {
        for b in ['a', ' ', ':', '#', '-', '"', '\'', '\\', '{', '0', '.'] {
            texts.push(format!("{a}{b}"));
            texts.push(format!("{b}{a}"));
            texts.push(format!("{a}{b}{a}"));
        }
    }
    for t in ["---", "...", "true", "null", "~", "1.5", "- x", "a: b", "a #b", "<<", "%YAML", "{{x}}"] {
        texts.push(t.to_string());
    }
    for t in texts {
        let original = RequestFile { body: Some(RequestBody::Text(t.clone())), ..request() };
        let saved = GridEditState::open("p".to_string(), original, stamp(0)).to_save();
        assert!(matches!(&saved.body, Some(RequestBody::Text(s)) if *s == t), "{t:?}");
    }
}

#[test]
fn structured_bodies_are_shown_as_json_and_saved_as_yaml() {
    let original = RequestFile {
        body: Some(RequestBody::Yaml("user:\n  id: 7\n".to_string())),
        headers: None,
        query: None,
        ..request()
    };
    let e = GridEditState::open("p".to_string(), original, stamp(0));
    assert_eq!(e.body_text, "{\n  \"user\": {\n    \"id\": 7\n  }\n}");
    let saved = e.to_save();
    assert!(matches!(&saved.body, Some(RequestBody::Yaml(y)) if y == "user:\n  id: 7\n"));
    assert!(saved.headers.is_none() && saved.query.is_none());
}

#[test]
fn bodies_are_saved_by_what_they_are() {
    assert!(body_to_save(" \n", None).is_none());
    assert!(matches!(body_to_save(" no json ", None), Some(RequestBody::Text(s)) if s == " no json "));
    assert!(matches!(body_to_save("x", Some("- 1\n".to_string())), Some(RequestBody::Yaml(y)) if y == "- 1\n"));
    assert!(matches!(body_to_save("x", Some("abc\n".to_string())), Some(RequestBody::Text(s)) if s == "abc"));
    assert!(matches!(body_of_yaml("[1, 2]"), Some(RequestBody::Yaml(_))));
    assert!(matches!(body_of_yaml("'quoted'"), Some(RequestBody::Text(s)) if s == "quoted"));
    assert!(body_of_yaml("[1, 2").is_none());
    assert!(body_of_reading("x", None).is_none());
}

#[test]
fn bodies_are_shown() {
    assert_eq!(RequestBody::Text("a\"b".to_string()).shown(), "\"a\\\"b\"");
    assert_eq!(RequestBody::Yaml("[1]".to_string()).shown(), "[\n  1\n]");
    assert_eq!(RequestBody::Yaml("[1".to_string()).shown(), "[1");
}

#[test]
fn editing_a_cell_commits_and_labels_it() {
    let mut e = editor();
    press(&mut e, code(KeyCode::Right));
    press(&mut e, code(KeyCode::Enter));
    assert_eq!(e.editing_text.as_deref(), Some("1"));
    press(&mut e, code(KeyCode::Backspace));
    type_text(&mut e, "42");
    let out = e.handle_key(code(KeyCode::Enter), stamp(9));
    assert!(out.changed && !out.exit);
    assert_eq!(e.query_rows, rows(&[("q", "42")]));
    assert_eq!(e.undo_nodes.len(), 2);
    assert_eq!(e.undo_nodes[1].label, "Query q.value: '1' \u{2192} '42'");
    assert_eq!((e.undo_nodes[1].timestamp.as_str(), e.undo_nodes[1].created_at), ("t9", 9));
    assert_eq!(e.undo_nodes[1].parent, Some(0));
    assert_eq!(e.undo_nodes[0].children, [1]);
    assert_eq!(e.undo_current, 1);
}

#[test]
fn ctrl_u_clears_and_esc_cancels() {
    let mut e = editor();
    press(&mut e, plain('i'));
    press(&mut e, ctrl('u'));
    assert_eq!(e.editing_text.as_deref(), Some(""));
    press(&mut e, ctrl('x'));
    assert_eq!(e.editing_text.as_deref(), Some(""));
    press(&mut e, code(KeyCode::Esc));
    assert!(e.editing_text.is_none());
    assert_eq!(e.query_rows, rows(&[("q", "1")]));
    assert_eq!(e.undo_nodes.len(), 1);
}

#[test]
fn an_added_row_without_a_key_is_not_saved() {
    let mut e = editor();
    let out = press(&mut e, plain('a'));
    assert!(!out.changed);
    assert_eq!(e.row, 1);
    press(&mut e, code(KeyCode::Esc));
    assert_eq!(e.query_rows.len(), 2);
    assert_eq!(e.to_save().query, Some(rows(&[("q", "1")])));
}

#[test]
fn deleting_rows_moves_the_cursor_up() {
    let mut e = editor();
    press(&mut e, code(KeyCode::Tab));
    press(&mut e, plain('j'));
    press(&mut e, plain('j'));
    assert_eq!(e.row, 1);
    assert!(press(&mut e, plain('d')).changed);
    assert_eq!(e.undo_nodes[1].label, "Headers delete X-B (was '2')");
    assert_eq!(e.row, 0);
    assert!(press(&mut e, plain('d')).changed);
    assert!(!press(&mut e, plain('d')).changed);
    assert!(e.to_save().headers.is_none());
}

#[test]
fn body_is_edited_over_lines_and_committed_with_ctrl_d() {
    let mut e = editor();
    press(&mut e, code(KeyCode::Tab));
    press(&mut e, code(KeyCode::Tab));
    assert!(e.section == GridSection::Body);
    assert!(!press(&mut e, plain('a')).changed);
    press(&mut e, code(KeyCode::Enter));
    press(&mut e, ctrl('u'));
    type_text(&mut e, "{\"a\":");
    assert!(!press(&mut e, code(KeyCode::Enter)).changed);
    type_text(&mut e, "1}");
    assert!(press(&mut e, ctrl('d')).changed);
    assert_eq!(e.body_text, "{\"a\":\n1}");
    assert_eq!(e.undo_nodes[1].label, "Body edited (7 \u{2192} 8 chars)");
    assert!(matches!(e.to_save().body, Some(RequestBody::Yaml(y)) if y == "a: 1\n"));
}

fn set_value(e: &mut GridEditState, text: &str) {
    press(e, code(KeyCode::Right));
    press(e, plain('i'));
    press(e, ctrl('u'));
    type_text(e, text);
    assert!(press(e, code(KeyCode::Enter)).changed);
}

#[test]
fn undo_and_redo_give_states_back() {
    let mut e = editor();
    set_value(&mut e, "2");
    set_value(&mut e, "3");
    assert!(press(&mut e, ctrl('z')).changed);
    assert_eq!(e.query_rows, rows(&[("q", "2")]));
    assert!(press(&mut e, ctrl('z')).changed);
    assert_eq!(e.query_rows, rows(&[("q", "1")]));
    assert!(!press(&mut e, ctrl('z')).changed);
    assert!(press(&mut e, ctrl('y')).changed);
    assert!(press(&mut e, ctrl('_')).changed);
    assert_eq!(e.query_rows, rows(&[("q", "3")]));
    assert!(!press(&mut e, ctrl('-')).changed);
    assert!(!press(&mut e, ctrl('7')).changed);
}

#[test]
fn an_undone_branch_stays_reachable() {
    let mut e = editor();
    set_value(&mut e, "2");
    press(&mut e, ctrl('z'));
    set_value(&mut e, "3");
    assert_eq!(e.undo_nodes.len(), 3);
    assert_eq!(e.undo_nodes[0].children, [1, 2]);
    press(&mut e, plain('u'));
    assert!(e.undo_tree_active);
    assert_eq!(e.undo_tree_selected, 2);
    press(&mut e, code(KeyCode::Up));
    assert_eq!(e.undo_tree_selected, 2);
    press(&mut e, ctrl('n'));
    assert_eq!(e.undo_tree_selected, 1);
    assert!(press(&mut e, code(KeyCode::Enter)).changed);
    assert!(!e.undo_tree_active);
    assert_eq!(e.query_rows, rows(&[("q", "2")]));
    press(&mut e, ctrl('z'));
    press(&mut e, ctrl('y'));
    assert_eq!(e.query_rows, rows(&[("q", "3")]));
}

#[test]
fn leaving_the_editor() {
    let mut e = editor();
    let out = press(&mut e, code(KeyCode::Esc));
    assert!(out.exit && !out.changed);
    press(&mut e, plain('u'));
    assert!(!press(&mut e, plain('q')).exit);
    assert!(!e.undo_tree_active);
}

#[test]
fn committing_by_the_clock() {
    let mut e = editor();
    e.set_focused_value("k".to_string());
    assert_eq!(e.focused_value(), "k");
    e.commit("by hand".to_string());
    assert_eq!(e.undo_nodes[1].label, "by hand");
    assert!(e.undo_nodes[1].created_at > 0);
    assert!(e.jump_to(0));
    assert!(!e.jump_to(0));
    assert!(!e.jump_to(7));
    assert_eq!(e.query_rows, rows(&[("q", "1")]));
}

#[test]
fn times_are_told_in_the_largest_unit() {
    for (ago, text) in [
        (0, "just now"), (4, "just now"), (5, "5s ago"), (59, "59s ago"), (60, "1m ago"),
        (3599, "59m ago"), (3600, "1h ago"), (86399, "23h ago"), (86400, "1d ago"),
        (864000, "10d ago"),
    ] {
        assert_eq!(relative_time(1000, 1000 + ago), text);
    }
    assert_eq!(relative_time(1000, 10), "just now");
}

fn lines(nodes: &Vec<UndoNode>, current: usize) -> Vec<(Option<usize>, String)> {
    build_undo_tree_graph_lines(nodes, current, 1)
}

#[test]
fn a_straight_history_is_one_column() {
    let mut e = editor();
    set_value(&mut e, "2");
    let drawn = lines(&e.undo_nodes, e.undo_current);
    assert_eq!(drawn.len(), 2);
    assert_eq!(drawn[0], (Some(1), "\u{25cf} Query q.value: '1' \u{2192} '2' (just now)  t1".to_string()));
    assert_eq!(drawn[1], (Some(0), "\u{25cb} Initial (just now)  t0".to_string()));
    assert!(lines(&Vec::new(), 0).is_empty());
}

#[test]
fn branches_have_columns_of_their_own() {
    let mut e = editor();
    set_value(&mut e, "2");
    press(&mut e, ctrl('z'));
    set_value(&mut e, "3");
    e.jump_to(1);
    set_value(&mut e, "4");
    e.jump_to(0);
    set_value(&mut e, "5");
    let cells: Vec<(Option<usize>, String)> = lines(&e.undo_nodes, 4)
        .into_iter()
        .map(|(id, l)| (id, l.chars().take(6).collect()))
        .collect();
    let expected = [
        (Some(4), "    \u{25cf} "),
        (None, "    / "),
        (Some(3), "\u{25cb}     "),
        (Some(2), "\u{2502} \u{25cb}   "),
        (None, "\u{2502} /   "),
        (Some(1), "\u{25cb}     "),
        (Some(0), "\u{25cb}     "),
    ];
    assert_eq!(cells.len(), expected.len());
    for (got, want) in cells.iter().zip(expected) {
        assert_eq!((got.0, got.1.as_str()), want);
    }
    let root = lines(&e.undo_nodes, 4).pop().unwrap().1;
    assert!(root.ends_with("Initial (just now)  t0 (3 branches)"));
}

fn diff_text(a: &[(&str, &str)], b: &[(&str, &str)]) -> Vec<(DiffKind, String)> {
    diff_rows(&rows(a), &rows(b))
}

#[test]
fn differences_are_listed_by_key() {
    let d = diff_text(
        &[("same", "1"), ("gone", "x"), ("changed", "a")],
        &[("changed", "b"), ("added", "n"), ("same", "1")],
    );
    assert_eq!(
        d,
        [
            (DiffKind::Added, "+ added: n".to_string()),
            (DiffKind::Changed, "~ changed: a \u{2192} b".to_string()),
            (DiffKind::Removed, "- gone: x".to_string()),
        ]
    );
}

#[test]
fn equal_rows_do_not_differ() {
    assert!(diff_text(&[("a", "1"), ("b", "2")], &[("b", "2"), ("a", "1")]).is_empty());
    assert!(diff_text(&[("a", "0"), ("a", "1")], &[("a", "1")]).is_empty());
    assert_eq!(diff_text(&[], &[("", "")]), [(DiffKind::Added, "+ : ".to_string())]);
}

#[test]
fn exchanged_lists_have_mirrored_differences() {
    let a = rows(&[("k", "1"), ("same", "0"), ("gone", "2"), ("k", "3")]);
    let b = rows(&[("new", "4"), ("k", "5"), ("same", "0")]);
    let there: Vec<(DiffKind, String)> = diff_rows(&a, &b);
    let back: Vec<(DiffKind, String)> = diff_rows(&b, &a);
    assert_eq!(
        there,
        [
            (DiffKind::Removed, "- gone: 2".to_string()),
            (DiffKind::Changed, "~ k: 3 \u{2192} 5".to_string()),
            (DiffKind::Added, "+ new: 4".to_string()),
        ]
    );
    assert_eq!(
        back,
        [
            (DiffKind::Added, "+ gone: 2".to_string()),
            (DiffKind::Changed, "~ k: 5 \u{2192} 3".to_string()),
            (DiffKind::Removed, "- new: 4".to_string()),
        ]
    );
}
