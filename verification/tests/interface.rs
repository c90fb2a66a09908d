use rnm::env::EnvManager;
use rnm::grid::{GridCol, GridSection};
use rnm::history::{HistoryEntry, HistoryManager};
use rnm::keys::{Key, KeyCode};
use rnm::popups::HELP_TEXT;
use rnm::preview::{head_text, preview_request, PreviewData};
use rnm::request::{RequestBody, RequestFile};
use rnm::screen::{
    centered_percentages, height_of_grid, height_of_text, render_kv_table, row_of_buffer, Focus,
    Screen, NO_BUFFERS,
};
use rnm::styled::{Piece, Tone};
use rnm::tui::{
    find_path, has_hidden_name, has_request_name, has_request_text, is_request_file, Action,
    ActivePanel, TuiApp,
};
use rnm::undo::Stamp;

fn rows(list: &[(&str, &str)]) -> Vec<(String, String)> {
    list.iter().map(|(k, v)| (k.to_string(), v.to_string())).collect()
}

fn texts(list: &[&str]) -> Vec<String> {
    list.iter().map(|s| s.to_string()).collect()
}

fn pieces(line: &Vec<Piece>) -> Vec<(Tone, &str)> {
    line.iter().map(|p| (p.tone, p.text.as_str())).collect()
}

fn stamp() -> Stamp {
    Stamp { timestamp: "t".to_string(), created_at: 100 }
}

fn app(buffers: &[&str]) -> TuiApp {
    TuiApp::new(EnvManager::new(false, Some("/c".to_string())), texts(buffers), texts(&["dev"]))
}

fn key(c: char) -> Key {
    Key { code: KeyCode::Char(c), ctrl: false }
}

fn ctrl(c: char) -> Key {
    Key { code: KeyCode::Char(c), ctrl: true }
}

fn code(code: KeyCode) -> Key {
    Key { code, ctrl: false }
}

fn press(a: &mut TuiApp, k: Key) -> Action {
    a.handle_key(k, stamp())
}

fn idle(a: &mut TuiApp, k: Key) {
    assert!(matches!(press(a, k), Action::Nothing));
}

fn request() -> RequestFile {
    RequestFile {
        name: None,
        method: "get".to_string(),
        url: "http://x".to_string(),
        headers: Some(rows(&[("b", "2"), ("a", "1")])),
        query: Some(rows(&[("q", "1")])),
        body: None,
        exports: None,
    }
}

fn entry(url: &str) -> HistoryEntry {
    HistoryManager::new("c").entry_at(0, "r", "GET", url, "200 OK", "answer")
}

fn no_preview() -> PreviewData {
    PreviewData {
        top: String::new(),
        query_rows: vec![],
        header_rows: vec![],
        body_text: String::new(),
        raw_file: String::new(),
    }
}

fn draw(a: &TuiApp) -> Screen {
    a.ui(&None, &vec![], &no_preview(), 100)
}

#[test]
fn a_new_interface_shows_its_first_buffer() {
    let a = app(&["./a.yaml", "./b.yaml"]);
    assert_eq!(a.current_buffer().as_deref(), Some("./a.yaml"));
    assert_eq!(a.history_manager.path, "/c/history.jsonl");
    assert!(a.selected_panel == ActivePanel::Preview);
    assert_eq!(app(&[]).current_buffer(), None);
}

#[test]
fn request_files_are_told_by_name_and_text() {
    assert!(has_request_name("x/a.yaml") && has_request_name("a.yml"));
    assert!(!has_request_name("a.json") && !has_request_name(".yaml") && !has_request_name("yaml"));
    assert!(has_request_text("method: GET\nurl: x") && !has_request_text("method: GET"));
    assert!(!has_request_text("url: x"));
    assert!(is_request_file("a.yml", &Some("method: url:".to_string())));
    assert!(!is_request_file("a.yml", &None));
    assert!(!is_request_file("a.txt", &Some("method: url:".to_string())));
    assert!(has_hidden_name("./.git") && !has_hidden_name("./git") && !has_hidden_name(".."));
}

#[test]
fn tab_cycles_through_the_panels() {
    let mut a = app(&[]);
    idle(&mut a, code(KeyCode::Tab));
    assert!(a.selected_panel == ActivePanel::Environments);
    idle(&mut a, code(KeyCode::Tab));
    assert!(a.selected_panel == ActivePanel::Response);
    idle(&mut a, code(KeyCode::Tab));
    assert!(a.selected_panel == ActivePanel::Preview);
}

#[test]
fn ctrl_moves_the_focus_and_remembers_the_left_panel() {
    let mut a = app(&[]);
    idle(&mut a, ctrl('j'));
    assert!(a.selected_panel == ActivePanel::Environments);
    idle(&mut a, ctrl('l'));
    assert!(a.selected_panel == ActivePanel::Response);
    idle(&mut a, ctrl('k'));
    assert!(a.selected_panel == ActivePanel::Response);
    idle(&mut a, ctrl('h'));
    assert!(a.selected_panel == ActivePanel::Environments);
    idle(&mut a, ctrl('k'));
    assert!(a.selected_panel == ActivePanel::Preview);
    idle(&mut a, code(KeyCode::Right));
    assert!(a.selected_panel == ActivePanel::Response);
    idle(&mut a, key('h'));
    assert!(a.selected_panel == ActivePanel::Preview);
}

#[test]
fn letters_and_arrows_switch_to_the_response_and_back_only() {
    let mut a = app(&[]);
    for left in [key('h'), code(KeyCode::Left)] {
        idle(&mut a, ctrl('j'));
        idle(&mut a, left);
        assert!(a.selected_panel == ActivePanel::Environments);
    }
    idle(&mut a, key('l'));
    assert!(a.selected_panel == ActivePanel::Response);
    idle(&mut a, code(KeyCode::Left));
    assert!(a.selected_panel == ActivePanel::Preview);
    idle(&mut a, key('h'));
    assert!(a.selected_panel == ActivePanel::Preview);
}

#[test]
fn enter_closes_the_picker_where_nothing_matches() {
    let mut a = app(&["a"]);
    a.open_buffer_telescope();
    idle(&mut a, key('z'));
    assert!(a.telescope.active);
    idle(&mut a, code(KeyCode::Enter));
    assert!(!a.telescope.active);
    assert_eq!(a.telescope.query, "z");
}

#[test]
fn a_new_interface_has_no_picker() {
    let a = app(&[]);
    assert!(!a.telescope.active && a.telescope.title.is_empty());
}

#[test]
fn scrolling_goes_to_the_panel_in_focus() {
    let mut a = app(&[]);
    idle(&mut a, key('j'));
    idle(&mut a, ctrl('n'));
    idle(&mut a, ctrl('p'));
    assert_eq!((a.preview_scroll, a.env_scroll, a.response_scroll), (1, 0, 0));
    idle(&mut a, code(KeyCode::Tab));
    idle(&mut a, code(KeyCode::Down));
    assert_eq!((a.preview_scroll, a.env_scroll, a.response_scroll), (1, 1, 0));
    idle(&mut a, key('k'));
    idle(&mut a, key('k'));
    assert_eq!(a.env_scroll, 0);
    a.response_scroll = u16::MAX;
    idle(&mut a, key('l'));
    idle(&mut a, key('j'));
    assert_eq!(a.response_scroll, u16::MAX);
}

#[test]
fn buffers_go_round() {
    let mut a = app(&["a", "b", "c"]);
    a.preview_scroll = 5;
    idle(&mut a, key('H'));
    assert_eq!((a.selected_buffer, a.preview_scroll), (Some(2), 0));
    idle(&mut a, key('L'));
    assert_eq!(a.selected_buffer, Some(0));
    a.move_buffer_selection(-7);
    assert_eq!(a.selected_buffer, Some(2));
    a.move_buffer_selection(i32::MAX);
    assert_eq!(a.selected_buffer, Some(((2 + i32::MAX as i64) % 3) as usize));
    a.move_buffer_selection(i32::MIN);
    let mut none = app(&[]);
    idle(&mut none, key('L'));
    assert_eq!(none.selected_buffer, None);
}

#[test]
fn closing_buffers() {
    let mut a = app(&["a", "b", "c"]);
    idle(&mut a, key('d'));
    assert_eq!(a.current_buffer().as_deref(), Some("b"));
    idle(&mut a, key('L'));
    idle(&mut a, key('d'));
    assert_eq!(a.current_buffer().as_deref(), Some("b"));
    idle(&mut a, code(KeyCode::Tab));
    idle(&mut a, key('d'));
    assert_eq!(a.buffers.len(), 1);
    idle(&mut a, ctrl('k'));
    idle(&mut a, key('d'));
    assert_eq!(a.selected_buffer, None);
    idle(&mut a, key('d'));
}

#[test]
fn files_are_picked_and_opened_once() {
    let mut a = app(&["./a.yaml"]);
    assert!(matches!(press(&mut a, key('t')), Action::PickFile));
    a.open_file_telescope(texts(&["./a.yaml", "./x//b.yaml", "./c.yaml"]));
    assert_eq!(a.telescope.title, " Telescope (Fuzzy Search *.yaml) ");
    for c in "B.Y".chars() {
        idle(&mut a, key(c));
    }
    idle(&mut a, ctrl('7'));
    assert_eq!(a.telescope.query, "B.Y");
    idle(&mut a, code(KeyCode::Enter));
    assert!(!a.telescope.active);
    assert_eq!(a.current_buffer().as_deref(), Some("./x//b.yaml"));
    a.open_file_telescope(texts(&["./x/b.yaml"]));
    idle(&mut a, code(KeyCode::Enter));
    assert_eq!(a.buffers, ["./a.yaml", "./x//b.yaml"]);
    assert_eq!(a.selected_buffer, Some(1));
    assert_eq!(find_path(&a.buffers, "./a.yaml/"), Some(0));
    assert_eq!(find_path(&a.buffers, "a.yaml"), None);
}

#[test]
fn letters_go_into_the_query() {
    let mut a = app(&["a", "b"]);
    a.open_file_telescope(texts(&["jk", "q"]));
    for c in "jkqh".chars() {
        idle(&mut a, key(c));
    }
    assert_eq!(a.telescope.query, "jkqh");
    idle(&mut a, code(KeyCode::Backspace));
    assert_eq!(a.telescope.query, "jkq");
    idle(&mut a, ctrl('u'));
    assert_eq!(a.telescope.query, "");
    idle(&mut a, ctrl('n'));
    assert_eq!(a.telescope.selected, 1);
    idle(&mut a, code(KeyCode::Up));
    assert_eq!(a.telescope.selected, 0);
    idle(&mut a, code(KeyCode::Tab));
    idle(&mut a, code(KeyCode::Esc));
    assert!(!a.telescope.active);
    assert!(a.selected_panel == ActivePanel::Preview);
}

#[test]
fn environments_are_picked() {
    let mut a = app(&[]);
    idle(&mut a, code(KeyCode::Tab));
    assert!(matches!(press(&mut a, key('t')), Action::PickEnv));
    a.open_env_telescope(texts(&["dev", "prod"]));
    assert_eq!(a.envs, ["dev", "prod"]);
    idle(&mut a, code(KeyCode::Down));
    assert!(matches!(press(&mut a, code(KeyCode::Enter)), Action::SwitchEnv(n) if n == "prod"));
    assert!(matches!(press(&mut a, key('r')), Action::RefreshEnvs));
    a.refresh_envs(texts(&["x"]));
    assert_eq!(a.envs, ["x"]);
}

#[test]
fn the_space_bar_leads() {
    let mut a = app(&["a", "b"]);
    idle(&mut a, key(' '));
    assert!(a.leader_pending);
    idle(&mut a, key('b'));
    assert!(!a.leader_pending && a.telescope.active);
    idle(&mut a, code(KeyCode::Down));
    idle(&mut a, code(KeyCode::Enter));
    assert_eq!(a.selected_buffer, Some(1));
    idle(&mut a, key(' '));
    assert!(matches!(press(&mut a, key('h')), Action::LoadHistory));
    idle(&mut a, key(' '));
    idle(&mut a, key('q'));
    assert!(!a.leader_pending);
}

#[test]
fn history_is_shown_newest_first() {
    let mut a = app(&[]);
    a.open_history(vec![entry("old"), entry("new")]);
    assert_eq!(a.history[0].url, "new");
    idle(&mut a, key('j'));
    idle(&mut a, key('j'));
    assert_eq!(a.selected_entry, Some(1));
    idle(&mut a, key('k'));
    idle(&mut a, key('k'));
    a.response_scroll = 3;
    idle(&mut a, code(KeyCode::Enter));
    assert!(!a.history_active);
    assert_eq!(a.status_view, "History | GET new -> 200 OK (1970-01-01 00:00:00)");
    assert_eq!((a.response_view.as_str(), a.response_scroll), ("answer", 0));
    a.open_history(vec![]);
    idle(&mut a, key('j'));
    idle(&mut a, code(KeyCode::Enter));
    a.open_history(vec![entry("x")]);
    idle(&mut a, key('q'));
    assert!(!a.history_active);
}

#[test]
fn help_is_closed_by_any_key() {
    let mut a = app(&[]);
    idle(&mut a, key('?'));
    assert!(a.show_help);
    idle(&mut a, key('q'));
    assert!(!a.show_help);
    idle(&mut a, code(KeyCode::Esc));
    assert!(a.show_help);
}

#[test]
fn quitting() {
    let mut a = app(&[]);
    assert!(matches!(press(&mut a, key('q')), Action::Quit));
    a.open_file_telescope(vec![]);
    assert!(matches!(press(&mut a, ctrl('c')), Action::Quit));
    idle(&mut a, key('q'));
}

#[test]
fn a_request_in_flight_is_not_sent_again() {
    let mut a = app(&["dir/a.yaml", "b.yaml"]);
    assert!(matches!(press(&mut a, code(KeyCode::Enter)), Action::Run(p) if p == "dir/a.yaml"));
    assert_eq!(a.status_view, "Sending a.yaml...");
    assert_eq!(a.focused_request.as_deref(), Some("dir/a.yaml"));
    idle(&mut a, code(KeyCode::Enter));
    idle(&mut a, key('L'));
    assert!(matches!(press(&mut a, code(KeyCode::Enter)), Action::Run(_)));
    assert_eq!(a.running_requests.len(), 2);
    let e = a.response_finished("dir/a.yaml", "s1".to_string(), "r1".to_string(), "GET", "u");
    assert_eq!((e.request_name.as_str(), e.status.as_str()), ("a.yaml", "s1"));
    assert_eq!(a.status_view, "Sending b.yaml...");
    a.response_finished("b.yaml", "s2".to_string(), "r2".to_string(), "GET", "u");
    assert_eq!((a.status_view.as_str(), a.response_view.as_str()), ("s2", "r2"));
    assert!(a.running_requests.is_empty() && a.focused_request.is_none());
    assert!(matches!(press(&mut a, code(KeyCode::Enter)), Action::Run(_)));
}

#[test]
fn requests_run_from_the_preview_alone() {
    let mut a = app(&["a"]);
    idle(&mut a, key('l'));
    idle(&mut a, code(KeyCode::Enter));
    let mut none = app(&[]);
    idle(&mut none, code(KeyCode::Enter));
}

#[test]
fn the_spinner_turns_while_requests_run() {
    let mut a = app(&["a"]);
    a.tick();
    assert_eq!(a.spinner_frame, 0);
    press(&mut a, code(KeyCode::Enter));
    a.tick();
    assert_eq!(a.spinner_frame, 1);
    a.spinner_frame = usize::MAX;
    a.tick();
    assert_eq!(a.spinner_frame, 0);
    let frames: Vec<String> = (0..11).map(|i| row_of_buffer("a", true, i)[0].text.clone()).collect();
    assert_eq!(frames[0], "\u{280b} ");
    assert_eq!(frames[9], "\u{280f} ");
    assert_eq!(frames[10], frames[0]);
}

#[test]
fn the_editor_key_depends_on_the_panel() {
    let mut a = app(&["a"]);
    assert!(matches!(press(&mut a, key('e')), Action::EditFile(p) if p == "a"));
    idle(&mut a, key('l'));
    idle(&mut a, key('e'));
    a.response_view = "text".to_string();
    assert!(matches!(press(&mut a, key('e')), Action::EditResponse));
    idle(&mut a, code(KeyCode::Tab));
    idle(&mut a, code(KeyCode::Tab));
    assert!(matches!(press(&mut a, key('e')), Action::EditActiveEnv));
}

#[test]
fn editing_saves_after_each_change() {
    let mut a = app(&["d/a.yaml"]);
    assert!(matches!(press(&mut a, key('i')), Action::OpenGrid(p) if p == "d/a.yaml"));
    a.enter_grid_edit(Err("gone".to_string()), stamp());
    assert_eq!(a.status_view, "Cannot edit: gone");
    a.enter_grid_edit(Ok(request()), stamp());
    assert!(a.grid_edit.is_some());
    idle(&mut a, key('i'));
    idle(&mut a, key('x'));
    match press(&mut a, code(KeyCode::Enter)) {
        Action::SaveGrid { path, file } => {
            assert_eq!(path, "d/a.yaml");
            assert_eq!(file.query, Some(rows(&[("qx", "1")])));
        }
        _ => panic!("not saved"),
    }
    a.autosave_grid_edit("d/a.yaml", Ok(()));
    assert_eq!(a.status_view, "Saved a.yaml");
    a.autosave_grid_edit("d/a.yaml", Err("disk full".to_string()));
    assert_eq!(a.status_view, "Save failed: disk full");
    idle(&mut a, code(KeyCode::Esc));
    assert!(a.grid_edit.is_none());
    let mut none = app(&[]);
    idle(&mut none, key('i'));
    none.enter_grid_edit(Ok(request()), stamp());
    assert!(none.grid_edit.is_none());
}

#[test]
fn previews() {
    let a = app(&["d/a.yaml"]);
    let p = a.compute_selected_preview(Ok("raw".to_string()), &Ok(request()));
    assert_eq!(p.top, "* Name: (unnamed)\n* Method: GET\n* URL: http://x");
    assert_eq!(p.query_rows, rows(&[("q", "1")]));
    assert_eq!(p.header_rows, rows(&[("a", "1"), ("b", "2")]));
    assert_eq!((p.body_text.as_str(), p.raw_file.as_str()), ("  None", "raw"));
    let p = a.compute_selected_preview(Err("gone".to_string()), &Ok(request()));
    assert_eq!((p.top.as_str(), p.raw_file.as_str()), ("[Failed to read a.yaml: gone]", ""));
    let p = a.compute_selected_preview(Ok("raw".to_string()), &Err("bad".to_string()));
    assert_eq!(p.top, "[Could not parse as a request: bad]");
    assert_eq!(p.raw_file, "raw");
    let p = app(&[]).compute_selected_preview(Ok("raw".to_string()), &Ok(request()));
    assert_eq!(p.top, "No request selected.");
    assert_eq!(
        head_text(&Some("N".to_string()), "PUT", "u"),
        "* Name: N\n* Method: PUT\n* URL: u"
    );
    let with_body = RequestFile { body: Some(RequestBody::Text("b".to_string())), ..request() };
    assert_eq!(a.compute_selected_preview(Ok(String::new()), &Ok(with_body)).body_text, "\"b\"");
    let p = preview_request(&request(), "t".to_string(), "b".to_string(), "f".to_string());
    assert_eq!((p.top.as_str(), p.body_text.as_str(), p.raw_file.as_str()), ("t", "b", "f"));
}

#[test]
fn previews_do_not_depend_on_the_order_of_entries() {
    let a = app(&["d/a.yaml"]);
    let other = RequestFile { headers: Some(rows(&[("a", "1"), ("b", "2")])), ..request() };
    let p = a.compute_selected_preview(Ok(String::new()), &Ok(request()));
    let q = a.compute_selected_preview(Ok(String::new()), &Ok(other));
    assert_eq!(p.header_rows, q.header_rows);
}

#[test]
fn the_screen_shows_buffers_and_panels() {
    let mut a = app(&["d/a.yaml", "b.yaml"]);
    press(&mut a, code(KeyCode::Enter));
    let s = a.ui(&Some("dev".to_string()), &rows(&[("b", "2"), ("a", "1")]), &no_preview(), 0);
    assert_eq!(pieces(&s.buffers[0]), [(Tone::YellowBold, "\u{280b} "), (Tone::YellowBold, "a.yaml")]);
    assert_eq!(pieces(&s.buffers[1]), [(Tone::Plain, "  "), (Tone::Cyan, "b.yaml")]);
    assert_eq!(s.env.title, " Environment | dev ('t' to switch) ");
    assert_eq!(s.env.text, "a = 1\nb = 2");
    assert!(!s.env.focused && s.preview_focused && !s.response.focused);
    assert_eq!(s.preview_title, " Preview | a.yaml ");
    assert_eq!(s.response.title, " Response | Sending a.yaml... ");
    assert!(s.response.text.starts_with("Sending HTTP request in background..."));
    assert!(s.picker.is_none() && s.history.is_none() && s.undo.is_none() && !s.help);
    let shown = s.preview.unwrap();
    assert_eq!(shown.body, "None\n\n--- Raw File ---\n");
    assert_eq!(
        (shown.query_label.as_str(), shown.header_label.as_str(), shown.body_label.as_str()),
        ("* Query Params:", "* Headers:", "* Body:")
    );
    assert_eq!((shown.top_height, shown.query_height, shown.header_height), (1, 2, 2));
}

#[test]
fn the_screen_without_anything() {
    let s = draw(&app(&[]));
    assert!(s.preview.is_none());
    assert!(NO_BUFFERS.starts_with("No buffers open."));
    assert_eq!(s.preview_title, " Preview ");
    assert_eq!(s.env.title, " Environment | none ('t' to choose) ");
    assert_eq!(s.env.text, "No active environment.\nPress 't' to choose one via Telescope.");
    assert_eq!(
        s.response.text,
        "No response yet. Press Enter to run the selected request.\n\nPress Space then h to browse Request/Response History.\nPress ? for the full list of keybindings."
    );
    let empty = app(&[]).ui(&Some("dev".to_string()), &vec![], &no_preview(), 0);
    assert_eq!(
        empty.env.text,
        "No variables set for this environment.\nPress 'e' to edit its file."
    );
    let mut answered = app(&[]);
    answered.response_view = "R".to_string();
    assert_eq!(draw(&answered).response.text, "R");
}

#[test]
fn grids_mark_the_cell_under_the_cursor() {
    let list = rows(&[("k", "v"), ("l", "w")]);
    let focus = |col: GridCol, typed: Option<&str>| {
        Some(Focus { row: 1, col, editing_text: typed.map(|t| t.to_string()) })
    };
    let t = render_kv_table(&list, &None);
    assert_eq!(pieces(&t.heading), [(Tone::YellowBold, "KEY"), (Tone::YellowBold, "VALUE")]);
    assert_eq!(t.rows.len(), 2);
    assert_eq!(pieces(&t.rows[0]), [(Tone::Cyan, "k"), (Tone::Plain, "v")]);
    let t = render_kv_table(&list, &focus(GridCol::Key, None));
    assert_eq!(pieces(&t.rows[0]), [(Tone::Cyan, "k"), (Tone::Plain, "v")]);
    assert_eq!(pieces(&t.rows[1]), [(Tone::Cursor, "l"), (Tone::Plain, "w")]);
    let t = render_kv_table(&list, &focus(GridCol::Value, Some("new")));
    assert_eq!(pieces(&t.rows[1]), [(Tone::Cyan, "l"), (Tone::Cursor, "new\u{2588}")]);
}

#[test]
fn heights() {
    for (n, h) in [(0, 2), (1, 2), (2, 3), (6, 7), (7, 8), (8, 8), (1000, 8), (65536, 2)] {
        assert_eq!(height_of_grid(n), h);
    }
    for (t, h) in [("", 1), ("a", 1), ("a\nb", 2), ("a\nb\n", 2)] {
        assert_eq!(height_of_text(t), h);
    }
    assert_eq!(centered_percentages(60), (20, 60, 20));
    assert_eq!(centered_percentages(45), (27, 45, 27));
    assert_eq!(centered_percentages(100), (0, 100, 0));
}

#[test]
fn the_screen_while_editing() {
    let mut a = app(&["d/a.yaml", "b.yaml"]);
    a.enter_grid_edit(Ok(request()), stamp());
    let s = draw(&a);
    assert_eq!(s.preview_title, " Preview | a.yaml [EDITING] ");
    let shown = s.preview.unwrap();
    assert!(shown.section == Some(GridSection::Query));
    assert_eq!(shown.query_label, "* Query Params: (Tab to switch to Headers)");
    assert_eq!(pieces(&shown.query_table.rows[0]), [(Tone::Cursor, "q"), (Tone::Plain, "1")]);
    assert_eq!(shown.top, "* Name: (unnamed)\n* Method: GET\n* URL: http://x");
    idle(&mut a, code(KeyCode::Tab));
    assert_eq!(draw(&a).preview.unwrap().header_label, "* Headers: (Tab to switch to Body)");
    idle(&mut a, code(KeyCode::Tab));
    assert_eq!(
        draw(&a).preview.unwrap().body_label,
        "* Body: (Tab to switch to Query \u{2014} i/Enter to edit)"
    );
    idle(&mut a, key('i'));
    idle(&mut a, key('x'));
    let shown = draw(&a).preview.unwrap();
    assert_eq!(
        shown.body_label,
        "* Body: (editing \u{2014} Enter: newline, Ctrl+D: save & exit, Esc: cancel)"
    );
    assert_eq!(shown.body, "x\u{2588}");
    a.selected_buffer = Some(1);
    assert_eq!(draw(&a).preview_title, " Preview | b.yaml ");
}

#[test]
fn the_picker_is_shown() {
    let mut a = app(&["x"]);
    a.open_file_telescope(texts(&["ab", "b", "B"]));
    idle(&mut a, key('b'));
    idle(&mut a, code(KeyCode::Down));
    let p = draw(&a).picker.unwrap();
    assert_eq!((p.query.as_str(), p.found.as_str()), ("b", " 3 found "));
    assert_eq!(pieces(&p.rows[0]), [(Tone::Plain, "   "), (Tone::Cyan, "ab")]);
    assert_eq!(pieces(&p.rows[1]), [(Tone::Plain, ">> "), (Tone::YellowBold, "b")]);
}

#[test]
fn the_history_is_shown() {
    let mut a = app(&[]);
    a.open_history(vec![entry("u")]);
    let h = draw(&a).history.unwrap();
    assert_eq!(h.title, " History (1 entries) | Enter: view in Response, Esc/q: close ");
    assert_eq!(
        pieces(&h.rows[0]),
        [
            (Tone::DarkGray, "1970-01-01 00:00:00 "),
            (Tone::Cyan, "GET   "),
            (Tone::Plain, "u  "),
            (Tone::Yellow, "200 OK"),
        ]
    );
    a.open_history(vec![]);
    assert_eq!(draw(&a).history.unwrap().title, " History (empty) | Esc/q to close ");
}

#[test]
fn the_undo_tree_is_shown_with_what_changed() {
    let mut a = app(&["a"]);
    a.enter_grid_edit(Ok(request()), stamp());
    idle(&mut a, key('i'));
    idle(&mut a, key('x'));
    press(&mut a, code(KeyCode::Enter));
    idle(&mut a, key('u'));
    let u = draw(&a).undo.unwrap();
    assert_eq!(
        u.title,
        " Undo Tree (2 states) | \u{25cf}=current \u{25cb}=other | Enter: jump, Esc/q: close "
    );
    assert_eq!(
        pieces(&u.rows[0]),
        [
            (Tone::Plain, ">> "),
            (Tone::GreenBold, "\u{25cf} Query q.key: 'q' \u{2192} 'qx' (just now)  t"),
        ]
    );
    assert_eq!(pieces(&u.rows[1]), [(Tone::Plain, "   "), (Tone::Cyan, "\u{25cb} Initial (just now)  t")]);
    assert_eq!(pieces(&u.diff[0]), [(Tone::Red, "Query - q: 1")]);
    assert_eq!(pieces(&u.diff[1]), [(Tone::Green, "Query + qx: 1")]);
    idle(&mut a, key('j'));
    let u = draw(&a).undo.unwrap();
    assert_eq!(pieces(&u.diff[0]), [(Tone::Plain, "(initial state \u{2014} nothing before it)")]);
}

#[test]
fn a_change_of_the_body_is_shown() {
    let mut a = app(&["a"]);
    a.enter_grid_edit(Ok(request()), stamp());
    idle(&mut a, code(KeyCode::Tab));
    idle(&mut a, code(KeyCode::Tab));
    idle(&mut a, key('i'));
    idle(&mut a, key('x'));
    press(&mut a, ctrl('d'));
    idle(&mut a, key('u'));
    let u = draw(&a).undo.unwrap();
    assert_eq!(u.diff.len(), 1);
    assert_eq!(pieces(&u.diff[0]), [(Tone::Yellow, "Body changed")]);
}

#[test]
fn a_state_that_equals_the_one_before_shows_no_change() {
    let mut a = app(&["a"]);
    a.enter_grid_edit(Ok(request()), stamp());
    idle(&mut a, code(KeyCode::Tab));
    idle(&mut a, code(KeyCode::Tab));
    idle(&mut a, key('i'));
    press(&mut a, ctrl('d'));
    idle(&mut a, key('u'));
    let u = draw(&a).undo.unwrap();
    assert_eq!(u.diff.len(), 1);
    assert_eq!(pieces(&u.diff[0]), [(Tone::Plain, "(no change vs previous state)")]);
}

#[test]
fn the_help_names_the_keys() {
    assert!(HELP_TEXT.starts_with("Keybindings:\n\n* Shift+H / Shift+L: Switch"));
    assert!(HELP_TEXT.ends_with("* q, Ctrl+C        : Quit app"));
    assert_eq!(HELP_TEXT.lines().count(), 26);
}
