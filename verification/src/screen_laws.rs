//! What holds of all that is shown: the screen, its popups, and the texts in them.

use crate::calendar;
use crate::diff;
use crate::diff::DiffKind;
use crate::grid::{GridCol, GridEditState, GridSection};
use crate::grid_keys;
use crate::history::HistoryEntry;
use crate::paths;
use crate::popups;
use crate::popups::{HistoryList, Picker, UndoPopup};
use crate::preview;
use crate::rows;
use crate::screen;
use crate::screen::{Focus, Screen};
use crate::styled;
use crate::styled::{Piece, Tone};
use crate::telescope;
use crate::telescope::{Telescope, TelescopeItem};
use crate::text;
use crate::tui;
use crate::tui::{ActivePanel, TuiApp};
use crate::undo;
use crate::undo::UndoNode;
use crate::undo_graph;
use vstd::prelude::*;
use vstd::string::*;

verus! {

/// Lines hold their pieces, and pieces their tones and texts, in their order.
pub proof fn law_lines_and_pieces(lines: Seq<Vec<Piece>>, i: int, k: int)
    requires
        0 <= i < lines.len(),
        0 <= k < lines[i]@.len(),
    ensures
        styled::lines_of(lines).len() == lines.len(),
        styled::lines_of(lines)[i].len() == lines[i]@.len(),
        styled::lines_of(lines)[i][k] == (lines[i]@[k].tone, lines[i]@[k].text@),
{
}

// ---------------------------------------------------------------------------------------------
// The screen
// ---------------------------------------------------------------------------------------------

/// Each buffer has its row, in their order, with the name of its file; a buffer has a spinner in
/// front exactly while its request is in flight.
pub proof fn law_rows_of_buffers(
    s: Screen,
    app: TuiApp,
    active: Option<Seq<char>>,
    vars: Seq<rows::Entry>,
    p: preview::Preview,
    now: int,
    i: int,
)
    requires
        screen::shows(s, app, active, vars, p, now),
        0 <= i < app.buffers@.len(),
    ensures
        s.buffers@.len() == app.buffers@.len(),
        s.selected_buffer == app.selected_buffer,
        ({
            let row = styled::pieces_of(s.buffers@[i]@);
            &&& row.len() == 2
            &&& row[1].1 == paths::base_name_or(app.buffers@[i]@, "Request"@)
            &&& if tui::listed(text::views(app.running_requests@), app.buffers@[i]@) {
                row[0] == (
                    Tone::YellowBold,
                    seq![screen::spinner_char(app.spinner_frame as int), ' '],
                ) && row[1].0 == Tone::YellowBold
            } else {
                row[0] == (Tone::Plain, "  "@) && row[1].0 == Tone::Cyan
            }
        }),
{
    assert(styled::lines_of(s.buffers@).len() == s.buffers@.len());
    assert(styled::lines_of(s.buffers@)[i] == styled::pieces_of(s.buffers@[i]@));
}

/// The spinner has ten signs, all different, and comes back to the first.
pub proof fn law_spinner_turns(i: int, j: int)
    requires
        0 <= i < j < 10,
    ensures
        screen::spinner_char(i) != screen::spinner_char(j),
        screen::spinner_char(i + 10) == screen::spinner_char(i),
        screen::spinner_char(i) != ' ',
{
}

/// Exactly the panel that has the focus is shown with it, and each panel at its own position; the
/// preview is also shown with the focus while its request is edited.
pub proof fn law_focus_and_positions(
    s: Screen,
    app: TuiApp,
    active: Option<Seq<char>>,
    vars: Seq<rows::Entry>,
    p: preview::Preview,
    now: int,
)
    requires
        screen::shows(s, app, active, vars, p, now),
    ensures
        s.env.focused <==> app.selected_panel == ActivePanel::Environments,
        s.response.focused <==> app.selected_panel == ActivePanel::Response,
        app.selected_panel == ActivePanel::Preview ==> s.preview_focused,
        app.grid_edit is None ==> (s.preview_focused <==> app.selected_panel
            == ActivePanel::Preview),
        s.env.scroll == app.env_scroll,
        s.response.scroll == app.response_scroll,
        s.preview matches Some(shown) ==> shown.scroll == app.preview_scroll,
{
}

/// Popups are shown exactly while they are open.
pub proof fn law_popups_are_shown(
    s: Screen,
    app: TuiApp,
    active: Option<Seq<char>>,
    vars: Seq<rows::Entry>,
    p: preview::Preview,
    now: int,
)
    requires
        screen::shows(s, app, active, vars, p, now),
    ensures
        s.picker is Some <==> app.telescope.active,
        s.history is Some <==> app.history_active,
        s.help <==> app.show_help,
        s.undo is Some <==> (app.grid_edit matches Some(e) && e.undo_tree_active),
        s.preview is Some <==> app.buffers@.len() > 0,
        s.selected_entry == app.selected_entry,
{
}

/// The panel of the response shows the response as it is, and the status in its title. Where there
/// is no response, it says whether one is awaited.
pub proof fn law_response_is_shown(
    s: Screen,
    app: TuiApp,
    active: Option<Seq<char>>,
    vars: Seq<rows::Entry>,
    p: preview::Preview,
    now: int,
)
    requires
        screen::shows(s, app, active, vars, p, now),
    ensures
        app.response_view@.len() > 0 ==> s.response.text@ == app.response_view@,
        s.response.title@ == " Response | "@ + app.status_view@ + " "@,
        app.response_view@.len() == 0 && app.focused_request is Some ==> s.response.text@
            == "Sending HTTP request in background... You can continue navigating and trigger other requests too."@,
        app.response_view@.len() == 0 && app.focused_request is None ==> s.response.text@
            == "No response yet. Press Enter to run the selected request.\n\nPress Space then h to browse Request/Response History.\nPress ? for the full list of keybindings."@,
{
}

/// The panel of the environment names the active one, and shows each of its variables on a line,
/// ordered by name.
pub proof fn law_variables_are_shown(
    s: Screen,
    app: TuiApp,
    name: Seq<char>,
    vars: Seq<rows::Entry>,
    p: preview::Preview,
    now: int,
)
    requires
        screen::shows(s, app, Some(name), vars, p, now),
    ensures
        s.env.title@ == " Environment | "@ + name + " ('t' to switch) "@,
        vars.len() > 0 ==> exists|order: Seq<rows::Entry>| #[trigger]
            lists_variables(s.env.text@, vars, order),
        vars.len() == 0 ==> s.env.text@
            == "No variables set for this environment.\nPress 'e' to edit its file."@,
{
    reveal_strlit("");
    let order = rows::sorted(vars);
    rows::law_sorted_keeps_rows(vars);
    rows::law_sorted_is_ordered(vars);
    let lines = order.map_values(|e: rows::Entry| e.0 + " = "@ + e.1);
    assert forall|i: int| 0 <= i < order.len() implies rows::entry_lines(order, ""@, " = "@)[i]
        == lines[i] by {
        assert(""@ + order[i].0 =~= order[i].0);
    }
    assert(rows::entry_lines(order, ""@, " = "@) =~= lines);
    if vars.len() > 0 {
        assert(lists_variables(s.env.text@, vars, order));
    }
}

/// Whether a text has a line for each variable, in an order that goes by their names.
pub open spec fn lists_variables(
    shown: Seq<char>,
    vars: Seq<rows::Entry>,
    order: Seq<rows::Entry>,
) -> bool {
    &&& order.to_multiset() == vars.to_multiset()
    &&& rows::ordered(order)
    &&& shown == text::joined(order.map_values(|e: rows::Entry| e.0 + " = "@ + e.1), "\n"@)
}

/// Without an active environment, the panel says so.
pub proof fn law_no_environment_is_shown(
    s: Screen,
    app: TuiApp,
    vars: Seq<rows::Entry>,
    p: preview::Preview,
    now: int,
)
    requires
        screen::shows(s, app, None, vars, p, now),
    ensures
        s.env.title@ == " Environment | none ('t' to choose) "@,
        s.env.text@ == "No active environment.\nPress 't' to choose one via Telescope."@,
{
}

/// The title of the preview names the file that is shown, and says whether it is edited.
pub proof fn law_title_of_the_preview(
    s: Screen,
    app: TuiApp,
    active: Option<Seq<char>>,
    vars: Seq<rows::Entry>,
    p: preview::Preview,
    now: int,
    i: usize,
)
    requires
        screen::shows(s, app, active, vars, p, now),
        app.wf(),
        app.selected_buffer == Some(i),
    ensures
        ({
            let path = app.buffers@[i as int]@;
            let name = paths::base_name_or(path, "request"@);
            &&& app.grid_edit is None ==> s.preview_title@ == " Preview | "@ + name + " "@
            &&& app.grid_edit matches Some(e) ==> (paths::same(e.path@, path) ==> s.preview_title@
                == " Preview | "@ + name + " [EDITING] "@)
        }),
{
}

/// While a request is edited, the rows of the editor are shown, with what is typed; else those of
/// the preview, with the file below the body.
pub proof fn law_what_the_preview_shows(
    s: Screen,
    app: TuiApp,
    active: Option<Seq<char>>,
    vars: Seq<rows::Entry>,
    p: preview::Preview,
    now: int,
)
    requires
        screen::shows(s, app, active, vars, p, now),
        app.buffers@.len() > 0,
    ensures
        s.preview matches Some(shown) && match app.grid_edit {
            Some(e) => {
                let cell = Focus { row: e.row, col: e.col, editing_text: e.editing_text };
                &&& shown.section == Some(e.section)
                &&& shown@.query_table == screen::table(
                    rows::entries(e.query_rows@),
                    if e.section == GridSection::Query {
                        Some(cell)
                    } else {
                        None
                    },
                )
                &&& shown@.header_table == screen::table(
                    rows::entries(e.header_rows@),
                    if e.section == GridSection::Headers {
                        Some(cell)
                    } else {
                        None
                    },
                )
                &&& shown.top@ == preview::head_of(e.original@)
                &&& e.section == GridSection::Body ==> (e.editing_text matches Some(typed)
                    ==> shown.body@ == typed@ + seq!['\u{2588}'])
                &&& e.section != GridSection::Body || e.editing_text is None ==> shown.body@
                    == e.body_text@
            },
            None => {
                &&& shown.section is None
                &&& shown.top@ == p.top
                &&& shown@.query_table == screen::table(p.query_rows, None)
                &&& shown@.header_table == screen::table(p.header_rows, None)
                &&& p.body_text.len() > 0 ==> shown.body@ == p.body_text
                    + "\n\n--- Raw File ---\n"@ + p.raw_file
                &&& p.body_text.len() == 0 ==> shown.body@ == "None"@
                    + "\n\n--- Raw File ---\n"@ + p.raw_file
            },
        },
{
    if let Some(e) = app.grid_edit {
        if let Some(typed) = e.editing_text {
            assert(typed@.push('\u{2588}') =~= typed@ + seq!['\u{2588}']);
        }
    }
}

/// A grid shows each row, in their order, with its key and its value under a heading. Only the cell
/// under the cursor stands out, and only it shows what is typed, with a cursor behind it.
pub proof fn law_cells_of_grids(list: Seq<rows::Entry>, focus: Option<Focus>, i: int)
    requires
        0 <= i < list.len(),
    ensures
        ({
            let t = screen::table(list, focus);
            let row = t.rows[i];
            let at_key = focus matches Some(f) && f.row == i && f.col == GridCol::Key;
            let at_value = focus matches Some(f) && f.row == i && f.col == GridCol::Value;
            &&& t.rows.len() == list.len()
            &&& t.heading.len() == 2 && t.heading[0].1 == "KEY"@ && t.heading[1].1 == "VALUE"@
            &&& row.len() == 2
            &&& row[0].0 == Tone::Cursor <==> at_key
            &&& row[1].0 == Tone::Cursor <==> at_value
            &&& !at_key ==> row[0].1 == list[i].0
            &&& !at_value ==> row[1].1 == list[i].1
            &&& focus matches Some(f) ==> {
                &&& at_key && f.editing_text is None ==> row[0].1 == list[i].0
                &&& at_value && f.editing_text is None ==> row[1].1 == list[i].1
                &&& f.editing_text matches Some(typed) ==> {
                    &&& at_key ==> row[0].1 == typed@ + seq!['\u{2588}']
                    &&& at_value ==> row[1].1 == typed@ + seq!['\u{2588}']
                }
            }
        }),
{
    if let Some(f) = focus {
        if let Some(typed) = f.editing_text {
            assert(typed@.push('\u{2588}') =~= typed@ + seq!['\u{2588}']);
        }
    }
}

/// The cursor is in the grid that is edited, and in no other.
pub proof fn law_cursor_is_in_the_edited_section(e: GridEditState, section: GridSection)
    ensures
        section != e.section ==> screen::cell_in(Some(screen::focus_of(e)), section) is None,
        section == e.section ==> screen::cell_in(Some(screen::focus_of(e)), section) == Some(
            Focus { row: e.row, col: e.col, editing_text: e.editing_text },
        ),
        screen::cell_in(None, section) is None,
{
}

/// The grids, the body and the head of a request stand in their places.
pub proof fn law_places_in_the_preview(
    top: Seq<char>,
    query: Seq<rows::Entry>,
    headers: Seq<rows::Entry>,
    body: Seq<char>,
    section: GridSection,
    cell: Focus,
    scroll: u16,
)
    ensures
        ({
            let plain = screen::shown(top, query, headers, body, None, scroll);
            &&& plain.top == top && plain.body == body && plain.scroll == scroll
            &&& plain.query_table == screen::table(query, None)
            &&& plain.header_table == screen::table(headers, None)
            &&& plain.query_height == screen::grid_height(query.len() as int)
            &&& plain.header_height == screen::grid_height(headers.len() as int)
            &&& plain.top_height == screen::text_height(top)
        }),
        ({
            let focus = screen::EditFocus { section, cell };
            let edited = screen::shown(top, query, headers, body, Some(focus), scroll);
            &&& edited.query_table == screen::table(
                query,
                if section == GridSection::Query {
                    Some(cell)
                } else {
                    None
                },
            )
            &&& edited.header_table == screen::table(
                headers,
                if section == GridSection::Headers {
                    Some(cell)
                } else {
                    None
                },
            )
            &&& edited.section == Some(section)
        }),
{
}

/// A grid is as high as its rows with the heading, but not below 2 nor above 8 lines. A text is as
/// high as its lines, but at least one.
pub proof fn law_heights(len: int, s: Seq<char>)
    requires
        0 <= len < 65535,
        text::line_count(s) < 65536,
    ensures
        2 <= screen::grid_height(len) <= 8,
        1 <= len <= 7 ==> screen::grid_height(len) == len + 1,
        len > 7 ==> screen::grid_height(len) == 8,
        screen::text_height(s) == if text::line_count(s) > 0 {
            text::line_count(s) as int
        } else {
            1
        },
{
}

/// The labels of the sections say which of them is edited.
pub proof fn law_labels_of_sections(f: Focus)
    ensures
        screen::query_label(Some(GridSection::Query)) == "* Query Params: (Tab to switch to Headers)"@,
        screen::query_label(Some(GridSection::Headers)) == "* Query Params:"@,
        screen::query_label(Some(GridSection::Body)) == "* Query Params:"@,
        screen::query_label(None) == "* Query Params:"@,
        screen::header_label(Some(GridSection::Headers)) == "* Headers: (Tab to switch to Body)"@,
        screen::header_label(Some(GridSection::Query)) == "* Headers:"@,
        screen::header_label(Some(GridSection::Body)) == "* Headers:"@,
        screen::header_label(None) == "* Headers:"@,
        f.editing_text is Some ==> screen::body_label(Some(f))
            == "* Body: (editing \u{2014} Enter: newline, Ctrl+D: save & exit, Esc: cancel)"@,
        f.editing_text is None ==> screen::body_label(Some(f))
            == "* Body: (Tab to switch to Query \u{2014} i/Enter to edit)"@,
        screen::body_label(None) == "* Body:"@,
{
}

// ---------------------------------------------------------------------------------------------
// Popups
// ---------------------------------------------------------------------------------------------

/// The picker shows its title, its query, how many items match, and each of them in their order;
/// the selected one alone is marked.
pub proof fn law_picker_shows_the_matches(picker: Picker, t: Telescope, i: int)
    requires
        picker.shows(t),
        0 <= i < t.matching().len(),
    ensures
        picker.title@ == t.title@,
        picker.query@ == t.query@,
        picker.found@ == " "@ + text::decimal(t.matching().len()) + " found "@,
        picker.rows@.len() == t.matching().len(),
        ({
            let row = styled::pieces_of(picker.rows@[i]@);
            &&& row.len() == 2
            &&& row[1].1 == t.matching()[i].display@
            &&& i == t.selected ==> row[0].1 == ">> "@ && row[1].0 == Tone::YellowBold
            &&& i != t.selected ==> row[0].1 == "   "@ && row[1].0 == Tone::Cyan
        }),
{
    assert(styled::lines_of(picker.rows@).len() == picker.rows@.len());
    assert(styled::lines_of(picker.rows@)[i] == styled::pieces_of(picker.rows@[i]@));
}

/// The history shows each entry on a row, in their order, with its time, method, URL and status.
pub proof fn law_history_shows_the_entries(list: HistoryList, entries: Seq<HistoryEntry>, i: int)
    requires
        list.shows(entries),
        0 <= i < entries.len(),
    ensures
        list.rows@.len() == entries.len(),
        list.title@ == " History ("@ + text::decimal(entries.len())
            + " entries) | Enter: view in Response, Esc/q: close "@,
        ({
            let row = styled::pieces_of(list.rows@[i]@);
            &&& row.len() == 4
            &&& row[0].1 == entries[i].timestamp@ + " "@
            &&& row[1].1 == text::padded_right(entries[i].method@, 6)
            &&& row[2].1 == entries[i].url@ + "  "@
            &&& row[3].1 == entries[i].status@
        }),
{
    assert(styled::lines_of(list.rows@).len() == list.rows@.len());
    assert(styled::lines_of(list.rows@)[i] == styled::pieces_of(list.rows@[i]@));
}

/// An empty history says that it is.
pub proof fn law_empty_history(list: HistoryList)
    requires
        list.shows(Seq::empty()),
    ensures
        list.rows@.len() == 0,
        list.title@ == " History (empty) | Esc/q to close "@,
{
    assert(styled::lines_of(list.rows@).len() == list.rows@.len());
}

/// The undo tree shows the rows of its graph; the row of the selected state alone is marked, and
/// that of the current state alone is green and bold.
pub proof fn law_undo_tree_shows_the_graph(popup: UndoPopup, e: GridEditState, now: int, i: int)
    requires
        popup.shows(e, now),
        0 <= i < undo_graph::graph(e.undo_nodes@, e.undo_current as int, now, 0).len(),
    ensures
        ({
            let graph = undo_graph::graph(e.undo_nodes@, e.undo_current as int, now, 0);
            let row = styled::pieces_of(popup.rows@[i]@);
            &&& popup.rows@.len() == graph.len()
            &&& row.len() == 2
            &&& row[1].1 == graph[i].1
            &&& row[0].1 == if graph[i].0 == Some(e.undo_tree_selected) {
                ">> "@
            } else {
                "   "@
            }
            &&& row[1].0 == Tone::GreenBold <==> graph[i].0 == Some(e.undo_current)
            &&& row[1].0 == Tone::DarkGray <==> graph[i].0 is None
        }),
        popup.title@ == " Undo Tree ("@ + text::decimal(e.undo_nodes@.len())
            + " states) | \u{25cf}=current \u{25cb}=other | Enter: jump, Esc/q: close "@,
{
    assert(styled::lines_of(popup.rows@).len() == popup.rows@.len());
    assert(styled::lines_of(popup.rows@)[i] == styled::pieces_of(popup.rows@[i]@));
}

/// What changed to reach the selected state is shown against the state that it was made from; of
/// the first state it is said that nothing is before it.
pub proof fn law_changes_of_the_selected_state(popup: UndoPopup, e: GridEditState, now: int)
    requires
        popup.shows(e, now),
        e.undo_tree_selected < e.undo_nodes@.len(),
    ensures
        e.undo_nodes@[e.undo_tree_selected as int].parent matches Some(p) ==> styled::lines_of(
            popup.diff@,
        ) == popups::step_rows(
            e.undo_nodes@[p as int].snapshot@,
            e.undo_nodes@[e.undo_tree_selected as int].snapshot@,
        ),
        e.undo_nodes@[e.undo_tree_selected as int].parent is None ==> styled::lines_of(
            popup.diff@,
        ) == seq![seq![(Tone::Plain, "(initial state \u{2014} nothing before it)"@)]],
{
}

/// Between two states, first each change of the query is shown, then each of the headers, then
/// whether the body changed.
pub proof fn law_changes_between_states(
    before: undo::GridContent,
    after: undo::GridContent,
    i: int,
)
    ensures
        ({
            let shown = popups::step_rows(before, after);
            let query = diff::difference(
                rows::entries(before.query_rows),
                rows::entries(after.query_rows),
            );
            let headers = diff::difference(
                rows::entries(before.header_rows),
                rows::entries(after.header_rows),
            );
            &&& 0 <= i < query.len() ==> i < shown.len() && shown[i].len() == 1 && shown[i][0].1
                == "Query "@ + query[i].1 && shown[i][0].0 == tone_of(query[i].0)
            &&& 0 <= i < headers.len() ==> query.len() + i < shown.len() && shown[query.len()
                + i].len() == 1 && shown[query.len() + i][0].1 == "Headers "@ + headers[i].1
                && shown[query.len() + i][0].0 == tone_of(headers[i].0)
            &&& before.body_text@ != after.body_text@ ==> shown.len() == query.len()
                + headers.len() + 1 && shown.last() == seq![(Tone::Yellow, "Body changed"@)]
            &&& before.body_text@ == after.body_text@ && query.len() + headers.len() > 0
                ==> shown.len() == query.len() + headers.len()
        }),
{
    reveal_strlit("Query ");
    reveal_strlit("Query");
    reveal_strlit("Headers ");
    reveal_strlit("Headers");
    reveal_strlit(" ");
    assert("Query"@ + " "@ =~= "Query "@);
    assert("Headers"@ + " "@ =~= "Headers "@);
}

/// What is added is green, what is removed is red, and what is changed is yellow.
pub open spec fn tone_of(kind: DiffKind) -> Tone {
    match kind {
        DiffKind::Added => Tone::Green,
        DiffKind::Removed => Tone::Red,
        DiffKind::Changed => Tone::Yellow,
    }
}

/// A key that has a value only now is added, one that had a value only before is removed, and one
/// whose value is another is changed; the line gives the key with its value, or with both. A key
/// with the same value has no line.
pub proof fn law_lines_of_differences(key: Seq<char>, was: Seq<char>, is: Seq<char>)
    ensures
        diff::diff_line(key, None, Some(is)) == Some(
            (DiffKind::Added, "+ "@ + key + ": "@ + is),
        ),
        diff::diff_line(key, Some(was), None) == Some(
            (DiffKind::Removed, "- "@ + key + ": "@ + was),
        ),
        was != is ==> diff::diff_line(key, Some(was), Some(is)) == Some(
            (DiffKind::Changed, "~ "@ + key + ": "@ + was + " \u{2192} "@ + is),
        ),
        diff::diff_line(key, Some(was), Some(was)) is None,
        diff::diff_line(key, None, None) is None,
{
}

// ---------------------------------------------------------------------------------------------
// Searching
// ---------------------------------------------------------------------------------------------

/// An item matches where the query stands anywhere in its text.
pub proof fn law_query_anywhere_matches(
    item: TelescopeItem,
    a: Seq<char>,
    query: Seq<char>,
    b: Seq<char>,
)
    requires
        item.display@ == a + query + b,
        text::ascii(item.display@),
    ensures
        telescope::fits(item, query),
{
    let s = item.display@;
    let i = a.len() as int;
    assert forall|k: int| 0 <= k < query.len() implies #[trigger] query[k] <= '\u{7f}' by {
        assert(s[i + k] == query[k]);
    }
    assert(text::ascii(query));
    let low = text::lower_letters(s);
    let part = text::lower_letters(query);
    assert(low.subrange(i, i + part.len()) =~= part);
    assert(text::stands_at(low, part, i));
}

/// Whether a query stands in a text at a place, without regard to the case of letters.
pub open spec fn stands_at_any_case(s: Seq<char>, query: Seq<char>, i: int) -> bool {
    0 <= i && i + query.len() <= s.len() && forall|k: int|
        0 <= k < query.len() ==> text::lower_letter(#[trigger] query[k]) == text::lower_letter(
            s[i + k],
        )
}

/// An item matches a query exactly where the query stands at some place of its text, without regard
/// to the case of letters.
pub proof fn law_matching_is_by_place(item: TelescopeItem, query: Seq<char>)
    requires
        text::ascii(item.display@),
        text::ascii(query),
    ensures
        telescope::fits(item, query) <==> exists|i: int|
            #[trigger] stands_at_any_case(item.display@, query, i),
{
    let s = item.display@;
    let low = text::lower_letters(s);
    let part = text::lower_letters(query);
    if telescope::fits(item, query) {
        let i = choose|i: int| text::stands_at(low, part, i);
        assert forall|k: int| 0 <= k < query.len() implies text::lower_letter(#[trigger] query[k])
            == text::lower_letter(s[i + k]) by {
            assert(low.subrange(i, i + part.len())[k] == part[k]);
        }
        assert(stands_at_any_case(s, query, i));
    }
    if exists|i: int| #[trigger] stands_at_any_case(s, query, i) {
        let i = choose|i: int| #[trigger] stands_at_any_case(s, query, i);
        assert forall|k: int| 0 <= k < part.len() implies low.subrange(i, i + part.len())[k]
            == part[k] by {
            assert(text::lower_letter(query[k]) == text::lower_letter(s[i + k]));
        }
        assert(low.subrange(i, i + part.len()) =~= part);
        assert(text::stands_at(low, part, i));
    }
}

/// An empty query matches everything.
pub proof fn law_empty_query_shows_all(items: Seq<TelescopeItem>)
    ensures
        telescope::shown(items, Seq::empty()) == items,
    decreases items.len(),
{
    if items.len() > 0 {
        let none = Seq::<char>::empty();
        law_empty_query_shows_all(items.drop_last());
        let low = text::lower(items.last().display@);
        assert(text::lower(none) =~= none);
        assert(low.subrange(0, 0) =~= none);
        assert(text::stands_at(low, text::lower(none), 0));
        assert(items.drop_last().push(items.last()) =~= items);
    }
}

/// Matches are shown in the order of the items: those of one list before those of the list behind
/// it.
pub proof fn law_matches_keep_their_order(
    a: Seq<TelescopeItem>,
    b: Seq<TelescopeItem>,
    query: Seq<char>,
)
    ensures
        telescope::shown(a + b, query) == telescope::shown(a, query) + telescope::shown(b, query),
        a.len() == 1 ==> telescope::shown(a, query) == if telescope::fits(a[0], query) {
            a
        } else {
            Seq::empty()
        },
    decreases b.len(),
{
    if b.len() == 0 {
        assert(a + b =~= a);
    } else {
        law_matches_keep_their_order(a, b.drop_last(), query);
        assert((a + b).drop_last() =~= a + b.drop_last());
        assert((a + b).last() == b.last());
    }
    if a.len() == 1 {
        let none = Seq::<TelescopeItem>::empty();
        assert(a.drop_last() =~= none);
        assert(telescope::shown(none, query) =~= none);
        assert(none.push(a[0]) =~= a);
    }
}

// ---------------------------------------------------------------------------------------------
// The graph of the undo tree
// ---------------------------------------------------------------------------------------------

/// How long ago something was is given in whole seconds below a minute, in whole minutes below an
/// hour, in whole hours below a day, and in whole days from there on; below five seconds, or where
/// it lies ahead, it is just now.
pub proof fn law_how_long_ago(then: int, now: int, n: nat)
    ensures
        now - then < 5 ==> undo_graph::time_ago(then, now) == "just now"@,
        5 <= n < 60 && now - then == n ==> undo_graph::time_ago(then, now) == text::decimal(n)
            + "s ago"@,
        1 <= n < 60 && 60 * n <= now - then < 60 * (n + 1) ==> undo_graph::time_ago(then, now)
            == text::decimal(n) + "m ago"@,
        1 <= n < 24 && 3600 * n <= now - then < 3600 * (n + 1) ==> undo_graph::time_ago(then, now)
            == text::decimal(n) + "h ago"@,
        1 <= n && 86400 * n <= now - then < 86400 * (n + 1) ==> undo_graph::time_ago(then, now)
            == text::decimal(n) + "d ago"@,
{
}

/// The row of a state has, behind its columns, its label, how long ago it was made, its time, and
/// how many branches start at it where there are several. The sign of the current state is filled,
/// and that of any other is not.
pub proof fn law_row_of_a_state(nodes: Seq<UndoNode>, current: int, now: int, id: int)
    requires
        0 <= id < nodes.len(),
    ensures
        ({
            let cells = undo_graph::row_cells(
                undo_graph::columns_of(nodes),
                undo_graph::column_count(nodes),
                id,
                if id == current {
                    '\u{25cf}'
                } else {
                    '\u{25cb}'
                },
            );
            let text = nodes[id].label@ + " ("@ + undo_graph::time_ago(
                nodes[id].created_at as int,
                now,
            ) + ")  "@ + nodes[id].timestamp@;
            let n = nodes[id].children@.len();
            &&& n <= 1 ==> undo_graph::node_line(nodes, current, now, id) == cells + text
            &&& n > 1 ==> undo_graph::node_line(nodes, current, now, id) == cells + text + (" ("@
                + text::decimal(n) + " branches)"@)
        }),
{
    let line = undo_graph::node_line(nodes, current, now, id);
    let cells = undo_graph::row_cells(
        undo_graph::columns_of(nodes),
        undo_graph::column_count(nodes),
        id,
        if id == current {
            '\u{25cf}'
        } else {
            '\u{25cb}'
        },
    );
    let text = nodes[id].label@ + " ("@ + undo_graph::time_ago(nodes[id].created_at as int, now)
        + ")  "@ + nodes[id].timestamp@;
    let n = nodes[id].children@.len();
    if n > 1 {
        assert(line =~= cells + text + (" ("@ + text::decimal(n) + " branches)"@));
    } else {
        assert(line =~= cells + text);
    }
}

/// The columns of a row: the sign stands in the column of its state; another column has a line
/// exactly where it has both a newer and an older state; each column is followed by a blank.
pub proof fn law_columns_of_a_row(
    columns: Seq<int>,
    total: nat,
    id: int,
    sign: char,
    c: int,
    newer: int,
    older: int,
)
    requires
        0 <= id < columns.len(),
        0 <= c < total,
    ensures
        ({
            let cells = undo_graph::row_cells(columns, total as int, id, sign);
            &&& cells.len() == 2 * total
            &&& cells[2 * c + 1] == ' '
            &&& c == columns[id] ==> cells[2 * c] == sign
            &&& c != columns[id] && 0 <= older < id < newer < columns.len() && columns[older] == c
                && columns[newer] == c ==> cells[2 * c] == '\u{2502}'
            &&& c != columns[id] && (forall|j: int| id < j < columns.len() ==> columns[j] != c)
                ==> cells[2 * c] == ' '
            &&& c != columns[id] && (forall|j: int| 0 <= j < id ==> columns[j] != c)
                ==> cells[2 * c] == ' '
        }),
{
    assert((2 * c) % 2 == 0 && (2 * c) / 2 == c && (2 * c + 1) % 2 == 1);
}

/// The row of a state stands below those of all newer states. Below the row of a state that starts
/// a branch, its column folds back in a row of its own.
pub proof fn law_rows_of_the_graph(nodes: Seq<UndoNode>, current: int, now: int, id: int)
    requires
        0 <= id < nodes.len() <= usize::MAX,
    ensures
        ({
            let upper = undo_graph::graph(nodes, current, now, id + 1);
            let all = undo_graph::graph(nodes, current, now, id);
            let own = (Some(id as usize), undo_graph::node_line(nodes, current, now, id));
            let starts = nodes[id].parent matches Some(p) && nodes[p as int].children@[0] != id;
            &&& !starts ==> all == upper.push(own)
            &&& starts ==> all == upper.push(own).push((None, undo_graph::fold_line(nodes, id)))
        }),
        undo_graph::graph(nodes, current, now, nodes.len() as int).len() == 0,
        undo_graph::fold_line(nodes, id) == undo_graph::row_cells(
            undo_graph::columns_of(nodes),
            undo_graph::column_count(nodes),
            id,
            '/',
        ),
{
}

// ---------------------------------------------------------------------------------------------
// Labels of states
// ---------------------------------------------------------------------------------------------

/// The label of a state says what was changed: the cell with what it held and holds, the row that
/// was deleted with its value, or the body with both lengths.
pub proof fn law_labels_of_states(
    section: GridSection,
    key: Seq<char>,
    col: GridCol,
    was: Seq<char>,
    is: Seq<char>,
    old_body: String,
    new_body: String,
)
    ensures
        ({
            let name = match section {
                GridSection::Query => "Query"@,
                GridSection::Headers => "Headers"@,
                GridSection::Body => "Body"@,
            };
            let cell = match col {
                GridCol::Key => "key"@,
                GridCol::Value => "value"@,
            };
            &&& grid_keys::cell_label(section, key, col, was, is) == name + " "@ + key + "."@ + cell
                + ": '"@ + was + "' \u{2192} '"@ + is + "'"@
            &&& grid_keys::delete_label(section, key, was) == name + " delete "@ + key + " (was '"@
                + was + "')"@
        }),
        grid_keys::body_label(old_body, new_body) == "Body edited ("@ + text::decimal(
            grid_keys::byte_len(old_body) as nat,
        ) + " \u{2192} "@ + text::decimal(grid_keys::byte_len(new_body) as nat) + " chars)"@,
{
}

// ---------------------------------------------------------------------------------------------
// Dates
// ---------------------------------------------------------------------------------------------

/// Every fourth year is a leap year, but of the full centuries only every fourth.
pub proof fn law_leap_years(k: int)
    ensures
        calendar::is_leap(400 * k),
        k % 4 != 0 ==> !calendar::is_leap(100 * k),
        k % 25 != 0 ==> calendar::is_leap(4 * k),
        k % 4 != 0 ==> !calendar::is_leap(k),
{
}

/// A month has 31 days, April, June, September and November have 30, and February has 28, or 29 in
/// a leap year. So a year has 365 days, or 366.
pub proof fn law_lengths_of_months(y: int)
    ensures
        calendar::month_len(y, 1) == 31 && calendar::month_len(y, 3) == 31
            && calendar::month_len(y, 5) == 31 && calendar::month_len(y, 7) == 31,
        calendar::month_len(y, 8) == 31 && calendar::month_len(y, 10) == 31
            && calendar::month_len(y, 12) == 31,
        calendar::month_len(y, 4) == 30 && calendar::month_len(y, 6) == 30
            && calendar::month_len(y, 9) == 30 && calendar::month_len(y, 11) == 30,
        calendar::is_leap(y) ==> calendar::month_len(y, 2) == 29 && calendar::year_len(y) == 366,
        !calendar::is_leap(y) ==> calendar::month_len(y, 2) == 28 && calendar::year_len(y) == 365,
        calendar::month_start(y, 13) == calendar::year_len(y),
{
    reveal_with_fuel(calendar::month_start, 14);
}

/// A timestamp gives the date of its day, and the hour, minute and second of the time that has
/// passed since that day began, each with two digits.
pub proof fn law_parts_of_timestamps(
    date: (int, int, int),
    days: nat,
    hour: nat,
    minute: nat,
    second: nat,
)
    requires
        calendar::falls_on(date, days as int),
        hour < 24,
        minute < 60,
        second < 60,
    ensures
        calendar::timestamp_text(86400 * days + 3600 * hour + 60 * minute + second)
            == text::padded_left(text::decimal(date.0 as nat), 4, '0') + "-"@ + text::padded_left(
            text::decimal(date.1 as nat),
            2,
            '0',
        ) + "-"@ + text::padded_left(text::decimal(date.2 as nat), 2, '0') + " "@
            + text::padded_left(text::decimal(hour), 2, '0') + ":"@ + text::padded_left(
            text::decimal(minute),
            2,
            '0',
        ) + ":"@ + text::padded_left(text::decimal(second), 2, '0'),
{
    let secs = 86400 * days + 3600 * hour + 60 * minute + second;
    let rem = (3600 * hour + 60 * minute + second) as nat;
    assert(secs / 86400 == days && secs % 86400 == rem);
    assert(rem / 3600 == hour && rem % 3600 == 60 * minute + second);
    assert((60 * minute + second) / 60 == minute && rem % 60 == second);
    calendar::law_one_date_per_day(date, calendar::date_of(days as int), days as int);
}

} // verus!
