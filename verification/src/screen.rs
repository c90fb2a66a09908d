//! What the terminal interface shows: texts, tones and sizes, ready to be drawn.

use crate::formats;
use crate::grid::{GridCol, GridEditState, GridSection};
use crate::paths;
use crate::paths::{file_name_or, same_path};
use crate::popups::{show_history, show_picker, show_undo_tree, HistoryList, Picker, UndoPopup};
use crate::preview;
use crate::preview::{request_head, PreviewData};
use crate::rows;
use crate::rows::{lines_of, sort_rows};
use crate::styled;
use crate::styled::{add_line, two_pieces, Piece, Tone};
use crate::text;
use crate::text::{concat3, count_lines};
use crate::tui;
use crate::tui::{find_path, ActivePanel, TuiApp};
use vstd::prelude::*;
use vstd::string::*;

verus! {

// ---------------------------------------------------------------------------------------------
// The buffers
// ---------------------------------------------------------------------------------------------

/// The sign of a spinner's frame; there are ten.
pub open spec fn spinner_char(frame: int) -> char {
    seq![
        '\u{280b}',
        '\u{2819}',
        '\u{2839}',
        '\u{2838}',
        '\u{283c}',
        '\u{2834}',
        '\u{2826}',
        '\u{2827}',
        '\u{2807}',
        '\u{280f}',
    ][frame % 10]
}

/// The row of a buffer: with a spinner while its request is in flight.
pub open spec fn buffer_row(path: Seq<char>, pending: bool, frame: int) -> styled::LineModel {
    let name = paths::base_name_or(path, "Request"@);
    if pending {
        seq![
            (Tone::YellowBold, seq![spinner_char(frame), ' ']),
            (Tone::YellowBold, name),
        ]
    } else {
        seq![(Tone::Plain, "  "@), (Tone::Cyan, name)]
    }
}

/// The rows of the buffers.
pub open spec fn buffer_rows(
    buffers: Seq<String>,
    running: Seq<Seq<char>>,
    frame: int,
) -> Seq<styled::LineModel> {
    buffers.map_values(|p: String| buffer_row(p@, tui::listed(running, p@), frame))
}

fn spinner(frame: usize) -> (r: char)
    ensures
        r == spinner_char(frame as int),
{
    match frame % 10 {
        0 => '\u{280b}',
        1 => '\u{2819}',
        2 => '\u{2839}',
        3 => '\u{2838}',
        4 => '\u{283c}',
        5 => '\u{2834}',
        6 => '\u{2826}',
        7 => '\u{2827}',
        8 => '\u{2807}',
        _ => '\u{280f}',
    }
}

/// The row of a buffer: with a spinner while its request is in flight.
pub fn row_of_buffer(path: &str, pending: bool, frame: usize) -> (r: Vec<Piece>)
    ensures
        styled::pieces_of(r@) == buffer_row(path@, pending, frame as int),
{
    let name: String = file_name_or(path, "Request");
    if pending {
        let mut sign: String = String::new();
        sign.push(spinner(frame));
        sign.push(' ');
        assert(sign@ =~= seq![spinner_char(frame as int), ' ']);
        two_pieces(Tone::YellowBold, sign.as_str(), Tone::YellowBold, name.as_str())
    } else {
        two_pieces(Tone::Plain, "  ", Tone::Cyan, name.as_str())
    }
}

fn rows_of_buffers(buffers: &Vec<String>, running: &Vec<String>, frame: usize) -> (r: Vec<
    Vec<Piece>,
>)
    ensures
        styled::lines_of(r@) == buffer_rows(buffers@, text::views(running@), frame as int),
{
    let mut out: Vec<Vec<Piece>> = Vec::new();
    let ghost names = text::views(running@);
    assert(styled::lines_of(out@) =~= buffer_rows(buffers@.take(0), names, frame as int));
    for i in 0..buffers.len()
        invariant
            names == text::views(running@),
            styled::lines_of(out@) == buffer_rows(buffers@.take(i as int), names, frame as int),
    {
        let pending: bool = find_path(running, buffers[i].as_str()).is_some();
        add_line(&mut out, row_of_buffer(buffers[i].as_str(), pending, frame));
        assert(buffers@.take(i + 1) =~= buffers@.take(i as int).push(buffers@[i as int]));
        assert(styled::lines_of(out@) =~= buffer_rows(buffers@.take(i + 1), names, frame as int));
    }
    assert(buffers@.take(buffers@.len() as int) == buffers@);
    out
}

// ---------------------------------------------------------------------------------------------
// Panels of text
// ---------------------------------------------------------------------------------------------

/// A panel of text.
pub struct Panel {
    pub title: String,
    pub text: String,
    pub focused: bool,
    pub scroll: u16,
}

/// The model of a [`Panel`].
pub ghost struct PanelModel {
    pub title: Seq<char>,
    pub text: Seq<char>,
    pub focused: bool,
    pub scroll: u16,
}

impl View for Panel {
    type V = PanelModel;

    open spec fn view(&self) -> PanelModel {
        PanelModel {
            title: self.title@,
            text: self.text@,
            focused: self.focused,
            scroll: self.scroll,
        }
    }
}

/// The panel of the active environment with its variables.
pub open spec fn env_panel(
    active: Option<Seq<char>>,
    vars: Seq<rows::Entry>,
    focused: bool,
    scroll: u16,
) -> PanelModel {
    PanelModel {
        title: match active {
            Some(name) => " Environment | "@ + name + " ('t' to switch) "@,
            None => " Environment | none ('t' to choose) "@,
        },
        text: match active {
            Some(_) => if vars.len() == 0 {
                "No variables set for this environment.\nPress 'e' to edit its file."@
            } else {
                text::joined(rows::entry_lines(rows::sorted(vars), ""@, " = "@), "\n"@)
            },
            None => "No active environment.\nPress 't' to choose one via Telescope."@,
        },
        focused,
        scroll,
    }
}

/// The panel of the response.
pub open spec fn response_panel(
    status: Seq<char>,
    response: Seq<char>,
    awaited: bool,
    focused: bool,
    scroll: u16,
) -> PanelModel {
    PanelModel {
        title: " Response | "@ + status + " "@,
        text: if response.len() > 0 {
            response
        } else if awaited {
            "Sending HTTP request in background... You can continue navigating and trigger other requests too."@
        } else {
            "No response yet. Press Enter to run the selected request.\n\nPress Space then h to browse Request/Response History.\nPress ? for the full list of keybindings."@
        },
        focused,
        scroll,
    }
}

/// The panel of the active environment, given its variables.
pub fn panel_of_env(
    active: &Option<String>,
    vars: &Vec<(String, String)>,
    focused: bool,
    scroll: u16,
) -> (r: Panel)
    ensures
        r@ == env_panel(formats::opt_text(*active), rows::entries(vars@), focused, scroll),
{
    let (title, text): (String, String) = match active {
        Some(name) => {
            let title: String = concat3(" Environment | ", name.as_str(), " ('t' to switch) ");
            let text: String = if vars.is_empty() {
                "No variables set for this environment.\nPress 'e' to edit its file.".to_string()
            } else {
                lines_of(&sort_rows(vars), "", " = ")
            };
            (title, text)
        },
        None => (
            " Environment | none ('t' to choose) ".to_string(),
            "No active environment.\nPress 't' to choose one via Telescope.".to_string(),
        ),
    };
    assert(rows::entries(vars@).len() == vars@.len());
    Panel { title, text, focused, scroll }
}

/// The panel of the response.
pub fn panel_of_response(
    status: &str,
    response: &str,
    awaited: bool,
    focused: bool,
    scroll: u16,
) -> (r: Panel)
    ensures
        r@ == response_panel(status@, response@, awaited, focused, scroll),
{
    let text: String = if !response.is_empty() {
        response.to_string()
    } else if awaited {
        "Sending HTTP request in background... You can continue navigating and trigger other requests too.".to_string()
    } else {
        "No response yet. Press Enter to run the selected request.\n\nPress Space then h to browse Request/Response History.\nPress ? for the full list of keybindings.".to_string()
    };
    Panel { title: concat3(" Response | ", status, " "), text, focused, scroll }
}

// ---------------------------------------------------------------------------------------------
// Grids
// ---------------------------------------------------------------------------------------------

/// A cell under the cursor: its row and column, and the text that is being typed into it.
pub struct Focus {
    pub row: usize,
    pub col: GridCol,
    pub editing_text: Option<String>,
}

/// The text of a cell: what is being typed with a cursor behind it, or what it holds.
pub open spec fn cell_text(
    held: Seq<char>,
    row: int,
    col: GridCol,
    focus: Option<Focus>,
) -> Seq<char> {
    match focus {
        Some(f) => if f.row == row && f.col == col {
            match f.editing_text {
                Some(typed) => typed@.push('\u{2588}'),
                None => held,
            }
        } else {
            held
        },
        None => held,
    }
}

/// Whether a cell is under the cursor.
pub open spec fn under_cursor(row: int, col: GridCol, focus: Option<Focus>) -> bool {
    focus matches Some(f) && f.row == row && f.col == col
}

/// A row of a grid: the cell of the key and that of the value.
pub open spec fn table_row(
    entry: rows::Entry,
    row: int,
    focus: Option<Focus>,
) -> styled::LineModel {
    seq![
        (
            if under_cursor(row, GridCol::Key, focus) {
                Tone::Cursor
            } else {
                Tone::Cyan
            },
            cell_text(entry.0, row, GridCol::Key, focus),
        ),
        (
            if under_cursor(row, GridCol::Value, focus) {
                Tone::Cursor
            } else {
                Tone::Plain
            },
            cell_text(entry.1, row, GridCol::Value, focus),
        ),
    ]
}

/// A grid as it is shown: its heading and its rows.
pub struct KvTable {
    pub heading: Vec<Piece>,
    pub rows: Vec<Vec<Piece>>,
}

/// The model of a [`KvTable`].
pub ghost struct TableModel {
    pub heading: styled::LineModel,
    pub rows: Seq<styled::LineModel>,
}

impl View for KvTable {
    type V = TableModel;

    open spec fn view(&self) -> TableModel {
        TableModel {
            heading: styled::pieces_of(self.heading@),
            rows: styled::lines_of(self.rows@),
        }
    }
}

/// The rows of a grid.
pub open spec fn table_rows(list: Seq<rows::Entry>, focus: Option<Focus>) -> Seq<
    styled::LineModel,
> {
    Seq::new(list.len(), |i: int| table_row(list[i], i, focus))
}

/// A grid as it is shown.
pub open spec fn table(list: Seq<rows::Entry>, focus: Option<Focus>) -> TableModel {
    TableModel {
        heading: seq![(Tone::YellowBold, "KEY"@), (Tone::YellowBold, "VALUE"@)],
        rows: table_rows(list, focus),
    }
}

fn cell_piece(held: &str, row: usize, col: GridCol, focus: &Option<Focus>, tone: Tone) -> (r: Piece)
    ensures
        r.text@ == cell_text(held@, row as int, col, *focus),
        r.tone == if under_cursor(row as int, col, *focus) {
            Tone::Cursor
        } else {
            tone
        },
{
    match focus {
        Some(f) => if f.row == row && f.col == col {
            match &f.editing_text {
                Some(typed) => {
                    let mut shown: String = typed.clone();
                    shown.push('\u{2588}');
                    Piece { tone: Tone::Cursor, text: shown }
                },
                None => Piece { tone: Tone::Cursor, text: held.to_string() },
            }
        } else {
            Piece { tone, text: held.to_string() }
        },
        None => Piece { tone, text: held.to_string() },
    }
}

/// A grid with its heading. The cell under the cursor stands out and shows what is typed into it.
pub fn render_kv_table(list: &Vec<(String, String)>, focus: &Option<Focus>) -> (r: KvTable)
    ensures
        r@ == table(rows::entries(list@), *focus),
{
    let mut out: Vec<Vec<Piece>> = Vec::new();
    let ghost all = rows::entries(list@);
    for i in 0..list.len()
        invariant
            all == rows::entries(list@),
            styled::lines_of(out@) == table_rows(all.take(i as int), *focus),
    {
        let key: Piece = cell_piece(list[i].0.as_str(), i, GridCol::Key, focus, Tone::Cyan);
        let value: Piece = cell_piece(list[i].1.as_str(), i, GridCol::Value, focus, Tone::Plain);
        let row: Vec<Piece> = two_pieces(key.tone, key.text.as_str(), value.tone, value.text.as_str());
        assert(styled::pieces_of(row@) =~= table_row(all[i as int], i as int, *focus));
        add_line(&mut out, row);
        assert(styled::lines_of(out@) =~= table_rows(all.take(i + 1), *focus));
    }
    assert(all.take(list@.len() as int) == all);
    KvTable { heading: two_pieces(Tone::YellowBold, "KEY", Tone::YellowBold, "VALUE"), rows: out }
}

/// The height of a grid of so many rows with its heading: from 2 to 8 lines. Counts of rows are
/// taken modulo 65536.
pub open spec fn grid_height(len: int) -> int {
    let lines = len % 65536 + 1;
    if lines < 2 {
        2
    } else if lines > 8 {
        8
    } else {
        lines
    }
}

/// The height of a grid of so many rows with its heading.
pub fn height_of_grid(len: usize) -> (r: u16)
    ensures
        r == grid_height(len as int),
{
    let lines: usize = len % 65536 + 1;
    if lines < 2 {
        2
    } else if lines > 8 {
        8
    } else {
        lines as u16
    }
}

/// The height of a text: its lines, at least one. Counts of lines are taken modulo 65536.
pub open spec fn text_height(s: Seq<char>) -> int {
    (if text::line_count(s) == 0 {
        1
    } else {
        text::line_count(s) as int
    }) % 65536
}

/// The height of a text.
pub fn height_of_text(s: &str) -> (r: u16)
    ensures
        r == text_height(s@),
{
    let n: usize = count_lines(s);
    let lines: usize = if n == 0 {
        1
    } else {
        n
    };
    (lines % 65536) as u16
}

// ---------------------------------------------------------------------------------------------
// The preview
// ---------------------------------------------------------------------------------------------

/// What is under the cursor of the grid editor.
pub struct EditFocus {
    pub section: GridSection,
    pub cell: Focus,
}

/// The section that is edited.
pub open spec fn edited_section(focus: Option<EditFocus>) -> Option<GridSection> {
    match focus {
        Some(f) => Some(f.section),
        None => None,
    }
}

/// The cell under the cursor, where that is in a section.
pub open spec fn cell_in(focus: Option<EditFocus>, section: GridSection) -> Option<Focus> {
    match focus {
        Some(f) => if f.section == section {
            Some(f.cell)
        } else {
            None
        },
        None => None,
    }
}

/// The label of the query parameters.
pub open spec fn query_label(section: Option<GridSection>) -> Seq<char> {
    if section == Some(GridSection::Query) {
        "* Query Params: (Tab to switch to Headers)"@
    } else {
        "* Query Params:"@
    }
}

/// The label of the headers.
pub open spec fn header_label(section: Option<GridSection>) -> Seq<char> {
    if section == Some(GridSection::Headers) {
        "* Headers: (Tab to switch to Body)"@
    } else {
        "* Headers:"@
    }
}

/// The label of the body.
pub open spec fn body_label(cell: Option<Focus>) -> Seq<char> {
    match cell {
        Some(f) => if f.editing_text is Some {
            "* Body: (editing \u{2014} Enter: newline, Ctrl+D: save & exit, Esc: cancel)"@
        } else {
            "* Body: (Tab to switch to Query \u{2014} i/Enter to edit)"@
        },
        None => "* Body:"@,
    }
}

/// What the preview shows of a request.
pub struct Shown {
    pub top: String,
    pub top_height: u16,
    pub query_label: String,
    pub query_table: KvTable,
    pub query_height: u16,
    pub header_label: String,
    pub header_table: KvTable,
    pub header_height: u16,
    pub body_label: String,
    pub body: String,
    /// The section that is edited.
    pub section: Option<GridSection>,
    pub scroll: u16,
}

/// The model of a [`Shown`].
pub ghost struct ShownModel {
    pub top: Seq<char>,
    pub top_height: int,
    pub query_label: Seq<char>,
    pub query_table: TableModel,
    pub query_height: int,
    pub header_label: Seq<char>,
    pub header_table: TableModel,
    pub header_height: int,
    pub body_label: Seq<char>,
    pub body: Seq<char>,
    pub section: Option<GridSection>,
    pub scroll: u16,
}

impl View for Shown {
    type V = ShownModel;

    open spec fn view(&self) -> ShownModel {
        ShownModel {
            top: self.top@,
            top_height: self.top_height as int,
            query_label: self.query_label@,
            query_table: self.query_table@,
            query_height: self.query_height as int,
            header_label: self.header_label@,
            header_table: self.header_table@,
            header_height: self.header_height as int,
            body_label: self.body_label@,
            body: self.body@,
            section: self.section,
            scroll: self.scroll,
        }
    }
}

/// What the preview shows, given its parts.
pub open spec fn shown(
    top: Seq<char>,
    query: Seq<rows::Entry>,
    headers: Seq<rows::Entry>,
    body: Seq<char>,
    focus: Option<EditFocus>,
    scroll: u16,
) -> ShownModel {
    ShownModel {
        top,
        top_height: text_height(top),
        query_label: query_label(edited_section(focus)),
        query_table: table(query, cell_in(focus, GridSection::Query)),
        query_height: grid_height(query.len() as int),
        header_label: header_label(edited_section(focus)),
        header_table: table(headers, cell_in(focus, GridSection::Headers)),
        header_height: grid_height(headers.len() as int),
        body_label: body_label(cell_in(focus, GridSection::Body)),
        body,
        section: edited_section(focus),
        scroll,
    }
}

/// What is under the cursor of an editor.
pub open spec fn focus_of(e: GridEditState) -> EditFocus {
    EditFocus {
        section: e.section,
        cell: Focus { row: e.row, col: e.col, editing_text: e.editing_text },
    }
}

/// The body as it is edited: what is being typed with a cursor behind it, or what it holds.
pub open spec fn edited_body(e: GridEditState) -> Seq<char> {
    match e.editing_text {
        Some(typed) if e.section == GridSection::Body => typed@.push('\u{2588}'),
        _ => e.body_text@,
    }
}

/// The body of a preview, with the file below it.
pub open spec fn previewed_body(p: preview::Preview) -> Seq<char> {
    (if p.body_text.len() == 0 {
        "None"@
    } else {
        p.body_text
    }) + "\n\n--- Raw File ---\n"@ + p.raw_file
}

/// What is shown of a request: as it is edited, or else its preview.
pub open spec fn shown_request(
    edit: Option<GridEditState>,
    p: preview::Preview,
    scroll: u16,
) -> ShownModel {
    match edit {
        Some(e) => shown(
            preview::head_of(e.original@),
            rows::entries(e.query_rows@),
            rows::entries(e.header_rows@),
            edited_body(e),
            Some(focus_of(e)),
            scroll,
        ),
        None => shown(p.top, p.query_rows, p.header_rows, previewed_body(p), None, scroll),
    }
}

/// The title of the preview.
pub open spec fn preview_title(path: Option<Seq<char>>, editing: bool) -> Seq<char> {
    match path {
        Some(p) => " Preview | "@ + paths::base_name_or(p, "request"@) + if editing {
            " [EDITING] "@
        } else {
            " "@
        },
        None => " Preview "@,
    }
}

/// Whether the current buffer is the one that is edited.
pub open spec fn editing_current(app: TuiApp) -> bool {
    app.grid_edit matches Some(e) && app.current() matches Some(p) && paths::same(e.path@, p@)
}

fn cell_of(focus: &Option<EditFocus>, section: GridSection) -> (r: Option<Focus>)
    ensures
        r == cell_in(*focus, section),
{
    match focus {
        Some(f) => if f.section == section {
            Some(
                Focus {
                    row: f.cell.row,
                    col: f.cell.col,
                    editing_text: match &f.cell.editing_text {
                        Some(t) => Some(t.clone()),
                        None => None,
                    },
                },
            )
        } else {
            None
        },
        None => None,
    }
}

/// What the preview shows, given its parts.
pub fn show(
    top: String,
    query: &Vec<(String, String)>,
    headers: &Vec<(String, String)>,
    body: String,
    focus: &Option<EditFocus>,
    scroll: u16,
) -> (r: Shown)
    ensures
        r@ == shown(
            top@,
            rows::entries(query@),
            rows::entries(headers@),
            body@,
            *focus,
            scroll,
        ),
{
    let section: Option<GridSection> = match focus {
        Some(f) => Some(f.section),
        None => None,
    };
    let query_label: String = match section {
        Some(GridSection::Query) => "* Query Params: (Tab to switch to Headers)".to_string(),
        _ => "* Query Params:".to_string(),
    };
    let header_label: String = match section {
        Some(GridSection::Headers) => "* Headers: (Tab to switch to Body)".to_string(),
        _ => "* Headers:".to_string(),
    };
    let body_label: String = match cell_of(focus, GridSection::Body) {
        Some(f) => if f.editing_text.is_some() {
            "* Body: (editing \u{2014} Enter: newline, Ctrl+D: save & exit, Esc: cancel)".to_string()
        } else {
            "* Body: (Tab to switch to Query \u{2014} i/Enter to edit)".to_string()
        },
        None => "* Body:".to_string(),
    };
    let top_height: u16 = height_of_text(top.as_str());
    Shown {
        top,
        top_height,
        query_label,
        query_table: render_kv_table(query, &cell_of(focus, GridSection::Query)),
        query_height: height_of_grid(query.len()),
        header_label,
        header_table: render_kv_table(headers, &cell_of(focus, GridSection::Headers)),
        header_height: height_of_grid(headers.len()),
        body_label,
        body,
        section,
        scroll,
    }
}

fn show_edit(e: &GridEditState, scroll: u16) -> (r: Shown)
    ensures
        r@ == shown(
            preview::head_of(e.original@),
            rows::entries(e.query_rows@),
            rows::entries(e.header_rows@),
            edited_body(*e),
            Some(focus_of(*e)),
            scroll,
        ),
{
    let mut body: String = e.body_text.clone();
    if e.section == GridSection::Body {
        match &e.editing_text {
            Some(typed) => {
                body = typed.clone();
                body.push('\u{2588}');
            },
            None => {},
        }
    }
    let focus: EditFocus = EditFocus {
        section: e.section,
        cell: Focus {
            row: e.row,
            col: e.col,
            editing_text: match &e.editing_text {
                Some(t) => Some(t.clone()),
                None => None,
            },
        },
    };
    assert(focus == focus_of(*e));
    show(
        request_head(&e.original),
        &e.query_rows,
        &e.header_rows,
        body,
        &Some(focus),
        scroll,
    )
}

fn show_preview(p: &PreviewData, scroll: u16) -> (r: Shown)
    ensures
        r@ == shown(
            p@.top,
            p@.query_rows,
            p@.header_rows,
            previewed_body(p@),
            None,
            scroll,
        ),
{
    let held: &str = if p.body_text.as_str().is_empty() {
        "None"
    } else {
        p.body_text.as_str()
    };
    let body: String = concat3(held, "\n\n--- Raw File ---\n", p.raw_file.as_str());
    show(p.top.clone(), &p.query_rows, &p.header_rows, body, &None, scroll)
}

/// The title of the preview.
pub fn title_of_preview(path: &Option<String>, editing: bool) -> (r: String)
    ensures
        r@ == preview_title(formats::opt_text(*path), editing),
{
    match path {
        Some(p) => {
            let name: String = file_name_or(p.as_str(), "request");
            if editing {
                concat3(" Preview | ", name.as_str(), " [EDITING] ")
            } else {
                concat3(" Preview | ", name.as_str(), " ")
            }
        },
        None => " Preview ".to_string(),
    }
}

/// The percentages of the parts before, in and behind a popup that takes `percent` of the screen.
pub fn centered_percentages(percent: u16) -> (r: (u16, u16, u16))
    requires
        percent <= 100,
    ensures
        r.0 == (100 - percent) / 2,
        r.1 == percent,
        r.2 == r.0,
        99 <= r.0 + r.1 + r.2 <= 100,
{
    let side: u16 = (100 - percent) / 2;
    (side, percent, side)
}

// ---------------------------------------------------------------------------------------------
// The whole
// ---------------------------------------------------------------------------------------------

/// What the whole screen shows.
pub struct Screen {
    pub buffers: Vec<Vec<Piece>>,
    pub selected_buffer: Option<usize>,
    pub env: Panel,
    pub preview_title: String,
    pub preview_focused: bool,
    /// What the preview shows; none where no buffer is open.
    pub preview: Option<Shown>,
    pub response: Panel,
    pub picker: Option<Picker>,
    pub help: bool,
    pub history: Option<HistoryList>,
    pub selected_entry: Option<usize>,
    pub undo: Option<UndoPopup>,
}

/// What the preview shows where no buffer is open.
pub const NO_BUFFERS: &'static str =
    "No buffers open. Press 't' to open Telescope and search for request files.";

/// Whether a screen shows the interface, given the active environment with its variables, the
/// preview of the current buffer, and the time.
pub open spec fn shows(
    screen: Screen,
    app: TuiApp,
    active: Option<Seq<char>>,
    vars: Seq<rows::Entry>,
    p: preview::Preview,
    now: int,
) -> bool {
    let path = formats::opt_text(app.current());
    &&& styled::lines_of(screen.buffers@) == buffer_rows(
        app.buffers@,
        text::views(app.running_requests@),
        app.spinner_frame as int,
    )
    &&& screen.selected_buffer == app.selected_buffer
    &&& screen.env@ == env_panel(
        active,
        vars,
        app.selected_panel == ActivePanel::Environments,
        app.env_scroll,
    )
    &&& screen.preview_title@ == preview_title(path, editing_current(app))
    &&& screen.preview_focused == (editing_current(app) || app.selected_panel
        == ActivePanel::Preview)
    &&& match screen.preview {
        Some(s) => app.buffers@.len() > 0 && s@ == shown_request(
            app.grid_edit,
            p,
            app.preview_scroll,
        ),
        None => app.buffers@.len() == 0,
    }
    &&& screen.response@ == response_panel(
        app.status_view@,
        app.response_view@,
        app.focused_request is Some,
        app.selected_panel == ActivePanel::Response,
        app.response_scroll,
    )
    &&& match screen.picker {
        Some(picker) => app.telescope.active && picker.shows(app.telescope),
        None => !app.telescope.active,
    }
    &&& screen.help == app.show_help
    &&& match screen.history {
        Some(list) => app.history_active && list.shows(app.history@),
        None => !app.history_active,
    }
    &&& screen.selected_entry == app.selected_entry
    &&& match screen.undo {
        Some(popup) => app.grid_edit matches Some(e) && e.undo_tree_active && popup.shows(e, now),
        None => app.grid_edit matches Some(e) ==> !e.undo_tree_active,
    }
}

impl TuiApp {
    fn edits_current(&self, path: &Option<String>) -> (r: bool)
        requires
            *path == self.current(),
        ensures
            r == editing_current(*self),
    {
        match (&self.grid_edit, path) {
            (Some(e), Some(p)) => same_path(e.path.as_str(), p.as_str()),
            _ => false,
        }
    }

    /// What the screen shows, given the active environment with its variables, the preview of the
    /// current buffer, and the time.
    pub fn ui(
        &self,
        active_env: &Option<String>,
        env_vars: &Vec<(String, String)>,
        preview: &PreviewData,
        now: u64,
    ) -> (r: Screen)
        requires
            self.wf(),
        ensures
            shows(
                r,
                *self,
                formats::opt_text(*active_env),
                rows::entries(env_vars@),
                preview@,
                now as int,
            ),
    {
        let path: Option<String> = self.current_buffer();
        let editing: bool = self.edits_current(&path);
        let shown: Option<Shown> = if self.buffers.is_empty() {
            None
        } else {
            match &self.grid_edit {
                Some(e) => Some(show_edit(e, self.preview_scroll)),
                None => Some(show_preview(preview, self.preview_scroll)),
            }
        };
        let undo: Option<UndoPopup> = match &self.grid_edit {
            Some(e) => if e.undo_tree_active {
                Some(show_undo_tree(e, now))
            } else {
                None
            },
            None => None,
        };
        Screen {
            buffers: rows_of_buffers(&self.buffers, &self.running_requests, self.spinner_frame),
            selected_buffer: self.selected_buffer,
            env: panel_of_env(
                active_env,
                env_vars,
                self.selected_panel == ActivePanel::Environments,
                self.env_scroll,
            ),
            preview_title: title_of_preview(&path, editing),
            preview_focused: editing || self.selected_panel == ActivePanel::Preview,
            preview: shown,
            response: panel_of_response(
                self.status_view.as_str(),
                self.response_view.as_str(),
                self.focused_request.is_some(),
                self.selected_panel == ActivePanel::Response,
                self.response_scroll,
            ),
            picker: if self.telescope.active {
                Some(show_picker(&self.telescope))
            } else {
                None
            },
            help: self.show_help,
            history: if self.history_active {
                Some(show_history(&self.history))
            } else {
                None
            },
            selected_entry: self.selected_entry,
            undo,
        }
    }
}

} // verus!
