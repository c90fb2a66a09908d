//! What the popups of the terminal interface show.

use crate::diff;
use crate::diff::{diff_rows, DiffKind};
use crate::grid::GridEditState;
use crate::history::HistoryEntry;
use crate::rows;
use crate::styled;
use crate::styled::{add_line, add_piece, one_piece, three_pieces, two_pieces, Piece, Tone};
use crate::telescope::{Telescope, TelescopeItem};
use crate::text;
use crate::text::{concat2, concat3, decimal_text, pad_right, same_text};
use crate::undo;
use crate::undo::UndoNode;
use crate::undo_graph;
use crate::undo_graph::build_undo_tree_graph_lines;
use vstd::prelude::*;
use vstd::string::*;

verus! {

// ---------------------------------------------------------------------------------------------
// The picker
// ---------------------------------------------------------------------------------------------

/// The mark in front of a row.
pub open spec fn mark(selected: bool) -> Seq<char> {
    if selected {
        ">> "@
    } else {
        "   "@
    }
}

fn mark_text(selected: bool) -> (r: &'static str)
    ensures
        r@ == mark(selected),
{
    if selected {
        ">> "
    } else {
        "   "
    }
}

/// The row of an item in the picker.
pub open spec fn item_row(display: Seq<char>, selected: bool) -> styled::LineModel {
    seq![
        (Tone::Plain, mark(selected)),
        (
            if selected {
                Tone::YellowBold
            } else {
                Tone::Cyan
            },
            display,
        ),
    ]
}

/// The rows of the picker.
pub open spec fn picker_rows(items: Seq<TelescopeItem>, selected: int) -> Seq<styled::LineModel> {
    Seq::new(items.len(), |i: int| item_row(items[i].display@, i == selected))
}

/// The title of the picker's list.
pub open spec fn found_title(n: nat) -> Seq<char> {
    " "@ + text::decimal(n) + " found "@
}

/// The picker as it is shown.
pub struct Picker {
    pub title: String,
    pub query: String,
    pub found: String,
    pub rows: Vec<Vec<Piece>>,
}

impl Picker {
    /// Whether this is what is shown of a picker.
    pub open spec fn shows(&self, t: Telescope) -> bool {
        &&& self.title@ == t.title@
        &&& self.query@ == t.query@
        &&& self.found@ == found_title(t.matching().len())
        &&& styled::lines_of(self.rows@) == picker_rows(t.matching(), t.selected as int)
    }
}

/// The picker as it is shown.
pub fn show_picker(t: &Telescope) -> (r: Picker)
    ensures
        r.shows(*t),
{
    let items: Vec<&TelescopeItem> = t.filtered();
    let ghost all = t.matching();
    let mut out: Vec<Vec<Piece>> = Vec::new();
    assert(styled::lines_of(out@) =~= picker_rows(all.take(0), t.selected as int));
    let n: usize = items.len();
    for i in 0..n
        invariant
            n == items@.len(),
            all == t.matching(),
            n == all.len(),
            forall|k: int| 0 <= k < n ==> *(#[trigger] items@[k]) == all[k],
            styled::lines_of(out@) == picker_rows(all.take(i as int), t.selected as int),
    {
        let here: bool = i == t.selected;
        let tone: Tone = if here {
            Tone::YellowBold
        } else {
            Tone::Cyan
        };
        let row: Vec<Piece> = two_pieces(
            Tone::Plain,
            mark_text(here),
            tone,
            items[i].display.as_str(),
        );
        assert(styled::pieces_of(row@) =~= item_row(all[i as int].display@, i == t.selected));
        add_line(&mut out, row);
        assert(styled::lines_of(out@) =~= picker_rows(all.take(i + 1), t.selected as int));
    }
    assert(all.take(n as int) == all);
    let found: String = concat3(" ", decimal_text(n as u64).as_str(), " found ");
    Picker { title: t.title.clone(), query: t.query.clone(), found, rows: out }
}

// ---------------------------------------------------------------------------------------------
// The help
// ---------------------------------------------------------------------------------------------

/// The keys and what they do.
pub const HELP_TEXT: &'static str = "Keybindings:\n\n* Shift+H / Shift+L: Switch to previous / next open buffer\n(Preview panel always shows the selected buffer)\n* Space b          : Telescope: switch between already-open buffers\n* Space h          : Open Request/Response History\n* t                : Preview panel: Open Telescope File Finder (open new buffer)\nEnvironments panel: Open Telescope Environment Switcher\n* d                : Close selected buffer (Preview panel)\n* Tab              : Switch panels (Cycle: Preview -> Environments -> Response)\n* h/l, Left/Right  : Switch panels (Preview/Env <-> Response only)\n* Ctrl+h/j/k/l     : Move focus between panels (tmux/vim-window style)\n* j/k, Up/Down     : Scroll Preview / Response / environment vars\n* Ctrl+n / Ctrl+p  : Same as Down / Up (Emacs style), everywhere\n* Enter            : Run the selected request (Preview panel)\n* e                : Edit request file (Preview panel) /\nview response in editor to copy (Response panel) /\nedit active environment's variables (Environments panel)\n* i                : Edit Query Params / Headers / Body inline (Preview panel):\nTab cycles Query -> Headers -> Body, j/k row, h/l column,\na add row, d delete row (Query/Headers only),\nEnter/i edit cell or body (auto-saves to disk on commit),\nBody text: Enter = newline, Ctrl+D = save & exit,\nCtrl+Z/Ctrl+Y undo/redo, u: browse Undo Tree, Esc: exit\n* ? / Esc          : Toggle this Help popup\n* q, Ctrl+C        : Quit app";

// ---------------------------------------------------------------------------------------------
// The history
// ---------------------------------------------------------------------------------------------

/// The row of an entry of the history.
pub open spec fn entry_row(entry: HistoryEntry) -> styled::LineModel {
    seq![
        (Tone::DarkGray, entry.timestamp@ + " "@),
        (Tone::Cyan, text::padded_right(entry.method@, 6)),
        (Tone::Plain, entry.url@ + "  "@),
        (Tone::Yellow, entry.status@),
    ]
}

/// The rows of the history.
pub open spec fn entry_rows(entries: Seq<HistoryEntry>) -> Seq<styled::LineModel> {
    entries.map_values(|e: HistoryEntry| entry_row(e))
}

/// The title of the history.
pub open spec fn history_title(n: nat) -> Seq<char> {
    if n == 0 {
        " History (empty) | Esc/q to close "@
    } else {
        " History ("@ + text::decimal(n) + " entries) | Enter: view in Response, Esc/q: close "@
    }
}

/// The history as it is shown.
pub struct HistoryList {
    pub title: String,
    pub rows: Vec<Vec<Piece>>,
}

impl HistoryList {
    /// Whether this is what is shown of a history.
    pub open spec fn shows(&self, entries: Seq<HistoryEntry>) -> bool {
        &&& self.title@ == history_title(entries.len())
        &&& styled::lines_of(self.rows@) == entry_rows(entries)
    }
}

/// The history as it is shown.
pub fn show_history(entries: &Vec<HistoryEntry>) -> (r: HistoryList)
    ensures
        r.shows(entries@),
{
    let mut out: Vec<Vec<Piece>> = Vec::new();
    assert(styled::lines_of(out@) =~= entry_rows(entries@.take(0)));
    let n: usize = entries.len();
    for i in 0..n
        invariant
            n == entries@.len(),
            styled::lines_of(out@) == entry_rows(entries@.take(i as int)),
    {
        let mut row: Vec<Piece> = three_pieces(
            Tone::DarkGray,
            concat2(entries[i].timestamp.as_str(), " ").as_str(),
            Tone::Cyan,
            pad_right(entries[i].method.as_str(), 6).as_str(),
            Tone::Plain,
            concat2(entries[i].url.as_str(), "  ").as_str(),
        );
        add_piece(&mut row, Tone::Yellow, entries[i].status.as_str());
        assert(styled::pieces_of(row@) =~= entry_row(entries@[i as int]));
        add_line(&mut out, row);
        assert(entries@.take(i + 1) =~= entries@.take(i as int).push(entries@[i as int]));
        assert(styled::lines_of(out@) =~= entry_rows(entries@.take(i + 1)));
    }
    assert(entries@.take(n as int) == entries@);
    let title: String = if n == 0 {
        " History (empty) | Esc/q to close ".to_string()
    } else {
        concat3(
            " History (",
            decimal_text(n as u64).as_str(),
            " entries) | Enter: view in Response, Esc/q: close ",
        )
    };
    HistoryList { title, rows: out }
}

// ---------------------------------------------------------------------------------------------
// The undo tree
// ---------------------------------------------------------------------------------------------

/// The row of a line of the undo tree.
pub open spec fn tree_row(
    line: (Option<usize>, Seq<char>),
    current: usize,
    selected: usize,
) -> styled::LineModel {
    seq![
        (Tone::Plain, mark(line.0 == Some(selected))),
        (
            if line.0 is None {
                Tone::DarkGray
            } else if line.0 == Some(current) {
                Tone::GreenBold
            } else {
                Tone::Cyan
            },
            line.1,
        ),
    ]
}

/// The rows of the undo tree.
pub open spec fn tree_rows(
    lines: Seq<(Option<usize>, Seq<char>)>,
    current: usize,
    selected: usize,
) -> Seq<styled::LineModel> {
    lines.map_values(|l: (Option<usize>, Seq<char>)| tree_row(l, current, selected))
}

/// The tone of a kind of change.
pub open spec fn diff_tone(kind: DiffKind) -> Tone {
    match kind {
        DiffKind::Added => Tone::Green,
        DiffKind::Removed => Tone::Red,
        DiffKind::Changed => Tone::Yellow,
    }
}

/// The rows of changes, each with the section in front of it.
pub open spec fn change_rows(
    section: Seq<char>,
    lines: Seq<(DiffKind, Seq<char>)>,
) -> Seq<styled::LineModel> {
    lines.map_values(
        |l: (DiffKind, Seq<char>)| seq![(diff_tone(l.0), section + " "@ + l.1)],
    )
}

/// The row of a change of the body; none where it is the same.
pub open spec fn body_rows(before: Seq<char>, after: Seq<char>) -> Seq<styled::LineModel> {
    if before == after {
        Seq::empty()
    } else {
        seq![seq![(Tone::Yellow, "Body changed"@)]]
    }
}

/// The rows of what changed from one state to another.
pub open spec fn step_rows(
    before: undo::GridContent,
    after: undo::GridContent,
) -> Seq<styled::LineModel> {
    let all = change_rows(
        "Query"@,
        diff::difference(rows::entries(before.query_rows), rows::entries(after.query_rows)),
    ) + change_rows(
        "Headers"@,
        diff::difference(rows::entries(before.header_rows), rows::entries(after.header_rows)),
    ) + body_rows(before.body_text@, after.body_text@);
    if all.len() == 0 {
        seq![seq![(Tone::Plain, "(no change vs previous state)"@)]]
    } else {
        all
    }
}

/// That nothing changed is said exactly of states with the same body whose grids give every key
/// the same value.
pub proof fn law_no_change_is_said_truly(before: undo::GridContent, after: undo::GridContent)
    ensures
        step_rows(before, after) == seq![seq![(Tone::Plain, "(no change vs previous state)"@)]]
            <==> {
            &&& before.body_text@ == after.body_text@
            &&& same_values(rows::entries(before.query_rows), rows::entries(after.query_rows))
            &&& same_values(rows::entries(before.header_rows), rows::entries(after.header_rows))
        },
{
    let note = seq![seq![(Tone::Plain, "(no change vs previous state)"@)]];
    let query = diff::difference(
        rows::entries(before.query_rows),
        rows::entries(after.query_rows),
    );
    let headers = diff::difference(
        rows::entries(before.header_rows),
        rows::entries(after.header_rows),
    );
    lemma_same_values(rows::entries(before.query_rows), rows::entries(after.query_rows));
    lemma_same_values(rows::entries(before.header_rows), rows::entries(after.header_rows));
    let all = change_rows("Query"@, query) + change_rows("Headers"@, headers) + body_rows(
        before.body_text@,
        after.body_text@,
    );
    if all.len() > 0 {
        assert(all[0][0].0 != Tone::Plain);
        assert(note[0][0].0 == Tone::Plain);
    }
}

/// Whether two lists give every key the same value.
pub open spec fn same_values(a: Seq<rows::Entry>, b: Seq<rows::Entry>) -> bool {
    forall|key: Seq<char>| #[trigger] rows::value_of(a, key) == rows::value_of(b, key)
}

proof fn lemma_same_values(a: Seq<rows::Entry>, b: Seq<rows::Entry>)
    ensures
        diff::difference(a, b).len() == 0 <==> same_values(a, b),
{
    if same_values(a, b) {
        diff::law_equal_lists_have_no_difference(a, b);
    }
    if diff::difference(a, b).len() == 0 {
        assert forall|key: Seq<char>| #[trigger]
            rows::value_of(a, key) == rows::value_of(b, key) by {
            diff::law_difference_is_complete(a, b, key);
        }
    }
}

/// The rows of what changed from the parent of a node to the node.
pub open spec fn node_diff(nodes: Seq<UndoNode>, id: int) -> Seq<styled::LineModel> {
    match nodes[id].parent {
        Some(p) => step_rows(nodes[p as int].snapshot@, nodes[id].snapshot@),
        None => seq![seq![(Tone::Plain, "(initial state \u{2014} nothing before it)"@)]],
    }
}

/// The title of the undo tree.
pub open spec fn tree_title(n: nat) -> Seq<char> {
    " Undo Tree ("@ + text::decimal(n)
        + " states) | \u{25cf}=current \u{25cb}=other | Enter: jump, Esc/q: close "@
}

/// The undo tree as it is shown, with what changed to reach the state that is selected.
pub struct UndoPopup {
    pub title: String,
    pub rows: Vec<Vec<Piece>>,
    pub diff: Vec<Vec<Piece>>,
}

impl UndoPopup {
    /// Whether this is what is shown of an editor's undo tree at a time.
    pub open spec fn shows(&self, e: GridEditState, now: int) -> bool {
        &&& self.title@ == tree_title(e.undo_nodes@.len())
        &&& styled::lines_of(self.rows@) == tree_rows(
            undo_graph::graph(e.undo_nodes@, e.undo_current as int, now, 0),
            e.undo_current,
            e.undo_tree_selected,
        )
        &&& styled::lines_of(self.diff@) == node_diff(e.undo_nodes@, e.undo_tree_selected as int)
    }
}

fn add_changes(out: &mut Vec<Vec<Piece>>, section: &str, lines: &Vec<(DiffKind, String)>)
    ensures
        styled::lines_of(final(out)@) == styled::lines_of(old(out)@) + change_rows(
            section@,
            diff::diff_texts(lines@),
        ),
{
    let ghost before = styled::lines_of(out@);
    let ghost all = diff::diff_texts(lines@);
    assert(styled::lines_of(out@) =~= before + change_rows(section@, all.take(0)));
    for i in 0..lines.len()
        invariant
            all == diff::diff_texts(lines@),
            styled::lines_of(out@) == before + change_rows(section@, all.take(i as int)),
    {
        let tone: Tone = match lines[i].0 {
            DiffKind::Added => Tone::Green,
            DiffKind::Removed => Tone::Red,
            DiffKind::Changed => Tone::Yellow,
        };
        let row: Vec<Piece> = one_piece(
            tone,
            concat3(section, " ", lines[i].1.as_str()).as_str(),
        );
        add_line(out, row);
        assert(all.take(i + 1) =~= all.take(i as int).push(all[i as int]));
        assert(styled::lines_of(out@) =~= before + change_rows(section@, all.take(i + 1)));
    }
    assert(all.take(lines@.len() as int) == all);
}

fn show_step(before: &UndoNode, after: &UndoNode) -> (r: Vec<Vec<Piece>>)
    ensures
        styled::lines_of(r@) == step_rows(before.snapshot@, after.snapshot@),
{
    let mut out: Vec<Vec<Piece>> = Vec::new();
    assert(styled::lines_of(out@) =~= Seq::empty());
    add_changes(
        &mut out,
        "Query",
        &diff_rows(&before.snapshot.query_rows, &after.snapshot.query_rows),
    );
    add_changes(
        &mut out,
        "Headers",
        &diff_rows(&before.snapshot.header_rows, &after.snapshot.header_rows),
    );
    let ghost rows_changed = styled::lines_of(out@);
    if !same_text(before.snapshot.body_text.as_str(), after.snapshot.body_text.as_str()) {
        add_line(&mut out, one_piece(Tone::Yellow, "Body changed"));
    }
    assert(styled::lines_of(out@) =~= rows_changed + body_rows(
        before.snapshot.body_text@,
        after.snapshot.body_text@,
    ));
    assert(styled::lines_of(out@).len() == out@.len());
    if out.is_empty() {
        add_line(&mut out, one_piece(Tone::Plain, "(no change vs previous state)"));
        assert(styled::lines_of(out@) =~= seq![
            seq![(Tone::Plain, "(no change vs previous state)"@)],
        ]);
    }
    out
}

/// The undo tree of an editor as it is shown at a time.
pub fn show_undo_tree(e: &GridEditState, now: u64) -> (r: UndoPopup)
    requires
        e.wf(),
    ensures
        r.shows(*e, now as int),
{
    let lines: Vec<(Option<usize>, String)> = build_undo_tree_graph_lines(
        &e.undo_nodes,
        e.undo_current,
        now,
    );
    let ghost all = undo_graph::row_texts(lines@);
    let mut out: Vec<Vec<Piece>> = Vec::new();
    assert(styled::lines_of(out@) =~= tree_rows(
        all.take(0),
        e.undo_current,
        e.undo_tree_selected,
    ));
    for i in 0..lines.len()
        invariant
            all == undo_graph::row_texts(lines@),
            styled::lines_of(out@) == tree_rows(
                all.take(i as int),
                e.undo_current,
                e.undo_tree_selected,
            ),
    {
        let (here, tone): (bool, Tone) = match lines[i].0 {
            Some(id) => (
                id == e.undo_tree_selected,
                if id == e.undo_current {
                    Tone::GreenBold
                } else {
                    Tone::Cyan
                },
            ),
            None => (false, Tone::DarkGray),
        };
        let row: Vec<Piece> = two_pieces(Tone::Plain, mark_text(here), tone, lines[i].1.as_str());
        assert(styled::pieces_of(row@) =~= tree_row(
            all[i as int],
            e.undo_current,
            e.undo_tree_selected,
        ));
        add_line(&mut out, row);
        assert(all.take(i + 1) =~= all.take(i as int).push(all[i as int]));
        assert(styled::lines_of(out@) =~= tree_rows(
            all.take(i + 1),
            e.undo_current,
            e.undo_tree_selected,
        ));
    }
    assert(all.take(lines@.len() as int) == all);
    let id: usize = e.undo_tree_selected;
    proof {
        if id > 0 {
            assert(undo::has_parent(e.undo_nodes@, id as int));
        }
    }
    let diff: Vec<Vec<Piece>> = match e.undo_nodes[id].parent {
        Some(p) => show_step(&e.undo_nodes[p], &e.undo_nodes[id]),
        None => {
            let mut note: Vec<Vec<Piece>> = Vec::new();
            assert(styled::lines_of(note@) =~= Seq::empty());
            add_line(
                &mut note,
                one_piece(Tone::Plain, "(initial state \u{2014} nothing before it)"),
            );
            assert(styled::lines_of(note@) =~= seq![
                seq![(Tone::Plain, "(initial state \u{2014} nothing before it)"@)],
            ]);
            note
        },
    };
    let title: String = concat3(
        " Undo Tree (",
        decimal_text(e.undo_nodes.len() as u64).as_str(),
        " states) | \u{25cf}=current \u{25cb}=other | Enter: jump, Esc/q: close ",
    );
    UndoPopup { title, rows: out, diff }
}

} // verus!
