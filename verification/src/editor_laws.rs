//! What each key does to the rows, the body and the cursor of the grid editor.

use crate::grid::{GridCol, GridEditState, GridSection};
use crate::grid_keys;
use crate::grid_keys::GridOutcome;
use crate::keys::{Key, KeyCode};
use crate::undo::Stamp;
use vstd::prelude::*;

verus! {

/// Whether nothing is typed and the undo tree is not shown.
pub open spec fn at_rest(e: GridEditState) -> bool {
    !e.undo_tree_active && e.editing_text is None
}

/// Whether a cell or the body is typed into.
pub open spec fn typing(e: GridEditState) -> bool {
    !e.undo_tree_active && e.editing_text is Some
}

/// Whether both grids and the body hold what they held.
pub open spec fn same_content(a: GridEditState, b: GridEditState) -> bool {
    &&& b.query_rows@ == a.query_rows@
    &&& b.header_rows@ == a.header_rows@
    &&& b.body_text == a.body_text
}

/// Whether a key leaves everything as it was, to be neither saved nor left.
pub open spec fn no_effect(a: GridEditState, b: GridEditState, out: GridOutcome) -> bool {
    b == a && !out.changed && !out.exit
}

/// Whether `after` is `before` without the row `r`: the rows in front of it stay in their places,
/// and those behind it move up by one.
pub open spec fn without_row(
    before: Seq<(String, String)>,
    after: Seq<(String, String)>,
    r: int,
) -> bool {
    &&& after.len() == before.len() - 1
    &&& forall|i: int| 0 <= i < r ==> #[trigger] after[i] == before[i]
    &&& forall|i: int| r <= i < after.len() ==> #[trigger] after[i] == before[i + 1]
}

/// `d` deletes the row under the cursor and no other, to be saved; the other grid and the body stay.
/// The cursor stays where it is, or goes to the last row where it stood on the last.
pub proof fn law_delete_takes_the_row_under_the_cursor(
    e: GridEditState,
    key: Key,
    stamp: Stamp,
    after: GridEditState,
    out: GridOutcome,
)
    requires
        e.wf(),
        at_rest(e),
        key.code == KeyCode::Char('d'),
        grid_keys::grid_step(e, key, stamp, after, out),
    ensures
        e.section == GridSection::Query && e.query_rows@.len() > 0 ==> {
            &&& without_row(e.query_rows@, after.query_rows@, e.row as int)
            &&& after.header_rows@ == e.header_rows@
            &&& after.row == if e.query_rows@.len() > 1 && e.row == e.query_rows@.len() - 1 {
                e.row - 1
            } else {
                e.row as int
            }
            &&& out.changed
        },
        e.section == GridSection::Headers && e.header_rows@.len() > 0 ==> {
            &&& without_row(e.header_rows@, after.header_rows@, e.row as int)
            &&& after.query_rows@ == e.query_rows@
            &&& after.row == if e.header_rows@.len() > 1 && e.row == e.header_rows@.len() - 1 {
                e.row - 1
            } else {
                e.row as int
            }
            &&& out.changed
        },
        e.section == GridSection::Query && e.query_rows@.len() == 0 ==> no_effect(e, after, out),
        e.section == GridSection::Headers && e.header_rows@.len() == 0 ==> no_effect(e, after, out),
        e.section == GridSection::Body ==> no_effect(e, after, out),
        after.body_text == e.body_text,
        after.section == e.section,
        after.col == e.col,
        after.editing_text is None,
        !out.exit,
{
}

/// `a` adds a row behind the last one, without a key and a value, and starts to type its key. The
/// rows that were there stay, and nothing is saved yet.
pub proof fn law_add_appends_a_blank_row(
    e: GridEditState,
    key: Key,
    stamp: Stamp,
    after: GridEditState,
    out: GridOutcome,
)
    requires
        at_rest(e),
        key.code == KeyCode::Char('a'),
        e.query_rows@.len() < usize::MAX && e.header_rows@.len() < usize::MAX,
        grid_keys::grid_step(e, key, stamp, after, out),
    ensures
        e.section == GridSection::Query ==> {
            let n = e.query_rows@.len() as int;
            &&& after.query_rows@.len() == n + 1
            &&& forall|i: int| 0 <= i < n ==> #[trigger] after.query_rows@[i] == e.query_rows@[i]
            &&& after.query_rows@[n].0@.len() == 0 && after.query_rows@[n].1@.len() == 0
            &&& after.header_rows@ == e.header_rows@
            &&& after.row == n
        },
        e.section == GridSection::Headers ==> {
            let n = e.header_rows@.len() as int;
            &&& after.header_rows@.len() == n + 1
            &&& forall|i: int| 0 <= i < n ==> #[trigger] after.header_rows@[i] == e.header_rows@[i]
            &&& after.header_rows@[n].0@.len() == 0 && after.header_rows@[n].1@.len() == 0
            &&& after.query_rows@ == e.query_rows@
            &&& after.row == n
        },
        e.section != GridSection::Body ==> after.col == GridCol::Key && (
        after.editing_text matches Some(t) && t@.len() == 0),
        e.section == GridSection::Body ==> after == e,
        after.body_text == e.body_text,
        after.section == e.section,
        !out.changed && !out.exit,
{
}

/// Whether `after` is `before` with one cell set to `typed`: its other cell and all other rows
/// stay.
pub open spec fn one_cell_set(
    before: Seq<(String, String)>,
    after: Seq<(String, String)>,
    r: int,
    col: GridCol,
    typed: Seq<char>,
) -> bool {
    &&& after.len() == before.len()
    &&& forall|i: int| 0 <= i < before.len() && i != r ==> #[trigger] after[i] == before[i]
    &&& match col {
        GridCol::Key => after[r].0@ == typed && after[r].1 == before[r].1,
        GridCol::Value => after[r].0 == before[r].0 && after[r].1@ == typed,
    }
}

/// Enter puts what was typed into the cell under the cursor, and into no other, to be saved.
pub proof fn law_enter_sets_the_cell(
    e: GridEditState,
    key: Key,
    stamp: Stamp,
    after: GridEditState,
    out: GridOutcome,
)
    requires
        e.wf(),
        typing(e),
        e.section != GridSection::Body,
        key.code == KeyCode::Enter,
        grid_keys::grid_step(e, key, stamp, after, out),
    ensures
        e.section == GridSection::Query ==> one_cell_set(
            e.query_rows@,
            after.query_rows@,
            e.row as int,
            e.col,
            e.editing_text->0@,
        ) && after.header_rows@ == e.header_rows@,
        e.section == GridSection::Headers ==> one_cell_set(
            e.header_rows@,
            after.header_rows@,
            e.row as int,
            e.col,
            e.editing_text->0@,
        ) && after.query_rows@ == e.query_rows@,
        after.body_text == e.body_text,
        after.row == e.row && after.col == e.col && after.section == e.section,
        after.editing_text is None,
        out.changed && !out.exit,
{
}

/// Ctrl+D in the body makes what was typed the body, to be saved; the grids stay.
pub proof fn law_ctrl_d_sets_the_body(
    e: GridEditState,
    key: Key,
    stamp: Stamp,
    after: GridEditState,
    out: GridOutcome,
)
    requires
        typing(e),
        e.section == GridSection::Body,
        key.ctrl && key.code == KeyCode::Char('d'),
        grid_keys::grid_step(e, key, stamp, after, out),
    ensures
        after.body_text@ == e.editing_text->0@,
        after.query_rows@ == e.query_rows@,
        after.header_rows@ == e.header_rows@,
        after.section == GridSection::Body,
        after.editing_text is None,
        out.changed && !out.exit,
{
}

/// Esc gives up what was typed: nothing that is edited changes, and nothing is saved.
pub proof fn law_esc_gives_up_typing(
    e: GridEditState,
    key: Key,
    stamp: Stamp,
    after: GridEditState,
    out: GridOutcome,
)
    requires
        typing(e),
        key.code == KeyCode::Esc,
        grid_keys::grid_step(e, key, stamp, after, out),
    ensures
        same_content(e, after),
        after.undo_nodes == e.undo_nodes && after.undo_current == e.undo_current,
        after.row == e.row && after.col == e.col && after.section == e.section,
        after.editing_text is None,
        !out.changed && !out.exit,
{
}

/// What is typed goes to the end of the text: a letter, or a line break for Enter in the body.
/// Backspace takes the last one off, and Ctrl+u all of them. Until it is committed, nothing that
/// is edited changes, and nothing is saved.
pub proof fn law_typing_changes_the_text_alone(
    e: GridEditState,
    key: Key,
    stamp: Stamp,
    after: GridEditState,
    out: GridOutcome,
)
    requires
        typing(e),
        key.code is Char || key.code == KeyCode::Backspace || (key.code == KeyCode::Enter
            && e.section == GridSection::Body),
        !key.ctrl || key.code == KeyCode::Char('u') || key.code == KeyCode::Backspace || key.code
            == KeyCode::Enter,
        grid_keys::grid_step(e, key, stamp, after, out),
    ensures
        same_content(e, after),
        after == (GridEditState { editing_text: after.editing_text, ..e }),
        !out.changed && !out.exit,
        after.editing_text is Some,
        ({
            let (was, is) = (e.editing_text->0@, after.editing_text->0@);
            match key.code {
                KeyCode::Char(c) => if key.ctrl {
                    is.len() == 0
                } else {
                    is.len() == was.len() + 1 && is.last() == c && is.drop_last() == was
                },
                KeyCode::Enter => is.len() == was.len() + 1 && is.last() == '\n' && is.drop_last()
                    == was,
                _ => if was.len() == 0 {
                    is == was
                } else {
                    is == was.drop_last()
                },
            }
        }),
{
}

/// `i` and Enter start to type with what the cell under the cursor holds, or the body.
pub proof fn law_typing_starts_with_what_is_there(
    e: GridEditState,
    key: Key,
    stamp: Stamp,
    after: GridEditState,
    out: GridOutcome,
)
    requires
        e.wf(),
        at_rest(e),
        key.code == KeyCode::Enter || key.code == KeyCode::Char('i'),
        grid_keys::grid_step(e, key, stamp, after, out),
    ensures
        after == (GridEditState { editing_text: after.editing_text, ..e }),
        !out.changed && !out.exit,
        e.section == GridSection::Body ==> (after.editing_text matches Some(t) && t@
            == e.body_text@),
        e.section == GridSection::Query && e.query_rows@.len() > 0 ==> (
        after.editing_text matches Some(t) && t@ == match e.col {
            GridCol::Key => e.query_rows@[e.row as int].0@,
            GridCol::Value => e.query_rows@[e.row as int].1@,
        }),
        e.section == GridSection::Headers && e.header_rows@.len() > 0 ==> (
        after.editing_text matches Some(t) && t@ == match e.col {
            GridCol::Key => e.header_rows@[e.row as int].0@,
            GridCol::Value => e.header_rows@[e.row as int].1@,
        }),
        e.section == GridSection::Query && e.query_rows@.len() == 0 ==> after.editing_text is None,
        e.section == GridSection::Headers && e.header_rows@.len() == 0
            ==> after.editing_text is None,
{
}

/// Typing what a cell holds and committing it changes no row.
pub proof fn law_unchanged_cell_keeps_the_rows(
    e: GridEditState,
    open: Key,
    mid: GridEditState,
    first: GridOutcome,
    stamp: Stamp,
    after: GridEditState,
    second: GridOutcome,
    i: int,
)
    requires
        e.wf(),
        at_rest(e),
        e.section == GridSection::Headers,
        0 <= i < e.header_rows@.len(),
        open.code == KeyCode::Char('i'),
        grid_keys::grid_step(e, open, stamp, mid, first),
        grid_keys::grid_step(
            mid,
            (Key { code: KeyCode::Enter, ctrl: false }),
            stamp,
            after,
            second,
        ),
    ensures
        after.header_rows@.len() == e.header_rows@.len(),
        after.header_rows@[i].0@ == e.header_rows@[i].0@,
        after.header_rows@[i].1@ == e.header_rows@[i].1@,
{
}

/// How many rows the grid under the cursor has.
pub open spec fn row_count(e: GridEditState) -> nat {
    match e.section {
        GridSection::Query => e.query_rows@.len(),
        GridSection::Headers => e.header_rows@.len(),
        GridSection::Body => 0,
    }
}

/// The keys that go down: Down, `j` and Ctrl+n.
pub open spec fn goes_down(key: Key) -> bool {
    key.code == KeyCode::Down || key.code == KeyCode::Char('j') || (key.ctrl && key.code
        == KeyCode::Char('n'))
}

/// The keys that go up: Up, `k` and Ctrl+p.
pub open spec fn goes_up(key: Key) -> bool {
    key.code == KeyCode::Up || key.code == KeyCode::Char('k') || (key.ctrl && key.code
        == KeyCode::Char('p'))
}

/// The cursor goes one row down or up, and stops at the last and the first row.
pub proof fn law_cursor_moves_by_one_row(
    e: GridEditState,
    key: Key,
    stamp: Stamp,
    after: GridEditState,
    out: GridOutcome,
)
    requires
        e.wf(),
        at_rest(e),
        e.query_rows@.len() <= usize::MAX && e.header_rows@.len() <= usize::MAX,
        goes_down(key) || goes_up(key),
        grid_keys::grid_step(e, key, stamp, after, out),
    ensures
        after == (GridEditState { row: after.row, ..e }),
        goes_down(key) ==> after.row == if e.row + 1 < row_count(e) {
            e.row + 1
        } else {
            e.row as int
        },
        goes_up(key) ==> after.row == if e.row > 0 {
            e.row - 1
        } else {
            0
        },
        !out.changed && !out.exit,
{
}

/// Left and `h` go to the key of a row, Right and `l` to its value; the body has no columns.
pub proof fn law_columns(
    e: GridEditState,
    key: Key,
    stamp: Stamp,
    after: GridEditState,
    out: GridOutcome,
)
    requires
        at_rest(e),
        key.code == KeyCode::Left || key.code == KeyCode::Char('h') || key.code == KeyCode::Right
            || key.code == KeyCode::Char('l'),
        grid_keys::grid_step(e, key, stamp, after, out),
    ensures
        after == (GridEditState { col: after.col, ..e }),
        e.section == GridSection::Body ==> after.col == e.col,
        e.section != GridSection::Body && (key.code == KeyCode::Left || key.code == KeyCode::Char(
            'h',
        )) ==> after.col == GridCol::Key,
        e.section != GridSection::Body && (key.code == KeyCode::Right || key.code == KeyCode::Char(
            'l',
        )) ==> after.col == GridCol::Value,
        !out.changed && !out.exit,
{
}

/// Tab goes from the query parameters to the headers, to the body and back, to the key of the
/// first row.
pub proof fn law_tab_goes_through_the_sections(
    e: GridEditState,
    key: Key,
    stamp: Stamp,
    after: GridEditState,
    out: GridOutcome,
)
    requires
        at_rest(e),
        key.code == KeyCode::Tab,
        grid_keys::grid_step(e, key, stamp, after, out),
    ensures
        after == (GridEditState {
            section: after.section,
            row: 0,
            col: GridCol::Key,
            ..e
        }),
        e.section == GridSection::Query ==> after.section == GridSection::Headers,
        e.section == GridSection::Headers ==> after.section == GridSection::Body,
        e.section == GridSection::Body ==> after.section == GridSection::Query,
        !out.changed && !out.exit,
{
}

/// The editor is left by Esc while nothing is typed and the undo tree is not shown, and by no
/// other key; leaving changes nothing.
pub proof fn law_only_esc_leaves(
    e: GridEditState,
    key: Key,
    stamp: Stamp,
    after: GridEditState,
    out: GridOutcome,
)
    requires
        grid_keys::grid_step(e, key, stamp, after, out),
    ensures
        out.exit <==> at_rest(e) && key.code == KeyCode::Esc,
        out.exit ==> after == e && !out.changed,
{
}

/// `u` shows the undo tree with the current state selected.
pub proof fn law_u_shows_the_undo_tree(
    e: GridEditState,
    key: Key,
    stamp: Stamp,
    after: GridEditState,
    out: GridOutcome,
)
    requires
        at_rest(e),
        key.code == KeyCode::Char('u'),
        grid_keys::grid_step(e, key, stamp, after, out),
    ensures
        after == (GridEditState {
            undo_tree_active: true,
            undo_tree_selected: e.undo_current,
            ..e
        }),
        !out.changed && !out.exit,
{
}

/// In the undo tree, up selects the next newer state and down the next older one, as far as there
/// are any; Esc and `q` hide it. None of these changes what is edited.
pub proof fn law_moving_in_the_undo_tree(
    e: GridEditState,
    key: Key,
    stamp: Stamp,
    after: GridEditState,
    out: GridOutcome,
)
    requires
        e.wf(),
        e.undo_tree_active,
        e.undo_nodes@.len() <= usize::MAX,
        key.code != KeyCode::Enter,
        grid_keys::grid_step(e, key, stamp, after, out),
    ensures
        after == (GridEditState {
            undo_tree_active: after.undo_tree_active,
            undo_tree_selected: after.undo_tree_selected,
            ..e
        }),
        after.undo_tree_active <==> !(key.code == KeyCode::Esc || key.code == KeyCode::Char('q')),
        after.undo_tree_selected == if goes_up(key) && e.undo_tree_selected + 1
            < e.undo_nodes@.len() {
            e.undo_tree_selected + 1
        } else if goes_down(key) && e.undo_tree_selected > 0 {
            e.undo_tree_selected - 1
        } else {
            e.undo_tree_selected as int
        },
        !out.changed && !out.exit,
{
}

/// Whether both grids and the body hold what the node `id` of the undo tree recorded.
pub open spec fn holds_state(e: GridEditState, id: int) -> bool {
    &&& e.query_rows@ == e.undo_nodes@[id].snapshot.query_rows@
    &&& e.header_rows@ == e.undo_nodes@[id].snapshot.header_rows@
    &&& e.body_text == e.undo_nodes@[id].snapshot.body_text
}

/// Enter in the undo tree hides it and gives back exactly the state that is selected, to be saved
/// unless it is the current one. The tree itself stays.
pub proof fn law_enter_goes_to_the_selected_state(
    e: GridEditState,
    key: Key,
    stamp: Stamp,
    after: GridEditState,
    out: GridOutcome,
)
    requires
        e.wf(),
        e.undo_tree_active,
        key.code == KeyCode::Enter,
        grid_keys::grid_step(e, key, stamp, after, out),
    ensures
        after.undo_nodes == e.undo_nodes,
        after.undo_current == e.undo_tree_selected,
        !after.undo_tree_active,
        out.changed <==> e.undo_tree_selected != e.undo_current,
        e.undo_tree_selected != e.undo_current ==> holds_state(after, e.undo_tree_selected as int),
        e.undo_tree_selected == e.undo_current ==> same_content(e, after),
        !out.exit,
{
}

/// Ctrl+Z goes back to the state before the current one, to be saved; at the first state it
/// changes nothing. What was being typed is given up.
pub proof fn law_ctrl_z_goes_back(
    e: GridEditState,
    key: Key,
    stamp: Stamp,
    after: GridEditState,
    out: GridOutcome,
)
    requires
        e.wf(),
        !e.undo_tree_active,
        key.ctrl && key.code == KeyCode::Char('z'),
        grid_keys::grid_step(e, key, stamp, after, out),
    ensures
        after.undo_nodes == e.undo_nodes,
        after.editing_text is None,
        match e.undo_nodes@[e.undo_current as int].parent {
            Some(p) => out.changed && after.undo_current == p && holds_state(after, p as int),
            None => !out.changed && after.undo_current == e.undo_current && same_content(e, after),
        },
        !out.exit,
{
}

/// Ctrl+Y, and Ctrl with the keys that terminals report as Ctrl+underscore, goes on to the newest
/// state that was made from the current one, to be saved; where there is none it changes nothing.
pub proof fn law_ctrl_y_goes_on(
    e: GridEditState,
    key: Key,
    stamp: Stamp,
    after: GridEditState,
    out: GridOutcome,
)
    requires
        e.wf(),
        !e.undo_tree_active,
        key.ctrl,
        key.code == KeyCode::Char('y') || key.code == KeyCode::Char('-') || key.code
            == KeyCode::Char('_') || key.code == KeyCode::Char('7'),
        grid_keys::grid_step(e, key, stamp, after, out),
    ensures
        after.undo_nodes == e.undo_nodes,
        after.editing_text is None,
        ({
            let children = e.undo_nodes@[e.undo_current as int].children@;
            if children.len() > 0 {
                &&& out.changed
                &&& after.undo_current == children[children.len() - 1]
                &&& holds_state(after, children[children.len() - 1] as int)
            } else {
                !out.changed && after.undo_current == e.undo_current && same_content(e, after)
            }
        }),
        !out.exit,
{
}

/// After going back, on or elsewhere, the cursor stays on its row, or goes to the last row where
/// there are fewer, or to the top where there is none.
pub proof fn law_cursor_stays_on_a_row(
    e: GridEditState,
    key: Key,
    stamp: Stamp,
    after: GridEditState,
    out: GridOutcome,
)
    requires
        e.wf(),
        e.section != GridSection::Body,
        !e.undo_tree_active && key.ctrl && (key.code == KeyCode::Char('z') || key.code
            == KeyCode::Char('y')),
        out.changed,
        grid_keys::grid_step(e, key, stamp, after, out),
    ensures
        after.section == e.section && after.col == e.col,
        e.row < row_count(after) ==> after.row == e.row,
        e.row >= row_count(after) ==> after.row == if row_count(after) > 0 {
            row_count(after) - 1
        } else {
            0
        },
{
}

/// A commit adds one node to the undo tree: behind all others, made from the current one, with
/// what is edited, the label and the time; and moves onto it. What is edited stays.
pub proof fn law_commit_adds_one_node(
    a: GridEditState,
    b: GridEditState,
    label: Seq<char>,
    stamp: Stamp,
)
    requires
        a.wf(),
        a.undo_nodes@.len() < usize::MAX,
        a.committed(b, label, stamp),
    ensures
        same_content(a, b),
        b == (GridEditState {
            undo_nodes: b.undo_nodes,
            undo_current: b.undo_current,
            ..a
        }),
        b.undo_nodes@.len() == a.undo_nodes@.len() + 1,
        b.undo_current == a.undo_nodes@.len(),
        holds_state(b, b.undo_current as int),
        ({
            let new = b.undo_nodes@[a.undo_nodes@.len() as int];
            &&& new.parent == Some(a.undo_current)
            &&& new.children@.len() == 0
            &&& new.label@ == label
            &&& new.timestamp == stamp.timestamp
            &&& new.created_at == stamp.created_at
        }),
        b.undo_nodes@[a.undo_current as int].children@.last() == a.undo_nodes@.len(),
        forall|i: int|
            0 <= i < a.undo_nodes@.len() ==> (#[trigger] b.undo_nodes@[i]).snapshot
                == a.undo_nodes@[i].snapshot,
{
}

/// Every key that changes a row or the body by itself, without the undo tree, records the new
/// state as one made from the state that was current.
pub proof fn law_each_change_is_one_new_state(
    e: GridEditState,
    key: Key,
    stamp: Stamp,
    after: GridEditState,
    out: GridOutcome,
)
    requires
        e.wf(),
        e.undo_nodes@.len() < usize::MAX,
        !e.undo_tree_active,
        !key.ctrl || key.code == KeyCode::Char('d'),
        out.changed,
        grid_keys::grid_step(e, key, stamp, after, out),
    ensures
        after.undo_nodes@.len() == e.undo_nodes@.len() + 1,
        after.undo_current == e.undo_nodes@.len(),
        after.undo_nodes@[e.undo_nodes@.len() as int].parent == Some(e.undo_current),
        holds_state(after, after.undo_current as int),
{
}

/// The rows of the grid that is edited.
pub open spec fn edited_rows(e: GridEditState) -> Seq<(String, String)> {
    if e.section == GridSection::Query {
        e.query_rows@
    } else {
        e.header_rows@
    }
}

/// The name of the grid that is edited.
pub open spec fn edited_name(e: GridEditState) -> Seq<char> {
    if e.section == GridSection::Query {
        "Query"@
    } else {
        "Headers"@
    }
}

/// A new state is labelled with what was changed, as it was before the change: the row that was
/// deleted, or the cell with what it held and what was typed. It has the time that was given.
pub proof fn law_new_states_are_labelled(
    e: GridEditState,
    key: Key,
    stamp: Stamp,
    after: GridEditState,
    out: GridOutcome,
)
    requires
        e.wf(),
        e.section != GridSection::Body,
        edited_rows(e).len() > 0,
        grid_keys::grid_step(e, key, stamp, after, out),
    ensures
        at_rest(e) && key.code == KeyCode::Char('d') ==> {
            let row = edited_rows(e)[e.row as int];
            let new = after.undo_nodes@.last();
            &&& new.label@ == edited_name(e) + " delete "@ + row.0@ + " (was '"@ + row.1@ + "')"@
            &&& new.timestamp == stamp.timestamp && new.created_at == stamp.created_at
        },
        typing(e) && key.code == KeyCode::Enter ==> {
            let row = edited_rows(e)[e.row as int];
            let typed = e.editing_text->0@;
            let new = after.undo_nodes@.last();
            &&& e.col == GridCol::Key ==> new.label@ == edited_name(e) + " "@ + row.0@ + "."@
                + "key"@ + ": '"@ + row.0@ + "' \u{2192} '"@ + typed + "'"@
            &&& e.col == GridCol::Value ==> new.label@ == edited_name(e) + " "@ + row.0@ + "."@
                + "value"@ + ": '"@ + row.1@ + "' \u{2192} '"@ + typed + "'"@
            &&& new.timestamp == stamp.timestamp && new.created_at == stamp.created_at
        },
{
}

/// While something is typed, keys that neither type, commit nor give up do nothing, and so does
/// Ctrl with a letter that stands for none of these.
pub proof fn law_other_keys_while_typing(
    e: GridEditState,
    key: Key,
    c: char,
    stamp: Stamp,
    after: GridEditState,
    out: GridOutcome,
)
    requires
        typing(e),
        key.code == KeyCode::Tab || key.code == KeyCode::Up || key.code == KeyCode::Down
            || key.code == KeyCode::Left || key.code == KeyCode::Right || key.code
            == KeyCode::Other || (key.ctrl && key.code == KeyCode::Char(c) && c != 'u' && c != 'z'
            && c != 'y' && c != '-' && c != '_' && c != '7' && !(c == 'd' && e.section
            == GridSection::Body)),
        grid_keys::grid_step(e, key, stamp, after, out),
    ensures
        no_effect(e, after, out),
{
}

/// While nothing is typed, letters without a meaning do nothing.
pub proof fn law_other_letters_at_rest(
    e: GridEditState,
    c: char,
    stamp: Stamp,
    after: GridEditState,
    out: GridOutcome,
)
    requires
        at_rest(e),
        c != 'u' && c != 'h' && c != 'j' && c != 'k' && c != 'l' && c != 'i' && c != 'a' && c
            != 'd',
        grid_keys::grid_step(
            e,
            (Key { code: KeyCode::Char(c), ctrl: false }),
            stamp,
            after,
            out,
        ),
    ensures
        no_effect(e, after, out),
{
}

} // verus!
