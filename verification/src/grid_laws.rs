//! What holds of the grid editor whatever keys are pressed.

use crate::grid;
use crate::grid::{GridEditState, GridSection};
use crate::grid_keys;
use crate::grid_keys::GridOutcome;
use crate::keys::{Key, KeyCode};
use crate::rows;
use crate::undo;
use crate::undo::Stamp;
use vstd::prelude::*;

verus! {

/// Whether what is edited is what the current node of the undo tree holds.
pub open spec fn in_sync(e: GridEditState) -> bool {
    e.content() == e.undo_nodes@[e.undo_current as int].snapshot@
}

/// What would be saved: the entries of both grids, and the body.
pub open spec fn saved_content(e: GridEditState) -> (Seq<rows::Entry>, Seq<rows::Entry>, Seq<
    char,
>) {
    (
        rows::collected(rows::entries(e.query_rows@)),
        rows::collected(rows::entries(e.header_rows@)),
        e.body_text@,
    )
}

/// Undo after a commit gives back the state that was recorded before it.
pub proof fn law_undo_takes_a_commit_back(
    a: GridEditState,
    b: GridEditState,
    c: GridEditState,
    label: Seq<char>,
    stamp: Stamp,
    moved: bool,
)
    requires
        a.wf(),
        a.undo_nodes@.len() < usize::MAX,
        a.committed(b, label, stamp),
        b.undone(c, moved),
    ensures
        moved,
        c.undo_current == a.undo_current,
        c.content() == a.undo_nodes@[a.undo_current as int].snapshot@,
        in_sync(a) ==> c.content() == a.content(),
{
}

/// Redo after that undo gives back what was committed.
pub proof fn law_redo_brings_a_commit_back(
    a: GridEditState,
    b: GridEditState,
    c: GridEditState,
    d: GridEditState,
    label: Seq<char>,
    stamp: Stamp,
    undone: bool,
    redone: bool,
)
    requires
        a.wf(),
        a.undo_nodes@.len() < usize::MAX,
        a.committed(b, label, stamp),
        b.undone(c, undone),
        c.redone(d, redone),
    ensures
        redone,
        d.undo_current == b.undo_current,
        d.content() == b.content(),
        d.content() == a.content(),
{
    let kids = b.undo_nodes@[a.undo_current as int].children@;
    assert(kids.last() == a.undo_nodes@.len() as usize);
}

/// After an undo, a new commit leaves the branch that was undone where it was: a jump to it gives
/// it back.
pub proof fn law_undone_branch_stays_reachable(
    a: GridEditState,
    b: GridEditState,
    c: GridEditState,
    id: usize,
    label: Seq<char>,
    stamp: Stamp,
    moved: bool,
)
    requires
        a.wf(),
        a.undo_nodes@.len() < usize::MAX,
        id < a.undo_nodes@.len(),
        a.committed(b, label, stamp),
        b.jumped(c, id, moved),
    ensures
        moved,
        c.undo_current == id,
        c.content() == a.undo_nodes@[id as int].snapshot@,
{
    undo::law_no_state_is_lost(
        a.undo_nodes@,
        a.undo_current,
        a.content(),
        label,
        stamp,
        b.undo_nodes@,
        id as int,
    );
}

/// Whether `after` has all nodes of `before`, each with its snapshot and its children.
pub open spec fn keeps_nodes(before: Seq<undo::UndoNode>, after: Seq<undo::UndoNode>) -> bool {
    &&& before.len() <= after.len()
    &&& forall|i: int|
        0 <= i < before.len() ==> undo::same_but_children(before[i], #[trigger] after[i])
            && before[i].children@.is_prefix_of(after[i].children@)
}

proof fn lemma_keeps_same(nodes: Seq<undo::UndoNode>)
    ensures
        keeps_nodes(nodes, nodes),
{
    assert forall|i: int| 0 <= i < nodes.len() implies undo::same_but_children(
        nodes[i],
        #[trigger] nodes[i],
    ) && nodes[i].children@.is_prefix_of(nodes[i].children@) by {
        let a = nodes[i].children@;
        assert(a.subrange(0, a.len() as int) == a);
    }
}

proof fn lemma_commit_keeps(a: GridEditState, b: GridEditState, label: Seq<char>, stamp: Stamp)
    requires
        a.undo_current < a.undo_nodes@.len(),
        a.committed(b, label, stamp),
    ensures
        keeps_nodes(a.undo_nodes@, b.undo_nodes@),
{
    assert forall|i: int| 0 <= i < a.undo_nodes@.len() implies undo::same_but_children(
        a.undo_nodes@[i],
        #[trigger] b.undo_nodes@[i],
    ) && a.undo_nodes@[i].children@.is_prefix_of(b.undo_nodes@[i].children@) by {
        undo::law_no_state_is_lost(
            a.undo_nodes@,
            a.undo_current,
            a.content(),
            label,
            stamp,
            b.undo_nodes@,
            i,
        );
    }
}

/// No key loses a state: the undo tree only ever grows.
pub proof fn law_no_key_loses_a_state(
    e: GridEditState,
    key: Key,
    stamp: Stamp,
    after: GridEditState,
    out: GridOutcome,
)
    requires
        e.wf(),
        grid_keys::grid_step(e, key, stamp, after, out),
    ensures
        keeps_nodes(e.undo_nodes@, after.undo_nodes@),
{
    lemma_keeps_same(e.undo_nodes@);
    let left = GridEditState { editing_text: None, ..e };
    if !e.undo_tree_active && !key.is_ctrl('z') && !grid_keys::is_redo(key) {
        if e.editing_text is Some {
            let typed = e.editing_text->0;
            if e.section == GridSection::Body && key.is_ctrl('d') {
                let mid = GridEditState { body_text: typed, ..left };
                lemma_commit_keeps(
                    mid,
                    after,
                    grid_keys::body_label(e.body_text, typed),
                    stamp,
                );
            } else if key.meaning() is Enter && e.section != GridSection::Body {
                let label = grid_keys::cell_label(
                    e.section,
                    grid::cell(e.grid(), e.row as int, grid::GridCol::Key),
                    e.col,
                    grid::cell(e.grid(), e.row as int, e.col),
                    typed@,
                );
                let mid = choose|mid: GridEditState|
                    left.only_rows(mid, grid::with_cell(e.grid(), e.row as int, e.col, typed))
                        && #[trigger] mid.committed(after, label, stamp);
                lemma_commit_keeps(mid, after, label, stamp);
            }
        } else if key.meaning() == KeyCode::Char('d') && e.section != GridSection::Body
            && e.grid().len() > 0 {
            let label = grid_keys::delete_label(
                e.section,
                e.grid()[e.row as int].0@,
                e.grid()[e.row as int].1@,
            );
            let len = e.grid().len();
            let cut = GridEditState {
                row: if len > 1 && e.row >= len - 1 {
                    (len - 2) as usize
                } else {
                    e.row
                },
                ..e
            };
            let mid = choose|mid: GridEditState|
                cut.only_rows(mid, e.grid().remove(e.row as int)) && #[trigger] mid.committed(
                    after,
                    label,
                    stamp,
                );
            lemma_commit_keeps(mid, after, label, stamp);
        }
    }
}

/// A key that reports a change leaves the editor on a node that holds what is edited.
pub proof fn law_changes_are_recorded(
    e: GridEditState,
    key: Key,
    stamp: Stamp,
    after: GridEditState,
    out: GridOutcome,
)
    requires
        e.wf(),
        e.undo_nodes@.len() < usize::MAX,
        grid_keys::grid_step(e, key, stamp, after, out),
        out.changed,
    ensures
        in_sync(after),
{
}

proof fn lemma_blank_row(rows: Seq<(String, String)>, r: (String, String))
    requires
        r.0@.len() == 0,
    ensures
        rows::collected(rows::entries(rows.push(r))) == rows::collected(rows::entries(rows)),
{
    let all = rows::entries(rows.push(r));
    assert(all.drop_last() == rows::entries(rows));
    assert(all.last() == (r.0@, r.1@));
}

/// A key that reports no change leaves what would be saved as it was: a row that was added and
/// has no key yet does not count.
pub proof fn law_unreported_keys_change_nothing(
    e: GridEditState,
    key: Key,
    stamp: Stamp,
    after: GridEditState,
    out: GridOutcome,
)
    requires
        e.wf(),
        grid_keys::grid_step(e, key, stamp, after, out),
        !out.changed,
    ensures
        saved_content(after) == saved_content(e),
{
    if !e.undo_tree_active && !key.is_ctrl('z') && !grid_keys::is_redo(key) && e.editing_text
        is None && key.meaning() == KeyCode::Char('a') && e.section != GridSection::Body {
        lemma_blank_row(e.grid(), after.grid().last());
    }
}

/// No key changes which file is edited, nor what it held when it was opened.
pub proof fn law_keys_keep_the_original(
    e: GridEditState,
    key: Key,
    stamp: Stamp,
    after: GridEditState,
    out: GridOutcome,
)
    requires
        grid_keys::grid_step(e, key, stamp, after, out),
    ensures
        after.path == e.path,
        after.original == e.original,
{
}

} // verus!
