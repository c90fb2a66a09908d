//! The inline editor for the query parameters, headers and body of a request file.

use crate::request::RequestFile;
use crate::rows::clone_rows;
use crate::undo;
use crate::undo::{GridSnapshot, Stamp, UndoNode};
use vstd::prelude::*;

verus! {

/// The part of a request that is edited.
#[derive(Clone, Copy, PartialEq, Eq, Structural)]
pub enum GridSection {
    Query,
    Headers,
    Body,
}

/// The column of a grid that is edited.
#[derive(Clone, Copy, PartialEq, Eq, Structural)]
pub enum GridCol {
    Key,
    Value,
}

/// The state of the editor. `original` keeps the rest of the file across a save.
pub struct GridEditState {
    pub path: String,
    pub original: RequestFile,
    pub query_rows: Vec<(String, String)>,
    pub header_rows: Vec<(String, String)>,
    /// The body as it is edited.
    pub body_text: String,
    pub section: GridSection,
    pub row: usize,
    pub col: GridCol,
    pub editing_text: Option<String>,
    pub undo_nodes: Vec<UndoNode>,
    pub undo_current: usize,
    pub undo_tree_active: bool,
    pub undo_tree_selected: usize,
}

/// The row that the cursor stands on once there are `len` rows.
pub open spec fn clamped(section: GridSection, row: usize, len: nat) -> usize {
    if section == GridSection::Body || row < len {
        row
    } else if len == 0 {
        0
    } else {
        (len - 1) as usize
    }
}

/// `rows` with one cell set.
pub open spec fn with_cell(
    rows: Seq<(String, String)>,
    row: int,
    col: GridCol,
    val: String,
) -> Seq<(String, String)> {
    if 0 <= row < rows.len() {
        rows.update(
            row,
            match col {
                GridCol::Key => (val, rows[row].1),
                GridCol::Value => (rows[row].0, val),
            },
        )
    } else {
        rows
    }
}

/// The text of one cell; empty where there is no such row.
pub open spec fn cell(rows: Seq<(String, String)>, row: int, col: GridCol) -> Seq<char> {
    if 0 <= row < rows.len() {
        match col {
            GridCol::Key => rows[row].0@,
            GridCol::Value => rows[row].1@,
        }
    } else {
        Seq::empty()
    }
}

impl GridEditState {
    /// The rows of the grid that is edited (of the headers while the body is).
    pub open spec fn grid(&self) -> Seq<(String, String)> {
        match self.section {
            GridSection::Query => self.query_rows@,
            _ => self.header_rows@,
        }
    }

    /// What is edited.
    pub open spec fn content(&self) -> undo::GridContent {
        undo::GridContent {
            query_rows: self.query_rows@,
            header_rows: self.header_rows@,
            body_text: self.body_text,
        }
    }

    /// Whether the undo tree is a tree and its cursors stand on nodes of it; whether the cursor
    /// stands on a row, or at the top where there is none; and whether a cell that is being
    /// typed into is there.
    pub open spec fn wf(&self) -> bool {
        &&& undo::is_tree(self.undo_nodes@)
        &&& self.undo_current < self.undo_nodes@.len()
        &&& self.undo_tree_selected < self.undo_nodes@.len()
        &&& self.row == 0 || (self.section != GridSection::Body && self.row < self.grid().len())
        &&& self.editing_text is Some ==> !self.undo_tree_active
        &&& self.editing_text is Some && self.section != GridSection::Body ==> self.row
            < self.grid().len()
    }

    /// The rows of the grid that is edited. The body has none.
    pub fn rows(&self) -> (r: &Vec<(String, String)>)
        requires
            self.section != GridSection::Body,
        ensures
            r@ == self.grid(),
    {
        match self.section {
            GridSection::Query => &self.query_rows,
            _ => &self.header_rows,
        }
    }

    /// The rows of the grid that is edited, to be changed. The body has none.
    pub fn rows_mut(&mut self) -> (r: &mut Vec<(String, String)>)
        requires
            old(self).section != GridSection::Body,
        ensures
            r@ == old(self).grid(),
            old(self).section == GridSection::Query ==> *final(self) == (GridEditState {
                query_rows: *final(r),
                ..*old(self)
            }),
            old(self).section == GridSection::Headers ==> *final(self) == (GridEditState {
                header_rows: *final(r),
                ..*old(self)
            }),
    {
        match self.section {
            GridSection::Query => &mut self.query_rows,
            _ => &mut self.header_rows,
        }
    }

    /// The text under the cursor; empty where there is no row.
    pub fn focused_value(&self) -> (r: String)
        requires
            self.section != GridSection::Body,
        ensures
            r@ == cell(self.grid(), self.row as int, self.col),
    {
        let rows: &Vec<(String, String)> = self.rows();
        if self.row < rows.len() {
            match self.col {
                GridCol::Key => rows[self.row].0.clone(),
                GridCol::Value => rows[self.row].1.clone(),
            }
        } else {
            String::new()
        }
    }

    /// Whether `after` differs from this state in the rows of the edited grid alone, which are
    /// `rows`.
    pub open spec fn only_rows(self, after: Self, rows: Seq<(String, String)>) -> bool {
        &&& after == (GridEditState {
            query_rows: after.query_rows,
            header_rows: after.header_rows,
            ..self
        })
        &&& after.grid() == rows
        &&& self.section == GridSection::Query ==> after.header_rows == self.header_rows
        &&& self.section != GridSection::Query ==> after.query_rows == self.query_rows
    }

    /// Sets the text under the cursor, if there is a row.
    pub fn set_focused_value(&mut self, val: String)
        requires
            old(self).section != GridSection::Body,
        ensures
            old(self).only_rows(
                *final(self),
                with_cell(old(self).grid(), old(self).row as int, old(self).col, val),
            ),
    {
        let row: usize = self.row;
        let col: GridCol = self.col;
        let rows: &mut Vec<(String, String)> = self.rows_mut();
        if row < rows.len() {
            match col {
                GridCol::Key => {
                    let kept: String = rows[row].1.clone();
                    rows.set(row, (val, kept));
                },
                GridCol::Value => {
                    let kept: String = rows[row].0.clone();
                    rows.set(row, (kept, val));
                },
            }
        }
    }

    /// A copy of what is edited.
    pub fn snapshot(&self) -> (r: GridSnapshot)
        ensures
            r@ == self.content(),
    {
        GridSnapshot {
            query_rows: clone_rows(&self.query_rows),
            header_rows: clone_rows(&self.header_rows),
            body_text: self.body_text.clone(),
        }
    }

    /// Whether `after` is this state, committed: with a new node of the undo tree that holds what
    /// is edited now, and moved onto it.
    pub open spec fn committed(self, after: Self, label: Seq<char>, stamp: Stamp) -> bool {
        &&& after == (GridEditState {
            undo_nodes: after.undo_nodes,
            undo_current: self.undo_nodes@.len() as usize,
            ..self
        })
        &&& undo::grown(
            self.undo_nodes@,
            self.undo_current,
            self.content(),
            label,
            stamp,
            after.undo_nodes@,
        )
    }

    /// Records the current state as a new child of the current undo node and moves onto it, with
    /// the given stamp. Nothing that was recorded is changed or lost.
    pub fn commit_at(&mut self, label: String, stamp: Stamp)
        requires
            undo::is_tree(old(self).undo_nodes@),
            old(self).undo_current < old(self).undo_nodes@.len(),
        ensures
            old(self).committed(*final(self), label@, stamp),
            undo::is_tree(final(self).undo_nodes@),
            final(self).undo_current < final(self).undo_nodes@.len(),
            old(self).wf() ==> final(self).wf(),
    {
        let ghost before = self.undo_nodes@;
        let ghost content = self.content();
        proof {
            undo::lemma_depth_bound(before, self.undo_current as int);
        }
        let current: usize = self.undo_current;
        let new_id: usize = self.undo_nodes.len();
        let depth: usize = self.undo_nodes[current].depth + 1;
        let snapshot: GridSnapshot = self.snapshot();
        self.undo_nodes.push(
            UndoNode {
                parent: Some(current),
                children: Vec::new(),
                depth,
                snapshot,
                label,
                timestamp: stamp.timestamp,
                created_at: stamp.created_at,
            },
        );
        self.undo_nodes[current].children.push(new_id);
        self.undo_current = new_id;
        proof {
            undo::law_grown_is_tree(
                before,
                current,
                content,
                label@,
                stamp,
                self.undo_nodes@,
            );
        }
    }

    /// Records the current state as a new child of the current undo node, stamped with the time
    /// by the clock, and moves onto it.
    pub fn commit(&mut self, label: String)
        requires
            undo::is_tree(old(self).undo_nodes@),
            old(self).undo_current < old(self).undo_nodes@.len(),
        ensures
            exists|stamp: Stamp| #[trigger]
                old(self).committed(*final(self), label@, stamp) && stamp.shows_a_time(),
            undo::is_tree(final(self).undo_nodes@),
            final(self).undo_current < final(self).undo_nodes@.len(),
            old(self).wf() ==> final(self).wf(),
    {
        let stamp: Stamp = Stamp::now();
        let ghost s = stamp;
        self.commit_at(label, stamp);
        assert(old(self).committed(*self, label@, s));
    }

    /// Whether `after` is this state, taken back to the node `id` of the undo tree.
    pub open spec fn restored(self, after: Self, id: usize) -> bool {
        &&& after == (GridEditState {
            query_rows: after.query_rows,
            header_rows: after.header_rows,
            body_text: after.body_text,
            undo_current: id,
            row: clamped(self.section, self.row, after.grid().len()),
            ..self
        })
        &&& after.content() == self.undo_nodes@[id as int].snapshot@
    }

    /// Takes the editor back to the state of a node of the undo tree.
    pub fn restore_from(&mut self, node_id: usize)
        requires
            node_id < old(self).undo_nodes@.len(),
        ensures
            old(self).restored(*final(self), node_id),
            old(self).wf() && old(self).editing_text is None ==> final(self).wf(),
    {
        let snap: GridSnapshot = self.undo_nodes[node_id].snapshot.clone();
        self.query_rows = snap.query_rows;
        self.header_rows = snap.header_rows;
        self.body_text = snap.body_text;
        self.undo_current = node_id;
        self.clamp_cursor();
    }

    /// Whether `after` is this state after one step back, and `moved` says whether there was one.
    pub open spec fn undone(self, after: Self, moved: bool) -> bool {
        match self.undo_nodes@[self.undo_current as int].parent {
            Some(p) => moved && self.restored(after, p),
            None => !moved && after == self,
        }
    }

    /// Goes back to the parent of the current node. Returns whether there was one.
    pub fn undo(&mut self) -> (moved: bool)
        requires
            undo::is_tree(old(self).undo_nodes@),
            old(self).undo_current < old(self).undo_nodes@.len(),
        ensures
            old(self).undone(*final(self), moved),
            old(self).wf() && old(self).editing_text is None ==> final(self).wf(),
    {
        proof {
            if self.undo_current > 0 {
                assert(undo::has_parent(self.undo_nodes@, self.undo_current as int));
            }
        }
        match self.undo_nodes[self.undo_current].parent {
            Some(parent) => {
                self.restore_from(parent);
                true
            },
            None => false,
        }
    }

    /// Whether `after` is this state after one step forward along the newest branch, and `moved`
    /// says whether there was one.
    pub open spec fn redone(self, after: Self, moved: bool) -> bool {
        let children = self.undo_nodes@[self.undo_current as int].children@;
        if children.len() > 0 {
            moved && self.restored(after, children.last())
        } else {
            !moved && after == self
        }
    }

    /// Goes on to the newest child of the current node. Returns whether there was one.
    pub fn redo(&mut self) -> (moved: bool)
        requires
            undo::is_tree(old(self).undo_nodes@),
            old(self).undo_current < old(self).undo_nodes@.len(),
        ensures
            old(self).redone(*final(self), moved),
            old(self).wf() && old(self).editing_text is None ==> final(self).wf(),
    {
        let n: usize = self.undo_nodes[self.undo_current].children.len();
        if n > 0 {
            let child: usize = self.undo_nodes[self.undo_current].children[n - 1];
            assert(undo::is_child(self.undo_nodes@, self.undo_current as int, child as int));
            self.restore_from(child);
            true
        } else {
            false
        }
    }

    /// Whether `after` is this state taken to the node `id`, and `moved` says whether that is
    /// another node of the tree.
    pub open spec fn jumped(self, after: Self, id: usize, moved: bool) -> bool {
        if id < self.undo_nodes@.len() && id != self.undo_current {
            moved && self.restored(after, id)
        } else {
            !moved && after == self
        }
    }

    /// Goes to any other node of the undo tree. Returns whether there was such a node.
    pub fn jump_to(&mut self, node_id: usize) -> (moved: bool)
        ensures
            old(self).jumped(*final(self), node_id, moved),
            old(self).wf() && old(self).editing_text is None ==> final(self).wf(),
    {
        if node_id < self.undo_nodes.len() && node_id != self.undo_current {
            self.restore_from(node_id);
            true
        } else {
            false
        }
    }

    /// Puts the cursor on the last row where it stands behind it.
    pub fn clamp_cursor(&mut self)
        ensures
            *final(self) == (GridEditState {
                row: clamped(old(self).section, old(self).row, old(self).grid().len()),
                ..*old(self)
            }),
    {
        if self.section == GridSection::Body {
            return;
        }
        let len: usize = self.rows().len();
        if len == 0 {
            self.row = 0;
        } else if self.row > len - 1 {
            self.row = len - 1;
        }
    }
}

} // verus!
