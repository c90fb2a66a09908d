//! The undo tree of the grid editor. Undoing and then editing again opens a new branch; the old
//! one stays reachable.

use crate::calendar;
use crate::history::{current_timestamp, now_unix};
use crate::rows::clone_rows;
use vstd::prelude::*;

verus! {

/// A copy of what is edited: both grids and the body.
pub struct GridSnapshot {
    pub query_rows: Vec<(String, String)>,
    pub header_rows: Vec<(String, String)>,
    pub body_text: String,
}

/// What is edited: both grids and the body.
pub ghost struct GridContent {
    pub query_rows: Seq<(String, String)>,
    pub header_rows: Seq<(String, String)>,
    pub body_text: String,
}

impl View for GridSnapshot {
    type V = GridContent;

    open spec fn view(&self) -> GridContent {
        GridContent {
            query_rows: self.query_rows@,
            header_rows: self.header_rows@,
            body_text: self.body_text,
        }
    }
}

impl Clone for GridSnapshot {
    fn clone(&self) -> (r: Self)
        ensures
            r@ == self@,
    {
        GridSnapshot {
            query_rows: clone_rows(&self.query_rows),
            header_rows: clone_rows(&self.header_rows),
            body_text: self.body_text.clone(),
        }
    }
}

/// When something was committed: as text, and in seconds since 1970.
pub struct Stamp {
    pub timestamp: String,
    pub created_at: u64,
}

impl Stamp {
    /// Whether the text is that of some point in Unix time.
    pub open spec fn shows_a_time(&self) -> bool {
        exists|secs: u64| self.timestamp@ == #[trigger] calendar::timestamp_text(secs as nat)
    }

    /// The stamp of this moment, from two readings of the clock.
    pub fn now() -> (r: Self)
        ensures
            r.shows_a_time(),
    {
        Stamp { timestamp: current_timestamp(), created_at: now_unix() }
    }
}

/// One state in the undo tree.
pub struct UndoNode {
    pub parent: Option<usize>,
    pub children: Vec<usize>,
    pub depth: usize,
    pub snapshot: GridSnapshot,
    pub label: String,
    pub timestamp: String,
    pub created_at: u64,
}

/// Whether the nodes are a tree: the first is the root, every other one has an earlier one as
/// its parent, and each knows its children in the order in which they were made.
pub open spec fn is_tree(nodes: Seq<UndoNode>) -> bool {
    &&& nodes.len() > 0
    &&& nodes[0].parent is None
    &&& nodes[0].depth == 0
    &&& forall|i: int| 0 < i < nodes.len() ==> has_parent(nodes, i)
    &&& forall|i: int, k: int|
        0 <= i < nodes.len() && 0 <= k < nodes[i].children@.len() ==> is_child(
            nodes,
            i,
            #[trigger] nodes[i].children@[k] as int,
        )
    &&& forall|i: int, k: int, l: int|
        0 <= i < nodes.len() && 0 <= k < l < nodes[i].children@.len() ==> (
        #[trigger] nodes[i].children@[k]) < (#[trigger] nodes[i].children@[l])
}

/// Whether node `i` has an earlier node as its parent, which counts it among its children.
pub open spec fn has_parent(nodes: Seq<UndoNode>, i: int) -> bool {
    nodes[i].parent matches Some(p) && p < i && nodes[i].depth == nodes[p as int].depth + 1
        && nodes[p as int].children@.contains(i as usize)
}

/// Whether `c` is a later node with the parent `i`.
pub open spec fn is_child(nodes: Seq<UndoNode>, i: int, c: int) -> bool {
    i < c < nodes.len() && nodes[c].parent == Some(i as usize)
}

/// A node is at most as deep as it has nodes before it.
pub proof fn lemma_depth_bound(nodes: Seq<UndoNode>, i: int)
    requires
        is_tree(nodes),
        0 <= i < nodes.len(),
    ensures
        nodes[i].depth <= i,
    decreases i,
{
    if i > 0 {
        assert(has_parent(nodes, i));
        lemma_depth_bound(nodes, nodes[i].parent->0 as int);
    }
}

/// Whether two nodes agree in all but their children.
pub open spec fn same_but_children(a: UndoNode, b: UndoNode) -> bool {
    b == (UndoNode { children: b.children, ..a })
}

/// Whether `after` is `before` with one more node, which holds `content` and is the newest child
/// of the node `current`.
pub open spec fn grown(
    before: Seq<UndoNode>,
    current: usize,
    content: GridContent,
    label: Seq<char>,
    stamp: Stamp,
    after: Seq<UndoNode>,
) -> bool {
    let new = before.len() as int;
    &&& after.len() == before.len() + 1
    &&& forall|j: int| 0 <= j < before.len() && j != current ==> #[trigger] after[j] == before[j]
    &&& same_but_children(before[current as int], after[current as int])
    &&& after[current as int].children@ == before[current as int].children@.push(new as usize)
    &&& after[new].parent == Some(current)
    &&& after[new].children@ == Seq::<usize>::empty()
    &&& after[new].depth == before[current as int].depth + 1
    &&& after[new].snapshot@ == content
    &&& after[new].label@ == label
    &&& after[new].timestamp == stamp.timestamp
    &&& after[new].created_at == stamp.created_at
}

/// Growing a tree keeps it a tree.
pub proof fn law_grown_is_tree(
    before: Seq<UndoNode>,
    current: usize,
    content: GridContent,
    label: Seq<char>,
    stamp: Stamp,
    after: Seq<UndoNode>,
)
    requires
        is_tree(before),
        current < before.len() <= usize::MAX,
        grown(before, current, content, label, stamp, after),
    ensures
        is_tree(after),
{
    let new = before.len() as int;
    let cur = current as int;
    assert(after[0].parent == before[0].parent && after[0].depth == before[0].depth);
    assert forall|i: int| 0 < i < after.len() implies has_parent(after, i) by {
        if i < new {
            assert(has_parent(before, i));
            let p = before[i].parent->0 as int;
            assert(after[i].parent == before[i].parent && after[i].depth == before[i].depth);
            let k = choose|k: int|
                0 <= k < before[p].children@.len() && before[p].children@[k] == i as usize;
            assert(after[p].children@[k] == i as usize);
            assert(after[p].depth == before[p].depth);
        } else {
            assert(after[cur].children@.last() == new as usize);
            assert(after[cur].children@[after[cur].children@.len() - 1] == new as usize);
        }
    }
    assert forall|i: int, k: int|
        0 <= i < after.len() && 0 <= k < after[i].children@.len() implies is_child(
        after,
        i,
        #[trigger] after[i].children@[k] as int,
    ) by {
        if i < new && (i != cur || k < before[cur].children@.len()) {
            assert(after[i].children@[k] == before[i].children@[k]);
            assert(is_child(before, i, before[i].children@[k] as int));
        }
    }
    assert forall|i: int, k: int, l: int|
        0 <= i < after.len() && 0 <= k < l < after[i].children@.len() implies (
    #[trigger] after[i].children@[k]) < (#[trigger] after[i].children@[l]) by {
        if i < new {
            assert(after[i].children@[k] == before[i].children@[k]);
            if i != cur || l < before[cur].children@.len() {
                assert(after[i].children@[l] == before[i].children@[l]);
            } else {
                assert(is_child(before, i, before[i].children@[k] as int));
            }
        }
    }
}

/// No state is ever lost: growing a tree changes no parent, snapshot, label or time of the nodes
/// that were there, and takes no child away.
pub proof fn law_no_state_is_lost(
    before: Seq<UndoNode>,
    current: usize,
    content: GridContent,
    label: Seq<char>,
    stamp: Stamp,
    after: Seq<UndoNode>,
    i: int,
)
    requires
        current < before.len(),
        grown(before, current, content, label, stamp, after),
        0 <= i < before.len(),
    ensures
        same_but_children(before[i], after[i]),
        before[i].children@.is_prefix_of(after[i].children@),
{
    if i == current {
        let a = before[i].children@;
        assert(a.push(before.len() as usize).subrange(0, a.len() as int) == a);
    } else {
        let a = before[i].children@;
        assert(a.subrange(0, a.len() as int) == a);
    }
}

} // verus!
