//! The undo tree drawn as a graph of columns, newest state first.

use crate::text;
use crate::text::{concat2, decimal_text};
use crate::undo;
use crate::undo::UndoNode;
use vstd::prelude::*;
use vstd::string::*;

verus! {

// ---------------------------------------------------------------------------------------------
// Times
// ---------------------------------------------------------------------------------------------

/// How long ago something was, in the largest unit that fits.
pub open spec fn time_ago(created_at: int, now: int) -> Seq<char> {
    let elapsed = if now > created_at {
        now - created_at
    } else {
        0
    };
    if elapsed < 5 {
        "just now"@
    } else if elapsed < 60 {
        text::decimal(elapsed as nat) + "s ago"@
    } else if elapsed < 3600 {
        text::decimal((elapsed / 60) as nat) + "m ago"@
    } else if elapsed < 86400 {
        text::decimal((elapsed / 3600) as nat) + "h ago"@
    } else {
        text::decimal((elapsed / 86400) as nat) + "d ago"@
    }
}

/// How long ago something was.
pub fn relative_time(created_at: u64, now: u64) -> (r: String)
    ensures
        r@ == time_ago(created_at as int, now as int),
{
    let elapsed: u64 = now.saturating_sub(created_at);
    if elapsed < 5 {
        "just now".to_string()
    } else if elapsed < 60 {
        concat2(decimal_text(elapsed).as_str(), "s ago")
    } else if elapsed < 3600 {
        concat2(decimal_text(elapsed / 60).as_str(), "m ago")
    } else if elapsed < 86400 {
        concat2(decimal_text(elapsed / 3600).as_str(), "h ago")
    } else {
        concat2(decimal_text(elapsed / 86400).as_str(), "d ago")
    }
}

// ---------------------------------------------------------------------------------------------
// Columns
// ---------------------------------------------------------------------------------------------

/// Walks node `id` and its first `k` children, each with all that is below it: the node gets the
/// column `col`, its first child continues that column, and every other child starts the next
/// free one. Gives back the columns and the next free column.
pub open spec fn walked(
    nodes: Seq<UndoNode>,
    id: int,
    col: int,
    k: int,
    columns: Seq<int>,
    next: int,
) -> (Seq<int>, int)
    decreases nodes.len() - id, k,
{
    if k <= 0 {
        (columns.update(id, col), next)
    } else {
        let done = walked(nodes, id, col, k - 1, columns, next);
        let child = nodes[id].children@[k - 1] as int;
        if id < child < nodes.len() {
            if k == 1 {
                walked(nodes, child, col, nodes[child].children@.len() as int, done.0, done.1)
            } else {
                walked(
                    nodes,
                    child,
                    done.1,
                    nodes[child].children@.len() as int,
                    done.0,
                    done.1 + 1,
                )
            }
        } else {
            done
        }
    }
}

/// The whole tree, walked.
pub open spec fn layout(nodes: Seq<UndoNode>) -> (Seq<int>, int) {
    walked(
        nodes,
        0,
        0,
        nodes[0].children@.len() as int,
        Seq::new(nodes.len(), |i: int| 0int),
        1,
    )
}

/// The column of each node.
pub open spec fn columns_of(nodes: Seq<UndoNode>) -> Seq<int> {
    layout(nodes).0
}

/// How many columns there are.
pub open spec fn column_count(nodes: Seq<UndoNode>) -> int {
    layout(nodes).1
}

/// How many branches start in the first `k` children of node `id` and below them.
pub open spec fn branch_count(nodes: Seq<UndoNode>, id: int, k: int) -> int
    decreases nodes.len() - id, k,
{
    if k <= 0 {
        0
    } else {
        let child = nodes[id].children@[k - 1] as int;
        branch_count(nodes, id, k - 1) + if id < child < nodes.len() {
            (if k == 1 {
                0int
            } else {
                1int
            }) + branch_count(nodes, child, nodes[child].children@.len() as int)
        } else {
            0
        }
    }
}

/// Whether `x` is `a` or comes from it.
pub open spec fn below(nodes: Seq<UndoNode>, a: int, x: int) -> bool
    decreases x,
{
    a <= x < nodes.len() && (x == a || (nodes[x].parent matches Some(p) && p < x && below(
        nodes,
        a,
        p as int,
    )))
}

/// Whether `x` is node `id` or comes from one of its first `k` children.
pub open spec fn within(nodes: Seq<UndoNode>, id: int, k: int, x: int) -> bool {
    x == id || exists|j: int|
        0 <= j < k && #[trigger] below(nodes, nodes[id].children@[j] as int, x)
}

/// Whether node `x` is the earliest child of its parent.
pub open spec fn continues(nodes: Seq<UndoNode>, x: int) -> bool {
    nodes[x].parent matches Some(p) && nodes[p as int].children@[0] == x
}

/// Whether node `x` starts a branch: it has a parent and is not its earliest child.
pub open spec fn branches_off(nodes: Seq<UndoNode>, x: int) -> bool {
    nodes[x].parent is Some && !continues(nodes, x)
}

proof fn lemma_below_parent(nodes: Seq<UndoNode>, id: int, j: int, x: int)
    requires
        undo::is_tree(nodes),
        0 <= id < nodes.len(),
        0 <= j < nodes[id].children@.len(),
        below(nodes, nodes[id].children@[j] as int, x),
    ensures
        below(nodes, id, x),
        x > id,
        nodes[x].parent matches Some(p) && p < x && (p == id || below(
            nodes,
            nodes[id].children@[j] as int,
            p as int,
        )),
    decreases x,
{
    let c = nodes[id].children@[j] as int;
    assert(undo::is_child(nodes, id, c));
    if x == c {
        assert(below(nodes, id, id));
    } else {
        let p = nodes[x].parent->0 as int;
        lemma_below_parent(nodes, id, j, p);
    }
}

proof fn lemma_below_child(nodes: Seq<UndoNode>, id: int, x: int)
    requires
        undo::is_tree(nodes),
        nodes.len() <= usize::MAX,
        0 <= id < nodes.len(),
        below(nodes, id, x),
    ensures
        within(nodes, id, nodes[id].children@.len() as int, x),
    decreases x,
{
    if x != id {
        assert(undo::has_parent(nodes, x));
        let p = nodes[x].parent->0 as int;
        if p == id {
            let j = choose|j: int|
                0 <= j < nodes[id].children@.len() && nodes[id].children@[j] == x as usize;
            assert(below(nodes, nodes[id].children@[j] as int, x));
        } else {
            lemma_below_child(nodes, id, p);
            let j = choose|j: int|
                0 <= j < nodes[id].children@.len() && #[trigger] below(
                    nodes,
                    nodes[id].children@[j] as int,
                    p,
                );
            assert(below(nodes, nodes[id].children@[j] as int, x));
        }
    }
}

proof fn lemma_below_deeper(nodes: Seq<UndoNode>, a: int, x: int)
    requires
        undo::is_tree(nodes),
        0 <= a,
        below(nodes, a, x),
        x != a,
    ensures
        nodes[x].depth > nodes[a].depth,
    decreases x,
{
    assert(undo::has_parent(nodes, x));
    let p = nodes[x].parent->0 as int;
    if p != a {
        lemma_below_deeper(nodes, a, p);
    }
}

proof fn lemma_one_ancestor(nodes: Seq<UndoNode>, a: int, b: int, x: int)
    requires
        undo::is_tree(nodes),
        0 <= a,
        0 <= b,
        below(nodes, a, x),
        below(nodes, b, x),
        nodes[a].depth == nodes[b].depth,
    ensures
        a == b,
    decreases x,
{
    if x == a {
        if x != b {
            lemma_below_deeper(nodes, b, x);
        }
    } else if x == b {
        lemma_below_deeper(nodes, a, x);
    } else {
        lemma_one_ancestor(nodes, a, b, nodes[x].parent->0 as int);
    }
}

proof fn lemma_siblings_apart(nodes: Seq<UndoNode>, id: int, j: int, l: int, x: int)
    requires
        undo::is_tree(nodes),
        0 <= id < nodes.len(),
        0 <= j < l < nodes[id].children@.len(),
    ensures
        !(below(nodes, nodes[id].children@[j] as int, x) && below(
            nodes,
            nodes[id].children@[l] as int,
            x,
        )),
{
    let a = nodes[id].children@[j] as int;
    let b = nodes[id].children@[l] as int;
    assert(undo::is_child(nodes, id, a) && undo::is_child(nodes, id, b));
    assert(nodes[id].children@[j] < nodes[id].children@[l]);
    assert(undo::has_parent(nodes, a) && undo::has_parent(nodes, b));
    if below(nodes, a, x) && below(nodes, b, x) {
        lemma_one_ancestor(nodes, a, b, x);
    }
}

/// Walking one child more reaches what comes from that child, and nothing twice.
proof fn lemma_within_step(nodes: Seq<UndoNode>, id: int, k: int)
    requires
        undo::is_tree(nodes),
        nodes.len() <= usize::MAX,
        0 <= id < nodes.len(),
        0 < k <= nodes[id].children@.len(),
    ensures
        ({
            let c = nodes[id].children@[k - 1] as int;
            let all = nodes[c].children@.len() as int;
            &&& forall|x: int| #[trigger] within(nodes, c, all, x) == below(nodes, c, x)
            &&& forall|x: int| #[trigger]
                within(nodes, id, k, x) == (within(nodes, id, k - 1, x) || below(nodes, c, x))
            &&& forall|x: int| #[trigger] within(nodes, id, k - 1, x) ==> !below(nodes, c, x)
        }),
{
    let c = nodes[id].children@[k - 1] as int;
    let all = nodes[c].children@.len() as int;
    assert(undo::is_child(nodes, id, c));
    assert forall|x: int| #[trigger] within(nodes, c, all, x) == below(nodes, c, x) by {
        if below(nodes, c, x) {
            lemma_below_child(nodes, c, x);
        }
        if within(nodes, c, all, x) {
            if x == c {
                assert(below(nodes, c, c));
            } else {
                let j = choose|j: int|
                    0 <= j < all && #[trigger] below(nodes, nodes[c].children@[j] as int, x);
                lemma_below_parent(nodes, c, j, x);
            }
        }
    }
    assert forall|x: int| #[trigger]
        within(nodes, id, k, x) == (within(nodes, id, k - 1, x) || below(nodes, c, x)) by {
        if within(nodes, id, k, x) && x != id {
            let j = choose|j: int|
                0 <= j < k && #[trigger] below(nodes, nodes[id].children@[j] as int, x);
            assert(j == k - 1 || within(nodes, id, k - 1, x));
        }
        if within(nodes, id, k - 1, x) && x != id {
            let j = choose|j: int|
                0 <= j < k - 1 && #[trigger] below(nodes, nodes[id].children@[j] as int, x);
            assert(within(nodes, id, k, x));
        }
        if below(nodes, c, x) {
            assert(below(nodes, nodes[id].children@[k - 1] as int, x));
        }
    }
    assert forall|x: int| #[trigger] within(nodes, id, k - 1, x) implies !below(nodes, c, x) by {
        if x != id {
            let j = choose|j: int|
                0 <= j < k - 1 && #[trigger] below(nodes, nodes[id].children@[j] as int, x);
            lemma_siblings_apart(nodes, id, j, k - 1, x);
        }
    }
}

/// What a walk does: it gives `id` its column, leaves the columns of all other nodes alone, lets
/// first children continue the column of their parent, and gives each branch a free column of its
/// own.
pub open spec fn placed(
    nodes: Seq<UndoNode>,
    id: int,
    col: int,
    k: int,
    columns: Seq<int>,
    next: int,
    r: (Seq<int>, int),
) -> bool {
    &&& r.0.len() == nodes.len()
    &&& next <= r.1
    &&& r.1 == next + branch_count(nodes, id, k)
    &&& r.0[id] == col
    &&& forall|x: int| !within(nodes, id, k, x) && 0 <= x < nodes.len() ==> #[trigger] r.0[x]
        == columns[x]
    &&& forall|x: int|
        #![trigger r.0[x]]
        within(nodes, id, k, x) && x != id ==> {
            &&& continues(nodes, x) ==> r.0[x] == r.0[nodes[x].parent->0 as int]
            &&& !continues(nodes, x) ==> next <= r.0[x] < r.1
        }
    &&& forall|x: int, y: int|
        #![trigger r.0[x], r.0[y]]
        within(nodes, id, k, x) && within(nodes, id, k, y) && x != y && x != id && y != id
            && !continues(nodes, x) && !continues(nodes, y) ==> r.0[x] != r.0[y]
}

proof fn lemma_walk(
    nodes: Seq<UndoNode>,
    id: int,
    col: int,
    k: int,
    columns: Seq<int>,
    next: int,
)
    requires
        undo::is_tree(nodes),
        nodes.len() <= usize::MAX,
        0 <= id < nodes.len(),
        0 <= k <= nodes[id].children@.len(),
        columns.len() == nodes.len(),
    ensures
        placed(nodes, id, col, k, columns, next, walked(nodes, id, col, k, columns, next)),
    decreases nodes.len() - id, k,
{
    let r = walked(nodes, id, col, k, columns, next);
    if k == 0 {
        assert forall|x: int| within(nodes, id, k, x) implies x == id by {}
    } else {
        let s = walked(nodes, id, col, k - 1, columns, next);
        lemma_walk(nodes, id, col, k - 1, columns, next);
        let c = nodes[id].children@[k - 1] as int;
        let all = nodes[c].children@.len() as int;
        assert(undo::is_child(nodes, id, c));
        let (ccol, cnext) = if k == 1 {
            (col, s.1)
        } else {
            (s.1, s.1 + 1)
        };
        lemma_walk(nodes, c, ccol, all, s.0, cnext);
        assert(r == walked(nodes, c, ccol, all, s.0, cnext));
        // The child is the first one exactly where it continues the column.
        assert(continues(nodes, c) <==> k == 1) by {
            if k > 1 {
                assert(nodes[id].children@[0] < nodes[id].children@[k - 1]);
            }
        }
        lemma_within_step(nodes, id, k);
        assert forall|x: int|
            #![trigger nodes[x]]
            within(nodes, id, k - 1, x) && x != id implies within(
            nodes,
            id,
            k - 1,
            nodes[x].parent->0 as int,
        ) && 0 <= x < nodes.len() by {
            let j = choose|j: int|
                0 <= j < k - 1 && #[trigger] below(nodes, nodes[id].children@[j] as int, x);
            lemma_below_parent(nodes, id, j, x);
        }
        assert forall|x: int|
            #![trigger r.0[x]]
            within(nodes, id, k, x) && x != id implies {
            &&& continues(nodes, x) ==> r.0[x] == r.0[nodes[x].parent->0 as int]
            &&& !continues(nodes, x) ==> next <= r.0[x] < r.1
        } by {
            if within(nodes, id, k - 1, x) {
                let p = nodes[x].parent->0 as int;
                assert(within(nodes, id, k - 1, p));
                assert(!within(nodes, c, all, x) && !within(nodes, c, all, p));
                assert(r.0[x] == s.0[x]);
                if continues(nodes, x) {
                    lemma_parent_in_range(nodes, x);
                    assert(r.0[p] == s.0[p]);
                }
            } else if x == c {
                assert(r.0[id] == s.0[id]);
            } else {
                assert(within(nodes, c, all, x));
            }
        }
        assert forall|x: int, y: int|
            #![trigger r.0[x], r.0[y]]
            within(nodes, id, k, x) && within(nodes, id, k, y) && x != y && x != id && y != id
                && !continues(nodes, x) && !continues(nodes, y) implies r.0[x] != r.0[y] by {
            if within(nodes, id, k - 1, x) {
                assert(!within(nodes, c, all, x));
                assert(within(nodes, id, k - 1, nodes[x].parent->0 as int));
                assert(r.0[x] == s.0[x]);
            } else {
                assert(within(nodes, c, all, x));
            }
            if within(nodes, id, k - 1, y) {
                assert(!within(nodes, c, all, y));
                assert(within(nodes, id, k - 1, nodes[y].parent->0 as int));
                assert(r.0[y] == s.0[y]);
            } else {
                assert(within(nodes, c, all, y));
            }
        }
        assert(r.0[id] == s.0[id]);
        assert forall|x: int| !within(nodes, id, k, x) && 0 <= x < nodes.len() implies
            #[trigger] r.0[x] == columns[x] by {
            assert(s.0[x] == columns[x]);
        }
    }
}

proof fn lemma_parent_in_range(nodes: Seq<UndoNode>, x: int)
    requires
        undo::is_tree(nodes),
        0 <= x < nodes.len(),
        x > 0 || nodes[x].parent is Some,
    ensures
        nodes[x].parent is Some,
        nodes[x].parent->0 < x,
{
    assert(undo::has_parent(nodes, x));
}

// ---------------------------------------------------------------------------------------------
// What holds of the columns
// ---------------------------------------------------------------------------------------------

proof fn lemma_all_below_root(nodes: Seq<UndoNode>, x: int)
    requires
        undo::is_tree(nodes),
        0 <= x < nodes.len(),
    ensures
        below(nodes, 0, x),
    decreases x,
{
    if x > 0 {
        assert(undo::has_parent(nodes, x));
        lemma_all_below_root(nodes, nodes[x].parent->0 as int);
    }
}

proof fn lemma_layout(nodes: Seq<UndoNode>)
    requires
        undo::is_tree(nodes),
        nodes.len() <= usize::MAX,
    ensures
        placed(
            nodes,
            0,
            0,
            nodes[0].children@.len() as int,
            Seq::new(nodes.len(), |i: int| 0int),
            1,
            layout(nodes),
        ),
        forall|x: int|
            0 <= x < nodes.len() ==> #[trigger] within(
                nodes,
                0,
                nodes[0].children@.len() as int,
                x,
            ),
{
    lemma_walk(
        nodes,
        0,
        0,
        nodes[0].children@.len() as int,
        Seq::new(nodes.len(), |i: int| 0int),
        1,
    );
    assert forall|x: int| 0 <= x < nodes.len() implies #[trigger] within(
        nodes,
        0,
        nodes[0].children@.len() as int,
        x,
    ) by {
        lemma_all_below_root(nodes, x);
        lemma_below_child(nodes, 0, x);
    }
}

/// The root has the first column, and the earliest child of a node continues its column.
pub proof fn law_first_child_continues(nodes: Seq<UndoNode>, x: int)
    requires
        undo::is_tree(nodes),
        nodes.len() <= usize::MAX,
        0 <= x < nodes.len(),
    ensures
        columns_of(nodes)[0] == 0,
        continues(nodes, x) ==> columns_of(nodes)[x] == columns_of(nodes)[nodes[x].parent->0 as int],
{
    lemma_layout(nodes);
    assert(within(nodes, 0, nodes[0].children@.len() as int, x));
}

/// Each branch has a column of its own, to the right of the root's.
pub proof fn law_branches_have_own_columns(nodes: Seq<UndoNode>, x: int, y: int)
    requires
        undo::is_tree(nodes),
        nodes.len() <= usize::MAX,
        0 <= x < nodes.len(),
        0 <= y < nodes.len(),
        branches_off(nodes, x),
    ensures
        1 <= columns_of(nodes)[x] < column_count(nodes),
        branches_off(nodes, y) && x != y ==> columns_of(nodes)[x] != columns_of(nodes)[y],
{
    lemma_layout(nodes);
    assert(within(nodes, 0, nodes[0].children@.len() as int, x));
    assert(within(nodes, 0, nodes[0].children@.len() as int, y));
}

/// Whether a walk put some node below `id` into the column `c`.
spec fn used(nodes: Seq<UndoNode>, id: int, k: int, columns: Seq<int>, c: int) -> bool {
    exists|x: int| within(nodes, id, k, x) && x != id && #[trigger] columns[x] == c
}

/// Whether of the first `k` children of `x`, those that start branches have their columns in the
/// order of the children.
pub open spec fn branches_in_order(
    nodes: Seq<UndoNode>,
    columns: Seq<int>,
    x: int,
    k: int,
) -> bool {
    forall|j: int, l: int|
        1 <= j < l < k ==> columns[#[trigger] nodes[x].children@[j] as int]
            < columns[#[trigger] nodes[x].children@[l] as int]
}

proof fn lemma_child_is_within(nodes: Seq<UndoNode>, id: int, k: int, x: int, j: int)
    requires
        undo::is_tree(nodes),
        0 <= id < nodes.len(),
        0 <= k <= nodes[id].children@.len(),
        within(nodes, id, k, x),
        x != id,
        0 <= j < nodes[x].children@.len(),
    ensures
        0 <= x < nodes.len(),
        within(nodes, id, k, nodes[x].children@[j] as int),
        nodes[x].children@[j] < nodes.len(),
{
    let i = choose|i: int| 0 <= i < k && #[trigger] below(nodes, nodes[id].children@[i] as int, x);
    assert(undo::is_child(nodes, id, nodes[id].children@[i] as int));
    let c = nodes[x].children@[j] as int;
    assert(undo::is_child(nodes, x, c));
    assert(below(nodes, nodes[id].children@[i] as int, c));
}

proof fn lemma_walk_in_order(
    nodes: Seq<UndoNode>,
    id: int,
    col: int,
    k: int,
    columns: Seq<int>,
    next: int,
)
    requires
        undo::is_tree(nodes),
        nodes.len() <= usize::MAX,
        0 <= id < nodes.len(),
        0 <= k <= nodes[id].children@.len(),
        columns.len() == nodes.len(),
    ensures
        ({
            let r = walked(nodes, id, col, k, columns, next);
            &&& forall|c: int| next <= c < r.1 ==> #[trigger] used(nodes, id, k, r.0, c)
            &&& branches_in_order(nodes, r.0, id, k)
            &&& forall|x: int| #[trigger]
                within(nodes, id, k, x) && x != id ==> branches_in_order(
                    nodes,
                    r.0,
                    x,
                    nodes[x].children@.len() as int,
                )
        }),
    decreases nodes.len() - id, k,
{
    let r = walked(nodes, id, col, k, columns, next);
    if k == 0 {
        assert forall|x: int| within(nodes, id, k, x) implies x == id by {}
    } else {
        let s = walked(nodes, id, col, k - 1, columns, next);
        let c = nodes[id].children@[k - 1] as int;
        let all = nodes[c].children@.len() as int;
        assert(undo::is_child(nodes, id, c));
        let (ccol, cnext) = if k == 1 {
            (col, s.1)
        } else {
            (s.1, s.1 + 1)
        };
        lemma_walk(nodes, id, col, k - 1, columns, next);
        lemma_walk_in_order(nodes, id, col, k - 1, columns, next);
        lemma_walk(nodes, c, ccol, all, s.0, cnext);
        lemma_walk_in_order(nodes, c, ccol, all, s.0, cnext);
        assert(r == walked(nodes, c, ccol, all, s.0, cnext));
        lemma_within_step(nodes, id, k);
        assert forall|x: int| #[trigger] within(nodes, id, k - 1, x) && 0 <= x
            < nodes.len() implies r.0[x] == s.0[x] by {
            assert(!below(nodes, c, x));
            assert(!within(nodes, c, all, x));
        }
        assert forall|w: int| next <= w < r.1 implies #[trigger] used(nodes, id, k, r.0, w) by {
            if w < s.1 {
                assert(used(nodes, id, k - 1, s.0, w));
                let x = choose|x: int|
                    within(nodes, id, k - 1, x) && x != id && #[trigger] s.0[x] == w;
                lemma_within_range(nodes, id, k - 1, x);
                assert(within(nodes, id, k, x) && r.0[x] == w);
            } else if w < cnext {
                assert(below(nodes, c, c));
                assert(within(nodes, id, k, c) && r.0[c] == w);
            } else {
                assert(used(nodes, c, all, r.0, w));
                let x = choose|x: int|
                    within(nodes, c, all, x) && x != c && #[trigger] r.0[x] == w;
                assert(below(nodes, c, x));
                assert(within(nodes, id, k, x) && r.0[x] == w);
            }
        }
        assert forall|j: int, l: int| 1 <= j < l < k implies r.0[#[trigger] nodes[id].children@[j] as int]
            < r.0[#[trigger] nodes[id].children@[l] as int] by {
            let a = nodes[id].children@[j] as int;
            let b = nodes[id].children@[l] as int;
            assert(undo::is_child(nodes, id, a) && undo::is_child(nodes, id, b));
            assert(below(nodes, a, a) && below(nodes, b, b));
            assert(within(nodes, id, k - 1, a));
            if l < k - 1 {
                assert(within(nodes, id, k - 1, b));
            } else {
                assert(nodes[id].children@[0] < nodes[id].children@[j]);
                assert(!continues(nodes, a));
                assert(s.0[a] < s.1);
            }
        }
        assert forall|x: int| #[trigger] within(nodes, id, k, x) && x
            != id implies branches_in_order(
            nodes,
            r.0,
            x,
            nodes[x].children@.len() as int,
        ) by {
            if within(nodes, id, k - 1, x) {
                assert forall|j: int, l: int|
                    1 <= j < l < nodes[x].children@.len() implies r.0[#[trigger] nodes[x].children@[j] as int]
                    < r.0[#[trigger] nodes[x].children@[l] as int] by {
                    lemma_child_is_within(nodes, id, k - 1, x, j);
                    lemma_child_is_within(nodes, id, k - 1, x, l);
                    assert(s.0[nodes[x].children@[j] as int] < s.0[nodes[x].children@[l] as int]);
                }
            } else {
                assert(within(nodes, c, all, x));
            }
        }
    }
}

proof fn lemma_within_range(nodes: Seq<UndoNode>, id: int, k: int, x: int)
    requires
        undo::is_tree(nodes),
        0 <= id < nodes.len(),
        0 <= k <= nodes[id].children@.len(),
        within(nodes, id, k, x),
    ensures
        0 <= x < nodes.len(),
{
    if x != id {
        let j = choose|j: int|
            0 <= j < k && #[trigger] below(nodes, nodes[id].children@[j] as int, x);
        assert(undo::is_child(nodes, id, nodes[id].children@[j] as int));
    }
}

/// Of the branches that start at one node the later ones lie further to the right.
pub proof fn law_later_branches_lie_further_right(nodes: Seq<UndoNode>, x: int, j: int, l: int)
    requires
        undo::is_tree(nodes),
        nodes.len() <= usize::MAX,
        0 <= x < nodes.len(),
        1 <= j < l < nodes[x].children@.len(),
    ensures
        columns_of(nodes)[nodes[x].children@[j] as int]
            < columns_of(nodes)[nodes[x].children@[l] as int],
{
    let all = nodes[0].children@.len() as int;
    lemma_layout(nodes);
    lemma_walk_in_order(nodes, 0, 0, all, Seq::new(nodes.len(), |i: int| 0int), 1);
    assert(within(nodes, 0, all, x));
    assert(branches_in_order(nodes, columns_of(nodes), x, nodes[x].children@.len() as int));
}

/// No column is left empty.
pub proof fn law_no_column_is_empty(nodes: Seq<UndoNode>, c: int)
    requires
        undo::is_tree(nodes),
        nodes.len() <= usize::MAX,
        0 <= c < column_count(nodes),
    ensures
        exists|y: int| 0 <= y < nodes.len() && #[trigger] columns_of(nodes)[y] == c,
{
    let all = nodes[0].children@.len() as int;
    lemma_layout(nodes);
    lemma_walk_in_order(nodes, 0, 0, all, Seq::new(nodes.len(), |i: int| 0int), 1);
    if c == 0 {
        assert(columns_of(nodes)[0] == 0);
    } else {
        assert(used(nodes, 0, all, columns_of(nodes), c));
        let x = choose|x: int|
            within(nodes, 0, all, x) && x != 0 && #[trigger] columns_of(nodes)[x] == c;
        lemma_within_range(nodes, 0, all, x);
        assert(columns_of(nodes)[x] == c);
    }
}

/// The node at which the column of `x` starts: the root, or where a branch begins.
pub open spec fn column_start(nodes: Seq<UndoNode>, x: int) -> int
    decreases x,
{
    match nodes[x].parent {
        Some(p) if p < x && continues(nodes, x) => column_start(nodes, p as int),
        _ => x,
    }
}

proof fn lemma_column_start(nodes: Seq<UndoNode>, x: int)
    requires
        undo::is_tree(nodes),
        nodes.len() <= usize::MAX,
        0 <= x < nodes.len(),
    ensures
        0 <= column_start(nodes, x) <= x,
        columns_of(nodes)[column_start(nodes, x)] == columns_of(nodes)[x],
        column_start(nodes, x) == 0 || branches_off(nodes, column_start(nodes, x)),
    decreases x,
{
    if x > 0 {
        assert(undo::has_parent(nodes, x));
        law_first_child_continues(nodes, x);
        if continues(nodes, x) {
            lemma_column_start(nodes, nodes[x].parent->0 as int);
        }
    }
}

/// A column is one line: two nodes share it exactly where their lines start at the same node.
pub proof fn law_column_is_one_line(nodes: Seq<UndoNode>, x: int, y: int)
    requires
        undo::is_tree(nodes),
        nodes.len() <= usize::MAX,
        0 <= x < nodes.len(),
        0 <= y < nodes.len(),
    ensures
        columns_of(nodes)[x] == columns_of(nodes)[y] <==> column_start(nodes, x) == column_start(
            nodes,
            y,
        ),
        0 <= columns_of(nodes)[x] < column_count(nodes),
{
    lemma_column_start(nodes, x);
    lemma_column_start(nodes, y);
    let a = column_start(nodes, x);
    let b = column_start(nodes, y);
    law_first_child_continues(nodes, 0);
    lemma_layout(nodes);
    if a != 0 {
        law_branches_have_own_columns(nodes, a, b);
    }
    if b != 0 {
        law_branches_have_own_columns(nodes, b, a);
    }
}

/// A column ends, towards older states, where a branch starts: no older node has that column.
proof fn lemma_column_end(nodes: Seq<UndoNode>, id: int)
    requires
        undo::is_tree(nodes),
        nodes.len() <= usize::MAX,
        0 < id < nodes.len(),
    ensures
        branches_off(nodes, id) <==> columns_of(nodes)[nodes[id].parent->0 as int]
            != columns_of(nodes)[id],
        branches_off(nodes, id) <==> forall|j: int|
            0 <= j < id ==> #[trigger] columns_of(nodes)[j] != columns_of(nodes)[id],
{
    assert(undo::has_parent(nodes, id));
    let p = nodes[id].parent->0 as int;
    law_first_child_continues(nodes, id);
    if branches_off(nodes, id) {
        assert(column_start(nodes, id) == id);
        assert forall|j: int| 0 <= j < id implies #[trigger] columns_of(nodes)[j]
            != columns_of(nodes)[id] by {
            law_column_is_one_line(nodes, j, id);
            lemma_column_start(nodes, j);
        }
    } else {
        assert(columns_of(nodes)[p] == columns_of(nodes)[id]);
    }
}

// ---------------------------------------------------------------------------------------------
// How many columns there can be
// ---------------------------------------------------------------------------------------------

spec fn reached(nodes: Seq<UndoNode>, id: int, k: int) -> Set<int> {
    Set::new(|x: int| within(nodes, id, k, x))
}

proof fn lemma_branch_count(nodes: Seq<UndoNode>, id: int, k: int)
    requires
        undo::is_tree(nodes),
        nodes.len() <= usize::MAX,
        0 <= id < nodes.len(),
        0 <= k <= nodes[id].children@.len(),
    ensures
        0 <= branch_count(nodes, id, k) < reached(nodes, id, k).len(),
        reached(nodes, id, k).finite(),
    decreases nodes.len() - id, k,
{
    if k == 0 {
        assert(reached(nodes, id, k) =~= set![id]);
    } else {
        let c = nodes[id].children@[k - 1] as int;
        let all = nodes[c].children@.len() as int;
        assert(undo::is_child(nodes, id, c));
        lemma_within_step(nodes, id, k);
        lemma_branch_count(nodes, id, k - 1);
        lemma_branch_count(nodes, c, all);
        let a = reached(nodes, id, k - 1);
        let b = reached(nodes, c, all);
        assert(a.disjoint(b));
        assert(reached(nodes, id, k) =~= a + b);
        vstd::set_lib::lemma_set_disjoint_lens(a, b);
    }
}

proof fn lemma_few_columns(nodes: Seq<UndoNode>)
    requires
        undo::is_tree(nodes),
        nodes.len() <= usize::MAX,
    ensures
        1 <= column_count(nodes) <= nodes.len(),
        column_count(nodes) == 1 + branch_count(nodes, 0, nodes[0].children@.len() as int),
{
    let all = nodes[0].children@.len() as int;
    let range = vstd::set_lib::set_int_range(0, nodes.len() as int);
    lemma_layout(nodes);
    lemma_branch_count(nodes, 0, all);
    vstd::set_lib::lemma_int_range(0, nodes.len() as int);
    assert(reached(nodes, 0, all).subset_of(range)) by {
        assert forall|x: int| reached(nodes, 0, all).contains(x) implies range.contains(x) by {
            if x != 0 {
                let j = choose|j: int|
                    0 <= j < all && #[trigger] below(nodes, nodes[0].children@[j] as int, x);
                assert(undo::is_child(nodes, 0, nodes[0].children@[j] as int));
            }
        }
    }
    vstd::set_lib::lemma_len_subset(reached(nodes, 0, all), range);
}

// ---------------------------------------------------------------------------------------------
// Drawing
// ---------------------------------------------------------------------------------------------

/// Columns as integers.
pub open spec fn ints(columns: Seq<usize>) -> Seq<int> {
    columns.map_values(|c: usize| c as int)
}

/// Whether the line of column `c` runs past node `id`: there is a newer and an older node in it.
pub open spec fn runs_past(columns: Seq<int>, c: int, id: int) -> bool {
    (exists|j: int| id < j < columns.len() && #[trigger] columns[j] == c) && (exists|j: int|
        0 <= j < id && #[trigger] columns[j] == c)
}

/// What stands in column `c` of the row of node `id`: `glyph` in the node's own column.
pub open spec fn glyph_at(columns: Seq<int>, id: int, glyph: char, c: int) -> char {
    if c == columns[id] {
        glyph
    } else if runs_past(columns, c, id) {
        '\u{2502}'
    } else {
        ' '
    }
}

/// The columns of the row of node `id`, each followed by a space.
pub open spec fn row_cells(columns: Seq<int>, total: int, id: int, glyph: char) -> Seq<char> {
    Seq::new(
        (2 * total) as nat,
        |i: int|
            if i % 2 == 0 {
                glyph_at(columns, id, glyph, i / 2)
            } else {
                ' '
            },
    )
}

/// The note on a node with several branches.
pub open spec fn branch_note(node: UndoNode) -> Seq<char> {
    if node.children@.len() > 1 {
        " ("@ + text::decimal(node.children@.len()) + " branches)"@
    } else {
        Seq::empty()
    }
}

/// The row of node `id`: its columns, its label, how long ago it was made, when, and its branches.
pub open spec fn node_line(nodes: Seq<UndoNode>, current: int, now: int, id: int) -> Seq<char> {
    let glyph = if id == current {
        '\u{25cf}'
    } else {
        '\u{25cb}'
    };
    row_cells(columns_of(nodes), column_count(nodes), id, glyph) + nodes[id].label@ + " ("@
        + time_ago(nodes[id].created_at as int, now) + ")  "@ + nodes[id].timestamp@ + branch_note(
        nodes[id],
    )
}

/// The row below node `id` in which its column folds back into that of its parent.
pub open spec fn fold_line(nodes: Seq<UndoNode>, id: int) -> Seq<char> {
    row_cells(columns_of(nodes), column_count(nodes), id, '/')
}

/// The rows of the nodes from `id` on, newest first, each with the node that it is of; a row in
/// which a branch folds back is of none.
pub open spec fn graph(nodes: Seq<UndoNode>, current: int, now: int, id: int) -> Seq<
    (Option<usize>, Seq<char>),
>
    decreases nodes.len() - id,
{
    if id >= nodes.len() {
        Seq::empty()
    } else {
        let upper = graph(nodes, current, now, id + 1).push(
            (Some(id as usize), node_line(nodes, current, now, id)),
        );
        if branches_off(nodes, id) {
            upper.push((None, fold_line(nodes, id)))
        } else {
            upper
        }
    }
}

/// The texts of rows.
pub open spec fn row_texts(rows: Seq<(Option<usize>, String)>) -> Seq<(Option<usize>, Seq<char>)> {
    rows.map_values(|r: (Option<usize>, String)| (r.0, r.1@))
}

fn assign(
    nodes: &Vec<UndoNode>,
    id: usize,
    col: usize,
    column: &mut Vec<usize>,
    next_col: &mut usize,
)
    requires
        undo::is_tree(nodes@),
        id < nodes@.len(),
        old(column)@.len() == nodes@.len(),
        *old(next_col) + branch_count(nodes@, id as int, nodes@[id as int].children@.len() as int)
            <= usize::MAX,
    ensures
        final(column)@.len() == nodes@.len(),
        (ints(final(column)@), *final(next_col) as int) == walked(
            nodes@,
            id as int,
            col as int,
            nodes@[id as int].children@.len() as int,
            ints(old(column)@),
            *old(next_col) as int,
        ),
    decreases nodes@.len() - id,
{
    let ghost before = ints(column@);
    let ghost next = *next_col as int;
    let ghost i0 = id as int;
    let ghost all = nodes@[i0].children@.len() as int;
    column.set(id, col);
    assert(ints(column@) == before.update(i0, col as int));
    let count: usize = nodes.len();
    let n: usize = nodes[id].children.len();
    for k in 0..n
        invariant
            undo::is_tree(nodes@),
            nodes@.len() == count,
            id < nodes@.len(),
            i0 == id,
            n == nodes@[i0].children@.len(),
            all == n,
            before.len() == nodes@.len(),
            column@.len() == nodes@.len(),
            next + branch_count(nodes@, i0, all) <= usize::MAX,
            (ints(column@), *next_col as int) == walked(
                nodes@,
                i0,
                col as int,
                k as int,
                before,
                next,
            ),
            *next_col == next + branch_count(nodes@, i0, k as int),
    {
        let child: usize = nodes[id].children[k];
        proof {
            assert(undo::is_child(nodes@, i0, child as int));
            lemma_branch_count_monotone(nodes@, i0, k + 1, all);
            lemma_branch_count(nodes@, child as int, nodes@[child as int].children@.len() as int);
            lemma_walk(nodes@, i0, col as int, k + 1, before, next);
        }
        let c: usize = if k == 0 {
            col
        } else {
            let c: usize = *next_col;
            *next_col = *next_col + 1;
            c
        };
        assign(nodes, child, c, column, next_col);
    }
}

proof fn lemma_branch_count_monotone(nodes: Seq<UndoNode>, id: int, k: int, l: int)
    requires
        undo::is_tree(nodes),
        nodes.len() <= usize::MAX,
        0 <= id < nodes.len(),
        0 <= k <= l <= nodes[id].children@.len(),
    ensures
        branch_count(nodes, id, k) <= branch_count(nodes, id, l),
    decreases l,
{
    if k < l {
        lemma_branch_count_monotone(nodes, id, k, l - 1);
        let child = nodes[id].children@[l - 1] as int;
        assert(undo::is_child(nodes, id, child));
        lemma_branch_count(nodes, child, nodes[child].children@.len() as int);
    }
}

fn cells_text(active: &Vec<bool>, mark: usize, glyph: char, Ghost(columns): Ghost<Seq<int>>, Ghost(
    id,
): Ghost<int>) -> (r: String)
    requires
        0 <= id < columns.len(),
        columns[id] == mark,
        forall|c: int|
            0 <= c < active@.len() && c != mark ==> #[trigger] active@[c] == runs_past(
                columns,
                c,
                id,
            ),
    ensures
        r@ == row_cells(columns, active@.len() as int, id, glyph),
{
    let mut s: String = String::new();
    let total: usize = active.len();
    for c in 0..total
        invariant
            total == active@.len(),
            0 <= id < columns.len(),
            columns[id] == mark,
            forall|c: int|
                0 <= c < active@.len() && c != mark ==> #[trigger] active@[c] == runs_past(
                    columns,
                    c,
                    id,
                ),
            s@ == row_cells(columns, c as int, id, glyph),
    {
        let g: char = if c == mark {
            glyph
        } else if active[c] {
            '\u{2502}'
        } else {
            ' '
        };
        let ghost so_far = s@;
        s.push(g);
        s.push(' ');
        assert(g == glyph_at(columns, id, glyph, c as int));
        assert(s@ =~= row_cells(columns, c + 1, id, glyph));
    }
    s
}

fn line_text(cells: &str, node: &UndoNode, now: u64) -> (r: String)
    ensures
        r@ == cells@ + node.label@ + " ("@ + time_ago(node.created_at as int, now as int) + ")  "@
            + node.timestamp@ + branch_note(*node),
{
    let mut line: String = concat2(cells, node.label.as_str());
    line.append(" (");
    line.append(relative_time(node.created_at, now).as_str());
    line.append(")  ");
    line.append(node.timestamp.as_str());
    let n: usize = node.children.len();
    if n > 1 {
        line.append(" (");
        line.append(decimal_text(n as u64).as_str());
        line.append(" branches)");
    }
    line
}

/// Renders the undo tree as a vertical graph: newest state first, each branch in its own column,
/// with a row that folds the column back where the branch starts. A row comes with the node that
/// it is of.
pub fn build_undo_tree_graph_lines(nodes: &Vec<UndoNode>, current: usize, now: u64) -> (r: Vec<
    (Option<usize>, String),
>)
    requires
        nodes@.len() > 0 ==> undo::is_tree(nodes@),
    ensures
        row_texts(r@) == graph(nodes@, current as int, now as int, 0),
{
    let mut out: Vec<(Option<usize>, String)> = Vec::new();
    assert(row_texts(out@) =~= Seq::empty());
    let n: usize = nodes.len();
    if n == 0 {
        return out;
    }
    proof {
        lemma_few_columns(nodes@);
        lemma_layout(nodes@);
    }
    let mut column: Vec<usize> = Vec::new();
    for i in 0..n
        invariant
            column@.len() == i,
            forall|j: int| 0 <= j < i ==> column@[j] == 0,
    {
        column.push(0);
    }
    let mut next_col: usize = 1;
    assert(ints(column@) =~= Seq::new(nodes@.len(), |i: int| 0int));
    assign(nodes, 0, 0, &mut column, &mut next_col);
    let ghost columns = columns_of(nodes@);
    assert(ints(column@) == columns);
    let total: usize = next_col;
    let mut active: Vec<bool> = Vec::new();
    for i in 0..total
        invariant
            active@.len() == i,
            forall|j: int| 0 <= j < i ==> !active@[j],
    {
        active.push(false);
    }
    let mut id: usize = n;
    while id > 0
        invariant
            id <= n == nodes@.len(),
            n > 0,
            undo::is_tree(nodes@),
            columns == columns_of(nodes@),
            columns.len() == n,
            ints(column@) == columns,
            column@.len() == n,
            total == column_count(nodes@),
            active@.len() == total,
            forall|c: int|
                0 <= c < total ==> (#[trigger] active@[c] <==> (exists|j: int|
                    id <= j < n && #[trigger] columns[j] == c) && (exists|j: int|
                    0 <= j < id && #[trigger] columns[j] == c)),
            row_texts(out@) == graph(nodes@, current as int, now as int, id as int),
        decreases id,
    {
        id = id - 1;
        let ghost done = out@;
        let ghost was = active@;
        let ghost here = id as int;
        let col: usize = column[id];
        proof {
            law_column_is_one_line(nodes@, here, here);
            assert(columns[here] == col);
            if here > 0 {
                lemma_column_end(nodes@, here);
                lemma_parent_in_range(nodes@, here);
            }
            assert forall|c: int| 0 <= c < total && c != col implies #[trigger] was[c]
                == runs_past(columns, c, here) by {
                lemma_passing(columns, c, here);
            }
        }
        let marker: char = if id == current {
            '\u{25cf}'
        } else {
            '\u{25cb}'
        };
        let cells: String = cells_text(&active, col, marker, Ghost(columns), Ghost(here));
        let line: String = line_text(cells.as_str(), &nodes[id], now);
        out.push((Some(id), line));
        assert(row_texts(out@) =~= row_texts(done).push(
            (Some(id), node_line(nodes@, current as int, now as int, here)),
        ));
        let ghost upper = out@;
        let (terminal, folds): (bool, bool) = match nodes[id].parent {
            None => (true, false),
            Some(p) => if column[p] != col {
                (true, true)
            } else {
                (false, false)
            },
        };
        assert(folds == branches_off(nodes@, here));
        if terminal {
            active.set(col, false);
        } else {
            active.set(col, true);
        }
        if folds {
            let fold: String = cells_text(&active, col, '/', Ghost(columns), Ghost(here));
            out.push((None, fold));
            assert(row_texts(out@) =~= row_texts(upper).push((None, fold_line(nodes@, here))));
        }
        proof {
            assert forall|c: int| 0 <= c < total implies (#[trigger] active@[c] <==> (exists|
                j: int,
            |
                here <= j < n && #[trigger] columns[j] == c) && (exists|j: int|
                0 <= j < here && #[trigger] columns[j] == c)) by {
                if c != col {
                    lemma_passing(columns, c, here);
                } else {
                    assert(columns[here] == c);
                    if terminal {
                        assert forall|j: int| 0 <= j < here implies #[trigger] columns[j] != c by {}
                    } else {
                        let p = nodes@[here].parent->0 as int;
                        assert(columns[p] == c);
                    }
                }
            }
        }
    }
    out
}

proof fn lemma_passing(columns: Seq<int>, c: int, id: int)
    requires
        0 <= id < columns.len(),
        columns[id] != c,
    ensures
        ((exists|j: int| id + 1 <= j < columns.len() && #[trigger] columns[j] == c) && (exists|j: int|
            0 <= j < id + 1 && #[trigger] columns[j] == c)) <==> runs_past(columns, c, id),
        ((exists|j: int| id <= j < columns.len() && #[trigger] columns[j] == c) && (exists|j: int|
            0 <= j < id && #[trigger] columns[j] == c)) <==> runs_past(columns, c, id),
{
}

/// Every state has its row, and rows of newer states stand above those of older ones.
pub proof fn law_newest_first(nodes: Seq<UndoNode>, current: int, now: int, id: int)
    requires
        0 <= id <= nodes.len() <= usize::MAX,
    ensures
        forall|x: int|
            #![trigger nodes[x]]
            id <= x < nodes.len() ==> graph(nodes, current, now, id).contains(
                (Some(x as usize), node_line(nodes, current, now, x)),
            ),
        forall|i: int|
            0 <= i < graph(nodes, current, now, id).len() ==> ((#[trigger] graph(
                nodes,
                current,
                now,
                id,
            )[i]).0 matches Some(x) ==> id <= x < nodes.len()),
        forall|i: int, j: int|
            #![trigger graph(nodes, current, now, id)[i], graph(nodes, current, now, id)[j]]
            0 <= i < j < graph(nodes, current, now, id).len() ==> (graph(
                nodes,
                current,
                now,
                id,
            )[i].0 matches Some(x) ==> (graph(nodes, current, now, id)[j].0 matches Some(y) ==> x
                > y)),
    decreases nodes.len() - id,
{
    if id < nodes.len() {
        law_newest_first(nodes, current, now, id + 1);
        let upper = graph(nodes, current, now, id + 1);
        let row = (Some(id as usize), node_line(nodes, current, now, id));
        let all = graph(nodes, current, now, id);
        assert(all[upper.len() as int] == row);
        assert forall|x: int|
            #![trigger nodes[x]]
            id <= x < nodes.len() implies all.contains(
            (Some(x as usize), node_line(nodes, current, now, x)),
        ) by {
            if x > id {
                let r = (Some(x as usize), node_line(nodes, current, now, x));
                let k = choose|k: int| 0 <= k < upper.len() && upper[k] == r;
                assert(all[k] == r);
            }
        }
        assert forall|i: int| 0 <= i < upper.len() implies all[i] == #[trigger] upper[i] by {}
    }
}

} // verus!
