//! What changed between two lists of rows.

use crate::rows;
use crate::rows::{lookup, set_entry, sort_rows};
use crate::text::{concat2, concat3, same_text};
use vstd::prelude::*;
use vstd::string::*;

verus! {

/// How a key differs.
#[derive(Clone, Copy, PartialEq, Eq, Structural, Debug)]
pub enum DiffKind {
    Added,
    Removed,
    Changed,
}

/// Each key once, at the place of its first row, with the value of its last.
pub open spec fn latest(list: Seq<rows::Entry>) -> Seq<rows::Entry>
    decreases list.len(),
{
    if list.len() == 0 {
        list
    } else {
        rows::with_entry(latest(list.drop_last()), list.last().0, list.last().1)
    }
}

/// The line of a key that differs, given its value before and after; none where it does not.
pub open spec fn diff_line(key: Seq<char>, was: Option<Seq<char>>, is: Option<Seq<char>>) -> Option<
    (DiffKind, Seq<char>),
> {
    match (was, is) {
        (None, Some(v)) => Some((DiffKind::Added, "+ "@ + key + ": "@ + v)),
        (Some(v), None) => Some((DiffKind::Removed, "- "@ + key + ": "@ + v)),
        (Some(ov), Some(nv)) => if ov != nv {
            Some((DiffKind::Changed, "~ "@ + key + ": "@ + ov + " \u{2192} "@ + nv))
        } else {
            None
        },
        (None, None) => None,
    }
}

/// The lines of those keys that differ, in the order of `keys`.
pub open spec fn diff_lines(
    keys: Seq<rows::Entry>,
    old_rows: Seq<rows::Entry>,
    new_rows: Seq<rows::Entry>,
) -> Seq<(DiffKind, Seq<char>)>
    decreases keys.len(),
{
    if keys.len() == 0 {
        Seq::empty()
    } else {
        let key = keys.last().0;
        let rest = diff_lines(keys.drop_last(), old_rows, new_rows);
        match diff_line(key, rows::value_of(old_rows, key), rows::value_of(new_rows, key)) {
            Some(line) => rest.push(line),
            None => rest,
        }
    }
}

/// The keys of both lists, each once, in order.
pub open spec fn all_keys(old_rows: Seq<rows::Entry>, new_rows: Seq<rows::Entry>) -> Seq<
    rows::Entry,
> {
    rows::sorted(latest(old_rows + new_rows))
}

/// The lines of the keys that differ between two lists, ordered by key.
pub open spec fn difference(old_rows: Seq<rows::Entry>, new_rows: Seq<rows::Entry>) -> Seq<
    (DiffKind, Seq<char>),
> {
    diff_lines(all_keys(old_rows, new_rows), old_rows, new_rows)
}

/// The texts of diff lines.
pub open spec fn diff_texts(lines: Seq<(DiffKind, String)>) -> Seq<(DiffKind, Seq<char>)> {
    lines.map_values(|l: (DiffKind, String)| (l.0, l.1@))
}

fn add_latest(out: &mut Vec<(String, String)>, list: &Vec<(String, String)>, Ghost(before): Ghost<
    Seq<rows::Entry>,
>)
    requires
        rows::entries(old(out)@) == latest(before),
    ensures
        rows::entries(final(out)@) == latest(before + rows::entries(list@)),
{
    let ghost all = rows::entries(list@);
    assert(before + all.take(0) == before);
    for i in 0..list.len()
        invariant
            all == rows::entries(list@),
            rows::entries(out@) == latest(before + all.take(i as int)),
    {
        let ghost part = before + all.take(i + 1);
        assert(part.drop_last() == before + all.take(i as int));
        assert(part.last() == all[i as int]);
        set_entry(out, list[i].0.as_str(), list[i].1.as_str());
    }
    assert(all.take(list@.len() as int) == all);
}

fn line_of(key: &str, was: Option<String>, is: Option<String>) -> (r: Option<(DiffKind, String)>)
    ensures
        match diff_line(
            key@,
            crate::formats::opt_text(was),
            crate::formats::opt_text(is),
        ) {
            Some(line) => r matches Some(l) && (l.0, l.1@) == line,
            None => r is None,
        },
{
    match (was, is) {
        (None, Some(v)) => {
            let mut line: String = concat3("+ ", key, ": ");
            line.append(v.as_str());
            Some((DiffKind::Added, line))
        },
        (Some(v), None) => {
            let mut line: String = concat3("- ", key, ": ");
            line.append(v.as_str());
            Some((DiffKind::Removed, line))
        },
        (Some(ov), Some(nv)) => if same_text(ov.as_str(), nv.as_str()) {
            None
        } else {
            let mut line: String = concat3("~ ", key, ": ");
            line.append(concat2(ov.as_str(), " \u{2192} ").as_str());
            line.append(nv.as_str());
            assert(line@ =~= "~ "@ + key@ + ": "@ + ov@ + " \u{2192} "@ + nv@);
            Some((DiffKind::Changed, line))
        },
        (None, None) => None,
    }
}

/// Diffs two lists of rows: one line for each key that was added, removed or changed, ordered by
/// key. A later row of a list overrides an earlier one with the same key.
pub fn diff_rows(old_rows: &Vec<(String, String)>, new_rows: &Vec<(String, String)>) -> (r: Vec<
    (DiffKind, String),
>)
    ensures
        diff_texts(r@) == difference(rows::entries(old_rows@), rows::entries(new_rows@)),
{
    let ghost a = rows::entries(old_rows@);
    let ghost b = rows::entries(new_rows@);
    let mut merged: Vec<(String, String)> = Vec::new();
    assert(rows::entries(merged@) =~= latest(Seq::empty()));
    add_latest(&mut merged, old_rows, Ghost(Seq::empty()));
    assert(Seq::<rows::Entry>::empty() + a == a);
    add_latest(&mut merged, new_rows, Ghost(a));
    let keys: Vec<(String, String)> = sort_rows(&merged);
    let ghost all = all_keys(a, b);
    assert(rows::entries(keys@) == all);
    let mut lines: Vec<(DiffKind, String)> = Vec::new();
    assert(diff_texts(lines@) =~= Seq::empty());
    for i in 0..keys.len()
        invariant
            a == rows::entries(old_rows@),
            b == rows::entries(new_rows@),
            all == rows::entries(keys@),
            diff_texts(lines@) == diff_lines(all.take(i as int), a, b),
    {
        let ghost part = all.take(i + 1);
        assert(part.drop_last() == all.take(i as int));
        assert(part.last() == all[i as int]);
        let key: &str = keys[i].0.as_str();
        let ghost done = lines@;
        match line_of(key, lookup(old_rows, key), lookup(new_rows, key)) {
            Some(line) => {
                let ghost l = (line.0, line.1@);
                lines.push(line);
                assert(diff_texts(lines@) =~= diff_texts(done).push(l));
            },
            None => {},
        }
    }
    assert(all.take(keys@.len() as int) == all);
    lines
}

// ---------------------------------------------------------------------------------------------
// What holds of a difference
// ---------------------------------------------------------------------------------------------

proof fn lemma_latest(list: Seq<rows::Entry>, key: Seq<char>)
    ensures
        rows::distinct_keys(latest(list)),
        rows::value_of(latest(list), key) == rows::value_of(list, key),
    decreases list.len(),
{
    if list.len() > 0 {
        lemma_latest(list.drop_last(), key);
        rows::law_with_entry(latest(list.drop_last()), list.last().0, list.last().1, key);
    }
}

proof fn lemma_value_of_sum(a: Seq<rows::Entry>, b: Seq<rows::Entry>, key: Seq<char>)
    ensures
        rows::value_of(a + b, key) == match rows::value_of(b, key) {
            Some(v) => Some(v),
            None => rows::value_of(a, key),
        },
    decreases b.len(),
{
    if b.len() == 0 {
        assert(a + b == a);
    } else {
        assert((a + b).drop_last() == a + b.drop_last());
        assert((a + b).last() == b.last());
        lemma_value_of_sum(a, b.drop_last(), key);
    }
}

proof fn lemma_value_means_key(list: Seq<rows::Entry>, key: Seq<char>)
    ensures
        rows::value_of(list, key) is Some <==> exists|i: int|
            0 <= i < list.len() && (#[trigger] list[i]).0 == key,
    decreases list.len(),
{
    if list.len() > 0 {
        let rest = list.drop_last();
        lemma_value_means_key(rest, key);
        if list.last().0 == key {
            assert(list[list.len() - 1].0 == key);
        } else if rows::value_of(rest, key) is Some {
            let i = choose|i: int| 0 <= i < rest.len() && (#[trigger] rest[i]).0 == key;
            assert(list[i].0 == key);
        } else if exists|i: int| 0 <= i < list.len() && (#[trigger] list[i]).0 == key {
            let i = choose|i: int| 0 <= i < list.len() && (#[trigger] list[i]).0 == key;
            assert(rest[i].0 == key);
        }
    }
}

proof fn lemma_lines(
    keys: Seq<rows::Entry>,
    old_rows: Seq<rows::Entry>,
    new_rows: Seq<rows::Entry>,
)
    ensures
        forall|i: int|
            #![trigger keys[i]]
            0 <= i < keys.len() ==> (diff_line(
                keys[i].0,
                rows::value_of(old_rows, keys[i].0),
                rows::value_of(new_rows, keys[i].0),
            ) matches Some(line) ==> diff_lines(keys, old_rows, new_rows).contains(line)),
        forall|l: int|
            0 <= l < diff_lines(keys, old_rows, new_rows).len() ==> exists|key: Seq<char>|
                Some(#[trigger] diff_lines(keys, old_rows, new_rows)[l]) == #[trigger] diff_line(
                    key,
                    rows::value_of(old_rows, key),
                    rows::value_of(new_rows, key),
                ),
    decreases keys.len(),
{
    if keys.len() > 0 {
        let rest = keys.drop_last();
        lemma_lines(rest, old_rows, new_rows);
        let before = diff_lines(rest, old_rows, new_rows);
        let all = diff_lines(keys, old_rows, new_rows);
        let last = diff_line(
            keys.last().0,
            rows::value_of(old_rows, keys.last().0),
            rows::value_of(new_rows, keys.last().0),
        );
        assert forall|i: int|
            #![trigger keys[i]]
            0 <= i < keys.len() implies (diff_line(
            keys[i].0,
            rows::value_of(old_rows, keys[i].0),
            rows::value_of(new_rows, keys[i].0),
        ) matches Some(line) ==> all.contains(line)) by {
            if i < rest.len() {
                assert(rest[i] == keys[i]);
                if let Some(line) = diff_line(
                    keys[i].0,
                    rows::value_of(old_rows, keys[i].0),
                    rows::value_of(new_rows, keys[i].0),
                ) {
                    let k = choose|k: int| 0 <= k < before.len() && before[k] == line;
                    assert(all[k] == line);
                }
            } else if last is Some {
                assert(all[all.len() - 1] == last->0);
            }
        }
        assert forall|l: int| 0 <= l < all.len() implies exists|key: Seq<char>|
            Some(#[trigger] all[l]) == #[trigger] diff_line(
                key,
                rows::value_of(old_rows, key),
                rows::value_of(new_rows, key),
            ) by {
            if l < before.len() {
                assert(all[l] == before[l]);
            } else {
                assert(Some(all[l]) == last);
            }
        }
    }
}

/// A difference has the line of every key whose value differs, and no other line.
pub proof fn law_difference_is_complete(
    old_rows: Seq<rows::Entry>,
    new_rows: Seq<rows::Entry>,
    key: Seq<char>,
)
    ensures
        diff_line(key, rows::value_of(old_rows, key), rows::value_of(new_rows, key)) matches Some(
            line,
        ) ==> difference(old_rows, new_rows).contains(line),
        forall|l: int|
            0 <= l < difference(old_rows, new_rows).len() ==> exists|k: Seq<char>|
                Some(#[trigger] difference(old_rows, new_rows)[l]) == #[trigger] diff_line(
                    k,
                    rows::value_of(old_rows, k),
                    rows::value_of(new_rows, k),
                ),
{
    let merged = latest(old_rows + new_rows);
    let keys = all_keys(old_rows, new_rows);
    lemma_lines(keys, old_rows, new_rows);
    if diff_line(key, rows::value_of(old_rows, key), rows::value_of(new_rows, key)) is Some {
        lemma_value_of_sum(old_rows, new_rows, key);
        lemma_latest(old_rows + new_rows, key);
        rows::law_sorted_keeps_values(merged, key);
        lemma_value_means_key(keys, key);
        let i = choose|i: int| 0 <= i < keys.len() && (#[trigger] keys[i]).0 == key;
        assert(keys[i].0 == key);
    }
}

/// Lists that give every key the same value do not differ.
pub proof fn law_equal_lists_have_no_difference(
    old_rows: Seq<rows::Entry>,
    new_rows: Seq<rows::Entry>,
)
    requires
        forall|key: Seq<char>| #[trigger]
            rows::value_of(old_rows, key) == rows::value_of(new_rows, key),
    ensures
        difference(old_rows, new_rows).len() == 0,
{
    law_difference_is_complete(old_rows, new_rows, Seq::empty());
    let d = difference(old_rows, new_rows);
    if d.len() > 0 {
        assert(Some(d[0]) is Some);
        let k = choose|k: Seq<char>|
            Some(d[0]) == #[trigger] diff_line(
                k,
                rows::value_of(old_rows, k),
                rows::value_of(new_rows, k),
            );
        assert(rows::value_of(old_rows, k) == rows::value_of(new_rows, k));
    }
}

/// Two ordered lists that know the same keys, each once, have them at the same places.
proof fn lemma_same_keys(x: Seq<rows::Entry>, y: Seq<rows::Entry>)
    requires
        rows::ordered(x),
        rows::ordered(y),
        rows::distinct_keys(x),
        rows::distinct_keys(y),
        forall|key: Seq<char>| #[trigger]
            rows::value_of(x, key) is Some <==> rows::value_of(y, key) is Some,
    ensures
        x.len() == y.len(),
        forall|i: int| 0 <= i < x.len() ==> (#[trigger] x[i]).0 == y[i].0,
    decreases x.len(),
{
    if x.len() == 0 {
        if y.len() > 0 {
            assert(rows::value_of(x, y.last().0) is None);
            assert(rows::value_of(y, y.last().0) is Some);
        }
    } else {
        let kx = x.last().0;
        assert(rows::value_of(x, kx) is Some);
        lemma_value_means_key(y, kx);
        let ky = y.last().0;
        assert(rows::value_of(y, ky) is Some);
        assert(rows::value_of(x, ky) is Some);
        lemma_value_means_key(x, ky);
        let i = choose|i: int| 0 <= i < y.len() && (#[trigger] y[i]).0 == kx;
        let j = choose|j: int| 0 <= j < x.len() && (#[trigger] x[j]).0 == ky;
        if kx != ky {
            assert(!rows::before(y[y.len() - 1].0, y[i].0));
            assert(!rows::before(x[x.len() - 1].0, x[j].0));
            rows::lemma_before_total(kx, ky);
        }
        let u = x.drop_last();
        let v = y.drop_last();
        assert forall|key: Seq<char>| #[trigger]
            rows::value_of(u, key) is Some <==> rows::value_of(v, key) is Some by {
            if key == kx {
                lemma_value_means_key(u, key);
                lemma_value_means_key(v, key);
                assert forall|k: int| 0 <= k < u.len() implies (#[trigger] u[k]).0 != key by {
                    assert(x[k].0 != x[x.len() - 1].0);
                }
                assert forall|k: int| 0 <= k < v.len() implies (#[trigger] v[k]).0 != key by {
                    assert(y[k].0 != y[y.len() - 1].0);
                }
            } else {
                assert(rows::value_of(x, key) is Some <==> rows::value_of(y, key) is Some);
            }
        }
        lemma_same_keys(u, v);
        assert forall|k: int| 0 <= k < x.len() implies (#[trigger] x[k]).0 == y[k].0 by {
            if k < u.len() {
                assert(u[k].0 == v[k].0);
            }
        }
    }
}

/// How a key differs when the two lists are exchanged.
pub open spec fn exchanged(kind: DiffKind) -> DiffKind {
    match kind {
        DiffKind::Added => DiffKind::Removed,
        DiffKind::Removed => DiffKind::Added,
        DiffKind::Changed => DiffKind::Changed,
    }
}

/// Whether `line` and `back` are the lines of one key, from `a` to `b` and from `b` to `a`.
pub open spec fn there_and_back(
    key: Seq<char>,
    a: Seq<rows::Entry>,
    b: Seq<rows::Entry>,
    line: (DiffKind, Seq<char>),
    back: (DiffKind, Seq<char>),
) -> bool {
    &&& Some(line) == diff_line(key, rows::value_of(a, key), rows::value_of(b, key))
    &&& Some(back) == diff_line(key, rows::value_of(b, key), rows::value_of(a, key))
    &&& back.0 == exchanged(line.0)
}

/// Whether two lines are those of one key, there and back.
pub open spec fn of_one_key(
    a: Seq<rows::Entry>,
    b: Seq<rows::Entry>,
    line: (DiffKind, Seq<char>),
    back: (DiffKind, Seq<char>),
) -> bool {
    exists|key: Seq<char>| there_and_back(key, a, b, line, back)
}

/// Whether each two lines at the same place are those of one key, there and back.
pub open spec fn mirrored(
    a: Seq<rows::Entry>,
    b: Seq<rows::Entry>,
    lines: Seq<(DiffKind, Seq<char>)>,
    back: Seq<(DiffKind, Seq<char>)>,
) -> bool {
    &&& lines.len() == back.len()
    &&& forall|i: int|
        0 <= i < lines.len() ==> of_one_key(a, b, #[trigger] lines[i], back[i])
}

proof fn lemma_exchanged_lines(
    keys: Seq<rows::Entry>,
    same: Seq<rows::Entry>,
    a: Seq<rows::Entry>,
    b: Seq<rows::Entry>,
)
    requires
        keys.len() == same.len(),
        forall|i: int| 0 <= i < keys.len() ==> (#[trigger] keys[i]).0 == same[i].0,
    ensures
        mirrored(a, b, diff_lines(keys, a, b), diff_lines(same, b, a)),
    decreases keys.len(),
{
    if keys.len() > 0 {
        let u = keys.drop_last();
        let v = same.drop_last();
        assert forall|i: int| 0 <= i < u.len() implies (#[trigger] u[i]).0 == v[i].0 by {
            assert(keys[i].0 == same[i].0);
        }
        lemma_exchanged_lines(u, v, a, b);
        let last = keys.last().0;
        assert(keys[keys.len() - 1].0 == same[keys.len() - 1].0);
        let lines = diff_lines(keys, a, b);
        let back = diff_lines(same, b, a);
        let before = diff_lines(u, a, b);
        let before_back = diff_lines(v, b, a);
        assert forall|i: int| 0 <= i < lines.len() implies of_one_key(
            a,
            b,
            #[trigger] lines[i],
            back[i],
        ) by {
            if i < before.len() {
                assert(of_one_key(a, b, before[i], before_back[i]));
            } else {
                assert(there_and_back(last, a, b, lines[i], back[i]));
            }
        }
    }
}

/// The differences of two lists in both directions have as many lines, and each two lines at the
/// same place are about the same key: what is added one way is removed the other way, and what is
/// changed has its two values exchanged.
pub proof fn law_exchanged_lists(a: Seq<rows::Entry>, b: Seq<rows::Entry>)
    ensures
        mirrored(a, b, difference(a, b), difference(b, a)),
{
    let x = latest(a + b);
    let y = latest(b + a);
    lemma_latest(a + b, Seq::empty());
    lemma_latest(b + a, Seq::empty());
    rows::law_sorted_is_ordered(x);
    rows::law_sorted_is_ordered(y);
    rows::law_sorted_keeps_values(x, Seq::empty());
    rows::law_sorted_keeps_values(y, Seq::empty());
    assert forall|key: Seq<char>| #[trigger]
        rows::value_of(rows::sorted(x), key) is Some <==> rows::value_of(
            rows::sorted(y),
            key,
        ) is Some by {
        lemma_latest(a + b, key);
        lemma_latest(b + a, key);
        rows::law_sorted_keeps_values(x, key);
        rows::law_sorted_keeps_values(y, key);
        lemma_value_of_sum(a, b, key);
        lemma_value_of_sum(b, a, key);
    }
    lemma_same_keys(rows::sorted(x), rows::sorted(y));
    lemma_exchanged_lines(rows::sorted(x), rows::sorted(y), a, b);
}

/// The place of the key that the line `l` of a difference is about.
pub open spec fn key_of_line(
    keys: Seq<rows::Entry>,
    old_rows: Seq<rows::Entry>,
    new_rows: Seq<rows::Entry>,
    l: int,
) -> int
    decreases keys.len(),
{
    if keys.len() == 0 {
        0
    } else if l < diff_lines(keys.drop_last(), old_rows, new_rows).len() {
        key_of_line(keys.drop_last(), old_rows, new_rows, l)
    } else {
        keys.len() - 1
    }
}

proof fn lemma_key_of_line(
    keys: Seq<rows::Entry>,
    old_rows: Seq<rows::Entry>,
    new_rows: Seq<rows::Entry>,
    l: int,
    m: int,
)
    requires
        0 <= l < m < diff_lines(keys, old_rows, new_rows).len(),
    ensures
        ({
            let i = key_of_line(keys, old_rows, new_rows, l);
            let j = key_of_line(keys, old_rows, new_rows, m);
            let lines = diff_lines(keys, old_rows, new_rows);
            &&& 0 <= i < j < keys.len()
            &&& is_line_of(lines[l], old_rows, new_rows, keys[i].0)
            &&& is_line_of(lines[m], old_rows, new_rows, keys[j].0)
        }),
    decreases keys.len(),
{
    let rest = keys.drop_last();
    let before = diff_lines(rest, old_rows, new_rows);
    if m < before.len() {
        lemma_key_of_line(rest, old_rows, new_rows, l, m);
    } else {
        lemma_one_key_of_line(rest, old_rows, new_rows, l);
    }
}

proof fn lemma_one_key_of_line(
    keys: Seq<rows::Entry>,
    old_rows: Seq<rows::Entry>,
    new_rows: Seq<rows::Entry>,
    l: int,
)
    requires
        0 <= l < diff_lines(keys, old_rows, new_rows).len(),
    ensures
        ({
            let i = key_of_line(keys, old_rows, new_rows, l);
            &&& 0 <= i < keys.len()
            &&& is_line_of(diff_lines(keys, old_rows, new_rows)[l], old_rows, new_rows, keys[i].0)
        }),
    decreases keys.len(),
{
    let rest = keys.drop_last();
    if l < diff_lines(rest, old_rows, new_rows).len() {
        lemma_one_key_of_line(rest, old_rows, new_rows, l);
    }
}

/// Whether a line is that of a key.
pub open spec fn is_line_of(
    line: (DiffKind, Seq<char>),
    old_rows: Seq<rows::Entry>,
    new_rows: Seq<rows::Entry>,
    key: Seq<char>,
) -> bool {
    Some(line) == diff_line(key, rows::value_of(old_rows, key), rows::value_of(new_rows, key))
}

/// Whether two lines are those of two keys, the first of which comes before the second.
pub open spec fn of_keys_in_order(
    first: (DiffKind, Seq<char>),
    second: (DiffKind, Seq<char>),
    old_rows: Seq<rows::Entry>,
    new_rows: Seq<rows::Entry>,
    a: Seq<char>,
    b: Seq<char>,
) -> bool {
    &&& rows::before(a, b)
    &&& is_line_of(first, old_rows, new_rows, a)
    &&& is_line_of(second, old_rows, new_rows, b)
}

/// The lines of a difference are ordered by key, and no key has two.
pub proof fn law_lines_are_in_order(
    old_rows: Seq<rows::Entry>,
    new_rows: Seq<rows::Entry>,
    l: int,
    m: int,
)
    requires
        0 <= l < m < difference(old_rows, new_rows).len(),
    ensures
        exists|a: Seq<char>, b: Seq<char>| #[trigger]
            of_keys_in_order(
                difference(old_rows, new_rows)[l],
                difference(old_rows, new_rows)[m],
                old_rows,
                new_rows,
                a,
                b,
            ),
{
    let merged = latest(old_rows + new_rows);
    let keys = all_keys(old_rows, new_rows);
    lemma_latest(old_rows + new_rows, Seq::empty());
    rows::law_sorted_is_ordered(merged);
    rows::law_sorted_keeps_values(merged, Seq::empty());
    lemma_key_of_line(keys, old_rows, new_rows, l, m);
    let a = keys[key_of_line(keys, old_rows, new_rows, l)].0;
    let b = keys[key_of_line(keys, old_rows, new_rows, m)].0;
    rows::lemma_before_total(a, b);
    assert(of_keys_in_order(
        difference(old_rows, new_rows)[l],
        difference(old_rows, new_rows)[m],
        old_rows,
        new_rows,
        a,
        b,
    ));
}

} // verus!
