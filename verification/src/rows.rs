//! Lists of keys and values: query parameters, headers, variables.

use crate::text;
use crate::text::{concat3, join, same_text};
use vstd::prelude::*;
use vstd::seq_lib::*;
use vstd::string::*;

verus! {

/// A key with its value, as text.
pub type Entry = (Seq<char>, Seq<char>);

/// The texts of a list of rows.
pub open spec fn entries(rows: Seq<(String, String)>) -> Seq<Entry> {
    rows.map_values(|r: (String, String)| (r.0@, r.1@))
}

// ---------------------------------------------------------------------------------------------
// The order of keys
// ---------------------------------------------------------------------------------------------

/// Whether text `a` comes before text `b`: character by character, by code point.
pub open spec fn before(a: Seq<char>, b: Seq<char>) -> bool
    decreases a.len(),
{
    if b.len() == 0 {
        false
    } else if a.len() == 0 {
        true
    } else if a[0] != b[0] {
        a[0] < b[0]
    } else {
        before(a.skip(1), b.skip(1))
    }
}

/// Whether `a` comes before `b` in the order of keys.
pub fn precedes(a: &str, b: &str) -> (r: bool)
    ensures
        r == before(a@, b@),
{
    let x: Vec<char> = crate::text::chars_of(a);
    let y: Vec<char> = crate::text::chars_of(b);
    let mut i: usize = 0;
    assert(x@.skip(0) == x@);
    assert(y@.skip(0) == y@);
    while i < x.len() && i < y.len()
        invariant
            i <= x@.len(),
            i <= y@.len(),
            x@ == a@,
            y@ == b@,
            before(a@, b@) == before(x@.skip(i as int), y@.skip(i as int)),
        decreases x@.len() - i,
    {
        if x[i] != y[i] {
            return x[i] < y[i];
        }
        assert(x@.skip(i as int).skip(1) == x@.skip(i + 1));
        assert(y@.skip(i as int).skip(1) == y@.skip(i + 1));
        i = i + 1;
    }
    i < y.len()
}

/// No text comes before itself.
pub proof fn lemma_before_irreflexive(a: Seq<char>)
    ensures
        !before(a, a),
    decreases a.len(),
{
    if a.len() > 0 {
        lemma_before_irreflexive(a.skip(1));
    }
}

/// The order of texts is transitive.
pub proof fn lemma_before_transitive(a: Seq<char>, b: Seq<char>, c: Seq<char>)
    requires
        before(a, b),
        before(b, c),
    ensures
        before(a, c),
    decreases a.len(),
{
    if a.len() > 0 && b.len() > 0 && c.len() > 0 && a[0] == b[0] && b[0] == c[0] {
        lemma_before_transitive(a.skip(1), b.skip(1), c.skip(1));
    }
}

/// Of two different texts one comes before the other.
pub proof fn lemma_before_total(a: Seq<char>, b: Seq<char>)
    ensures
        before(a, b) || before(b, a) || a == b,
    decreases a.len(),
{
    if a.len() == 0 {
        if b.len() == 0 {
            assert(a == b);
        }
    } else if b.len() > 0 && a[0] == b[0] {
        lemma_before_total(a.skip(1), b.skip(1));
        if a.skip(1) == b.skip(1) {
            assert(a == seq![a[0]] + a.skip(1));
            assert(b == seq![b[0]] + b.skip(1));
        }
    }
}

// ---------------------------------------------------------------------------------------------
// Sorting rows by key
// ---------------------------------------------------------------------------------------------

/// How many rows at the start of `rows` do not come after `key`.
pub open spec fn slot(rows: Seq<Entry>, key: Seq<char>) -> nat
    decreases rows.len(),
{
    if rows.len() == 0 || before(key, rows[0].0) {
        0
    } else {
        1 + slot(rows.skip(1), key)
    }
}

/// The rows ordered by key; rows with equal keys keep their order.
pub open spec fn sorted(rows: Seq<Entry>) -> Seq<Entry>
    decreases rows.len(),
{
    if rows.len() == 0 {
        rows
    } else {
        let rest = sorted(rows.drop_last());
        rest.insert(slot(rest, rows.last().0) as int, rows.last())
    }
}

/// Whether no row comes after a later one.
pub open spec fn ordered(rows: Seq<Entry>) -> bool {
    forall|i: int, j: int| 0 <= i < j < rows.len() ==> !before(rows[j].0, rows[i].0)
}

/// Whether no key stands in two rows.
pub open spec fn distinct_keys(rows: Seq<Entry>) -> bool {
    forall|i: int, j: int| 0 <= i < j < rows.len() ==> rows[i].0 != rows[j].0
}

proof fn lemma_slot(rows: Seq<Entry>, key: Seq<char>)
    ensures
        slot(rows, key) <= rows.len(),
        forall|i: int| 0 <= i < slot(rows, key) ==> !before(key, #[trigger] rows[i].0),
        slot(rows, key) < rows.len() ==> before(key, rows[slot(rows, key) as int].0),
    decreases rows.len(),
{
    if rows.len() > 0 && !before(key, rows[0].0) {
        lemma_slot(rows.skip(1), key);
        let k = slot(rows.skip(1), key);
        assert forall|i: int| 0 <= i < slot(rows, key) implies !before(
            key,
            #[trigger] rows[i].0,
        ) by {
            if i > 0 {
                assert(rows.skip(1)[i - 1] == rows[i]);
            }
        }
        if k < rows.skip(1).len() {
            assert(rows.skip(1)[k as int] == rows[(k + 1) as int]);
        }
    }
}

/// Sorting orders the rows by key.
pub proof fn law_sorted_is_ordered(rows: Seq<Entry>)
    ensures
        ordered(sorted(rows)),
    decreases rows.len(),
{
    if rows.len() > 0 {
        law_sorted_is_ordered(rows.drop_last());
        let rest = sorted(rows.drop_last());
        let r = rows.last();
        lemma_slot(rest, r.0);
        let k = slot(rest, r.0) as int;
        let all = rest.insert(k, r);
        assert forall|i: int, j: int| 0 <= i < j < all.len() implies !before(
            all[j].0,
            all[i].0,
        ) by {
            if i < k && j > k {
                assert(all[i] == rest[i] && all[j] == rest[j - 1]);
            } else if i > k {
                assert(all[i] == rest[i - 1] && all[j] == rest[j - 1]);
            } else if j < k {
                assert(all[i] == rest[i] && all[j] == rest[j]);
            } else if j == k {
                assert(all[i] == rest[i]);
            } else {
                // i == k < j
                assert(all[j] == rest[j - 1]);
                assert(before(r.0, rest[k].0));
                if before(rest[j - 1].0, r.0) {
                    lemma_before_transitive(rest[j - 1].0, r.0, rest[k].0);
                    if j - 1 == k {
                        lemma_before_irreflexive(rest[k].0);
                    }
                }
            }
        }
    }
}

/// Sorting keeps every row, as often as it was there.
pub proof fn law_sorted_keeps_rows(rows: Seq<Entry>)
    ensures
        sorted(rows).to_multiset() == rows.to_multiset(),
        sorted(rows).len() == rows.len(),
    decreases rows.len(),
{
    broadcast use vstd::seq_lib::group_to_multiset_ensures;

    if rows.len() > 0 {
        law_sorted_keeps_rows(rows.drop_last());
        let rest = sorted(rows.drop_last());
        lemma_slot(rest, rows.last().0);
        assert(rows == rows.drop_last().push(rows.last()));
    }
}

proof fn lemma_contains_in_multiset(a: Seq<Entry>, b: Seq<Entry>, e: Entry)
    requires
        a.to_multiset() == b.to_multiset(),
        a.contains(e),
    ensures
        b.contains(e),
{
    broadcast use vstd::seq_lib::group_to_multiset_ensures;

    assert(a.to_multiset().count(e) > 0);
}

proof fn lemma_distinct_entries(rows: Seq<Entry>, other: Seq<Entry>)
    requires
        distinct_keys(rows),
        rows.to_multiset() == other.to_multiset(),
    ensures
        distinct_keys(other),
{
    broadcast use vstd::seq_lib::group_to_multiset_ensures;

    assert(rows.no_duplicates());
    rows.lemma_multiset_has_no_duplicates();
    other.lemma_multiset_has_no_duplicates_conv();
    assert forall|i: int, j: int| 0 <= i < j < other.len() implies other[i].0 != other[j].0 by {
        if other[i].0 == other[j].0 {
            lemma_contains_in_multiset(other, rows, other[i]);
            lemma_contains_in_multiset(other, rows, other[j]);
            let a = choose|a: int| 0 <= a < rows.len() && rows[a] == other[i];
            let b = choose|b: int| 0 <= b < rows.len() && rows[b] == other[j];
            assert(other[i] != other[j]);
            assert(a != b);
            if a < b {
                assert(rows[a].0 != rows[b].0);
            } else {
                assert(rows[b].0 != rows[a].0);
            }
        }
    }
}

proof fn lemma_ordered_unique(a: Seq<Entry>, b: Seq<Entry>)
    requires
        ordered(a),
        ordered(b),
        distinct_keys(a),
        distinct_keys(b),
        a.to_multiset() == b.to_multiset(),
    ensures
        a == b,
    decreases a.len(),
{
    broadcast use vstd::seq_lib::group_to_multiset_ensures;

    assert(a.to_multiset().len() == a.len());
    assert(b.to_multiset().len() == b.len());
    if a.len() > 0 {
        lemma_contains_in_multiset(a, b, a.last());
        lemma_contains_in_multiset(b, a, b.last());
        let i = choose|i: int| 0 <= i < b.len() && b[i] == a.last();
        let j = choose|j: int| 0 <= j < a.len() && a[j] == b.last();
        if a.last() != b.last() {
            assert(i < b.len() - 1);
            assert(j < a.len() - 1);
            assert(!before(b[b.len() - 1].0, b[i].0));
            assert(!before(a[a.len() - 1].0, a[j].0));
            assert(a[j].0 != a[a.len() - 1].0);
            lemma_before_total(a.last().0, b.last().0);
        }
        let x = a.drop_last();
        let y = b.drop_last();
        assert(a == x.push(a.last()));
        assert(b == y.push(b.last()));
        assert(x.to_multiset() == a.to_multiset().remove(a.last()));
        assert(y.to_multiset() == b.to_multiset().remove(b.last()));
        lemma_ordered_unique(x, y);
    }
}

/// Sorting entries with distinct keys gives the same list whatever order they came in.
pub proof fn law_sorted_ignores_order(a: Seq<Entry>, b: Seq<Entry>)
    requires
        distinct_keys(a),
        a.to_multiset() == b.to_multiset(),
    ensures
        sorted(a) == sorted(b),
{
    law_sorted_is_ordered(a);
    law_sorted_is_ordered(b);
    law_sorted_keeps_rows(a);
    law_sorted_keeps_rows(b);
    lemma_distinct_entries(a, sorted(a));
    lemma_distinct_entries(a, sorted(b));
    lemma_ordered_unique(sorted(a), sorted(b));
}

/// Sorting entries with distinct keys changes no value.
pub proof fn law_sorted_keeps_values(rows: Seq<Entry>, key: Seq<char>)
    requires
        distinct_keys(rows),
    ensures
        distinct_keys(sorted(rows)),
        value_of(sorted(rows), key) == value_of(rows, key),
{
    law_sorted_keeps_rows(rows);
    lemma_distinct_entries(rows, sorted(rows));
    let all = sorted(rows);
    if exists|j: int| 0 <= j < rows.len() && (#[trigger] rows[j]).0 == key {
        let j = choose|j: int| 0 <= j < rows.len() && (#[trigger] rows[j]).0 == key;
        lemma_value_of_distinct(rows, j);
        lemma_contains_in_multiset(rows, all, rows[j]);
        let k = choose|k: int| 0 <= k < all.len() && all[k] == rows[j];
        lemma_value_of_distinct(all, k);
    } else {
        lemma_value_of_absent(rows, key);
        assert forall|k: int| 0 <= k < all.len() implies (#[trigger] all[k]).0 != key by {
            lemma_contains_in_multiset(all, rows, all[k]);
            let j = choose|j: int| 0 <= j < rows.len() && rows[j] == all[k];
            assert(rows[j].0 != key);
        }
        lemma_value_of_absent(all, key);
    }
}

/// Copies a list of rows.
pub fn clone_rows(rows: &Vec<(String, String)>) -> (r: Vec<(String, String)>)
    ensures
        r@ == rows@,
{
    let mut out: Vec<(String, String)> = Vec::new();
    for i in 0..rows.len()
        invariant
            out@ == rows@.take(i as int),
    {
        out.push((rows[i].0.clone(), rows[i].1.clone()));
        assert(rows@.take(i + 1) == rows@.take(i as int).push(rows@[i as int]));
    }
    assert(rows@.take(rows@.len() as int) == rows@);
    out
}

/// Orders rows by key, stably.
pub fn sort_rows(rows: &Vec<(String, String)>) -> (r: Vec<(String, String)>)
    ensures
        entries(r@) == sorted(entries(rows@)),
{
    let mut out: Vec<(String, String)> = Vec::new();
    for i in 0..rows.len()
        invariant
            entries(out@) == sorted(entries(rows@).take(i as int)),
    {
        let ghost all = entries(rows@).take(i + 1);
        let ghost rest = entries(out@);
        assert(all.drop_last() == entries(rows@).take(i as int));
        let ghost key = rows@[i as int].0@;
        assert(all.last() == entries(rows@)[i as int]);
        let mut k: usize = 0;
        assert(rest.skip(0) == rest);
        while k < out.len() && !precedes(rows[i].0.as_str(), out[k].0.as_str())
            invariant
                i < rows@.len(),
                k <= out@.len(),
                rest == entries(out@),
                key == rows@[i as int].0@,
                slot(rest, key) == k + slot(rest.skip(k as int), key),
            decreases out@.len() - k,
        {
            assert(rest.skip(k as int)[0] == rest[k as int]);
            assert(rest.skip(k as int).skip(1) == rest.skip(k + 1));
            k = k + 1;
        }
        assert(slot(rest, key) == k) by {
            if k < out@.len() {
                assert(rest.skip(k as int)[0] == rest[k as int]);
            }
        }
        out.insert(k, (rows[i].0.clone(), rows[i].1.clone()));
        assert(entries(out@) == rest.insert(k as int, all.last()));
    }
    assert(entries(rows@).take(rows@.len() as int) == entries(rows@));
    out
}

// ---------------------------------------------------------------------------------------------
// Looking up and setting
// ---------------------------------------------------------------------------------------------

/// The value that the last row with that key gives it.
pub open spec fn value_of(rows: Seq<Entry>, key: Seq<char>) -> Option<Seq<char>>
    decreases rows.len(),
{
    if rows.len() == 0 {
        None
    } else if rows.last().0 == key {
        Some(rows.last().1)
    } else {
        value_of(rows.drop_last(), key)
    }
}

/// The value of `key` in `rows`, the last one where there are several.
pub fn lookup(rows: &Vec<(String, String)>, key: &str) -> (r: Option<String>)
    ensures
        match r {
            Some(v) => value_of(entries(rows@), key@) == Some(v@),
            None => value_of(entries(rows@), key@) is None,
        },
{
    let mut i: usize = rows.len();
    assert(entries(rows@).take(i as int) == entries(rows@));
    while i > 0
        invariant
            i <= rows@.len(),
            value_of(entries(rows@), key@) == value_of(entries(rows@).take(i as int), key@),
        decreases i,
    {
        let ghost part = entries(rows@).take(i as int);
        assert(part.last() == entries(rows@)[i - 1]);
        assert(part.drop_last() == entries(rows@).take(i - 1));
        if same_text(rows[i - 1].0.as_str(), key) {
            return Some(rows[i - 1].1.clone());
        }
        i = i - 1;
    }
    None
}

/// How many rows stand before the first one with that key.
pub open spec fn key_index(rows: Seq<Entry>, key: Seq<char>) -> nat
    decreases rows.len(),
{
    if rows.len() == 0 || rows[0].0 == key {
        0
    } else {
        1 + key_index(rows.skip(1), key)
    }
}

/// `rows` with `key` set to `value`: in its place, or at the end where the key is new.
pub open spec fn with_entry(rows: Seq<Entry>, key: Seq<char>, value: Seq<char>) -> Seq<Entry> {
    let i = key_index(rows, key) as int;
    if i < rows.len() {
        rows.update(i, (key, value))
    } else {
        rows.push((key, value))
    }
}

proof fn lemma_key_index(rows: Seq<Entry>, key: Seq<char>)
    ensures
        key_index(rows, key) <= rows.len(),
        forall|i: int| 0 <= i < key_index(rows, key) ==> (#[trigger] rows[i]).0 != key,
        key_index(rows, key) < rows.len() ==> rows[key_index(rows, key) as int].0 == key,
    decreases rows.len(),
{
    if rows.len() > 0 && rows[0].0 != key {
        lemma_key_index(rows.skip(1), key);
        let k = key_index(rows.skip(1), key);
        assert forall|i: int| 0 <= i < key_index(rows, key) implies (#[trigger] rows[i]).0
            != key by {
            if i > 0 {
                assert(rows.skip(1)[i - 1] == rows[i]);
            }
        }
        if k < rows.skip(1).len() {
            assert(rows.skip(1)[k as int] == rows[(k + 1) as int]);
        }
    }
}

proof fn lemma_value_of_distinct(rows: Seq<Entry>, i: int)
    requires
        distinct_keys(rows),
        0 <= i < rows.len(),
    ensures
        value_of(rows, rows[i].0) == Some(rows[i].1),
    decreases rows.len(),
{
    if i < rows.len() - 1 {
        assert(rows[i].0 != rows[rows.len() - 1].0);
        assert(rows.drop_last()[i] == rows[i]);
        lemma_value_of_distinct(rows.drop_last(), i);
    }
}

/// A key that stands in no row has no value.
pub proof fn lemma_value_of_absent(rows: Seq<Entry>, key: Seq<char>)
    requires
        forall|i: int| 0 <= i < rows.len() ==> (#[trigger] rows[i]).0 != key,
    ensures
        value_of(rows, key) is None,
    decreases rows.len(),
{
    if rows.len() > 0 {
        assert forall|i: int| 0 <= i < rows.drop_last().len() implies (
        #[trigger] rows.drop_last()[i]).0 != key by {
            assert(rows[i].0 != key);
        }
        lemma_value_of_absent(rows.drop_last(), key);
    }
}

/// Setting a key keeps the keys distinct, gives that key its new value and every other key the
/// value it had.
pub proof fn law_with_entry(rows: Seq<Entry>, key: Seq<char>, value: Seq<char>, other: Seq<char>)
    requires
        distinct_keys(rows),
    ensures
        distinct_keys(with_entry(rows, key, value)),
        value_of(with_entry(rows, key, value), key) == Some(value),
        other != key ==> value_of(with_entry(rows, key, value), other) == value_of(rows, other),
{
    lemma_key_index(rows, key);
    let i = key_index(rows, key) as int;
    let all = with_entry(rows, key, value);
    if i < rows.len() {
        lemma_value_of_distinct(all, i);
    } else {
        assert(all.last() == (key, value));
    }
    if other != key {
        if exists|j: int| 0 <= j < rows.len() && (#[trigger] rows[j]).0 == other {
            let j = choose|j: int| 0 <= j < rows.len() && (#[trigger] rows[j]).0 == other;
            lemma_value_of_distinct(rows, j);
            assert(all[j] == rows[j]);
            lemma_value_of_distinct(all, j);
        } else {
            lemma_value_of_absent(rows, other);
            assert forall|j: int| 0 <= j < all.len() implies (#[trigger] all[j]).0 != other by {
                if j < rows.len() {
                    assert(rows[j].0 != other);
                }
            }
            lemma_value_of_absent(all, other);
        }
    }
}

/// Sets `key` to `value` in a list of entries.
pub fn set_entry(rows: &mut Vec<(String, String)>, key: &str, value: &str)
    ensures
        entries(final(rows)@) == with_entry(entries(old(rows)@), key@, value@),
{
    let ghost all = entries(rows@);
    let mut i: usize = 0;
    assert(all.skip(0) == all);
    while i < rows.len() && !same_text(rows[i].0.as_str(), key)
        invariant
            i <= rows@.len(),
            all == entries(rows@),
            rows@ == old(rows)@,
            key_index(all, key@) == i + key_index(all.skip(i as int), key@),
        decreases rows@.len() - i,
    {
        assert(all.skip(i as int)[0] == all[i as int]);
        assert(all.skip(i as int).skip(1) == all.skip(i + 1));
        i = i + 1;
    }
    assert(key_index(all, key@) == i) by {
        if i < rows@.len() {
            assert(all.skip(i as int)[0] == all[i as int]);
        }
    }
    if i < rows.len() {
        rows.set(i, (key.to_string(), value.to_string()));
        assert(entries(rows@) == all.update(i as int, (key@, value@)));
    } else {
        rows.push((key.to_string(), value.to_string()));
        assert(entries(rows@) == all.push((key@, value@)));
    }
}

/// The entries that rows with a key stand for; a later row overrides an earlier one with the
/// same key, and rows without a key are left out.
pub open spec fn collected(rows: Seq<Entry>) -> Seq<Entry>
    decreases rows.len(),
{
    if rows.len() == 0 {
        rows
    } else if rows.last().0.len() == 0 {
        collected(rows.drop_last())
    } else {
        with_entry(collected(rows.drop_last()), rows.last().0, rows.last().1)
    }
}

/// Collected entries have distinct keys that are not empty, and each key has the value that
/// its last row gives it.
pub proof fn law_collected(rows: Seq<Entry>, key: Seq<char>)
    ensures
        distinct_keys(collected(rows)),
        key.len() > 0 ==> value_of(collected(rows), key) == value_of(rows, key),
        value_of(collected(rows), Seq::empty()) is None,
    decreases rows.len(),
{
    if rows.len() > 0 {
        law_collected(rows.drop_last(), key);
        let rest = collected(rows.drop_last());
        let r = rows.last();
        if r.0.len() > 0 {
            law_with_entry(rest, r.0, r.1, key);
            law_with_entry(rest, r.0, r.1, Seq::empty());
        } else {
            assert(r.0 == Seq::<char>::empty());
        }
    }
}

/// Entries with distinct keys, none of them empty, stand for themselves.
pub proof fn law_collected_entries(rows: Seq<Entry>)
    requires
        distinct_keys(rows),
        forall|i: int| 0 <= i < rows.len() ==> (#[trigger] rows[i]).0.len() > 0,
    ensures
        collected(rows) == rows,
    decreases rows.len(),
{
    if rows.len() > 0 {
        let rest = rows.drop_last();
        assert forall|i: int| 0 <= i < rest.len() implies (#[trigger] rest[i]).0.len() > 0 by {
            assert(rows[i].0.len() > 0);
        }
        law_collected_entries(rest);
        assert(rows[rows.len() - 1].0.len() > 0);
        lemma_key_index(rest, rows.last().0);
        let k = key_index(rest, rows.last().0) as int;
        if k < rest.len() {
            assert(rows[k].0 != rows[rows.len() - 1].0);
        }
        assert(rest.push(rows.last()) == rows);
    }
}

/// The entries that rows stand for, without those that have no key.
pub fn collect_rows(rows: &Vec<(String, String)>) -> (r: Vec<(String, String)>)
    ensures
        entries(r@) == collected(entries(rows@)),
{
    let mut out: Vec<(String, String)> = Vec::new();
    for i in 0..rows.len()
        invariant
            entries(out@) == collected(entries(rows@).take(i as int)),
    {
        let ghost all = entries(rows@).take(i + 1);
        assert(all.drop_last() == entries(rows@).take(i as int));
        assert(all.last() == entries(rows@)[i as int]);
        if !rows[i].0.as_str().is_empty() {
            set_entry(&mut out, rows[i].0.as_str(), rows[i].1.as_str());
        }
    }
    assert(entries(rows@).take(rows@.len() as int) == entries(rows@));
    out
}

// ---------------------------------------------------------------------------------------------
// Lines
// ---------------------------------------------------------------------------------------------

/// One text per entry: `lead`, the key, `mid`, the value.
pub open spec fn entry_lines(
    rows: Seq<Entry>,
    lead: Seq<char>,
    mid: Seq<char>,
) -> Seq<Seq<char>> {
    rows.map_values(|e: Entry| lead + e.0 + mid + e.1)
}

/// The lines of `rows`, in their order, joined by line breaks.
pub fn lines_of(rows: &Vec<(String, String)>, lead: &str, mid: &str) -> (r: String)
    ensures
        r@ == text::joined(entry_lines(entries(rows@), lead@, mid@), "\n"@),
{
    let mut out: Vec<String> = Vec::new();
    for i in 0..rows.len()
        invariant
            text::views(out@) == entry_lines(entries(rows@).take(i as int), lead@, mid@),
    {
        let mut line: String = concat3(lead, rows[i].0.as_str(), mid);
        line.append(rows[i].1.as_str());
        let ghost done = out@;
        let ghost text = line@;
        out.push(line);
        assert(text::views(out@) == text::views(done).push(text));
        assert(entries(rows@).take(i + 1) == entries(rows@).take(i as int).push(
            entries(rows@)[i as int],
        ));
        assert(text::views(out@) == entry_lines(entries(rows@).take(i + 1), lead@, mid@));
    }
    assert(entries(rows@).take(rows@.len() as int) == entries(rows@));
    join(&out, "\n")
}

/// Entries as lines of the form `  key: value`, ordered by key.
pub open spec fn sorted_lines(rows: Seq<Entry>) -> Seq<char> {
    text::joined(entry_lines(sorted(rows), "  "@, ": "@), "\n"@)
}

/// Formats entries as lines of the form `  key: value`, ordered by key, so that the same
/// entries always read the same.
pub fn sorted_kv_lines(map: &Vec<(String, String)>) -> (r: String)
    ensures
        r@ == sorted_lines(entries(map@)),
{
    let in_order: Vec<(String, String)> = sort_rows(map);
    lines_of(&in_order, "  ", ": ")
}

/// Entries with distinct keys read the same whatever order they come in.
pub proof fn law_sorted_lines_ignore_order(a: Seq<Entry>, b: Seq<Entry>)
    requires
        distinct_keys(a),
        a.to_multiset() == b.to_multiset(),
    ensures
        sorted_lines(a) == sorted_lines(b),
{
    law_sorted_ignores_order(a, b);
}

} // verus!
