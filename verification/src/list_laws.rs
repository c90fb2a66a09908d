//! What holds of looking up, ordering and writing out lists of keys and values, and of paths.

use crate::paths;
use crate::rows;
use crate::text;
use crate::text_laws;
use vstd::prelude::*;
use vstd::string::*;

verus! {

// ---------------------------------------------------------------------------------------------
// Lists
// ---------------------------------------------------------------------------------------------

/// A list of rows has the texts of each row, in their order.
pub proof fn law_entries(list: Seq<(String, String)>, i: int)
    requires
        0 <= i < list.len(),
    ensures
        rows::entries(list).len() == list.len(),
        rows::entries(list)[i].0 == list[i].0@,
        rows::entries(list)[i].1 == list[i].1@,
{
}

/// The last row with a key gives it its value.
pub proof fn law_last_row_counts(list: Seq<rows::Entry>, i: int)
    requires
        0 <= i < list.len(),
        forall|j: int| i < j < list.len() ==> (#[trigger] list[j]).0 != list[i].0,
    ensures
        rows::value_of(list, list[i].0) == Some(list[i].1),
    decreases list.len(),
{
    if i < list.len() - 1 {
        assert(list[list.len() - 1].0 != list[i].0);
        let rest = list.drop_last();
        assert forall|j: int| i < j < rest.len() implies (#[trigger] rest[j]).0 != rest[i].0 by {
            assert(list[j].0 != list[i].0);
        }
        law_last_row_counts(rest, i);
    }
}

/// A key without a row has no value.
pub proof fn law_no_row_no_value(list: Seq<rows::Entry>, key: Seq<char>)
    requires
        forall|j: int| 0 <= j < list.len() ==> (#[trigger] list[j]).0 != key,
    ensures
        rows::value_of(list, key) is None,
{
    rows::lemma_value_of_absent(list, key);
}

/// One text comes before another where it has the lesser character at the first place where they
/// differ, or ends there.
pub proof fn law_order_is_by_the_first_difference(a: Seq<char>, b: Seq<char>, k: int)
    requires
        0 <= k < b.len(),
        k <= a.len(),
        forall|i: int| 0 <= i < k ==> #[trigger] a[i] == b[i],
        k < a.len() ==> a[k] != b[k],
    ensures
        rows::before(a, b) <==> k == a.len() || a[k] < b[k],
    decreases k,
{
    if k > 0 {
        assert(a[0] == b[0]);
        assert forall|i: int| 0 <= i < k - 1 implies #[trigger] a.skip(1)[i] == b.skip(1)[i] by {
            assert(a[i + 1] == b[i + 1]);
        }
        law_order_is_by_the_first_difference(a.skip(1), b.skip(1), k - 1);
    }
}

/// In an ordered list no key comes before one of an earlier row, and in a list of distinct keys none
/// stands in two rows. Sorting gives the first of any list.
pub proof fn law_ordered_lists(list: Seq<rows::Entry>, i: int, j: int)
    requires
        0 <= i < j < list.len(),
    ensures
        rows::ordered(list) ==> !rows::before(list[j].0, list[i].0),
        rows::distinct_keys(list) ==> list[i].0 != list[j].0,
        rows::sorted(list).len() == list.len(),
        !rows::before(rows::sorted(list)[j].0, rows::sorted(list)[i].0),
{
    rows::law_sorted_keeps_rows(list);
    rows::law_sorted_is_ordered(list);
    list.to_multiset_ensures();
    rows::sorted(list).to_multiset_ensures();
}

/// One more row sets its key behind the rows before it; one without a key changes nothing.
pub proof fn law_one_more_row(list: Seq<rows::Entry>, key: Seq<char>, value: Seq<char>)
    ensures
        key.len() > 0 ==> rows::collected(list.push((key, value))) == rows::with_entry(
            rows::collected(list),
            key,
            value,
        ),
        key.len() == 0 ==> rows::collected(list.push((key, value))) == rows::collected(list),
        rows::collected(Seq::empty()).len() == 0,
{
    assert(list.push((key, value)).drop_last() =~= list);
}

/// Each entry has its line: what leads, the key, what is between, the value.
pub proof fn law_entry_lines(list: Seq<rows::Entry>, lead: Seq<char>, mid: Seq<char>, i: int)
    requires
        0 <= i < list.len(),
    ensures
        rows::entry_lines(list, lead, mid).len() == list.len(),
        rows::entry_lines(list, lead, mid)[i] == lead + list[i].0 + mid + list[i].1,
{
}

/// Each entry of a list stands in its text, as a line of its own, and there are no other lines.
pub proof fn law_sorted_text(list: Seq<rows::Entry>)
    requires
        list.len() > 0,
    ensures
        exists|lines: Seq<rows::Entry>|
            {
                &&& #[trigger] rows::ordered(lines)
                &&& lines.to_multiset() == list.to_multiset()
                &&& rows::sorted_lines(list) == text::joined(
                    lines.map_values(|e: rows::Entry| "  "@ + e.0 + ": "@ + e.1),
                    "\n"@,
                )
            },
{
    rows::law_sorted_is_ordered(list);
    rows::law_sorted_keeps_rows(list);
    let lines = rows::sorted(list);
    assert(rows::entry_lines(lines, "  "@, ": "@) =~= lines.map_values(
        |e: rows::Entry| "  "@ + e.0 + ": "@ + e.1,
    ));
    assert(rows::ordered(lines));
}

/// Setting a key that is there changes its row in its place; a new key goes to the end.
pub proof fn law_setting_keeps_places(
    list: Seq<rows::Entry>,
    key: Seq<char>,
    value: Seq<char>,
    i: int,
)
    requires
        0 <= i < list.len(),
        list[i].0 == key,
        forall|j: int| 0 <= j < i ==> (#[trigger] list[j]).0 != key,
    ensures
        rows::with_entry(list, key, value) == list.update(i, (key, value)),
{
    lemma_key_index(list, key, i);
}

/// Setting a key that is not there adds a row at the end.
pub proof fn law_new_keys_go_to_the_end(list: Seq<rows::Entry>, key: Seq<char>, value: Seq<char>)
    requires
        forall|j: int| 0 <= j < list.len() ==> (#[trigger] list[j]).0 != key,
    ensures
        rows::with_entry(list, key, value) == list.push((key, value)),
{
    lemma_key_index(list, key, list.len() as int);
}

proof fn lemma_key_index(list: Seq<rows::Entry>, key: Seq<char>, i: int)
    requires
        0 <= i <= list.len(),
        i < list.len() ==> list[i].0 == key,
        forall|j: int| 0 <= j < i ==> (#[trigger] list[j]).0 != key,
    ensures
        rows::key_index(list, key) == i,
    decreases i,
{
    if i > 0 {
        assert(list[0].0 != key);
        assert forall|j: int| 0 <= j < i - 1 implies (#[trigger] list.skip(1)[j]).0 != key by {
            assert(list[j + 1].0 != key);
        }
        lemma_key_index(list.skip(1), key, i - 1);
    }
}

// ---------------------------------------------------------------------------------------------
// Paths
// ---------------------------------------------------------------------------------------------

/// Whether a text can be the name of a file: it is not empty, holds no slash, and is none of the
/// two names that lead nowhere or up.
pub open spec fn is_file_name(name: Seq<char>) -> bool {
    &&& name.len() > 0
    &&& !name.contains('/')
    &&& name != "."@
    &&& name != ".."@
}

proof fn lemma_named_push(segments: Seq<Seq<char>>, s: Seq<char>)
    ensures
        paths::named(segments.push(s)) == if s.len() == 0 || s == "."@ {
            paths::named(segments)
        } else {
            paths::named(segments).push(s)
        },
{
    assert(segments.push(s).drop_last() =~= segments);
}

/// The file name of a path is what stands behind its last slash.
pub proof fn law_file_name_is_behind_the_last_slash(dir: Seq<char>, name: Seq<char>)
    requires
        is_file_name(name),
    ensures
        paths::base_name(dir + seq!['/'] + name) == Some(name),
        paths::base_name(name) == Some(name),
{
    text_laws::law_pieces(dir, name, '/');
    lemma_named_push(text::pieces(dir, '/'), name);
    lemma_named_push(Seq::empty(), name);
    assert(seq![name] =~= Seq::<Seq<char>>::empty().push(name));
}

/// A path that goes up at its end has no file name, and neither has the root or an empty path. Where
/// a path has none, what is given in its place is taken.
pub proof fn law_paths_without_a_file_name(dir: Seq<char>, name: Seq<char>, other: Seq<char>)
    ensures
        paths::base_name(dir + seq!['/'] + ".."@) is None,
        paths::base_name_or(dir + seq!['/'] + ".."@, other) == other,
        paths::base_name_or(Seq::empty(), other) == other,
        paths::base_name_or(seq!['/'], other) == other,
        is_file_name(name) ==> paths::base_name_or(dir + seq!['/'] + name, other) == name,
        is_file_name(name) ==> paths::base_name_or(name, other) == name,
{
    reveal_strlit("..");
    reveal_strlit(".");
    let up = ".."@;
    let none = Seq::<char>::empty();
    assert(!up.contains('/'));
    text_laws::law_pieces(dir, up, '/');
    lemma_named_push(text::pieces(dir, '/'), up);
    assert(up.len() == 2 && "."@.len() == 1);
    text_laws::law_pieces(none, none, '/');
    let segments = Seq::<Seq<char>>::empty();
    assert(paths::named(segments).len() == 0);
    lemma_named_push(segments, none);
    assert(seq![none] =~= segments.push(none));
    lemma_named_push(seq![none], none);
    assert(none + seq!['/'] + none =~= seq!['/']);
    if is_file_name(name) {
        law_file_name_is_behind_the_last_slash(dir, name);
    }
}

/// A name under a directory is this name behind the directory, with one slash between them.
pub proof fn law_under(dir: Seq<char>, name: Seq<char>)
    requires
        is_file_name(name),
    ensures
        paths::under(dir, name) == if dir.len() == 0 {
            name
        } else if dir.last() == '/' {
            dir + name
        } else {
            dir + seq!['/'] + name
        },
        paths::base_name(paths::under(dir, name)) == Some(name),
{
    reveal_strlit("/");
    assert("/"@ =~= seq!['/']);
    assert(name[0] != '/');
    law_file_name_is_behind_the_last_slash(dir, name);
    if dir.len() > 0 && dir.last() == '/' {
        law_file_name_is_behind_the_last_slash(dir.drop_last(), name);
        assert(dir.drop_last() + seq!['/'] + name =~= dir + name);
    }
}

/// An absolute name stands for itself.
pub proof fn law_absolute_names_stand_alone(dir: Seq<char>, name: Seq<char>)
    requires
        name.len() > 0,
        name[0] == '/',
    ensures
        paths::under(dir, name) == name,
{
}

proof fn lemma_last_position(a: Seq<char>, c: char, b: Seq<char>)
    requires
        !b.contains(c),
    ensures
        paths::last_position(a + seq![c] + b, c) == a.len(),
        paths::last_position(b, c) == -1,
    decreases b.len(),
{
    let s = a + seq![c] + b;
    if b.len() > 0 {
        let d = b.drop_last();
        assert forall|i: int| 0 <= i < d.len() implies d[i] != c by {
            assert(d[i] == b[i]);
        }
        lemma_last_position(a, c, d);
        assert(s.drop_last() =~= a + seq![c] + d);
        assert(s.last() == b[b.len() - 1]);
        assert(b[b.len() - 1] != c);
    }
}

/// The extension of a file is what stands behind the last dot of its name, and its stem what
/// stands before that dot. A dot at the very start of a name does not count.
pub proof fn law_extension_and_stem(path: Seq<char>, stem: Seq<char>, ext: Seq<char>)
    requires
        paths::base_name(path) == Some(stem + seq!['.'] + ext),
        !ext.contains('.'),
    ensures
        stem.len() > 0 ==> paths::suffix(path) == Some(ext) && paths::stem(path) == Some(stem),
        stem.len() == 0 ==> paths::suffix(path) is None && paths::stem(path) == Some(
            seq!['.'] + ext,
        ),
{
    let name = stem + seq!['.'] + ext;
    lemma_last_position(stem, '.', ext);
    assert(name.take(stem.len() as int) =~= stem);
    assert(name.skip((stem.len() + 1) as int) =~= ext);
    if stem.len() == 0 {
        assert(name =~= seq!['.'] + ext);
    }
}

/// A file whose name has no dot has no extension, and its stem is its name.
pub proof fn law_no_dot_no_extension(path: Seq<char>, name: Seq<char>)
    requires
        paths::base_name(path) == Some(name),
        !name.contains('.'),
    ensures
        paths::suffix(path) is None,
        paths::stem(path) == Some(name),
{
    lemma_last_position(Seq::empty(), '.', name);
}

/// Paths with different file names are different, and a slash or a dot at the end of a path makes
/// no other path of it.
pub proof fn law_same_paths(a: Seq<char>, b: Seq<char>)
    ensures
        paths::same(a, a),
        paths::same(a, b) ==> paths::same(b, a),
        paths::same(a, b) && !paths::is_absolute(a) && !paths::is_absolute(b) && a.len() > 0
            && a[0] != '.' && b.len() > 0 && b[0] != '.' ==> paths::base_name(a)
            == paths::base_name(b),
        a.len() > 0 ==> paths::same(a + seq!['/'], a),
        a.len() > 0 ==> paths::same(a + seq!['/', '.'], a),
{
    reveal_strlit(".");
    let none = Seq::<char>::empty();
    text_laws::law_pieces(a, none, '/');
    text_laws::law_pieces(a, "."@, '/');
    text::lemma_pieces_nonempty(a, '/');
    text::lemma_pieces_nonempty(b, '/');
    assert(a + seq!['/'] + none =~= a + seq!['/']);
    assert("."@ =~= seq!['.']);
    assert(a + seq!['/'] + "."@ =~= a + seq!['/', '.']);
    lemma_named_push(text::pieces(a, '/'), none);
    lemma_named_push(text::pieces(a, '/'), "."@);
    lemma_first_piece(a);
    lemma_first_piece(b);
    if a.len() > 0 {
        assert((a + seq!['/'])[0] == a[0]);
        assert((a + seq!['/', '.'])[0] == a[0]);
        assert(text::pieces(a, '/').push(none)[0] == text::pieces(a, '/')[0]);
        assert(text::pieces(a, '/').push("."@)[0] == text::pieces(a, '/')[0]);
    }
    assert(Seq::<Seq<char>>::empty() + paths::named(text::pieces(a, '/')) =~= paths::named(
        text::pieces(a, '/'),
    ));
    assert(Seq::<Seq<char>>::empty() + paths::named(text::pieces(b, '/')) =~= paths::named(
        text::pieces(b, '/'),
    ));
}

/// Two files are the same exactly where they have the same name in the same directory.
pub proof fn law_paths_are_taken_step_by_step(
    a: Seq<char>,
    b: Seq<char>,
    m: Seq<char>,
    n: Seq<char>,
)
    requires
        a.len() > 0,
        b.len() > 0,
        is_file_name(m),
        is_file_name(n),
    ensures
        paths::same(a + seq!['/'] + m, b + seq!['/'] + n) <==> paths::same(a, b) && m == n,
{
    lemma_one_step(a, m);
    lemma_one_step(b, n);
    let (x, y) = (paths::components(a), paths::components(b));
    assert(x.push(m).drop_last() =~= x && y.push(n).drop_last() =~= y);
    assert(x.push(m).last() == m && y.push(n).last() == n);
}

proof fn lemma_one_step(a: Seq<char>, n: Seq<char>)
    requires
        a.len() > 0,
        is_file_name(n),
    ensures
        paths::components(a + seq!['/'] + n) == paths::components(a).push(n),
{
    let longer = a + seq!['/'] + n;
    text_laws::law_pieces(a, n, '/');
    text::lemma_pieces_nonempty(a, '/');
    lemma_named_push(text::pieces(a, '/'), n);
    assert(longer[0] == a[0]);
    assert(text::pieces(a, '/').push(n)[0] == text::pieces(a, '/')[0]);
    assert(paths::components(longer) =~= paths::components(a).push(n));
}

proof fn lemma_named_are_pieces(segments: Seq<Seq<char>>, i: int)
    requires
        0 <= i < paths::named(segments).len(),
    ensures
        segments.contains(paths::named(segments)[i]),
    decreases segments.len(),
{
    let rest = segments.drop_last();
    let before = paths::named(rest);
    if i < before.len() {
        lemma_named_are_pieces(rest, i);
        let k = choose|k: int| 0 <= k < rest.len() && rest[k] == before[i];
        assert(segments[k] == before[i]);
    } else {
        assert(segments[segments.len() - 1] == segments.last());
    }
}

/// A path that starts at the root is never the same as one that does not.
pub proof fn law_root_makes_a_difference(a: Seq<char>, b: Seq<char>)
    requires
        a.len() > 0 && a[0] == '/',
        b.len() == 0 || b[0] != '/',
    ensures
        !paths::same(a, b),
{
    reveal_strlit("/");
    reveal_strlit(".");
    let (x, y) = (paths::components(a), paths::components(b));
    assert(x[0] == "/"@);
    assert("/"@[0] == '/');
    assert("/"@.contains('/'));
    if y.len() > 0 && y[0] == "/"@ {
        let segments = text::pieces(b, '/');
        if segments[0] == "."@ {
            assert(y[0] == "."@);
            assert("."@[0] == '.');
        } else {
            assert(y =~= paths::named(segments));
            lemma_named_are_pieces(segments, 0);
            text_laws::law_pieces_are_joined_again(b, '/');
            let k = choose|k: int| 0 <= k < segments.len() && segments[k] == y[0];
            assert(!segments[k].contains('/'));
        }
    }
}

/// The first piece of a path that does not start with a slash starts as the path does.
proof fn lemma_first_piece(s: Seq<char>)
    ensures
        s.len() > 0 && s[0] != '/' ==> text::pieces(s, '/')[0].len() > 0 && text::pieces(
            s,
            '/',
        )[0][0] == s[0],
        text::pieces(s, '/').len() > 0,
    decreases s.len(),
{
    if s.len() > 0 {
        let rest = s.drop_last();
        lemma_first_piece(rest);
        text::lemma_pieces_nonempty(rest, '/');
        let before = text::pieces(rest, '/');
        if s.last() != '/' && before.len() == 1 {
            assert(before.drop_last() =~= Seq::empty());
            if rest.len() == 0 {
                assert(before =~= seq![Seq::<char>::empty()]);
            }
        }
    }
}

} // verus!
