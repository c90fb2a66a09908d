//! Paths as text, with `/` between their parts.

use crate::text;
use crate::text::{chars_of, concat2, concat3, same_text, split, string_of_range};
use vstd::prelude::*;
use vstd::string::*;

verus! {

/// Whether a path starts at the root.
pub open spec fn is_absolute(path: Seq<char>) -> bool {
    path.len() > 0 && path[0] == '/'
}

/// The pieces that name something: neither empty nor a single dot.
pub open spec fn named(segments: Seq<Seq<char>>) -> Seq<Seq<char>>
    decreases segments.len(),
{
    if segments.len() == 0 {
        segments
    } else {
        let rest = named(segments.drop_last());
        let s = segments.last();
        if s.len() == 0 || s == "."@ {
            rest
        } else {
            rest.push(s)
        }
    }
}

/// What a path names, step by step: the root or a leading dot, if it has one, and its named
/// pieces.
pub open spec fn components(path: Seq<char>) -> Seq<Seq<char>> {
    let segments = text::pieces(path, '/');
    let start = if is_absolute(path) {
        seq!["/"@]
    } else if segments[0] == "."@ {
        seq!["."@]
    } else {
        seq![]
    };
    start + named(segments)
}

fn starts_with_slash(path: &str) -> (r: bool)
    ensures
        r == is_absolute(path@),
{
    let s: Vec<char> = chars_of(path);
    s.len() > 0 && s[0] == '/'
}

fn named_pieces(segments: &Vec<String>) -> (r: Vec<String>)
    ensures
        text::views(r@) == named(text::views(segments@)),
{
    let mut out: Vec<String> = Vec::new();
    for i in 0..segments.len()
        invariant
            text::views(out@) == named(text::views(segments@).take(i as int)),
    {
        let ghost all = text::views(segments@).take(i + 1);
        assert(all.drop_last() == text::views(segments@).take(i as int));
        assert(all.last() == segments@[i as int]@);
        if !(segments[i].as_str().is_empty() || same_text(segments[i].as_str(), ".")) {
            let ghost done = out@;
            out.push(segments[i].clone());
            assert(text::views(out@) == text::views(done).push(segments@[i as int]@));
        }
    }
    assert(text::views(segments@).take(segments@.len() as int) == text::views(segments@));
    out
}

fn components_of(path: &str) -> (r: Vec<String>)
    ensures
        text::views(r@) == components(path@),
{
    let segments: Vec<String> = split(path, '/');
    let mut out: Vec<String> = Vec::new();
    assert(text::views(segments@)[0] == segments@[0]@);
    if starts_with_slash(path) {
        out.push("/".to_string());
        assert(text::views(out@) == seq!["/"@]);
    } else if same_text(segments[0].as_str(), ".") {
        out.push(".".to_string());
        assert(text::views(out@) == seq!["."@]);
    } else {
        assert(text::views(out@) == Seq::<Seq<char>>::empty());
    }
    let mut rest: Vec<String> = named_pieces(&segments);
    let ghost a = out@;
    let ghost b = rest@;
    out.append(&mut rest);
    assert(text::views(out@) == text::views(a) + text::views(b));
    out
}

/// Whether two paths name the same thing, step by step.
pub open spec fn same(a: Seq<char>, b: Seq<char>) -> bool {
    components(a) == components(b)
}

/// Whether two paths are the same path.
pub fn same_path(a: &str, b: &str) -> (r: bool)
    ensures
        r == same(a@, b@),
{
    let x: Vec<String> = components_of(a);
    let y: Vec<String> = components_of(b);
    if x.len() != y.len() {
        assert(text::views(x@).len() != text::views(y@).len());
        return false;
    }
    for i in 0..x.len()
        invariant
            x@.len() == y@.len(),
            text::views(x@) == components(a@),
            text::views(y@) == components(b@),
            forall|j: int| 0 <= j < i ==> x@[j]@ == y@[j]@,
    {
        if !same_text(x[i].as_str(), y[i].as_str()) {
            assert(text::views(x@)[i as int] != text::views(y@)[i as int]);
            return false;
        }
    }
    assert(text::views(x@) == text::views(y@));
    true
}

/// The last named piece of a path, unless it goes up.
pub open spec fn base_name(path: Seq<char>) -> Option<Seq<char>> {
    let parts = named(text::pieces(path, '/'));
    if parts.len() == 0 || parts.last() == ".."@ {
        None
    } else {
        Some(parts.last())
    }
}

/// The file name of a path: its last piece; `None` for the root, `.` and `..`.
pub fn file_name(path: &str) -> (r: Option<String>)
    ensures
        match r {
            Some(name) => base_name(path@) == Some(name@),
            None => base_name(path@) is None,
        },
{
    let segments: Vec<String> = split(path, '/');
    let parts: Vec<String> = named_pieces(&segments);
    let n: usize = parts.len();
    assert(text::views(parts@).len() == n);
    if n == 0 {
        return None;
    }
    assert(text::views(parts@).last() == parts@[n - 1]@);
    if same_text(parts[n - 1].as_str(), "..") {
        None
    } else {
        Some(parts[n - 1].clone())
    }
}

/// The file name of a path, or `other` where it has none.
pub open spec fn base_name_or(path: Seq<char>, other: Seq<char>) -> Seq<char> {
    match base_name(path) {
        Some(name) => name,
        None => other,
    }
}

/// The file name of a path, or `other` where it has none.
pub fn file_name_or(path: &str, other: &str) -> (r: String)
    ensures
        r@ == base_name_or(path@, other@),
{
    match file_name(path) {
        Some(name) => name,
        None => other.to_string(),
    }
}

/// Where the last `c` stands in `s`; -1 where there is none.
pub open spec fn last_position(s: Seq<char>, c: char) -> int
    decreases s.len(),
{
    if s.len() == 0 {
        -1
    } else if s.last() == c {
        s.len() - 1
    } else {
        last_position(s.drop_last(), c)
    }
}

/// What stands behind the last dot of a file name; a dot at its very start does not count.
pub open spec fn suffix(path: Seq<char>) -> Option<Seq<char>> {
    match base_name(path) {
        Some(name) => if last_position(name, '.') > 0 {
            Some(name.skip(last_position(name, '.') + 1))
        } else {
            None
        },
        None => None,
    }
}

/// A file name up to its last dot; all of it where there is none but at its very start.
pub open spec fn stem(path: Seq<char>) -> Option<Seq<char>> {
    match base_name(path) {
        Some(name) => if last_position(name, '.') > 0 {
            Some(name.take(last_position(name, '.')))
        } else {
            Some(name)
        },
        None => None,
    }
}

/// The index of the last `c` of `s` plus one; 0 where there is none.
fn after_last(s: &Vec<char>, c: char) -> (n: usize)
    ensures
        n == last_position(s@, c) + 1,
        n <= s@.len(),
{
    let mut n: usize = s.len();
    assert(s@.take(n as int) == s@);
    while n > 0 && s[n - 1] != c
        invariant
            n <= s@.len(),
            last_position(s@, c) == last_position(s@.take(n as int), c),
        decreases n,
    {
        assert(s@.take(n as int).drop_last() == s@.take(n - 1));
        n = n - 1;
    }
    n
}

/// The extension of a path's file name.
pub fn extension(path: &str) -> (r: Option<String>)
    ensures
        match r {
            Some(e) => suffix(path@) == Some(e@),
            None => suffix(path@) is None,
        },
{
    match file_name(path) {
        Some(name) => {
            let s: Vec<char> = chars_of(name.as_str());
            let n: usize = after_last(&s, '.');
            if n > 1 {
                let e: String = string_of_range(&s, n, s.len());
                assert(e@ == name@.skip(n as int));
                Some(e)
            } else {
                None
            }
        },
        None => None,
    }
}

/// The file name of a path without its extension.
pub fn file_stem(path: &str) -> (r: Option<String>)
    ensures
        match r {
            Some(e) => stem(path@) == Some(e@),
            None => stem(path@) is None,
        },
{
    match file_name(path) {
        Some(name) => {
            let s: Vec<char> = chars_of(name.as_str());
            let n: usize = after_last(&s, '.');
            if n > 1 {
                let e: String = string_of_range(&s, 0, n - 1);
                assert(e@ == name@.take(n - 1));
                Some(e)
            } else {
                Some(name)
            }
        },
        None => None,
    }
}

/// `name` under the directory `dir`; an absolute `name` stands for itself.
pub open spec fn under(dir: Seq<char>, name: Seq<char>) -> Seq<char> {
    if is_absolute(name) || dir.len() == 0 {
        name
    } else if dir.last() == '/' {
        dir + name
    } else {
        dir + "/"@ + name
    }
}

/// The path of `name` under the directory `dir`.
pub fn join_path(dir: &str, name: &str) -> (r: String)
    ensures
        r@ == under(dir@, name@),
{
    let d: Vec<char> = chars_of(dir);
    if starts_with_slash(name) || d.len() == 0 {
        name.to_string()
    } else if d[d.len() - 1] == '/' {
        concat2(dir, name)
    } else {
        concat3(dir, "/", name)
    }
}

} // verus!
