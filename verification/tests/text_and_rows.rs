use rnm::calendar::{civil_date, format_unix_timestamp};
use rnm::paths::{extension, file_name, file_name_or, file_stem, join_path, same_path};
use rnm::rows::{
    collect_rows, lines_of, lookup, precedes, set_entry, sort_rows, sorted_kv_lines,
};
use rnm::text::{
    contains, count_lines, decimal_text, is_white, join, pad_right, replace_all, same_text, split,
    split_once, trim, zero_padded_text,
};
use std::path::{Path, PathBuf};

fn rows(list: &[(&str, &str)]) -> Vec<(String, String)> {
    list.iter().map(|(k, v)| (k.to_string(), v.to_string())).collect()
}

const TEXTS: [&str; 14] = [
    "", " ", "a", "  a b \t\n", "a:b:c", ":", "::", "\u{2003}x\u{a0}", "a\nb\r\nc\n", "\n\n", "aaa",
    "h\u{e9}llo w\u{f6}rld", "{{a}}{{b}}", "\u{1f600} smile",
];

#[test]
fn white_characters_are_those_of_std() {
    for n in 0..=0x10ffffu32 {
        if let Some(c) = char::from_u32(n) {
            assert_eq!(is_white(c), c.is_whitespace(), "{n:x}");
        }
    }
}

#[test]
fn text_functions_agree_with_std() {
    for t in TEXTS {
        assert_eq!(trim(t), t.trim());
        assert_eq!(count_lines(t), t.lines().count());
        for c in [':', 'a', '\n', ' '] {
            assert_eq!(split_once(t, c), t.split_once(c).map(|(a, b)| (a.to_string(), b.to_string())));
            assert_eq!(split(t, c), t.split(c).map(|p| p.to_string()).collect::<Vec<_>>());
        }
        for p in ["a", "aa", "{{a}}", "\n", "wor", ":"] {
            assert_eq!(contains(t, p), t.contains(p));
            assert_eq!(replace_all(t, p, "<>"), t.replace(p, "<>"));
            assert_eq!(replace_all(t, p, p), t);
        }
        assert!(contains(t, ""));
        assert_eq!(pad_right(t, 6), format!("{:<6}", t));
        assert!(same_text(t, &t.to_string()));
    }
    assert!(!same_text("a", "b"));
}

#[test]
fn replacing_does_not_look_at_what_it_put_in() {
    assert_eq!(replace_all("aaa", "aa", "a"), "aa");
    assert_eq!(replace_all("xx", "x", "xx"), "xxxx");
}

#[test]
fn numbers_are_written_in_decimal() {
    for n in [0, 7, 10, 59, 100, 12345, u64::MAX] {
        assert_eq!(decimal_text(n), n.to_string());
        assert_eq!(zero_padded_text(n, 4), format!("{:04}", n));
    }
}

#[test]
fn joining_undoes_splitting() {
    for t in TEXTS {
        assert_eq!(join(&split(t, ':'), ":"), t);
    }
    assert_eq!(join(&Vec::new(), "\n"), "");
}

#[test]
fn order_of_texts_is_that_of_std() {
    for a in TEXTS {
        for b in TEXTS {
            assert_eq!(precedes(a, b), a < b);
        }
    }
}

#[test]
fn rows_are_sorted_by_key_and_stay_in_order_where_keys_are_equal() {
    let list = rows(&[("b", "1"), ("a", "2"), ("B", "3"), ("a", "4"), ("", "5")]);
    let mut expected = list.clone();
    expected.sort_by(|x, y| x.0.cmp(&y.0));
    assert_eq!(sort_rows(&list), expected);
    assert_eq!(sort_rows(&list), rows(&[("", "5"), ("B", "3"), ("a", "2"), ("a", "4"), ("b", "1")]));
}

#[test]
fn sorted_lines_do_not_depend_on_the_order_of_entries() {
    let a = rows(&[("X-B", "2"), ("Accept", "*/*"), ("X-A", "1")]);
    let b = rows(&[("X-A", "1"), ("X-B", "2"), ("Accept", "*/*")]);
    assert_eq!(sorted_kv_lines(&a), "  Accept: */*\n  X-A: 1\n  X-B: 2");
    assert_eq!(sorted_kv_lines(&a), sorted_kv_lines(&b));
    assert_eq!(sorted_kv_lines(&Vec::new()), "");
    assert_eq!(lines_of(&b, "", " = "), "X-A = 1\nX-B = 2\nAccept = */*");
}

#[test]
fn the_last_row_of_a_key_gives_its_value() {
    let list = rows(&[("k", "1"), ("", "x"), ("k", "2"), ("l", "3")]);
    assert_eq!(lookup(&list, "k"), Some("2".to_string()));
    assert_eq!(lookup(&list, "m"), None);
    assert_eq!(collect_rows(&list), rows(&[("k", "2"), ("l", "3")]));
    assert_eq!(collect_rows(&collect_rows(&list)), collect_rows(&list));
    let mut changed = rows(&[("k", "1"), ("l", "3")]);
    set_entry(&mut changed, "k", "9");
    set_entry(&mut changed, "new", "n");
    assert_eq!(changed, rows(&[("k", "9"), ("l", "3"), ("new", "n")]));
}

const PATHS: [&str; 24] = [
    "", ".", "..", "/", "a", "a/", "./a", "a/.", "a/./b", "a//b", "/a", "/a/b.yaml", "b.tar.gz",
    ".hidden", ".hidden.yml", "a/..", "a/../b", "name.", "a.b/c", "/..", "//a", "a/b/", "x.yaml/",
    "./dir/req.yml",
];

#[test]
fn paths_agree_with_std() {
    for p in PATHS {
        let std_path = Path::new(p);
        let name = std_path.file_name().map(|s| s.to_str().unwrap().to_string());
        let ext = std_path.extension().map(|s| s.to_str().unwrap().to_string());
        let stem = std_path.file_stem().map(|s| s.to_str().unwrap().to_string());
        assert_eq!(file_name(p), name, "name of {p:?}");
        assert_eq!(extension(p), ext, "extension of {p:?}");
        assert_eq!(file_stem(p), stem, "stem of {p:?}");
        for q in PATHS {
            assert_eq!(same_path(p, q), PathBuf::from(p) == PathBuf::from(q), "{p:?} {q:?}");
            assert_eq!(join_path(p, q), std_path.join(q).to_str().unwrap(), "{p:?} {q:?}");
        }
    }
    assert_eq!(file_name_or("/", "request"), "request");
    assert_eq!(file_name_or("a/b.yaml", "request"), "b.yaml");
}

#[test]
fn dates_follow_the_calendar() {
    assert_eq!(civil_date(0), (1970, 1, 1));
    assert_eq!(civil_date(11016), (2000, 2, 29));
    let months = [31, 28, 31, 30, 31, 30, 31, 31, 30, 31, 30, 31];
    let (mut y, mut m, mut d) = (1970u64, 1u64, 1u64);
    for day in 0..200_000u64 {
        assert_eq!(civil_date(day), (y, m, d), "day {day}");
        let leap = y % 4 == 0 && (y % 100 != 0 || y % 400 == 0);
        let len = months[m as usize - 1] + if leap && m == 2 { 1 } else { 0 };
        d += 1;
        if d > len {
            d = 1;
            m += 1;
        }
        if m > 12 {
            m = 1;
            y += 1;
        }
    }
}

#[test]
fn timestamps_are_written_out() {
    assert_eq!(format_unix_timestamp(0), "1970-01-01 00:00:00");
    assert_eq!(format_unix_timestamp(86399), "1970-01-01 23:59:59");
    assert_eq!(format_unix_timestamp(951_827_696), "2000-02-29 12:34:56");
    assert_eq!(format_unix_timestamp(1_700_000_000), "2023-11-14 22:13:20");
    assert_eq!(format_unix_timestamp(4_102_444_799), "2099-12-31 23:59:59");
}
