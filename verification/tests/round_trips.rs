use rnm::env::EnvManager;
use rnm::grid::GridEditState;
use rnm::request::{RequestBody, RequestFile};
use rnm::undo::Stamp;
use serde_json::Value;

/// All words over an alphabet of up to `n` letters.
fn words(alphabet: &[char], n: usize) -> Vec<String> {
    let mut all = vec![String::new()];
    let mut last = vec![String::new()];
    for _ in 0..n {
        let mut next = Vec::new();
        for w in &last {
            for c in alphabet {
                next.push(format!("{w}{c}"));
            }
        }
        all.extend(next.iter().cloned());
        last = next;
    }
    all
}

fn random_texts(count: usize) -> Vec<String> {
    let alphabet: Vec<char> =
        "\n\n\n   ab-#:\t\r\u{85}\u{2028}\u{2029}'\"\\{}[]!&*|>%@`?,.0x1e+~\u{feff}\u{0}\u{7f}\u{e9}\u{1f600}\u{a0}\u{fffe}"
            .chars()
            .collect();
    let mut seed: u64 = 12345;
    let mut next = move || {
        seed = seed.wrapping_mul(6364136223846793005).wrapping_add(1442695040888963407);
        (seed >> 33) as usize
    };
    (0..count)
        .map(|_| {
            let len = next() % 60;
            (0..len).map(|_| alphabet[next() % alphabet.len()]).collect()
        })
        .collect()
}

fn every_character() -> Vec<String> {
    (0..=0x10ffffu32)
        .filter(|n| *n < 0x11000 || n % 97 == 0)
        .filter_map(char::from_u32)
        .flat_map(|c| [format!("{c}"), format!("a{c} b")])
        .collect()
}

/// Saves texts as keys and values of variables, and reads them back.
fn variables_come_back(texts: Vec<String>) {
    let m = EnvManager::new(true, None);
    for chunk in texts.chunks(500) {
        let mut vars: Vec<(String, String)> =
            chunk.iter().map(|t| (t.clone(), t.clone())).collect();
        vars.sort();
        vars.dedup();
        let write = m.save_env("d", &vars).ok().unwrap();
        assert_eq!(m.load_env(&Some(write.text)).ok().unwrap(), vars);
    }
}

/// The editor of a request with a body.
fn opened(body: Option<RequestBody>) -> GridEditState {
    let original = RequestFile {
        name: None,
        method: "GET".to_string(),
        url: "u".to_string(),
        headers: None,
        query: None,
        exports: None,
        body,
    };
    GridEditState::open("p".to_string(), original, Stamp { timestamp: String::new(), created_at: 0 })
}

/// A YAML text as compact JSON.
fn json_of(yaml: &str) -> String {
    let value: serde_yaml::Value = serde_yaml::from_str(yaml).unwrap();
    serde_json::to_value(&value).unwrap().to_string()
}

/// The YAML of a body that is no plain string.
fn yaml_of(body: Option<RequestBody>) -> String {
    match body {
        Some(RequestBody::Yaml(y)) => y,
        _ => panic!("no structured body"),
    }
}

/// Opens requests with YAML texts as their bodies in the editor, and saves them with a new header.
fn values_come_back(yamls: Vec<String>) {
    for yaml in yamls {
        let mut e = opened(Some(RequestBody::Yaml(yaml.clone())));
        e.header_rows.push(("h".to_string(), "1".to_string()));
        assert_eq!(yaml_of(e.to_save().body), yaml);
    }
}

/// Types JSON texts into the body of the editor, and saves them.
fn typed_values_are_saved(texts: Vec<String>) {
    for t in texts {
        let mut e = opened(None);
        e.body_text = format!(" {t}\n");
        let typed: Value = serde_json::from_str(&t).unwrap();
        assert_eq!(json_of(&yaml_of(e.to_save().body)), typed.to_string());
    }
}

/// A value that is nested up to `depth` levels, with texts as its keys and strings.
fn nested(texts: &[String], next: &mut dyn FnMut() -> usize, depth: usize) -> Value {
    let kind = if depth == 0 { next() % 5 } else { next() % 9 };
    match kind {
        0 => Value::Null,
        1 => Value::from(next() % 2 == 0),
        2 => Value::from((next() as i64 - 1_000_000_000) * 1_000_003),
        3 | 4 => Value::from(texts[next() % texts.len()].as_str()),
        5 | 6 => (0..next() % 4).map(|_| nested(texts, next, depth - 1)).collect(),
        _ => {
            let mut object = serde_json::Map::new();
            for _ in 0..next() % 4 {
                let key = texts[next() % texts.len()].clone();
                object.insert(key, nested(texts, next, depth - 1));
            }
            Value::Object(object)
        }
    }
}

/// Random objects and arrays.
fn random_values(count: usize) -> Vec<Value> {
    let mut texts = random_texts(2000);
    texts.extend(words(&['\n', ' ', 'a', '-', '!', '\t', '"'], 3));
    texts.extend(random_texts(40).iter().map(|t| t.repeat(4)));
    let mut seed: u64 = 777;
    let mut next = move || {
        seed = seed.wrapping_mul(6364136223846793005).wrapping_add(1442695040888963407);
        (seed >> 33) as usize
    };
    (0..count)
        .map(|i| {
            let value = nested(&texts, &mut next, 5);
            if i % 2 == 0 {
                Value::Array(vec![value])
            } else {
                let mut object = serde_json::Map::new();
                object.insert(texts[next() % texts.len()].clone(), value);
                Value::Object(object)
            }
        })
        .collect()
}

/// Opens requests with texts as their bodies in the editor, and saves them; and types the same
/// texts as JSON strings into the editor of a request without a body.
fn bodies_come_back(texts: Vec<String>) {
    for t in texts {
        let saved = opened(Some(RequestBody::Text(t.clone()))).to_save();
        assert!(matches!(&saved.body, Some(RequestBody::Text(s)) if *s == t), "{t:?}");
        let mut e = opened(None);
        e.body_text = Value::from(t.as_str()).to_string();
        let saved = e.to_save();
        assert!(matches!(&saved.body, Some(RequestBody::Text(s)) if *s == t), "{t:?}");
    }
}

#[test]
fn variables_with_breaks_come_back() {
    variables_come_back(words(&['\n', ' ', 'a', '-', '#', ':', '\t'], 5));
}

#[test]
fn variables_with_rare_breaks_come_back() {
    variables_come_back(words(&['\n', ' ', 'a', '\u{2028}', '\u{2029}'], 5));
    variables_come_back(words(&['\n', ' ', 'a', '\r', '\u{85}', '.', '?'], 4));
}

#[test]
fn variables_with_quotes_come_back() {
    variables_come_back(words(&['\n', ' ', '-', '\u{2028}', '#', '\'', '"', '\\', ':'], 4));
}

#[test]
fn variables_of_every_character_come_back() {
    variables_come_back(every_character());
}

#[test]
fn random_variables_come_back() {
    variables_come_back(random_texts(6000));
}

#[test]
fn bodies_with_breaks_come_back() {
    bodies_come_back(words(&['\n', ' ', 'a', '-', '.', '\t', '"'], 4));
    bodies_come_back(words(&['\n', ' ', 'a', '\u{2028}', '\r', '\u{85}', '\u{feff}'], 4));
}

#[test]
fn bodies_that_read_as_something_else_come_back() {
    bodies_come_back(words(&['0', '1', '.', 'e', '-', '+', 'x', '_', '~'], 4));
}

#[test]
fn bodies_of_every_character_come_back() {
    bodies_come_back(every_character());
}

#[test]
fn random_bodies_come_back() {
    bodies_come_back(random_texts(6000));
}

#[test]
fn random_values_come_back() {
    values_come_back(random_values(4000).iter().map(|v| serde_yaml::to_string(v).unwrap()).collect());
}

#[test]
fn random_typed_values_are_saved() {
    typed_values_are_saved(random_values(4000).iter().map(|v| v.to_string()).collect());
}

#[test]
fn values_with_other_keys_and_tags_come_back() {
    let list = [
        "1: a\n'1': b\ntrue: c\n",
        "!tag\na: 1\n",
        "- !tag x\n- ! y\n",
        "1.5: x\n",
        "~",
        "true",
        "18446744073709551615",
        "-9223372036854775808",
        "- .nan\n- .inf\n",
        "? |\n  a\n  b\n: - 1\n  - 2\n",
        "'{\"!': '1.5 2e7'\n",
        "[]",
        "{}",
        "? [1]\n: x\n",
        "1.7151709517771863",
        "# a comment\na: b\n",
    ];
    values_come_back(list.iter().map(|t| t.to_string()).collect());
}

#[test]
fn typed_numbers_are_saved() {
    let list = [
        "1.5", "-0.0", "1e16", "1.0", "0.1", "1e-7", "1.7151709517771863", "123456789012345678901",
        "5e-324", "1.7976931348623155e308", "[1.5, {\"a\": 2e300}]", "null", "false",
    ];
    typed_values_are_saved(list.iter().map(|t| t.to_string()).collect());
}

#[test]
fn deep_values_come_back() {
    let deep = |n: usize, open: &str, close: &str| {
        format!("{}1{}", open.repeat(n), close.repeat(n))
    };
    typed_values_are_saved(vec![deep(127, "[", "]"), deep(127, "{\"a\":", "}")]);
    values_come_back(vec![deep(127, "[", "]"), deep(127, "{a: ", "}")]);
}

#[test]
fn values_that_json_cannot_hold_are_shown_for_debugging() {
    let e = opened(Some(RequestBody::Yaml("? [1]\n: x\n".to_string())));
    assert!(e.body_text.starts_with("Mapping {"), "{}", e.body_text);
    assert!(matches!(&e.to_save().body, Some(RequestBody::Yaml(y)) if y == "? [1]\n: x\n"));
    assert_eq!(opened(Some(RequestBody::Yaml("[1".to_string()))).body_text, "[1");
}
