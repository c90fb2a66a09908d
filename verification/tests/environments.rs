use rnm::env::{EnvError, EnvManager, APP_NAME};

fn rows(list: &[(&str, &str)]) -> Vec<(String, String)> {
    list.iter().map(|(k, v)| (k.to_string(), v.to_string())).collect()
}

fn manager() -> EnvManager {
    EnvManager::new(true, None)
}

fn some(s: &str) -> Option<String> {
    Some(s.to_string())
}

#[test]
fn local_directory_goes_before_the_configuration_directory() {
    assert_eq!(EnvManager::new(true, some("/home/u/.config/rnm")).config_dir(), ".rnm");
    assert_eq!(
        EnvManager::new(false, some("/home/u/.config/rnm")).config_dir(),
        "/home/u/.config/rnm"
    );
    assert_eq!(EnvManager::new(false, None).config_dir(), ".rnm");
    assert_eq!(APP_NAME, "rnm");
}

#[test]
fn files_lie_under_the_configuration_directory() {
    let m = EnvManager::new(false, some("/c"));
    assert_eq!(m.get_active_env_path(), "/c/active_env");
    assert_eq!(m.get_env_dir(), "/c/env");
    assert_eq!(m.env_file_path("dev"), "/c/env/dev.yaml");
}

#[test]
fn active_name_is_trimmed_and_blank_counts_for_none() {
    let m = manager();
    assert_eq!(m.get_active_env_name(&None), None);
    assert_eq!(m.get_active_env_name(&some(" \n")), None);
    assert_eq!(m.get_active_env_name(&some(" dev\n")), some("dev"));
}

#[test]
fn activating_a_new_environment_writes_an_empty_one() {
    let m = manager();
    let writes = m.set_active_env(" dev ", false).ok().unwrap();
    assert_eq!(writes.len(), 2);
    assert_eq!(writes[0].path, ".rnm/env/ dev .yaml");
    assert_eq!(m.load_env(&Some(writes[0].text.clone())).ok().unwrap(), rows(&[]));
    assert_eq!((writes[1].path.as_str(), writes[1].text.as_str()), (".rnm/active_env", "dev"));
    assert_eq!(m.get_active_env_name(&Some(writes[1].text.clone())), some("dev"));
    let again = m.set_active_env("dev", true).ok().unwrap();
    assert_eq!(again.len(), 1);
}

#[test]
fn variables_are_read_from_yaml() {
    let m = manager();
    assert_eq!(m.load_env(&None).ok().unwrap(), rows(&[]));
    assert_eq!(
        m.load_env(&some("b: two\na: '1'\n")).ok().unwrap(),
        rows(&[("a", "1"), ("b", "two")])
    );
    let error = m.load_env(&some("[1, 2]")).err().unwrap();
    assert!(matches!(error, EnvError::Parse));
    assert_eq!(error.message(), "Failed to parse environment YAML file");
    assert_eq!(EnvError::Serialize("why".to_string()).message(), "why");
}

#[test]
fn active_variables_need_an_active_name() {
    let m = manager();
    assert_eq!(m.load_active_env(&None, &some("a: b")).ok().unwrap(), rows(&[]));
    assert_eq!(m.load_active_env(&some("dev"), &some("a: b")).ok().unwrap(), rows(&[("a", "b")]));
    assert!(m.load_active_env(&some("dev"), &some("]")).is_err());
}

#[test]
fn saved_variables_read_back() {
    let m = manager();
    let mut vars = Vec::new();
    for (i, value) in [
        "", " ", "plain", "true", "null", "~", "1", "1.5", "0x10", "1e3", "- a", "a: b", "a #b", "#",
        "'", "\"", "!t", "&a", "*a", "|", ">", "%x", "@x", "`x", "---", "...", " lead", "trail ",
        "{a}", "[a]", "a,b", "?", ":", "-", "<<", "yes", "2001-01-01", "{{token}}", "Bearer x.y-z",
    ]
    .iter()
    .enumerate()
    {
        vars.push((format!("k{i}"), value.to_string()));
        if !value.is_empty() {
            vars.push((value.to_string(), i.to_string()));
        }
    }
    vars.push((String::new(), "empty key".to_string()));
    for n in [127, 128, 129, 1023, 1024, 1025, 5000] {
        vars.push(("k".repeat(n), "v".repeat(n)));
        vars.push(("k y ".repeat(n), "v: w ".repeat(n)));
    }
    let write = m.save_env("dev", &vars).ok().unwrap();
    assert_eq!(write.path, ".rnm/env/dev.yaml");
    let mut expected = vars.clone();
    expected.sort();
    assert_eq!(m.load_env(&Some(write.text)).ok().unwrap(), expected);
}

#[test]
fn every_short_text_reads_back_as_a_value() {
    let m = manager();
    let printable: Vec<char> = (' '..='~').collect();
    let mut vars = Vec::new();
    for a in &printable {
        vars.push((format!("{a}"), format!("{a}")));
        for b in &printable {
            let text: String = [*a, *b].iter().collect();
            vars.push((text.clone(), text));
        }
    }
    let write = m.save_env("dev", &vars).ok().unwrap();
    vars.sort();
    assert!(m.load_env(&Some(write.text)).ok().unwrap() == vars);
}

#[test]
fn updating_a_variable_keeps_the_others() {
    let m = manager();
    let update = m.update_active_env_var(&some("dev\n"), &some("a: '1'\nb: '2'\n"), "a", "x");
    assert!(update.outcome.is_ok());
    assert_eq!(update.writes.len(), 1);
    assert_eq!(update.writes[0].path, ".rnm/env/dev.yaml");
    assert_eq!(
        m.load_env(&Some(update.writes[0].text.clone())).ok().unwrap(),
        rows(&[("a", "x"), ("b", "2")])
    );
    assert_eq!(m.update_target(&some("dev\n")), "dev");
}

#[test]
fn updating_without_an_active_environment_activates_default() {
    let m = manager();
    assert_eq!(m.update_target(&None), "default");
    let update = m.update_active_env_var(&None, &None, "token", "t");
    assert!(update.outcome.is_ok());
    let paths: Vec<&str> = update.writes.iter().map(|w| w.path.as_str()).collect();
    assert_eq!(paths, [".rnm/env/default.yaml", ".rnm/active_env", ".rnm/env/default.yaml"]);
    assert_eq!(update.writes[1].text, "default");
    assert_eq!(
        m.load_env(&Some(update.writes[2].text.clone())).ok().unwrap(),
        rows(&[("token", "t")])
    );
    let kept = m.update_active_env_var(&some(" "), &some("a: b"), "token", "t");
    assert_eq!(kept.writes.len(), 2);
    assert_eq!(
        m.load_env(&Some(kept.writes[1].text.clone())).ok().unwrap(),
        rows(&[("a", "b"), ("token", "t")])
    );
}

#[test]
fn updating_a_broken_file_fails() {
    let m = manager();
    let update = m.update_active_env_var(&some("dev"), &some("- 1"), "a", "x");
    assert!(matches!(update.outcome, Err(EnvError::Parse)));
    assert_eq!(update.writes.len(), 0);
    let other = m.update_active_env_var(&None, &some("- 1"), "a", "x");
    assert!(matches!(other.outcome, Err(EnvError::Parse)));
    assert_eq!(other.writes.len(), 1);
}

#[test]
fn environments_are_the_yaml_files() {
    let m = manager();
    let files: Vec<String> = ["env/dev.yaml", "env/prod.yml", "env/a.b.yaml", "env/.yaml", "env/x"]
        .iter()
        .map(|s| s.to_string())
        .collect();
    assert_eq!(m.list_envs(&files), ["dev", "a.b"]);
}

#[test]
fn placeholders_are_filled_in() {
    let m = manager();
    let vars = rows(&[("host", "example.com"), ("id", "7")]);
    assert_eq!(m.replace_variables("https://{{host}}/{{id}}/{{id}}", &vars), "https://example.com/7/7");
    assert_eq!(m.replace_variables("{{ host }} {{none}} {host}", &vars), "{{ host }} {{none}} {host}");
    assert_eq!(m.replace_variables("plain", &vars), "plain");
    let chained = rows(&[("a", "{{b}}"), ("b", "x")]);
    assert_eq!(m.replace_variables("{{a}}", &chained), "x");
}

#[test]
fn the_order_of_variables_does_not_matter() {
    let m = EnvManager::new(true, None);
    let pair = |k: &str, v: &str| (k.to_string(), v.to_string());
    let vars = vec![pair("a", "b"), pair("b", "c"), pair("json", "{\"x\": {}}"), pair("e", "")];
    let turned: Vec<(String, String)> = vars.iter().rev().cloned().collect();
    let text = "{ {{a}}{{b}}: [{{e}}], '{{json}}': {{none}} }";
    let filled = "{ bc: [], '{\"x\": {}}': {{none}} }";
    assert_eq!(m.replace_variables(text, &vars), filled);
    assert_eq!(m.replace_variables(text, &turned), filled);
    assert_eq!(m.replace_variables("{{{{a}}}}", &vars), "c");
    assert_eq!(m.replace_variables("{{{{a}}}}", &turned), "{{b}}");
}
