use vaultd::document::{environment_from_table, load_store, save_document, store_from_table, SaveError};
use vaultd::store::Store;

fn vars(pairs: &[(&str, &str)]) -> Vec<(String, String)> {
    pairs.iter().map(|(k, v)| (k.to_string(), v.to_string())).collect()
}

fn env_pairs(store: &Store, name: &str) -> Option<Vec<(String, String)>> {
    store.get(name).map(|e| {
        let mut p = e.to_pairs();
        p.sort();
        p
    })
}

#[test]
fn load_tables_as_environments() {
    let s = load_store("[dev]\nAPI_KEY = \"abc\"\nPORT = 8080\n\n[prod]\nAPI_KEY = \"xyz\"\n");
    let mut names = s.list_names();
    names.sort();
    assert_eq!(names, vec!["dev".to_string(), "prod".to_string()]);
    assert_eq!(env_pairs(&s, "dev"), Some(vars(&[("API_KEY", "abc")])));
    assert_eq!(env_pairs(&s, "prod"), Some(vars(&[("API_KEY", "xyz")])));
}

#[test]
fn load_top_level_strings_as_global() {
    let s = load_store("TOKEN = \"t\"\nCOUNT = 3\n\n[dev]\nA = \"1\"\n");
    assert_eq!(env_pairs(&s, "global"), Some(vars(&[("TOKEN", "t")])));
    assert_eq!(env_pairs(&s, "dev"), Some(vars(&[("A", "1")])));
}

#[test]
fn load_without_top_level_strings_has_no_global() {
    let s = load_store("COUNT = 3\n[dev]\nA = \"1\"\n");
    assert!(s.get("global").is_none());
    assert_eq!(s.list_names(), vec!["dev".to_string()]);
}

#[test]
fn load_table_named_global_wins() {
    let s = load_store("TOKEN = \"t\"\n[global]\nA = \"1\"\n");
    assert_eq!(env_pairs(&s, "global"), Some(vars(&[("A", "1")])));
}

#[test]
fn load_invalid_text_is_empty() {
    let s = load_store("[dev\nA = ");
    assert!(s.list_names().is_empty());
    let s = load_store("");
    assert!(s.list_names().is_empty());
}

#[test]
fn table_functions_read_parsed_tables() {
    let t: toml::Table = "X = \"1\"\n[inner]\nY = \"2\"\nZ = true\n".parse().unwrap();
    let s = store_from_table(&t);
    assert_eq!(env_pairs(&s, "inner"), Some(vars(&[("Y", "2")])));
    assert_eq!(env_pairs(&s, "global"), Some(vars(&[("X", "1")])));
    let inner = t["inner"].as_table().unwrap();
    let e = environment_from_table(inner);
    assert_eq!(e.to_pairs(), vars(&[("Y", "2")]));
}

#[test]
fn save_then_load_round_trip() {
    let text = "[dev]\nAPI_KEY = \"abc\"\n";
    let out = save_document(text, "prod", &vars(&[("K", "V"), ("Q", "it's \"quoted\"")])).ok().unwrap();
    let s = load_store(&out);
    assert_eq!(env_pairs(&s, "prod"), Some(vars(&[("K", "V"), ("Q", "it's \"quoted\"")])));
    assert_eq!(env_pairs(&s, "dev"), Some(vars(&[("API_KEY", "abc")])));
}

#[test]
fn save_replaces_whole_environment() {
    let text = "[dev]\nOLD = \"1\"\nKEEP_ME_NOT = \"2\"\n[other]\nN = 5\n";
    let out = save_document(text, "dev", &vars(&[("NEW", "x")])).ok().unwrap();
    let s = load_store(&out);
    assert_eq!(env_pairs(&s, "dev"), Some(vars(&[("NEW", "x")])));
    assert!(out.contains("N = 5"));
}

#[test]
fn save_twice_same_as_once() {
    let text = "A = \"top\"\n[dev]\nX = \"1\"\n";
    let v = vars(&[("K", "V")]);
    let once = save_document(text, "dev", &v).ok().unwrap();
    let twice = save_document(&once, "dev", &v).ok().unwrap();
    let s1 = load_store(&once);
    let s2 = load_store(&twice);
    let mut n1 = s1.list_names();
    let mut n2 = s2.list_names();
    n1.sort();
    n2.sort();
    assert_eq!(n1, n2);
    for n in n1 {
        assert_eq!(env_pairs(&s1, &n), env_pairs(&s2, &n));
    }
}

#[test]
fn save_into_empty_document() {
    let out = save_document("", "dev", &vars(&[("A", "1")])).ok().unwrap();
    let s = load_store(&out);
    assert_eq!(env_pairs(&s, "dev"), Some(vars(&[("A", "1")])));
}

#[test]
fn save_into_invalid_document_fails() {
    match save_document("[dev\n", "dev", &vars(&[("A", "1")])) {
        Err(SaveError::Parse(m)) => assert!(!m.is_empty()),
        _ => panic!("expected a parse error"),
    }
}

#[test]
fn save_empty_environment_is_kept() {
    let out = save_document("[dev]\nA = \"1\"\n", "empty", &vars(&[])).ok().unwrap();
    let s = load_store(&out);
    assert_eq!(env_pairs(&s, "empty"), Some(vec![]));
    assert_eq!(env_pairs(&s, "dev"), Some(vars(&[("A", "1")])));
}

#[test]
fn save_keeps_nested_and_odd_values() {
    let text = "T = 1979-05-27T07:32:00Z\nF = nan\n[a.b]\nX = \"x\"\n[[arr]]\nN = 1\n";
    let out = save_document(text, "dev", &vars(&[("K", "line1\nline2\t'\\"), ("key with space", "v")])).ok().unwrap();
    let s = load_store(&out);
    assert_eq!(env_pairs(&s, "dev"), Some(vars(&[("K", "line1\nline2\t'\\"), ("key with space", "v")])));
    let reparsed: toml::Table = out.parse().unwrap();
    let original: toml::Table = text.parse().unwrap();
    assert_eq!(reparsed["a"], original["a"]);
    assert_eq!(reparsed["arr"], original["arr"]);
    assert_eq!(reparsed["T"], original["T"]);
}

#[test]
fn save_refuses_text_that_would_not_read_back() {
    let header: Vec<String> = (1..=79).map(|i| format!("k{}", i)).collect();
    let text = format!("[{}]\nx.y = \"v\"\n", header.join("."));
    assert!(text.parse::<toml::Table>().is_ok());
    match save_document(&text, "dev", &vars(&[("A", "1")])) {
        Err(SaveError::Render(m)) => assert!(!m.is_empty()),
        Ok(out) => assert!(out.parse::<toml::Table>().is_ok()),
        Err(SaveError::Parse(_)) => panic!("the input is valid TOML"),
    }
}
