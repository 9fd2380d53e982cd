use vaultd::environment::Environment;
use vaultd::store::Store;

fn env_of(pairs: &[(&str, &str)]) -> Environment {
    Environment::from_pairs(pairs.iter().map(|(k, v)| (k.to_string(), v.to_string())).collect())
}

#[test]
fn environment_insert_replaces_in_place() {
    let mut e = Environment::new();
    e.insert("A".to_string(), "1".to_string());
    e.insert("B".to_string(), "2".to_string());
    e.insert("A".to_string(), "3".to_string());
    assert_eq!(e.len(), 2);
    assert_eq!(
        e.pairs(),
        &vec![("A".to_string(), "3".to_string()), ("B".to_string(), "2".to_string())]
    );
    assert_eq!(e.get("A"), Some(&"3".to_string()));
    assert_eq!(e.get("C"), None);
}

#[test]
fn environment_remove() {
    let mut e = env_of(&[("A", "1"), ("B", "2"), ("C", "3")]);
    assert!(e.remove("B"));
    assert!(!e.remove("B"));
    assert_eq!(
        e.to_pairs(),
        vec![("A".to_string(), "1".to_string()), ("C".to_string(), "3".to_string())]
    );
}

#[test]
fn environment_from_pairs_last_wins() {
    let e = env_of(&[("K", "first"), ("L", "x"), ("K", "second")]);
    assert_eq!(e.len(), 2);
    assert_eq!(e.get("K"), Some(&"second".to_string()));
}

#[test]
fn store_put_get_list() {
    let mut s = Store::new();
    assert!(s.list_names().is_empty());
    s.put("dev".to_string(), env_of(&[("A", "1")]));
    s.put("prod".to_string(), env_of(&[("B", "2")]));
    assert_eq!(s.list_names(), vec!["dev".to_string(), "prod".to_string()]);
    s.put("dev".to_string(), env_of(&[("C", "3")]));
    assert_eq!(s.list_names(), vec!["dev".to_string(), "prod".to_string()]);
    let dev = s.get("dev").unwrap();
    assert_eq!(dev.pairs(), &vec![("C".to_string(), "3".to_string())]);
    assert!(s.get("staging").is_none());
}
