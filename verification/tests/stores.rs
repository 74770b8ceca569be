use waas::session::SessionRegistry;
use waas::strmap::StrMap;

#[test]
fn strmap_insert_get_remove() {
    let mut m: StrMap<u64> = StrMap::new();
    assert!(m.get("a").is_none());
    assert!(!m.contains_key("a"));

    m.insert("a".to_string(), 1);
    m.insert("b".to_string(), 2);
    assert_eq!(m.get("a"), Some(&1));
    assert_eq!(m.get("b"), Some(&2));
    assert!(m.contains_key("b"));
    assert_eq!(m.num_entries(), 2);

    // Insert replaces: one entry per key.
    m.insert("a".to_string(), 10);
    assert_eq!(m.get("a"), Some(&10));
    assert_eq!(m.num_entries(), 2);

    assert_eq!(m.remove("a"), Some(10));
    assert_eq!(m.remove("a"), None);
    assert!(m.get("a").is_none());
    assert_eq!(m.num_entries(), 1);
}

#[test]
fn session_registry_lifecycle() {
    let mut reg = SessionRegistry::new();
    let token = reg.create(7);
    assert_eq!(token.len(), 16);
    assert!(token.chars().all(|c| (32..127).contains(&(c as u32))));
    assert_eq!(reg.resolve(&token), Some(7));
    assert_eq!(reg.resolve("not a live token!"), None);

    // Multiple sessions for one user are allowed and independent.
    let second = reg.create(7);
    assert_ne!(token, second);
    reg.destroy(&token);
    assert_eq!(reg.resolve(&token), None);
    assert_eq!(reg.resolve(&second), Some(7));
    // Destroying is idempotent.
    reg.destroy(&token);
    assert_eq!(reg.resolve(&second), Some(7));
}
