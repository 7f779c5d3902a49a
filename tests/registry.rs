use smartcard::registry::CardRegistry;

#[test]
fn registry_lookup_is_exact() {
    let mut r = CardRegistry::new();
    assert_eq!(r.lookup(&[1, 2, 3]), None);
    r.insert(vec![1, 2, 3], "three".to_string());
    r.insert(vec![1, 2], "two".to_string());
    assert_eq!(r.lookup(&[1, 2, 3]), Some("three".to_string()));
    assert_eq!(r.lookup(&[1, 2]), Some("two".to_string()));
    assert_eq!(r.lookup(&[1]), None);
    assert_eq!(r.lookup(&[1, 2, 3, 4]), None);
    assert_eq!(r.lookup(&[]), None);
}

#[test]
fn registry_later_entry_replaces_earlier() {
    let mut r = CardRegistry::new();
    r.insert(vec![9], "old".to_string());
    r.insert(vec![8], "other".to_string());
    r.insert(vec![9], "new".to_string());
    assert_eq!(r.lookup(&[9]), Some("new".to_string()));
    assert_eq!(r.lookup(&[8]), Some("other".to_string()));
}

#[test]
fn registry_empty_signature_is_a_key() {
    let mut r = CardRegistry::new();
    r.insert(Vec::new(), "no history".to_string());
    assert_eq!(r.lookup(&[]), Some("no history".to_string()));
}
