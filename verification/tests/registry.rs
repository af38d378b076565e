//! Tests of the name-keyed registry on its own.

use glwfr::registry::Registry;
use glwfr::sound::Sound;

#[test]
fn empty_registry_has_no_names() {
    let reg: Registry<Sound> = Registry::new();
    assert_eq!(reg.len(), 0);
    assert!(!reg.contains("a"));
    assert!(reg.get("a").is_none());
}

#[test]
fn insert_binds_and_replaces() {
    let mut reg: Registry<Sound> = Registry::new();
    reg.insert("a", Sound::new(vec![1]));
    reg.insert("b", Sound::new(vec![2, 2]));
    assert_eq!(reg.len(), 2);
    assert!(reg.contains("a"));
    assert!(reg.contains("b"));
    assert_eq!(reg.get("a").unwrap().len(), 1);
    assert_eq!(reg.get("b").unwrap().len(), 2);

    // Re-binding an existing name replaces the value without growing.
    reg.insert("a", Sound::new(vec![3, 3, 3]));
    assert_eq!(reg.len(), 2);
    assert_eq!(reg.get("a").unwrap().len(), 3);
}

#[test]
fn lookup_distinguishes_similar_names() {
    let mut reg: Registry<Sound> = Registry::new();
    reg.insert("door", Sound::new(vec![1]));
    assert!(!reg.contains("doo"));
    assert!(!reg.contains("doors"));
    assert!(!reg.contains(""));
    reg.insert("", Sound::new(Vec::new()));
    assert!(reg.contains(""));
    assert_eq!(reg.len(), 2);
}
