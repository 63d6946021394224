use kanata::keys::OsCode;
use kanata::keyset::KeySet;

#[test]
fn new_set_is_empty() {
    let set = KeySet::new();
    assert!(set.is_empty());
    assert_eq!(set.len(), 0);
    assert!(!set.contains(OsCode::KEY_A));
}

#[test]
fn insert_says_whether_the_code_was_new() {
    let mut set = KeySet::new();
    assert!(set.insert(OsCode::KEY_A));
    assert!(!set.insert(OsCode::KEY_A));
    assert!(set.insert(OsCode::KEY_B));
    assert_eq!(set.len(), 2);
    assert!(set.contains(OsCode::KEY_A));
    assert!(set.contains(OsCode::KEY_B));
    assert!(!set.contains(OsCode::KEY_C));
    assert!(!set.is_empty());
}

#[test]
fn remove_says_whether_the_code_was_there() {
    let mut set = KeySet::new();
    set.insert(OsCode::KEY_A);
    set.insert(OsCode::KEY_B);
    set.insert(OsCode::KEY_C);
    assert!(set.remove(OsCode::KEY_B));
    assert!(!set.remove(OsCode::KEY_B));
    assert!(!set.remove(OsCode::KEY_Z));
    assert_eq!(set.len(), 2);
    assert!(set.contains(OsCode::KEY_A));
    assert!(!set.contains(OsCode::KEY_B));
    assert!(set.contains(OsCode::KEY_C));
}

#[test]
fn from_codes_counts_each_code_once() {
    let codes = vec![OsCode::KEY_A, OsCode::KEY_B, OsCode::KEY_A, OsCode::KEY_ESC, OsCode::KEY_B];
    let set = KeySet::from_codes(&codes);
    assert_eq!(set.len(), 3);
    assert!(set.contains(OsCode::KEY_A));
    assert!(set.contains(OsCode::KEY_B));
    assert!(set.contains(OsCode::KEY_ESC));
    assert!(!set.contains(OsCode::KEY_SPACE));
    assert!(KeySet::from_codes(&Vec::new()).is_empty());
}
