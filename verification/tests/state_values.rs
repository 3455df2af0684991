use redux_store::state::State;

#[test]
fn a_new_state_is_empty() {
    let s = State::new();
    assert!(s.is_empty());
    assert_eq!(s.len(), 0);
    assert_eq!(s.get(&"count".to_string()), None);
}

#[test]
fn inserted_entries_are_found() {
    let mut s = State::new();
    s.insert("count".to_string(), 3);
    s.insert("other".to_string(), -7);
    assert_eq!(s.len(), 2);
    assert_eq!(s.get(&"count".to_string()), Some(3));
    assert_eq!(s.get(&"other".to_string()), Some(-7));
    assert_eq!(s.get(&"missing".to_string()), None);
}

#[test]
fn inserting_an_existing_key_replaces_its_value() {
    let mut s = State::new();
    s.insert("count".to_string(), 3);
    s.insert("count".to_string(), 8);
    assert_eq!(s.len(), 1);
    assert_eq!(s.get(&"count".to_string()), Some(8));
}

#[test]
fn a_duplicate_is_independent_of_the_original() {
    let mut s = State::new();
    s.insert("count".to_string(), 3);
    let mut copy = s.duplicate();
    assert_eq!(copy.get(&"count".to_string()), Some(3));
    copy.insert("count".to_string(), 4);
    assert_eq!(s.get(&"count".to_string()), Some(3));
    assert_eq!(copy.get(&"count".to_string()), Some(4));
}
