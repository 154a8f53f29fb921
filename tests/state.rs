use character_card_copilot::state::CharacterStateManager;

#[test]
fn slot_starts_empty() {
    let s = CharacterStateManager::new();
    assert!(!s.has_active_character());
    assert_eq!(s.get_current_character(), None);
}

#[test]
fn set_replaces_and_clear_empties() {
    let mut s = CharacterStateManager::new();
    s.set_current_character("a".to_string()).unwrap();
    s.set_current_character("b".to_string()).unwrap();
    assert!(s.has_active_character());
    assert_eq!(s.get_current_character(), Some("b".to_string()));
    s.clear_current_character().unwrap();
    assert!(!s.has_active_character());
    assert_eq!(s.get_current_character(), None);
}
