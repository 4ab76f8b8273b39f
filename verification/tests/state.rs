use text_input::text_input::{State, Value};

#[test]
fn new_state_is_unfocused_at_the_start() {
    let state = State::new();
    assert!(!state.is_focused());
    assert!(!state.is_pasting());
    assert_eq!(state.cursor_position(&Value::new("abc")), 0);
}

#[test]
fn default_state_is_a_new_state() {
    let state = State::default();
    assert!(!state.is_focused());
    assert_eq!(state.cursor_position(&Value::new("abc")), 0);
}

#[test]
fn focused_state_has_the_caret_at_the_end_of_any_value() {
    let state = State::focused();
    assert!(state.is_focused());
    assert_eq!(state.cursor_position(&Value::new("abc")), 3);
    assert_eq!(state.cursor_position(&Value::new("")), 0);
    assert_eq!(state.cursor_position(&Value::new("e\u{301}x")), 2);
}

#[test]
fn cursor_position_is_clamped_after_the_value_shrank() {
    let mut state = State::new();
    state.move_cursor_to(5);
    assert_eq!(state.cursor_position(&Value::new("hello")), 5);
    assert_eq!(state.cursor_position(&Value::new("he")), 2);
}

#[test]
fn move_cursor_left_stops_at_the_start() {
    let value = Value::new("ab");
    let mut state = State::focused();
    state.move_cursor_left(&value);
    assert_eq!(state.cursor_position(&value), 1);
    state.move_cursor_left(&value);
    assert_eq!(state.cursor_position(&value), 0);
    state.move_cursor_left(&value);
    assert_eq!(state.cursor_position(&value), 0);
}

#[test]
fn move_cursor_right_stops_at_the_end() {
    let value = Value::new("ab");
    let mut state = State::new();
    state.move_cursor_right(&value);
    assert_eq!(state.cursor_position(&value), 1);
    state.move_cursor_right(&value);
    assert_eq!(state.cursor_position(&value), 2);
    state.move_cursor_right(&value);
    assert_eq!(state.cursor_position(&value), 2);
}

#[test]
fn move_cursor_right_by_amount_moves_all_the_way_or_not_at_all() {
    let value = Value::new("abcde");
    let mut state = State::new();
    state.move_cursor_right_by_amount(&value, 3);
    assert_eq!(state.cursor_position(&value), 3);
    state.move_cursor_right_by_amount(&value, 3);
    assert_eq!(state.cursor_position(&value), 3);
    state.move_cursor_right_by_amount(&value, 2);
    assert_eq!(state.cursor_position(&value), 5);
    state.move_cursor_right_by_amount(&value, usize::MAX);
    assert_eq!(state.cursor_position(&value), 5);
    state.move_cursor_right_by_amount(&value, 0);
    assert_eq!(state.cursor_position(&value), 5);
}

#[test]
fn move_cursor_by_words() {
    let value = Value::new("hello world foo");
    let mut state = State::focused();
    state.move_cursor_left_by_words(&value);
    assert_eq!(state.cursor_position(&value), 12);
    state.move_cursor_left_by_words(&value);
    assert_eq!(state.cursor_position(&value), 6);
    state.move_cursor_left_by_words(&value);
    assert_eq!(state.cursor_position(&value), 0);
    state.move_cursor_left_by_words(&value);
    assert_eq!(state.cursor_position(&value), 0);
    state.move_cursor_right_by_words(&value);
    assert_eq!(state.cursor_position(&value), 5);
    state.move_cursor_right_by_words(&value);
    assert_eq!(state.cursor_position(&value), 11);
    state.move_cursor_right_by_words(&value);
    assert_eq!(state.cursor_position(&value), 15);
    state.move_cursor_right_by_words(&value);
    assert_eq!(state.cursor_position(&value), 15);
}

#[test]
fn move_cursor_to_end_goes_to_the_length() {
    let value = Value::new("e\u{301}bc");
    let mut state = State::new();
    state.move_cursor_to_end(&value);
    assert_eq!(state.cursor_position(&value), 3);
}

#[test]
fn set_focus_and_set_pasting_change_nothing_else() {
    let value = Value::new("abc");
    let mut state = State::new();
    state.move_cursor_to(2);
    state.set_focus(true);
    assert!(state.is_focused());
    state.set_pasting(Some(Value::new("xy")));
    assert!(state.is_pasting());
    assert_eq!(state.cursor_position(&value), 2);
    state.set_pasting(None);
    assert!(!state.is_pasting());
    state.set_focus(false);
    assert!(!state.is_focused());
    assert_eq!(state.cursor_position(&value), 2);
}

#[test]
fn clone_of_a_state_holds_the_same() {
    let value = Value::new("abc");
    let mut state = State::focused();
    state.move_cursor_to(1);
    state.set_pasting(Some(Value::new("xy")));
    let copy = state.clone();
    assert!(copy.is_focused());
    assert!(copy.is_pasting());
    assert_eq!(copy.cursor_position(&value), 1);
}
