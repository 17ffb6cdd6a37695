use vkframe::input::{movement, InputState, Movement, KEY_CODE_COUNT};

#[test]
fn no_key_is_pressed_at_first() {
    let mut state = InputState::new();
    assert_eq!(state.keys_pressed_bitmask, 0);
    for key in 0..KEY_CODE_COUNT {
        assert!(!state.is_key_pressed(key));
    }
}

#[test]
fn pressing_sets_only_the_key() {
    let mut state = InputState::new();
    state.set_key_pressed(5, true);
    assert_eq!(state.keys_pressed_bitmask, 1 << 5);
    assert!(state.is_key_pressed(5));
    assert!(!state.is_key_pressed(4));
    assert!(!state.is_key_pressed(6));
    state.set_key_pressed(127, true);
    assert_eq!(state.keys_pressed_bitmask, (1u128 << 127) | (1 << 5));
    assert!(state.is_key_pressed(127));
}

#[test]
fn releasing_clears_only_the_key() {
    let mut state = InputState::new();
    state.set_key_pressed(0, true);
    state.set_key_pressed(64, true);
    state.set_key_pressed(0, false);
    assert!(!state.is_key_pressed(0));
    assert!(state.is_key_pressed(64));
    assert_eq!(state.keys_pressed_bitmask, 1u128 << 64);
}

#[test]
fn pressing_twice_and_releasing_twice_change_nothing_more() {
    let mut state = InputState::new();
    state.set_key_pressed(17, true);
    state.set_key_pressed(17, true);
    assert_eq!(state.keys_pressed_bitmask, 1 << 17);
    state.set_key_pressed(17, false);
    state.set_key_pressed(17, false);
    assert_eq!(state.keys_pressed_bitmask, 0);
}

#[test]
fn asking_leaves_the_state_as_it_is() {
    let mut state = InputState::new();
    state.set_key_pressed(3, true);
    let before = state.keys_pressed_bitmask;
    state.is_key_pressed(3);
    state.is_key_pressed(4);
    assert_eq!(state.keys_pressed_bitmask, before);
}

#[test]
fn movement_follows_the_key_that_is_pressed_alone() {
    assert_eq!(movement(true, false), Movement::Positive);
    assert_eq!(movement(false, true), Movement::Negative);
    assert_eq!(movement(false, false), Movement::Still);
    assert_eq!(movement(true, true), Movement::Still);
}
