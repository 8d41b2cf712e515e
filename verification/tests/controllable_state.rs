use leptos_radix_ui::hooks::{use_controllable_state, CheckedState};

#[test]
fn controlled_state_keeps_the_value_from_outside() {
    let mut state = use_controllable_state(Some(7u32), Some(1u32));
    assert!(state.is_controlled());
    assert_eq!(state.value(), 7);
    for y in [0u32, 1, 2, 7, 99] {
        assert_eq!(state.set_value(y), y);
        assert_eq!(state.value(), 7);
        assert!(state.is_controlled());
    }
}

#[test]
fn uncontrolled_state_follows_the_requests() {
    let mut state = use_controllable_state(None, Some(5u32));
    assert!(!state.is_controlled());
    assert_eq!(state.value(), 5);
    assert_eq!(state.set_value(9), 9);
    assert_eq!(state.value(), 9);
    assert_eq!(state.set_value(3), 3);
    assert_eq!(state.value(), 3);
}

#[test]
fn missing_default_is_the_types_default() {
    let state = use_controllable_state::<u32>(None, None);
    assert_eq!(state.value(), 0);
    let state = use_controllable_state::<bool>(None, None);
    assert!(!state.value());
    let state = use_controllable_state::<CheckedState>(None, None);
    assert_eq!(state.value(), CheckedState::False);
    assert_eq!(CheckedState::default(), CheckedState::False);
}

#[test]
fn every_request_is_announced() {
    let mut controlled = use_controllable_state(Some(true), None);
    let mut uncontrolled = use_controllable_state(None, Some(true));
    let mut heard: Vec<bool> = Vec::new();
    heard.push(controlled.set_value(false));
    heard.push(uncontrolled.set_value(false));
    heard.push(uncontrolled.set_value(false));
    assert_eq!(heard, vec![false, false, false]);
    assert!(controlled.value());
    assert!(!uncontrolled.value());
}
