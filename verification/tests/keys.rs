use leptos_radix_ui::hooks::{
    use_escape_key, use_escape_key_when, use_escape_key_with_config, use_focus_trap,
    use_focus_trap_detailed, use_focus_trap_with_config, use_key_combinations,
    use_outside_click, use_outside_click_multiple, use_outside_click_with_config,
    use_previous, use_previous_detailed, use_previous_with, KeyResponse, UseEscapeKeyConfig, UseFocusTrapConfig,
    UseOutsideClickConfig, UsePreviousWithReturn,
};

#[test]
fn escape_key() {
    assert!(use_escape_key("Escape"));
    assert!(!use_escape_key("Enter"));
    assert!(!use_escape_key("escape"));
    assert!(use_escape_key_when(true, "Escape"));
    assert!(!use_escape_key_when(false, "Escape"));
    assert!(!use_escape_key_when(true, "a"));
}

#[test]
fn escape_key_default_config() {
    let c = UseEscapeKeyConfig::default();
    assert!(!c.prevent_default);
    assert!(!c.stop_propagation);
    assert!(c.enabled);
    assert!(c.additional_keys.is_empty());
    assert_eq!(
        use_escape_key_with_config(&c, "Escape"),
        KeyResponse { handled: true, prevent_default: false, stop_propagation: false }
    );
    assert_eq!(
        use_escape_key_with_config(&c, "Enter"),
        KeyResponse { handled: false, prevent_default: false, stop_propagation: false }
    );
}

#[test]
fn escape_key_with_more_keys() {
    let c = UseEscapeKeyConfig {
        prevent_default: true,
        stop_propagation: true,
        enabled: true,
        additional_keys: vec!["Enter".to_string(), "q".to_string()],
    };
    let all = KeyResponse { handled: true, prevent_default: true, stop_propagation: true };
    let nothing = KeyResponse { handled: false, prevent_default: false, stop_propagation: false };
    assert_eq!(use_escape_key_with_config(&c, "Escape"), all);
    assert_eq!(use_escape_key_with_config(&c, "Enter"), all);
    assert_eq!(use_escape_key_with_config(&c, "q"), all);
    assert_eq!(use_escape_key_with_config(&c, "Q"), nothing);
    let off = UseEscapeKeyConfig { enabled: false, ..c };
    assert_eq!(use_escape_key_with_config(&off, "Escape"), nothing);
    assert_eq!(use_escape_key_with_config(&off, "q"), nothing);
}

#[test]
fn first_listener_for_a_key_is_called() {
    let keys = vec!["Escape", "Enter", "ArrowDown", "Enter"];
    assert_eq!(use_key_combinations(&keys, "Escape"), Some(0));
    assert_eq!(use_key_combinations(&keys, "Enter"), Some(1));
    assert_eq!(use_key_combinations(&keys, "ArrowDown"), Some(2));
    assert_eq!(use_key_combinations(&keys, "ArrowUp"), None);
    assert_eq!(use_key_combinations(&vec![], "Escape"), None);
}

#[test]
fn focus_trap() {
    let c = UseFocusTrapConfig::default();
    assert!(c.auto_focus && c.restore_focus && c.enabled);
    assert!(c.focusable_selector.is_none());
    assert!(use_focus_trap(true, true));
    assert!(!use_focus_trap(true, false));
    assert!(!use_focus_trap(false, true));
    assert!(use_focus_trap_with_config(&c, true));
    assert!(!use_focus_trap_with_config(&c, false));
    let off = UseFocusTrapConfig { enabled: false, ..c };
    assert!(!use_focus_trap_with_config(&off, true));
    let mut t = use_focus_trap_detailed();
    assert!(!t.is_active);
    assert!(!t.is_set(true));
    t.activate();
    assert!(t.is_active);
    assert!(t.is_set(true));
    assert!(!t.is_set(false));
    t.deactivate();
    assert!(!t.is_active);
}

#[test]
fn outside_click() {
    assert!(use_outside_click(false));
    assert!(!use_outside_click(true));
    assert!(use_outside_click_multiple(&vec![false, false]));
    assert!(!use_outside_click_multiple(&vec![false, true]));
    assert!(!use_outside_click_multiple(&vec![true]));
    assert!(!use_outside_click_multiple(&vec![]));
    let c = UseOutsideClickConfig::default();
    assert!(!c.capture);
    assert!(c.enabled);
    assert_eq!(c.events, vec!["click"]);
    assert!(use_outside_click_with_config(&c, false));
    assert!(!use_outside_click_with_config(&c, true));
    let off = UseOutsideClickConfig { enabled: false, ..c };
    assert!(!use_outside_click_with_config(&off, false));
}

#[test]
fn previous_value() {
    let mut previous: Option<u32> = None;
    use_previous(&mut previous, 0);
    assert_eq!(previous, Some(0));
    use_previous(&mut previous, 5);
    assert_eq!(previous, Some(5));
}

#[test]
fn previous_value_with_a_rule() {
    let differs_by_ten = |a: &u32, b: &u32| a / 10 != b / 10;
    let mut t = UsePreviousWithReturn::new();
    use_previous_with(&mut t, 1u32, differs_by_ten);
    assert_eq!((t.previous, t.last_value), (None, Some(1)));
    use_previous_with(&mut t, 2, differs_by_ten);
    assert_eq!((t.previous, t.last_value), (None, Some(2)));
    use_previous_with(&mut t, 12, differs_by_ten);
    assert_eq!((t.previous, t.last_value), (Some(2), Some(12)));
    use_previous_with(&mut t, 13, differs_by_ten);
    assert_eq!((t.previous, t.last_value), (Some(2), Some(13)));
    use_previous_with(&mut t, 3, differs_by_ten);
    assert_eq!((t.previous, t.last_value), (Some(13), Some(3)));
}

#[test]
fn previous_value_in_detail() {
    let mut t = use_previous_detailed::<u32>();
    assert_eq!((t.previous, t.has_changed, t.is_first_render), (None, false, true));
    t.observe(0);
    assert_eq!((t.previous, t.has_changed, t.is_first_render), (Some(0), false, true));
    t.observe(5);
    assert_eq!((t.previous, t.has_changed, t.is_first_render), (Some(5), true, false));
    t.observe(5);
    assert_eq!((t.previous, t.has_changed, t.is_first_render), (Some(5), false, false));
}
