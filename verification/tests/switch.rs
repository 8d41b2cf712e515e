use leptos_radix_ui::components::{
    get_aria_disabled, get_aria_required, get_data_disabled, get_switch_classes,
    get_switch_thumb_classes, handle_switch_click, handle_switch_keydown,
};
use leptos_radix_ui::hooks::use_switch_state;
use leptos_radix_ui::{Switch, SwitchThumb};

#[test]
fn toggle_is_an_involution() {
    for start in [false, true] {
        let mut s = use_switch_state(None, Some(start));
        assert_eq!(s.toggle(), !start);
        assert_eq!(s.checked(), !start);
        assert_eq!(s.toggle(), start);
        assert_eq!(s.checked(), start);
    }
}

#[test]
fn switch_starts_off() {
    let s = use_switch_state(None, None);
    assert!(!s.checked());
    assert!(!s.is_controlled());
    assert_eq!(s.get_aria_checked(), "false");
    assert_eq!(s.get_state_attr(), "unchecked");
    assert_eq!(s.get_form_value(), "");
}

#[test]
fn switch_that_is_on() {
    let s = use_switch_state(None, Some(true));
    assert_eq!(s.get_aria_checked(), "true");
    assert_eq!(s.get_state_attr(), "checked");
    assert_eq!(s.get_form_value(), "on");
}

#[test]
fn controlled_switch_announces_but_does_not_change() {
    let mut s = use_switch_state(Some(true), Some(false));
    assert!(s.is_controlled());
    assert_eq!(s.toggle(), false);
    assert!(s.checked());
    assert_eq!(s.toggle(), false);
    assert!(s.checked());
}

#[test]
fn disabled_switch_ignores_click_and_keys() {
    let mut s = use_switch_state(None, None);
    assert_eq!(handle_switch_click(true, &mut s), None);
    assert_eq!(handle_switch_keydown(true, &mut s, "Enter"), None);
    assert!(!s.checked());
    assert_eq!(handle_switch_click(false, &mut s), Some(true));
    assert_eq!(handle_switch_keydown(false, &mut s, " "), Some(false));
    assert_eq!(handle_switch_keydown(false, &mut s, "Enter"), Some(true));
    assert_eq!(handle_switch_keydown(false, &mut s, "Escape"), None);
    assert!(s.checked());
}

#[test]
fn attribute_helpers() {
    assert_eq!(get_aria_disabled(true), Some("true"));
    assert_eq!(get_aria_disabled(false), None);
    assert_eq!(get_aria_required(true), Some("true"));
    assert_eq!(get_aria_required(false), None);
    assert_eq!(get_data_disabled(true), Some(""));
    assert_eq!(get_data_disabled(false), None);
}

#[test]
fn switch_attributes() {
    let mut s = Switch::new(
        None,
        Some(true),
        None,
        None,
        None,
        Some("yes".to_string()),
        Some("f".to_string()),
        Some("wifi".to_string()),
        None,
    );
    assert_eq!(s.id, "wifi");
    assert_eq!(s.value, "yes");
    assert_eq!(s.role(), "switch");
    assert_eq!(s.form(), Some("f"));
    assert_eq!(s.name(), None);
    assert!(s.input_checked());
    assert_eq!(s.aria_checked(), "true");
    assert_eq!(s.data_state(), "checked");
    assert_eq!(s.aria_disabled(), None);
    assert_eq!(s.aria_required(), None);
    assert_eq!(s.data_disabled(), None);
    assert_eq!(s.click(), Some(false));
    assert_eq!(s.data_state(), "unchecked");
    assert_eq!(s.keydown(" "), Some(true));
    assert_eq!(s.keydown("q"), None);
    assert!(s.context().checked);
    assert_eq!(s.class(), get_switch_classes(String::new()));

    let def = Switch::new(None, None, None, None, None, None, None, None, None);
    assert_eq!(def.id, "switch");
    assert_eq!(def.value, "on");
    assert!(!def.input_checked());
}

#[test]
fn switch_classes() {
    assert_eq!(
        get_switch_classes("w-full".to_string()),
        "relative inline-flex h-6 w-11 shrink-0 items-center rounded-full border-0 transition-all duration-150 ease-in-out shadow-sm focus:outline-none focus:ring-2 focus:ring-black focus:ring-offset-0 data-[state=checked]:bg-black data-[state=unchecked]:bg-[#221B3E] data-[disabled]:opacity-50 data-[disabled]:cursor-not-allowed w-full"
    );
    assert_eq!(
        get_switch_thumb_classes(String::new()),
        "pointer-events-none block h-5 w-5 rounded-full bg-white shadow-lg ring-0 transition-transform duration-150 ease-in-out data-[state=checked]:translate-x-5.5 data-[state=unchecked]:translate-x-0.5 "
    );
}

#[test]
fn thumb_reads_the_switch_or_falls_back() {
    let thumb = SwitchThumb::new(None);
    assert_eq!(thumb.data_state(None), "unchecked");
    assert_eq!(thumb.data_disabled(None), None);
    let on = Switch::new(Some(true), None, Some(true), None, None, None, None, None, None);
    let ctx = on.context();
    assert_eq!(thumb.data_state(Some(&ctx)), "checked");
    assert_eq!(thumb.data_disabled(Some(&ctx)), Some(""));
    let off = Switch::new(None, None, None, None, None, None, None, None, None);
    let ctx = off.context();
    assert_eq!(thumb.data_state(Some(&ctx)), "unchecked");
    assert_eq!(thumb.data_disabled(Some(&ctx)), None);
    assert_eq!(thumb.class(), get_switch_thumb_classes(String::new()));
}
