use leptos_radix_ui::hooks::{
    use_custom_id_pattern, use_form_ids, use_id, use_id_with_prefix, use_related_ids,
    use_stable_id, IdGenerator,
};
use leptos_radix_ui::text::append_decimal;

#[test]
fn ids_are_numbered_in_order() {
    let mut ids = IdGenerator::new();
    assert_eq!(use_id(&mut ids), "leptos-radix-0");
    assert_eq!(use_id(&mut ids), "leptos-radix-1");
    assert_eq!(use_id_with_prefix(&mut ids, "dialog"), "dialog-2");
    assert_eq!(use_id_with_prefix(&mut ids, "button"), "button-3");
    assert_eq!(ids.take(), 4);
    assert_eq!(use_id(&mut ids), "leptos-radix-5");
}

#[test]
fn two_generators_do_not_disturb_each_other() {
    let mut a = IdGenerator::new();
    let mut b = IdGenerator::new();
    assert_eq!(use_id(&mut a), use_id(&mut b));
    assert_eq!(use_id(&mut a), "leptos-radix-1");
    assert_eq!(use_id(&mut b), "leptos-radix-1");
}

#[test]
fn related_ids_share_one_number() {
    let mut ids = IdGenerator::starting_at(12);
    let r = use_related_ids(&mut ids, "tooltip");
    assert_eq!(r.base_id, "tooltip-12");
    assert_eq!(r.trigger_id, "tooltip-12-trigger");
    assert_eq!(r.content_id, "tooltip-12-content");
    assert_eq!(r.label_id, "tooltip-12-label");
    assert_eq!(r.description_id, "tooltip-12-description");
    assert_eq!(use_id(&mut ids), "leptos-radix-13");
}

#[test]
fn form_ids_share_one_number() {
    let mut ids = IdGenerator::starting_at(100);
    let f = use_form_ids(&mut ids, "username");
    assert_eq!(f.input_id, "username-100-input");
    assert_eq!(f.label_id, "username-100-label");
    assert_eq!(f.description_id, "username-100-description");
    assert_eq!(f.error_id, "username-100-error");
    assert_eq!(ids.take(), 101);
}

#[test]
fn custom_pattern() {
    let mut ids = IdGenerator::starting_at(1);
    let got = use_custom_id_pattern(&mut ids, "modal", vec!["header", "body", "footer"]);
    assert_eq!(got, vec!["modal-1-header", "modal-1-body", "modal-1-footer"]);
    let none = use_custom_id_pattern(&mut ids, "modal", vec![]);
    assert!(none.is_empty());
    assert_eq!(ids.take(), 3);
}

#[test]
fn counter_wraps() {
    let mut ids = IdGenerator::starting_at(usize::MAX);
    assert_eq!(use_id(&mut ids), format!("leptos-radix-{}", usize::MAX));
    assert_eq!(use_id(&mut ids), "leptos-radix-0");
}

#[test]
fn stable_id_depends_on_the_key_alone() {
    let hash = |key: &str| {
        key.chars().fold(0u32, |acc, c| acc.wrapping_mul(31).wrapping_add(c as u32))
    };
    for key in ["", "a", "my-unique-key", "übergröße", "a much longer key that wraps around 32 bits"] {
        assert_eq!(use_stable_id(key), format!("leptos-radix-stable-{}", hash(key)));
        assert_eq!(use_stable_id(key), use_stable_id(key));
    }
    assert_eq!(use_stable_id(""), "leptos-radix-stable-0");
    assert_eq!(use_stable_id("a"), "leptos-radix-stable-97");
    assert_eq!(use_stable_id("ab"), "leptos-radix-stable-3105");
}

#[test]
fn decimal_strings() {
    for n in [0u64, 1, 9, 10, 11, 99, 100, 101, 12345, 1_000_000, u64::MAX] {
        let mut out = String::from("n=");
        append_decimal(&mut out, n);
        assert_eq!(out, format!("n={n}"));
    }
}
