use leptos_radix_ui::components::label::MouseDownTarget;
use leptos_radix_ui::components::{
    get_progress_classes, get_progress_indicator_classes, get_separator_classes,
    is_form_control_tag,
};
use leptos_radix_ui::binary64::Binary64;
use leptos_radix_ui::hooks::get_progress_style;
use leptos_radix_ui::themes::{use_theme, ThemeContext, ThemeMode};
use leptos_radix_ui::{Label, Progress, ProgressIndicator, Separator, Theme, ThemeToggle};

fn num(x: f64) -> Binary64 {
    Binary64::from_bits(x.to_bits())
}

#[test]
fn separator_defaults() {
    let s = Separator::new(None, None, None, None);
    assert_eq!(s.role(), Some("separator"));
    assert_eq!(s.aria_orientation(), Some("horizontal"));
    assert_eq!(s.data_orientation(), "horizontal");
    assert_eq!(s.id(), None);
    assert_eq!(
        s.class(),
        "block h-px w-full bg-gray-200 focus:outline-none focus:ring-2 focus:ring-blue-500 focus:ring-offset-2"
    );
}

#[test]
fn vertical_separator() {
    let s = Separator::new(
        Some("vertical".to_string()),
        None,
        Some("h-6".to_string()),
        Some("div1".to_string()),
    );
    assert_eq!(s.aria_orientation(), Some("vertical"));
    assert_eq!(s.data_orientation(), "vertical");
    assert_eq!(s.id(), Some("div1"));
    assert_eq!(
        s.class(),
        "inline-block w-px bg-gray-200 focus:outline-none focus:ring-2 focus:ring-blue-500 focus:ring-offset-2 h-6"
    );
}

#[test]
fn decorative_separator_has_no_semantics() {
    let s = Separator::new(Some("diagonal".to_string()), Some(true), None, None);
    assert_eq!(s.role(), None);
    assert_eq!(s.aria_orientation(), None);
    assert_eq!(s.data_orientation(), "diagonal");
    assert_eq!(s.class(), "block h-px w-full bg-gray-200");
    let t = Separator::new(Some("diagonal".to_string()), None, None, None);
    assert_eq!(t.aria_orientation(), Some("horizontal"));
}

#[test]
fn separator_classes_are_trimmed() {
    assert_eq!(
        get_separator_classes("vertical", true, String::new()),
        "inline-block w-px bg-gray-200"
    );
    assert_eq!(
        get_separator_classes("horizontal", true, "my-2 \n".to_string()),
        "block h-px w-full bg-gray-200  my-2"
    );
}

fn label(class: Option<&str>, required: Option<bool>, disabled: Option<bool>) -> Label {
    Label::new(
        Some("field".to_string()),
        class.map(|c| c.to_string()),
        None,
        None,
        None,
        None,
        None,
        None,
        required,
        disabled,
    )
}

#[test]
fn label_classes_and_state() {
    let plain = label(None, None, None);
    assert_eq!(plain.class_value(), "label-root");
    assert_eq!(plain.for_.as_deref(), Some("field"));
    assert!(plain.id.is_none() && plain.style.is_none() && plain.aria_label.is_none());
    assert_eq!(plain.data_state(), "default");
    assert_eq!(plain.data_required(), None);
    assert_eq!(plain.data_disabled(), None);

    let required = label(Some("big"), Some(true), None);
    assert_eq!(required.class_value(), "label-root label-required big");
    assert_eq!(required.data_state(), "required");
    assert_eq!(required.data_required(), Some(""));

    let both = label(None, Some(true), Some(true));
    assert_eq!(both.class_value(), "label-root label-required label-disabled");
    assert_eq!(both.data_state(), "disabled");
    assert_eq!(both.data_disabled(), Some(""));

    let disabled = label(None, None, Some(true));
    assert_eq!(disabled.class_value(), "label-root label-disabled");
}

#[test]
fn form_control_tags() {
    for tag in ["button", "input", "select", "textarea"] {
        assert!(is_form_control_tag(tag));
    }
    for tag in ["div", "label", "BUTTON", "", "inputs"] {
        assert!(!is_form_control_tag(tag));
    }
}

#[test]
fn double_click_on_label_text_is_suppressed() {
    let span = MouseDownTarget { tag_name: "SPAN".to_string(), inside_form_control: false };
    let button = MouseDownTarget { tag_name: "BUTTON".to_string(), inside_form_control: false };
    let icon = MouseDownTarget { tag_name: "svg".to_string(), inside_form_control: true };
    assert!(Label::handle_mouse_down(Some(&span), 2));
    assert!(Label::handle_mouse_down(Some(&span), 3));
    assert!(!Label::handle_mouse_down(Some(&span), 1));
    assert!(!Label::handle_mouse_down(Some(&span), 0));
    assert!(!Label::handle_mouse_down(Some(&button), 2));
    assert!(!Label::handle_mouse_down(Some(&icon), 2));
    assert!(Label::handle_mouse_down(None, 2));
    assert!(!Label::handle_mouse_down(None, 1));
}

#[test]
fn theme_context() {
    let mut t = ThemeContext::new();
    assert_eq!(t.mode, ThemeMode::Light);
    t.toggle();
    assert_eq!(t.mode, ThemeMode::Dark);
    assert_eq!(t.mode.class_to_add(), "dark");
    assert_eq!(t.mode.class_to_remove(), "light");
    t.toggle();
    assert_eq!(t.mode, ThemeMode::Light);
    assert_eq!(t.mode.class_to_add(), "light");
    assert_eq!(t.mode.class_to_remove(), "dark");
    assert_eq!(use_theme(None).mode, ThemeMode::Light);
    let dark = ThemeContext { mode: ThemeMode::Dark };
    assert_eq!(use_theme(Some(dark)).mode, ThemeMode::Dark);
    assert_eq!(ThemeMode::Dark.toggled(), ThemeMode::Light);
    assert_eq!(ThemeMode::Dark.toggle_icon(), "☀️");
    assert_eq!(ThemeMode::Light.toggle_icon(), "🌙");
    assert_eq!(ThemeMode::Dark.toggle_title(), "Switch to light mode");
    assert_eq!(ThemeMode::Light.toggle_title(), "Switch to dark mode");
}

#[test]
fn theme_toggle() {
    let mut theme = Theme::Dark;
    assert_eq!(theme.data_theme(), "dark");
    assert_eq!(ThemeToggle::icon(theme), "☀️");
    ThemeToggle::click(&mut theme);
    assert_eq!(theme, Theme::Light);
    assert_eq!(theme.data_theme(), "light");
    assert_eq!(ThemeToggle::icon(theme), "🌙");
    ThemeToggle::click(&mut theme);
    assert_eq!(theme, Theme::Dark);
}

#[test]
fn progress_attributes() {
    let p = Progress::new(Some(num(25.0)), Some(num(50.0)), None, None, Some("w-48".to_string()));
    assert_eq!(p.id(), "progress");
    assert_eq!(p.role(), "progressbar");
    assert_eq!(p.aria_valuenow().map(|b| f64::from_bits(b.to_bits())), Some(25.0));
    assert_eq!(f64::from_bits(p.aria_valuemax().to_bits()), 50.0);
    assert_eq!(f64::from_bits(p.aria_valuemin().to_bits()), 0.0);
    assert_eq!(f64::from_bits(p.data_max().to_bits()), 50.0);
    assert_eq!(p.data_state(), "loading");
    assert_eq!(p.data_value().map(|b| f64::from_bits(b.to_bits())), Some(25.0));
    assert_eq!(
        p.class(),
        "relative h-2 w-full overflow-hidden rounded-full bg-gray-200 data-[state=indeterminate]:animate-pulse w-48"
    );
    assert_eq!(p.class(), get_progress_classes("w-48".to_string()));

    let indicator = ProgressIndicator::new(None);
    let ctx = p.context();
    assert_eq!(indicator.data_state(Some(&ctx)), "loading");
    assert_eq!(indicator.data_state(None), "indeterminate");
    assert!(indicator.data_value(None).is_none());
    assert_eq!(indicator.data_value(Some(&ctx)).map(|b| b.to_bits()), Some(25.0f64.to_bits()));
    assert_eq!(f64::from_bits(indicator.data_max(None).to_bits()), 100.0);
    assert_eq!(f64::from_bits(indicator.data_max(Some(&ctx)).to_bits()), 50.0);
    assert_eq!(indicator.style(Some("50")), "width: 50%");
    assert_eq!(indicator.style(None), "width: 0%");
    assert_eq!(indicator.class(), get_progress_indicator_classes(String::new()));

    let done = Progress::new(Some(num(100.0)), None, None, Some("bar".to_string()), None);
    assert_eq!(done.id(), "bar");
    assert_eq!(done.data_state(), "complete");
    let unknown = Progress::new(None, None, None, None, None);
    assert_eq!(unknown.data_state(), "indeterminate");
    assert!(unknown.aria_valuenow().is_none());
}

#[test]
fn progress_style() {
    assert_eq!(get_progress_style(Some("33.3")), "width: 33.3%");
    assert_eq!(get_progress_style(None), "width: 0%");
}
