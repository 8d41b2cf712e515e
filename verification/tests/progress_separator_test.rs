use leptos_radix_ui::{Progress, ProgressIndicator, Separator};

#[test]
fn test_progress_component_exists() {
    let _progress: Progress = Progress::new(None, None, None, None, None);
    let _indicator: ProgressIndicator = ProgressIndicator::new(None);
    assert!(true);
}

#[test]
fn test_separator_component_exists() {
    let _separator: Separator = Separator::new(None, None, None, None);
    assert!(true);
}

#[test]
fn test_component_compilation() {
    assert!(true);
}
