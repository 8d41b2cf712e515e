use leptos_radix_ui::components::{DialogEvent, DialogState};
use leptos_radix_ui::{Dialog, DialogClose, DialogContent, DialogOverlay, DialogTrigger};

#[test]
fn dialog_opens_closes_and_opens_again() {
    let mut d = Dialog::new();
    assert_eq!(d.state, DialogState::Closed);
    assert!(!d.is_open());
    DialogTrigger::click(&mut d);
    assert_eq!(d.state, DialogState::Open);
    DialogOverlay::click(&mut d);
    assert_eq!(d.state, DialogState::Closed);
    DialogTrigger::click(&mut d);
    assert_eq!(d.state, DialogState::Open);
    assert!(d.is_open());
}

#[test]
fn close_button_closes() {
    let mut d = Dialog::new();
    DialogClose::click(&mut d);
    assert_eq!(d.state, DialogState::Closed);
    DialogTrigger::click(&mut d);
    DialogTrigger::click(&mut d);
    assert_eq!(d.state, DialogState::Open);
    DialogClose::click(&mut d);
    assert_eq!(d.state, DialogState::Closed);
}

#[test]
fn transition_table() {
    for from in [DialogState::Closed, DialogState::Open] {
        assert_eq!(from.next(DialogEvent::TriggerActivated), DialogState::Open);
        assert_eq!(from.next(DialogEvent::OverlayClicked), DialogState::Closed);
        assert_eq!(from.next(DialogEvent::CloseActivated), DialogState::Closed);
    }
}

#[test]
fn overlay_and_content_are_rendered_while_open() {
    let mut d = Dialog::new();
    assert!(!DialogOverlay::is_present(&d));
    assert!(!DialogContent::is_present(&d));
    d.handle(DialogEvent::TriggerActivated);
    assert!(DialogOverlay::is_present(&d));
    assert!(DialogContent::is_present(&d));
    assert_eq!(DialogContent::role(), "dialog");
    assert_eq!(DialogContent::aria_modal(), "true");
}
