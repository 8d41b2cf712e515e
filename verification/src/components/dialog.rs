//! A dialog and its parts.
//!
//! A dialog is closed or open. It starts closed; its trigger opens it, and
//! a click on its overlay or on its close button closes it. Nothing else
//! changes it.
use vstd::prelude::*;

verus! {

/// Whether a dialog is shown.
#[derive(Clone, Copy, Debug, PartialEq, Eq, Structural)]
pub enum DialogState {
    Closed,
    Open,
}

/// What can happen to a dialog.
#[derive(Clone, Copy, Debug, PartialEq, Eq, Structural)]
pub enum DialogEvent {
    /// The trigger was activated.
    TriggerActivated,
    /// The overlay behind the dialog was clicked.
    OverlayClicked,
    /// The close button was activated.
    CloseActivated,
}

impl DialogState {
    /// The state after an event, whatever the state before it: open after
    /// the trigger, closed after the overlay or the close button.
    pub open spec fn after(self, event: DialogEvent) -> DialogState {
        match event {
            DialogEvent::TriggerActivated => DialogState::Open,
            DialogEvent::OverlayClicked => DialogState::Closed,
            DialogEvent::CloseActivated => DialogState::Closed,
        }
    }

    /// The state after a run of events, in their order.
    pub open spec fn after_all(self, events: Seq<DialogEvent>) -> DialogState
        decreases events.len(),
    {
        if events.len() == 0 {
            self
        } else {
            self.after_all(events.drop_last()).after(events.last())
        }
    }

    /// The state after an event.
    pub fn next(self, event: DialogEvent) -> (r: DialogState)
        ensures
            r == self.after(event),
    {
        match event {
            DialogEvent::TriggerActivated => DialogState::Open,
            DialogEvent::OverlayClicked => DialogState::Closed,
            DialogEvent::CloseActivated => DialogState::Closed,
        }
    }
}

/// The root of a dialog: the state that its parts share.
#[derive(Clone, Copy, Debug)]
pub struct Dialog {
    pub state: DialogState,
}

impl Dialog {
    /// A dialog, closed.
    pub fn new() -> (r: Dialog)
        ensures
            r.state == DialogState::Closed,
    {
        Dialog { state: DialogState::Closed }
    }

    /// Whether the dialog is shown.
    pub fn is_open(&self) -> (r: bool)
        ensures
            r == (self.state == DialogState::Open),
    {
        match self.state {
            DialogState::Open => true,
            DialogState::Closed => false,
        }
    }

    /// Takes an event.
    pub fn handle(&mut self, event: DialogEvent)
        ensures
            final(self).state == old(self).state.after(event),
    {
        self.state = self.state.next(event);
    }
}

/// The button that opens a dialog.
pub struct DialogTrigger {}

impl DialogTrigger {
    /// A click on the trigger: the dialog is open.
    pub fn click(dialog: &mut Dialog)
        ensures
            final(dialog).state == DialogState::Open,
    {
        dialog.handle(DialogEvent::TriggerActivated);
    }
}

/// The layer behind an open dialog.
pub struct DialogOverlay {}

impl DialogOverlay {
    /// Whether the overlay is rendered: while the dialog is open.
    pub fn is_present(dialog: &Dialog) -> (r: bool)
        ensures
            r == (dialog.state == DialogState::Open),
    {
        dialog.is_open()
    }

    /// A click on the overlay: the dialog is closed.
    pub fn click(dialog: &mut Dialog)
        ensures
            final(dialog).state == DialogState::Closed,
    {
        dialog.handle(DialogEvent::OverlayClicked);
    }
}

/// The content of a dialog.
pub struct DialogContent {}

impl DialogContent {
    /// Whether the content is rendered: while the dialog is open.
    pub fn is_present(dialog: &Dialog) -> (r: bool)
        ensures
            r == (dialog.state == DialogState::Open),
    {
        dialog.is_open()
    }

    /// The value of `role`.
    pub fn role() -> (r: &'static str)
        ensures
            r@ == "dialog"@,
    {
        "dialog"
    }

    /// The value of `aria-modal`.
    pub fn aria_modal() -> (r: &'static str)
        ensures
            r@ == "true"@,
    {
        "true"
    }
}

/// The button that closes a dialog.
pub struct DialogClose {}

impl DialogClose {
    /// A click on the close button: the dialog is closed.
    pub fn click(dialog: &mut Dialog)
        ensures
            final(dialog).state == DialogState::Closed,
    {
        dialog.handle(DialogEvent::CloseActivated);
    }
}

/// After any run of events a dialog is in the state that the last of them
/// leads to, so the trigger opens it whatever came before, and a dialog that
/// has received nothing is as it was.
pub proof fn lemma_last_event_decides(start: DialogState, events: Seq<DialogEvent>)
    ensures
        events.len() == 0 ==> start.after_all(events) == start,
        events.len() > 0 ==> start.after_all(events) == (match events.last() {
            DialogEvent::TriggerActivated => DialogState::Open,
            DialogEvent::OverlayClicked => DialogState::Closed,
            DialogEvent::CloseActivated => DialogState::Closed,
        }),
{
}

} // verus!
