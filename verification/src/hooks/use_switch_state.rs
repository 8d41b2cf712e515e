//! The state of a switch: on or off.
use super::use_controllable_state::{use_controllable_state, UseControllableStateReturn};
use vstd::prelude::*;

verus! {

/// The value of `aria-checked` for a switch.
pub open spec fn switch_aria_checked(on: bool) -> Seq<char> {
    if on {
        "true"@
    } else {
        "false"@
    }
}

/// The value of `data-state` for a switch.
pub open spec fn switch_state_attr(on: bool) -> Seq<char> {
    if on {
        "checked"@
    } else {
        "unchecked"@
    }
}

/// The value that the hidden form input of a switch submits.
pub open spec fn switch_form_value(on: bool) -> Seq<char> {
    if on {
        "on"@
    } else {
        ""@
    }
}

/// A switch's state and what is derived from it.
pub struct UseSwitchStateReturn {
    state: UseControllableStateReturn<bool>,
}

impl View for UseSwitchStateReturn {
    type V = bool;

    /// Whether the switch shows on: the value from outside if there is one,
    /// else the switch's own.
    open spec fn view(&self) -> bool {
        match self.controlled_value() {
            Some(v) => v,
            None => self.internal_value(),
        }
    }
}

impl UseSwitchStateReturn {
    /// The value supplied from outside, if there is one.
    pub closed spec fn controlled_value(&self) -> Option<bool> {
        self.state.controlled_value()
    }

    /// The value that the switch keeps itself.
    pub closed spec fn internal_value(&self) -> bool {
        self.state.internal_value()
    }

    /// The switch after a request for `next`: an uncontrolled one has taken
    /// it, a controlled one is unchanged.
    pub closed spec fn after_set(self, next: bool) -> Self {
        UseSwitchStateReturn { state: self.state.after_set(next) }
    }

    /// The switch after an activation.
    pub open spec fn after_toggle(self) -> Self {
        self.after_set(!self@)
    }

    /// What a request changes: nothing of a controlled switch, and of an
    /// uncontrolled one the value it keeps.
    pub broadcast proof fn lemma_after_set(self, next: bool)
        ensures
            #![trigger self.after_set(next)]
            self.after_set(next).controlled_value() == self.controlled_value(),
            self.controlled_value() is Some ==> self.after_set(next) == self,
            self.controlled_value() is None ==> self.after_set(next).internal_value() == next,
    {
        self.state.lemma_after_set(next);
    }

    /// Whether the switch shows on.
    pub fn checked(&self) -> (r: bool)
        ensures
            r == self@,
    {
        self.state.value()
    }

    /// Whether the value comes from outside.
    pub fn is_controlled(&self) -> (r: bool)
        ensures
            r == self.controlled_value() is Some,
    {
        self.state.is_controlled()
    }

    /// An activation by click or key: asks for the opposite value.
    ///
    /// An uncontrolled switch takes it; a controlled one is left as it was.
    /// The result is the value to announce to the owner.
    pub fn toggle(&mut self) -> (announced: bool)
        ensures
            announced == !old(self)@,
            *final(self) == old(self).after_toggle(),
            final(self).controlled_value() == old(self).controlled_value(),
            final(self)@ == (if old(self).controlled_value() is Some {
                old(self)@
            } else {
                announced
            }),
    {
        let next = !self.state.value();
        self.state.set_value(next)
    }

    /// The value of `aria-checked`.
    pub fn get_aria_checked(&self) -> (r: &'static str)
        ensures
            r@ == switch_aria_checked(self@),
    {
        if self.state.value() {
            "true"
        } else {
            "false"
        }
    }

    /// The value of `data-state`.
    pub fn get_state_attr(&self) -> (r: &'static str)
        ensures
            r@ == switch_state_attr(self@),
    {
        if self.state.value() {
            "checked"
        } else {
            "unchecked"
        }
    }

    /// The value that the hidden form input submits.
    pub fn get_form_value(&self) -> (r: &'static str)
        ensures
            r@ == switch_form_value(self@),
    {
        if self.state.value() {
            "on"
        } else {
            ""
        }
    }
}

/// Sets up a switch from the value supplied from outside, if any, and the
/// value to start from, which is off when none is given.
pub fn use_switch_state(checked: Option<bool>, default_checked: Option<bool>) -> (r:
    UseSwitchStateReturn)
    ensures
        r.controlled_value() == checked,
        r.internal_value() == (match default_checked {
            Some(d) => d,
            None => false,
        }),
{
    let start = match default_checked {
        Some(d) => d,
        None => false,
    };
    UseSwitchStateReturn { state: use_controllable_state(checked, Some(start)) }
}

/// Two activations bring a switch back to what it showed: an uncontrolled
/// one by negating its value twice, a controlled one by never changing.
pub proof fn lemma_toggle_is_involution(s: UseSwitchStateReturn)
    ensures
        s.after_toggle().after_toggle()@ == s@,
        s.controlled_value() is None ==> s.after_toggle()@ == !s@,
{
    s.lemma_after_set(!s@);
    let t = s.after_toggle();
    t.lemma_after_set(!t@);
}

} // verus!
