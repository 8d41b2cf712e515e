//! The state of a checkbox: checked, unchecked, or neither.
use super::use_controllable_state::{use_controllable_state, UseControllableStateReturn};
use vstd::prelude::*;
use vstd::string::StringExecFns;

verus! {

/// What a checkbox shows.
#[derive(Clone, Copy, Debug, Eq, Hash, PartialEq, Structural)]
pub enum CheckedState {
    False,
    True,
    Indeterminate,
}

impl Default for CheckedState {
    fn default() -> (r: CheckedState)
        ensures
            r == CheckedState::False,
    {
        CheckedState::False
    }
}

impl CheckedState {
    /// The state that an activation leads to: unchecked becomes checked,
    /// checked becomes unchecked, and the indeterminate state becomes
    /// checked. No activation leads to the indeterminate state.
    pub open spec fn toggled_spec(self) -> CheckedState {
        match self {
            CheckedState::False => CheckedState::True,
            CheckedState::True => CheckedState::False,
            CheckedState::Indeterminate => CheckedState::True,
        }
    }

    /// The value of `aria-checked`.
    pub open spec fn aria_checked_spec(self) -> Seq<char> {
        match self {
            CheckedState::True => "true"@,
            CheckedState::False => "false"@,
            CheckedState::Indeterminate => "mixed"@,
        }
    }

    /// The value of `data-state`.
    pub open spec fn state_attr_spec(self) -> Seq<char> {
        match self {
            CheckedState::True => "checked"@,
            CheckedState::False => "unchecked"@,
            CheckedState::Indeterminate => "indeterminate"@,
        }
    }

    /// The value that the hidden form input submits.
    pub open spec fn form_value_spec(self) -> Seq<char> {
        match self {
            CheckedState::True => "on"@,
            CheckedState::False => ""@,
            CheckedState::Indeterminate => "mixed"@,
        }
    }

    /// The name of the state, as it is printed.
    pub open spec fn name_spec(self) -> Seq<char> {
        match self {
            CheckedState::False => "false"@,
            CheckedState::True => "true"@,
            CheckedState::Indeterminate => "indeterminate"@,
        }
    }

    /// Whether the indicator is to be shown: in every state but unchecked.
    pub open spec fn is_checked_spec(self) -> bool {
        self != CheckedState::False
    }

    pub fn toggled(self) -> (r: CheckedState)
        ensures
            r == self.toggled_spec(),
    {
        match self {
            CheckedState::False => CheckedState::True,
            CheckedState::True => CheckedState::False,
            CheckedState::Indeterminate => CheckedState::True,
        }
    }

    pub fn aria_checked(self) -> (r: &'static str)
        ensures
            r@ == self.aria_checked_spec(),
    {
        match self {
            CheckedState::True => "true",
            CheckedState::False => "false",
            CheckedState::Indeterminate => "mixed",
        }
    }

    pub fn state_attr(self) -> (r: &'static str)
        ensures
            r@ == self.state_attr_spec(),
    {
        match self {
            CheckedState::True => "checked",
            CheckedState::False => "unchecked",
            CheckedState::Indeterminate => "indeterminate",
        }
    }

    pub fn form_value(self) -> (r: &'static str)
        ensures
            r@ == self.form_value_spec(),
    {
        match self {
            CheckedState::True => "on",
            CheckedState::False => "",
            CheckedState::Indeterminate => "mixed",
        }
    }

    pub fn is_checked(self) -> (r: bool)
        ensures
            r == self.is_checked_spec(),
    {
        match self {
            CheckedState::False => false,
            CheckedState::True => true,
            CheckedState::Indeterminate => true,
        }
    }

    /// The state's printed form: `false`, `true` or `indeterminate`.
    pub fn to_string(&self) -> (r: String)
        ensures
            r@ == self.name_spec(),
    {
        match self {
            CheckedState::False => String::from_str("false"),
            CheckedState::True => String::from_str("true"),
            CheckedState::Indeterminate => String::from_str("indeterminate"),
        }
    }
}

/// A checkbox's state and what is derived from it.
pub struct UseCheckboxStateReturn {
    state: UseControllableStateReturn<CheckedState>,
}

impl View for UseCheckboxStateReturn {
    type V = CheckedState;

    /// The state shown: the one from outside if there is one, else the
    /// checkbox's own.
    open spec fn view(&self) -> CheckedState {
        match self.controlled_value() {
            Some(v) => v,
            None => self.internal_value(),
        }
    }
}

impl UseCheckboxStateReturn {
    /// The state supplied from outside, if there is one.
    pub closed spec fn controlled_value(&self) -> Option<CheckedState> {
        self.state.controlled_value()
    }

    /// The state that the checkbox keeps itself.
    pub closed spec fn internal_value(&self) -> CheckedState {
        self.state.internal_value()
    }

    /// The checkbox after a request for `next`: an uncontrolled one has taken
    /// it, a controlled one is unchanged.
    pub closed spec fn after_set(self, next: CheckedState) -> Self {
        UseCheckboxStateReturn { state: self.state.after_set(next) }
    }

    /// The checkbox after an activation.
    pub open spec fn after_toggle(self) -> Self {
        self.after_set(self@.toggled_spec())
    }

    /// What a request changes: nothing of a controlled checkbox, and of an
    /// uncontrolled one the state it keeps.
    pub broadcast proof fn lemma_after_set(self, next: CheckedState)
        ensures
            #![trigger self.after_set(next)]
            self.after_set(next).controlled_value() == self.controlled_value(),
            self.controlled_value() is Some ==> self.after_set(next) == self,
            self.controlled_value() is None ==> self.after_set(next).internal_value() == next,
    {
        self.state.lemma_after_set(next);
    }

    /// The state shown.
    pub fn checked(&self) -> (r: CheckedState)
        ensures
            r == self@,
    {
        self.state.value()
    }

    /// Whether the state comes from outside.
    pub fn is_controlled(&self) -> (r: bool)
        ensures
            r == self.controlled_value() is Some,
    {
        self.state.is_controlled()
    }

    /// An activation by click or key: asks for the toggled state.
    ///
    /// An uncontrolled checkbox takes it; a controlled one is left as it
    /// was. The result is the state to announce to the owner.
    pub fn toggle(&mut self) -> (announced: CheckedState)
        ensures
            announced == old(self)@.toggled_spec(),
            *final(self) == old(self).after_toggle(),
            final(self).controlled_value() == old(self).controlled_value(),
            final(self)@ == (if old(self).controlled_value() is Some {
                old(self)@
            } else {
                announced
            }),
    {
        let next = self.state.value().toggled();
        self.state.set_value(next)
    }

    /// Asks for the indeterminate state, which no activation reaches.
    pub fn set_indeterminate(&mut self) -> (announced: CheckedState)
        ensures
            announced == CheckedState::Indeterminate,
            *final(self) == old(self).after_set(CheckedState::Indeterminate),
            final(self).controlled_value() == old(self).controlled_value(),
            final(self)@ == (if old(self).controlled_value() is Some {
                old(self)@
            } else {
                announced
            }),
    {
        self.state.set_value(CheckedState::Indeterminate)
    }

    /// The value of `aria-checked`: `mixed` stands for indeterminate.
    pub fn get_aria_checked(&self) -> (r: &'static str)
        ensures
            r@ == self@.aria_checked_spec(),
    {
        self.state.value().aria_checked()
    }

    /// The value of `data-state`.
    pub fn get_state_attr(&self) -> (r: &'static str)
        ensures
            r@ == self@.state_attr_spec(),
    {
        self.state.value().state_attr()
    }

    /// The value that the hidden form input submits.
    pub fn get_form_value(&self) -> (r: &'static str)
        ensures
            r@ == self@.form_value_spec(),
    {
        self.state.value().form_value()
    }

    /// Whether the indicator is to be shown.
    pub fn is_checked(&self) -> (r: bool)
        ensures
            r == self@.is_checked_spec(),
    {
        self.state.value().is_checked()
    }
}

/// Sets up a checkbox from the state supplied from outside, if any, and the
/// state to start from, which is unchecked when none is given.
pub fn use_checkbox_state(
    checked: Option<CheckedState>,
    default_checked: Option<CheckedState>,
) -> (r: UseCheckboxStateReturn)
    ensures
        r.controlled_value() == checked,
        r.internal_value() == (match default_checked {
            Some(d) => d,
            None => CheckedState::False,
        }),
{
    UseCheckboxStateReturn { state: use_controllable_state(checked, default_checked) }
}

/// Two activations bring unchecked and checked back to where they began,
/// and the indeterminate state to unchecked; no activation leads to the
/// indeterminate state.
pub proof fn lemma_toggle_twice(s: CheckedState)
    ensures
        s.toggled_spec() != CheckedState::Indeterminate,
        s.toggled_spec().toggled_spec() == (if s == CheckedState::Indeterminate {
            CheckedState::False
        } else {
            s
        }),
{
}

/// An uncontrolled checkbox that is activated twice shows what it showed
/// before, unless that was the indeterminate state: then it shows checked
/// after the first activation and unchecked after the second.
pub proof fn lemma_uncontrolled_toggle_twice(c: UseCheckboxStateReturn)
    requires
        c.controlled_value() is None,
    ensures
        c.after_toggle()@ == c@.toggled_spec(),
        c.after_toggle().after_toggle()@ == (if c@ == CheckedState::Indeterminate {
            CheckedState::False
        } else {
            c@
        }),
{
    c.lemma_after_set(c@.toggled_spec());
    let d = c.after_toggle();
    d.lemma_after_set(d@.toggled_spec());
}

/// A controlled checkbox shows the state from outside after any activation.
pub proof fn lemma_controlled_toggle(c: UseCheckboxStateReturn)
    requires
        c.controlled_value() is Some,
    ensures
        c.after_toggle() == c,
{
    c.lemma_after_set(c@.toggled_spec());
}

} // verus!
