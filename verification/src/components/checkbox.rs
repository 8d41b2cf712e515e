//! A checkbox and its indicator.
use crate::components::switch::{
    activates, get_aria_disabled, get_aria_required, get_data_disabled, is_activation_key,
};
use crate::hooks::use_checkbox_state::{use_checkbox_state, CheckedState, UseCheckboxStateReturn};
use crate::text::{as_opt_str, string_or, view_of, view_of_string};
use vstd::prelude::*;
use vstd::string::StringExecFns;

verus! {

pub const CHECKBOX_BASE_CLASSES: &'static str =
    "relative inline-flex h-6 w-6 shrink-0 items-center justify-center rounded border-0 bg-white transition-all duration-200 ease-in-out shadow-sm";

pub const CHECKBOX_FOCUS_CLASSES: &'static str =
    "focus:outline-none focus:ring-2 focus:ring-black focus:ring-offset-0";

pub const CHECKBOX_STATE_CLASSES: &'static str =
    "data-[state=checked]:bg-white data-[state=unchecked]:bg-white data-[state=indeterminate]:bg-white";

pub const CHECKBOX_HOVER_CLASSES: &'static str =
    "hover:bg-hover-purple data-[state=checked]:hover:bg-white data-[state=indeterminate]:hover:bg-white";

pub const CHECKBOX_DISABLED_CLASSES: &'static str =
    "data-[disabled]:opacity-50 data-[disabled]:cursor-not-allowed data-[disabled]:hover:bg-white";

pub const CHECKBOX_INDICATOR_BASE_CLASSES: &'static str =
    "absolute inset-0 flex items-center justify-center text-white pointer-events-none";

pub const CHECKBOX_INDICATOR_ANIMATION_CLASSES: &'static str =
    "data-[state=checked]:animate-in data-[state=checked]:fade-in-0 data-[state=checked]:zoom-in-95 data-[state=unchecked]:animate-out data-[state=unchecked]:fade-out-0 data-[state=unchecked]:zoom-out-95";

/// The classes of a checkbox, with one space between each two groups and
/// the caller's own at the end.
pub open spec fn checkbox_classes_spec(user_class: Seq<char>) -> Seq<char> {
    CHECKBOX_BASE_CLASSES@ + " "@ + CHECKBOX_FOCUS_CLASSES@ + " "@ + CHECKBOX_STATE_CLASSES@
        + " "@ + CHECKBOX_HOVER_CLASSES@ + " "@ + CHECKBOX_DISABLED_CLASSES@ + " "@ + user_class
}

/// The classes of an indicator, with the caller's own at the end.
pub open spec fn checkbox_indicator_classes_spec(user_class: Seq<char>) -> Seq<char> {
    CHECKBOX_INDICATOR_BASE_CLASSES@ + " "@ + CHECKBOX_INDICATOR_ANIMATION_CLASSES@ + " "@
        + user_class
}

/// The value of `class` for a checkbox.
pub fn get_checkbox_classes(user_class: String) -> (r: String)
    ensures
        r@ == checkbox_classes_spec(user_class@),
{
    let mut s = String::from_str(CHECKBOX_BASE_CLASSES);
    s.append(" ");
    s.append(CHECKBOX_FOCUS_CLASSES);
    s.append(" ");
    s.append(CHECKBOX_STATE_CLASSES);
    s.append(" ");
    s.append(CHECKBOX_HOVER_CLASSES);
    s.append(" ");
    s.append(CHECKBOX_DISABLED_CLASSES);
    s.append(" ");
    s.append(user_class.as_str());
    s
}

/// A click on a checkbox: a checkbox that is not disabled is toggled.
///
/// The result is the state to announce to the owner, if the click did
/// anything.
pub fn handle_checkbox_click(disabled: bool, state: &mut UseCheckboxStateReturn) -> (announced:
    Option<CheckedState>)
    ensures
        disabled ==> announced is None && *final(state) == *old(state),
        !disabled ==> announced == Some(old(state)@.toggled_spec()) && *final(state) == old(state).after_toggle(),
{
    if !disabled {
        Some(state.toggle())
    } else {
        None
    }
}

/// A key pressed on a checkbox: the space bar and the enter key toggle a
/// checkbox that is not disabled.
///
/// The result is the state to announce to the owner, if the key did
/// anything; the key's own effect is then to be suppressed.
pub fn handle_checkbox_keydown(
    disabled: bool,
    state: &mut UseCheckboxStateReturn,
    key: &str,
) -> (announced: Option<CheckedState>)
    ensures
        disabled || !is_activation_key(key@) ==> announced is None && *final(state) == *old(state),
        !disabled && is_activation_key(key@) ==> announced == Some(old(state)@.toggled_spec())
            && *final(state) == old(state).after_toggle(),
{
    if disabled {
        return None;
    }
    if activates(key) {
        Some(state.toggle())
    } else {
        None
    }
}

/// What a checkbox lets its indicator read.
#[derive(Clone, Copy, Debug)]
pub struct CheckboxContextValue {
    pub state: CheckedState,
    pub disabled: bool,
}

/// A checkbox and the attributes it is rendered with: a button with the
/// role `checkbox` beside a hidden checkbox input that takes part in forms.
pub struct Checkbox {
    pub state: UseCheckboxStateReturn,
    pub disabled: bool,
    pub required: bool,
    pub name: Option<String>,
    /// What the hidden input submits when the checkbox is checked.
    pub value: String,
    pub form: Option<String>,
    pub id: String,
    /// The caller's own classes.
    pub class: String,
}

impl Checkbox {
    /// A checkbox with the given properties. Where they are missing it is
    /// neither disabled nor required, submits `on`, has the `id` `checkbox`
    /// and no classes of the caller's.
    pub fn new(
        checked: Option<CheckedState>,
        default_checked: Option<CheckedState>,
        disabled: Option<bool>,
        required: Option<bool>,
        name: Option<String>,
        value: Option<String>,
        form: Option<String>,
        id: Option<String>,
        class: Option<String>,
    ) -> (r: Checkbox)
        ensures
            r.state.controlled_value() == checked,
            r.state.internal_value() == (match default_checked {
                Some(d) => d,
                None => CheckedState::False,
            }),
            r.disabled == (disabled == Some(true)),
            r.required == (required == Some(true)),
            r.name == name,
            r.value@ == (match value {
                Some(v) => v@,
                None => "on"@,
            }),
            r.form == form,
            r.id@ == (match id {
                Some(i) => i@,
                None => "checkbox"@,
            }),
            r.class@ == (match class {
                Some(c) => c@,
                None => ""@,
            }),
    {
        Checkbox {
            state: use_checkbox_state(checked, default_checked),
            disabled: match disabled {
                Some(d) => d,
                None => false,
            },
            required: match required {
                Some(d) => d,
                None => false,
            },
            name,
            value: string_or(value, "on"),
            form,
            id: string_or(id, "checkbox"),
            class: string_or(class, ""),
        }
    }

    /// A click on the button.
    pub fn click(&mut self) -> (announced: Option<CheckedState>)
        ensures
            old(self).disabled ==> announced is None && *final(self) == *old(self),
            !old(self).disabled ==> announced == Some(old(self).state@.toggled_spec())
                && *final(self) == (Checkbox {
                state: old(self).state.after_toggle(),
                ..*old(self)
            }),
    {
        handle_checkbox_click(self.disabled, &mut self.state)
    }

    /// A key pressed on the button. Where the result is a state, the key's
    /// own effect is to be suppressed.
    pub fn keydown(&mut self, key: &str) -> (announced: Option<CheckedState>)
        ensures
            old(self).disabled || !is_activation_key(key@) ==> announced is None && *final(self)
                == *old(self),
            !old(self).disabled && is_activation_key(key@) ==> announced == Some(
                old(self).state@.toggled_spec(),
            ) && *final(self) == (Checkbox {
                state: old(self).state.after_toggle(),
                ..*old(self)
            }),
    {
        handle_checkbox_keydown(self.disabled, &mut self.state, key)
    }

    /// Whether the hidden input is checked: only in the checked state, not
    /// in the indeterminate one.
    pub fn input_checked(&self) -> (r: bool)
        ensures
            r == (self.state@ == CheckedState::True),
    {
        match self.state.checked() {
            CheckedState::True => true,
            _ => false,
        }
    }

    /// The value of `name` on the hidden input.
    pub fn name(&self) -> (r: Option<&str>)
        ensures
            view_of(r) == view_of_string(self.name),
    {
        as_opt_str(&self.name)
    }

    /// The value of `form` on the hidden input.
    pub fn form(&self) -> (r: Option<&str>)
        ensures
            view_of(r) == view_of_string(self.form),
    {
        as_opt_str(&self.form)
    }

    /// The value of `role` on the button.
    pub fn role(&self) -> (r: &'static str)
        ensures
            r@ == "checkbox"@,
    {
        "checkbox"
    }

    /// The value of `aria-checked`.
    pub fn aria_checked(&self) -> (r: &'static str)
        ensures
            r@ == self.state@.aria_checked_spec(),
    {
        self.state.get_aria_checked()
    }

    /// The value of `aria-disabled`.
    pub fn aria_disabled(&self) -> (r: Option<&'static str>)
        ensures
            view_of(r) == (if self.disabled {
                Some("true"@)
            } else {
                None
            }),
    {
        get_aria_disabled(self.disabled)
    }

    /// The value of `aria-required`.
    pub fn aria_required(&self) -> (r: Option<&'static str>)
        ensures
            view_of(r) == (if self.required {
                Some("true"@)
            } else {
                None
            }),
    {
        get_aria_required(self.required)
    }

    /// The value of `data-state`.
    pub fn data_state(&self) -> (r: &'static str)
        ensures
            r@ == self.state@.state_attr_spec(),
    {
        self.state.get_state_attr()
    }

    /// The value of `data-disabled`.
    pub fn data_disabled(&self) -> (r: Option<&'static str>)
        ensures
            view_of(r) == (if self.disabled {
                Some(""@)
            } else {
                None
            }),
    {
        get_data_disabled(self.disabled)
    }

    /// The value of `class` on the button.
    pub fn class(&self) -> (r: String)
        ensures
            r@ == checkbox_classes_spec(self.class@),
    {
        get_checkbox_classes(self.class.clone())
    }

    /// What the indicator may read of the checkbox.
    pub fn context(&self) -> (r: CheckboxContextValue)
        ensures
            r.state == self.state@,
            r.disabled == self.disabled,
    {
        CheckboxContextValue { state: self.state.checked(), disabled: self.disabled }
    }
}

/// The indicator of a checkbox: the mark inside the box.
pub struct CheckboxIndicator {
    /// Whether the indicator is rendered in the unchecked state too.
    pub force_mount: bool,
    /// The caller's own classes.
    pub class: String,
}

impl CheckboxIndicator {
    pub fn new(force_mount: Option<bool>, class: Option<String>) -> (r: CheckboxIndicator)
        ensures
            r.force_mount == (force_mount == Some(true)),
            r.class@ == (match class {
                Some(c) => c@,
                None => ""@,
            }),
    {
        CheckboxIndicator {
            force_mount: match force_mount {
                Some(f) => f,
                None => false,
            },
            class: string_or(class, ""),
        }
    }

    /// Whether the indicator is rendered: in the checked and in the
    /// indeterminate state, and in every state where it is forced.
    pub fn is_present(&self, context: &CheckboxContextValue) -> (r: bool)
        ensures
            r == (self.force_mount || context.state.is_checked_spec()),
    {
        self.force_mount || context.state.is_checked()
    }

    /// The value of `data-state`.
    pub fn data_state(&self, context: &CheckboxContextValue) -> (r: &'static str)
        ensures
            r@ == context.state.state_attr_spec(),
    {
        context.state.state_attr()
    }

    /// The value of `class`.
    pub fn class(&self) -> (r: String)
        ensures
            r@ == checkbox_indicator_classes_spec(self.class@),
    {
        let mut s = String::from_str(CHECKBOX_INDICATOR_BASE_CLASSES);
        s.append(" ");
        s.append(CHECKBOX_INDICATOR_ANIMATION_CLASSES);
        s.append(" ");
        s.append(self.class.as_str());
        s
    }
}

} // verus!
