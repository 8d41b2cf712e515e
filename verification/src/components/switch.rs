//! A switch and its thumb.
use crate::hooks::use_switch_state::{
    switch_aria_checked, switch_state_attr, use_switch_state, UseSwitchStateReturn,
};
use crate::text::{as_opt_str, str_eq, string_or, view_of, view_of_string};
use vstd::prelude::*;
use vstd::string::StringExecFns;

verus! {

pub const SWITCH_BASE_CLASSES: &'static str =
    "relative inline-flex h-6 w-11 shrink-0 items-center rounded-full border-0 transition-all duration-150 ease-in-out shadow-sm";

pub const SWITCH_FOCUS_CLASSES: &'static str =
    "focus:outline-none focus:ring-2 focus:ring-black focus:ring-offset-0";

pub const SWITCH_STATE_CLASSES: &'static str =
    "data-[state=checked]:bg-black data-[state=unchecked]:bg-[#221B3E]";

pub const SWITCH_DISABLED_CLASSES: &'static str =
    "data-[disabled]:opacity-50 data-[disabled]:cursor-not-allowed";

pub const SWITCH_THUMB_BASE_CLASSES: &'static str =
    "pointer-events-none block h-5 w-5 rounded-full bg-white shadow-lg ring-0 transition-transform duration-150 ease-in-out";

pub const SWITCH_THUMB_STATE_CLASSES: &'static str =
    "data-[state=checked]:translate-x-5.5 data-[state=unchecked]:translate-x-0.5";

/// The classes of a switch, with one space between each two groups and the
/// caller's own at the end.
pub open spec fn switch_classes_spec(user_class: Seq<char>) -> Seq<char> {
    SWITCH_BASE_CLASSES@ + " "@ + SWITCH_FOCUS_CLASSES@ + " "@ + SWITCH_STATE_CLASSES@ + " "@
        + SWITCH_DISABLED_CLASSES@ + " "@ + user_class
}

/// The classes of a thumb, with the caller's own at the end.
pub open spec fn switch_thumb_classes_spec(user_class: Seq<char>) -> Seq<char> {
    SWITCH_THUMB_BASE_CLASSES@ + " "@ + SWITCH_THUMB_STATE_CLASSES@ + " "@ + user_class
}

/// Whether a key activates a checkbox or a switch that has the focus: the
/// space bar and the enter key do.
pub open spec fn is_activation_key(key: Seq<char>) -> bool {
    key == " "@ || key == "Enter"@
}

/// Whether a key activates a checkbox or a switch that has the focus.
pub fn activates(key: &str) -> (r: bool)
    ensures
        r == is_activation_key(key@),
{
    str_eq(key, " ") || str_eq(key, "Enter")
}

/// The value of `class` for a switch.
pub fn get_switch_classes(user_class: String) -> (r: String)
    ensures
        r@ == switch_classes_spec(user_class@),
{
    let mut s = String::from_str(SWITCH_BASE_CLASSES);
    s.append(" ");
    s.append(SWITCH_FOCUS_CLASSES);
    s.append(" ");
    s.append(SWITCH_STATE_CLASSES);
    s.append(" ");
    s.append(SWITCH_DISABLED_CLASSES);
    s.append(" ");
    s.append(user_class.as_str());
    s
}

/// The value of `class` for the thumb of a switch.
pub fn get_switch_thumb_classes(user_class: String) -> (r: String)
    ensures
        r@ == switch_thumb_classes_spec(user_class@),
{
    let mut s = String::from_str(SWITCH_THUMB_BASE_CLASSES);
    s.append(" ");
    s.append(SWITCH_THUMB_STATE_CLASSES);
    s.append(" ");
    s.append(user_class.as_str());
    s
}

/// A click on a switch: a switch that is not disabled is toggled.
///
/// The result is the value to announce to the owner, if the click did
/// anything.
pub fn handle_switch_click(disabled: bool, state: &mut UseSwitchStateReturn) -> (announced:
    Option<bool>)
    ensures
        disabled ==> announced is None && *final(state) == *old(state),
        !disabled ==> announced == Some(!old(state)@) && *final(state) == old(state).after_toggle(),
{
    if !disabled {
        Some(state.toggle())
    } else {
        None
    }
}

/// A key pressed on a switch: the space bar and the enter key toggle a
/// switch that is not disabled.
///
/// The result is the value to announce to the owner, if the key did
/// anything; the key's own effect is then to be suppressed.
pub fn handle_switch_keydown(disabled: bool, state: &mut UseSwitchStateReturn, key: &str) -> (announced:
    Option<bool>)
    ensures
        disabled || !is_activation_key(key@) ==> announced is None && *final(state) == *old(state),
        !disabled && is_activation_key(key@) ==> announced == Some(!old(state)@) && *final(state)
            == old(state).after_toggle(),
{
    if disabled {
        return None;
    }
    if activates(key) {
        Some(state.toggle())
    } else {
        None
    }
}

/// The value of `aria-disabled`: present only on what is disabled.
pub fn get_aria_disabled(disabled: bool) -> (r: Option<&'static str>)
    ensures
        view_of(r) == (if disabled {
            Some("true"@)
        } else {
            None
        }),
{
    if disabled {
        Some("true")
    } else {
        None
    }
}

/// The value of `aria-required`: present only on what is required.
pub fn get_aria_required(required: bool) -> (r: Option<&'static str>)
    ensures
        view_of(r) == (if required {
            Some("true"@)
        } else {
            None
        }),
{
    if required {
        Some("true")
    } else {
        None
    }
}

/// The value of `data-disabled`: present, and empty, only on what is
/// disabled.
pub fn get_data_disabled(disabled: bool) -> (r: Option<&'static str>)
    ensures
        view_of(r) == (if disabled {
            Some(""@)
        } else {
            None
        }),
{
    if disabled {
        Some("")
    } else {
        None
    }
}

/// What a switch lets its thumb read.
#[derive(Clone, Copy, Debug)]
pub struct SwitchContextValue {
    pub checked: bool,
    pub disabled: bool,
}

/// A switch and the attributes it is rendered with: a button with the role
/// `switch` beside a hidden checkbox input that takes part in forms.
pub struct Switch {
    pub state: UseSwitchStateReturn,
    pub disabled: bool,
    pub required: bool,
    pub name: Option<String>,
    /// What the hidden input submits when the switch is on.
    pub value: String,
    pub form: Option<String>,
    pub id: String,
    /// The caller's own classes.
    pub class: String,
}

impl Switch {
    /// A switch with the given properties. Where they are missing it is
    /// neither disabled nor required, submits `on`, has the `id` `switch`
    /// and no classes of the caller's.
    pub fn new(
        checked: Option<bool>,
        default_checked: Option<bool>,
        disabled: Option<bool>,
        required: Option<bool>,
        name: Option<String>,
        value: Option<String>,
        form: Option<String>,
        id: Option<String>,
        class: Option<String>,
    ) -> (r: Switch)
        ensures
            r.state.controlled_value() == checked,
            r.state.internal_value() == (default_checked == Some(true)),
            r.disabled == (disabled == Some(true)),
            r.required == (required == Some(true)),
            r.name == name,
            r.value@ == (match value {
                Some(v) => v@,
                None => "on"@,
            }),
            r.form == form,
            r.id@ == (match id {
                Some(i) => i@,
                None => "switch"@,
            }),
            r.class@ == (match class {
                Some(c) => c@,
                None => ""@,
            }),
    {
        Switch {
            state: use_switch_state(checked, default_checked),
            disabled: match disabled {
                Some(d) => d,
                None => false,
            },
            required: match required {
                Some(d) => d,
                None => false,
            },
            name,
            value: string_or(value, "on"),
            form,
            id: string_or(id, "switch"),
            class: string_or(class, ""),
        }
    }

    /// A click on the button.
    pub fn click(&mut self) -> (announced: Option<bool>)
        ensures
            old(self).disabled ==> announced is None && *final(self) == *old(self),
            !old(self).disabled ==> announced == Some(!old(self).state@) && *final(self) == (Switch {
                state: old(self).state.after_toggle(),
                ..*old(self)
            }),
    {
        handle_switch_click(self.disabled, &mut self.state)
    }

    /// A key pressed on the button. Where the result is a value, the key's
    /// own effect is to be suppressed.
    pub fn keydown(&mut self, key: &str) -> (announced: Option<bool>)
        ensures
            old(self).disabled || !is_activation_key(key@) ==> announced is None && *final(self)
                == *old(self),
            !old(self).disabled && is_activation_key(key@) ==> announced == Some(!old(self).state@)
                && *final(self) == (Switch {
                state: old(self).state.after_toggle(),
                ..*old(self)
            }),
    {
        handle_switch_keydown(self.disabled, &mut self.state, key)
    }

    /// Whether the hidden input is checked.
    pub fn input_checked(&self) -> (r: bool)
        ensures
            r == self.state@,
    {
        self.state.checked()
    }

    /// The value of `name` on the hidden input.
    pub fn name(&self) -> (r: Option<&str>)
        ensures
            view_of(r) == view_of_string(self.name),
    {
        as_opt_str(&self.name)
    }

    /// The value of `form` on the hidden input.
    pub fn form(&self) -> (r: Option<&str>)
        ensures
            view_of(r) == view_of_string(self.form),
    {
        as_opt_str(&self.form)
    }

    /// The value of `role` on the button.
    pub fn role(&self) -> (r: &'static str)
        ensures
            r@ == "switch"@,
    {
        "switch"
    }

    /// The value of `aria-checked`.
    pub fn aria_checked(&self) -> (r: &'static str)
        ensures
            r@ == switch_aria_checked(self.state@),
    {
        self.state.get_aria_checked()
    }

    /// The value of `aria-disabled`.
    pub fn aria_disabled(&self) -> (r: Option<&'static str>)
        ensures
            view_of(r) == (if self.disabled {
                Some("true"@)
            } else {
                None
            }),
    {
        get_aria_disabled(self.disabled)
    }

    /// The value of `aria-required`.
    pub fn aria_required(&self) -> (r: Option<&'static str>)
        ensures
            view_of(r) == (if self.required {
                Some("true"@)
            } else {
                None
            }),
    {
        get_aria_required(self.required)
    }

    /// The value of `data-state`.
    pub fn data_state(&self) -> (r: &'static str)
        ensures
            r@ == switch_state_attr(self.state@),
    {
        self.state.get_state_attr()
    }

    /// The value of `data-disabled`.
    pub fn data_disabled(&self) -> (r: Option<&'static str>)
        ensures
            view_of(r) == (if self.disabled {
                Some(""@)
            } else {
                None
            }),
    {
        get_data_disabled(self.disabled)
    }

    /// The value of `class` on the button.
    pub fn class(&self) -> (r: String)
        ensures
            r@ == switch_classes_spec(self.class@),
    {
        get_switch_classes(self.class.clone())
    }

    /// What the thumb may read of the switch.
    pub fn context(&self) -> (r: SwitchContextValue)
        ensures
            r.checked == self.state@,
            r.disabled == self.disabled,
    {
        SwitchContextValue { checked: self.state.checked(), disabled: self.disabled }
    }
}

/// The thumb of a switch and the attributes it is rendered with.
///
/// It reads the switch it stands in. Outside of any switch it is rendered
/// as the thumb of one that is off and not disabled.
pub struct SwitchThumb {
    /// The caller's own classes.
    pub class: String,
}

impl SwitchThumb {
    pub fn new(class: Option<String>) -> (r: SwitchThumb)
        ensures
            r.class@ == (match class {
                Some(c) => c@,
                None => ""@,
            }),
    {
        SwitchThumb { class: string_or(class, "") }
    }

    /// The value of `data-state`.
    pub fn data_state(&self, context: Option<&SwitchContextValue>) -> (r: &'static str)
        ensures
            r@ == switch_state_attr(context matches Some(c) && c.checked),
    {
        match context {
            Some(c) => if c.checked {
                "checked"
            } else {
                "unchecked"
            },
            None => "unchecked",
        }
    }

    /// The value of `data-disabled`.
    pub fn data_disabled(&self, context: Option<&SwitchContextValue>) -> (r: Option<&'static str>)
        ensures
            view_of(r) == (if context matches Some(c) && c.disabled {
                Some(""@)
            } else {
                None
            }),
    {
        match context {
            Some(c) => get_data_disabled(c.disabled),
            None => None,
        }
    }

    /// The value of `class`.
    pub fn class(&self) -> (r: String)
        ensures
            r@ == switch_thumb_classes_spec(self.class@),
    {
        get_switch_thumb_classes(self.class.clone())
    }
}

} // verus!
