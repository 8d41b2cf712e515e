//! A progress bar and the part of it that is filled.
use crate::binary64::Binary64;
use crate::hooks::use_progress_state::{
    get_progress_style, progress_style_spec, resolve_max_spec, resolve_value_spec,
    state_label_spec, use_progress_state, ProgressLabel, UseProgressStateReturn,
};
use crate::text::{string_or, view_of};
use vstd::prelude::*;
use vstd::string::StringExecFns;

verus! {

pub const PROGRESS_BASE_CLASSES: &'static str =
    "relative h-2 w-full overflow-hidden rounded-full bg-gray-200";

pub const PROGRESS_STATE_CLASSES: &'static str = "data-[state=indeterminate]:animate-pulse";

pub const PROGRESS_INDICATOR_BASE_CLASSES: &'static str =
    "h-full bg-black transition-all duration-300 ease-in-out";

pub const PROGRESS_INDICATOR_STATE_CLASSES: &'static str =
    "data-[state=indeterminate]:animate-pulse data-[state=indeterminate]:bg-gradient-to-r data-[state=indeterminate]:from-gray-400 data-[state=indeterminate]:to-black";

/// The value of `class` for a progress bar: its own classes and then the
/// caller's.
pub fn get_progress_classes(user_class: String) -> (r: String)
    ensures
        r@ == PROGRESS_BASE_CLASSES@ + " "@ + PROGRESS_STATE_CLASSES@ + " "@ + user_class@,
{
    let mut s = String::from_str(PROGRESS_BASE_CLASSES);
    s.append(" ");
    s.append(PROGRESS_STATE_CLASSES);
    s.append(" ");
    s.append(user_class.as_str());
    s
}

/// The value of `class` for the filled part of a bar: its own classes and
/// then the caller's.
pub fn get_progress_indicator_classes(user_class: String) -> (r: String)
    ensures
        r@ == PROGRESS_INDICATOR_BASE_CLASSES@ + " "@ + PROGRESS_INDICATOR_STATE_CLASSES@ + " "@
            + user_class@,
{
    let mut s = String::from_str(PROGRESS_INDICATOR_BASE_CLASSES);
    s.append(" ");
    s.append(PROGRESS_INDICATOR_STATE_CLASSES);
    s.append(" ");
    s.append(user_class.as_str());
    s
}

/// What a progress bar lets the parts inside it read.
#[derive(Clone, Copy, Debug)]
pub struct ProgressContextValue {
    /// The value shown, if there is one.
    pub value: Option<Binary64>,
    /// The limit of the bar.
    pub max: Binary64,
    /// Whether the bar is marked indeterminate.
    pub indeterminate: bool,
    /// What the bar reports of its task.
    pub label: ProgressLabel,
}

/// A progress bar and the attributes it is rendered with.
pub struct Progress {
    pub state: UseProgressStateReturn,
    pub id: String,
    /// The caller's own classes.
    pub class: String,
}

impl Progress {
    /// A bar with the given properties; its `id` is `progress` and it has no
    /// classes of the caller's where they are missing.
    pub fn new(
        value: Option<Binary64>,
        max: Option<Binary64>,
        indeterminate: Option<bool>,
        id: Option<String>,
        class: Option<String>,
    ) -> (r: Progress)
        ensures
            r.state.max_spec() == (match max {
                Some(m) => resolve_max_spec(m),
                None => Binary64::hundred_spec(),
            }),
            r.state.value_spec() == (match value {
                Some(v) => resolve_value_spec(v, r.state.max_spec()),
                None => None,
            }),
            r.state.indeterminate_spec() == (indeterminate == Some(true)),
            r.id@ == (match id {
                Some(i) => i@,
                None => "progress"@,
            }),
            r.class@ == (match class {
                Some(c) => c@,
                None => ""@,
            }),
    {
        Progress {
            state: use_progress_state(value, max, indeterminate),
            id: string_or(id, "progress"),
            class: string_or(class, ""),
        }
    }

    /// The value of `id`.
    pub fn id(&self) -> (r: &str)
        ensures
            r@ == self.id@,
    {
        self.id.as_str()
    }

    /// The value of `role`.
    pub fn role(&self) -> (r: &'static str)
        ensures
            r@ == "progressbar"@,
    {
        "progressbar"
    }

    /// The value of `aria-valuenow`: absent while the progress is
    /// indeterminate.
    pub fn aria_valuenow(&self) -> (r: Option<Binary64>)
        ensures
            r == self.state.shown_value(),
    {
        self.state.get_aria_valuenow()
    }

    /// The value of `aria-valuemax`.
    pub fn aria_valuemax(&self) -> (r: Binary64)
        ensures
            r == self.state.max_spec(),
    {
        self.state.get_aria_valuemax()
    }

    /// The value of `aria-valuemin`: always zero.
    pub fn aria_valuemin(&self) -> (r: Binary64)
        ensures
            r == Binary64::zero_spec(),
    {
        self.state.get_aria_valuemin()
    }

    /// The value of `data-state`.
    pub fn data_state(&self) -> (r: &'static str)
        ensures
            r@ == state_label_spec(
                self.state.shown_value(),
                self.state.max_spec(),
            ).state_attr_spec(),
    {
        self.state.get_state_attr()
    }

    /// The value of `data-value`: the value on the bar, if the one given can
    /// lie on it.
    pub fn data_value(&self) -> (r: Option<Binary64>)
        ensures
            r == self.state.value_spec(),
    {
        self.state.value()
    }

    /// The value of `data-max`.
    pub fn data_max(&self) -> (r: Binary64)
        ensures
            r == self.state.max_spec(),
    {
        self.state.max()
    }

    /// The value of `class`.
    pub fn class(&self) -> (r: String)
        ensures
            r@ == PROGRESS_BASE_CLASSES@ + " "@ + PROGRESS_STATE_CLASSES@ + " "@ + self.class@,
    {
        get_progress_classes(self.class.clone())
    }

    /// What the parts inside the bar may read of it.
    pub fn context(&self) -> (r: ProgressContextValue)
        ensures
            r.value == self.state.shown_value(),
            r.max == self.state.max_spec(),
            r.indeterminate == self.state.indeterminate_spec(),
            r.label == state_label_spec(self.state.shown_value(), self.state.max_spec()),
    {
        ProgressContextValue {
            value: self.state.get_aria_valuenow(),
            max: self.state.max(),
            indeterminate: self.state.indeterminate(),
            label: self.state.state_label(),
        }
    }
}

/// The filled part of a progress bar and the attributes it is rendered with.
///
/// It reads the bar it stands in. Outside of any bar it is rendered as the
/// filled part of an indeterminate one.
pub struct ProgressIndicator {
    /// The caller's own classes.
    pub class: String,
}

impl ProgressIndicator {
    pub fn new(class: Option<String>) -> (r: ProgressIndicator)
        ensures
            r.class@ == (match class {
                Some(c) => c@,
                None => ""@,
            }),
    {
        ProgressIndicator { class: string_or(class, "") }
    }

    /// The value of `data-state`.
    pub fn data_state(&self, context: Option<&ProgressContextValue>) -> (r: &'static str)
        ensures
            r@ == (match context {
                Some(c) => c.label.state_attr_spec(),
                None => ProgressLabel::Indeterminate.state_attr_spec(),
            }),
    {
        match context {
            Some(c) => c.label.state_attr(),
            None => ProgressLabel::Indeterminate.state_attr(),
        }
    }

    /// The value of `data-value`.
    pub fn data_value(&self, context: Option<&ProgressContextValue>) -> (r: Option<Binary64>)
        ensures
            r == (match context {
                Some(c) => c.value,
                None => None,
            }),
    {
        match context {
            Some(c) => c.value,
            None => None,
        }
    }

    /// The value of `data-max`.
    pub fn data_max(&self, context: Option<&ProgressContextValue>) -> (r: Binary64)
        ensures
            r == (match context {
                Some(c) => c.max,
                None => Binary64::hundred_spec(),
            }),
    {
        match context {
            Some(c) => c.max,
            None => Binary64::hundred(),
        }
    }

    /// The value of `style`, from the percentage written out in decimal.
    pub fn style(&self, percentage: Option<&str>) -> (r: String)
        ensures
            r@ == progress_style_spec(view_of(percentage)),
    {
        get_progress_style(percentage)
    }

    /// The value of `class`.
    pub fn class(&self) -> (r: String)
        ensures
            r@ == PROGRESS_INDICATOR_BASE_CLASSES@ + " "@ + PROGRESS_INDICATOR_STATE_CLASSES@
                + " "@ + self.class@,
    {
        get_progress_indicator_classes(self.class.clone())
    }
}

} // verus!
