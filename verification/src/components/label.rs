//! A label for a form control.
use crate::text::{str_eq, view_of, view_of_string};
use vstd::prelude::*;
use vstd::string::StringExecFns;

verus! {

/// The text of `s` in lower case, as Unicode defines the lower case of each
/// character.
pub uninterp spec fn lowercased(s: Seq<char>) -> Seq<char>;

/// `str::to_lowercase` of the standard library. The contract names its
/// result: the string that the standard library returns for this text, its
/// lower-case equivalent.
#[verifier::external_body]
fn to_lowercase(s: &str) -> (r: String)
    ensures
        r@ == lowercased(s@),
{
    s.to_lowercase()
}

/// Whether a tag name in lower case is that of a form control.
pub open spec fn is_form_control_tag_spec(tag: Seq<char>) -> bool {
    tag == "button"@ || tag == "input"@ || tag == "select"@ || tag == "textarea"@
}

/// Whether a tag name in lower case is that of a form control: a button, an
/// input, a select or a text area.
pub fn is_form_control_tag(tag: &str) -> (r: bool)
    ensures
        r == is_form_control_tag_spec(tag@),
{
    str_eq(tag, "button") || str_eq(tag, "input") || str_eq(tag, "select") || str_eq(
        tag,
        "textarea",
    )
}

/// What a mouse button went down on, inside a label.
pub struct MouseDownTarget {
    /// The element's tag name, in whatever case the document gives it.
    pub tag_name: String,
    /// Whether the element lies inside a form control.
    pub inside_form_control: bool,
}

impl MouseDownTarget {
    /// Whether the target is a form control or lies inside one.
    pub open spec fn is_on_form_control(&self) -> bool {
        is_form_control_tag_spec(lowercased(self.tag_name@)) || self.inside_form_control
    }
}

/// The classes of a label: the root class, one for each of required and
/// disabled that holds, and the caller's own, with one space between them.
pub open spec fn label_classes_spec(
    required: bool,
    disabled: bool,
    class: Option<Seq<char>>,
) -> Seq<char> {
    "label-root"@ + (if required {
        " "@ + "label-required"@
    } else {
        Seq::<char>::empty()
    }) + (if disabled {
        " "@ + "label-disabled"@
    } else {
        Seq::<char>::empty()
    }) + (match class {
        Some(c) => " "@ + c,
        None => Seq::<char>::empty(),
    })
}

/// The value of `data-state` for a label: disabled before required.
pub open spec fn label_state_spec(required: bool, disabled: bool) -> Seq<char> {
    if disabled {
        "disabled"@
    } else if required {
        "required"@
    } else {
        "default"@
    }
}

/// A label and the attributes it is rendered with.
pub struct Label {
    /// The `id` of the control that the label is for.
    pub for_: Option<String>,
    /// The caller's own classes.
    pub class: Option<String>,
    pub id: Option<String>,
    pub style: Option<String>,
    pub data_testid: Option<String>,
    pub aria_label: Option<String>,
    pub aria_labelledby: Option<String>,
    pub aria_describedby: Option<String>,
    /// Whether the control is required.
    pub required: bool,
    /// Whether the control is disabled.
    pub disabled: bool,
}

impl Label {
    /// A label with the given properties, for a control that is neither
    /// required nor disabled where nothing is said of that.
    pub fn new(
        for_: Option<String>,
        class: Option<String>,
        id: Option<String>,
        style: Option<String>,
        data_testid: Option<String>,
        aria_label: Option<String>,
        aria_labelledby: Option<String>,
        aria_describedby: Option<String>,
        required: Option<bool>,
        disabled: Option<bool>,
    ) -> (r: Label)
        ensures
            r.for_ == for_,
            r.class == class,
            r.id == id,
            r.style == style,
            r.data_testid == data_testid,
            r.aria_label == aria_label,
            r.aria_labelledby == aria_labelledby,
            r.aria_describedby == aria_describedby,
            r.required == (required == Some(true)),
            r.disabled == (disabled == Some(true)),
    {
        Label {
            for_,
            class,
            id,
            style,
            data_testid,
            aria_label,
            aria_labelledby,
            aria_describedby,
            required: match required {
                Some(r) => r,
                None => false,
            },
            disabled: match disabled {
                Some(d) => d,
                None => false,
            },
        }
    }

    /// The value of `class`.
    pub fn class_value(&self) -> (r: String)
        ensures
            r@ == label_classes_spec(self.required, self.disabled, view_of_string(self.class)),
    {
        let mut s = String::from_str("label-root");
        if self.required {
            s.append(" ");
            s.append("label-required");
        }
        if self.disabled {
            s.append(" ");
            s.append("label-disabled");
        }
        match &self.class {
            Some(c) => {
                s.append(" ");
                s.append(c.as_str());
            },
            None => {},
        }
        assert(s@ =~= label_classes_spec(
            self.required,
            self.disabled,
            view_of_string(self.class),
        ));
        s
    }

    /// The value of `data-state`.
    pub fn data_state(&self) -> (r: &'static str)
        ensures
            r@ == label_state_spec(self.required, self.disabled),
    {
        if self.disabled {
            "disabled"
        } else if self.required {
            "required"
        } else {
            "default"
        }
    }

    /// The value of `data-required`: present, and empty, only for a required
    /// control.
    pub fn data_required(&self) -> (r: Option<&'static str>)
        ensures
            view_of(r) == (if self.required {
                Some(""@)
            } else {
                None
            }),
    {
        if self.required {
            Some("")
        } else {
            None
        }
    }

    /// The value of `data-disabled`: present, and empty, only for a disabled
    /// control.
    pub fn data_disabled(&self) -> (r: Option<&'static str>)
        ensures
            view_of(r) == (if self.disabled {
                Some(""@)
            } else {
                None
            }),
    {
        if self.disabled {
            Some("")
        } else {
            None
        }
    }

    /// A mouse button went down on the label: whether the event's own effect
    /// is to be suppressed.
    ///
    /// It is, to keep a double click from selecting the label's text, when
    /// the click is the second or a later one of a run (`detail` counts
    /// them) and did not land on a form control or inside one. `target` is
    /// absent where the event has no element for a target.
    pub fn handle_mouse_down(target: Option<&MouseDownTarget>, detail: i32) -> (prevent_default:
        bool)
        ensures
            prevent_default == (detail > 1 && !(target matches Some(t)
                && t.is_on_form_control())),
    {
        match target {
            Some(t) => {
                let tag = to_lowercase(t.tag_name.as_str());
                if is_form_control_tag(tag.as_str()) {
                    return false;
                }
                if t.inside_form_control {
                    return false;
                }
            },
            None => {},
        }
        detail > 1
    }
}

} // verus!
