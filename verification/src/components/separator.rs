//! A divider between two sections of content.
use crate::text::{as_opt_str, str_eq, string_or, trim_str, trimmed, view_of, view_of_string};
use vstd::prelude::*;
use vstd::string::StringExecFns;

verus! {

/// The classes of a divider that runs from top to bottom.
pub const SEPARATOR_VERTICAL_CLASSES: &'static str = "inline-block w-px bg-gray-200";

/// The classes of a divider that runs from side to side.
pub const SEPARATOR_HORIZONTAL_CLASSES: &'static str = "block h-px w-full bg-gray-200";

/// The classes that show the focus on a divider that assistive technology
/// can reach.
pub const SEPARATOR_FOCUS_CLASSES: &'static str =
    "focus:outline-none focus:ring-2 focus:ring-blue-500 focus:ring-offset-2";

/// The classes of a divider before the white space at the ends is removed.
pub open spec fn separator_classes_untrimmed(
    orientation: Seq<char>,
    decorative: bool,
    user_class: Seq<char>,
) -> Seq<char> {
    let base = if orientation == "vertical"@ {
        SEPARATOR_VERTICAL_CLASSES@
    } else {
        SEPARATOR_HORIZONTAL_CLASSES@
    };
    let accessibility = if decorative {
        ""@
    } else {
        SEPARATOR_FOCUS_CLASSES@
    };
    base + " "@ + accessibility + " "@ + user_class
}

/// The value of `class` for a divider: the classes of its orientation, those
/// of the focus ring unless it is decorative, and the caller's own, with one
/// space between them and no white space at either end.
pub fn get_separator_classes(orientation: &str, decorative: bool, user_class: String) -> (r:
    String)
    ensures
        r@ == trimmed(separator_classes_untrimmed(orientation@, decorative, user_class@)),
{
    let base = if str_eq(orientation, "vertical") {
        SEPARATOR_VERTICAL_CLASSES
    } else {
        SEPARATOR_HORIZONTAL_CLASSES
    };
    let accessibility = if decorative {
        ""
    } else {
        SEPARATOR_FOCUS_CLASSES
    };
    let mut s = String::from_str(base);
    s.append(" ");
    s.append(accessibility);
    s.append(" ");
    s.append(user_class.as_str());
    String::from_str(trim_str(s.as_str()))
}

/// A divider and the attributes it is rendered with.
pub struct Separator {
    /// `vertical` for a divider from top to bottom; anything else counts as
    /// horizontal.
    pub orientation: String,
    /// Whether the divider is ornament only, with nothing for assistive
    /// technology.
    pub decorative: bool,
    /// The caller's own classes.
    pub class: String,
    pub id: Option<String>,
}

impl Separator {
    /// A divider with the given properties: horizontal, not decorative and
    /// without classes of the caller's where they are missing.
    pub fn new(
        orientation: Option<String>,
        decorative: Option<bool>,
        class: Option<String>,
        id: Option<String>,
    ) -> (r: Separator)
        ensures
            r.orientation@ == (match orientation {
                Some(o) => o@,
                None => "horizontal"@,
            }),
            r.decorative == (decorative == Some(true)),
            r.class@ == (match class {
                Some(c) => c@,
                None => ""@,
            }),
            r.id == id,
    {
        Separator {
            orientation: string_or(orientation, "horizontal"),
            decorative: match decorative {
                Some(d) => d,
                None => false,
            },
            class: string_or(class, ""),
            id,
        }
    }

    /// The value of `id`.
    pub fn id(&self) -> (r: Option<&str>)
        ensures
            view_of(r) == view_of_string(self.id),
    {
        as_opt_str(&self.id)
    }

    /// The value of `role`: none for a decorative divider.
    pub fn role(&self) -> (r: Option<&'static str>)
        ensures
            view_of(r) == (if self.decorative {
                None
            } else {
                Some("separator"@)
            }),
    {
        if self.decorative {
            None
        } else {
            Some("separator")
        }
    }

    /// The value of `aria-orientation`: none for a decorative divider.
    pub fn aria_orientation(&self) -> (r: Option<&'static str>)
        ensures
            view_of(r) == (if self.decorative {
                None
            } else if self.orientation@ == "vertical"@ {
                Some("vertical"@)
            } else {
                Some("horizontal"@)
            }),
    {
        if self.decorative {
            None
        } else if str_eq(self.orientation.as_str(), "vertical") {
            Some("vertical")
        } else {
            Some("horizontal")
        }
    }

    /// The value of `data-orientation`: the orientation as it was given.
    pub fn data_orientation(&self) -> (r: &str)
        ensures
            r@ == self.orientation@,
    {
        self.orientation.as_str()
    }

    /// The value of `class`.
    pub fn class(&self) -> (r: String)
        ensures
            r@ == trimmed(
                separator_classes_untrimmed(self.orientation@, self.decorative, self.class@),
            ),
    {
        get_separator_classes(self.orientation.as_str(), self.decorative, self.class.clone())
    }
}

} // verus!
