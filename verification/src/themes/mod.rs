//! Light and dark mode.
use vstd::prelude::*;

verus! {

/// The two modes.
#[derive(Clone, Copy, Debug, PartialEq, Eq, Structural)]
pub enum ThemeMode {
    Light,
    Dark,
}

impl ThemeMode {
    /// The other mode.
    pub open spec fn toggled_spec(self) -> ThemeMode {
        match self {
            ThemeMode::Light => ThemeMode::Dark,
            ThemeMode::Dark => ThemeMode::Light,
        }
    }

    /// The class that the document's root element carries in this mode.
    pub open spec fn class_name_spec(self) -> Seq<char> {
        match self {
            ThemeMode::Light => "light"@,
            ThemeMode::Dark => "dark"@,
        }
    }

    /// What the button that changes the mode shows: a sun in dark mode, a
    /// moon in light mode.
    pub fn toggle_icon(self) -> (r: &'static str)
        ensures
            r@ == (match self {
                ThemeMode::Dark => "☀️"@,
                ThemeMode::Light => "🌙"@,
            }),
    {
        match self {
            ThemeMode::Dark => "☀️",
            ThemeMode::Light => "🌙",
        }
    }

    /// The title of the button that changes the mode: it names the mode
    /// that a click leads to.
    pub fn toggle_title(self) -> (r: &'static str)
        ensures
            r@ == (match self {
                ThemeMode::Dark => "Switch to light mode"@,
                ThemeMode::Light => "Switch to dark mode"@,
            }),
    {
        match self {
            ThemeMode::Dark => "Switch to light mode",
            ThemeMode::Light => "Switch to dark mode",
        }
    }

    /// The other mode.
    pub fn toggled(self) -> (r: ThemeMode)
        ensures
            r == self.toggled_spec(),
    {
        match self {
            ThemeMode::Light => ThemeMode::Dark,
            ThemeMode::Dark => ThemeMode::Light,
        }
    }

    /// The class to put on the document's root element in this mode.
    pub fn class_to_add(self) -> (r: &'static str)
        ensures
            r@ == self.class_name_spec(),
    {
        match self {
            ThemeMode::Light => "light",
            ThemeMode::Dark => "dark",
        }
    }

    /// The class to take off the document's root element in this mode: that
    /// of the other mode.
    pub fn class_to_remove(self) -> (r: &'static str)
        ensures
            r@ == self.toggled_spec().class_name_spec(),
    {
        match self {
            ThemeMode::Light => "dark",
            ThemeMode::Dark => "light",
        }
    }
}

/// The mode that an application is in.
#[derive(Clone, Copy, Debug)]
pub struct ThemeContext {
    pub mode: ThemeMode,
}

impl ThemeContext {
    /// A context in light mode.
    pub fn new() -> (r: ThemeContext)
        ensures
            r.mode == ThemeMode::Light,
    {
        ThemeContext { mode: ThemeMode::Light }
    }

    /// Changes to the other mode.
    pub fn toggle(&mut self)
        ensures
            final(self).mode == old(self).mode.toggled_spec(),
    {
        self.mode = self.mode.toggled();
    }
}

/// The context that was provided, or a new one in light mode where none was.
pub fn use_theme(provided: Option<ThemeContext>) -> (r: ThemeContext)
    ensures
        r.mode == (match provided {
            Some(c) => c.mode,
            None => ThemeMode::Light,
        }),
{
    match provided {
        Some(c) => c,
        None => ThemeContext::new(),
    }
}

/// Changing mode twice leads back.
pub proof fn lemma_toggle_twice(mode: ThemeMode)
    ensures
        mode.toggled_spec().toggled_spec() == mode,
        mode.toggled_spec() != mode,
{
}

} // verus!
