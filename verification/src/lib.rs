//! Headless, accessible interface primitives: the state machines and the
//! attribute values of checkbox, switch, progress bar, separator, label and
//! dialog, with nothing of a rendering framework in them.
use vstd::prelude::*;

pub mod binary64;
pub mod components;
pub mod hooks;
pub mod text;
pub mod themes;

pub use components::checkbox::{Checkbox, CheckboxContextValue, CheckboxIndicator};
pub use components::dialog::{
    Dialog, DialogClose, DialogContent, DialogOverlay, DialogTrigger,
};
pub use components::label::Label;
pub use components::progress::{Progress, ProgressContextValue, ProgressIndicator};
pub use components::separator::Separator;
pub use components::switch::{Switch, SwitchContextValue, SwitchThumb};
pub use hooks::CheckedState;

verus! {

/// The theme of the application's own pages.
#[derive(Clone, Copy, Debug, PartialEq, Eq, Structural)]
pub enum Theme {
    Light,
    Dark,
}

impl Theme {
    /// The other theme.
    pub open spec fn toggled_spec(self) -> Theme {
        match self {
            Theme::Light => Theme::Dark,
            Theme::Dark => Theme::Light,
        }
    }

    /// The value of `data-theme`.
    pub open spec fn data_theme_spec(self) -> Seq<char> {
        match self {
            Theme::Light => "light"@,
            Theme::Dark => "dark"@,
        }
    }

    /// The value of `data-theme`.
    pub fn data_theme(self) -> (r: &'static str)
        ensures
            r@ == self.data_theme_spec(),
    {
        match self {
            Theme::Light => "light",
            Theme::Dark => "dark",
        }
    }
}

/// The button that changes the theme.
pub struct ThemeToggle {}

impl ThemeToggle {
    /// A click on the button: the theme is the other one.
    pub fn click(theme: &mut Theme)
        ensures
            *final(theme) == old(theme).toggled_spec(),
    {
        *theme = match *theme {
            Theme::Light => Theme::Dark,
            Theme::Dark => Theme::Light,
        };
    }

    /// What the button shows: a moon in the light theme, a sun in the dark
    /// one.
    pub fn icon(theme: Theme) -> (r: &'static str)
        ensures
            r@ == (match theme {
                Theme::Light => "🌙"@,
                Theme::Dark => "☀️"@,
            }),
    {
        match theme {
            Theme::Light => "🌙",
            Theme::Dark => "☀️",
        }
    }
}

} // verus!
