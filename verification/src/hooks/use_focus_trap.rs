//! Keeping the focus inside an overlay.
use vstd::prelude::*;

verus! {

/// How the focus is kept inside an overlay.
pub struct UseFocusTrapConfig {
    /// Whether the first element takes the focus when the trap is set.
    pub auto_focus: bool,
    /// Whether the focus goes back to where it was when the trap is lifted.
    pub restore_focus: bool,
    /// The selector of the elements that can take the focus, where the
    /// usual ones are not meant.
    pub focusable_selector: Option<String>,
    /// Whether the trap is set at all.
    pub enabled: bool,
}

impl Default for UseFocusTrapConfig {
    /// A trap that is set, gives the focus to the first element and gives
    /// it back in the end.
    fn default() -> (r: UseFocusTrapConfig)
        ensures
            r.auto_focus,
            r.restore_focus,
            r.focusable_selector is None,
            r.enabled,
    {
        UseFocusTrapConfig {
            auto_focus: true,
            restore_focus: true,
            focusable_selector: None,
            enabled: true,
        }
    }
}

/// Whether the trap is set: while it is enabled and its container is in the
/// document.
pub fn use_focus_trap(enabled: bool, container_mounted: bool) -> (set: bool)
    ensures
        set == (enabled && container_mounted),
{
    enabled && container_mounted
}

/// Whether the trap is set under `config`: while it is enabled and its
/// container is in the document.
pub fn use_focus_trap_with_config(config: &UseFocusTrapConfig, container_mounted: bool) -> (set:
    bool)
    ensures
        set == (config.enabled && container_mounted),
{
    config.enabled && container_mounted
}

/// A trap that is set and lifted by hand.
#[derive(Clone, Copy, Debug)]
pub struct UseFocusTrapDetailedReturn {
    /// Whether the trap is asked for.
    pub is_active: bool,
}

impl UseFocusTrapDetailedReturn {
    /// Asks for the trap.
    pub fn activate(&mut self)
        ensures
            final(self).is_active,
    {
        self.is_active = true;
    }

    /// Lifts the trap.
    pub fn deactivate(&mut self)
        ensures
            !final(self).is_active,
    {
        self.is_active = false;
    }

    /// Whether the trap is set: while it is asked for and its container is
    /// in the document.
    pub fn is_set(&self, container_mounted: bool) -> (set: bool)
        ensures
            set == (self.is_active && container_mounted),
    {
        self.is_active && container_mounted
    }
}

/// A trap that is not asked for yet.
pub fn use_focus_trap_detailed() -> (r: UseFocusTrapDetailedReturn)
    ensures
        !r.is_active,
{
    UseFocusTrapDetailedReturn { is_active: false }
}

} // verus!
