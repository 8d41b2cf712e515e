//! Which clicks land outside of an overlay.
use vstd::prelude::*;

verus! {

/// How a primitive listens for clicks outside of it.
pub struct UseOutsideClickConfig {
    /// Whether the events are taken on their way in rather than on their
    /// way out.
    pub capture: bool,
    /// The kinds of event that count as a click.
    pub events: Vec<&'static str>,
    /// Whether the primitive listens at all.
    pub enabled: bool,
}

impl Default for UseOutsideClickConfig {
    /// Listens for `click` alone, on the events' way out.
    fn default() -> (r: UseOutsideClickConfig)
        ensures
            !r.capture,
            r.events@.len() == 1,
            r.events@[0]@ == "click"@,
            r.enabled,
    {
        let mut events: Vec<&'static str> = Vec::new();
        events.push("click");
        UseOutsideClickConfig { capture: false, events, enabled: true }
    }
}

/// Whether a click is outside of one element: when the element does not
/// contain what was clicked.
pub fn use_outside_click(contains_target: bool) -> (outside: bool)
    ensures
        outside == !contains_target,
{
    !contains_target
}

/// No element contains what was clicked.
pub open spec fn none_contains(contains_target: Seq<bool>) -> bool {
    forall|i: int| 0 <= i < contains_target.len() ==> !(#[trigger] contains_target[i])
}

/// Whether a click is outside of several elements, of each of which
/// `contains_target` says whether it contains what was clicked: when there
/// is an element at all and none contains it.
pub fn use_outside_click_multiple(contains_target: &Vec<bool>) -> (outside: bool)
    ensures
        outside == (contains_target@.len() > 0 && none_contains(contains_target@)),
{
    if contains_target.len() == 0 {
        return false;
    }
    let mut i: usize = 0;
    while i < contains_target.len()
        invariant
            i <= contains_target.len(),
            forall|j: int| 0 <= j < i ==> !(#[trigger] contains_target@[j]),
        decreases contains_target.len() - i,
    {
        if contains_target[i] {
            return false;
        }
        i = i + 1;
    }
    true
}

/// Whether an event under `config` is a click outside of the element: when
/// the configuration is enabled and the element does not contain what was
/// clicked.
pub fn use_outside_click_with_config(config: &UseOutsideClickConfig, contains_target: bool) -> (outside:
    bool)
    ensures
        outside == (config.enabled && !contains_target),
{
    config.enabled && !contains_target
}

} // verus!
