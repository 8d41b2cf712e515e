//! What a value was before it changed.
//!
//! Each tracker is told of the value whenever it is read anew, first of all
//! when the primitive is set up.
use vstd::prelude::*;
use vstd::std_specs::cmp::PartialEqSpec;

verus! {

/// Takes note of the current value: it is what the tracker holds from now
/// on.
pub fn use_previous<T>(previous: &mut Option<T>, current: T)
    ensures
        *final(previous) == Some(current),
{
    *previous = Some(current);
}

/// A tracker that keeps the value before the last change that counted.
pub struct UsePreviousWithReturn<T> {
    /// The value before the last change that counted, if there was one.
    pub previous: Option<T>,
    /// The value last seen.
    pub last_value: Option<T>,
}

impl<T> UsePreviousWithReturn<T> {
    /// A tracker that has seen nothing.
    pub fn new() -> (r: Self)
        ensures
            r.previous is None,
            r.last_value is None,
    {
        UsePreviousWithReturn { previous: None, last_value: None }
    }
}

/// Takes note of the current value.
///
/// If a value was seen before and `should_update` says of it and the current
/// one that the change counts, the earlier value becomes the previous one.
/// The current value is the one last seen in any case.
pub fn use_previous_with<T: Copy, F: Fn(&T, &T) -> bool>(
    tracker: &mut UsePreviousWithReturn<T>,
    current: T,
    should_update: F,
)
    requires
        forall|a: T, b: T| should_update.requires((&a, &b)),
    ensures
        final(tracker).last_value == Some(current),
        old(tracker).last_value is None ==> final(tracker).previous == old(tracker).previous,
        old(tracker).last_value matches Some(last) ==> exists|counts: bool|
            #[trigger] should_update.ensures((&last, &current), counts) && final(tracker).previous == (if counts {
                Some(last)
            } else {
                old(tracker).previous
            }),
{
    match tracker.last_value {
        Some(last) => {
            let counts = should_update(&last, &current);
            if counts {
                tracker.previous = Some(last);
            }
        },
        None => {},
    }
    tracker.last_value = Some(current);
}

/// A tracker that also tells whether the value has changed.
pub struct UsePreviousDetailedReturn<T> {
    /// The value last seen, if any was.
    pub previous: Option<T>,
    /// Whether the value last seen differed from the one before it.
    pub has_changed: bool,
    /// Whether at most one value has been seen.
    pub is_first_render: bool,
}

/// A tracker that has seen nothing.
pub fn use_previous_detailed<T>() -> (r: UsePreviousDetailedReturn<T>)
    ensures
        r.previous is None,
        !r.has_changed,
        r.is_first_render,
{
    UsePreviousDetailedReturn { previous: None, has_changed: false, is_first_render: true }
}

impl<T: Copy + PartialEq> UsePreviousDetailedReturn<T> {
    /// Takes note of the current value.
    ///
    /// The first value ever seen counts as no change. Later ones count as a
    /// change when they are not equal to the value seen before.
    pub fn observe(&mut self, current: T)
        ensures
            final(self).previous == Some(current),
            final(self).is_first_render == old(self).previous is None,
            old(self).previous is None ==> !final(self).has_changed,
            old(self).previous matches Some(prev) ==> (T::obeys_eq_spec() ==> final(self).has_changed == !prev.eq_spec(&current)),
    {
        match self.previous {
            Some(prev) => {
                let changed = prev != current;
                self.has_changed = changed;
                self.is_first_render = false;
            },
            None => {
                self.has_changed = false;
                self.is_first_render = true;
            },
        }
        self.previous = Some(current);
    }
}

} // verus!
