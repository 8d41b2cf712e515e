//! A value that is either owned by the primitive itself or supplied from
//! outside.
//!
//! A primitive that is given a value from outside is *controlled*: it shows
//! that value and never writes to its own. Otherwise it is *uncontrolled* and
//! shows, and updates, the value it keeps itself. Either way every request
//! for a change is announced to the owner, who may be listening.
use vstd::prelude::*;

verus! {

/// The state behind a controlled or uncontrolled primitive.
pub struct UseControllableStateReturn<T> {
    controlled_value: Option<T>,
    internal_value: T,
}

impl<T> UseControllableStateReturn<T> {
    /// The value supplied from outside, if there is one.
    pub closed spec fn controlled_value(&self) -> Option<T> {
        self.controlled_value
    }

    /// The value that the primitive keeps itself.
    pub closed spec fn internal_value(&self) -> T {
        self.internal_value
    }

    /// The value shown: the one from outside if there is one, else the
    /// primitive's own.
    pub open spec fn current_value(&self) -> T {
        match self.controlled_value() {
            Some(v) => v,
            None => self.internal_value(),
        }
    }

    pub open spec fn is_controlled_spec(&self) -> bool {
        self.controlled_value() is Some
    }

    /// The state after a request for `new_value`: an uncontrolled state has
    /// taken it, a controlled one is unchanged.
    pub closed spec fn after_set(self, new_value: T) -> Self {
        if self.controlled_value is Some {
            self
        } else {
            UseControllableStateReturn {
                controlled_value: self.controlled_value,
                internal_value: new_value,
            }
        }
    }

    /// The state after one request for each of `requests`, in their order.
    pub open spec fn after_sets(self, requests: Seq<T>) -> Self
        decreases requests.len(),
    {
        if requests.len() == 0 {
            self
        } else {
            self.after_sets(requests.drop_last()).after_set(requests.last())
        }
    }

    /// What a request changes: nothing of a controlled state, and of an
    /// uncontrolled one the value it keeps.
    pub broadcast proof fn lemma_after_set(self, new_value: T)
        ensures
            #![trigger self.after_set(new_value)]
            self.after_set(new_value).controlled_value() == self.controlled_value(),
            self.is_controlled_spec() ==> self.after_set(new_value) == self,
            !self.is_controlled_spec() ==> self.after_set(new_value).internal_value()
                == new_value,
    {
    }

    /// Whether the value comes from outside.
    pub fn is_controlled(&self) -> (r: bool)
        ensures
            r == self.is_controlled_spec(),
    {
        self.controlled_value.is_some()
    }
}

impl<T: Copy> UseControllableStateReturn<T> {
    /// The current value.
    pub fn value(&self) -> (r: T)
        ensures
            r == self.current_value(),
    {
        match self.controlled_value {
            Some(v) => v,
            None => self.internal_value,
        }
    }

    /// Asks for the value to become `new_value`.
    ///
    /// An uncontrolled state takes the new value; a controlled one is left
    /// exactly as it was. The result is the value to announce to whoever
    /// listens for changes: always `new_value`, in both modes. The state is
    /// already updated when the announcement is handed out, so nothing the
    /// listener does can leave it stale.
    pub fn set_value(&mut self, new_value: T) -> (announced: T)
        ensures
            announced == new_value,
            *final(self) == old(self).after_set(new_value),
            final(self).controlled_value() == old(self).controlled_value(),
            final(self).current_value() == (if old(self).is_controlled_spec() {
                old(self).current_value()
            } else {
                new_value
            }),
    {
        if self.controlled_value.is_none() {
            self.internal_value = new_value;
        }
        new_value
    }
}

/// Sets up the state of a primitive from the value supplied from outside, if
/// any, and the value to start from when there is none.
///
/// Without a starting value the primitive starts from the default of `T`.
pub fn use_controllable_state<T: Default>(
    controlled_value: Option<T>,
    default_value: Option<T>,
) -> (state: UseControllableStateReturn<T>)
    ensures
        state.controlled_value() == controlled_value,
        match default_value {
            Some(d) => state.internal_value() == d,
            None => call_ensures(T::default, (), state.internal_value()),
        },
{
    let internal_value = match default_value {
        Some(d) => d,
        None => T::default(),
    };
    UseControllableStateReturn { controlled_value, internal_value }
}

/// However many requests a controlled state is sent, it shows the value
/// supplied from outside.
pub proof fn lemma_controlled_value_prevails<T>(
    state: UseControllableStateReturn<T>,
    x: T,
    requests: Seq<T>,
)
    requires
        state.controlled_value() == Some(x),
    ensures
        state.after_sets(requests) == state,
        state.after_sets(requests).current_value() == x,
    decreases requests.len(),
{
    if requests.len() > 0 {
        lemma_controlled_value_prevails(state, x, requests.drop_last());
        state.lemma_after_set(requests.last());
    }
}

/// An uncontrolled state shows the value it started from until a request
/// arrives, and from then on the value last asked for.
pub proof fn lemma_uncontrolled_follows_set<T>(state: UseControllableStateReturn<T>, d: T, y: T)
    requires
        state.controlled_value() is None,
        state.internal_value() == d,
    ensures
        state.current_value() == d,
        state.after_set(y).current_value() == y,
{
    state.lemma_after_set(y);
}

} // verus!
