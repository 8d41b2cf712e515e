//! The state of a progress bar: how far a task has come, if that is known.
//!
//! Nothing here fails. A limit that cannot be one is replaced by 100, and a
//! value that cannot lie on the bar is dropped, which leaves the progress
//! indeterminate.
use crate::binary64::Binary64;
use crate::text::{append_decimal, decimal, view_of};
use vstd::prelude::*;
use vstd::string::StringExecFns;

verus! {

/// What a progress bar reports of its task.
#[derive(Clone, Copy, Debug, PartialEq, Eq, Structural)]
pub enum ProgressLabel {
    /// How far the task has come is not known.
    Indeterminate,
    /// The task is under way.
    Loading,
    /// The task is done.
    Complete,
}

impl ProgressLabel {
    /// The value of `data-state`.
    pub open spec fn state_attr_spec(self) -> Seq<char> {
        match self {
            ProgressLabel::Indeterminate => "indeterminate"@,
            ProgressLabel::Loading => "loading"@,
            ProgressLabel::Complete => "complete"@,
        }
    }

    pub fn state_attr(self) -> (r: &'static str)
        ensures
            r@ == self.state_attr_spec(),
    {
        match self {
            ProgressLabel::Indeterminate => "indeterminate",
            ProgressLabel::Loading => "loading",
            ProgressLabel::Complete => "complete",
        }
    }
}

/// Whether `raw` can be the limit of a progress bar: finite and above zero.
pub open spec fn is_valid_max(raw: Binary64) -> bool {
    raw.is_finite_spec() && Binary64::zero_spec().ieee_lt_spec(raw)
}

/// The limit that a progress bar uses for the limit it was given.
pub open spec fn resolve_max_spec(raw: Binary64) -> Binary64 {
    if is_valid_max(raw) {
        raw
    } else {
        Binary64::hundred_spec()
    }
}

/// The value that a progress bar with limit `max` uses for the value it was
/// given: the same, if it is finite and lies from zero to `max`.
pub open spec fn resolve_value_spec(raw: Binary64, max: Binary64) -> Option<Binary64> {
    if raw.is_finite_spec() && Binary64::zero_spec().ieee_le_spec(raw) && raw.ieee_le_spec(max) {
        Some(raw)
    } else {
        None
    }
}

/// What a bar at `value` of `max` reports.
pub open spec fn state_label_spec(value: Option<Binary64>, max: Binary64) -> ProgressLabel {
    match value {
        None => ProgressLabel::Indeterminate,
        Some(v) => if max.ieee_le_spec(v) {
            ProgressLabel::Complete
        } else {
            ProgressLabel::Loading
        },
    }
}

/// The label that is read out for a bar at `value` of `max` when the caller
/// gives no other: the rounded percentage and a percent sign.
pub open spec fn default_value_label(value: Binary64, max: Binary64) -> Seq<char> {
    decimal(value.rounded_percent_spec(max) as nat) + seq!['%']
}

/// Replaces a limit that is not finite or not above zero by 100.
pub fn resolve_max(raw_max: Binary64) -> (max: Binary64)
    ensures
        max == resolve_max_spec(raw_max),
        is_valid_max(max),
{
    proof {
        lemma_hundred_is_valid();
    }
    if raw_max.is_finite() && Binary64::zero().lt(raw_max) {
        raw_max
    } else {
        Binary64::hundred()
    }
}

/// Keeps a value that is finite and lies from zero to `max`, and drops any
/// other.
pub fn resolve_value(raw_value: Binary64, max: Binary64) -> (value: Option<Binary64>)
    ensures
        value == resolve_value_spec(raw_value, max),
{
    if raw_value.is_finite() && Binary64::zero().le(raw_value) && raw_value.le(max) {
        Some(raw_value)
    } else {
        None
    }
}

/// One hundred is a limit that needs no replacing.
pub proof fn lemma_hundred_is_valid()
    ensures
        is_valid_max(Binary64::hundred_spec()),
{
    let h = Binary64::hundred_spec();
    assert(h.magnitude_bits() == 0x4059_0000_0000_0000);
    assert(Binary64::zero_spec().magnitude_bits() == 0);
    crate::binary64::lemma_order_key_orders(Binary64::zero_spec(), h);
}

/// A percentage kept exact: the part and the whole whose quotient, times
/// one hundred, it is.
#[derive(Clone, Copy, Debug)]
pub struct Percentage {
    numerator: Binary64,
    denominator: Binary64,
}

impl Percentage {
    #[verifier::type_invariant]
    pub closed spec fn wf(self) -> bool {
        self.numerator.is_part_of(self.denominator)
    }

    pub closed spec fn numerator_spec(self) -> Binary64 {
        self.numerator
    }

    pub closed spec fn denominator_spec(self) -> Binary64 {
        self.denominator
    }

    /// The part.
    pub fn numerator(&self) -> (r: Binary64)
        ensures
            r == self.numerator_spec(),
            r.is_part_of(self.denominator_spec()),
    {
        proof {
            use_type_invariant(self);
        }
        self.numerator
    }

    /// The whole: finite and above zero.
    pub fn denominator(&self) -> (r: Binary64)
        ensures
            r == self.denominator_spec(),
            self.numerator_spec().is_part_of(r),
    {
        proof {
            use_type_invariant(self);
        }
        self.denominator
    }

    /// The percentage rounded to the nearest whole number.
    pub fn rounded(&self) -> (r: u8)
        ensures
            r == self.numerator_spec().rounded_percent_spec(self.denominator_spec()),
            r <= 100,
    {
        proof {
            use_type_invariant(self);
        }
        self.numerator.rounded_percent_of(self.denominator)
    }
}

/// A progress bar's state and what is derived from it.
pub struct UseProgressStateReturn {
    value: Option<Binary64>,
    max: Binary64,
    indeterminate: bool,
}

impl UseProgressStateReturn {
    #[verifier::type_invariant]
    pub closed spec fn wf(&self) -> bool {
        &&& is_valid_max(self.max)
        &&& self.value matches Some(v) ==> v.is_part_of(self.max)
    }

    /// The value on the bar, if the one given can lie on it.
    pub closed spec fn value_spec(&self) -> Option<Binary64> {
        self.value
    }

    /// The limit of the bar.
    pub closed spec fn max_spec(&self) -> Binary64 {
        self.max
    }

    pub closed spec fn indeterminate_spec(&self) -> bool {
        self.indeterminate
    }

    /// The value that is shown: none while the bar is marked indeterminate.
    pub open spec fn shown_value(&self) -> Option<Binary64> {
        if self.indeterminate_spec() {
            None
        } else {
            self.value_spec()
        }
    }

    /// The value on the bar, if the one given can lie on it.
    pub fn value(&self) -> (r: Option<Binary64>)
        ensures
            r == self.value_spec(),
            r matches Some(v) ==> v.is_part_of(self.max_spec()),
    {
        proof {
            use_type_invariant(self);
        }
        self.value
    }

    /// The limit of the bar: finite and above zero.
    pub fn max(&self) -> (r: Binary64)
        ensures
            r == self.max_spec(),
            is_valid_max(r),
    {
        proof {
            use_type_invariant(self);
        }
        self.max
    }

    /// Whether the bar is marked indeterminate.
    pub fn indeterminate(&self) -> (r: bool)
        ensures
            r == self.indeterminate_spec(),
    {
        self.indeterminate
    }

    /// How far the bar is filled: nothing to say while the progress is
    /// indeterminate, else the value as a part of the limit.
    pub fn percentage(&self) -> (r: Option<Percentage>)
        ensures
            r is None <==> self.shown_value() is None,
            r matches Some(p) ==> Some(p.numerator_spec()) == self.shown_value()
                && p.denominator_spec() == self.max_spec(),
    {
        proof {
            use_type_invariant(self);
        }
        if self.indeterminate {
            None
        } else {
            match self.value {
                Some(v) => Some(Percentage { numerator: v, denominator: self.max }),
                None => None,
            }
        }
    }

    /// What the bar reports: indeterminate without a value to show,
    /// complete when the value has reached the limit, loading otherwise.
    pub fn state_label(&self) -> (r: ProgressLabel)
        ensures
            r == state_label_spec(self.shown_value(), self.max_spec()),
    {
        if self.indeterminate {
            ProgressLabel::Indeterminate
        } else {
            match self.value {
                None => ProgressLabel::Indeterminate,
                Some(v) => if self.max.le(v) {
                    ProgressLabel::Complete
                } else {
                    ProgressLabel::Loading
                },
            }
        }
    }

    /// The value of `data-state`.
    pub fn get_state_attr(&self) -> (r: &'static str)
        ensures
            r@ == state_label_spec(self.shown_value(), self.max_spec()).state_attr_spec(),
    {
        self.state_label().state_attr()
    }

    /// The value of `aria-valuenow`: absent while the progress is
    /// indeterminate.
    pub fn get_aria_valuenow(&self) -> (r: Option<Binary64>)
        ensures
            r == self.shown_value(),
    {
        if self.indeterminate {
            None
        } else {
            self.value
        }
    }

    /// The value of `aria-valuemax`.
    pub fn get_aria_valuemax(&self) -> (r: Binary64)
        ensures
            r == self.max_spec(),
    {
        self.max
    }

    /// The value of `aria-valuemin`: always zero.
    pub fn get_aria_valuemin(&self) -> (r: Binary64)
        ensures
            r == Binary64::zero_spec(),
    {
        Binary64::zero()
    }

    /// The label that is read out: the rounded percentage and a percent
    /// sign, or nothing while the progress is indeterminate.
    pub fn value_label(&self) -> (r: Option<String>)
        ensures
            match self.shown_value() {
                None => r is None,
                Some(v) => r matches Some(s) && s@ == default_value_label(v, self.max_spec()),
            },
    {
        match self.percentage() {
            None => None,
            Some(p) => {
                let mut s = String::new();
                append_decimal(&mut s, p.rounded() as u64);
                proof {
                    reveal_strlit("%");
                }
                s.append("%");
                assert(s@ =~= default_value_label(p.numerator_spec(), p.denominator_spec()));
                Some(s)
            },
        }
    }

    /// The label that is read out, made by `formatter` from the value and
    /// the limit; nothing while the progress is indeterminate.
    pub fn value_label_with<F: Fn(Binary64, Binary64) -> String>(&self, formatter: F) -> (r:
        Option<String>)
        requires
            forall|v: Binary64, m: Binary64| v.is_part_of(m) ==> formatter.requires((v, m)),
        ensures
            match self.shown_value() {
                None => r is None,
                Some(v) => r matches Some(s) && formatter.ensures((v, self.max_spec()), s),
            },
    {
        proof {
            use_type_invariant(self);
        }
        if self.indeterminate {
            None
        } else {
            match self.value {
                None => None,
                Some(v) => Some(formatter(v, self.max)),
            }
        }
    }
}

/// What is shown lies on the bar: from zero up to the limit, which is above
/// zero. The bar reports complete exactly when the value shown has reached
/// the limit, that is at one hundred percent.
pub proof fn lemma_shown_value_lies_on_the_bar(state: UseProgressStateReturn)
    requires
        state.wf(),
    ensures
        0 < state.max_spec().scaled(),
        state.shown_value() matches Some(v) ==> 0 <= v.scaled() <= state.max_spec().scaled(),
        state_label_spec(state.shown_value(), state.max_spec()) == ProgressLabel::Complete
            <==> (state.shown_value() matches Some(v) && v.scaled() == state.max_spec().scaled()),
        state_label_spec(state.shown_value(), state.max_spec()) == ProgressLabel::Indeterminate
            <==> state.shown_value() is None,
{
    crate::binary64::lemma_zero_magnitude(Binary64::zero_spec());
    assert(Binary64::zero_spec().scaled() == 0);
}

/// Sets up a progress bar from the value, the limit and the mark that it was
/// given, each of which may be missing.
///
/// A missing limit is 100, and so is one that is not finite or not above
/// zero. A value that is not finite or lies outside the bar counts as
/// missing. Without the mark the bar is not marked indeterminate.
pub fn use_progress_state(
    value: Option<Binary64>,
    max: Option<Binary64>,
    indeterminate: Option<bool>,
) -> (r: UseProgressStateReturn)
    ensures
        r.max_spec() == (match max {
            Some(m) => resolve_max_spec(m),
            None => Binary64::hundred_spec(),
        }),
        r.value_spec() == (match value {
            Some(v) => resolve_value_spec(v, r.max_spec()),
            None => None,
        }),
        r.indeterminate_spec() == (indeterminate == Some(true)),
{
    let max = match max {
        Some(m) => resolve_max(m),
        None => {
            proof {
                lemma_hundred_is_valid();
            }
            Binary64::hundred()
        },
    };
    let value = match value {
        Some(v) => resolve_value(v, max),
        None => None,
    };
    let indeterminate = match indeterminate {
        Some(flag) => flag,
        None => false,
    };
    UseProgressStateReturn { value, max, indeterminate }
}

/// The value of `style` that gives the filled part of a bar its width: the
/// percentage as the caller has written it out, or zero where there is none.
pub open spec fn progress_style_spec(percentage: Option<Seq<char>>) -> Seq<char> {
    match percentage {
        Some(p) => "width: "@ + p + "%"@,
        None => "width: 0%"@,
    }
}

/// The value of `style` for the filled part of a bar, from the percentage
/// written out in decimal.
pub fn get_progress_style(percentage: Option<&str>) -> (r: String)
    ensures
        r@ == progress_style_spec(view_of(percentage)),
{
    match percentage {
        Some(p) => {
            let mut s = String::from_str("width: ");
            s.append(p);
            s.append("%");
            s
        },
        None => String::from_str("width: 0%"),
    }
}

} // verus!
